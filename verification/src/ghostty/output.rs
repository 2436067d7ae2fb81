//! Where the generated Ghostty config goes, and what would be written there.
use vstd::prelude::*;
use crate::ghostty::context::{GhosttyConfig, GhosttyRenderContext};
use crate::text::owned;

verus! {

/// The target file of a generated Ghostty configuration.
///
/// The path is held as text; writing the file is left to the caller.
pub struct GhosttyOutput {
    pub target: String,
}

impl GhosttyOutput {
    /// Write to an arbitrary file path.
    pub fn at_path(path: &str) -> (r: Self)
        ensures
            r.target@ == path@,
    {
        GhosttyOutput { target: owned(path) }
    }

    /// The text that would be written: the configuration rendered in the
    /// default context.
    pub fn preview<C: GhosttyConfig>(&self, config: &C) -> (r: String)
        ensures
            r@ == config.spec_render(GhosttyRenderContext::spec_default()),
    {
        let ctx = GhosttyRenderContext::default();
        config.render(&ctx)
    }
}

} // verus!
