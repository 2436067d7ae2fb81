//! Where the generated `hyprland.conf` goes, and what would be written there.
use vstd::prelude::*;
use crate::hyprland::context::{HyprlandConfig, HyprlandRenderContext};
use crate::text::owned;

verus! {

/// The target file of the generated Hyprland configuration.
///
/// The path is held as text; writing the file is left to the caller.
pub struct HyprlandOutput {
    pub target: String,
}

impl HyprlandOutput {
    /// Write to an arbitrary file path.
    pub fn at_path(path: &str) -> (r: Self)
        ensures
            r.target@ == path@,
    {
        HyprlandOutput { target: owned(path) }
    }

    /// The text that would be written: the configuration rendered in the
    /// default context.
    pub fn preview<C: HyprlandConfig>(&self, config: &C) -> (r: String)
        requires
            config.render_ok(HyprlandRenderContext::spec_default()),
        ensures
            r@ == config.spec_render(HyprlandRenderContext::spec_default()),
    {
        let ctx = HyprlandRenderContext::default();
        config.render(&ctx)
    }
}

} // verus!
