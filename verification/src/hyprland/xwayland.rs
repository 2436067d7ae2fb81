//! The `xwayland { }` section.
use vstd::prelude::*;
use crate::hyprland::context::{HyprlandConfig, HyprlandRenderContext};
use crate::hyprland::section::{block_ok, block_text, render_pairs_block};
use crate::text::{bool_val, bool_value, kv_opt, prefixed, push_kv_opt};

verus! {

/// XWayland configuration section, rendered as an `xwayland { }` block.
pub struct XWaylandSection {
    /// Enable or disable XWayland entirely.
    pub enabled: Option<bool>,
    /// Force all XWayland windows to report 1x scaling.
    pub force_zero_scaling: Option<bool>,
    /// Use nearest-neighbour scaling instead of bilinear.
    pub use_nearest_neighbor: Option<bool>,
}

impl Default for XWaylandSection {
    fn default() -> (r: Self)
        ensures
            r.enabled is None,
            r.force_zero_scaling is None,
            r.use_nearest_neighbor is None,
    {
        XWaylandSection { enabled: None, force_zero_scaling: None, use_nearest_neighbor: None }
    }
}

impl XWaylandSection {
    pub fn new() -> (r: Self)
        ensures
            r.enabled is None,
            r.force_zero_scaling is None,
            r.use_nearest_neighbor is None,
    {
        Self::default()
    }

    /// Enable or disable XWayland.
    pub fn enabled(self, v: bool) -> (r: Self)
        ensures
            r == (XWaylandSection { enabled: Some(v), ..self }),
    {
        XWaylandSection { enabled: Some(v), ..self }
    }

    /// Force XWayland to report 1x scaling for all windows.
    pub fn force_zero_scaling(self, v: bool) -> (r: Self)
        ensures
            r == (XWaylandSection { force_zero_scaling: Some(v), ..self }),
    {
        XWaylandSection { force_zero_scaling: Some(v), ..self }
    }

    /// Use nearest-neighbour scaling for XWayland windows.
    pub fn use_nearest_neighbor(self, v: bool) -> (r: Self)
        ensures
            r == (XWaylandSection { use_nearest_neighbor: Some(v), ..self }),
    {
        XWaylandSection { use_nearest_neighbor: Some(v), ..self }
    }

    /// The `key = value` texts of the set options, in order.
    pub open spec fn spec_pairs(&self) -> Seq<Seq<char>> {
        kv_opt("enabled"@, bool_val(self.enabled)) + kv_opt(
            "force_zero_scaling"@,
            bool_val(self.force_zero_scaling),
        ) + kv_opt("use_nearest_neighbor"@, bool_val(self.use_nearest_neighbor))
    }
}

impl HyprlandConfig for XWaylandSection {
    open spec fn spec_render(&self, ctx: HyprlandRenderContext) -> Seq<char> {
        block_text(ctx, "xwayland"@, prefixed(ctx.spec_deeper().spec_indent(), self.spec_pairs()))
    }

    open spec fn render_ok(&self, ctx: HyprlandRenderContext) -> bool {
        block_ok(ctx)
    }

    fn render(&self, ctx: &HyprlandRenderContext) -> (r: String) {
        let mut pairs: Vec<String> = Vec::new();
        push_kv_opt(&mut pairs, "enabled", bool_value(self.enabled));
        push_kv_opt(&mut pairs, "force_zero_scaling", bool_value(self.force_zero_scaling));
        push_kv_opt(&mut pairs, "use_nearest_neighbor", bool_value(self.use_nearest_neighbor));
        render_pairs_block(ctx, "xwayland", &pairs)
    }

    fn validate(&self) -> (r: Result<(), String>) {
        Ok(())
    }
}

} // verus!
