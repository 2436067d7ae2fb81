//! Tiling layouts: the dwindle and master blocks, and the scrolling and
//! monocle layouts of their plugins (`plugin { … { } }`).
use vstd::prelude::*;
use crate::hyprland::context::{HyprlandConfig, HyprlandRenderContext};
use crate::hyprland::section::{block_ok, block_text, render_block, render_pairs_block};
use crate::text::{
    bool_val, bool_value, kv_opt, num_val, opt_string, opt_view, owned, prefixed, push_kv_opt,
    push_part, u64_str, views,
};

verus! {

/// Dwindle tiling layout configuration.
///
/// Rendered as a `dwindle { }` section block.
///
/// The dwindle layout recursively splits the screen in alternating
/// horizontal/vertical halves — similar to bspwm.  It is the default layout.
pub struct DwindleLayout {
    pub pseudotile: Option<bool>,
    pub preserve_split: Option<bool>,
    /// 0 = inherit last, 1 = always split to the left, 2 = always split to the right.
    pub force_split: Option<u8>,
    pub smart_split: Option<bool>,
    pub smart_resizing: Option<bool>,
    /// 0 = gaps always, 1 = no gaps when one window, 2 = no gaps when one tiled window.
    pub no_gaps_when_only: Option<u8>,
    pub use_active_for_splits: Option<bool>,
    /// Default split ratio as decimal text.
    pub default_split_ratio: Option<String>,
    /// Split width multiplier as decimal text.
    pub split_width_multiplier: Option<String>,
    /// Scale of special workspace windows as decimal text.
    pub special_scale_factor: Option<String>,
}

impl Default for DwindleLayout {
    fn default() -> (r: Self)
        ensures
            r.pseudotile is None,
            r.preserve_split is None,
            r.force_split is None,
            r.smart_split is None,
            r.smart_resizing is None,
            r.no_gaps_when_only is None,
            r.use_active_for_splits is None,
            r.default_split_ratio is None,
            r.split_width_multiplier is None,
            r.special_scale_factor is None,
    {
        DwindleLayout { pseudotile: None, preserve_split: None, force_split: None, smart_split: None, smart_resizing: None, no_gaps_when_only: None, use_active_for_splits: None, default_split_ratio: None, split_width_multiplier: None, special_scale_factor: None }
    }
}

impl DwindleLayout {
    pub fn new() -> (r: Self)
        ensures
            r.pseudotile is None,
            r.preserve_split is None,
            r.force_split is None,
            r.smart_split is None,
            r.smart_resizing is None,
            r.no_gaps_when_only is None,
            r.use_active_for_splits is None,
            r.default_split_ratio is None,
            r.split_width_multiplier is None,
            r.special_scale_factor is None,
    {
        Self::default()
    }

    /// Enable pseudo-tiling (window acts tiled but keeps its floating size).
    pub fn pseudotile(self, v: bool) -> (r: Self)
        ensures
            r == (DwindleLayout { pseudotile: Some(v), ..self }),
    {
        DwindleLayout { pseudotile: Some(v), ..self }
    }

    /// Preserve the split direction when a window is removed.
    pub fn preserve_split(self, v: bool) -> (r: Self)
        ensures
            r == (DwindleLayout { preserve_split: Some(v), ..self }),
    {
        DwindleLayout { preserve_split: Some(v), ..self }
    }

    /// Force split direction: 0 = last used, 1 = always left/top, 2 = always right/bottom.
    pub fn force_split(self, v: u8) -> (r: Self)
        ensures
            r == (DwindleLayout { force_split: Some(v), ..self }),
    {
        DwindleLayout { force_split: Some(v), ..self }
    }

    pub fn smart_split(self, v: bool) -> (r: Self)
        ensures
            r == (DwindleLayout { smart_split: Some(v), ..self }),
    {
        DwindleLayout { smart_split: Some(v), ..self }
    }

    pub fn smart_resizing(self, v: bool) -> (r: Self)
        ensures
            r == (DwindleLayout { smart_resizing: Some(v), ..self }),
    {
        DwindleLayout { smart_resizing: Some(v), ..self }
    }

    pub fn no_gaps_when_only(self, v: u8) -> (r: Self)
        ensures
            r == (DwindleLayout { no_gaps_when_only: Some(v), ..self }),
    {
        DwindleLayout { no_gaps_when_only: Some(v), ..self }
    }

    pub fn use_active_for_splits(self, v: bool) -> (r: Self)
        ensures
            r == (DwindleLayout { use_active_for_splits: Some(v), ..self }),
    {
        DwindleLayout { use_active_for_splits: Some(v), ..self }
    }

    /// Default split ratio, given as its decimal text (e.g. `"1.2"`).
    pub fn default_split_ratio_text(self, text: &str) -> (r: Self)
        ensures
            opt_view(r.default_split_ratio) == Some(text@),
            r == (DwindleLayout { default_split_ratio: r.default_split_ratio, ..self }),
    {
        DwindleLayout { default_split_ratio: Some(owned(text)), ..self }
    }

    /// Split width multiplier, given as its decimal text.
    pub fn split_width_multiplier_text(self, text: &str) -> (r: Self)
        ensures
            opt_view(r.split_width_multiplier) == Some(text@),
            r == (DwindleLayout { split_width_multiplier: r.split_width_multiplier, ..self }),
    {
        DwindleLayout { split_width_multiplier: Some(owned(text)), ..self }
    }

    /// The `key = value` texts of the set options, in order.
    pub open spec fn spec_pairs(&self) -> Seq<Seq<char>> {
        kv_opt("pseudotile"@, bool_val(self.pseudotile))
            + kv_opt("preserve_split"@, bool_val(self.preserve_split))
            + kv_opt("force_split"@, num_val((match self.force_split { Some(n) => Some(n as nat), None => None })))
            + kv_opt("smart_split"@, bool_val(self.smart_split))
            + kv_opt("smart_resizing"@, bool_val(self.smart_resizing))
            + kv_opt("no_gaps_when_only"@, num_val((match self.no_gaps_when_only { Some(n) => Some(n as nat), None => None })))
            + kv_opt("use_active_for_splits"@, bool_val(self.use_active_for_splits))
            + kv_opt("default_split_ratio"@, opt_view(self.default_split_ratio))
            + kv_opt("split_width_multiplier"@, opt_view(self.split_width_multiplier))
            + kv_opt("special_scale_factor"@, opt_view(self.special_scale_factor))
    }
}

impl HyprlandConfig for DwindleLayout {
    open spec fn spec_render(&self, ctx: HyprlandRenderContext) -> Seq<char> {
        block_text(ctx, "dwindle"@, prefixed(ctx.spec_deeper().spec_indent(), self.spec_pairs()))
    }

    open spec fn render_ok(&self, ctx: HyprlandRenderContext) -> bool {
        block_ok(ctx)
    }

    fn render(&self, ctx: &HyprlandRenderContext) -> (r: String) {
        let mut pairs: Vec<String> = Vec::new();
        push_kv_opt(&mut pairs, "pseudotile", bool_value(self.pseudotile));
        push_kv_opt(&mut pairs, "preserve_split", bool_value(self.preserve_split));
        push_kv_opt(&mut pairs, "force_split", (match self.force_split { Some(n) => Some(u64_str(n as u64)), None => None }));
        push_kv_opt(&mut pairs, "smart_split", bool_value(self.smart_split));
        push_kv_opt(&mut pairs, "smart_resizing", bool_value(self.smart_resizing));
        push_kv_opt(&mut pairs, "no_gaps_when_only", (match self.no_gaps_when_only { Some(n) => Some(u64_str(n as u64)), None => None }));
        push_kv_opt(&mut pairs, "use_active_for_splits", bool_value(self.use_active_for_splits));
        push_kv_opt(&mut pairs, "default_split_ratio", opt_string(&self.default_split_ratio));
        push_kv_opt(&mut pairs, "split_width_multiplier", opt_string(&self.split_width_multiplier));
        push_kv_opt(&mut pairs, "special_scale_factor", opt_string(&self.special_scale_factor));
        assert(views(pairs@) =~= self.spec_pairs());
        render_pairs_block(ctx, "dwindle", &pairs)
    }

    fn validate(&self) -> (r: Result<(), String>) {
        Ok(())
    }
}

/// Master tiling layout configuration.
///
/// Rendered as a `master { }` section block: one master window and the
/// others in a secondary column.  The split ratio, orientation, and
/// new-window placement are fully configurable.
pub struct MasterLayout {
    pub allow_small_split: Option<bool>,
    /// Scale of special workspace windows as decimal text.
    pub special_scale_factor: Option<String>,
    /// Master area fraction of total width/height (0.0–1.0), as decimal text.
    pub mfact: Option<String>,
    /// Where new windows go: `"master"`, `"slave"`, `"inherit"`.
    pub new_status: Option<String>,
    pub new_on_top: Option<bool>,
    /// `"master"` or `"slave"` or `"none"`.
    pub new_on_active: Option<String>,
    pub no_gaps_when_only: Option<u8>,
    /// Orientation of the stack: `"left"`, `"right"`, `"top"`, `"bottom"`, `"center"`.
    pub orientation: Option<String>,
    pub inherit_fullscreen: Option<bool>,
    pub always_center_master: Option<bool>,
    pub smart_resizing: Option<bool>,
    pub drop_at_cursor: Option<bool>,
}

impl Default for MasterLayout {
    fn default() -> (r: Self)
        ensures
            r.allow_small_split is None,
            r.special_scale_factor is None,
            r.mfact is None,
            r.new_status is None,
            r.new_on_top is None,
            r.new_on_active is None,
            r.no_gaps_when_only is None,
            r.orientation is None,
            r.inherit_fullscreen is None,
            r.always_center_master is None,
            r.smart_resizing is None,
            r.drop_at_cursor is None,
    {
        MasterLayout { allow_small_split: None, special_scale_factor: None, mfact: None, new_status: None, new_on_top: None, new_on_active: None, no_gaps_when_only: None, orientation: None, inherit_fullscreen: None, always_center_master: None, smart_resizing: None, drop_at_cursor: None }
    }
}

impl MasterLayout {
    pub fn new() -> (r: Self)
        ensures
            r.allow_small_split is None,
            r.special_scale_factor is None,
            r.mfact is None,
            r.new_status is None,
            r.new_on_top is None,
            r.new_on_active is None,
            r.no_gaps_when_only is None,
            r.orientation is None,
            r.inherit_fullscreen is None,
            r.always_center_master is None,
            r.smart_resizing is None,
            r.drop_at_cursor is None,
    {
        Self::default()
    }

    /// Master area fraction, given as its decimal text (e.g. `"0.55"`).
    pub fn mfact_text(self, text: &str) -> (r: Self)
        ensures
            opt_view(r.mfact) == Some(text@),
            r == (MasterLayout { mfact: r.mfact, ..self }),
    {
        MasterLayout { mfact: Some(owned(text)), ..self }
    }

    /// Where new windows appear: `"master"`, `"slave"`, `"inherit"`.
    pub fn new_status(self, s: &str) -> (r: Self)
        ensures
            opt_view(r.new_status) == Some(s@),
            r == (MasterLayout { new_status: r.new_status, ..self }),
    {
        MasterLayout { new_status: Some(owned(s)), ..self }
    }

    /// Stack orientation: `"left"`, `"right"`, `"top"`, `"bottom"`, `"center"`.
    pub fn orientation(self, s: &str) -> (r: Self)
        ensures
            opt_view(r.orientation) == Some(s@),
            r == (MasterLayout { orientation: r.orientation, ..self }),
    {
        MasterLayout { orientation: Some(owned(s)), ..self }
    }

    pub fn new_on_top(self, v: bool) -> (r: Self)
        ensures
            r == (MasterLayout { new_on_top: Some(v), ..self }),
    {
        MasterLayout { new_on_top: Some(v), ..self }
    }

    pub fn no_gaps_when_only(self, v: u8) -> (r: Self)
        ensures
            r == (MasterLayout { no_gaps_when_only: Some(v), ..self }),
    {
        MasterLayout { no_gaps_when_only: Some(v), ..self }
    }

    pub fn always_center_master(self, v: bool) -> (r: Self)
        ensures
            r == (MasterLayout { always_center_master: Some(v), ..self }),
    {
        MasterLayout { always_center_master: Some(v), ..self }
    }

    pub fn inherit_fullscreen(self, v: bool) -> (r: Self)
        ensures
            r == (MasterLayout { inherit_fullscreen: Some(v), ..self }),
    {
        MasterLayout { inherit_fullscreen: Some(v), ..self }
    }

    /// The `key = value` texts of the set options, in order.
    pub open spec fn spec_pairs(&self) -> Seq<Seq<char>> {
        kv_opt("allow_small_split"@, bool_val(self.allow_small_split))
            + kv_opt("special_scale_factor"@, opt_view(self.special_scale_factor))
            + kv_opt("mfact"@, opt_view(self.mfact))
            + kv_opt("new_status"@, opt_view(self.new_status))
            + kv_opt("new_on_top"@, bool_val(self.new_on_top))
            + kv_opt("new_on_active"@, opt_view(self.new_on_active))
            + kv_opt("no_gaps_when_only"@, num_val((match self.no_gaps_when_only { Some(n) => Some(n as nat), None => None })))
            + kv_opt("orientation"@, opt_view(self.orientation))
            + kv_opt("inherit_fullscreen"@, bool_val(self.inherit_fullscreen))
            + kv_opt("always_center_master"@, bool_val(self.always_center_master))
            + kv_opt("smart_resizing"@, bool_val(self.smart_resizing))
            + kv_opt("drop_at_cursor"@, bool_val(self.drop_at_cursor))
    }
}

impl HyprlandConfig for MasterLayout {
    open spec fn spec_render(&self, ctx: HyprlandRenderContext) -> Seq<char> {
        block_text(ctx, "master"@, prefixed(ctx.spec_deeper().spec_indent(), self.spec_pairs()))
    }

    open spec fn render_ok(&self, ctx: HyprlandRenderContext) -> bool {
        block_ok(ctx)
    }

    fn render(&self, ctx: &HyprlandRenderContext) -> (r: String) {
        let mut pairs: Vec<String> = Vec::new();
        push_kv_opt(&mut pairs, "allow_small_split", bool_value(self.allow_small_split));
        push_kv_opt(&mut pairs, "special_scale_factor", opt_string(&self.special_scale_factor));
        push_kv_opt(&mut pairs, "mfact", opt_string(&self.mfact));
        push_kv_opt(&mut pairs, "new_status", opt_string(&self.new_status));
        push_kv_opt(&mut pairs, "new_on_top", bool_value(self.new_on_top));
        push_kv_opt(&mut pairs, "new_on_active", opt_string(&self.new_on_active));
        push_kv_opt(&mut pairs, "no_gaps_when_only", (match self.no_gaps_when_only { Some(n) => Some(u64_str(n as u64)), None => None }));
        push_kv_opt(&mut pairs, "orientation", opt_string(&self.orientation));
        push_kv_opt(&mut pairs, "inherit_fullscreen", bool_value(self.inherit_fullscreen));
        push_kv_opt(&mut pairs, "always_center_master", bool_value(self.always_center_master));
        push_kv_opt(&mut pairs, "smart_resizing", bool_value(self.smart_resizing));
        push_kv_opt(&mut pairs, "drop_at_cursor", bool_value(self.drop_at_cursor));
        assert(views(pairs@) =~= self.spec_pairs());
        render_pairs_block(ctx, "master", &pairs)
    }

    fn validate(&self) -> (r: Result<(), String>) {
        Ok(())
    }
}

/// Scrolling layout configuration for the hyprscroller plugin.
pub struct ScrollingLayout {
    pub column_default_width: Option<String>,
    pub center_column_first: Option<bool>,
    pub focus_wrap: Option<bool>,
    pub column_widths: Option<String>,
    pub window_heights: Option<String>,
}

impl Default for ScrollingLayout {
    fn default() -> (r: Self)
        ensures
            r.column_default_width is None,
            r.center_column_first is None,
            r.focus_wrap is None,
            r.column_widths is None,
            r.window_heights is None,
    {
        ScrollingLayout {
            column_default_width: None,
            center_column_first: None,
            focus_wrap: None,
            column_widths: None,
            window_heights: None,
        }
    }
}

impl ScrollingLayout {
    pub fn new() -> (r: Self)
        ensures
            r.column_default_width is None,
            r.center_column_first is None,
            r.focus_wrap is None,
            r.column_widths is None,
            r.window_heights is None,
    {
        Self::default()
    }

    /// Default column width, e.g. `"onehalf"`.
    pub fn column_default_width(self, w: &str) -> (r: Self)
        ensures
            opt_view(r.column_default_width) == Some(w@),
            r == (ScrollingLayout { column_default_width: r.column_default_width, ..self }),
    {
        ScrollingLayout { column_default_width: Some(owned(w)), ..self }
    }

    pub fn center_column_first(self, v: bool) -> (r: Self)
        ensures
            r == (ScrollingLayout { center_column_first: Some(v), ..self }),
    {
        ScrollingLayout { center_column_first: Some(v), ..self }
    }

    /// Wrap focus when reaching the edge of the workspace.
    pub fn focus_wrap(self, v: bool) -> (r: Self)
        ensures
            r == (ScrollingLayout { focus_wrap: Some(v), ..self }),
    {
        ScrollingLayout { focus_wrap: Some(v), ..self }
    }

    /// Space-separated list of allowed column widths.
    pub fn column_widths(self, v: &str) -> (r: Self)
        ensures
            opt_view(r.column_widths) == Some(v@),
            r == (ScrollingLayout { column_widths: r.column_widths, ..self }),
    {
        ScrollingLayout { column_widths: Some(owned(v)), ..self }
    }

    /// Space-separated list of allowed window heights.
    pub fn window_heights(self, v: &str) -> (r: Self)
        ensures
            opt_view(r.window_heights) == Some(v@),
            r == (ScrollingLayout { window_heights: r.window_heights, ..self }),
    {
        ScrollingLayout { window_heights: Some(owned(v)), ..self }
    }

    /// The `key = value` texts of the set options, in order.
    pub open spec fn spec_pairs(&self) -> Seq<Seq<char>> {
        kv_opt("column_default_width"@, opt_view(self.column_default_width)) + kv_opt(
            "center_column_first"@,
            bool_val(self.center_column_first),
        ) + kv_opt("focus_wrap"@, bool_val(self.focus_wrap)) + kv_opt(
            "column_widths"@,
            opt_view(self.column_widths),
        ) + kv_opt("window_heights"@, opt_view(self.window_heights))
    }
}

impl HyprlandConfig for ScrollingLayout {
    open spec fn spec_render(&self, ctx: HyprlandRenderContext) -> Seq<char> {
        block_text(
            ctx,
            "plugin"@,
            seq![
                block_text(
                    ctx.spec_deeper(),
                    "scroller"@,
                    prefixed(ctx.spec_deeper().spec_deeper().spec_indent(), self.spec_pairs()),
                ),
            ],
        )
    }

    open spec fn render_ok(&self, ctx: HyprlandRenderContext) -> bool {
        block_ok(ctx) && block_ok(ctx.spec_deeper())
    }

    fn render(&self, ctx: &HyprlandRenderContext) -> (r: String) {
        let mut pairs: Vec<String> = Vec::new();
        push_kv_opt(&mut pairs, "column_default_width", opt_string(&self.column_default_width));
        push_kv_opt(&mut pairs, "center_column_first", bool_value(self.center_column_first));
        push_kv_opt(&mut pairs, "focus_wrap", bool_value(self.focus_wrap));
        push_kv_opt(&mut pairs, "column_widths", opt_string(&self.column_widths));
        push_kv_opt(&mut pairs, "window_heights", opt_string(&self.window_heights));
        assert(views(pairs@) =~= self.spec_pairs());
        let inner = render_pairs_block(&ctx.deeper(), "scroller", &pairs);
        let mut lines: Vec<String> = Vec::new();
        push_part(&mut lines, inner);
        assert(views(lines@) =~= seq![
            block_text(
                ctx.spec_deeper(),
                "scroller"@,
                prefixed(ctx.spec_deeper().spec_deeper().spec_indent(), self.spec_pairs()),
            ),
        ]);
        render_block(ctx, "plugin", &lines)
    }

    fn validate(&self) -> (r: Result<(), String>) {
        Ok(())
    }
}

/// Monocle layout configuration for the **hyprmonocle** community plugin.
///
/// Rendered as a `plugin { monocle { } }` section block.
///
/// Monocle shows one maximised window at a time with optional centering.
/// Alternatively you can achieve a similar effect natively using the master
/// layout with `orientation = center` and `no_gaps_when_only = 1`.
pub struct MonocleLayout {
    pub center: Option<bool>,
    pub new_on_top: Option<bool>,
    /// Scale of special workspace windows as decimal text.
    pub special_scale_factor: Option<String>,
}

impl Default for MonocleLayout {
    fn default() -> (r: Self)
        ensures
            r.center is None,
            r.new_on_top is None,
            r.special_scale_factor is None,
    {
        MonocleLayout { center: None, new_on_top: None, special_scale_factor: None }
    }
}

impl MonocleLayout {
    pub fn new() -> (r: Self)
        ensures
            r.center is None,
            r.new_on_top is None,
            r.special_scale_factor is None,
    {
        Self::default()
    }

    /// Centre the monocle window horizontally.
    pub fn center(self, v: bool) -> (r: Self)
        ensures
            r == (MonocleLayout { center: Some(v), ..self }),
    {
        MonocleLayout { center: Some(v), ..self }
    }

    /// New windows appear at the top of the monocle stack.
    pub fn new_on_top(self, v: bool) -> (r: Self)
        ensures
            r == (MonocleLayout { new_on_top: Some(v), ..self }),
    {
        MonocleLayout { new_on_top: Some(v), ..self }
    }

    /// Scale of special workspace windows, given as its decimal text.
    pub fn special_scale_factor_text(self, text: &str) -> (r: Self)
        ensures
            opt_view(r.special_scale_factor) == Some(text@),
            r == (MonocleLayout { special_scale_factor: r.special_scale_factor, ..self }),
    {
        MonocleLayout { special_scale_factor: Some(owned(text)), ..self }
    }

    /// The `key = value` texts of the set options, in order.
    pub open spec fn spec_pairs(&self) -> Seq<Seq<char>> {
        kv_opt("center"@, bool_val(self.center))
            + kv_opt("new_on_top"@, bool_val(self.new_on_top))
            + kv_opt("special_scale_factor"@, opt_view(self.special_scale_factor))
    }
}

impl HyprlandConfig for MonocleLayout {
    open spec fn spec_render(&self, ctx: HyprlandRenderContext) -> Seq<char> {
        block_text(
            ctx,
            "plugin"@,
            seq![
                block_text(
                    ctx.spec_deeper(),
                    "monocle"@,
                    prefixed(ctx.spec_deeper().spec_deeper().spec_indent(), self.spec_pairs()),
                ),
            ],
        )
    }

    open spec fn render_ok(&self, ctx: HyprlandRenderContext) -> bool {
        block_ok(ctx) && block_ok(ctx.spec_deeper())
    }

    fn render(&self, ctx: &HyprlandRenderContext) -> (r: String) {
        let mut pairs: Vec<String> = Vec::new();
        push_kv_opt(&mut pairs, "center", bool_value(self.center));
        push_kv_opt(&mut pairs, "new_on_top", bool_value(self.new_on_top));
        push_kv_opt(&mut pairs, "special_scale_factor", opt_string(&self.special_scale_factor));
        assert(views(pairs@) =~= self.spec_pairs());
        let inner = render_pairs_block(&ctx.deeper(), "monocle", &pairs);
        let mut lines: Vec<String> = Vec::new();
        push_part(&mut lines, inner);
        assert(views(lines@) =~= seq![
            block_text(
                    ctx.spec_deeper(),
                    "monocle"@,
                    prefixed(ctx.spec_deeper().spec_deeper().spec_indent(), self.spec_pairs()),
                ),
        ]);
        render_block(ctx, "plugin", &lines)
    }

    fn validate(&self) -> (r: Result<(), String>) {
        Ok(())
    }
}

} // verus!
