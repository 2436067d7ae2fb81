//! Bezier curves, animation rules and the `animations { }` section.
use vstd::prelude::*;
use crate::hyprland::context::{HyprlandConfig, HyprlandRenderContext};
use crate::hyprland::section::{block_ok, block_text, render_pairs_block};
use crate::text::{owned, prefixed, push_part, views};

verus! {

/// A custom cubic bezier curve used by animation rules.
///
/// Rendered as: `bezier = name, p1x, p1y, p2x, p2y`
///
/// The four values describe the two control points of a CSS-style cubic
/// bezier; each is held as its decimal text.
#[derive(Clone, Debug)]
pub struct Bezier {
    pub name: String,
    pub p1x: String,
    pub p1y: String,
    pub p2x: String,
    pub p2y: String,
}

impl Bezier {
    /// A curve from its name and the decimal texts of its control points.
    pub fn new(name: &str, p1x: &str, p1y: &str, p2x: &str, p2y: &str) -> (r: Self)
        ensures
            r.name@ == name@,
            r.p1x@ == p1x@,
            r.p1y@ == p1y@,
            r.p2x@ == p2x@,
            r.p2y@ == p2y@,
    {
        Bezier {
            name: owned(name),
            p1x: owned(p1x),
            p1y: owned(p1y),
            p2x: owned(p2x),
            p2y: owned(p2y),
        }
    }

    /// Ease-in-out (smooth, symmetrical): `0.42, 0, 0.58, 1`.
    pub fn ease_in_out(name: &str) -> (r: Self)
        ensures
            r.name@ == name@,
            r.p1x@ == "0.42"@,
            r.p1y@ == "0"@,
            r.p2x@ == "0.58"@,
            r.p2y@ == "1"@,
            r.spec_line() == "bezier = "@ + name@ + ", 0.42, 0, 0.58, 1"@,
    {
        let r = Bezier::new(name, "0.42", "0", "0.58", "1");
        proof {
            reveal_strlit("0.42");
            reveal_strlit("0");
            reveal_strlit("0.58");
            reveal_strlit("1");
            reveal_strlit(", 0.42, 0, 0.58, 1");
            reveal_strlit(", ");
        }
        assert(r.spec_line() =~= "bezier = "@ + name@ + ", 0.42, 0, 0.58, 1"@);
        r
    }

    /// Ease-out with a slight overshoot — popular "snappy" feel:
    /// `0.05, 0.9, 0.1, 1.05`.
    pub fn ease_out_back(name: &str) -> (r: Self)
        ensures
            r.name@ == name@,
            r.p1x@ == "0.05"@,
            r.p1y@ == "0.9"@,
            r.p2x@ == "0.1"@,
            r.p2y@ == "1.05"@,
            r.spec_line() == "bezier = "@ + name@ + ", 0.05, 0.9, 0.1, 1.05"@,
    {
        let r = Bezier::new(name, "0.05", "0.9", "0.1", "1.05");
        proof {
            reveal_strlit("0.05");
            reveal_strlit("0.9");
            reveal_strlit("0.1");
            reveal_strlit("1.05");
            reveal_strlit(", 0.05, 0.9, 0.1, 1.05");
            reveal_strlit(", ");
        }
        assert(r.spec_line() =~= "bezier = "@ + name@ + ", 0.05, 0.9, 0.1, 1.05"@);
        r
    }

    /// Linear (constant speed): `0, 0, 1, 1`.
    pub fn linear(name: &str) -> (r: Self)
        ensures
            r.name@ == name@,
            r.p1x@ == "0"@,
            r.p1y@ == "0"@,
            r.p2x@ == "1"@,
            r.p2y@ == "1"@,
            r.spec_line() == "bezier = "@ + name@ + ", 0, 0, 1, 1"@,
    {
        let r = Bezier::new(name, "0", "0", "1", "1");
        proof {
            reveal_strlit("0");
            reveal_strlit("1");
            reveal_strlit(", 0, 0, 1, 1");
            reveal_strlit(", ");
        }
        assert(r.spec_line() =~= "bezier = "@ + name@ + ", 0, 0, 1, 1"@);
        r
    }

    /// Ease-out (fast start, slow finish): `0, 0, 0.58, 1`.
    pub fn ease_out(name: &str) -> (r: Self)
        ensures
            r.name@ == name@,
            r.p1x@ == "0"@,
            r.p1y@ == "0"@,
            r.p2x@ == "0.58"@,
            r.p2y@ == "1"@,
            r.spec_line() == "bezier = "@ + name@ + ", 0, 0, 0.58, 1"@,
    {
        let r = Bezier::new(name, "0", "0", "0.58", "1");
        proof {
            reveal_strlit("0");
            reveal_strlit("0.58");
            reveal_strlit("1");
            reveal_strlit(", 0, 0, 0.58, 1");
            reveal_strlit(", ");
        }
        assert(r.spec_line() =~= "bezier = "@ + name@ + ", 0, 0, 0.58, 1"@);
        r
    }

    /// `bezier = name, p1x, p1y, p2x, p2y`.
    pub open spec fn spec_line(&self) -> Seq<char> {
        "bezier = "@ + self.name@ + ", "@ + self.p1x@ + ", "@ + self.p1y@ + ", "@ + self.p2x@
            + ", "@ + self.p2y@
    }

    /// `bezier = name, p1x, p1y, p2x, p2y`.
    pub fn line(&self) -> (r: String)
        ensures
            r@ == self.spec_line(),
    {
        let mut s = owned("bezier = ");
        s.append(self.name.as_str());
        s.append(", ");
        s.append(self.p1x.as_str());
        s.append(", ");
        s.append(self.p1y.as_str());
        s.append(", ");
        s.append(self.p2x.as_str());
        s.append(", ");
        s.append(self.p2y.as_str());
        s
    }
}

impl HyprlandConfig for Bezier {
    open spec fn spec_render(&self, ctx: HyprlandRenderContext) -> Seq<char> {
        ctx.spec_indent() + self.spec_line()
    }

    fn render(&self, ctx: &HyprlandRenderContext) -> (r: String) {
        let mut s = ctx.indent();
        let l = self.line();
        s.append(l.as_str());
        s
    }

    fn validate(&self) -> (r: Result<(), String>) {
        Ok(())
    }
}

/// A single animation rule.
///
/// Rendered as: `animation = name, enabled, speed, curve[, style]`
///
/// # Standard animation names
/// - `windows` — window open/close
/// - `windowsIn` / `windowsOut` / `windowsMove` — more granular window events
/// - `fade` — fade in/out
/// - `border` — border colour transitions
/// - `workspaces` — workspace switch
///
/// # Common styles
/// - `slide` / `slidevert` — slide in from an edge
/// - `popin` — scale from centre
/// - `fade` — cross-fade
#[derive(Clone, Debug)]
pub struct Animation {
    pub name: String,
    pub enabled: bool,
    /// The speed as decimal text.
    pub speed: String,
    pub curve: String,
    pub style: Option<String>,
}

impl Animation {
    /// An enabled rule without a style; the speed is given as its decimal text.
    pub fn new(name: &str, speed: &str, curve: &str) -> (r: Self)
        ensures
            r.name@ == name@,
            r.enabled,
            r.speed@ == speed@,
            r.curve@ == curve@,
            r.style is None,
    {
        Animation {
            name: owned(name),
            enabled: true,
            speed: owned(speed),
            curve: owned(curve),
            style: None,
        }
    }

    /// Disable this animation (sets enabled = 0).
    pub fn disabled(self) -> (r: Self)
        ensures
            r == (Animation { enabled: false, ..self }),
    {
        Animation { enabled: false, ..self }
    }

    /// Set the animation style, e.g. `"slide"`, `"popin"`.
    pub fn style(self, s: &str) -> (r: Self)
        ensures
            r.style matches Some(t) && t@ == s@,
            r == (Animation { style: r.style, ..self }),
    {
        Animation { style: Some(owned(s)), ..self }
    }

    /// `animation = name, 1|0, speed, curve[, style]`.
    pub open spec fn spec_line(&self) -> Seq<char> {
        "animation = "@ + self.name@ + ", "@ + (if self.enabled {
            "1"@
        } else {
            "0"@
        }) + ", "@ + self.speed@ + ", "@ + self.curve@ + match self.style {
            Some(s) => ", "@ + s@,
            None => Seq::empty(),
        }
    }

    /// `animation = name, 1|0, speed, curve[, style]`.
    pub fn line(&self) -> (r: String)
        ensures
            r@ == self.spec_line(),
    {
        let mut s = owned("animation = ");
        s.append(self.name.as_str());
        s.append(", ");
        s.append(if self.enabled {
            "1"
        } else {
            "0"
        });
        s.append(", ");
        s.append(self.speed.as_str());
        s.append(", ");
        s.append(self.curve.as_str());
        match &self.style {
            Some(st) => {
                s.append(", ");
                s.append(st.as_str());
            },
            None => {},
        }
        s
    }
}

impl HyprlandConfig for Animation {
    open spec fn spec_render(&self, ctx: HyprlandRenderContext) -> Seq<char> {
        ctx.spec_indent() + self.spec_line()
    }

    fn render(&self, ctx: &HyprlandRenderContext) -> (r: String) {
        let mut s = ctx.indent();
        let l = self.line();
        s.append(l.as_str());
        s
    }

    fn validate(&self) -> (r: Result<(), String>) {
        Ok(())
    }
}

/// The `animations { }` section, containing bezier curves and animation rules.
pub struct AnimationsSection {
    pub enabled: bool,
    pub beziers: Vec<Bezier>,
    pub animations: Vec<Animation>,
}

impl Default for AnimationsSection {
    fn default() -> (r: Self)
        ensures
            r.enabled,
            r.beziers@.len() == 0,
            r.animations@.len() == 0,
    {
        Self::new()
    }
}

impl AnimationsSection {
    pub fn new() -> (r: Self)
        ensures
            r.enabled,
            r.beziers@.len() == 0,
            r.animations@.len() == 0,
    {
        AnimationsSection { enabled: true, beziers: Vec::new(), animations: Vec::new() }
    }

    /// Create a section with all animations disabled.
    pub fn disabled() -> (r: Self)
        ensures
            !r.enabled,
            r.beziers@.len() == 0,
            r.animations@.len() == 0,
    {
        AnimationsSection { enabled: false, beziers: Vec::new(), animations: Vec::new() }
    }

    /// Add a bezier curve definition.
    pub fn bezier(self, b: Bezier) -> (r: Self)
        ensures
            r.beziers@ == self.beziers@.push(b),
            r.enabled == self.enabled,
            r.animations@ == self.animations@,
    {
        let mut beziers = self.beziers;
        beziers.push(b);
        AnimationsSection { enabled: self.enabled, beziers, animations: self.animations }
    }

    /// Add an animation rule.
    pub fn animation(self, a: Animation) -> (r: Self)
        ensures
            r.animations@ == self.animations@.push(a),
            r.enabled == self.enabled,
            r.beziers@ == self.beziers@,
    {
        let mut animations = self.animations;
        animations.push(a);
        AnimationsSection { enabled: self.enabled, beziers: self.beziers, animations }
    }

    /// The entries of the block: `enabled`, the curves, then the animations.
    pub open spec fn spec_pairs(&self) -> Seq<Seq<char>> {
        seq![
            "enabled = "@ + if self.enabled {
                "1"@
            } else {
                "0"@
            },
        ] + Seq::new(self.beziers@.len(), |i: int| self.beziers@[i].spec_line()) + Seq::new(
            self.animations@.len(),
            |i: int| self.animations@[i].spec_line(),
        )
    }
}

impl HyprlandConfig for AnimationsSection {
    open spec fn spec_render(&self, ctx: HyprlandRenderContext) -> Seq<char> {
        block_text(ctx, "animations"@, prefixed(ctx.spec_deeper().spec_indent(), self.spec_pairs()))
    }

    open spec fn render_ok(&self, ctx: HyprlandRenderContext) -> bool {
        block_ok(ctx)
    }

    fn render(&self, ctx: &HyprlandRenderContext) -> (r: String) {
        let mut pairs: Vec<String> = Vec::new();
        push_part(
            &mut pairs,
            owned(
                if self.enabled {
                    "enabled = 1"
                } else {
                    "enabled = 0"
                },
            ),
        );
        proof {
            reveal_strlit("enabled = 1");
            reveal_strlit("enabled = 0");
            reveal_strlit("enabled = ");
            reveal_strlit("1");
            reveal_strlit("0");
        }
        let ghost head = views(pairs@);
        assert(head[0] =~= "enabled = "@ + if self.enabled {
            "1"@
        } else {
            "0"@
        });
        let mut i: usize = 0;
        while i < self.beziers.len()
            invariant
                i <= self.beziers@.len(),
                views(pairs@) == head + Seq::new(i as nat, |j: int| self.beziers@[j].spec_line()),
            decreases self.beziers@.len() - i,
        {
            push_part(&mut pairs, self.beziers[i].line());
            assert(Seq::new((i + 1) as nat, |j: int| self.beziers@[j].spec_line()) =~= Seq::new(
                i as nat,
                |j: int| self.beziers@[j].spec_line(),
            ).push(self.beziers@[i as int].spec_line()));
            i = i + 1;
        }
        let ghost mid = views(pairs@);
        let mut k: usize = 0;
        while k < self.animations.len()
            invariant
                k <= self.animations@.len(),
                views(pairs@) == mid + Seq::new(k as nat, |j: int| self.animations@[j].spec_line()),
            decreases self.animations@.len() - k,
        {
            push_part(&mut pairs, self.animations[k].line());
            assert(Seq::new((k + 1) as nat, |j: int| self.animations@[j].spec_line()) =~= Seq::new(
                k as nat,
                |j: int| self.animations@[j].spec_line(),
            ).push(self.animations@[k as int].spec_line()));
            k = k + 1;
        }
        assert(views(pairs@) =~= self.spec_pairs());
        render_pairs_block(ctx, "animations", &pairs)
    }

    fn validate(&self) -> (r: Result<(), String>) {
        Ok(())
    }
}

} // verus!
