//! Window rules (`windowrulev2 = rule, matcher, …`).
use vstd::prelude::*;
use crate::hyprland::context::{HyprlandConfig, HyprlandRenderContext};
use crate::text::{cat2, cat4, is_empty_str, join, join_strings, owned, push_part, views};

verus! {

/// A Hyprland window rule (v2 syntax); all matchers must match.
pub struct WindowRule {
    pub rule: String,
    pub matchers: Vec<String>,
}

impl WindowRule {
    /// A window rule with a single matcher.
    pub fn new(rule: &str, matcher: &str) -> (r: Self)
        ensures
            r.rule@ == rule@,
            views(r.matchers@) == seq![matcher@],
    {
        let mut m: Vec<String> = Vec::new();
        push_part(&mut m, owned(matcher));
        WindowRule { rule: owned(rule), matchers: m }
    }

    /// Add another matcher (AND logic).
    pub fn and(self, matcher: &str) -> (r: Self)
        ensures
            r.rule == self.rule,
            views(r.matchers@) == views(self.matchers@).push(matcher@),
    {
        let mut s = self;
        push_part(&mut s.matchers, owned(matcher));
        s
    }
}

impl HyprlandConfig for WindowRule {
    open spec fn spec_render(&self, ctx: HyprlandRenderContext) -> Seq<char> {
        ctx.spec_indent() + "windowrulev2 = "@ + self.rule@ + ", "@ + join(
            views(self.matchers@),
            ", "@,
        )
    }

    open spec fn spec_validate(&self) -> Result<(), Seq<char>> {
        if self.rule@.len() == 0 {
            Err("WindowRule rule cannot be empty"@)
        } else if self.matchers@.len() == 0 {
            Err("WindowRule must have at least one matcher"@)
        } else {
            Ok(())
        }
    }

    fn render(&self, ctx: &HyprlandRenderContext) -> (r: String) {
        let matchers = join_strings(&self.matchers, ", ");
        let ind = ctx.indent();
        let head = cat2(ind.as_str(), "windowrulev2 = ");
        cat4(head.as_str(), self.rule.as_str(), ", ", matchers.as_str())
    }

    fn validate(&self) -> (r: Result<(), String>) {
        if is_empty_str(self.rule.as_str()) {
            return Err(owned("WindowRule rule cannot be empty"));
        }
        if self.matchers.len() == 0 {
            return Err(owned("WindowRule must have at least one matcher"));
        }
        Ok(())
    }
}

} // verus!
