//! Workspace rules (`workspace = id, key:value, …`).
use vstd::prelude::*;
use crate::hyprland::context::{HyprlandConfig, HyprlandRenderContext};
use crate::text::{
    cat3, is_empty_str, join, join_strings, nat_str, owned, push_part, u64_str, views,
};

verus! {

/// A Hyprland workspace rule: `workspace = id, key:value[, key:value...]`.
pub struct WorkspaceRule {
    pub id: String,
    pub rules: Vec<(String, String)>,
}

/// The `key:value` text of each rule.
pub open spec fn rule_items(rules: Seq<(String, String)>) -> Seq<Seq<char>> {
    Seq::new(rules.len(), |i: int| rules[i].0@ + ":"@ + rules[i].1@)
}

impl WorkspaceRule {
    pub fn new(id: &str) -> (r: Self)
        ensures
            r.id@ == id@,
            r.rules@.len() == 0,
    {
        WorkspaceRule { id: owned(id), rules: Vec::new() }
    }

    /// Add an arbitrary `key:value` rule.
    pub fn rule(self, key: &str, value: &str) -> (r: Self)
        ensures
            r.id == self.id,
            r.rules@.len() == self.rules@.len() + 1,
            r.rules@.drop_last() == self.rules@,
            r.rules@.last().0@ == key@,
            r.rules@.last().1@ == value@,
    {
        let mut s = self;
        s.rules.push((owned(key), owned(value)));
        assert(s.rules@.drop_last() =~= self.rules@);
        s
    }

    /// Bind this workspace to a monitor.
    pub fn monitor(self, name: &str) -> (r: Self)
        ensures
            r.id == self.id,
            r.rules@.drop_last() == self.rules@,
            r.rules@.len() == self.rules@.len() + 1,
            r.rules@.last().0@ == "monitor"@,
            r.rules@.last().1@ == name@,
    {
        self.rule("monitor", name)
    }

    /// Mark this workspace as the default for its monitor.
    pub fn default(self) -> (r: Self)
        ensures
            r.id == self.id,
            r.rules@.drop_last() == self.rules@,
            r.rules@.len() == self.rules@.len() + 1,
            r.rules@.last().0@ == "default"@,
            r.rules@.last().1@ == "true"@,
    {
        self.rule("default", "true")
    }

    /// Keep the workspace alive even when empty.
    pub fn persistent(self) -> (r: Self)
        ensures
            r.id == self.id,
            r.rules@.drop_last() == self.rules@,
            r.rules@.len() == self.rules@.len() + 1,
            r.rules@.last().0@ == "persistent"@,
            r.rules@.last().1@ == "true"@,
    {
        self.rule("persistent", "true")
    }

    /// Run a dispatch when the workspace is first opened empty.
    pub fn on_created_empty(self, dispatch: &str) -> (r: Self)
        ensures
            r.id == self.id,
            r.rules@.drop_last() == self.rules@,
            r.rules@.len() == self.rules@.len() + 1,
            r.rules@.last().0@ == "on-created-empty"@,
            r.rules@.last().1@ == dispatch@,
    {
        self.rule("on-created-empty", dispatch)
    }

    /// Override the inner gaps for this workspace.
    pub fn gaps_in(self, px: u32) -> (r: Self)
        ensures
            r.id == self.id,
            r.rules@.drop_last() == self.rules@,
            r.rules@.len() == self.rules@.len() + 1,
            r.rules@.last().0@ == "gapsin"@,
            r.rules@.last().1@ == nat_str(px as nat),
    {
        let v = u64_str(px as u64);
        self.rule("gapsin", v.as_str())
    }

    /// Override the outer gaps for this workspace.
    pub fn gaps_out(self, px: u32) -> (r: Self)
        ensures
            r.id == self.id,
            r.rules@.drop_last() == self.rules@,
            r.rules@.len() == self.rules@.len() + 1,
            r.rules@.last().0@ == "gapsout"@,
            r.rules@.last().1@ == nat_str(px as nat),
    {
        let v = u64_str(px as u64);
        self.rule("gapsout", v.as_str())
    }
}

impl HyprlandConfig for WorkspaceRule {
    open spec fn spec_render(&self, ctx: HyprlandRenderContext) -> Seq<char> {
        if self.rules@.len() == 0 {
            ctx.spec_indent() + "workspace = "@ + self.id@
        } else {
            ctx.spec_indent() + "workspace = "@ + self.id@ + ", "@ + join(
                rule_items(self.rules@),
                ", "@,
            )
        }
    }

    open spec fn spec_validate(&self) -> Result<(), Seq<char>> {
        if self.id@.len() == 0 {
            Err("WorkspaceRule id cannot be empty"@)
        } else {
            Ok(())
        }
    }

    fn render(&self, ctx: &HyprlandRenderContext) -> (r: String) {
        let ind = ctx.indent();
        if self.rules.len() == 0 {
            return cat3(ind.as_str(), "workspace = ", self.id.as_str());
        }
        let mut items: Vec<String> = Vec::new();
        let mut i: usize = 0;
        while i < self.rules.len()
            invariant
                i <= self.rules@.len(),
                views(items@) == rule_items(self.rules@).take(i as int),
            decreases self.rules@.len() - i,
        {
            push_part(&mut items, cat3(self.rules[i].0.as_str(), ":", self.rules[i].1.as_str()));
            assert(rule_items(self.rules@).take(i + 1) =~= rule_items(self.rules@).take(
                i as int,
            ).push(self.rules@[i as int].0@ + ":"@ + self.rules@[i as int].1@));
            i = i + 1;
        }
        assert(rule_items(self.rules@).take(self.rules@.len() as int) =~= rule_items(self.rules@));
        let joined = join_strings(&items, ", ");
        let head = cat3(ind.as_str(), "workspace = ", self.id.as_str());
        cat3(head.as_str(), ", ", joined.as_str())
    }

    fn validate(&self) -> (r: Result<(), String>) {
        if is_empty_str(self.id.as_str()) {
            return Err(owned("WorkspaceRule id cannot be empty"));
        }
        Ok(())
    }
}

} // verus!
