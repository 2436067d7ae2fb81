//! Variable declarations (`$name = value`).
use vstd::prelude::*;
use crate::hyprland::context::{HyprlandConfig, HyprlandRenderContext};
use crate::text::{cat3, contains_char, is_empty_str, owned};

verus! {

/// A Hyprland variable declaration: `$name = value`.
pub struct Variable {
    pub name: String,
    pub value: String,
}

impl Variable {
    pub fn new(name: &str, value: &str) -> (r: Self)
        ensures
            r.name@ == name@,
            r.value@ == value@,
    {
        Variable { name: owned(name), value: owned(value) }
    }
}

impl HyprlandConfig for Variable {
    open spec fn spec_render(&self, ctx: HyprlandRenderContext) -> Seq<char> {
        ctx.spec_indent() + "$"@ + self.name@ + " = "@ + self.value@
    }

    open spec fn spec_validate(&self) -> Result<(), Seq<char>> {
        if self.name@.len() == 0 {
            Err("Variable name cannot be empty"@)
        } else if self.name@.contains(' ') {
            Err("Variable name '"@ + self.name@ + "' must not contain spaces"@)
        } else {
            Ok(())
        }
    }

    fn render(&self, ctx: &HyprlandRenderContext) -> (r: String) {
        let ind = ctx.indent();
        let head = cat3(ind.as_str(), "$", self.name.as_str());
        cat3(head.as_str(), " = ", self.value.as_str())
    }

    fn validate(&self) -> (r: Result<(), String>) {
        if is_empty_str(self.name.as_str()) {
            return Err(owned("Variable name cannot be empty"));
        }
        if contains_char(self.name.as_str(), ' ') {
            return Err(cat3("Variable name '", self.name.as_str(), "' must not contain spaces"));
        }
        Ok(())
    }
}

} // verus!
