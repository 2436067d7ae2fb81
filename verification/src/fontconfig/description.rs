//! The `<description>` element.
use vstd::prelude::*;
use crate::fontconfig::context::{FontconfigConfig, FontconfigRenderContext};
use crate::fontconfig::value::{xml_escape, xml_escaped};
use crate::text::{cat4, owned};

verus! {

/// A `<description>` element: a human-readable label for the config file.
pub struct Description {
    pub text: String,
}

impl Description {
    pub fn new(text: &str) -> (r: Self)
        ensures
            r.text@ == text@,
    {
        Description { text: owned(text) }
    }
}

impl FontconfigConfig for Description {
    open spec fn spec_render(&self, ctx: FontconfigRenderContext) -> Seq<char> {
        ctx.spec_indent() + "<description>"@ + xml_escaped(self.text@) + "</description>"@
    }

    fn render(&self, ctx: &FontconfigRenderContext) -> (r: String) {
        let ind = ctx.indent();
        let e = xml_escape(self.text.as_str());
        cat4(ind.as_str(), "<description>", e.as_str(), "</description>")
    }

    fn validate(&self) -> (r: Result<(), String>) {
        Ok(())
    }
}

} // verus!
