//! The top-level `theme` key.
use vstd::prelude::*;
use crate::helix::context::{toml_quoted, toml_str, HelixConfig, HelixRenderContext};
use crate::text::{cat2, is_empty_str, owned};

verus! {

/// Sets the active Helix theme: `theme = "name"`.
pub struct ThemeSetting {
    pub name: String,
}

impl ThemeSetting {
    pub fn new(name: &str) -> (r: Self)
        ensures
            r.name@ == name@,
    {
        ThemeSetting { name: owned(name) }
    }
}

/// The message of the error for an empty theme name.
pub open spec fn empty_theme_message() -> Seq<char> {
    "ThemeSetting: theme name cannot be empty"@
}

impl HelixConfig for ThemeSetting {
    open spec fn spec_render(&self, ctx: HelixRenderContext) -> Seq<char> {
        "theme = "@ + toml_quoted(self.name@)
    }

    open spec fn spec_validate(&self) -> Result<(), Seq<char>> {
        if self.name@.len() == 0 {
            Err(empty_theme_message())
        } else {
            Ok(())
        }
    }

    fn render(&self, ctx: &HelixRenderContext) -> (r: String) {
        let q = toml_str(self.name.as_str());
        cat2("theme = ", q.as_str())
    }

    fn validate(&self) -> (r: Result<(), String>) {
        if is_empty_str(self.name.as_str()) {
            return Err(owned("ThemeSetting: theme name cannot be empty"));
        }
        Ok(())
    }
}

} // verus!
