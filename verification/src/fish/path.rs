//! `fish_add_path` statements.
use vstd::prelude::*;
use crate::base::{Config, RenderContext};
use crate::fish::variable::{quote_all, quote_all_values};
use crate::text::{append_parts, if_seq, join, join_strings, owned_all, push_str_part, views};

verus! {

/// Adds one or more entries to `$PATH` via `fish_add_path`.
#[derive(Debug, Clone)]
pub struct FishAddPath {
    pub paths: Vec<String>,
    /// Add at the front of `$PATH` (`--prepend`).
    pub prepend: bool,
    /// Modify the global PATH, not the universal fish_user_paths.
    pub global: bool,
    /// Move already-present entries to the front/back.
    pub move_to_front: bool,
}

impl FishAddPath {
    pub fn new(paths: &[&str]) -> (r: Self)
        ensures
            views(r.paths@) == paths@.map_values(|s: &str| s@),
            !r.prepend && !r.global && !r.move_to_front,
    {
        FishAddPath { paths: owned_all(paths), prepend: false, global: false, move_to_front: false }
    }

    pub fn prepend(self) -> (r: Self)
        ensures
            r == (FishAddPath { prepend: true, ..self }),
    {
        FishAddPath { prepend: true, ..self }
    }

    pub fn global(self) -> (r: Self)
        ensures
            r == (FishAddPath { global: true, ..self }),
    {
        FishAddPath { global: true, ..self }
    }

    pub fn move_to_front(self) -> (r: Self)
        ensures
            r == (FishAddPath { move_to_front: true, ..self }),
    {
        FishAddPath { move_to_front: true, ..self }
    }

    /// The words of the `fish_add_path` command.
    pub open spec fn spec_parts(self) -> Seq<Seq<char>> {
        seq!["fish_add_path"@] + if_seq(self.prepend, "--prepend"@) + if_seq(self.global, "--global"@)
            + if_seq(self.move_to_front, "--move"@) + quote_all(views(self.paths@))
    }
}

impl Config for FishAddPath {
    open spec fn spec_render(&self, ctx: RenderContext) -> Seq<char> {
        ctx.spec_indent() + join(self.spec_parts(), " "@)
    }

    fn render(&self, ctx: &RenderContext) -> (r: String) {
        let mut parts: Vec<String> = Vec::new();
        push_str_part(&mut parts, "fish_add_path");
        if self.prepend {
            push_str_part(&mut parts, "--prepend");
        }
        if self.global {
            push_str_part(&mut parts, "--global");
        }
        if self.move_to_front {
            push_str_part(&mut parts, "--move");
        }
        append_parts(&mut parts, quote_all_values(&self.paths));
        assert(views(parts@) =~= self.spec_parts());
        let mut r = ctx.indent();
        let j = join_strings(&parts, " ");
        r.append(j.as_str());
        r
    }

    fn doc_comment(&self) -> (r: Option<&str>) {
        None
    }

    fn validate(&self) -> (r: Result<(), String>) {
        Ok(())
    }
}

} // verus!
