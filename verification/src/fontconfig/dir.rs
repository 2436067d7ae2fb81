//! Filesystem paths: font directories, the cache directory and pulled-in files.
use vstd::prelude::*;
use crate::fontconfig::context::{FontconfigConfig, FontconfigRenderContext};
use crate::fontconfig::value::{xml_escape, xml_escaped};
use crate::text::{cat2, cat3, cat4, is_empty_str, opt_view, owned};

verus! {

/// ` name="value"` with the value escaped, or nothing without a value.
pub open spec fn opt_attr(name: Seq<char>, v: Option<String>) -> Seq<char> {
    match v {
        Some(x) => " "@ + name + "=\""@ + xml_escaped(x@) + "\""@,
        None => Seq::empty(),
    }
}

/// Renders ` name="value"` (escaped), or the empty text without a value.
fn attr_text(name: &str, v: &Option<String>) -> (r: String)
    ensures
        r@ == opt_attr(name@, *v),
{
    match v {
        Some(x) => {
            let e = xml_escape(x.as_str());
            let head = cat3(" ", name, "=\"");
            cat3(head.as_str(), e.as_str(), "\"")
        },
        None => String::new(),
    }
}

/// An element `<tag attrs>escaped text</tag>` at the indentation of `ctx`.
pub open spec fn path_element(
    ctx: FontconfigRenderContext,
    tag: Seq<char>,
    attrs: Seq<char>,
    path: Seq<char>,
) -> Seq<char> {
    ctx.spec_indent() + "<"@ + tag + attrs + ">"@ + xml_escaped(path) + "</"@ + tag + ">"@
}

fn render_path_element(ctx: &FontconfigRenderContext, tag: &str, attrs: &str, path: &str) -> (r:
    String)
    requires
        ctx.fits(),
    ensures
        r@ == path_element(*ctx, tag@, attrs@, path@),
{
    let ind = ctx.indent();
    let e = xml_escape(path);
    let open = cat4(ind.as_str(), "<", tag, attrs);
    let body = cat3(open.as_str(), ">", e.as_str());
    let r = cat4(body.as_str(), "</", tag, ">");
    assert(r@ =~= path_element(*ctx, tag@, attrs@, path@));
    r
}

// ── Dir ───────────────────────────────────────────────────────────────────────

/// A `<dir>` element: adds a directory to the font search path.
pub struct Dir {
    /// Path to the font directory.
    pub path: String,
    /// Optional path prefix type (`"xdg"`, `"relative"`, `"default"`, `"cwd"`, `"~"`, `"/"`).
    pub prefix: Option<String>,
    /// Optional salt string for cache segregation.
    pub salt: Option<String>,
}

impl Dir {
    pub fn new(path: &str) -> (r: Self)
        ensures
            r.path@ == path@,
            r.prefix is None,
            r.salt is None,
    {
        Dir { path: owned(path), prefix: None, salt: None }
    }

    /// Set the `prefix` attribute.
    pub fn prefix(self, prefix: &str) -> (r: Self)
        ensures
            opt_view(r.prefix) == Some(prefix@),
            r == (Dir { prefix: r.prefix, ..self }),
    {
        Dir { prefix: Some(owned(prefix)), ..self }
    }

    /// Set the `salt` attribute.
    pub fn salt(self, salt: &str) -> (r: Self)
        ensures
            opt_view(r.salt) == Some(salt@),
            r == (Dir { salt: r.salt, ..self }),
    {
        Dir { salt: Some(owned(salt)), ..self }
    }
}

impl FontconfigConfig for Dir {
    open spec fn spec_render(&self, ctx: FontconfigRenderContext) -> Seq<char> {
        path_element(
            ctx,
            "dir"@,
            opt_attr("prefix"@, self.prefix) + opt_attr("salt"@, self.salt),
            self.path@,
        )
    }

    open spec fn spec_validate(&self) -> Result<(), Seq<char>> {
        if self.path@.len() == 0 {
            Err("Dir path must not be empty"@)
        } else {
            Ok(())
        }
    }

    fn render(&self, ctx: &FontconfigRenderContext) -> (r: String) {
        let p = attr_text("prefix", &self.prefix);
        let s = attr_text("salt", &self.salt);
        let attrs = cat2(p.as_str(), s.as_str());
        render_path_element(ctx, "dir", attrs.as_str(), self.path.as_str())
    }

    fn validate(&self) -> (r: Result<(), String>) {
        if is_empty_str(self.path.as_str()) {
            return Err(owned("Dir path must not be empty"));
        }
        Ok(())
    }
}

// ── CacheDir ─────────────────────────────────────────────────────────────────

/// A `<cachedir>` element: overrides the fontconfig cache directory.
pub struct CacheDir {
    /// Path to the cache directory.
    pub path: String,
    /// Optional path prefix type.
    pub prefix: Option<String>,
}

impl CacheDir {
    pub fn new(path: &str) -> (r: Self)
        ensures
            r.path@ == path@,
            r.prefix is None,
    {
        CacheDir { path: owned(path), prefix: None }
    }

    /// Set the `prefix` attribute.
    pub fn prefix(self, prefix: &str) -> (r: Self)
        ensures
            opt_view(r.prefix) == Some(prefix@),
            r.path == self.path,
    {
        CacheDir { prefix: Some(owned(prefix)), ..self }
    }
}

impl FontconfigConfig for CacheDir {
    open spec fn spec_render(&self, ctx: FontconfigRenderContext) -> Seq<char> {
        path_element(ctx, "cachedir"@, opt_attr("prefix"@, self.prefix), self.path@)
    }

    open spec fn spec_validate(&self) -> Result<(), Seq<char>> {
        if self.path@.len() == 0 {
            Err("CacheDir path must not be empty"@)
        } else {
            Ok(())
        }
    }

    fn render(&self, ctx: &FontconfigRenderContext) -> (r: String) {
        let p = attr_text("prefix", &self.prefix);
        render_path_element(ctx, "cachedir", p.as_str(), self.path.as_str())
    }

    fn validate(&self) -> (r: Result<(), String>) {
        if is_empty_str(self.path.as_str()) {
            return Err(owned("CacheDir path must not be empty"));
        }
        Ok(())
    }
}

// ── Include ───────────────────────────────────────────────────────────────────

/// The name of the element that pulls in another file or directory.
pub open spec fn pull_in_tag() -> Seq<char> {
    "incl"@ + "ude"@
}

/// An element that pulls in another fontconfig file or directory.
pub struct Include {
    /// Path to the file or directory.
    pub path: String,
    /// Whether a missing path is silently skipped.
    pub ignore_missing: bool,
    /// Optional path prefix type.
    pub prefix: Option<String>,
    /// Recursive scanning flag (fontconfig 2.15+); not written out.
    pub deprecated: bool,
}

impl Include {
    pub fn new(path: &str) -> (r: Self)
        ensures
            r.path@ == path@,
            !r.ignore_missing,
            r.prefix is None,
            !r.deprecated,
    {
        Include { path: owned(path), ignore_missing: false, prefix: None, deprecated: false }
    }

    /// Set whether a missing file or directory is silently ignored.
    pub fn ignore_missing(self, ignore: bool) -> (r: Self)
        ensures
            r == (Include { ignore_missing: ignore, ..self }),
    {
        Include { ignore_missing: ignore, ..self }
    }

    /// Set the `prefix` attribute.
    pub fn prefix(self, prefix: &str) -> (r: Self)
        ensures
            opt_view(r.prefix) == Some(prefix@),
            r == (Include { prefix: r.prefix, ..self }),
    {
        Include { prefix: Some(owned(prefix)), ..self }
    }
}

impl FontconfigConfig for Include {
    open spec fn spec_render(&self, ctx: FontconfigRenderContext) -> Seq<char> {
        path_element(
            ctx,
            pull_in_tag(),
            (if self.ignore_missing {
                " ignore_missing=\"yes\""@
            } else {
                Seq::empty()
            }) + opt_attr("prefix"@, self.prefix),
            self.path@,
        )
    }

    open spec fn spec_validate(&self) -> Result<(), Seq<char>> {
        if self.path@.len() == 0 {
            Err("Incl"@ + "ude path must not be empty"@)
        } else {
            Ok(())
        }
    }

    fn render(&self, ctx: &FontconfigRenderContext) -> (r: String) {
        let p = attr_text("prefix", &self.prefix);
        let attrs = if self.ignore_missing {
            cat2(" ignore_missing=\"yes\"", p.as_str())
        } else {
            p
        };
        let tag = cat2("incl", "ude");
        render_path_element(ctx, tag.as_str(), attrs.as_str(), self.path.as_str())
    }

    fn validate(&self) -> (r: Result<(), String>) {
        if is_empty_str(self.path.as_str()) {
            return Err(cat2("Incl", "ude path must not be empty"));
        }
        Ok(())
    }
}

} // verus!
