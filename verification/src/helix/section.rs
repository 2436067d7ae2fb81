//! Generic TOML sections and raw TOML text.
use vstd::prelude::*;
use crate::helix::context::{toml_quoted, toml_str, HelixConfig, HelixRenderContext};
use crate::text::{cat2, cat3, join, join_strings, owned, push_part, views};

verus! {

/// A single entry inside a [`TomlSection`].
pub enum TomlEntry {
    /// A key mapped to a pre-formatted TOML value (not further quoted).
    Raw(String, String),
    /// A key mapped to a quoted string value.
    Str(String, String),
    /// A blank line for readability.
    Blank,
    /// A comment line.
    Comment(String),
}

impl TomlEntry {
    /// The line this entry renders to.
    pub open spec fn spec_line(&self) -> Seq<char> {
        match self {
            TomlEntry::Raw(k, v) => k@ + " = "@ + v@,
            TomlEntry::Str(k, v) => k@ + " = "@ + toml_quoted(v@),
            TomlEntry::Blank => Seq::empty(),
            TomlEntry::Comment(c) => "# "@ + c@,
        }
    }

    fn line(&self) -> (r: String)
        ensures
            r@ == self.spec_line(),
    {
        match self {
            TomlEntry::Raw(k, v) => cat3(k.as_str(), " = ", v.as_str()),
            TomlEntry::Str(k, v) => {
                let q = toml_str(v.as_str());
                cat3(k.as_str(), " = ", q.as_str())
            },
            TomlEntry::Blank => String::new(),
            TomlEntry::Comment(c) => cat2("# ", c.as_str()),
        }
    }
}

/// A generic TOML table (`[header]`) built from entries, in order.
pub struct TomlSection {
    pub header: String,
    pub entries: Vec<TomlEntry>,
}

impl TomlSection {
    pub fn new(header: &str) -> (r: Self)
        ensures
            r.header@ == header@,
            r.entries@.len() == 0,
    {
        TomlSection { header: owned(header), entries: Vec::new() }
    }

    /// Add a key with a raw (already formatted) TOML value.
    pub fn pair(self, key: &str, raw_value: &str) -> (r: Self)
        ensures
            r.header == self.header,
            r.entries@.len() == self.entries@.len() + 1,
            r.entries@.drop_last() == self.entries@,
            r.entries@.last() matches TomlEntry::Raw(k, v) && k@ == key@ && v@ == raw_value@,
    {
        let mut s = self;
        s.entries.push(TomlEntry::Raw(owned(key), owned(raw_value)));
        assert(s.entries@.drop_last() =~= self.entries@);
        s
    }

    /// Add a key with a string value (quoted when rendered).
    pub fn str_pair(self, key: &str, value: &str) -> (r: Self)
        ensures
            r.header == self.header,
            r.entries@.len() == self.entries@.len() + 1,
            r.entries@.drop_last() == self.entries@,
            r.entries@.last() matches TomlEntry::Str(k, v) && k@ == key@ && v@ == value@,
    {
        let mut s = self;
        s.entries.push(TomlEntry::Str(owned(key), owned(value)));
        assert(s.entries@.drop_last() =~= self.entries@);
        s
    }

    /// Add a blank line.
    pub fn blank(self) -> (r: Self)
        ensures
            r.header == self.header,
            r.entries@.len() == self.entries@.len() + 1,
            r.entries@.drop_last() == self.entries@,
            r.entries@.last() is Blank,
    {
        let mut s = self;
        s.entries.push(TomlEntry::Blank);
        assert(s.entries@.drop_last() =~= self.entries@);
        s
    }

    /// Add a comment line.
    pub fn comment(self, text: &str) -> (r: Self)
        ensures
            r.header == self.header,
            r.entries@.len() == self.entries@.len() + 1,
            r.entries@.drop_last() == self.entries@,
            r.entries@.last() matches TomlEntry::Comment(c) && c@ == text@,
    {
        let mut s = self;
        s.entries.push(TomlEntry::Comment(owned(text)));
        assert(s.entries@.drop_last() =~= self.entries@);
        s
    }

    /// Add a key with a raw value (mutable borrow).
    pub fn add_pair(&mut self, key: &str, raw_value: &str) -> (r: &mut Self)
        ensures
            r.header == old(self).header,
            r.entries@.len() == old(self).entries@.len() + 1,
            r.entries@.drop_last() == old(self).entries@,
            r.entries@.last() matches TomlEntry::Raw(k, v) && k@ == key@ && v@ == raw_value@,
            *final(self) == *final(r),
    {
        self.entries.push(TomlEntry::Raw(owned(key), owned(raw_value)));
        assert(self.entries@.drop_last() =~= old(self).entries@);
        self
    }

    /// Add a key with a string value (mutable borrow).
    pub fn add_str_pair(&mut self, key: &str, value: &str) -> (r: &mut Self)
        ensures
            r.header == old(self).header,
            r.entries@.len() == old(self).entries@.len() + 1,
            r.entries@.drop_last() == old(self).entries@,
            r.entries@.last() matches TomlEntry::Str(k, v) && k@ == key@ && v@ == value@,
            *final(self) == *final(r),
    {
        self.entries.push(TomlEntry::Str(owned(key), owned(value)));
        assert(self.entries@.drop_last() =~= old(self).entries@);
        self
    }

    /// The lines of the entries, in order.
    pub open spec fn spec_lines(&self) -> Seq<Seq<char>> {
        Seq::new(self.entries@.len(), |i: int| self.entries@[i].spec_line())
    }
}

impl HelixConfig for TomlSection {
    open spec fn spec_render(&self, ctx: HelixRenderContext) -> Seq<char> {
        join(seq!["["@ + self.header@ + "]"@] + self.spec_lines(), "\n"@)
    }

    fn render(&self, ctx: &HelixRenderContext) -> (r: String) {
        let mut lines: Vec<String> = Vec::new();
        push_part(&mut lines, cat3("[", self.header.as_str(), "]"));
        let mut i: usize = 0;
        while i < self.entries.len()
            invariant
                i <= self.entries@.len(),
                views(lines@) == seq!["["@ + self.header@ + "]"@] + self.spec_lines().take(i as int),
            decreases self.entries@.len() - i,
        {
            push_part(&mut lines, self.entries[i].line());
            assert(self.spec_lines().take(i + 1) =~= self.spec_lines().take(i as int).push(
                self.entries@[i as int].spec_line(),
            ));
            i = i + 1;
        }
        assert(self.spec_lines().take(self.entries@.len() as int) =~= self.spec_lines());
        join_strings(&lines, "\n")
    }

    fn validate(&self) -> (r: Result<(), String>) {
        Ok(())
    }
}

/// Raw TOML text, emitted verbatim.
pub struct RawToml {
    pub text: String,
}

impl RawToml {
    pub fn new(text: &str) -> (r: Self)
        ensures
            r.text@ == text@,
    {
        RawToml { text: owned(text) }
    }
}

impl HelixConfig for RawToml {
    open spec fn spec_render(&self, ctx: HelixRenderContext) -> Seq<char> {
        self.text@
    }

    fn render(&self, ctx: &HelixRenderContext) -> (r: String) {
        self.text.clone()
    }

    fn validate(&self) -> (r: Result<(), String>) {
        Ok(())
    }
}

} // verus!
