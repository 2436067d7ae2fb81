//! The `[editor]` table and its sub-tables.
use vstd::prelude::*;
use crate::helix::context::{
    render_table, str_val, str_value, table_text, toml_array, toml_str_array, HelixConfig,
    HelixRenderContext,
};
use crate::text::{
    append_parts, bool_str, bool_val, bool_value, cat3, join, join_strings, kv_opt, lemma_join_first,
    lemma_join_occurs, lemma_occurs_trans, nat_str, occurs_in,
    nonempty, num_val, opt_as_str, opt_view, owned, owned_all, push_kv_opt, push_nonempty,
    push_part, u32_value, u64_str, u64_value, views,
};

verus! {

/// Line-number display style.
#[derive(Debug, Clone, PartialEq)]
pub enum LineNumber {
    /// Absolute line numbers.
    Absolute,
    /// Line numbers relative to the cursor.
    Relative,
    /// Relative numbers everywhere except the cursor line, which shows absolute.
    RelativePlus,
}

impl LineNumber {
    pub open spec fn spec_str(self) -> Seq<char> {
        match self {
            LineNumber::Absolute => "absolute"@,
            LineNumber::Relative => "relative"@,
            LineNumber::RelativePlus => "relative-plus"@,
        }
    }

    pub fn as_str(&self) -> (r: &str)
        ensures
            r@ == self.spec_str(),
    {
        match self {
            LineNumber::Absolute => "absolute",
            LineNumber::Relative => "relative",
            LineNumber::RelativePlus => "relative-plus",
        }
    }
}

/// Controls when the bufferline is shown.
#[derive(Debug, Clone, PartialEq)]
pub enum Bufferline {
    /// Never show the bufferline.
    Never,
    /// Always show the bufferline.
    Always,
    /// Only show it when more than one buffer is open.
    Multiple,
}

impl Bufferline {
    pub open spec fn spec_str(self) -> Seq<char> {
        match self {
            Bufferline::Never => "never"@,
            Bufferline::Always => "always"@,
            Bufferline::Multiple => "multiple"@,
        }
    }

    pub fn as_str(&self) -> (r: &str)
        ensures
            r@ == self.spec_str(),
    {
        match self {
            Bufferline::Never => "never",
            Bufferline::Always => "always",
            Bufferline::Multiple => "multiple",
        }
    }
}

/// Cursor shape for a given mode.
#[derive(Debug, Clone, PartialEq)]
pub enum CursorKind {
    Block,
    Bar,
    Underline,
    Hidden,
}

impl CursorKind {
    pub open spec fn spec_str(self) -> Seq<char> {
        match self {
            CursorKind::Block => "block"@,
            CursorKind::Bar => "bar"@,
            CursorKind::Underline => "underline"@,
            CursorKind::Hidden => "hidden"@,
        }
    }

    pub fn as_str(&self) -> (r: &str)
        ensures
            r@ == self.spec_str(),
    {
        match self {
            CursorKind::Block => "block",
            CursorKind::Bar => "bar",
            CursorKind::Underline => "underline",
            CursorKind::Hidden => "hidden",
        }
    }
}

/// Elements that can appear in the Helix statusline.
#[derive(Debug, Clone, PartialEq)]
pub enum StatuslineElement {
    Mode,
    Spinner,
    FileName,
    FileBaseName,
    FileModificationIndicator,
    ReadOnlyIndicator,
    FileEncoding,
    FileLineEnding,
    FileType,
    Diagnostics,
    WorkspaceDiagnostics,
    Selections,
    PrimarySelectionLength,
    Position,
    PositionPercentage,
    TotalLineNumbers,
    Separator,
    Spacer,
    VersionControl,
    Register,
}

impl StatuslineElement {
    pub open spec fn spec_str(self) -> Seq<char> {
        match self {
            StatuslineElement::Mode => "mode"@,
            StatuslineElement::Spinner => "spinner"@,
            StatuslineElement::FileName => "file-name"@,
            StatuslineElement::FileBaseName => "file-base-name"@,
            StatuslineElement::FileModificationIndicator => "file-modification-indicator"@,
            StatuslineElement::ReadOnlyIndicator => "read-only-indicator"@,
            StatuslineElement::FileEncoding => "file-encoding"@,
            StatuslineElement::FileLineEnding => "file-line-ending"@,
            StatuslineElement::FileType => "file-type"@,
            StatuslineElement::Diagnostics => "diagnostics"@,
            StatuslineElement::WorkspaceDiagnostics => "workspace-diagnostics"@,
            StatuslineElement::Selections => "selections"@,
            StatuslineElement::PrimarySelectionLength => "primary-selection-length"@,
            StatuslineElement::Position => "position"@,
            StatuslineElement::PositionPercentage => "position-percentage"@,
            StatuslineElement::TotalLineNumbers => "total-line-numbers"@,
            StatuslineElement::Separator => "separator"@,
            StatuslineElement::Spacer => "spacer"@,
            StatuslineElement::VersionControl => "version-control"@,
            StatuslineElement::Register => "register"@,
        }
    }

    pub fn as_str(&self) -> (r: &str)
        ensures
            r@ == self.spec_str(),
    {
        match self {
            StatuslineElement::Mode => "mode",
            StatuslineElement::Spinner => "spinner",
            StatuslineElement::FileName => "file-name",
            StatuslineElement::FileBaseName => "file-base-name",
            StatuslineElement::FileModificationIndicator => "file-modification-indicator",
            StatuslineElement::ReadOnlyIndicator => "read-only-indicator",
            StatuslineElement::FileEncoding => "file-encoding",
            StatuslineElement::FileLineEnding => "file-line-ending",
            StatuslineElement::FileType => "file-type",
            StatuslineElement::Diagnostics => "diagnostics",
            StatuslineElement::WorkspaceDiagnostics => "workspace-diagnostics",
            StatuslineElement::Selections => "selections",
            StatuslineElement::PrimarySelectionLength => "primary-selection-length",
            StatuslineElement::Position => "position",
            StatuslineElement::PositionPercentage => "position-percentage",
            StatuslineElement::TotalLineNumbers => "total-line-numbers",
            StatuslineElement::Separator => "separator",
            StatuslineElement::Spacer => "spacer",
            StatuslineElement::VersionControl => "version-control",
            StatuslineElement::Register => "register",
        }
    }
}

/// The TOML array of the names of statusline elements.
pub open spec fn elements_text(e: Seq<StatuslineElement>) -> Seq<char> {
    toml_array(Seq::new(e.len(), |i: int| e[i].spec_str()))
}

fn render_elements(elements: &[StatuslineElement]) -> (r: String)
    ensures
        r@ == elements_text(elements@),
{
    let mut strs: Vec<String> = Vec::new();
    let mut i: usize = 0;
    while i < elements.len()
        invariant
            i <= elements@.len(),
            views(strs@) == Seq::new(i as nat, |k: int| elements@[k].spec_str()),
        decreases elements@.len() - i,
    {
        push_part(&mut strs, owned(elements[i].as_str()));
        assert(Seq::new((i + 1) as nat, |k: int| elements@[k].spec_str()) =~= Seq::new(
            i as nat,
            |k: int| elements@[k].spec_str(),
        ).push(elements@[i as int].spec_str()));
        i = i + 1;
    }
    toml_str_array(strs.as_slice())
}

/// A TOML array of numbers: `[80, 120]`.
pub open spec fn numbers_text(c: Seq<u32>) -> Seq<char> {
    "["@ + join(Seq::new(c.len(), |i: int| nat_str(c[i] as nat)), ", "@) + "]"@
}

fn render_numbers(cols: &Vec<u32>) -> (r: String)
    ensures
        r@ == numbers_text(cols@),
{
    let mut strs: Vec<String> = Vec::new();
    let mut i: usize = 0;
    while i < cols.len()
        invariant
            i <= cols@.len(),
            views(strs@) == Seq::new(i as nat, |k: int| nat_str(cols@[k] as nat)),
        decreases cols@.len() - i,
    {
        push_part(&mut strs, u64_str(cols[i] as u64));
        assert(Seq::new((i + 1) as nat, |k: int| nat_str(cols@[k] as nat)) =~= Seq::new(
            i as nat,
            |k: int| nat_str(cols@[k] as nat),
        ).push(nat_str(cols@[i as int] as nat)));
        i = i + 1;
    }
    let j = join_strings(&strs, ", ");
    cat3("[", j.as_str(), "]")
}

/// Cursor shapes for each editor mode (`[editor.cursor-shape]`).
pub struct CursorShapeSection {
    pub normal: Option<CursorKind>,
    pub insert: Option<CursorKind>,
    pub select: Option<CursorKind>,
}

impl Default for CursorShapeSection {
    fn default() -> (r: Self)
        ensures
            r == CursorShapeSection::spec_empty(),
    {
        CursorShapeSection {
            normal: None,
            insert: None,
            select: None,
        }
    }
}

impl CursorShapeSection {
    /// No option set.
    pub open spec fn spec_empty() -> Self {
        CursorShapeSection {
            normal: None,
            insert: None,
            select: None,
        }
    }

    pub fn new() -> (r: Self)
        ensures
            r == CursorShapeSection::spec_empty(),
    {
        Self::default()
    }

    pub fn normal(self, k: CursorKind) -> (r: Self)
        ensures
            r == (CursorShapeSection { normal: Some(k), ..self }),
    {
        CursorShapeSection { normal: Some(k), ..self }
    }

    pub fn insert(self, k: CursorKind) -> (r: Self)
        ensures
            r == (CursorShapeSection { insert: Some(k), ..self }),
    {
        CursorShapeSection { insert: Some(k), ..self }
    }

    pub fn select(self, k: CursorKind) -> (r: Self)
        ensures
            r == (CursorShapeSection { select: Some(k), ..self }),
    {
        CursorShapeSection { select: Some(k), ..self }
    }

    /// The `key = value` lines of the set options, in order.
    pub open spec fn spec_entries(self) -> Seq<Seq<char>> {
        kv_opt(
            "normal"@,
            str_val(
                match self.normal {
                    Some(k) => Some(k.spec_str()),
                    None => None,
                },
            ),
        ) + kv_opt(
            "insert"@,
            str_val(
                match self.insert {
                    Some(k) => Some(k.spec_str()),
                    None => None,
                },
            ),
        ) + kv_opt(
            "select"@,
            str_val(
                match self.select {
                    Some(k) => Some(k.spec_str()),
                    None => None,
                },
            ),
        )
    }

    fn entries(&self) -> (r: Vec<String>)
        ensures
            views(r@) == self.spec_entries(),
    {
        let mut lines: Vec<String> = Vec::new();
        push_kv_opt(
            &mut lines,
            "normal",
            str_value(
                match &self.normal {
                    Some(k) => Some(k.as_str()),
                    None => None,
                },
            ),
        );
        push_kv_opt(
            &mut lines,
            "insert",
            str_value(
                match &self.insert {
                    Some(k) => Some(k.as_str()),
                    None => None,
                },
            ),
        );
        push_kv_opt(
            &mut lines,
            "select",
            str_value(
                match &self.select {
                    Some(k) => Some(k.as_str()),
                    None => None,
                },
            ),
        );
        assert(views(lines@) =~= self.spec_entries());
        lines
    }

}

impl HelixConfig for CursorShapeSection {
    open spec fn spec_render(&self, ctx: HelixRenderContext) -> Seq<char> {
        table_text("[editor.cursor-shape]"@, self.spec_entries())
    }

    fn render(&self, ctx: &HelixRenderContext) -> (r: String) {
        let entries = self.entries();
        render_table("[editor.cursor-shape]", &entries)
    }

    fn validate(&self) -> (r: Result<(), String>) {
        Ok(())
    }
}

/// Statusline configuration (`[editor.statusline]`).
pub struct StatuslineSection {
    pub left: Option<Vec<StatuslineElement>>,
    pub center: Option<Vec<StatuslineElement>>,
    pub right: Option<Vec<StatuslineElement>>,
    pub separator: Option<String>,
    pub mode_normal: Option<String>,
    pub mode_insert: Option<String>,
    pub mode_select: Option<String>,
}

impl Default for StatuslineSection {
    fn default() -> (r: Self)
        ensures
            r == StatuslineSection::spec_empty(),
    {
        StatuslineSection {
            left: None,
            center: None,
            right: None,
            separator: None,
            mode_normal: None,
            mode_insert: None,
            mode_select: None,
        }
    }
}

impl StatuslineSection {
    /// No option set.
    pub open spec fn spec_empty() -> Self {
        StatuslineSection {
            left: None,
            center: None,
            right: None,
            separator: None,
            mode_normal: None,
            mode_insert: None,
            mode_select: None,
        }
    }

    pub fn new() -> (r: Self)
        ensures
            r == StatuslineSection::spec_empty(),
    {
        Self::default()
    }

    pub fn left(self, elements: Vec<StatuslineElement>) -> (r: Self)
        ensures
            r == (StatuslineSection { left: Some(elements), ..self }),
    {
        StatuslineSection { left: Some(elements), ..self }
    }

    pub fn center(self, elements: Vec<StatuslineElement>) -> (r: Self)
        ensures
            r == (StatuslineSection { center: Some(elements), ..self }),
    {
        StatuslineSection { center: Some(elements), ..self }
    }

    pub fn right(self, elements: Vec<StatuslineElement>) -> (r: Self)
        ensures
            r == (StatuslineSection { right: Some(elements), ..self }),
    {
        StatuslineSection { right: Some(elements), ..self }
    }

    pub fn separator(self, sep: &str) -> (r: Self)
        ensures
            opt_view(r.separator) == Some(sep@),
            r == (StatuslineSection { separator: r.separator, ..self }),
    {
        StatuslineSection { separator: Some(owned(sep)), ..self }
    }

    pub fn mode_normal(self, label: &str) -> (r: Self)
        ensures
            opt_view(r.mode_normal) == Some(label@),
            r == (StatuslineSection { mode_normal: r.mode_normal, ..self }),
    {
        StatuslineSection { mode_normal: Some(owned(label)), ..self }
    }

    pub fn mode_insert(self, label: &str) -> (r: Self)
        ensures
            opt_view(r.mode_insert) == Some(label@),
            r == (StatuslineSection { mode_insert: r.mode_insert, ..self }),
    {
        StatuslineSection { mode_insert: Some(owned(label)), ..self }
    }

    pub fn mode_select(self, label: &str) -> (r: Self)
        ensures
            opt_view(r.mode_select) == Some(label@),
            r == (StatuslineSection { mode_select: r.mode_select, ..self }),
    {
        StatuslineSection { mode_select: Some(owned(label)), ..self }
    }

    /// The `key = value` lines of the set options, in order.
    pub open spec fn spec_entries(self) -> Seq<Seq<char>> {
        kv_opt(
            "left"@,
            match self.left {
                Some(e) => Some(elements_text(e@)),
                None => None,
            },
        ) + kv_opt(
            "center"@,
            match self.center {
                Some(e) => Some(elements_text(e@)),
                None => None,
            },
        ) + kv_opt(
            "right"@,
            match self.right {
                Some(e) => Some(elements_text(e@)),
                None => None,
            },
        ) + kv_opt(
            "separator"@,
            str_val(opt_view(self.separator)),
        ) + kv_opt(
            "mode.normal"@,
            str_val(opt_view(self.mode_normal)),
        ) + kv_opt(
            "mode.insert"@,
            str_val(opt_view(self.mode_insert)),
        ) + kv_opt(
            "mode.select"@,
            str_val(opt_view(self.mode_select)),
        )
    }

    fn entries(&self) -> (r: Vec<String>)
        ensures
            views(r@) == self.spec_entries(),
    {
        let mut lines: Vec<String> = Vec::new();
        push_kv_opt(
            &mut lines,
            "left",
            match &self.left {
                Some(e) => Some(render_elements(e.as_slice())),
                None => None,
            },
        );
        push_kv_opt(
            &mut lines,
            "center",
            match &self.center {
                Some(e) => Some(render_elements(e.as_slice())),
                None => None,
            },
        );
        push_kv_opt(
            &mut lines,
            "right",
            match &self.right {
                Some(e) => Some(render_elements(e.as_slice())),
                None => None,
            },
        );
        push_kv_opt(
            &mut lines,
            "separator",
            str_value(opt_as_str(&self.separator)),
        );
        push_kv_opt(
            &mut lines,
            "mode.normal",
            str_value(opt_as_str(&self.mode_normal)),
        );
        push_kv_opt(
            &mut lines,
            "mode.insert",
            str_value(opt_as_str(&self.mode_insert)),
        );
        push_kv_opt(
            &mut lines,
            "mode.select",
            str_value(opt_as_str(&self.mode_select)),
        );
        assert(views(lines@) =~= self.spec_entries());
        lines
    }

}

impl HelixConfig for StatuslineSection {
    open spec fn spec_render(&self, ctx: HelixRenderContext) -> Seq<char> {
        table_text("[editor.statusline]"@, self.spec_entries())
    }

    fn render(&self, ctx: &HelixRenderContext) -> (r: String) {
        let entries = self.entries();
        render_table("[editor.statusline]", &entries)
    }

    fn validate(&self) -> (r: Result<(), String>) {
        Ok(())
    }
}

/// LSP integration settings (`[editor.lsp]`).
pub struct LspSection {
    pub enable: Option<bool>,
    pub display_messages: Option<bool>,
    pub auto_signature_help: Option<bool>,
    pub display_inlay_hints: Option<bool>,
    pub display_signature_help_docs: Option<bool>,
    pub snippets: Option<bool>,
    pub goto_reference_include_declaration: Option<bool>,
}

impl Default for LspSection {
    fn default() -> (r: Self)
        ensures
            r == LspSection::spec_empty(),
    {
        LspSection {
            enable: None,
            display_messages: None,
            auto_signature_help: None,
            display_inlay_hints: None,
            display_signature_help_docs: None,
            snippets: None,
            goto_reference_include_declaration: None,
        }
    }
}

impl LspSection {
    /// No option set.
    pub open spec fn spec_empty() -> Self {
        LspSection {
            enable: None,
            display_messages: None,
            auto_signature_help: None,
            display_inlay_hints: None,
            display_signature_help_docs: None,
            snippets: None,
            goto_reference_include_declaration: None,
        }
    }

    pub fn new() -> (r: Self)
        ensures
            r == LspSection::spec_empty(),
    {
        Self::default()
    }

    pub fn enable(self, v: bool) -> (r: Self)
        ensures
            r == (LspSection { enable: Some(v), ..self }),
    {
        LspSection { enable: Some(v), ..self }
    }

    pub fn display_messages(self, v: bool) -> (r: Self)
        ensures
            r == (LspSection { display_messages: Some(v), ..self }),
    {
        LspSection { display_messages: Some(v), ..self }
    }

    pub fn auto_signature_help(self, v: bool) -> (r: Self)
        ensures
            r == (LspSection { auto_signature_help: Some(v), ..self }),
    {
        LspSection { auto_signature_help: Some(v), ..self }
    }

    pub fn display_inlay_hints(self, v: bool) -> (r: Self)
        ensures
            r == (LspSection { display_inlay_hints: Some(v), ..self }),
    {
        LspSection { display_inlay_hints: Some(v), ..self }
    }

    pub fn display_signature_help_docs(self, v: bool) -> (r: Self)
        ensures
            r == (LspSection { display_signature_help_docs: Some(v), ..self }),
    {
        LspSection { display_signature_help_docs: Some(v), ..self }
    }

    pub fn snippets(self, v: bool) -> (r: Self)
        ensures
            r == (LspSection { snippets: Some(v), ..self }),
    {
        LspSection { snippets: Some(v), ..self }
    }

    pub fn goto_reference_include_declaration(self, v: bool) -> (r: Self)
        ensures
            r == (LspSection { goto_reference_include_declaration: Some(v), ..self }),
    {
        LspSection { goto_reference_include_declaration: Some(v), ..self }
    }

    /// The `key = value` lines of the set options, in order.
    pub open spec fn spec_entries(self) -> Seq<Seq<char>> {
        kv_opt(
            "enable"@,
            bool_val(self.enable),
        ) + kv_opt(
            "display-messages"@,
            bool_val(self.display_messages),
        ) + kv_opt(
            "auto-signature-help"@,
            bool_val(self.auto_signature_help),
        ) + kv_opt(
            "display-inlay-hints"@,
            bool_val(self.display_inlay_hints),
        ) + kv_opt(
            "display-signature-help-docs"@,
            bool_val(self.display_signature_help_docs),
        ) + kv_opt(
            "snippets"@,
            bool_val(self.snippets),
        ) + kv_opt(
            "goto-reference-include-declaration"@,
            bool_val(self.goto_reference_include_declaration),
        )
    }

    fn entries(&self) -> (r: Vec<String>)
        ensures
            views(r@) == self.spec_entries(),
    {
        let mut lines: Vec<String> = Vec::new();
        push_kv_opt(
            &mut lines,
            "enable",
            bool_value(self.enable),
        );
        push_kv_opt(
            &mut lines,
            "display-messages",
            bool_value(self.display_messages),
        );
        push_kv_opt(
            &mut lines,
            "auto-signature-help",
            bool_value(self.auto_signature_help),
        );
        push_kv_opt(
            &mut lines,
            "display-inlay-hints",
            bool_value(self.display_inlay_hints),
        );
        push_kv_opt(
            &mut lines,
            "display-signature-help-docs",
            bool_value(self.display_signature_help_docs),
        );
        push_kv_opt(
            &mut lines,
            "snippets",
            bool_value(self.snippets),
        );
        push_kv_opt(
            &mut lines,
            "goto-reference-include-declaration",
            bool_value(self.goto_reference_include_declaration),
        );
        assert(views(lines@) =~= self.spec_entries());
        lines
    }

}

impl HelixConfig for LspSection {
    open spec fn spec_render(&self, ctx: HelixRenderContext) -> Seq<char> {
        table_text("[editor.lsp]"@, self.spec_entries())
    }

    fn render(&self, ctx: &HelixRenderContext) -> (r: String) {
        let entries = self.entries();
        render_table("[editor.lsp]", &entries)
    }

    fn validate(&self) -> (r: Result<(), String>) {
        Ok(())
    }
}

/// File picker settings (`[editor.file-picker]`).
pub struct FilePickerSection {
    pub hidden: Option<bool>,
    pub follow_symlinks: Option<bool>,
    pub deduplicate_links: Option<bool>,
    pub parents: Option<bool>,
    pub ignore: Option<bool>,
    pub git_ignore: Option<bool>,
    pub git_global: Option<bool>,
    pub git_exclude: Option<bool>,
    pub max_depth: Option<u32>,
}

impl Default for FilePickerSection {
    fn default() -> (r: Self)
        ensures
            r == FilePickerSection::spec_empty(),
    {
        FilePickerSection {
            hidden: None,
            follow_symlinks: None,
            deduplicate_links: None,
            parents: None,
            ignore: None,
            git_ignore: None,
            git_global: None,
            git_exclude: None,
            max_depth: None,
        }
    }
}

impl FilePickerSection {
    /// No option set.
    pub open spec fn spec_empty() -> Self {
        FilePickerSection {
            hidden: None,
            follow_symlinks: None,
            deduplicate_links: None,
            parents: None,
            ignore: None,
            git_ignore: None,
            git_global: None,
            git_exclude: None,
            max_depth: None,
        }
    }

    pub fn new() -> (r: Self)
        ensures
            r == FilePickerSection::spec_empty(),
    {
        Self::default()
    }

    pub fn hidden(self, v: bool) -> (r: Self)
        ensures
            r == (FilePickerSection { hidden: Some(v), ..self }),
    {
        FilePickerSection { hidden: Some(v), ..self }
    }

    pub fn follow_symlinks(self, v: bool) -> (r: Self)
        ensures
            r == (FilePickerSection { follow_symlinks: Some(v), ..self }),
    {
        FilePickerSection { follow_symlinks: Some(v), ..self }
    }

    pub fn deduplicate_links(self, v: bool) -> (r: Self)
        ensures
            r == (FilePickerSection { deduplicate_links: Some(v), ..self }),
    {
        FilePickerSection { deduplicate_links: Some(v), ..self }
    }

    pub fn parents(self, v: bool) -> (r: Self)
        ensures
            r == (FilePickerSection { parents: Some(v), ..self }),
    {
        FilePickerSection { parents: Some(v), ..self }
    }

    pub fn ignore(self, v: bool) -> (r: Self)
        ensures
            r == (FilePickerSection { ignore: Some(v), ..self }),
    {
        FilePickerSection { ignore: Some(v), ..self }
    }

    pub fn git_ignore(self, v: bool) -> (r: Self)
        ensures
            r == (FilePickerSection { git_ignore: Some(v), ..self }),
    {
        FilePickerSection { git_ignore: Some(v), ..self }
    }

    pub fn git_global(self, v: bool) -> (r: Self)
        ensures
            r == (FilePickerSection { git_global: Some(v), ..self }),
    {
        FilePickerSection { git_global: Some(v), ..self }
    }

    pub fn git_exclude(self, v: bool) -> (r: Self)
        ensures
            r == (FilePickerSection { git_exclude: Some(v), ..self }),
    {
        FilePickerSection { git_exclude: Some(v), ..self }
    }

    pub fn max_depth(self, d: u32) -> (r: Self)
        ensures
            r == (FilePickerSection { max_depth: Some(d), ..self }),
    {
        FilePickerSection { max_depth: Some(d), ..self }
    }

    /// The `key = value` lines of the set options, in order.
    pub open spec fn spec_entries(self) -> Seq<Seq<char>> {
        kv_opt(
            "hidden"@,
            bool_val(self.hidden),
        ) + kv_opt(
            "follow-symlinks"@,
            bool_val(self.follow_symlinks),
        ) + kv_opt(
            "deduplicate-links"@,
            bool_val(self.deduplicate_links),
        ) + kv_opt(
            "parents"@,
            bool_val(self.parents),
        ) + kv_opt(
            "ignore"@,
            bool_val(self.ignore),
        ) + kv_opt(
            "git-ignore"@,
            bool_val(self.git_ignore),
        ) + kv_opt(
            "git-global"@,
            bool_val(self.git_global),
        ) + kv_opt(
            "git-exclude"@,
            bool_val(self.git_exclude),
        ) + kv_opt(
            "max-depth"@,
            num_val(
                match self.max_depth {
                    Some(n) => Some(n as nat),
                    None => None,
                },
            ),
        )
    }

    fn entries(&self) -> (r: Vec<String>)
        ensures
            views(r@) == self.spec_entries(),
    {
        let mut lines: Vec<String> = Vec::new();
        push_kv_opt(
            &mut lines,
            "hidden",
            bool_value(self.hidden),
        );
        push_kv_opt(
            &mut lines,
            "follow-symlinks",
            bool_value(self.follow_symlinks),
        );
        push_kv_opt(
            &mut lines,
            "deduplicate-links",
            bool_value(self.deduplicate_links),
        );
        push_kv_opt(
            &mut lines,
            "parents",
            bool_value(self.parents),
        );
        push_kv_opt(
            &mut lines,
            "ignore",
            bool_value(self.ignore),
        );
        push_kv_opt(
            &mut lines,
            "git-ignore",
            bool_value(self.git_ignore),
        );
        push_kv_opt(
            &mut lines,
            "git-global",
            bool_value(self.git_global),
        );
        push_kv_opt(
            &mut lines,
            "git-exclude",
            bool_value(self.git_exclude),
        );
        push_kv_opt(
            &mut lines,
            "max-depth",
            u32_value(self.max_depth),
        );
        assert(views(lines@) =~= self.spec_entries());
        lines
    }

}

impl HelixConfig for FilePickerSection {
    open spec fn spec_render(&self, ctx: HelixRenderContext) -> Seq<char> {
        table_text("[editor.file-picker]"@, self.spec_entries())
    }

    fn render(&self, ctx: &HelixRenderContext) -> (r: String) {
        let entries = self.entries();
        render_table("[editor.file-picker]", &entries)
    }

    fn validate(&self) -> (r: Result<(), String>) {
        Ok(())
    }
}

/// Search settings (`[editor.search]`).
pub struct SearchSection {
    pub smart_case: Option<bool>,
    pub wrap_around: Option<bool>,
}

impl Default for SearchSection {
    fn default() -> (r: Self)
        ensures
            r == SearchSection::spec_empty(),
    {
        SearchSection {
            smart_case: None,
            wrap_around: None,
        }
    }
}

impl SearchSection {
    /// No option set.
    pub open spec fn spec_empty() -> Self {
        SearchSection {
            smart_case: None,
            wrap_around: None,
        }
    }

    pub fn new() -> (r: Self)
        ensures
            r == SearchSection::spec_empty(),
    {
        Self::default()
    }

    pub fn smart_case(self, v: bool) -> (r: Self)
        ensures
            r == (SearchSection { smart_case: Some(v), ..self }),
    {
        SearchSection { smart_case: Some(v), ..self }
    }

    pub fn wrap_around(self, v: bool) -> (r: Self)
        ensures
            r == (SearchSection { wrap_around: Some(v), ..self }),
    {
        SearchSection { wrap_around: Some(v), ..self }
    }

    /// The `key = value` lines of the set options, in order.
    pub open spec fn spec_entries(self) -> Seq<Seq<char>> {
        kv_opt(
            "smart-case"@,
            bool_val(self.smart_case),
        ) + kv_opt(
            "wrap-around"@,
            bool_val(self.wrap_around),
        )
    }

    fn entries(&self) -> (r: Vec<String>)
        ensures
            views(r@) == self.spec_entries(),
    {
        let mut lines: Vec<String> = Vec::new();
        push_kv_opt(
            &mut lines,
            "smart-case",
            bool_value(self.smart_case),
        );
        push_kv_opt(
            &mut lines,
            "wrap-around",
            bool_value(self.wrap_around),
        );
        assert(views(lines@) =~= self.spec_entries());
        lines
    }

}

impl HelixConfig for SearchSection {
    open spec fn spec_render(&self, ctx: HelixRenderContext) -> Seq<char> {
        table_text("[editor.search]"@, self.spec_entries())
    }

    fn render(&self, ctx: &HelixRenderContext) -> (r: String) {
        let entries = self.entries();
        render_table("[editor.search]", &entries)
    }

    fn validate(&self) -> (r: Result<(), String>) {
        Ok(())
    }
}

/// Indent guide settings (`[editor.indent-guides]`).
pub struct IndentGuidesSection {
    pub render: Option<bool>,
    pub character: Option<String>,
    pub skip_levels: Option<u32>,
}

impl Default for IndentGuidesSection {
    fn default() -> (r: Self)
        ensures
            r == IndentGuidesSection::spec_empty(),
    {
        IndentGuidesSection {
            render: None,
            character: None,
            skip_levels: None,
        }
    }
}

impl IndentGuidesSection {
    /// No option set.
    pub open spec fn spec_empty() -> Self {
        IndentGuidesSection {
            render: None,
            character: None,
            skip_levels: None,
        }
    }

    pub fn new() -> (r: Self)
        ensures
            r == IndentGuidesSection::spec_empty(),
    {
        Self::default()
    }

    pub fn render(self, v: bool) -> (r: Self)
        ensures
            r == (IndentGuidesSection { render: Some(v), ..self }),
    {
        IndentGuidesSection { render: Some(v), ..self }
    }

    pub fn character(self, c: &str) -> (r: Self)
        ensures
            opt_view(r.character) == Some(c@),
            r == (IndentGuidesSection { character: r.character, ..self }),
    {
        IndentGuidesSection { character: Some(owned(c)), ..self }
    }

    pub fn skip_levels(self, n: u32) -> (r: Self)
        ensures
            r == (IndentGuidesSection { skip_levels: Some(n), ..self }),
    {
        IndentGuidesSection { skip_levels: Some(n), ..self }
    }

    /// The `key = value` lines of the set options, in order.
    pub open spec fn spec_entries(self) -> Seq<Seq<char>> {
        kv_opt(
            "render"@,
            bool_val(self.render),
        ) + kv_opt(
            "character"@,
            str_val(opt_view(self.character)),
        ) + kv_opt(
            "skip-levels"@,
            num_val(
                match self.skip_levels {
                    Some(n) => Some(n as nat),
                    None => None,
                },
            ),
        )
    }

    fn entries(&self) -> (r: Vec<String>)
        ensures
            views(r@) == self.spec_entries(),
    {
        let mut lines: Vec<String> = Vec::new();
        push_kv_opt(
            &mut lines,
            "render",
            bool_value(self.render),
        );
        push_kv_opt(
            &mut lines,
            "character",
            str_value(opt_as_str(&self.character)),
        );
        push_kv_opt(
            &mut lines,
            "skip-levels",
            u32_value(self.skip_levels),
        );
        assert(views(lines@) =~= self.spec_entries());
        lines
    }

}

impl HelixConfig for IndentGuidesSection {
    open spec fn spec_render(&self, ctx: HelixRenderContext) -> Seq<char> {
        table_text("[editor.indent-guides]"@, self.spec_entries())
    }

    fn render(&self, ctx: &HelixRenderContext) -> (r: String) {
        let entries = self.entries();
        render_table("[editor.indent-guides]", &entries)
    }

    fn validate(&self) -> (r: Result<(), String>) {
        Ok(())
    }
}

/// Soft-wrap settings (`[editor.soft-wrap]`).
pub struct SoftWrapSection {
    pub enable: Option<bool>,
    pub max_wrap: Option<u32>,
    pub max_indent_retain: Option<u32>,
    pub wrap_indicator: Option<String>,
    pub wrap_at_text_width: Option<bool>,
}

impl Default for SoftWrapSection {
    fn default() -> (r: Self)
        ensures
            r == SoftWrapSection::spec_empty(),
    {
        SoftWrapSection {
            enable: None,
            max_wrap: None,
            max_indent_retain: None,
            wrap_indicator: None,
            wrap_at_text_width: None,
        }
    }
}

impl SoftWrapSection {
    /// No option set.
    pub open spec fn spec_empty() -> Self {
        SoftWrapSection {
            enable: None,
            max_wrap: None,
            max_indent_retain: None,
            wrap_indicator: None,
            wrap_at_text_width: None,
        }
    }

    pub fn new() -> (r: Self)
        ensures
            r == SoftWrapSection::spec_empty(),
    {
        Self::default()
    }

    pub fn enable(self, v: bool) -> (r: Self)
        ensures
            r == (SoftWrapSection { enable: Some(v), ..self }),
    {
        SoftWrapSection { enable: Some(v), ..self }
    }

    pub fn max_wrap(self, n: u32) -> (r: Self)
        ensures
            r == (SoftWrapSection { max_wrap: Some(n), ..self }),
    {
        SoftWrapSection { max_wrap: Some(n), ..self }
    }

    pub fn max_indent_retain(self, n: u32) -> (r: Self)
        ensures
            r == (SoftWrapSection { max_indent_retain: Some(n), ..self }),
    {
        SoftWrapSection { max_indent_retain: Some(n), ..self }
    }

    pub fn wrap_indicator(self, s: &str) -> (r: Self)
        ensures
            opt_view(r.wrap_indicator) == Some(s@),
            r == (SoftWrapSection { wrap_indicator: r.wrap_indicator, ..self }),
    {
        SoftWrapSection { wrap_indicator: Some(owned(s)), ..self }
    }

    pub fn wrap_at_text_width(self, v: bool) -> (r: Self)
        ensures
            r == (SoftWrapSection { wrap_at_text_width: Some(v), ..self }),
    {
        SoftWrapSection { wrap_at_text_width: Some(v), ..self }
    }

    /// The `key = value` lines of the set options, in order.
    pub open spec fn spec_entries(self) -> Seq<Seq<char>> {
        kv_opt(
            "enable"@,
            bool_val(self.enable),
        ) + kv_opt(
            "max-wrap"@,
            num_val(
                match self.max_wrap {
                    Some(n) => Some(n as nat),
                    None => None,
                },
            ),
        ) + kv_opt(
            "max-indent-retain"@,
            num_val(
                match self.max_indent_retain {
                    Some(n) => Some(n as nat),
                    None => None,
                },
            ),
        ) + kv_opt(
            "wrap-indicator"@,
            str_val(opt_view(self.wrap_indicator)),
        ) + kv_opt(
            "wrap-at-text-width"@,
            bool_val(self.wrap_at_text_width),
        )
    }

    fn entries(&self) -> (r: Vec<String>)
        ensures
            views(r@) == self.spec_entries(),
    {
        let mut lines: Vec<String> = Vec::new();
        push_kv_opt(
            &mut lines,
            "enable",
            bool_value(self.enable),
        );
        push_kv_opt(
            &mut lines,
            "max-wrap",
            u32_value(self.max_wrap),
        );
        push_kv_opt(
            &mut lines,
            "max-indent-retain",
            u32_value(self.max_indent_retain),
        );
        push_kv_opt(
            &mut lines,
            "wrap-indicator",
            str_value(opt_as_str(&self.wrap_indicator)),
        );
        push_kv_opt(
            &mut lines,
            "wrap-at-text-width",
            bool_value(self.wrap_at_text_width),
        );
        assert(views(lines@) =~= self.spec_entries());
        lines
    }

}

impl HelixConfig for SoftWrapSection {
    open spec fn spec_render(&self, ctx: HelixRenderContext) -> Seq<char> {
        table_text("[editor.soft-wrap]"@, self.spec_entries())
    }

    fn render(&self, ctx: &HelixRenderContext) -> (r: String) {
        let entries = self.entries();
        render_table("[editor.soft-wrap]", &entries)
    }

    fn validate(&self) -> (r: Result<(), String>) {
        Ok(())
    }
}

/// The main `[editor]` table and its sub-tables.
pub struct EditorSection {
    pub line_number: Option<String>,
    pub cursorline: Option<bool>,
    pub cursorcolumn: Option<bool>,
    pub color_modes: Option<bool>,
    pub bufferline: Option<Bufferline>,
    pub true_color: Option<bool>,
    pub undercurl: Option<bool>,
    pub rulers: Option<Vec<u32>>,
    pub mouse: Option<bool>,
    pub middle_click_paste: Option<bool>,
    pub scrolloff: Option<u32>,
    pub scroll_lines: Option<u32>,
    pub shell: Option<Vec<String>>,
    pub text_width: Option<u32>,
    pub default_line_ending: Option<String>,
    pub insert_final_newline: Option<bool>,
    pub trim_trailing_whitespace: Option<bool>,
    pub auto_completion: Option<bool>,
    pub auto_format: Option<bool>,
    pub auto_save: Option<bool>,
    pub idle_timeout: Option<u64>,
    pub completion_timeout: Option<u64>,
    pub preview_completion_insert: Option<bool>,
    pub completion_trigger_len: Option<u32>,
    pub completion_replace: Option<bool>,
    pub auto_info: Option<bool>,
    pub workspace_lsp_roots: Option<Vec<String>>,
    pub cursor_shape: Option<CursorShapeSection>,
    pub statusline: Option<StatuslineSection>,
    pub lsp: Option<LspSection>,
    pub file_picker: Option<FilePickerSection>,
    pub search: Option<SearchSection>,
    pub indent_guides: Option<IndentGuidesSection>,
    pub soft_wrap: Option<SoftWrapSection>,
}

impl Default for EditorSection {
    fn default() -> (r: Self)
        ensures
            r == EditorSection::spec_empty(),
    {
        EditorSection {
            line_number: None,
            cursorline: None,
            cursorcolumn: None,
            color_modes: None,
            bufferline: None,
            true_color: None,
            undercurl: None,
            rulers: None,
            mouse: None,
            middle_click_paste: None,
            scrolloff: None,
            scroll_lines: None,
            shell: None,
            text_width: None,
            default_line_ending: None,
            insert_final_newline: None,
            trim_trailing_whitespace: None,
            auto_completion: None,
            auto_format: None,
            auto_save: None,
            idle_timeout: None,
            completion_timeout: None,
            preview_completion_insert: None,
            completion_trigger_len: None,
            completion_replace: None,
            auto_info: None,
            workspace_lsp_roots: None,
            cursor_shape: None,
            statusline: None,
            lsp: None,
            file_picker: None,
            search: None,
            indent_guides: None,
            soft_wrap: None,
        }
    }
}

impl EditorSection {
    /// No option set.
    pub open spec fn spec_empty() -> Self {
        EditorSection {
            line_number: None,
            cursorline: None,
            cursorcolumn: None,
            color_modes: None,
            bufferline: None,
            true_color: None,
            undercurl: None,
            rulers: None,
            mouse: None,
            middle_click_paste: None,
            scrolloff: None,
            scroll_lines: None,
            shell: None,
            text_width: None,
            default_line_ending: None,
            insert_final_newline: None,
            trim_trailing_whitespace: None,
            auto_completion: None,
            auto_format: None,
            auto_save: None,
            idle_timeout: None,
            completion_timeout: None,
            preview_completion_insert: None,
            completion_trigger_len: None,
            completion_replace: None,
            auto_info: None,
            workspace_lsp_roots: None,
            cursor_shape: None,
            statusline: None,
            lsp: None,
            file_picker: None,
            search: None,
            indent_guides: None,
            soft_wrap: None,
        }
    }

    pub fn new() -> (r: Self)
        ensures
            r == EditorSection::spec_empty(),
    {
        Self::default()
    }

    pub fn line_number(self, s: &str) -> (r: Self)
        ensures
            opt_view(r.line_number) == Some(s@),
            r == (EditorSection { line_number: r.line_number, ..self }),
    {
        EditorSection { line_number: Some(owned(s)), ..self }
    }

    pub fn line_number_enum(self, ln: LineNumber) -> (r: Self)
        ensures
            opt_view(r.line_number) == Some(ln.spec_str()),
            r == (EditorSection { line_number: r.line_number, ..self }),
    {
        EditorSection { line_number: Some(owned(ln.as_str())), ..self }
    }

    pub fn cursorline(self, v: bool) -> (r: Self)
        ensures
            r == (EditorSection { cursorline: Some(v), ..self }),
    {
        EditorSection { cursorline: Some(v), ..self }
    }

    pub fn cursorcolumn(self, v: bool) -> (r: Self)
        ensures
            r == (EditorSection { cursorcolumn: Some(v), ..self }),
    {
        EditorSection { cursorcolumn: Some(v), ..self }
    }

    pub fn color_modes(self, v: bool) -> (r: Self)
        ensures
            r == (EditorSection { color_modes: Some(v), ..self }),
    {
        EditorSection { color_modes: Some(v), ..self }
    }

    pub fn bufferline(self, b: Bufferline) -> (r: Self)
        ensures
            r == (EditorSection { bufferline: Some(b), ..self }),
    {
        EditorSection { bufferline: Some(b), ..self }
    }

    pub fn true_color(self, v: bool) -> (r: Self)
        ensures
            r == (EditorSection { true_color: Some(v), ..self }),
    {
        EditorSection { true_color: Some(v), ..self }
    }

    pub fn undercurl(self, v: bool) -> (r: Self)
        ensures
            r == (EditorSection { undercurl: Some(v), ..self }),
    {
        EditorSection { undercurl: Some(v), ..self }
    }

    pub fn rulers(self, cols: Vec<u32>) -> (r: Self)
        ensures
            r == (EditorSection { rulers: Some(cols), ..self }),
    {
        EditorSection { rulers: Some(cols), ..self }
    }

    pub fn mouse(self, v: bool) -> (r: Self)
        ensures
            r == (EditorSection { mouse: Some(v), ..self }),
    {
        EditorSection { mouse: Some(v), ..self }
    }

    pub fn middle_click_paste(self, v: bool) -> (r: Self)
        ensures
            r == (EditorSection { middle_click_paste: Some(v), ..self }),
    {
        EditorSection { middle_click_paste: Some(v), ..self }
    }

    pub fn scrolloff(self, n: u32) -> (r: Self)
        ensures
            r == (EditorSection { scrolloff: Some(n), ..self }),
    {
        EditorSection { scrolloff: Some(n), ..self }
    }

    pub fn scroll_lines(self, n: u32) -> (r: Self)
        ensures
            r == (EditorSection { scroll_lines: Some(n), ..self }),
    {
        EditorSection { scroll_lines: Some(n), ..self }
    }

    pub fn shell(self, args: &[&str]) -> (r: Self)
        ensures
            r.shell matches Some(v) && views(v@) == args@.map_values(|s: &str| s@),
            r == (EditorSection { shell: r.shell, ..self }),
    {
        EditorSection { shell: Some(owned_all(args)), ..self }
    }

    pub fn text_width(self, n: u32) -> (r: Self)
        ensures
            r == (EditorSection { text_width: Some(n), ..self }),
    {
        EditorSection { text_width: Some(n), ..self }
    }

    pub fn default_line_ending(self, s: &str) -> (r: Self)
        ensures
            opt_view(r.default_line_ending) == Some(s@),
            r == (EditorSection { default_line_ending: r.default_line_ending, ..self }),
    {
        EditorSection { default_line_ending: Some(owned(s)), ..self }
    }

    pub fn insert_final_newline(self, v: bool) -> (r: Self)
        ensures
            r == (EditorSection { insert_final_newline: Some(v), ..self }),
    {
        EditorSection { insert_final_newline: Some(v), ..self }
    }

    pub fn trim_trailing_whitespace(self, v: bool) -> (r: Self)
        ensures
            r == (EditorSection { trim_trailing_whitespace: Some(v), ..self }),
    {
        EditorSection { trim_trailing_whitespace: Some(v), ..self }
    }

    pub fn auto_completion(self, v: bool) -> (r: Self)
        ensures
            r == (EditorSection { auto_completion: Some(v), ..self }),
    {
        EditorSection { auto_completion: Some(v), ..self }
    }

    pub fn auto_format(self, v: bool) -> (r: Self)
        ensures
            r == (EditorSection { auto_format: Some(v), ..self }),
    {
        EditorSection { auto_format: Some(v), ..self }
    }

    pub fn auto_save(self, v: bool) -> (r: Self)
        ensures
            r == (EditorSection { auto_save: Some(v), ..self }),
    {
        EditorSection { auto_save: Some(v), ..self }
    }

    pub fn idle_timeout(self, ms: u64) -> (r: Self)
        ensures
            r == (EditorSection { idle_timeout: Some(ms), ..self }),
    {
        EditorSection { idle_timeout: Some(ms), ..self }
    }

    pub fn completion_timeout(self, ms: u64) -> (r: Self)
        ensures
            r == (EditorSection { completion_timeout: Some(ms), ..self }),
    {
        EditorSection { completion_timeout: Some(ms), ..self }
    }

    pub fn preview_completion_insert(self, v: bool) -> (r: Self)
        ensures
            r == (EditorSection { preview_completion_insert: Some(v), ..self }),
    {
        EditorSection { preview_completion_insert: Some(v), ..self }
    }

    pub fn completion_trigger_len(self, n: u32) -> (r: Self)
        ensures
            r == (EditorSection { completion_trigger_len: Some(n), ..self }),
    {
        EditorSection { completion_trigger_len: Some(n), ..self }
    }

    pub fn completion_replace(self, v: bool) -> (r: Self)
        ensures
            r == (EditorSection { completion_replace: Some(v), ..self }),
    {
        EditorSection { completion_replace: Some(v), ..self }
    }

    pub fn auto_info(self, v: bool) -> (r: Self)
        ensures
            r == (EditorSection { auto_info: Some(v), ..self }),
    {
        EditorSection { auto_info: Some(v), ..self }
    }

    pub fn workspace_lsp_roots(self, roots: &[&str]) -> (r: Self)
        ensures
            r.workspace_lsp_roots matches Some(v) && views(v@) == roots@.map_values(|s: &str| s@),
            r == (EditorSection { workspace_lsp_roots: r.workspace_lsp_roots, ..self }),
    {
        EditorSection { workspace_lsp_roots: Some(owned_all(roots)), ..self }
    }

    pub fn cursor_shape(self, s: CursorShapeSection) -> (r: Self)
        ensures
            r == (EditorSection { cursor_shape: Some(s), ..self }),
    {
        EditorSection { cursor_shape: Some(s), ..self }
    }

    pub fn statusline(self, s: StatuslineSection) -> (r: Self)
        ensures
            r == (EditorSection { statusline: Some(s), ..self }),
    {
        EditorSection { statusline: Some(s), ..self }
    }

    pub fn lsp(self, s: LspSection) -> (r: Self)
        ensures
            r == (EditorSection { lsp: Some(s), ..self }),
    {
        EditorSection { lsp: Some(s), ..self }
    }

    pub fn file_picker(self, s: FilePickerSection) -> (r: Self)
        ensures
            r == (EditorSection { file_picker: Some(s), ..self }),
    {
        EditorSection { file_picker: Some(s), ..self }
    }

    pub fn search(self, s: SearchSection) -> (r: Self)
        ensures
            r == (EditorSection { search: Some(s), ..self }),
    {
        EditorSection { search: Some(s), ..self }
    }

    pub fn indent_guides(self, s: IndentGuidesSection) -> (r: Self)
        ensures
            r == (EditorSection { indent_guides: Some(s), ..self }),
    {
        EditorSection { indent_guides: Some(s), ..self }
    }

    pub fn soft_wrap(self, s: SoftWrapSection) -> (r: Self)
        ensures
            r == (EditorSection { soft_wrap: Some(s), ..self }),
    {
        EditorSection { soft_wrap: Some(s), ..self }
    }

    /// The `key = value` lines of the set options, in order.
    pub open spec fn spec_display_entries(self) -> Seq<Seq<char>> {
        kv_opt(
            "line-number"@,
            str_val(opt_view(self.line_number)),
        ) + kv_opt(
            "cursorline"@,
            bool_val(self.cursorline),
        ) + kv_opt(
            "cursorcolumn"@,
            bool_val(self.cursorcolumn),
        ) + kv_opt(
            "color-modes"@,
            bool_val(self.color_modes),
        ) + kv_opt(
            "bufferline"@,
            str_val(
                match self.bufferline {
                    Some(k) => Some(k.spec_str()),
                    None => None,
                },
            ),
        ) + kv_opt(
            "true-color"@,
            bool_val(self.true_color),
        ) + kv_opt(
            "undercurl"@,
            bool_val(self.undercurl),
        ) + kv_opt(
            "rulers"@,
            match self.rulers {
                Some(c) => Some(numbers_text(c@)),
                None => None,
            },
        ) + kv_opt(
            "mouse"@,
            bool_val(self.mouse),
        )
    }

    fn display_entries(&self) -> (r: Vec<String>)
        ensures
            views(r@) == self.spec_display_entries(),
    {
        let mut lines: Vec<String> = Vec::new();
        push_kv_opt(
            &mut lines,
            "line-number",
            str_value(opt_as_str(&self.line_number)),
        );
        push_kv_opt(
            &mut lines,
            "cursorline",
            bool_value(self.cursorline),
        );
        push_kv_opt(
            &mut lines,
            "cursorcolumn",
            bool_value(self.cursorcolumn),
        );
        push_kv_opt(
            &mut lines,
            "color-modes",
            bool_value(self.color_modes),
        );
        push_kv_opt(
            &mut lines,
            "bufferline",
            str_value(
                match &self.bufferline {
                    Some(k) => Some(k.as_str()),
                    None => None,
                },
            ),
        );
        push_kv_opt(
            &mut lines,
            "true-color",
            bool_value(self.true_color),
        );
        push_kv_opt(
            &mut lines,
            "undercurl",
            bool_value(self.undercurl),
        );
        push_kv_opt(
            &mut lines,
            "rulers",
            match &self.rulers {
                Some(c) => Some(render_numbers(c)),
                None => None,
            },
        );
        push_kv_opt(
            &mut lines,
            "mouse",
            bool_value(self.mouse),
        );
        assert(views(lines@) =~= self.spec_display_entries());
        lines
    }

    /// The `key = value` lines of the set options, in order.
    pub open spec fn spec_behaviour_entries(self) -> Seq<Seq<char>> {
        kv_opt(
            "middle-click-paste"@,
            bool_val(self.middle_click_paste),
        ) + kv_opt(
            "scrolloff"@,
            num_val(
                match self.scrolloff {
                    Some(n) => Some(n as nat),
                    None => None,
                },
            ),
        ) + kv_opt(
            "scroll-lines"@,
            num_val(
                match self.scroll_lines {
                    Some(n) => Some(n as nat),
                    None => None,
                },
            ),
        ) + kv_opt(
            "shell"@,
            match self.shell {
                Some(a) => Some(toml_array(views(a@))),
                None => None,
            },
        ) + kv_opt(
            "text-width"@,
            num_val(
                match self.text_width {
                    Some(n) => Some(n as nat),
                    None => None,
                },
            ),
        ) + kv_opt(
            "default-line-ending"@,
            str_val(opt_view(self.default_line_ending)),
        ) + kv_opt(
            "insert-final-newline"@,
            bool_val(self.insert_final_newline),
        ) + kv_opt(
            "trim-trailing-whitespace"@,
            bool_val(self.trim_trailing_whitespace),
        ) + kv_opt(
            "auto-completion"@,
            bool_val(self.auto_completion),
        )
    }

    fn behaviour_entries(&self) -> (r: Vec<String>)
        ensures
            views(r@) == self.spec_behaviour_entries(),
    {
        let mut lines: Vec<String> = Vec::new();
        push_kv_opt(
            &mut lines,
            "middle-click-paste",
            bool_value(self.middle_click_paste),
        );
        push_kv_opt(
            &mut lines,
            "scrolloff",
            u32_value(self.scrolloff),
        );
        push_kv_opt(
            &mut lines,
            "scroll-lines",
            u32_value(self.scroll_lines),
        );
        push_kv_opt(
            &mut lines,
            "shell",
            match &self.shell {
                Some(a) => Some(toml_str_array(a.as_slice())),
                None => None,
            },
        );
        push_kv_opt(
            &mut lines,
            "text-width",
            u32_value(self.text_width),
        );
        push_kv_opt(
            &mut lines,
            "default-line-ending",
            str_value(opt_as_str(&self.default_line_ending)),
        );
        push_kv_opt(
            &mut lines,
            "insert-final-newline",
            bool_value(self.insert_final_newline),
        );
        push_kv_opt(
            &mut lines,
            "trim-trailing-whitespace",
            bool_value(self.trim_trailing_whitespace),
        );
        push_kv_opt(
            &mut lines,
            "auto-completion",
            bool_value(self.auto_completion),
        );
        assert(views(lines@) =~= self.spec_behaviour_entries());
        lines
    }

    /// The `key = value` lines of the set options, in order.
    pub open spec fn spec_feature_entries(self) -> Seq<Seq<char>> {
        kv_opt(
            "auto-format"@,
            bool_val(self.auto_format),
        ) + kv_opt(
            "auto-save"@,
            bool_val(self.auto_save),
        ) + kv_opt(
            "idle-timeout"@,
            num_val(
                match self.idle_timeout {
                    Some(n) => Some(n as nat),
                    None => None,
                },
            ),
        ) + kv_opt(
            "completion-timeout"@,
            num_val(
                match self.completion_timeout {
                    Some(n) => Some(n as nat),
                    None => None,
                },
            ),
        ) + kv_opt(
            "preview-completion-insert"@,
            bool_val(self.preview_completion_insert),
        ) + kv_opt(
            "completion-trigger-len"@,
            num_val(
                match self.completion_trigger_len {
                    Some(n) => Some(n as nat),
                    None => None,
                },
            ),
        ) + kv_opt(
            "completion-replace"@,
            bool_val(self.completion_replace),
        ) + kv_opt(
            "auto-info"@,
            bool_val(self.auto_info),
        ) + kv_opt(
            "workspace-lsp-roots"@,
            match self.workspace_lsp_roots {
                Some(a) => Some(toml_array(views(a@))),
                None => None,
            },
        )
    }

    fn feature_entries(&self) -> (r: Vec<String>)
        ensures
            views(r@) == self.spec_feature_entries(),
    {
        let mut lines: Vec<String> = Vec::new();
        push_kv_opt(
            &mut lines,
            "auto-format",
            bool_value(self.auto_format),
        );
        push_kv_opt(
            &mut lines,
            "auto-save",
            bool_value(self.auto_save),
        );
        push_kv_opt(
            &mut lines,
            "idle-timeout",
            u64_value(self.idle_timeout),
        );
        push_kv_opt(
            &mut lines,
            "completion-timeout",
            u64_value(self.completion_timeout),
        );
        push_kv_opt(
            &mut lines,
            "preview-completion-insert",
            bool_value(self.preview_completion_insert),
        );
        push_kv_opt(
            &mut lines,
            "completion-trigger-len",
            u32_value(self.completion_trigger_len),
        );
        push_kv_opt(
            &mut lines,
            "completion-replace",
            bool_value(self.completion_replace),
        );
        push_kv_opt(
            &mut lines,
            "auto-info",
            bool_value(self.auto_info),
        );
        push_kv_opt(
            &mut lines,
            "workspace-lsp-roots",
            match &self.workspace_lsp_roots {
                Some(a) => Some(toml_str_array(a.as_slice())),
                None => None,
            },
        );
        assert(views(lines@) =~= self.spec_feature_entries());
        lines
    }

    /// All `key = value` lines of the `[editor]` table, in order.
    pub open spec fn spec_entries(self) -> Seq<Seq<char>> {
        self.spec_display_entries() + self.spec_behaviour_entries() + self.spec_feature_entries()
    }

    /// The rendered sub-tables that are set and not empty, in order.
    pub open spec fn spec_sub_tables(self, ctx: HelixRenderContext) -> Seq<Seq<char>> {
        (match self.cursor_shape {
            Some(s) => nonempty(s.spec_render(ctx)),
            None => Seq::empty(),
        }) + (match self.statusline {
            Some(s) => nonempty(s.spec_render(ctx)),
            None => Seq::empty(),
        }) + (match self.lsp {
            Some(s) => nonempty(s.spec_render(ctx)),
            None => Seq::empty(),
        }) + (match self.file_picker {
            Some(s) => nonempty(s.spec_render(ctx)),
            None => Seq::empty(),
        }) + (match self.search {
            Some(s) => nonempty(s.spec_render(ctx)),
            None => Seq::empty(),
        }) + (match self.indent_guides {
            Some(s) => nonempty(s.spec_render(ctx)),
            None => Seq::empty(),
        }) + (match self.soft_wrap {
            Some(s) => nonempty(s.spec_render(ctx)),
            None => Seq::empty(),
        })
    }

    fn sub_tables(&self, ctx: &HelixRenderContext) -> (r: Vec<String>)
        ensures
            views(r@) == self.spec_sub_tables(*ctx),
    {
        let mut parts: Vec<String> = Vec::new();
        match &self.cursor_shape {
            Some(s) => {
                push_nonempty(&mut parts, s.render(ctx));
            },
            None => {},
        }
        match &self.statusline {
            Some(s) => {
                push_nonempty(&mut parts, s.render(ctx));
            },
            None => {},
        }
        match &self.lsp {
            Some(s) => {
                push_nonempty(&mut parts, s.render(ctx));
            },
            None => {},
        }
        match &self.file_picker {
            Some(s) => {
                push_nonempty(&mut parts, s.render(ctx));
            },
            None => {},
        }
        match &self.search {
            Some(s) => {
                push_nonempty(&mut parts, s.render(ctx));
            },
            None => {},
        }
        match &self.indent_guides {
            Some(s) => {
                push_nonempty(&mut parts, s.render(ctx));
            },
            None => {},
        }
        match &self.soft_wrap {
            Some(s) => {
                push_nonempty(&mut parts, s.render(ctx));
            },
            None => {},
        }
        assert(views(parts@) =~= self.spec_sub_tables(*ctx));
        parts
    }
}

/// The `[editor]` header always comes first, even when no key is set.
pub proof fn editor_header_comes_first(sec: EditorSection, ctx: HelixRenderContext)
    ensures
        ("[editor]"@).is_prefix_of(sec.spec_render(ctx)),
{
    let inner = seq!["[editor]"@] + sec.spec_entries();
    let first = join(inner, "\n"@);
    let outer = seq![first] + sec.spec_sub_tables(ctx);
    assert(inner[0] == "[editor]"@);
    assert(outer[0] == first);
    lemma_join_first(inner, "\n"@);
    lemma_join_first(outer, "\n\n"@);
    let whole = join(outer, "\n\n"@);
    let h = "[editor]"@;
    assert(whole.subrange(0, h.len() as int) =~= first.subrange(0, h.len() as int));
}

/// The `cursorline` line of the `[editor]` table follows the `cursorline`
/// field: when it is set to `v`, the table has the line `cursorline = v`, on a
/// line of its own in the rendered text.
pub proof fn cursorline_line_follows_its_field(sec: EditorSection, ctx: HelixRenderContext)
    ensures
        sec.cursorline matches Some(v) ==> sec.spec_entries().contains("cursorline = "@ + bool_str(v)),
        sec.cursorline matches Some(v) ==> occurs_in(
            "\n"@ + ("cursorline = "@ + bool_str(v)),
            sec.spec_render(ctx),
        ),
{
    if let Some(v) = sec.cursorline {
        let line = "cursorline = "@ + bool_str(v);
        reveal_strlit("cursorline = ");
        reveal_strlit("cursorline");
        reveal_strlit(" = ");
        assert(line =~= "cursorline"@ + " = "@ + bool_str(v));
        let a = kv_opt("line-number"@, str_val(opt_view(sec.line_number)));
        let k: int = a.len() as int;
        assert(sec.spec_display_entries()[k] == line);
        assert(sec.spec_entries()[k] == line);
        let inner = seq!["[editor]"@] + sec.spec_entries();
        assert(inner[k + 1] == line);
        lemma_join_occurs(inner, "\n"@, k + 1);
        let outer = seq![join(inner, "\n"@)] + sec.spec_sub_tables(ctx);
        assert(outer[0] == join(inner, "\n"@));
        lemma_join_occurs(outer, "\n\n"@, 0);
        lemma_occurs_trans("\n"@ + line, join(inner, "\n"@), join(outer, "\n\n"@));
    }
}

impl HelixConfig for EditorSection {
    open spec fn spec_render(&self, ctx: HelixRenderContext) -> Seq<char> {
        join(seq![join(seq!["[editor]"@] + self.spec_entries(), "\n"@)] + self.spec_sub_tables(ctx), "\n\n"@)
    }

    fn render(&self, ctx: &HelixRenderContext) -> (r: String) {
        let mut kv: Vec<String> = Vec::new();
        push_part(&mut kv, owned("[editor]"));
        append_parts(&mut kv, self.display_entries());
        append_parts(&mut kv, self.behaviour_entries());
        append_parts(&mut kv, self.feature_entries());
        assert(views(kv@) =~= seq!["[editor]"@] + self.spec_entries());
        let mut parts: Vec<String> = Vec::new();
        push_part(&mut parts, join_strings(&kv, "\n"));
        append_parts(&mut parts, self.sub_tables(ctx));
        assert(views(parts@) =~= seq![join(seq!["[editor]"@] + self.spec_entries(), "\n"@)] + self.spec_sub_tables(*ctx));
        join_strings(&parts, "\n\n")
    }

    fn validate(&self) -> (r: Result<(), String>) {
        Ok(())
    }
}

} // verus!
