//! fstab entries and the fstab file.
use vstd::prelude::*;
use crate::fstab::options::{opts_text, opts_view, render_opts, MountOpt};
use crate::text::{
    cat2, join, join_strings, nat_str, opt_view, owned, pad_right, pad_right_string, push_part,
    u64_str, views,
};

verus! {

/// A single line in `/etc/fstab`.
pub struct FstabEntry {
    /// Device specifier: a path, `UUID=…`, `LABEL=…` or `PARTUUID=…`.
    pub device: String,
    /// Mount point, e.g. `/`, `/home`, `none` for swap.
    pub mount_point: String,
    /// Filesystem type, e.g. `ext4`, `btrfs`, `swap`.
    pub fs_type: String,
    /// Typed mount options.
    pub options: Vec<MountOpt>,
    /// Raw options string; when set it replaces `options`.
    pub options_raw: Option<String>,
    /// The dump column.
    pub dump: u8,
    /// The fsck pass column.
    pub pass: u8,
    /// A comment line written above the entry.
    pub comment: Option<String>,
}

impl FstabEntry {
    pub fn new(device: &str, mount_point: &str, fs_type: &str) -> (r: Self)
        ensures
            r.device@ == device@,
            r.mount_point@ == mount_point@,
            r.fs_type@ == fs_type@,
            r.options@.len() == 0,
            r.options_raw is None,
            r.dump == 0 && r.pass == 0,
            r.comment is None,
    {
        FstabEntry {
            device: owned(device),
            mount_point: owned(mount_point),
            fs_type: owned(fs_type),
            options: Vec::new(),
            options_raw: None,
            dump: 0,
            pass: 0,
            comment: None,
        }
    }

    // ── Device helpers ────────────────────────────────────────────────────

    /// Use `UUID=<uuid>` as the device.
    pub fn uuid(self, uuid: &str) -> (r: Self)
        ensures
            r.device@ == "UUID="@ + uuid@,
            r == (FstabEntry { device: r.device, ..self }),
    {
        FstabEntry { device: cat2("UUID=", uuid), ..self }
    }

    /// Use `LABEL=<label>` as the device.
    pub fn label(self, label: &str) -> (r: Self)
        ensures
            r.device@ == "LABEL="@ + label@,
            r == (FstabEntry { device: r.device, ..self }),
    {
        FstabEntry { device: cat2("LABEL=", label), ..self }
    }

    /// Use `PARTUUID=<uuid>` as the device.
    pub fn partuuid(self, uuid: &str) -> (r: Self)
        ensures
            r.device@ == "PARTUUID="@ + uuid@,
            r == (FstabEntry { device: r.device, ..self }),
    {
        FstabEntry { device: cat2("PARTUUID=", uuid), ..self }
    }

    // ── Option setters ────────────────────────────────────────────────────

    /// Append one typed option.
    pub fn option(self, opt: MountOpt) -> (r: Self)
        ensures
            r.options@ == self.options@.push(opt),
            r == (FstabEntry { options: r.options, ..self }),
    {
        let mut s = self;
        s.options.push(opt);
        s
    }

    /// Append typed options.
    pub fn options(self, opts: Vec<MountOpt>) -> (r: Self)
        ensures
            r.options@ == self.options@ + opts@,
            r == (FstabEntry { options: r.options, ..self }),
    {
        let mut s = self;
        let mut opts = opts;
        s.options.append(&mut opts);
        s
    }

    /// Set the options column verbatim (overrides typed options).
    pub fn options_str(self, raw: &str) -> (r: Self)
        ensures
            opt_view(r.options_raw) == Some(raw@),
            r == (FstabEntry { options_raw: r.options_raw, ..self }),
    {
        FstabEntry { options_raw: Some(owned(raw)), ..self }
    }

    // ── Other column setters ──────────────────────────────────────────────

    pub fn dump(self, v: u8) -> (r: Self)
        ensures
            r == (FstabEntry { dump: v, ..self }),
    {
        FstabEntry { dump: v, ..self }
    }

    pub fn pass(self, v: u8) -> (r: Self)
        ensures
            r == (FstabEntry { pass: v, ..self }),
    {
        FstabEntry { pass: v, ..self }
    }

    pub fn comment(self, text: &str) -> (r: Self)
        ensures
            opt_view(r.comment) == Some(text@),
            r == (FstabEntry { comment: r.comment, ..self }),
    {
        FstabEntry { comment: Some(owned(text)), ..self }
    }

    // ── Rendering ─────────────────────────────────────────────────────────

    /// The options column.
    pub open spec fn spec_opts_column(self) -> Seq<char> {
        match self.options_raw {
            Some(raw) => raw@,
            None => opts_text(opts_view(self.options@)),
        }
    }

    /// The entry line: device, mount point, type and options left-aligned in
    /// fields of 44, 24, 8 and 24 characters, then dump and pass.
    pub open spec fn spec_line(self) -> Seq<char> {
        pad_right(self.device@, 44) + " "@ + pad_right(self.mount_point@, 24) + " "@ + pad_right(
            self.fs_type@,
            8,
        ) + " "@ + pad_right(self.spec_opts_column(), 24) + " "@ + nat_str(self.dump as nat) + " "@
            + nat_str(self.pass as nat)
    }

    /// The rendered entry, with its comment line above it when there is one.
    pub open spec fn spec_render(self) -> Seq<char> {
        match self.comment {
            Some(c) => "# "@ + c@ + "\n"@ + self.spec_line(),
            None => self.spec_line(),
        }
    }

    pub fn render(&self) -> (r: String)
        ensures
            r@ == self.spec_render(),
    {
        let opts = match &self.options_raw {
            Some(raw) => raw.clone(),
            None => render_opts(self.options.as_slice()),
        };
        let mut line = pad_right_string(self.device.as_str(), 44);
        line.append(" ");
        let mp = pad_right_string(self.mount_point.as_str(), 24);
        line.append(mp.as_str());
        line.append(" ");
        let ft = pad_right_string(self.fs_type.as_str(), 8);
        line.append(ft.as_str());
        line.append(" ");
        let op = pad_right_string(opts.as_str(), 24);
        line.append(op.as_str());
        line.append(" ");
        let d = u64_str(self.dump as u64);
        line.append(d.as_str());
        line.append(" ");
        let p = u64_str(self.pass as u64);
        line.append(p.as_str());
        match &self.comment {
            Some(c) => {
                let mut r = String::from_str("# ");
                r.append(c.as_str());
                r.append("\n");
                r.append(line.as_str());
                r
            },
            None => line,
        }
    }

    /// The outcome of validating the entry.
    pub open spec fn spec_validate(self) -> Result<(), Seq<char>> {
        if self.device@.len() == 0 {
            Err("fstab: device field cannot be empty"@)
        } else if self.mount_point@.len() == 0 {
            Err("fstab: mount point cannot be empty"@)
        } else {
            Ok(())
        }
    }

    pub fn validate(&self) -> (r: Result<(), String>)
        ensures
            crate::text::result_view(r) == self.spec_validate(),
    {
        if self.device.as_str().unicode_len() == 0 {
            return Err(owned("fstab: device field cannot be empty"));
        }
        if self.mount_point.as_str().unicode_len() == 0 {
            return Err(owned("fstab: mount point cannot be empty"));
        }
        Ok(())
    }

    // ── Convenience constructors ──────────────────────────────────────────

    /// A swap entry: mount point `none`, type `swap`, options `sw`.
    pub fn swap(device: &str) -> (r: Self)
        ensures
            r.device@ == device@,
            r.mount_point@ == "none"@,
            r.fs_type@ == "swap"@,
            r.options@.len() == 0,
            opt_view(r.options_raw) == Some("sw"@),
            r.dump == 0 && r.pass == 0,
            r.comment is None,
    {
        Self::new(device, "none", "swap").options_str("sw")
    }

    /// A tmpfs entry mounted at `mount_point`.
    pub fn tmpfs(mount_point: &str) -> (r: Self)
        ensures
            r.device@ == "tmpfs"@,
            r.mount_point@ == mount_point@,
            r.fs_type@ == "tmpfs"@,
            r.options@.len() == 0,
            r.options_raw is None,
            r.dump == 0 && r.pass == 0,
            r.comment is None,
    {
        Self::new("tmpfs", mount_point, "tmpfs")
    }
}

/// The error messages of the entries that fail validation, in order.
pub open spec fn entry_errors(entries: Seq<FstabEntry>) -> Seq<Seq<char>>
    decreases entries.len(),
{
    if entries.len() == 0 {
        Seq::empty()
    } else {
        entry_errors(entries.drop_last()) + match entries.last().spec_validate() {
            Ok(()) => Seq::<Seq<char>>::empty(),
            Err(e) => seq![e],
        }
    }
}

/// The entries validate exactly when each has a device and a mount point;
/// otherwise validation reports at least one error.
pub proof fn entries_valid_iff_fields_present(entries: Seq<FstabEntry>)
    ensures
        entry_errors(entries).len() == 0 <==> (forall|i: int|
            0 <= i < entries.len() ==> (#[trigger] entries[i]).device@.len() > 0
                && entries[i].mount_point@.len() > 0),
    decreases entries.len(),
{
    if entries.len() > 0 {
        let prefix = entries.drop_last();
        let last = entries.len() - 1;
        entries_valid_iff_fields_present(prefix);
        assert forall|i: int| 0 <= i < prefix.len() implies prefix[i] == entries[i] by {}
        if entry_errors(entries).len() == 0 {
            assert(entry_errors(prefix).len() == 0);
            assert forall|i: int| 0 <= i < entries.len() implies (#[trigger] entries[i]).device@.len()
                > 0 && entries[i].mount_point@.len() > 0 by {
                if i < last {
                    assert(prefix[i].device@.len() > 0);
                }
            }
        } else if forall|i: int|
            0 <= i < entries.len() ==> (#[trigger] entries[i]).device@.len() > 0
                && entries[i].mount_point@.len() > 0 {
            assert(entries[last].device@.len() > 0);
            assert forall|i: int| 0 <= i < prefix.len() implies (#[trigger] prefix[i]).device@.len()
                > 0 && prefix[i].mount_point@.len() > 0 by {
                assert(entries[i].device@.len() > 0);
            }
            assert(false);
        }
    }
}

/// A complete `/etc/fstab` file.
pub struct Fstab {
    pub header: Option<String>,
    pub entries: Vec<FstabEntry>,
}

impl Default for Fstab {
    fn default() -> (r: Self)
        ensures
            r.header is None,
            r.entries@.len() == 0,
    {
        Self::new()
    }
}

impl Fstab {
    pub fn new() -> (r: Self)
        ensures
            r.header is None,
            r.entries@.len() == 0,
    {
        Fstab { header: None, entries: Vec::new() }
    }

    /// A header comment block written at the top of the file, verbatim.
    pub fn with_header(self, header: &str) -> (r: Self)
        ensures
            opt_view(r.header) == Some(header@),
            r.entries == self.entries,
    {
        Fstab { header: Some(owned(header)), ..self }
    }

    pub fn add(self, entry: FstabEntry) -> (r: Self)
        ensures
            r.entries@ == self.entries@.push(entry),
            r.header == self.header,
    {
        let mut s = self;
        s.entries.push(entry);
        s
    }

    pub fn push(&mut self, entry: FstabEntry) -> (r: &mut Self)
        ensures
            r.entries@ == old(self).entries@.push(entry),
            r.header == old(self).header,
            *final(self) == *final(r),
    {
        self.entries.push(entry);
        self
    }

    pub fn validate_all(&self) -> (r: Result<(), Vec<String>>)
        ensures
            match r {
                Ok(()) => entry_errors(self.entries@).len() == 0,
                Err(v) => entry_errors(self.entries@).len() > 0 && views(v@) == entry_errors(
                    self.entries@,
                ),
            },
    {
        let mut errors: Vec<String> = Vec::new();
        let mut i: usize = 0;
        while i < self.entries.len()
            invariant
                i <= self.entries@.len(),
                views(errors@) == entry_errors(self.entries@.take(i as int)),
            decreases self.entries@.len() - i,
        {
            assert(self.entries@.take(i + 1).drop_last() =~= self.entries@.take(i as int));
            match self.entries[i].validate() {
                Ok(()) => {},
                Err(e) => {
                    push_part(&mut errors, e);
                },
            }
            i = i + 1;
        }
        assert(self.entries@.take(self.entries@.len() as int) =~= self.entries@);
        if errors.len() == 0 {
            Ok(())
        } else {
            Err(errors)
        }
    }

    /// The lines of the file: the header, then one rendering per entry.
    pub open spec fn spec_parts(self) -> Seq<Seq<char>> {
        (match self.header {
            Some(h) => seq![h@],
            None => Seq::empty(),
        }) + Seq::new(self.entries@.len(), |i: int| self.entries@[i].spec_render())
    }

    pub fn generate(&self) -> (r: String)
        ensures
            r@ == join(self.spec_parts(), "\n"@),
    {
        let mut parts: Vec<String> = Vec::new();
        match &self.header {
            Some(h) => {
                push_part(&mut parts, h.clone());
            },
            None => {},
        }
        let ghost start = views(parts@);
        let mut i: usize = 0;
        while i < self.entries.len()
            invariant
                i <= self.entries@.len(),
                views(parts@) == start + Seq::new(i as nat, |k: int| self.entries@[k].spec_render()),
            decreases self.entries@.len() - i,
        {
            push_part(&mut parts, self.entries[i].render());
            assert(Seq::new((i + 1) as nat, |k: int| self.entries@[k].spec_render()) =~= Seq::new(
                i as nat,
                |k: int| self.entries@[k].spec_render(),
            ).push(self.entries@[i as int].spec_render()));
            i = i + 1;
        }
        assert(views(parts@) =~= self.spec_parts());
        join_strings(&parts, "\n")
    }
}

/// Every entry line starts with its device padded to the first column and
/// ends with its dump flag and then its fsck pass number, as the fifth and
/// sixth columns: ` <dump> <pass>`.
pub proof fn entry_ends_with_dump_then_pass(e: FstabEntry)
    ensures
        (pad_right(e.device@, 44) + " "@).is_prefix_of(e.spec_line()),
        (" "@ + nat_str(e.dump as nat) + " "@ + nat_str(e.pass as nat)).is_suffix_of(e.spec_line()),
        (" "@ + nat_str(e.dump as nat) + " "@ + nat_str(e.pass as nat)).is_suffix_of(e.spec_render()),
{
    let t = " "@ + nat_str(e.dump as nat) + " "@ + nat_str(e.pass as nat);
    let head = pad_right(e.device@, 44) + " "@ + pad_right(e.mount_point@, 24) + " "@ + pad_right(
        e.fs_type@,
        8,
    ) + " "@ + pad_right(e.spec_opts_column(), 24);
    assert(e.spec_line() =~= head + t);
    let d = pad_right(e.device@, 44) + " "@;
    assert(e.spec_line().subrange(0, d.len() as int) =~= d);
    assert((head + t).subrange(head.len() as int, (head + t).len() as int) =~= t);
    match e.comment {
        Some(c) => {
            let pre = "# "@ + c@ + "\n"@;
            assert(e.spec_render() =~= pre + head + t);
            assert((pre + head + t).subrange((pre + head).len() as int, (pre + head + t).len() as int) =~= t);
        },
        None => {},
    }
}

} // verus!
