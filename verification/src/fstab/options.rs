//! Mount options and typed option builders.
use vstd::prelude::*;
use crate::text::{cat3, join, join_strings, nat_str, owned, push_part, u64_str, views};

verus! {

/// A single mount option value — either a bare flag or a key=value pair.
#[derive(Debug, Clone)]
pub enum MountOpt {
    /// A bare option flag, e.g. `defaults`, `noatime`, `ro`.
    Flag(String),
    /// A key=value option, e.g. `uid=1000`, `size=4G`, `mode=755`.
    KeyValue(String, String),
}

/// The contents of a mount option: the name, and the value of a key=value option.
pub open spec fn opt_view(o: MountOpt) -> (Seq<char>, Option<Seq<char>>) {
    match o {
        MountOpt::Flag(s) => (s@, None),
        MountOpt::KeyValue(k, v) => (k@, Some(v@)),
    }
}

/// The contents of a list of mount options.
pub open spec fn opts_view(opts: Seq<MountOpt>) -> Seq<(Seq<char>, Option<Seq<char>>)> {
    Seq::new(opts.len(), |i: int| opt_view(opts[i]))
}

/// The text of an option: `name` or `key=value`.
pub open spec fn opt_text(o: (Seq<char>, Option<Seq<char>>)) -> Seq<char> {
    match o.1 {
        None => o.0,
        Some(v) => o.0 + "="@ + v,
    }
}

/// The fstab options column for a list of options: comma-separated, or
/// `defaults` for an empty list.
pub open spec fn opts_text(opts: Seq<(Seq<char>, Option<Seq<char>>)>) -> Seq<char> {
    if opts.len() == 0 {
        "defaults"@
    } else {
        join(Seq::new(opts.len(), |i: int| opt_text(opts[i])), ","@)
    }
}

/// An empty option list is written as `defaults`.
pub proof fn no_options_means_defaults()
    ensures
        opts_text(Seq::empty()) == "defaults"@,
{
}

impl MountOpt {
    /// Create a bare flag option.
    pub fn flag(name: &str) -> (r: Self)
        ensures
            opt_view(r) == (name@, None::<Seq<char>>),
    {
        MountOpt::Flag(owned(name))
    }

    /// Create a key=value option.
    pub fn kv(key: &str, value: &str) -> (r: Self)
        ensures
            opt_view(r) == (key@, Some(value@)),
    {
        MountOpt::KeyValue(owned(key), owned(value))
    }

    /// The option as it appears in the options column.
    pub fn to_string(&self) -> (r: String)
        ensures
            r@ == opt_text(opt_view(*self)),
    {
        match self {
            MountOpt::Flag(s) => s.clone(),
            MountOpt::KeyValue(k, v) => cat3(k.as_str(), "=", v.as_str()),
        }
    }
}

/// Render a list of [`MountOpt`] as a comma-separated string.
///
/// Returns `"defaults"` when the list is empty (safe fstab default).
pub fn render_opts(opts: &[MountOpt]) -> (r: String)
    ensures
        r@ == opts_text(opts_view(opts@)),
{
    if opts.len() == 0 {
        owned("defaults")
    } else {
        let mut parts: Vec<String> = Vec::new();
        let mut i: usize = 0;
        while i < opts.len()
            invariant
                i <= opts@.len(),
                views(parts@) == Seq::new(i as nat, |k: int| opt_text(opt_view(opts@[k]))),
            decreases opts@.len() - i,
        {
            push_part(&mut parts, opts[i].to_string());
            assert(Seq::new((i + 1) as nat, |k: int| opt_text(opt_view(opts@[k]))) =~= Seq::new(
                i as nat,
                |k: int| opt_text(opt_view(opts@[k])),
            ).push(opt_text(opt_view(opts@[i as int]))));
            i = i + 1;
        }
        assert(views(parts@) =~= Seq::new(
            opts_view(opts@).len(),
            |k: int| opt_text(opts_view(opts@)[k]),
        ));
        join_strings(&parts, ",")
    }
}

/// Common POSIX / VFS mount options applicable to most filesystems.
///
/// Methods return a [`Vec<MountOpt>`] so they can be merged with
/// filesystem-specific option builders.
pub struct CommonOptions {
    opts: Vec<MountOpt>,
}

impl View for CommonOptions {
    type V = Seq<(Seq<char>, Option<Seq<char>>)>;

    closed spec fn view(&self) -> Self::V {
        opts_view(self.opts@)
    }
}

impl Default for CommonOptions {
    fn default() -> (r: Self)
        ensures
            r@.len() == 0,
    {
        CommonOptions { opts: Vec::new() }
    }
}

impl CommonOptions {
    pub fn new() -> (r: Self)
        ensures
            r@.len() == 0,
    {
        Self::default()
    }

    fn push(self, o: MountOpt) -> (r: Self)
        ensures
            r@ == self@.push(opt_view(o)),
    {
        let mut s = self;
        s.opts.push(o);
        assert(opts_view(s.opts@) =~= opts_view(self.opts@).push(opt_view(o)));
        s
    }

    /// Include `defaults` (rw, suid, dev, exec, auto, nouser, async).
    pub fn defaults(self) -> (r: Self)
        ensures
            r@ == self@.push(("defaults"@, None)),
    {
        self.push(MountOpt::flag("defaults"))
    }

    /// Mount read-only (`ro`).
    pub fn ro(self) -> (r: Self)
        ensures
            r@ == self@.push(("ro"@, None)),
    {
        self.push(MountOpt::flag("ro"))
    }

    /// Mount read-write (`rw`). This is the default; add explicitly for clarity.
    pub fn rw(self) -> (r: Self)
        ensures
            r@ == self@.push(("rw"@, None)),
    {
        self.push(MountOpt::flag("rw"))
    }

    /// Do not update access times (`noatime`).
    pub fn noatime(self) -> (r: Self)
        ensures
            r@ == self@.push(("noatime"@, None)),
    {
        self.push(MountOpt::flag("noatime"))
    }

    /// Update directory access times (`relatime` — kernel default since 2.6.30).
    pub fn relatime(self) -> (r: Self)
        ensures
            r@ == self@.push(("relatime"@, None)),
    {
        self.push(MountOpt::flag("relatime"))
    }

    /// Do not allow program execution (`noexec`).
    pub fn noexec(self) -> (r: Self)
        ensures
            r@ == self@.push(("noexec"@, None)),
    {
        self.push(MountOpt::flag("noexec"))
    }

    /// Ignore set-user-ID / set-group-ID bits (`nosuid`).
    pub fn nosuid(self) -> (r: Self)
        ensures
            r@ == self@.push(("nosuid"@, None)),
    {
        self.push(MountOpt::flag("nosuid"))
    }

    /// Do not interpret character/block special devices (`nodev`).
    pub fn nodev(self) -> (r: Self)
        ensures
            r@ == self@.push(("nodev"@, None)),
    {
        self.push(MountOpt::flag("nodev"))
    }

    /// Mount asynchronously (`async` — usually the default).
    pub fn async_(self) -> (r: Self)
        ensures
            r@ == self@.push(("async"@, None)),
    {
        self.push(MountOpt::flag("async"))
    }

    /// Mount synchronously (`sync` — slower but safer for removable media).
    pub fn sync(self) -> (r: Self)
        ensures
            r@ == self@.push(("sync"@, None)),
    {
        self.push(MountOpt::flag("sync"))
    }

    /// Allow non-root users to mount (`user`).
    pub fn user(self) -> (r: Self)
        ensures
            r@ == self@.push(("user"@, None)),
    {
        self.push(MountOpt::flag("user"))
    }

    /// Allow any user to mount/unmount (`users`).
    pub fn users(self) -> (r: Self)
        ensures
            r@ == self@.push(("users"@, None)),
    {
        self.push(MountOpt::flag("users"))
    }

    /// Do not mount at boot (`noauto`).
    pub fn noauto(self) -> (r: Self)
        ensures
            r@ == self@.push(("noauto"@, None)),
    {
        self.push(MountOpt::flag("noauto"))
    }

    /// Mount at boot (`auto` — default).
    pub fn auto(self) -> (r: Self)
        ensures
            r@ == self@.push(("auto"@, None)),
    {
        self.push(MountOpt::flag("auto"))
    }

    /// Set the owner uid for the mount (`uid=<n>`).
    pub fn uid(self, uid: u32) -> (r: Self)
        ensures
            r@ == self@.push(("uid"@, Some(nat_str(uid as nat)))),
    {
        let t = u64_str(uid as u64);
        self.push(MountOpt::kv("uid", t.as_str()))
    }

    /// Set the owner gid for the mount (`gid=<n>`).
    pub fn gid(self, gid: u32) -> (r: Self)
        ensures
            r@ == self@.push(("gid"@, Some(nat_str(gid as nat)))),
    {
        let t = u64_str(gid as u64);
        self.push(MountOpt::kv("gid", t.as_str()))
    }

    /// Set the file creation mask (`umask=<octal>`).
    pub fn umask(self, mask: &str) -> (r: Self)
        ensures
            r@ == self@.push(("umask"@, Some(mask@))),
    {
        self.push(MountOpt::kv("umask", mask))
    }

    /// Add an arbitrary raw option.
    pub fn raw(self, opt: &str) -> (r: Self)
        ensures
            r@ == self@.push((opt@, None)),
    {
        self.push(MountOpt::flag(opt))
    }

    pub fn build(self) -> (r: Vec<MountOpt>)
        ensures
            opts_view(r@) == self@,
    {
        self.opts
    }
}

/// ext2 / ext3 / ext4 specific mount options.
pub struct ExtOptions {
    opts: Vec<MountOpt>,
}

impl View for ExtOptions {
    type V = Seq<(Seq<char>, Option<Seq<char>>)>;

    closed spec fn view(&self) -> Self::V {
        opts_view(self.opts@)
    }
}

impl Default for ExtOptions {
    fn default() -> (r: Self)
        ensures
            r@.len() == 0,
    {
        ExtOptions { opts: Vec::new() }
    }
}

impl ExtOptions {
    pub fn new() -> (r: Self)
        ensures
            r@.len() == 0,
    {
        Self::default()
    }

    fn push(self, o: MountOpt) -> (r: Self)
        ensures
            r@ == self@.push(opt_view(o)),
    {
        let mut s = self;
        s.opts.push(o);
        assert(opts_view(s.opts@) =~= opts_view(self.opts@).push(opt_view(o)));
        s
    }

    /// `acl` — enable POSIX access-control lists.
    pub fn acl(self) -> (r: Self)
        ensures
            r@ == self@.push(("acl"@, None)),
    {
        self.push(MountOpt::flag("acl"))
    }

    /// `user_xattr` — enable user extended attributes.
    pub fn user_xattr(self) -> (r: Self)
        ensures
            r@ == self@.push(("user_xattr"@, None)),
    {
        self.push(MountOpt::flag("user_xattr"))
    }

    /// `barrier=<0|1>` — enable/disable write barriers.
    pub fn barrier(self, v: u8) -> (r: Self)
        ensures
            r@ == self@.push(("barrier"@, Some(nat_str(v as nat)))),
    {
        let t = u64_str(v as u64);
        self.push(MountOpt::kv("barrier", t.as_str()))
    }

    /// `data=<journal|ordered|writeback>` — journaling mode.
    pub fn data(self, mode: &str) -> (r: Self)
        ensures
            r@ == self@.push(("data"@, Some(mode@))),
    {
        self.push(MountOpt::kv("data", mode))
    }

    /// `journal_commit=<seconds>` — journal commit interval.
    pub fn journal_commit(self, secs: u32) -> (r: Self)
        ensures
            r@ == self@.push(("journal_commit"@, Some(nat_str(secs as nat)))),
    {
        let t = u64_str(secs as u64);
        self.push(MountOpt::kv("journal_commit", t.as_str()))
    }

    /// `errors=<continue|remount-ro|panic>` — error handling policy.
    pub fn errors(self, policy: &str) -> (r: Self)
        ensures
            r@ == self@.push(("errors"@, Some(policy@))),
    {
        self.push(MountOpt::kv("errors", policy))
    }

    /// `noquota` — disable disk quotas.
    pub fn noquota(self) -> (r: Self)
        ensures
            r@ == self@.push(("noquota"@, None)),
    {
        self.push(MountOpt::flag("noquota"))
    }

    pub fn build(self) -> (r: Vec<MountOpt>)
        ensures
            opts_view(r@) == self@,
    {
        self.opts
    }
}

/// Btrfs-specific mount options.
pub struct BtrfsOptions {
    opts: Vec<MountOpt>,
}

impl View for BtrfsOptions {
    type V = Seq<(Seq<char>, Option<Seq<char>>)>;

    closed spec fn view(&self) -> Self::V {
        opts_view(self.opts@)
    }
}

impl Default for BtrfsOptions {
    fn default() -> (r: Self)
        ensures
            r@.len() == 0,
    {
        BtrfsOptions { opts: Vec::new() }
    }
}

impl BtrfsOptions {
    pub fn new() -> (r: Self)
        ensures
            r@.len() == 0,
    {
        Self::default()
    }

    fn push(self, o: MountOpt) -> (r: Self)
        ensures
            r@ == self@.push(opt_view(o)),
    {
        let mut s = self;
        s.opts.push(o);
        assert(opts_view(s.opts@) =~= opts_view(self.opts@).push(opt_view(o)));
        s
    }

    /// `subvol=<path>` — mount the given subvolume path.
    pub fn subvol(self, path: &str) -> (r: Self)
        ensures
            r@ == self@.push(("subvol"@, Some(path@))),
    {
        self.push(MountOpt::kv("subvol", path))
    }

    /// `subvolid=<id>` — mount the subvolume with the given numerical ID.
    pub fn subvolid(self, id: u64) -> (r: Self)
        ensures
            r@ == self@.push(("subvolid"@, Some(nat_str(id as nat)))),
    {
        let t = u64_str(id as u64);
        self.push(MountOpt::kv("subvolid", t.as_str()))
    }

    /// `compress=<algo>` — transparent compression algorithm.
    ///
    /// Common values: `"lzo"`, `"zlib"`, `"zstd"`, `"zstd:3"`, `"no"`.
    pub fn compress(self, algo: &str) -> (r: Self)
        ensures
            r@ == self@.push(("compress"@, Some(algo@))),
    {
        self.push(MountOpt::kv("compress", algo))
    }

    /// `compress-force=<algo>` — force compression even for incompressible data.
    pub fn compress_force(self, algo: &str) -> (r: Self)
        ensures
            r@ == self@.push(("compress-force"@, Some(algo@))),
    {
        self.push(MountOpt::kv("compress-force", algo))
    }

    /// `ssd` — enable SSD-specific optimisations.
    pub fn ssd(self) -> (r: Self)
        ensures
            r@ == self@.push(("ssd"@, None)),
    {
        self.push(MountOpt::flag("ssd"))
    }

    /// `nossd` — disable SSD optimisations (for spinning disks).
    pub fn nossd(self) -> (r: Self)
        ensures
            r@ == self@.push(("nossd"@, None)),
    {
        self.push(MountOpt::flag("nossd"))
    }

    /// `discard=async` — enable asynchronous TRIM (recommended for SSDs).
    pub fn discard_async(self) -> (r: Self)
        ensures
            r@ == self@.push(("discard"@, Some("async"@))),
    {
        self.push(MountOpt::kv("discard", "async"))
    }

    /// `nodatacow` — disable copy-on-write for new files.
    pub fn nodatacow(self) -> (r: Self)
        ensures
            r@ == self@.push(("nodatacow"@, None)),
    {
        self.push(MountOpt::flag("nodatacow"))
    }

    /// `space_cache=<v1|v2>` — free-space cache version.
    pub fn space_cache(self, version: &str) -> (r: Self)
        ensures
            r@ == self@.push(("space_cache"@, Some(version@))),
    {
        self.push(MountOpt::kv("space_cache", version))
    }

    /// `autodefrag` — enable automatic defragmentation.
    pub fn autodefrag(self) -> (r: Self)
        ensures
            r@ == self@.push(("autodefrag"@, None)),
    {
        self.push(MountOpt::flag("autodefrag"))
    }

    /// `degraded` — allow mounting a RAID array with missing devices.
    pub fn degraded(self) -> (r: Self)
        ensures
            r@ == self@.push(("degraded"@, None)),
    {
        self.push(MountOpt::flag("degraded"))
    }

    /// `noacl` — disable POSIX ACLs.
    pub fn noacl(self) -> (r: Self)
        ensures
            r@ == self@.push(("noacl"@, None)),
    {
        self.push(MountOpt::flag("noacl"))
    }

    pub fn build(self) -> (r: Vec<MountOpt>)
        ensures
            opts_view(r@) == self@,
    {
        self.opts
    }
}

/// tmpfs-specific mount options.
pub struct TmpfsOptions {
    opts: Vec<MountOpt>,
}

impl View for TmpfsOptions {
    type V = Seq<(Seq<char>, Option<Seq<char>>)>;

    closed spec fn view(&self) -> Self::V {
        opts_view(self.opts@)
    }
}

impl Default for TmpfsOptions {
    fn default() -> (r: Self)
        ensures
            r@.len() == 0,
    {
        TmpfsOptions { opts: Vec::new() }
    }
}

impl TmpfsOptions {
    pub fn new() -> (r: Self)
        ensures
            r@.len() == 0,
    {
        Self::default()
    }

    fn push(self, o: MountOpt) -> (r: Self)
        ensures
            r@ == self@.push(opt_view(o)),
    {
        let mut s = self;
        s.opts.push(o);
        assert(opts_view(s.opts@) =~= opts_view(self.opts@).push(opt_view(o)));
        s
    }

    /// `size=<bytes|percent>` — maximum size (e.g. `"512M"`, `"4G"`, `"50%"`).
    pub fn size(self, s: &str) -> (r: Self)
        ensures
            r@ == self@.push(("size"@, Some(s@))),
    {
        self.push(MountOpt::kv("size", s))
    }

    /// `nr_blocks=<n>` — maximum number of blocks (alternative to `size`).
    pub fn nr_blocks(self, n: u64) -> (r: Self)
        ensures
            r@ == self@.push(("nr_blocks"@, Some(nat_str(n as nat)))),
    {
        let t = u64_str(n as u64);
        self.push(MountOpt::kv("nr_blocks", t.as_str()))
    }

    /// `nr_inodes=<n>` — maximum number of inodes.
    pub fn nr_inodes(self, n: u64) -> (r: Self)
        ensures
            r@ == self@.push(("nr_inodes"@, Some(nat_str(n as nat)))),
    {
        let t = u64_str(n as u64);
        self.push(MountOpt::kv("nr_inodes", t.as_str()))
    }

    /// `mode=<octal>` — permission bits for the root tmpfs directory.
    pub fn mode(self, mode: &str) -> (r: Self)
        ensures
            r@ == self@.push(("mode"@, Some(mode@))),
    {
        self.push(MountOpt::kv("mode", mode))
    }

    /// `uid=<n>` — owner uid for the root directory.
    pub fn uid(self, uid: u32) -> (r: Self)
        ensures
            r@ == self@.push(("uid"@, Some(nat_str(uid as nat)))),
    {
        let t = u64_str(uid as u64);
        self.push(MountOpt::kv("uid", t.as_str()))
    }

    /// `gid=<n>` — owning group for the root directory.
    pub fn gid(self, gid: u32) -> (r: Self)
        ensures
            r@ == self@.push(("gid"@, Some(nat_str(gid as nat)))),
    {
        let t = u64_str(gid as u64);
        self.push(MountOpt::kv("gid", t.as_str()))
    }

    pub fn build(self) -> (r: Vec<MountOpt>)
        ensures
            opts_view(r@) == self@,
    {
        self.opts
    }
}

/// NFS-specific mount options.
pub struct NfsOptions {
    opts: Vec<MountOpt>,
}

impl View for NfsOptions {
    type V = Seq<(Seq<char>, Option<Seq<char>>)>;

    closed spec fn view(&self) -> Self::V {
        opts_view(self.opts@)
    }
}

impl Default for NfsOptions {
    fn default() -> (r: Self)
        ensures
            r@.len() == 0,
    {
        NfsOptions { opts: Vec::new() }
    }
}

impl NfsOptions {
    pub fn new() -> (r: Self)
        ensures
            r@.len() == 0,
    {
        Self::default()
    }

    fn push(self, o: MountOpt) -> (r: Self)
        ensures
            r@ == self@.push(opt_view(o)),
    {
        let mut s = self;
        s.opts.push(o);
        assert(opts_view(s.opts@) =~= opts_view(self.opts@).push(opt_view(o)));
        s
    }

    /// `vers=<2|3|4|4.1|4.2>` — NFS protocol version.
    pub fn vers(self, v: &str) -> (r: Self)
        ensures
            r@ == self@.push(("vers"@, Some(v@))),
    {
        self.push(MountOpt::kv("vers", v))
    }

    /// `soft` — return an error if the serveris unavailable (vs. `hard`).
    pub fn soft(self) -> (r: Self)
        ensures
            r@ == self@.push(("soft"@, None)),
    {
        self.push(MountOpt::flag("soft"))
    }

    /// `hard` — retry indefinitely (default, more reliable).
    pub fn hard(self) -> (r: Self)
        ensures
            r@ == self@.push(("hard"@, None)),
    {
        self.push(MountOpt::flag("hard"))
    }

    /// `timeo=<n>` — timeout in tenths of a second before retrying.
    pub fn timeo(self, n: u32) -> (r: Self)
        ensures
            r@ == self@.push(("timeo"@, Some(nat_str(n as nat)))),
    {
        let t = u64_str(n as u64);
        self.push(MountOpt::kv("timeo", t.as_str()))
    }

    /// `retrans=<n>` — number of retries before giving up.
    pub fn retrans(self, n: u32) -> (r: Self)
        ensures
            r@ == self@.push(("retrans"@, Some(nat_str(n as nat)))),
    {
        let t = u64_str(n as u64);
        self.push(MountOpt::kv("retrans", t.as_str()))
    }

    /// `rsize=<n>` — read block size in bytes.
    pub fn rsize(self, n: u32) -> (r: Self)
        ensures
            r@ == self@.push(("rsize"@, Some(nat_str(n as nat)))),
    {
        let t = u64_str(n as u64);
        self.push(MountOpt::kv("rsize", t.as_str()))
    }

    /// `wsize=<n>` — write block size in bytes.
    pub fn wsize(self, n: u32) -> (r: Self)
        ensures
            r@ == self@.push(("wsize"@, Some(nat_str(n as nat)))),
    {
        let t = u64_str(n as u64);
        self.push(MountOpt::kv("wsize", t.as_str()))
    }

    /// `proto=<tcp|udp|rdma>` — transport protocol.
    pub fn proto(self, p: &str) -> (r: Self)
        ensures
            r@ == self@.push(("proto"@, Some(p@))),
    {
        self.push(MountOpt::kv("proto", p))
    }

    /// `_netdev` — hint that this is a network device (start after network is up).
    pub fn netdev(self) -> (r: Self)
        ensures
            r@ == self@.push(("_netdev"@, None)),
    {
        self.push(MountOpt::flag("_netdev"))
    }

    pub fn build(self) -> (r: Vec<MountOpt>)
        ensures
            opts_view(r@) == self@,
    {
        self.opts
    }
}

} // verus!
