//! /etc/fstab entries and mount options.
pub mod options;
pub mod entry;

pub use entry::{Fstab, FstabEntry};
pub use options::{
    render_opts, BtrfsOptions, CommonOptions, ExtOptions, MountOpt, NfsOptions, TmpfsOptions,
};
