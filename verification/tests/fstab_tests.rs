use toconfig::fstab::options::{BtrfsOptions, CommonOptions, ExtOptions, MountOpt, NfsOptions, TmpfsOptions, render_opts};
use toconfig::fstab::{Fstab, FstabEntry};

#[test]
fn mount_opt_doc_example() {
    assert_eq!(MountOpt::flag("noatime").to_string(), "noatime");
    assert_eq!(MountOpt::kv("uid", "1000").to_string(), "uid=1000");
}

#[test]
fn render_opts_empty_is_defaults() {
    assert_eq!(render_opts(&[]), "defaults");
}

#[test]
fn common_options_doc_example() {
    let opts = CommonOptions::new().ro().noexec().nosuid().build();
    assert_eq!(render_opts(&opts), "ro,noexec,nosuid");
}

#[test]
fn ext_btrfs_tmpfs_nfs_doc_examples() {
    let opts = ExtOptions::new().journal_commit(5).data("ordered").build();
    assert!(render_opts(&opts).contains("journal_commit=5"));
    let opts = BtrfsOptions::new().compress("zstd:3").subvol("@home").build();
    assert!(render_opts(&opts).contains("compress=zstd:3"));
    assert!(render_opts(&opts).contains("subvol=@home"));
    let opts = TmpfsOptions::new().size("4G").mode("1777").build();
    assert!(render_opts(&opts).contains("size=4G"));
    assert!(render_opts(&opts).contains("mode=1777"));
    let opts = NfsOptions::new().vers("4").soft().timeo(30).retrans(3).build();
    assert!(render_opts(&opts).contains("vers=4"));
    assert!(render_opts(&opts).contains("soft"));
    assert_eq!(render_opts(&opts), "vers=4,soft,timeo=30,retrans=3");
}

#[test]
fn entry_doc_examples() {
    let entry = FstabEntry::new("/dev/sda1", "/", "ext4").options_str("defaults,noatime").pass(1);
    assert!(entry.render().contains("/dev/sda1"));
    assert!(entry.render().contains("noatime"));
    let e = FstabEntry::swap("/dev/sdb1");
    assert!(e.render().contains("swap"));
    let e = FstabEntry::tmpfs("/tmp")
        .options(TmpfsOptions::new().size("4G").mode("1777").build())
        .options(CommonOptions::new().noexec().nosuid().nodev().build());
    assert!(e.render().contains("tmpfs"));
}

#[test]
fn entry_validation_errors() {
    assert_eq!(
        FstabEntry::new("", "/", "ext4").validate(),
        Err("fstab: device field cannot be empty".to_string())
    );
    assert_eq!(
        FstabEntry::new("/dev/sda1", "", "ext4").validate(),
        Err("fstab: mount point cannot be empty".to_string())
    );
    assert_eq!(FstabEntry::new("/dev/sda1", "/", "ext4").validate(), Ok(()));
}

#[test]
fn fstab_doc_example() {
    let fstab = Fstab::new()
        .with_header("# /etc/fstab")
        .add(FstabEntry::new("/dev/sda1", "/", "ext4").options_str("defaults,noatime").pass(1))
        .add(FstabEntry::swap("/dev/sda2"));
    let out = fstab.generate();
    assert!(out.contains("/dev/sda1"));
    assert!(out.contains("swap"));
    assert_eq!(fstab.validate_all(), Ok(()));
}

#[test]
fn fstab_collects_errors() {
    let fstab = Fstab::new()
        .add(FstabEntry::new("", "/", "ext4"))
        .add(FstabEntry::new("/dev/sda1", "/", "ext4"))
        .add(FstabEntry::new("/dev/sdb1", "", "ext4"));
    assert_eq!(
        fstab.validate_all(),
        Err(vec![
            "fstab: device field cannot be empty".to_string(),
            "fstab: mount point cannot be empty".to_string()
        ])
    );
}
