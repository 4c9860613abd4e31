use oxiclean::detect::{
    aur_helper_table, aur_helpers, classify_ids, disk_type_from_rotational, distro_from_str,
    extract_block_name, find_mount_device_in, find_privilege, path_is_readonly_in,
    pretty_name_in, root_disk_block, AurHelper, DiskType, Distro, Privilege,
};

fn helper(bin: &str) -> AurHelper {
    aur_helper_table().into_iter().find(|h| h.bin == bin).unwrap()
}

// ── AUR helper table ──

#[test]
fn test_trizen_clean_is_aur_scoped() {
    let trizen = helper("trizen");
    assert!(trizen.clean.unwrap().contains(&"-Sca"));
    assert!(trizen.deep_clean.unwrap().contains(&"-Scca"));
}

#[test]
fn test_aura_never_uses_a_clean_command() {
    let aura = helper("aura");
    assert!(aura.clean.is_none());
    assert!(aura.deep_clean.is_none());
    assert!(!aura.prune_dirs.is_empty());
}

#[test]
fn test_pruned_dirs_never_include_user_state() {
    for h in aur_helper_table() {
        for dir in h.prune_dirs.iter().chain(h.prune_dirs_deep.iter()) {
            assert_ne!(*dir, "snapshots", "{} would delete restore points", h.bin);
            assert_ne!(*dir, "hashes", "{} would delete build bookkeeping", h.bin);
            assert!(
                !dir.is_empty() && !dir.contains('/') && !dir.contains(".."),
                "{} has a prune dir that is not a plain child name: {:?}",
                h.bin,
                dir
            );
        }
    }
}

#[test]
fn test_hand_pruned_helpers_never_share_a_dir_between_modes() {
    for h in aur_helper_table() {
        for d in h.prune_dirs_deep {
            assert!(!h.prune_dirs.contains(d), "{} lists {:?} in both prune lists", h.bin, d);
        }
    }
}

#[test]
fn test_every_helper_is_cleanable_exactly_one_way() {
    for h in aur_helper_table() {
        let by_command = h.clean.is_some();
        let by_prune = !h.prune_dirs.is_empty();
        assert!(by_command != by_prune, "{} must be cleaned by exactly one mechanism", h.bin);
        if h.clean.is_none() {
            assert!(h.deep_clean.is_none(), "{} has orphaned deep flags", h.bin);
        }
    }
}

#[test]
fn test_command_helpers_are_noninteractive_and_distinct() {
    for h in aur_helper_table() {
        let (Some(clean), Some(deep)) = (h.clean, h.deep_clean) else {
            continue;
        };
        assert!(clean.contains(&"--noconfirm"), "{} safe clean would block on stdin", h.bin);
        assert!(deep.contains(&"--noconfirm"), "{} deep clean would block on stdin", h.bin);
        assert_ne!(clean, deep, "{} would apply deep behaviour on a plain run", h.bin);
    }
}

#[test]
fn test_aur_helpers_returns_only_installed_in_table_order() {
    let present = vec!["yay".to_string(), "aura".to_string(), "paru".to_string(), "ls".to_string()];
    let found = aur_helpers(&present);
    let table: Vec<&str> = aur_helper_table().iter().map(|h| h.bin).collect();
    let mut idx = 0usize;
    for h in &found {
        let pos = table[idx..]
            .iter()
            .position(|b| *b == h.bin)
            .unwrap_or_else(|| panic!("{} is out of table order or unknown", h.bin));
        idx += pos + 1;
    }
    let bins: Vec<&str> = found.iter().map(|h| h.bin).collect();
    assert_eq!(bins.len(), 3);
    assert!(!bins.contains(&"ls"));
}

#[test]
fn aur_helpers_with_nothing_installed_is_empty() {
    assert!(aur_helpers(&Vec::new()).is_empty());
}

// ── distribution detection ──

#[test]
fn test_detect_arch_direct() {
    let content = "ID=arch\nPRETTY_NAME=\"Arch Linux\"\n";
    assert_eq!(distro_from_str(content), Distro::Arch);
}

#[test]
fn test_detect_cachyos_via_id() {
    let content = "ID=cachyos\nID_LIKE=arch\n";
    assert_eq!(distro_from_str(content), Distro::Arch);
}

#[test]
fn test_detect_derivative_via_id_like() {
    let content = "ID=linuxmint\nID_LIKE=ubuntu debian\n";
    assert_eq!(distro_from_str(content), Distro::Debian);
}

#[test]
fn test_detect_opensuse_variants() {
    let content = "ID=opensuse-tumbleweed\n";
    assert_eq!(distro_from_str(content), Distro::Suse);
}

#[test]
fn test_detect_unknown_no_panic() {
    let content = "ID=somethingweird\nID_LIKE=alsounknown\n";
    assert_eq!(distro_from_str(content), Distro::Unknown);
}

#[test]
fn test_detect_empty_os_release() {
    assert_eq!(distro_from_str(""), Distro::Unknown);
}

#[test]
fn detect_is_case_insensitive_and_quote_tolerant() {
    assert_eq!(distro_from_str("ID=\"Fedora\"\n"), Distro::Fedora);
    assert_eq!(distro_from_str("ID=nixos\n"), Distro::Nix);
    assert_eq!(distro_from_str("ID=gentoo\n"), Distro::Gentoo);
}

#[test]
fn distro_names_and_package_managers() {
    assert_eq!(Distro::Arch.name(), "Arch Linux");
    assert_eq!(Distro::Arch.pkg_manager(), "pacman");
    assert_eq!(Distro::Unknown.name(), "Unknown");
    assert_eq!(Distro::Unknown.pkg_manager(), "N/A");
}

#[test]
fn pretty_name_falls_back_to_unknown_linux() {
    assert_eq!(pretty_name_in("PRETTY_NAME=\"Arch Linux\"\n"), "Arch Linux");
    assert_eq!(pretty_name_in("ID=arch\n"), "Unknown Linux");
}

// ── Privilege ──

#[test]
fn test_privilege_name() {
    assert_eq!(Privilege::Sudo.name(), "sudo");
    assert_eq!(Privilege::Doas.name(), "doas");
    assert_eq!(Privilege::Root.name(), "");
    assert_eq!(Privilege::Unavailable.name(), "");
}

#[test]
fn test_privilege_equality() {
    let p = Privilege::Doas;
    assert_eq!(p, Privilege::Doas);
    assert_ne!(p, Privilege::Sudo);
    assert_ne!(p, Privilege::Root);
    assert_ne!(p, Privilege::Unavailable);
}

#[test]
fn test_find_privilege_doesnt_panic() {
    let _ = find_privilege(false, false, false);
}

#[test]
fn find_privilege_prefers_root_then_doas_then_sudo() {
    assert_eq!(find_privilege(true, true, true), Privilege::Root);
    assert_eq!(find_privilege(false, true, true), Privilege::Doas);
    assert_eq!(find_privilege(false, false, true), Privilege::Sudo);
    assert_eq!(find_privilege(false, false, false), Privilege::Unavailable);
}

// ── disks and mounts ──

#[test]
fn test_disk_type_from_rotational_0() {
    assert_eq!(disk_type_from_rotational("0", "sda"), DiskType::SSD);
}

#[test]
fn test_disk_type_from_rotational_1() {
    assert_eq!(disk_type_from_rotational("1", "sda"), DiskType::HDD);
}

#[test]
fn test_disk_type_rotational_with_trailing_newline() {
    assert_eq!(disk_type_from_rotational("0\n", "sda"), DiskType::SSD);
    assert_eq!(disk_type_from_rotational("1\n", "sda"), DiskType::HDD);
}

#[test]
fn test_disk_type_nvme_by_name() {
    assert_eq!(disk_type_from_rotational("0", "nvme0n1"), DiskType::NVMe);
    assert_eq!(disk_type_from_rotational("1", "nvme0n1"), DiskType::NVMe);
}

#[test]
fn test_disk_type_unknown_on_garbage() {
    assert_eq!(disk_type_from_rotational("garbage", "sda"), DiskType::Unknown);
    assert_eq!(disk_type_from_rotational("", "sda"), DiskType::Unknown);
}

#[test]
fn test_extract_block_name_sata() {
    assert_eq!(extract_block_name("/dev/sda3"), "sda");
    assert_eq!(extract_block_name("/dev/sdb"), "sdb");
    assert_eq!(extract_block_name("/dev/sda12"), "sda");
}

#[test]
fn test_extract_block_name_nvme() {
    assert_eq!(extract_block_name("/dev/nvme0n1p2"), "nvme0n1");
    assert_eq!(extract_block_name("/dev/nvme0n1"), "nvme0n1");
    assert_eq!(extract_block_name("/dev/nvme1n1p15"), "nvme1n1");
}

#[test]
fn test_extract_block_name_mmcblk() {
    assert_eq!(extract_block_name("/dev/mmcblk0p1"), "mmcblk0");
    assert_eq!(extract_block_name("/dev/mmcblk0"), "mmcblk0");
}

#[test]
fn test_extract_block_name_empty() {
    assert_eq!(extract_block_name(""), "");
}

#[test]
fn test_find_mount_device_root() {
    let mounts = "\
proc /proc proc rw,nosuid,nodev,noexec,relatime 0 0
/dev/sda2 / ext4 rw,relatime 0 0
/dev/sda3 /home ext4 rw,relatime 0 0
";
    assert_eq!(find_mount_device_in(mounts, "/"), Some("/dev/sda2".to_string()));
    assert_eq!(find_mount_device_in(mounts, "/home"), Some("/dev/sda3".to_string()));
}

#[test]
fn test_find_mount_device_missing() {
    let mounts = "/dev/sda1 / ext4 rw 0 0\n";
    assert_eq!(find_mount_device_in(mounts, "/home"), None);
    assert_eq!(find_mount_device_in("", "/"), None);
}

#[test]
fn root_disk_block_names_the_root_device() {
    let mounts = "proc /proc proc rw 0 0\n/dev/nvme0n1p2 / ext4 rw 0 0\n";
    assert_eq!(root_disk_block(mounts), "nvme0n1");
    assert_eq!(root_disk_block(""), "");
}

#[test]
fn test_readonly_normal_system_is_rw() {
    let mounts = "\
/dev/sda2 / ext4 rw,relatime 0 0
/dev/sda3 /home ext4 rw,relatime 0 0
";
    assert_eq!(path_is_readonly_in(mounts, "/usr"), Some(false));
}

#[test]
fn test_readonly_dedicated_usr_mount_wins() {
    let mounts = "\
/dev/sda2 / ext4 rw,relatime 0 0
/dev/sda4 /usr ext4 ro,relatime 0 0
";
    assert_eq!(path_is_readonly_in(mounts, "/usr"), Some(true));
}

#[test]
fn test_readonly_root_ro_propagates() {
    let mounts = "/dev/sda2 / btrfs ro,relatime 0 0\n";
    assert_eq!(path_is_readonly_in(mounts, "/usr"), Some(true));
}

#[test]
fn test_readonly_ro_token_is_exact() {
    let mounts = "/dev/sda2 / ext4 rw,errors=remount-ro,relatime 0 0\n";
    assert_eq!(path_is_readonly_in(mounts, "/usr"), Some(false));
}

#[test]
fn test_readonly_no_covering_mount_is_none() {
    let mounts = "proc /proc proc rw 0 0\n";
    assert_eq!(path_is_readonly_in(mounts, "/usr"), None);
    assert_eq!(path_is_readonly_in("", "/usr"), None);
}

#[test]
fn test_readonly_no_false_prefix_match() {
    let mounts = "\
/dev/sda2 / ext4 rw 0 0
/dev/sda5 /usrlocal ext4 ro 0 0
";
    assert_eq!(path_is_readonly_in(mounts, "/usr"), Some(false));
}

#[test]
fn classify_takes_id_first_then_id_like() {
    assert_eq!(classify_ids("arch", ""), Distro::Arch);
    assert_eq!(classify_ids("linuxmint", "ubuntu debian"), Distro::Debian);
    assert_eq!(classify_ids("rocky", "rhel centos fedora"), Distro::Fedora);
    assert_eq!(classify_ids("opensuse-leap", ""), Distro::Suse);
    assert_eq!(classify_ids("Arch", ""), Distro::Unknown);
    assert_eq!(classify_ids("", ""), Distro::Unknown);
}
