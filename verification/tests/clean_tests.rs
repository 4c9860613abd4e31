use oxiclean::detect::{AurHelper, Distro};
use oxiclean::packages::{find_partial_downloads, pkg_cache, PkgCache};
use oxiclean::parse::{
    is_partial_download, nix_freed_fields, parse_make_conf_var, parse_portage_tmpdir, unit_shift,
    usage_fields,
};
use oxiclean::paths::{
    components_exec, partition_cache_entries, pkg_cache_dir, portage_build_dir,
    portage_dir_is_safe, protected_cache_names, protected_dev_dirs, protected_model_dirs,
    prune_targets, resolve_fedora_cache_dir, should_deep, skipped_has_dev_cache, Gate,
};
use oxiclean::plan::{Next, Op, Reply};
use oxiclean::system::{JOURNAL_LIMIT, JOURNAL_LIMIT_BYTES};
use oxiclean::text::path_join_exec;

/// The byte count `num` units of `2^shift` bytes stand for, as the
/// application computes it (floating point, truncated).
fn scaled(num: &str, shift: u32) -> Option<u64> {
    let value: f64 = num.parse().ok()?;
    Some((value * (1u64 << shift) as f64) as u64)
}

fn size_to_bytes(num: &str, unit: &str) -> Option<u64> {
    let shift = unit_shift(unit)?;
    scaled(num, shift)
}

fn parse_nix_freed(text: &str) -> Option<u64> {
    let (num, unit) = nix_freed_fields(text)?;
    size_to_bytes(&num, &unit)
}

fn parse_journal_usage(text: &str) -> Option<u64> {
    usage_fields(text).iter().find_map(|(n, u)| size_to_bytes(n, u))
}

#[test]
fn test_parse_nix_freed_real_output() {
    let out = "deleting '/nix/store/abc-foo'\n\
               deleting unused links...\n\
               note: hard linking is currently saving 0.0 KiB\n\
               1110 store paths deleted, 2.3 MiB freed";
    assert_eq!(
        parse_nix_freed(out),
        Some((2.3 * 1024.0 * 1024.0) as u64),
        "must read the size, not the leading store-path count"
    );
    assert_eq!(
        parse_nix_freed("1481 store paths deleted, 76.1 MiB freed"),
        Some((76.1 * 1024.0 * 1024.0) as u64)
    );
    assert_eq!(parse_nix_freed("0 store paths deleted, 0.0 KiB freed"), Some(0));
}

#[test]
fn test_parse_nix_freed_ignores_the_path_count() {
    let bytes = parse_nix_freed("1110 store paths deleted, 2.3 MiB freed").unwrap();
    assert_ne!(bytes, 1110);
    assert!(bytes > 2_000_000);
}

#[test]
fn test_parse_nix_freed_unparseable_is_none() {
    assert_eq!(parse_nix_freed(""), None);
    assert_eq!(parse_nix_freed("deleting '/nix/store/abc'"), None);
    assert_eq!(parse_nix_freed("something freed"), None);
    assert_eq!(parse_nix_freed("2.3 QiB freed"), None);
}

#[test]
fn test_size_to_bytes_units() {
    assert_eq!(size_to_bytes("512", "B"), Some(512));
    assert_eq!(size_to_bytes("2", "KiB"), Some(2048));
    assert_eq!(size_to_bytes("1.5", "GiB"), Some(1_610_612_736));
    assert_eq!(size_to_bytes("1", "QiB"), None);
    assert_eq!(size_to_bytes("abc", "MiB"), None);
}

#[test]
fn test_parse_journal_usage_real_output() {
    let text = "Archived and active journals take up 48.1M in the file system.";
    let bytes = parse_journal_usage(text).expect("should parse 48.1M");
    assert_eq!(bytes, (48.1 * 1024.0 * 1024.0) as u64);
}

#[test]
fn test_parse_journal_usage_units() {
    assert_eq!(parse_journal_usage("takes up 512B here"), Some(512));
    assert_eq!(parse_journal_usage("takes up 2K here"), Some(2 * 1024));
    assert_eq!(
        parse_journal_usage("takes up 1.5G here"),
        Some((1.5 * 1024.0 * 1024.0 * 1024.0) as u64)
    );
    assert_eq!(parse_journal_usage("up to 4M."), Some(4 * 1024 * 1024));
}

#[test]
fn test_parse_journal_usage_unparseable_is_none() {
    assert_eq!(parse_journal_usage(""), None);
    assert_eq!(parse_journal_usage("no numbers at all here"), None);
    assert_eq!(parse_journal_usage("12Q of something"), None);
}

#[test]
fn test_journal_skip_threshold_matches_limit_string() {
    assert_eq!(parse_journal_usage(JOURNAL_LIMIT), Some(JOURNAL_LIMIT_BYTES));
}

#[test]
fn test_prune_targets_gate_redownload_dirs_behind_deep() {
    let aura = AurHelper {
        bin: "aura",
        clean: None,
        deep_clean: None,
        prune_dirs: &["builds"],
        prune_dirs_deep: &["cache"],
    };
    assert_eq!(prune_targets(&aura, false), vec!["builds"]);
    assert_eq!(prune_targets(&aura, true), vec!["builds", "cache"]);
}

#[test]
fn test_should_deep_flag_true_always_wins() {
    assert_eq!(should_deep(true, false), Gate::Run);
    assert_eq!(should_deep(true, true), Gate::Run);
}

#[test]
fn test_should_deep_yes_without_deep_returns_false() {
    assert_eq!(should_deep(false, true), Gate::Skip);
}

#[test]
fn should_deep_asks_without_deep_or_yes() {
    assert_eq!(should_deep(false, false), Gate::Ask);
}

#[test]
fn test_is_partial_download_matches_leftovers() {
    assert!(is_partial_download("download-3kcUOv"));
    assert!(is_partial_download("download-AbCdEf"));
}

#[test]
fn test_is_partial_download_spares_real_packages() {
    assert!(!is_partial_download("download-manager-1.2-1-x86_64.pkg.tar.zst"));
    assert!(!is_partial_download("firefox-120.0-1-x86_64.pkg.tar.zst"));
    assert!(!is_partial_download("downloads"));
}

#[test]
fn test_find_partial_downloads_missing_dir_is_empty() {
    let found = find_partial_downloads(&[]);
    assert!(found.is_empty());
}

#[test]
fn test_find_partial_downloads_selects_files_and_dirs() {
    let names = vec![
        "download-3kcUOv".to_string(),
        "download-OldPart".to_string(),
        "vim-9.1-1-x86_64.pkg.tar.zst".to_string(),
    ];
    let mut found = find_partial_downloads(&names);
    found.sort();
    assert_eq!(
        found,
        vec![
            "/var/cache/pacman/pkg/download-3kcUOv".to_string(),
            "/var/cache/pacman/pkg/download-OldPart".to_string()
        ]
    );
}

/// Answer every request of a package-cache run with `answer`, until it asks
/// to measure a directory; return that directory.
fn first_measured_dir(mut m: PkgCache, answer: impl Fn(&Op) -> Reply) -> Option<String> {
    let mut reply = Reply::Start;
    for _ in 0..64 {
        let st = m.step(&reply);
        match st.next {
            Next::Ask(Op::DirSize(d)) => return Some(d),
            Next::Ask(op) => reply = answer(&op),
            Next::Done(_) => return None,
        }
    }
    None
}

/// A plain system: not OSTree, not read-only, no tools, no files.
fn plain_system(op: &Op) -> Reply {
    match op {
        Op::Capture { .. } | Op::ReadFile(_) | Op::Env(_) => Reply::Text(None),
        Op::ListDir(_) => Reply::Names(Vec::new()),
        _ => Reply::Flag(false),
    }
}

#[test]
fn test_measured_cache_dir_matches_what_the_clean_command_clears() {
    assert_eq!(pkg_cache_dir(&Distro::Suse, "", ""), Some("/var/cache/zypp".to_string()));
    assert_eq!(pkg_cache_dir(&Distro::Debian, "", ""), Some("/var/cache/apt/archives".to_string()));
    assert_eq!(pkg_cache_dir(&Distro::Solus, "", ""), Some("/var/cache/eopkg".to_string()));
    assert_eq!(pkg_cache_dir(&Distro::Alpine, "", ""), Some("/var/cache/apk".to_string()));
    assert_eq!(
        first_measured_dir(pkg_cache(&Distro::Gentoo, false, false, true), plain_system),
        Some("/var/cache/distfiles".to_string())
    );
}

#[test]
fn test_resolve_fedora_cache_dir_prefers_libdnf5() {
    assert_eq!(resolve_fedora_cache_dir(true, true), "/var/cache/libdnf5");
    assert_eq!(resolve_fedora_cache_dir(true, false), "/var/cache/libdnf5");
}

#[test]
fn test_resolve_fedora_cache_dir_falls_back_to_dnf4_then_yum() {
    assert_eq!(resolve_fedora_cache_dir(false, true), "/var/cache/dnf");
    assert_eq!(resolve_fedora_cache_dir(false, false), "/var/cache/yum");
}

#[test]
fn test_protected_list_covers_models_and_dev_caches() {
    let models = protected_model_dirs();
    let devs = protected_dev_dirs();
    for must in ["huggingface", "torch"] {
        assert!(models.contains(&must), "{must} must stay in the protected model list");
    }
    for must in ["uv", "pip", "ccache"] {
        assert!(devs.contains(&must), "{must} must stay in the protected dev-cache list");
    }
    for m in &models {
        assert!(!devs.contains(m), "{m} must not be in both lists");
    }
}

#[test]
fn test_dev_hint_only_fires_for_dev_caches() {
    assert!(!skipped_has_dev_cache(&["huggingface".to_string()]));
    assert!(!skipped_has_dev_cache(&["torch".to_string()]));
    assert!(skipped_has_dev_cache(&["pip".to_string()]));
    assert!(skipped_has_dev_cache(&["huggingface".to_string(), "uv".to_string()]));
    assert!(!skipped_has_dev_cache(&[]));
}

#[test]
fn test_hf_home_relocation_inside_cache_base_is_protected() {
    let base = "/home/u/.cache";
    let relocated = path_join_exec(base, "my-models/hub");
    let names = protected_cache_names(base, &[], false, &[relocated]);
    assert!(names.contains(&"my-models".to_string()));
}

#[test]
fn hf_relocation_outside_the_base_adds_nothing() {
    let base = "/home/u/.cache";
    let names = protected_cache_names(base, &[], false, &["/data/models".to_string()]);
    assert_eq!(names.len(), 9);
}

#[test]
fn test_partition_missing_dir_is_empty() {
    let (to_clean, skipped) = partition_cache_entries(&[], &Vec::new());
    assert!(to_clean.is_empty());
    assert!(skipped.is_empty());
}

#[test]
fn test_partition_never_selects_protected_for_deletion() {
    let protected = protected_cache_names("/home/u/.cache", &[], false, &[]);
    let names = vec!["huggingface".to_string(), "mozilla".to_string()];
    let (to_clean, skipped) = partition_cache_entries(&names, &protected);
    assert!(to_clean.contains(&"mozilla".to_string()));
    assert!(!to_clean.contains(&"huggingface".to_string()));
    assert!(skipped.contains(&"huggingface".to_string()));
}

#[test]
fn test_aur_deferral_never_strands_a_cache() {
    let paru = AurHelper {
        bin: "paru",
        clean: Some(&["-Sc", "--noconfirm"]),
        deep_clean: Some(&["-Scc", "--noconfirm"]),
        prune_dirs: &[],
        prune_dirs_deep: &[],
    };
    let aura = AurHelper {
        bin: "aura",
        clean: None,
        deep_clean: None,
        prune_dirs: &["builds"],
        prune_dirs_deep: &["cache", "packages"],
    };
    let helpers = [paru, aura];
    let entries = vec!["paru".to_string(), "aura".to_string()];
    let names = protected_cache_names("/c", &helpers, true, &[]);
    let (to_clean, skipped) = partition_cache_entries(&entries, &names);
    assert!(skipped.contains(&"paru".to_string()));
    assert!(!to_clean.contains(&"paru".to_string()));
    let names = protected_cache_names("/c", &helpers, false, &[]);
    let (to_clean, skipped) = partition_cache_entries(&entries, &names);
    assert!(!skipped.contains(&"paru".to_string()));
    assert!(to_clean.contains(&"paru".to_string()));
    for aur_running in [true, false] {
        let names = protected_cache_names("/c", &helpers, aur_running, &[]);
        let (to_clean, skipped) = partition_cache_entries(&entries, &names);
        assert!(skipped.contains(&"aura".to_string()));
        assert!(!to_clean.contains(&"aura".to_string()));
    }
}

#[test]
fn test_parse_make_conf_var_basic() {
    assert_eq!(parse_make_conf_var("DISTDIR=/custom/dist\n", "DISTDIR"), Some("/custom/dist".into()));
    assert_eq!(parse_make_conf_var("DISTDIR=\"/custom/dist\"\n", "DISTDIR"), Some("/custom/dist".into()));
    assert_eq!(parse_make_conf_var("DISTDIR='/custom/dist'\n", "DISTDIR"), Some("/custom/dist".into()));
    assert_eq!(parse_make_conf_var("#DISTDIR=/commented\n", "DISTDIR"), None);
    assert_eq!(parse_make_conf_var("", "DISTDIR"), None);
    assert_eq!(parse_make_conf_var("DISTDIR=\n", "DISTDIR"), None);
    assert_eq!(parse_make_conf_var("PORTAGE_TMPDIR=/var/tmp\n", "DISTDIR"), None);
}

#[test]
fn test_parse_make_conf_var_later_assignment_wins() {
    let conf = "DISTDIR=/first\nDISTDIR=/second\n";
    assert_eq!(parse_make_conf_var(conf, "DISTDIR"), Some("/second".into()));
}

#[test]
fn test_gentoo_distdir_fallback() {
    assert_eq!(
        first_measured_dir(pkg_cache(&Distro::Gentoo, false, false, true), plain_system),
        Some("/var/cache/distfiles".to_string())
    );
}

#[test]
fn gentoo_distdir_prefers_portageq_then_make_conf() {
    let portageq = |op: &Op| match op {
        Op::Capture { cmd, .. } if cmd == "portageq" => Reply::Text(Some("  /srv/distfiles \n".into())),
        other => plain_system(other),
    };
    assert_eq!(
        first_measured_dir(pkg_cache(&Distro::Gentoo, false, false, true), portageq),
        Some("/srv/distfiles".to_string())
    );
    let conf = |op: &Op| match op {
        Op::ReadFile(_) => Reply::Text(Some("DISTDIR=\"/mnt/dist\"\n".into())),
        other => plain_system(other),
    };
    assert_eq!(
        first_measured_dir(pkg_cache(&Distro::Gentoo, false, false, true), conf),
        Some("/mnt/dist".to_string())
    );
    let legacy = |op: &Op| match op {
        Op::IsDir(p) if p == "/usr/portage/distfiles" => Reply::Flag(true),
        other => plain_system(other),
    };
    assert_eq!(
        first_measured_dir(pkg_cache(&Distro::Gentoo, false, false, true), legacy),
        Some("/usr/portage/distfiles".to_string())
    );
}

#[test]
fn test_parse_portage_tmpdir_default_and_custom() {
    assert_eq!(parse_portage_tmpdir("# empty make.conf\nUSE=\"x\"\n"), None);
    assert_eq!(parse_portage_tmpdir("PORTAGE_TMPDIR=\"/mnt/build\"\n").as_deref(), Some("/mnt/build"));
    assert_eq!(parse_portage_tmpdir("PORTAGE_TMPDIR=/scratch\n").as_deref(), Some("/scratch"));
}

#[test]
fn test_parse_portage_tmpdir_ignores_comments_and_takes_last() {
    let conf = "#PORTAGE_TMPDIR=/ignored\nPORTAGE_TMPDIR=/first\nPORTAGE_TMPDIR=\"/second\"\n";
    assert_eq!(parse_portage_tmpdir(conf).as_deref(), Some("/second"));
}

#[test]
fn portage_build_dir_defaults_to_var_tmp() {
    assert_eq!(portage_build_dir(""), "/var/tmp/portage");
    assert_eq!(portage_build_dir("PORTAGE_TMPDIR=/scratch\n"), "/scratch/portage");
}

#[test]
fn test_portage_dir_is_safe_requires_portage_leaf() {
    assert!(portage_dir_is_safe("/var/tmp/portage"));
    assert!(portage_dir_is_safe("/mnt/build/portage"));
    assert!(!portage_dir_is_safe("/var/tmp"));
    assert!(!portage_dir_is_safe("/"));
    assert!(!portage_dir_is_safe("/portage"));
    assert!(!portage_dir_is_safe("/var/tmp/portage-old"));
}

#[test]
fn test_portage_tmpdir_hostile_values_never_yield_a_deletable_path() {
    for hostile in ["/", "//", "", "/usr", "/etc", "/home", "/var/tmp/.."] {
        let conf = format!("PORTAGE_TMPDIR={}\n", hostile);
        let parsed = parse_portage_tmpdir(&conf);
        if hostile.is_empty() {
            assert_eq!(parsed, None, "empty assignment must not be honoured");
            continue;
        }
        let dir = path_join_exec(&parsed.unwrap(), "portage");
        let safe = portage_dir_is_safe(&dir);
        if matches!(hostile, "/" | "//") {
            assert!(!safe, "{:?} -> {:?} must be rejected", hostile, dir);
        }
        assert_ne!(dir, "/");
        assert!(components_exec(&dir).len() >= 2);
    }
}
