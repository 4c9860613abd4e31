use oxiclean::detect::Privilege;
use oxiclean::utils::{
    acquire_privilege, capture_trusted, elevate, elevate_quiet, format_size, is_affirmative,
    is_yes, resolve_trusted, root_from_status, stderr_excerpt, sudo, trusted_bin_dirs, trusted_candidates, trusted_path,
    which_trusted, Attempt, LineKind, RunMode, Settings,
};

/// The candidate paths of `cmd` that are regular files on this machine.
fn files_for(cmds: &[&str]) -> Vec<String> {
    cmds.iter()
        .flat_map(|c| trusted_candidates(c))
        .filter(|p| std::path::Path::new(p).is_file())
        .collect()
}

// ── untrusted search path ──

#[test]
fn test_resolve_trusted_ignores_path_entirely() {
    let files = vec!["/tmp/oxi_pathtest/oxiclean-fake-pkgmanager".to_string()];
    assert_eq!(
        resolve_trusted("oxiclean-fake-pkgmanager", &files),
        None,
        "an executable outside TRUSTED_BIN_DIRS must never resolve"
    );
}

#[test]
fn test_resolve_trusted_finds_real_system_binaries() {
    let files = files_for(&["sh"]);
    let sh = resolve_trusted("sh", &files).expect("sh must resolve");
    assert!(sh.starts_with('/'), "must be an absolute path, got {sh}");
    assert!(
        trusted_bin_dirs().iter().any(|d| sh.starts_with(d)),
        "{sh} resolved outside the trusted set"
    );
}

#[test]
fn resolve_trusted_takes_the_first_trusted_directory() {
    let files = vec!["/usr/local/bin/tool".to_string(), "/bin/tool".to_string()];
    assert_eq!(resolve_trusted("tool", &files), Some("/bin/tool".to_string()));
    assert!(which_trusted("tool", &files));
}

#[test]
fn test_resolve_trusted_rejects_paths_and_missing() {
    let files = files_for(&["sh"]);
    assert_eq!(resolve_trusted("../../bin/sh", &files), None);
    assert_eq!(resolve_trusted("subdir/tool", &files), None);
    assert_eq!(resolve_trusted("oxiclean_no_such_binary_xyz", &files), None);
    assert_eq!(resolve_trusted("/nonexistent/oxiclean_xyz", &files), None);
}

#[test]
fn test_trusted_bin_dirs_are_root_owned_only() {
    for d in trusted_bin_dirs() {
        assert!(d.starts_with('/'), "{d} is not absolute");
        assert!(!d.contains("/home/") && !d.contains("/tmp"), "{d} is user-writable territory");
        assert!(!d.contains('~'), "{d} relies on shell expansion");
        assert!(
            !d.contains("per-user") && !d.contains(".nix-profile"),
            "{d} is a per-user Nix profile, which its owner can write to"
        );
    }
}

#[test]
fn test_trusted_path_is_what_children_get() {
    let p = trusted_path();
    for d in trusted_bin_dirs() {
        assert!(p.contains(d), "trusted PATH is missing {d}");
    }
    assert!(!p.is_empty());
    assert_eq!(
        p,
        "/usr/bin:/bin:/usr/sbin:/sbin:/usr/local/bin:/usr/local/sbin:/nix/var/nix/profiles/default/bin"
    );
}

// ── privilege escalation plans ──

#[test]
fn test_elevate_none_never_spawns_even_for_trusted_binary() {
    let files = files_for(&["sh", "sudo", "doas"]);
    assert!(elevate(Privilege::Unavailable, "sh", &["-c", "exit 0"], &files).is_none());
}

#[test]
fn test_elevate_refuses_untrusted_command() {
    let files = files_for(&["sh"]);
    assert!(elevate(Privilege::Root, "oxiclean_no_such_binary_xyz", &[], &files).is_none());
}

#[test]
fn test_elevate_root_runs_directly() {
    let files = vec!["/usr/bin/true".to_string()];
    let plan = elevate(Privilege::Root, "true", &[], &files).unwrap();
    assert_eq!(plan.program, "/usr/bin/true");
    assert!(plan.args.is_empty());
    assert_eq!(plan.mode, RunMode::Inherit);
}

#[test]
fn test_elevate_root_propagates_failure() {
    let files = vec!["/usr/bin/false".to_string()];
    let plan = elevate(Privilege::Root, "false", &[], &files).unwrap();
    assert_eq!(plan.program, "/usr/bin/false");
    assert!(plan.args.is_empty());
}

#[test]
fn elevate_through_a_helper_passes_the_resolved_target() {
    let files = vec!["/usr/bin/sudo".to_string(), "/usr/bin/pacman".to_string()];
    let plan = elevate_quiet(Privilege::Sudo, "pacman", &["-Sc", "--noconfirm"], &files).unwrap();
    assert_eq!(plan.program, "/usr/bin/sudo");
    assert_eq!(plan.args, vec!["/usr/bin/pacman", "-Sc", "--noconfirm"]);
    assert_eq!(plan.mode, RunMode::Quiet);
    assert!(elevate(Privilege::Doas, "pacman", &[], &files).is_none());
}

#[test]
fn test_elevate_none_never_spawns() {
    let files = vec!["/usr/bin/true".to_string(), "/usr/bin/sudo".to_string()];
    assert!(elevate(Privilege::Unavailable, "true", &[], &files).is_none());
    assert!(matches!(acquire_privilege(Privilege::Unavailable, &files), Attempt::Settled(false)));
}

#[test]
fn acquire_privilege_plans_the_helper_check() {
    let files = vec!["/usr/bin/sudo".to_string()];
    assert!(matches!(acquire_privilege(Privilege::Root, &files), Attempt::Settled(true)));
    match acquire_privilege(Privilege::Sudo, &files) {
        Attempt::Run(s) => {
            assert_eq!(s.program, "/usr/bin/sudo");
            assert_eq!(s.args, vec!["-v"]);
        }
        Attempt::Settled(_) => panic!("sudo is present and must be asked"),
    }
    assert!(matches!(acquire_privilege(Privilege::Doas, &files), Attempt::Settled(false)));
}

#[test]
fn capture_is_restricted_to_trusted_binaries() {
    let files = vec!["/usr/bin/id".to_string()];
    let s = capture_trusted("id", &["-u"], &files).unwrap();
    assert_eq!(s.program, "/usr/bin/id");
    assert_eq!(s.mode, RunMode::Capture);
    assert!(capture_trusted("oxiclean_no_such_binary_xyz", &[], &files).is_none());
}

#[test]
fn test_current_privilege_default_is_sudo() {
    let settings = Settings::new();
    let p = settings.current_privilege();
    let _ = p.name();
    assert_eq!(p, Privilege::Sudo);
}

#[test]
fn settings_are_set_once_and_default_off() {
    let mut s = Settings::new();
    assert!(!s.is_quiet() && !s.is_json() && !s.is_verbose());
    s.set_quiet(true);
    s.set_quiet(false);
    assert!(s.is_quiet());
    assert!(!s.shows(LineKind::Info));
    assert!(s.shows(LineKind::Section));
    s.set_privilege(Privilege::Doas);
    s.set_privilege(Privilege::Root);
    assert_eq!(s.current_privilege(), Privilege::Doas);
    let files = vec!["/usr/bin/doas".to_string(), "/usr/bin/journalctl".to_string()];
    let plan = sudo(&s, "journalctl", &["--vacuum-size=50M"], &files).unwrap();
    assert_eq!(plan.program, "/usr/bin/doas");
}

#[test]
fn root_is_read_from_the_effective_uid() {
    assert_eq!(root_from_status("Name:\tx\nUid:\t1000\t0\t1000\t1000\n"), Some(true));
    assert_eq!(root_from_status("Uid:\t0\t1000\t0\t0\n"), Some(false));
    assert_eq!(root_from_status("Name:\tx\n"), None);
    assert_eq!(root_from_status("Uid:\t0\nUid:\t5\t5\n"), Some(false));
}

#[test]
fn affirmative_answers() {
    assert!(is_affirmative("y"));
    assert!(is_affirmative("YES "));
    assert!(!is_affirmative("n"));
    assert!(!is_affirmative(""));
    assert!(!is_affirmative("yeah"));
}

// ── human-readable sizes ──

#[test]
fn test_format_size_bytes() {
    assert_eq!(format_size(0), "0 B");
    assert_eq!(format_size(512), "512 B");
}

#[test]
fn test_format_size_kb() {
    assert_eq!(format_size(1024), "1.00 KB");
    assert_eq!(format_size(1536), "1.50 KB");
}

#[test]
fn test_format_size_mb() {
    assert_eq!(format_size(1048576), "1.00 MB");
}

#[test]
fn test_format_size_gb() {
    assert_eq!(format_size(1073741824), "1.00 GB");
}

#[test]
fn test_format_size_boundary_kb_mb() {
    assert_eq!(format_size(1048575), "1024.00 KB");
    assert_eq!(format_size(1048576), "1.00 MB");
}

#[test]
fn test_format_size_boundary_mb_gb() {
    assert_eq!(format_size(1073741823), "1024.00 MB");
    assert_eq!(format_size(1073741824), "1.00 GB");
}

#[test]
fn format_size_rounds_to_two_decimals() {
    assert_eq!(format_size(1023), "1023 B");
    assert_eq!(format_size(1100), "1.07 KB");
    assert_eq!(format_size(5 * 1073741824 + 536870912), "5.50 GB");
}

#[test]
fn failed_command_output_is_cut_to_five_nonblank_lines() {
    let text = "a\n\n  \nb\nc\nd\ne\nf\n";
    assert_eq!(stderr_excerpt(text), vec!["a", "b", "c", "d", "e"]);
    assert!(stderr_excerpt("  \n\t\n").is_empty());
}

#[test]
fn yes_means_y_or_yes_only() {
    assert!(is_yes("y") && is_yes("yes"));
    assert!(!is_yes("YES") && !is_yes(" y") && !is_yes("no"));
}
