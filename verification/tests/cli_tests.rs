use oxiclean::cli::{json_report, json_string, skippable_ops, Ops, Selection};

/// The selection a command line makes: each operation flag by its long
/// name, and `--skip` values split at commas.
fn parse(args: &[&str]) -> Selection {
    let mut sel = Selection {
        cache: false,
        packages: false,
        orphans: false,
        aur: false,
        flatpak: false,
        snap: false,
        journal: false,
        trash: false,
        coredumps: false,
        dev: false,
        trim: false,
        all: false,
        skip: Vec::new(),
    };
    let mut it = args.iter().skip(1);
    while let Some(a) = it.next() {
        match *a {
            "--cache" => sel.cache = true,
            "--packages" => sel.packages = true,
            "--orphans" => sel.orphans = true,
            "--aur" => sel.aur = true,
            "--flatpak" => sel.flatpak = true,
            "--snap" => sel.snap = true,
            "--journal" => sel.journal = true,
            "--trash" => sel.trash = true,
            "--coredumps" => sel.coredumps = true,
            "--dev" => sel.dev = true,
            "--trim" => sel.trim = true,
            "--all" => sel.all = true,
            "--skip" => {
                let v = it.next().unwrap();
                sel.skip.extend(v.split(',').map(|s| s.to_string()));
            }
            other => panic!("unexpected argument {other}"),
        }
    }
    sel
}

#[test]
fn test_all_enables_system_ops_but_not_dev_or_trim() {
    let ops = Ops::resolve(&parse(&["oxiclean", "--all"])).unwrap();
    assert!(ops.cache && ops.packages && ops.orphans && ops.aur);
    assert!(ops.flatpak && ops.snap && ops.journal && ops.trash);
    assert!(ops.coredumps, "--all must include crash-dump cleanup");
    assert!(!ops.dev, "--all must NEVER enable --dev");
    assert!(!ops.trim, "--all must NEVER enable --trim");
}

#[test]
fn test_dev_and_trim_are_opt_in() {
    let ops = Ops::resolve(&parse(&["oxiclean", "--dev", "--trim"])).unwrap();
    assert!(ops.dev && ops.trim);
    assert!(!ops.cache && !ops.packages && !ops.coredumps);
    assert!(ops.any());
}

#[test]
fn test_no_flags_is_empty() {
    let ops = Ops::resolve(&parse(&["oxiclean"])).unwrap();
    assert!(!ops.any());
}

#[test]
fn test_skip_subtracts_from_all() {
    let ops = Ops::resolve(&parse(&["oxiclean", "--all", "--skip", "packages,journal"])).unwrap();
    assert!(!ops.packages, "packages must be skipped");
    assert!(!ops.journal, "journal must be skipped");
    assert!(ops.cache && ops.orphans && ops.trash && ops.coredumps);
}

#[test]
fn skip_names_are_trimmed() {
    let ops = Ops::resolve(&parse(&["oxiclean", "--all", "--skip", " packages , trash"])).unwrap();
    assert!(!ops.packages && !ops.trash);
    assert!(ops.cache);
}

#[test]
fn test_skip_without_all_is_error() {
    let err = Ops::resolve(&parse(&["oxiclean", "--cache", "--skip", "packages"]));
    assert!(err.is_err(), "--skip without --all must be rejected");
    assert_eq!(err.unwrap_err(), "--skip only works together with --all");
}

#[test]
fn test_skip_unknown_name_is_error() {
    let err = Ops::resolve(&parse(&["oxiclean", "--all", "--skip", "pacakges"]));
    assert!(err.is_err(), "a misspelled skip name must be rejected");
    let msg = err.unwrap_err();
    assert!(msg.contains("packages"));
    assert_eq!(
        msg,
        "unknown --skip operation 'pacakges'. Valid: cache, packages, orphans, aur, flatpak, snap, journal, trash, coredumps"
    );
}

#[test]
fn test_skip_cannot_disable_dev_or_trim() {
    assert!(Ops::resolve(&parse(&["oxiclean", "--all", "--skip", "dev"])).is_err());
    assert!(Ops::resolve(&parse(&["oxiclean", "--all", "--skip", "trim"])).is_err());
}

#[test]
fn test_needs_sudo_reflects_selection() {
    let ops = Ops::resolve(&parse(&["oxiclean", "--cache", "--trash"])).unwrap();
    assert!(!ops.needs_sudo());
    let ops = Ops::resolve(&parse(&["oxiclean", "--coredumps"])).unwrap();
    assert!(ops.needs_sudo());
}

#[test]
fn skippable_names_are_what_all_turns_on() {
    assert_eq!(
        skippable_ops(),
        vec!["cache", "packages", "orphans", "aur", "flatpak", "snap", "journal", "trash", "coredumps"]
    );
}

#[test]
fn test_json_string_escapes() {
    assert_eq!(json_string("abc"), "\"abc\"");
    assert_eq!(json_string("a\"b"), "\"a\\\"b\"");
    assert_eq!(json_string("a\\b"), "\"a\\\\b\"");
    assert_eq!(json_string("a\nb"), "\"a\\nb\"");
}

#[test]
fn json_string_escapes_control_characters() {
    assert_eq!(json_string("a\tb\rc"), "\"a\\tb\\rc\"");
    assert_eq!(json_string("\u{1}"), "\"\\u0001\"");
}

#[test]
fn json_report_is_one_object_in_run_order() {
    let r = json_report("1.8.0", "Arch Linux", true, false, &[("cache", 4096), ("trash", 0)], 4096, "0.25");
    assert_eq!(
        r,
        "{\"version\":\"1.8.0\",\"distro\":\"Arch Linux\",\"dry_run\":true,\"deep\":false,\
         \"operations\":{\"cache\":4096,\"trash\":0},\"total_freed_bytes\":4096,\"elapsed_secs\":0.25}"
    );
    let parsed: serde_json::Value = serde_json::from_str(&r).unwrap();
    assert_eq!(parsed["operations"]["cache"], 4096);
}

#[test]
fn json_report_with_no_operations() {
    let r = json_report("1.8.0", "NixOS", false, true, &[], 0, "1.00");
    assert_eq!(
        r,
        "{\"version\":\"1.8.0\",\"distro\":\"NixOS\",\"dry_run\":false,\"deep\":true,\
         \"operations\":{},\"total_freed_bytes\":0,\"elapsed_secs\":1.00}"
    );
}

#[test]
fn test_json_output_is_valid_json() {
    let out = json_report("1.8.0", "Arch Linux", true, false, &[("cache", 0)], 0, "0.01");
    let v: serde_json::Value = serde_json::from_str(&out)
        .unwrap_or_else(|e| panic!("--json output did not parse as JSON ({e}). stdout was:\n{out}"));
    assert!(v["version"].is_string(), "version must be a string");
    assert_eq!(v["dry_run"], serde_json::Value::Bool(true), "dry_run must be true here");
    assert!(v["total_freed_bytes"].is_number(), "total_freed_bytes must be numeric");
    assert!(v["operations"].is_object(), "operations must be an object");
    assert!(v["operations"].get("cache").is_some(), "cache op must be reported. got:\n{out}");
    assert!(v["elapsed_secs"].is_number());
}

#[test]
fn aur_asks_for_privileges_up_front() {
    let ops = Ops::resolve(&parse(&["oxiclean", "--aur"])).unwrap();
    assert!(ops.needs_sudo());
    let ops = Ops::resolve(&parse(&["oxiclean", "--cache", "--trash", "--dev"])).unwrap();
    assert!(!ops.needs_sudo());
}
