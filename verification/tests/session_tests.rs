use oxiclean::cli::{json_error, Ops};
use oxiclean::detect::{DiskType, Distro, Privilege};
use oxiclean::plan::Line;
use oxiclean::session::{
    banner, effective_yes, helpers_for, nothing_selected, privilege_gate, request_lines,
    session_plan, skip_lines, summary, system_info, total_freed, PrivGate, SystemFacts, Task,
};

fn text(l: &Line) -> String {
    l.parts.iter().map(|p| p.text.as_str()).collect()
}

fn facts(distro: Distro, has_nix: bool, has_flatpak: bool) -> SystemFacts {
    SystemFacts {
        pretty_name: "Test Linux".to_string(),
        distro,
        aur_helpers: Vec::new(),
        has_flatpak,
        has_snap: false,
        has_nix,
        privilege: Privilege::Sudo,
        disk_type: DiskType::SSD,
    }
}

fn all_system_ops() -> Ops {
    Ops {
        cache: true,
        packages: true,
        orphans: true,
        aur: true,
        flatpak: true,
        snap: true,
        journal: true,
        trash: true,
        coredumps: true,
        dev: false,
        trim: false,
    }
}

#[test]
fn plan_runs_selected_operations_in_order() {
    let plan = session_plan(all_system_ops(), false, false, false, &facts(Distro::Debian, true, true));
    let names: Vec<&str> = plan.iter().map(|e| e.name).collect();
    assert_eq!(
        names,
        vec!["cache", "packages", "orphans", "aur", "flatpak", "snap", "journal", "trash", "coredumps"]
    );
    assert_eq!(plan[1].tasks, vec![Task::PkgCache, Task::NixGc]);
    assert!(plan[3].tasks.is_empty());
    assert_eq!(plan[4].tasks, vec![Task::Flatpak]);
    assert!(plan[5].tasks.is_empty());
}

#[test]
fn nix_gc_is_not_repeated_on_nixos() {
    let plan = session_plan(all_system_ops(), false, false, false, &facts(Distro::Nix, true, false));
    assert_eq!(plan[1].tasks, vec![Task::PkgCache]);
}

#[test]
fn explicitly_asked_but_unavailable_operations_say_so() {
    let mut ops = all_system_ops();
    ops.cache = false;
    let plan = session_plan(ops, true, true, true, &facts(Distro::Fedora, false, false));
    let aur = plan.iter().find(|e| e.name == "aur").unwrap();
    assert_eq!(aur.tasks, vec![Task::NotArch]);
    let lines: Vec<String> = skip_lines(Task::NotArch).iter().map(text).collect();
    assert_eq!(lines, vec!["AUR Cache", "Not an Arch-based system \u{2014} skipped"]);
    let snap = plan.iter().find(|e| e.name == "snap").unwrap();
    assert_eq!(snap.tasks, vec![Task::NoSnap]);
    assert!(skip_lines(Task::Journal).is_empty());
}

#[test]
fn dev_and_trim_run_last_and_only_when_selected() {
    let mut ops = all_system_ops();
    ops.dev = true;
    ops.trim = true;
    let plan = session_plan(ops, false, false, false, &facts(Distro::Arch, false, false));
    let n = plan.len();
    assert_eq!(plan[n - 2].tasks, vec![Task::Dev]);
    assert_eq!(plan[n - 1].tasks, vec![Task::Trim]);
    assert_eq!(plan[3].tasks, vec![Task::AurCache]);
}

#[test]
fn totals_add_up_and_saturate() {
    assert_eq!(total_freed(&[("cache", 10), ("trash", 32)]), 42);
    assert_eq!(total_freed(&[]), 0);
    assert_eq!(total_freed(&[("a", u64::MAX), ("b", 1)]), u64::MAX);
}

#[test]
fn privileges_are_asked_only_when_needed() {
    assert_eq!(privilege_gate(true, false, Privilege::Sudo), PrivGate::Acquire);
    assert_eq!(privilege_gate(true, false, Privilege::Unavailable), PrivGate::NoTool);
    assert_eq!(privilege_gate(true, true, Privilege::Unavailable), PrivGate::Proceed);
    assert_eq!(privilege_gate(false, false, Privilege::Unavailable), PrivGate::Proceed);
    assert!(request_lines(Privilege::Root, false).is_empty());
    assert!(request_lines(Privilege::Doas, true).is_empty());
    let l: Vec<String> = request_lines(Privilege::Doas, false).iter().map(text).collect();
    assert_eq!(l, vec!["".to_string(), "  \u{1f510} Requesting privileges (doas)...".to_string()]);
}

#[test]
fn json_implies_yes() {
    assert!(effective_yes(false, true));
    assert!(effective_yes(true, false));
    assert!(!effective_yes(false, false));
}

#[test]
fn json_errors_are_one_object() {
    assert_eq!(json_error("no operation selected"), "{\"error\":\"no operation selected\"}");
    assert_eq!(json_error("bad \"x\""), "{\"error\":\"bad \\\"x\\\"\"}");
}

#[test]
fn system_block_mentions_what_was_detected() {
    let mut sys = facts(Distro::Debian, true, true);
    sys.disk_type = DiskType::HDD;
    let lines: Vec<String> = system_info(&sys, true, false, false).iter().map(text).collect();
    assert_eq!(lines[0], "  System: Test Linux");
    assert_eq!(lines[1], "  Distro: Debian/Ubuntu (apt)");
    assert!(lines.contains(&"  Flatpak: detected \u{2714}".to_string()));
    assert!(lines.contains(&"  Nix: detected \u{2714}".to_string()));
    assert!(lines.contains(&"  \u{26a0} HDD detected \u{2014} cleanup may take longer".to_string()));
    assert!(lines.contains(&"  \u{26a0}  DRY RUN MODE \u{2014} no changes will be made".to_string()));
    assert!(system_info(&sys, true, true, true).is_empty());
}

#[test]
fn summary_reports_total_and_time() {
    let lines: Vec<String> = summary(1536, "0.25", true).iter().map(text).collect();
    assert!(lines.contains(&"  \u{26a1} Total freed: 1.50 KB".to_string()));
    assert!(lines.contains(&"  \u{23f1}  Completed in: 0.25s".to_string()));
    assert!(lines.iter().any(|l| l.contains("This was a dry run")));
    let lines: Vec<String> = summary(0, "1.00", false).iter().map(text).collect();
    assert!(!lines.iter().any(|l| l.contains("dry run")));
}

#[test]
fn banner_and_empty_selection_texts() {
    let b: Vec<String> = banner("1.8.0").iter().map(text).collect();
    assert_eq!(b[1], "    \u{26a1} Oxi Clean  v1.8.0");
    assert_eq!(b[2], "    Fast Cross-Distribution Linux System Cleaner");
    let n: Vec<String> = nothing_selected().iter().map(text).collect();
    assert!(n[0].contains("--all"));
    assert_eq!(n[2], "  Quick start:  oxiclean --all");
}

#[test]
fn aur_helpers_only_on_arch() {
    let present = vec!["paru".to_string()];
    assert!(helpers_for(Distro::Debian, &present).is_empty());
    assert_eq!(helpers_for(Distro::Arch, &present).len(), 1);
}
