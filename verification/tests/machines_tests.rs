use oxiclean::bundles::{flatpak, snap, Flatpak, Snap};
use oxiclean::clean::{trash, Trash};
use oxiclean::detect::{AurHelper, DiskType, Distro};
use oxiclean::packages::{orphans, pkg_cache, Orphans, PkgCache};
use oxiclean::plan::{Next, Op, Reply, Step};
use oxiclean::system::{coredumps, journal, nix_gc, trim, Coredumps, Journal, NixGc, Trim};
use oxiclean::usercache::{aur_cache, user_cache, AurCache, UserCache};
use oxiclean::utils::LineKind;

trait Machine {
    fn go(&mut self, r: &Reply) -> Step;
}

impl Machine for Trash {
    fn go(&mut self, r: &Reply) -> Step {
        self.step(r)
    }
}
impl Machine for PkgCache {
    fn go(&mut self, r: &Reply) -> Step {
        self.step(r)
    }
}
impl Machine for Orphans {
    fn go(&mut self, r: &Reply) -> Step {
        self.step(r)
    }
}
impl Machine for Journal {
    fn go(&mut self, r: &Reply) -> Step {
        self.step(r)
    }
}
impl Machine for Coredumps {
    fn go(&mut self, r: &Reply) -> Step {
        self.step(r)
    }
}
impl Machine for Trim {
    fn go(&mut self, r: &Reply) -> Step {
        self.step(r)
    }
}
impl Machine for NixGc {
    fn go(&mut self, r: &Reply) -> Step {
        self.step(r)
    }
}
impl Machine for Flatpak {
    fn go(&mut self, r: &Reply) -> Step {
        self.step(r)
    }
}
impl Machine for Snap {
    fn go(&mut self, r: &Reply) -> Step {
        self.step(r)
    }
}
impl Machine for UserCache {
    fn go(&mut self, r: &Reply) -> Step {
        self.step(r)
    }
}
impl Machine for AurCache {
    fn go(&mut self, r: &Reply) -> Step {
        self.step(r)
    }
}

struct Run {
    asked: Vec<Op>,
    printed: Vec<(LineKind, String)>,
    freed: u64,
}

fn drive<M: Machine>(mut m: M, answer: &dyn Fn(&Op) -> Reply) -> Run {
    let mut reply = Reply::Start;
    let mut asked = Vec::new();
    let mut printed = Vec::new();
    for _ in 0..5000 {
        let st = m.go(&reply);
        for l in &st.lines {
            printed.push((l.kind, l.parts.iter().map(|p| p.text.as_str()).collect::<String>()));
        }
        match st.next {
            Next::Ask(op) => {
                reply = answer(&op);
                asked.push(op);
            }
            Next::Done(n) => return Run { asked, printed, freed: n },
        }
    }
    panic!("the operation did not finish");
}

fn changes_system(op: &Op) -> bool {
    matches!(op, Op::Run { .. } | Op::RmContents(_) | Op::Remove(_))
}

fn to_bytes(num: &str, shift: u32) -> Option<u64> {
    let v: f64 = num.parse().ok()?;
    Some((v * (1u64 << shift) as f64) as u64)
}

/// A system where every tool is installed and every cache holds 4 KiB.
fn busy(op: &Op) -> Reply {
    match op {
        Op::IsOstree | Op::IsReadonlyRootfs | Op::HasNix | Op::NixMultiuser | Op::EmergeRunning => Reply::Flag(false),
        Op::Env(v) if v == "HOME" => Reply::Text(Some("/home/u".into())),
        Op::Env(_) => Reply::Text(None),
        Op::Capture { cmd, args, .. } => Reply::Text(Some(match (cmd.as_str(), args.first().map(|s| s.as_str())) {
            ("journalctl", _) => "Archived and active journals take up 1.5G in the file system.".into(),
            ("pacman", Some("-Qdtq")) => "libfoo\nlibbar".into(),
            ("nix-collect-garbage", _) => "1110 store paths deleted, 2.3 MiB freed".into(),
            ("snap", _) => "Name  Version  Rev  Tracking  Publisher  Notes\nfoo  1.0  12  latest/stable  me  disabled".into(),
            _ => String::new(),
        })),
        Op::ReadFile(_) => Reply::Text(Some(String::new())),
        Op::DirSize(_) | Op::RmContents(_) | Op::EntrySize(_) | Op::FlatFilesSize { .. } => Reply::Size(4096),
        Op::ListDir(_) => Reply::Names(vec!["a".into(), "b".into()]),
        Op::ToBytes { num, shift } => Reply::Bytes(to_bytes(num, *shift)),
        _ => Reply::Flag(true),
    }
}

fn paru() -> AurHelper {
    AurHelper {
        bin: "paru",
        clean: Some(&["-Sc", "--noconfirm"]),
        deep_clean: Some(&["-Scc", "--noconfirm"]),
        prune_dirs: &[],
        prune_dirs_deep: &[],
    }
}

fn aura() -> AurHelper {
    AurHelper {
        bin: "aura",
        clean: None,
        deep_clean: None,
        prune_dirs: &["builds"],
        prune_dirs_deep: &["cache", "packages"],
    }
}

fn assert_dry(r: &Run) {
    assert_eq!(r.freed, 0);
    for op in &r.asked {
        assert!(!changes_system(op), "a dry run asked to change the system");
    }
}

#[test]
fn dry_runs_change_nothing() {
    let helpers = [paru(), aura()];
    for deep in [false, true] {
        for d in [Distro::Arch, Distro::Debian, Distro::Fedora, Distro::Suse, Distro::Nix, Distro::Void,
                  Distro::Alpine, Distro::Gentoo, Distro::Solus, Distro::Clear, Distro::Unknown] {
            assert_dry(&drive(pkg_cache(&d, deep, true, true), &busy));
            assert_dry(&drive(orphans(&d, true, true), &busy));
        }
        assert_dry(&drive(nix_gc(deep, true, true, DiskType::SSD), &busy));
        assert_dry(&drive(flatpak(deep, true), &busy));
        assert_dry(&drive(aur_cache(&helpers, deep, true, true), &busy));
    }
    assert_dry(&drive(trash(true), &busy));
    assert_dry(&drive(journal(true), &busy));
    assert_dry(&drive(coredumps(true), &busy));
    assert_dry(&drive(trim(true, DiskType::NVMe), &busy));
    assert_dry(&drive(snap(true), &busy));
    assert_dry(&drive(user_cache(true, &helpers, true), &busy));
}

#[test]
fn yes_never_prompts() {
    for deep in [false, true] {
        for d in [Distro::Arch, Distro::Debian, Distro::Nix, Distro::Void, Distro::Alpine, Distro::Gentoo] {
            let r = drive(pkg_cache(&d, deep, false, true), &busy);
            assert!(!r.asked.iter().any(|op| matches!(op, Op::Confirm(_))));
            let r = drive(orphans(&d, false, true), &busy);
            assert!(!r.asked.iter().any(|op| matches!(op, Op::Confirm(_))));
        }
        let r = drive(nix_gc(deep, false, true, DiskType::SSD), &busy);
        assert!(!r.asked.iter().any(|op| matches!(op, Op::Confirm(_))));
    }
}

#[test]
fn trash_is_measured_then_emptied() {
    let r = drive(trash(false), &busy);
    assert_eq!(r.freed, 3 * 4096);
    assert!(r.asked.iter().any(|op| matches!(op, Op::RmContents(p) if p == "/home/u/.local/share/Trash/files")));
    assert!(r.asked.iter().any(|op| matches!(op, Op::RmContents(p) if p == "/home/u/.Trash")));
    let dry = drive(trash(true), &busy);
    assert!(dry.printed.iter().any(|(_, t)| t == "[DRY RUN] Would free 12.00 KB"));
}

#[test]
fn empty_trash_is_reported() {
    let empty = |op: &Op| match op {
        Op::Exists(_) => Reply::Flag(false),
        other => busy(other),
    };
    let r = drive(trash(false), &empty);
    assert_eq!(r.freed, 0);
    assert!(r.printed.iter().any(|(k, t)| *k == LineKind::Success && t == "Trash is empty"));
}

#[test]
fn journal_is_vacuumed_to_the_limit() {
    let sizes = std::cell::Cell::new(0u32);
    let answer = |op: &Op| match op {
        Op::DirSize(_) => {
            sizes.set(sizes.get() + 1);
            Reply::Size(if sizes.get() == 1 { 1_000_000_000 } else { 52_428_800 })
        }
        other => busy(other),
    };
    let r = drive(journal(false), &answer);
    assert_eq!(r.freed, 1_000_000_000 - 52_428_800);
    assert!(r.asked.iter().any(|op| matches!(op, Op::Run { cmd, args, elevated: true, .. }
        if cmd == "journalctl" && args == &vec!["--vacuum-size=50M".to_string()])));
}

#[test]
fn small_journal_is_left_alone() {
    let small = |op: &Op| match op {
        Op::Capture { cmd, .. } if cmd == "journalctl" => Reply::Text(Some("take up 8.0M in the file system.".into())),
        other => busy(other),
    };
    let r = drive(journal(false), &small);
    assert_eq!(r.freed, 0);
    assert!(!r.asked.iter().any(changes_system));
}

#[test]
fn orphans_removes_exactly_the_listed_packages() {
    let r = drive(orphans(&Distro::Arch, false, true), &busy);
    let run = r.asked.iter().find_map(|op| match op {
        Op::Run { cmd, args, .. } if cmd == "pacman" => Some(args.clone()),
        _ => None,
    });
    let args = run.expect("pacman must be asked to remove the orphans");
    assert!(args.contains(&"libfoo".to_string()) && args.contains(&"libbar".to_string()));
    assert!(r.printed.iter().any(|(_, t)| t.contains("libfoo")));
}

#[test]
fn user_cache_spares_protected_entries() {
    let world = |op: &Op| match op {
        Op::ListDir(_) => Reply::Names(vec!["mozilla".into(), "huggingface".into(), "pip".into(), "paru".into()]),
        other => busy(other),
    };
    let helpers = [paru()];
    let r = drive(user_cache(false, &helpers, true), &world);
    let removed: Vec<&String> = r.asked.iter().filter_map(|op| match op {
        Op::Remove(p) => Some(p),
        _ => None,
    }).collect();
    assert_eq!(removed, vec!["/home/u/.cache/mozilla"]);
    assert_eq!(r.freed, 4096);
}

#[test]
fn aur_cache_drives_each_helper_its_own_way() {
    let helpers = [paru(), aura()];
    let r = drive(aur_cache(&helpers, false, false, true), &busy);
    assert!(r.asked.iter().any(|op| matches!(op, Op::Run { cmd, args, .. }
        if cmd == "paru" && args == &vec!["-Sc".to_string(), "--noconfirm".to_string()])));
    assert!(!r.asked.iter().any(|op| matches!(op, Op::Run { cmd, .. } if cmd == "aura")));
    assert!(!r.asked.iter().any(|op| matches!(op, Op::RmContents(p) | Op::Remove(p) if p.ends_with("snapshots") || p.ends_with("hashes"))));
}

fn with_nix(op: &Op) -> Reply {
    match op {
        Op::HasNix => Reply::Flag(true),
        other => busy(other),
    }
}

#[test]
fn nix_gc_reads_the_freed_size_from_its_output() {
    let r = drive(nix_gc(false, false, true, DiskType::SSD), &with_nix);
    assert!(r.freed > 2_000_000);
    assert_ne!(r.freed, 1110);
}

#[test]
fn nix_never_optimises_on_a_spinning_disk() {
    let r = drive(nix_gc(true, false, true, DiskType::HDD), &with_nix);
    assert!(r.asked.iter().any(|op| matches!(op, Op::Run { args, .. } if args == &vec!["-d".to_string()])));
    assert!(!r.asked.iter().any(|op| matches!(op, Op::Run { args, .. } if args.iter().any(|a| a == "--optimise"))));
}

#[test]
fn trim_runs_on_spinning_disks_with_a_note() {
    let r = drive(trim(false, DiskType::HDD), &busy);
    assert!(r.printed.iter().any(|(k, t)| *k == LineKind::Info && t.contains("HDD")));
    assert!(r.asked.iter().any(|op| matches!(op, Op::Run { cmd, args, elevated: true, .. }
        if cmd == "fstrim" && args == &vec!["--fstab".to_string(), "--verbose".to_string()])));
}

#[test]
fn snap_removes_disabled_revisions() {
    let r = drive(snap(false), &busy);
    assert!(r.asked.iter().any(|op| matches!(op, Op::Run { cmd, args, .. }
        if cmd == "snap" && args.contains(&"foo".to_string()) && args.contains(&"12".to_string()))));
}

fn gentoo_build_tree(op: &Op) -> Reply {
    match op {
        Op::ReadFile(_) => Reply::Text(Some(String::new())),
        Op::Exists(p) if p == "/var/tmp/portage" => Reply::Flag(true),
        Op::DirSize(p) if p == "/var/tmp/portage" => Reply::Size(4608),
        other => busy(other),
    }
}

#[test]
fn test_portage_cleanup_is_contents_only_and_survives_the_dir() {
    let r = drive(pkg_cache(&Distro::Gentoo, false, false, true), &gentoo_build_tree);
    let find = r.asked.iter().find_map(|op| match op {
        Op::Run { cmd, args, .. } if cmd == "find" => Some(args.clone()),
        _ => None,
    });
    assert_eq!(
        find.expect("the build tree must be cleared"),
        vec!["/var/tmp/portage", "-mindepth", "1", "-delete"],
        "everything inside is gone, the build dir itself survives"
    );
    assert!(!r.asked.iter().any(|op| matches!(op, Op::Remove(p) | Op::RmContents(p) if p == "/var/tmp/portage")));
    assert!(r.printed.iter().any(|(_, t)| t == "Cleared portage build leftovers (4.50 KB)"));
}

#[test]
fn portage_cleanup_waits_for_a_running_emerge() {
    let building = |op: &Op| match op {
        Op::EmergeRunning => Reply::Flag(true),
        other => gentoo_build_tree(other),
    };
    let r = drive(pkg_cache(&Distro::Gentoo, false, false, true), &building);
    assert!(!r.asked.iter().any(|op| matches!(op, Op::Run { cmd, .. } if cmd == "find")));
    assert!(r.printed.iter().any(|(k, _)| *k == LineKind::Skip));
}

#[test]
fn test_apport_report_size_ignores_subdirs() {
    let apport_only = |op: &Op| match op {
        Op::Exists(p) if p == "/var/lib/systemd/coredump" => Reply::Flag(false),
        other => busy(other),
    };
    let r = drive(coredumps(false), &apport_only);
    let measured: Vec<&Op> = r.asked.iter().filter(|op| matches!(op, Op::FlatFilesSize { .. })).collect();
    assert!(!measured.is_empty());
    for op in measured {
        match op {
            Op::FlatFilesSize { dir, suffixes } => {
                assert_eq!(dir, "/var/crash");
                assert_eq!(suffixes, &vec![".crash".to_string(), ".uploaded".to_string()]);
            }
            _ => unreachable!(),
        }
    }
    let find = r.asked.iter().find_map(|op| match op {
        Op::Run { cmd, args, .. } if cmd == "find" => Some(args.clone()),
        _ => None,
    });
    assert_eq!(
        find.unwrap(),
        vec!["/var/crash", "-maxdepth", "1", "-type", "f", "(", "-name", "*.crash", "-o", "-name", "*.uploaded", ")", "-delete"]
    );
}
