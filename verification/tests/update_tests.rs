use oxiclean::plan::{Next, Op, Reply};
use oxiclean::update::{
    self_update, SelfUpdate, asset_arch, install_script, is_elf_header, is_newer, libc_of, managed_by, owner_probes,
    owner_verdict, ownership_of, parse_version, shell_quote, Ownership,
};

#[test]
fn test_parse_version() {
    assert_eq!(parse_version("1.4.2"), Some((1, 4, 2)));
    assert_eq!(parse_version("v1.4.2"), Some((1, 4, 2)));
    assert_eq!(parse_version(" 1.4.2 "), Some((1, 4, 2)));
    assert_eq!(parse_version("1.4"), Some((1, 4, 0)));
    assert_eq!(parse_version("2.0.0"), Some((2, 0, 0)));
    assert_eq!(parse_version("garbage"), None);
    assert_eq!(parse_version(""), None);
}

#[test]
fn parse_version_rejects_trailing_garbage_parts() {
    assert_eq!(parse_version("1.x.2"), None);
    assert_eq!(parse_version("1.2.3.4"), Some((1, 2, 3)));
}

#[test]
fn test_is_newer() {
    assert!(is_newer("1.4.1", "1.4.2"));
    assert!(is_newer("1.4.2", "1.5.0"));
    assert!(is_newer("1.9.9", "2.0.0"));
    assert!(!is_newer("1.4.2", "1.4.2"));
    assert!(!is_newer("1.4.2", "1.4.1"));
    assert!(!is_newer("2.0.0", "1.9.9"));
    assert!(!is_newer("1.4.2", "garbage"));
}

#[test]
fn test_asset_arch_is_supported_on_this_host() {
    for host in ["x86_64", "aarch64"] {
        assert!(asset_arch(host).is_some());
    }
}

#[test]
fn asset_arch_maps_the_published_targets_only() {
    assert_eq!(asset_arch("x86_64"), Some("x86_64"));
    assert_eq!(asset_arch("aarch64"), Some("aarch64"));
    assert_eq!(asset_arch("riscv64"), None);
}

#[test]
fn test_detect_libc_is_stable() {
    let names = vec!["libc.so.6".to_string(), "ld-linux-x86-64.so.2".to_string()];
    let a = libc_of(&names);
    assert!(a == "musl" || a == "gnu");
    assert_eq!(a, libc_of(&names));
}

#[test]
fn libc_is_musl_when_a_musl_loader_is_present() {
    assert_eq!(libc_of(&["ld-musl-x86_64.so.1".to_string()]), "musl");
    assert_eq!(libc_of(&["libc.musl-aarch64.so.1".to_string()]), "musl");
    assert_eq!(libc_of(&[]), "gnu");
}

#[test]
fn test_is_elf() {
    assert!(is_elf_header(&[0x7f, b'E', b'L', b'F', 0, 0]));
    assert!(!is_elf_header(b"#!/bin/sh\n"));
    assert!(!is_elf_header(&[0x7f, b'E', b'L']));
}

#[test]
fn test_shell_quote_escapes() {
    assert_eq!(shell_quote("/usr/local/bin/x"), "'/usr/local/bin/x'");
    assert_eq!(shell_quote("a'b"), "'a'\\''b'");
}

#[test]
fn install_script_moves_the_verified_binary_into_place() {
    let s = install_script("/tmp/new", "/usr/bin/.oxiclean.tmp", "/usr/bin/oxiclean");
    assert!(s.contains("'/tmp/new'"));
    assert!(s.contains("'/usr/bin/oxiclean'"));
}

#[test]
fn test_query_owner_absent_tool() {
    assert!(matches!(ownership_of(false, None), Ownership::Absent));
}

#[test]
fn test_query_owner_clean_not_owned() {
    assert!(matches!(ownership_of(true, Some(1)), Ownership::NotOwned));
}

#[test]
fn test_query_owner_unexpected_exit_is_errored() {
    assert!(matches!(ownership_of(true, Some(2)), Ownership::Errored));
    assert!(matches!(ownership_of(true, None), Ownership::Errored));
}

#[test]
fn query_owner_success_means_owned() {
    assert!(matches!(ownership_of(true, Some(0)), Ownership::Owned));
}

#[test]
fn managed_by_fails_closed_and_names_the_update_command() {
    let probes = owner_probes();
    assert_eq!(managed_by(&probes, &[Ownership::Absent, Ownership::NotOwned]), None);
    assert_eq!(
        managed_by(&probes, &[Ownership::NotOwned, Ownership::Owned]),
        Some("sudo apt update && sudo apt install --only-upgrade oxiclean".to_string())
    );
    let failed = managed_by(&probes, &[Ownership::Errored, Ownership::Owned]).unwrap();
    assert!(failed.contains("pacman query failed"));
    assert_eq!(owner_verdict(&probes[0], Ownership::Absent), None);
}


/// Drive an update run to its end; return the requests made, the printed
/// lines' texts and the exit code.
fn drive(mut m: SelfUpdate, answer: impl Fn(&Op) -> Reply) -> (Vec<Op>, Vec<String>, u64) {
    let mut reply = Reply::Start;
    let mut asked = Vec::new();
    let mut printed = Vec::new();
    for _ in 0..100 {
        let st = m.step(&reply);
        for l in &st.lines {
            printed.push(l.parts.iter().map(|p| p.text.as_str()).collect::<String>());
        }
        match st.next {
            Next::Ask(op) => {
                reply = answer(&op);
                asked.push(op);
            }
            Next::Done(code) => return (asked, printed, code),
        }
    }
    panic!("the update run did not finish");
}

/// A prebuilt, unmanaged install at /usr/local/bin where 1.9.0 is published.
fn unmanaged(op: &Op) -> Reply {
    match op {
        Op::CurrentExe => Reply::Outcome(Ok("/usr/local/bin/oxiclean".into())),
        Op::Which(_) => Reply::Flag(false),
        Op::FetchRelease => Reply::Release(Ok(("v1.9.0".into(), Some("Fixes.\nMore fixes.".into())))),
        Op::Confirm(_) => Reply::Flag(true),
        Op::HostArch => Reply::Text(Some("x86_64".into())),
        Op::ListDir(_) => Reply::Names(vec!["libc.so.6".into()]),
        Op::TempDir => Reply::Text(Some("/tmp".into())),
        Op::ProcessId => Reply::Size(42),
        Op::Download { .. } => Reply::Outcome(Ok(String::new())),
        Op::ReadHead(_) => Reply::Data(vec![0x7f, b'E', b'L', b'F']),
        Op::SetExec(_) => Reply::Flag(true),
        Op::Capture { .. } => Reply::Text(Some("oxiclean 1.9.0".into())),
        Op::DirWritable(_) => Reply::Flag(true),
        Op::Install { .. } => Reply::Outcome(Ok(String::new())),
        Op::Remove(_) => Reply::Flag(true),
        _ => Reply::Flag(false),
    }
}

#[test]
fn update_downloads_checks_and_installs() {
    let (asked, printed, code) = drive(self_update("1.8.0", false, false), unmanaged);
    assert_eq!(code, 0);
    assert!(asked.iter().any(|op| matches!(op, Op::Download { url, dest }
        if url == "https://github.com/croaky-fx/oxiclean/releases/download/v1.9.0/oxiclean-x86_64-linux-gnu"
            && dest == "/tmp/oxiclean-update.42")));
    assert!(asked.iter().any(|op| matches!(op, Op::Install { src, tmp, dst }
        if src == "/tmp/oxiclean-update.42" && tmp == "/usr/local/bin/.oxiclean.new.42"
            && dst == "/usr/local/bin/oxiclean")));
    assert!(matches!(asked.last(), Some(Op::Remove(p)) if p == "/tmp/oxiclean-update.42"));
    assert!(printed.contains(&"  Update available: 1.8.0 \u{2192} 1.9.0".to_string()));
    assert!(printed.contains(&"  More fixes.".to_string()));
    assert!(printed.contains(&"Updated 1.8.0 \u{2192} 1.9.0".to_string()));
}

#[test]
fn update_refuses_a_package_managed_binary() {
    let pacman_owns = |op: &Op| match op {
        Op::Which(t) if t == "pacman" => Reply::Flag(true),
        Op::Status { cmd, args } if cmd == "pacman" => {
            assert_eq!(args, &vec!["-Qo".to_string(), "/usr/local/bin/oxiclean".to_string()]);
            Reply::Code(Some(0))
        }
        other => unmanaged(other),
    };
    let (asked, printed, code) = drive(self_update("1.8.0", true, false), pacman_owns);
    assert_eq!(code, 0);
    assert!(!asked.iter().any(|op| matches!(op, Op::FetchRelease | Op::Download { .. } | Op::Install { .. })));
    assert!(printed.contains(&"Update it with:  paru -Syu oxiclean   (or: sudo pacman -Syu)".to_string()));
}

#[test]
fn update_fails_closed_when_a_query_errors() {
    let dpkg_fails = |op: &Op| match op {
        Op::Which(t) if t == "dpkg" => Reply::Flag(true),
        Op::Status { .. } => Reply::Code(Some(2)),
        other => unmanaged(other),
    };
    let (asked, _, code) = drive(self_update("1.8.0", true, false), dpkg_fails);
    assert_eq!(code, 0);
    assert!(!asked.iter().any(|op| matches!(op, Op::Download { .. })));
}

#[test]
fn update_on_the_latest_version_does_nothing() {
    let same = |op: &Op| match op {
        Op::FetchRelease => Reply::Release(Ok(("v1.8.0".into(), None))),
        other => unmanaged(other),
    };
    let (asked, printed, code) = drive(self_update("1.8.0", true, false), same);
    assert_eq!(code, 0);
    assert!(printed.contains(&"You're on the latest version (1.8.0)".to_string()));
    assert!(!asked.iter().any(|op| matches!(op, Op::Download { .. })));
}

#[test]
fn update_rejects_a_non_elf_download_and_removes_it() {
    let script = |op: &Op| match op {
        Op::ReadHead(_) => Reply::Data(b"#!/b".to_vec()),
        other => unmanaged(other),
    };
    let (asked, printed, code) = drive(self_update("1.8.0", true, true), script);
    assert_eq!(code, 1);
    assert!(printed.contains(&"downloaded file is not a valid Linux binary".to_string()));
    assert!(!printed.contains(&"  More fixes.".to_string()));
    assert!(matches!(asked.last(), Some(Op::Remove(_))));
    assert!(!asked.iter().any(|op| matches!(op, Op::Install { .. } | Op::Run { .. })));
}

#[test]
fn update_uses_a_privileged_swap_when_the_directory_is_not_writable() {
    let root_dir = |op: &Op| match op {
        Op::DirWritable(d) => {
            assert_eq!(d, "/usr/local/bin");
            Reply::Flag(false)
        }
        Op::Run { .. } => Reply::Flag(true),
        other => unmanaged(other),
    };
    let (asked, _, code) = drive(self_update("1.8.0", true, false), root_dir);
    assert_eq!(code, 0);
    let script = asked.iter().find_map(|op| match op {
        Op::Run { cmd, args, elevated: true, .. } if cmd == "sh" => Some(args[1].clone()),
        _ => None,
    });
    assert_eq!(
        script.unwrap(),
        "trap 'rm -f '/usr/local/bin/.oxiclean.new.42'' EXIT; cp -f '/tmp/oxiclean-update.42' \
         '/usr/local/bin/.oxiclean.new.42' && chmod 755 '/usr/local/bin/.oxiclean.new.42' && mv -f \
         '/usr/local/bin/.oxiclean.new.42' '/usr/local/bin/oxiclean'"
    );
}

#[test]
fn update_declined_is_cancelled() {
    let no = |op: &Op| match op {
        Op::Confirm(q) => {
            assert_eq!(q, "Upgrade to 1.9.0? [y/N]:");
            Reply::Flag(false)
        }
        other => unmanaged(other),
    };
    let (asked, printed, code) = drive(self_update("1.8.0", false, false), no);
    assert_eq!(code, 0);
    assert!(printed.contains(&"Update cancelled".to_string()));
    assert!(!asked.iter().any(|op| matches!(op, Op::Download { .. })));
}

#[test]
fn update_without_a_published_asset_for_this_arch() {
    let riscv = |op: &Op| match op {
        Op::HostArch => Reply::Text(Some("riscv64".into())),
        other => unmanaged(other),
    };
    let (_, printed, code) = drive(self_update("1.8.0", true, false), riscv);
    assert_eq!(code, 1);
    assert!(printed[printed.len() - 1].starts_with("no prebuilt binary for riscv64"));
}

#[test]
fn update_refuses_an_rpm_owned_binary() {
    let probes = owner_probes();
    assert_eq!(probes.len(), 3);
    assert_eq!(probes[2].tool, "rpm");
    assert_eq!(probes[2].args, &["-qf"]);
    assert_eq!(
        managed_by(&probes, &[Ownership::Absent, Ownership::Absent, Ownership::Owned]),
        Some("sudo dnf upgrade oxiclean".to_string())
    );
    let rpm_owns = |op: &Op| match op {
        Op::Which(t) if t == "rpm" => Reply::Flag(true),
        Op::Status { cmd, args } if cmd == "rpm" => {
            assert_eq!(args, &vec!["-qf".to_string(), "/usr/local/bin/oxiclean".to_string()]);
            Reply::Code(Some(0))
        }
        other => unmanaged(other),
    };
    let (asked, printed, code) = drive(self_update("1.8.0", true, false), rpm_owns);
    assert_eq!(code, 0);
    assert!(!asked.iter().any(|op| matches!(op, Op::Download { .. } | Op::Install { .. })));
    assert!(printed.contains(&"Update it with:  sudo dnf upgrade oxiclean".to_string()));
}
