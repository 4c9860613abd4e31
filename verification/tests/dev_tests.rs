use oxiclean::dev::{
    clear_except, cleanable_size, dev_tools, run, scan_all, total_size, DevCache, DevRun, Loc,
};
use oxiclean::plan::{Next, Op, Reply};

/// Drive a dev-cache run to its end, answering each request with `answer`.
/// Returns the run, the requests it made and the freed bytes.
fn drive(mut m: DevRun, answer: impl Fn(&Op) -> Reply) -> (DevRun, Vec<Op>, u64) {
    let mut reply = Reply::Start;
    let mut asked = Vec::new();
    for _ in 0..10_000 {
        let st = m.step(&reply);
        match st.next {
            Next::Ask(op) => {
                reply = answer(&op);
                asked.push(op);
            }
            Next::Done(n) => return (m, asked, n),
        }
    }
    panic!("the run did not finish");
}

/// A system whose home is `home`, where nothing exists and no tool is installed.
fn bare_home(home: &'static str) -> impl Fn(&Op) -> Reply {
    move |op: &Op| match op {
        Op::Env(v) if v == "HOME" => Reply::Text(Some(home.to_string())),
        Op::Env(_) | Op::Capture { .. } | Op::ReadFile(_) => Reply::Text(None),
        Op::ListDir(_) => Reply::Names(Vec::new()),
        Op::DirSize(_) | Op::RmContents(_) | Op::EntrySize(_) | Op::FlatFilesSize { .. } => Reply::Size(0),
        _ => Reply::Flag(false),
    }
}

fn home_suffix(name: &str) -> Option<&'static str> {
    dev_tools().into_iter().find_map(|t| match t.loc {
        Loc::Home(s) if t.name == name => Some(s),
        _ => None,
    })
}

#[test]
fn test_scan_simple_skips_missing_dir() {
    let (m, _, freed) = drive(scan_all(), bare_home("/tmp/oxiclean_definitely_not_exists_xyz"));
    assert!(m.found.is_empty(), "missing directory must be reported as None");
    assert_eq!(freed, 0);
}

#[test]
fn test_scan_simple_reports_size() {
    let answer = |op: &Op| match op {
        Op::Exists(p) if p == "/home/u/.npm/_cacache" => Reply::Flag(true),
        Op::DirSize(p) if p == "/home/u/.npm/_cacache" => Reply::Size(11),
        other => bare_home("/home/u")(other),
    };
    let (m, asked, _) = drive(scan_all(), answer);
    assert_eq!(m.found.len(), 1);
    assert_eq!(m.found[0].name, "npm");
    assert_eq!(m.found[0].size, 11);
    assert!(!m.found[0].needs_redownload);
    assert!(!asked.iter().any(|op| matches!(op, Op::RmContents(_) | Op::Run { .. } | Op::Remove(_))));
}

#[test]
fn test_scan_simple_skips_empty_dir() {
    let answer = |op: &Op| match op {
        Op::Exists(p) if p == "/home/u/.npm/_cacache" => Reply::Flag(true),
        other => bare_home("/home/u")(other),
    };
    let (m, _, _) = drive(scan_all(), answer);
    assert!(m.found.is_empty(), "0-byte directory must be reported as None");
}

#[test]
fn dry_run_touches_nothing() {
    let answer = |op: &Op| match op {
        Op::Exists(p) if p == "/home/u/.npm/_cacache" => Reply::Flag(true),
        Op::DirSize(p) if p == "/home/u/.npm/_cacache" => Reply::Size(4096),
        other => bare_home("/home/u")(other),
    };
    let (_, asked, freed) = drive(run(false, true, true), answer);
    assert_eq!(freed, 0);
    assert!(!asked.iter().any(|op| matches!(op, Op::RmContents(_) | Op::Run { .. } | Op::Remove(_))));
}

#[test]
fn a_real_run_empties_a_safe_cache() {
    let answer = |op: &Op| match op {
        Op::Exists(p) if p == "/home/u/.npm/_cacache" => Reply::Flag(true),
        Op::DirSize(p) if p == "/home/u/.npm/_cacache" => Reply::Size(4096),
        Op::RmContents(p) if p == "/home/u/.npm/_cacache" => Reply::Size(4096),
        other => bare_home("/home/u")(other),
    };
    let (_, asked, freed) = drive(run(false, false, true), answer);
    assert_eq!(freed, 4096);
    assert!(asked.iter().any(|op| matches!(op, Op::RmContents(p) if p == "/home/u/.npm/_cacache")));
    assert!(!asked.iter().any(|op| matches!(op, Op::Confirm(_))));
}

#[test]
fn test_cleanable_size_skips_redownload_without_deep() {
    let caches = vec![
        DevCache { name: "safe", size: 100, needs_redownload: false, note: "" },
        DevCache { name: "redl", size: 1000, needs_redownload: true, note: "" },
    ];
    assert_eq!(cleanable_size(&caches, false), 100);
    assert_eq!(cleanable_size(&caches, true), 1100);
    assert_eq!(total_size(&caches), 1100);
}

#[test]
fn sizes_saturate_instead_of_wrapping() {
    let caches = vec![
        DevCache { name: "a", size: u64::MAX, needs_redownload: false, note: "" },
        DevCache { name: "b", size: 5, needs_redownload: false, note: "" },
    ];
    assert_eq!(total_size(&caches), u64::MAX);
    assert_eq!(cleanable_size(&caches, false), u64::MAX);
}

#[test]
fn test_cargo_entries_never_target_bin_directory() {
    let cargo: Vec<&str> = dev_tools()
        .into_iter()
        .filter_map(|t| match t.loc {
            Loc::Home(s) if s.starts_with(".cargo") => Some(s),
            _ => None,
        })
        .collect();
    assert_eq!(
        cargo,
        vec![".cargo/registry/src", ".cargo/git/checkouts", ".cargo/registry/cache", ".cargo/git/db"]
    );
    for s in cargo {
        assert!(
            !s.ends_with("/bin") && !s.contains("/bin/"),
            "cargo cleanup target {s:?} must not reach into ~/.cargo/bin"
        );
    }
}

#[test]
fn test_poetry_target_is_cache_not_virtualenvs() {
    let s = home_suffix("poetry").unwrap();
    assert!(s.ends_with(".cache/pypoetry/cache"));
    assert!(!s.contains("virtualenvs"));
}

#[test]
fn test_gradle_target_is_caches_not_wrapper() {
    let s = home_suffix("gradle").unwrap();
    assert!(s.ends_with(".gradle/caches"));
    assert!(!s.contains("wrapper"));
}

#[test]
fn test_npm_target_is_cacache_not_globals() {
    let s = home_suffix("npm").unwrap();
    assert!(s.ends_with("_cacache"));
    assert!(!s.contains("node_modules"));
}

#[test]
fn test_clean_dir_contents_except_preserves_listed() {
    let mut m = clear_except("/tmp/oxiclean_dev_except", &["bin"]);
    let mut reply = Reply::Start;
    let mut asked: Vec<Op> = Vec::new();
    let freed = loop {
        let st = m.step(&reply);
        match st.next {
            Next::Ask(op) => {
                reply = match &op {
                    Op::IsDir(_) => Reply::Flag(true),
                    Op::ListDir(_) => Reply::Names(vec!["bin".into(), "registry".into()]),
                    Op::EntrySize(_) => Reply::Size(5),
                    Op::Remove(_) => Reply::Flag(true),
                    _ => Reply::Flag(false),
                };
                asked.push(op);
            }
            Next::Done(n) => break n,
        }
    };
    assert!(freed >= 5);
    assert!(
        !asked.iter().any(|op| matches!(op, Op::Remove(p) | Op::EntrySize(p) if p.ends_with("/bin"))),
        "bin must survive"
    );
    assert!(
        asked.iter().any(|op| matches!(op, Op::Remove(p) if p == "/tmp/oxiclean_dev_except/registry")),
        "registry must be gone"
    );
}

#[test]
fn clearing_a_missing_directory_frees_nothing() {
    let mut m = clear_except("/nonexistent", &[]);
    let st = m.step(&Reply::Start);
    assert!(matches!(st.next, Next::Ask(Op::IsDir(_))));
    let st = m.step(&Reply::Flag(false));
    assert!(matches!(st.next, Next::Done(0)));
}

/// npm (safe, 4096 bytes) and Maven (re-download, 1000 bytes) are present.
fn npm_and_maven(op: &Op) -> Reply {
    match op {
        Op::Exists(p) if p == "/home/u/.npm/_cacache" || p == "/home/u/.m2/repository" => Reply::Flag(true),
        Op::DirSize(p) if p == "/home/u/.npm/_cacache" => Reply::Size(4096),
        Op::DirSize(p) if p == "/home/u/.m2/repository" => Reply::Size(1000),
        Op::RmContents(p) if p == "/home/u/.npm/_cacache" => Reply::Size(4096),
        Op::RmContents(p) if p == "/home/u/.m2/repository" => Reply::Size(1000),
        other => bare_home("/home/u")(other),
    }
}

#[test]
fn without_deep_a_redownload_cache_is_left_alone() {
    let (m, asked, freed) = drive(run(false, false, false), npm_and_maven);
    assert_eq!(m.found.len(), 2);
    assert_eq!(freed, 4096);
    assert!(asked.iter().any(|op| matches!(op, Op::RmContents(p) if p == "/home/u/.npm/_cacache")));
    assert!(!asked.iter().any(|op| matches!(op, Op::RmContents(p) if p == "/home/u/.m2/repository")));
    assert!(!asked.iter().any(|op| matches!(op, Op::Confirm(_))));
}

#[test]
fn declining_the_deep_prompt_touches_nothing() {
    let (_, asked, freed) = drive(run(true, false, false), npm_and_maven);
    assert_eq!(freed, 0);
    assert!(asked.iter().any(|op| matches!(op, Op::Confirm(_))));
    assert!(!asked.iter().any(|op| matches!(op, Op::RmContents(_) | Op::Run { .. } | Op::Remove(_))));
}

#[test]
fn a_deep_run_totals_every_cache_it_cleans() {
    let accept = |op: &Op| match op {
        Op::Confirm(_) => Reply::Flag(true),
        other => npm_and_maven(other),
    };
    let (_, asked, freed) = drive(run(true, false, false), accept);
    assert_eq!(freed, 5096);
    assert!(asked.iter().any(|op| matches!(op, Op::RmContents(p) if p == "/home/u/.m2/repository")));
    let (_, asked, freed) = drive(run(true, false, true), npm_and_maven);
    assert_eq!(freed, 5096);
    assert!(!asked.iter().any(|op| matches!(op, Op::Confirm(_))));
}
