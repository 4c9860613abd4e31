//! Sandboxed application formats: Flatpak and Snap.
use vstd::prelude::*;
use crate::clean::{fmt, sat_add};
use crate::packages::{dec_string, sub0};
use crate::parse::{cap_u64, nonblank_count, pair_views, ref_count, snap_disabled, snap_disabled_spec};
use crate::plan::{
    ask, ask_step, cat, cmd, done, done_step, flag_of, flag_reply, l1, l2, line1, line1s, line2,
    line_views, no_lines, ok_l, ok_line, one_line, push_line, size_of, size_reply, text_of,
    text_or_empty, text_reply, two_lines, Line, LineV, Op, OpV, Reply, ReplyV, Step, StepV, Style,
};
use crate::text::{lines, path_join, path_join_exec};
use crate::utils::{dec, format_size, LineKind};

verus! {

// ═══════════════════════════ Flatpak ═══════════════════════════

#[derive(Debug, Clone, Copy, PartialEq, Eq, Structural)]
pub enum FlatpakStage {
    Begin,
    Before,
    UserUninstall,
    SysUninstall,
    After,
    Repair,
    Home,
    TmpExists,
    TmpSize,
    TmpRm,
    VarTmp,
    SysTmp,
    SysFind,
    Finished,
}

/// Remove unused Flatpak runtimes (both installations) and leftover
/// download caches; `--deep` also repairs the installation.
pub struct Flatpak {
    pub deep: bool,
    pub dry_run: bool,
    pub stage: FlatpakStage,
    pub before: u64,
    pub tmp: String,
    pub freed: u64,
}

#[verifier::ext_equal]
pub struct FlatpakV {
    pub deep: bool,
    pub dry_run: bool,
    pub stage: FlatpakStage,
    pub before: u64,
    pub tmp: Seq<char>,
    pub freed: u64,
}

impl View for Flatpak {
    type V = FlatpakV;

    open spec fn view(&self) -> FlatpakV {
        FlatpakV {
            deep: self.deep,
            dry_run: self.dry_run,
            stage: self.stage,
            before: self.before,
            tmp: self.tmp@,
            freed: self.freed,
        }
    }
}

pub open spec fn fst(s: FlatpakV, stage: FlatpakStage) -> FlatpakV {
    FlatpakV { stage, ..s }
}

/// Installed refs in a `flatpak list --columns=ref` reply; none when the
/// listing failed.
pub open spec fn refs_of(r: ReplyV) -> u64 {
    match text_of(r) {
        Some(t) => cap_u64(nonblank_count(lines(t))),
        None => 0,
    }
}

pub open spec fn list_refs() -> OpV {
    OpV::Capture { cmd: "flatpak"@, args: seq!["list"@, "--columns=ref"@], trusted: true }
}

pub open spec fn fp_home(s: FlatpakV, pre: Seq<LineV>) -> (FlatpakV, StepV) {
    (fst(s, FlatpakStage::Home), ask(pre, OpV::Env("HOME"@)))
}

pub open spec fn fp_sweep(s: FlatpakV) -> (FlatpakV, StepV) {
    (
        fst(s, FlatpakStage::VarTmp),
        ask(
            seq![],
            cmd(
                "find",
                seq!["/var/tmp", "-name", "flatpak-cache-*", "-exec", "rm", "-rf", "{}", "+"],
                true,
                true,
            ),
        ),
    )
}

pub open spec fn fp_report(s: FlatpakV) -> (FlatpakV, StepV) {
    (
        fst(s, FlatpakStage::Finished),
        done(
            if s.freed > 0 {
                seq![l2(LineKind::Success, "Freed "@, fmt(s.freed), Style::Green)]
            } else {
                seq![]
            },
            s.freed,
        ),
    )
}

/// One transition of the Flatpak cleanup.
pub open spec fn flatpak_next(s: FlatpakV, r: ReplyV) -> (FlatpakV, StepV) {
    let ok = flag_of(r);
    match s.stage {
        FlatpakStage::Begin => {
            let head = l1(LineKind::Section, "Flatpak"@);
            if s.dry_run {
                let a = l1(LineKind::Info, "[DRY RUN] Would clean Flatpak unused runtimes & cache"@);
                (
                    fst(s, FlatpakStage::Finished),
                    done(
                        if s.deep {
                            seq![head, a, l1(LineKind::Info, "[DRY RUN] Would also repair Flatpak installation"@)]
                        } else {
                            seq![head, a]
                        },
                        0,
                    ),
                )
            } else {
                (fst(s, FlatpakStage::Before), ask(seq![head], list_refs()))
            }
        },
        FlatpakStage::Before => (
            FlatpakV { stage: FlatpakStage::UserUninstall, before: refs_of(r), ..s },
            ask(seq![], cmd("flatpak", seq!["uninstall", "--unused", "-y"], false, true)),
        ),
        FlatpakStage::UserUninstall => (
            fst(s, FlatpakStage::SysUninstall),
            ask(seq![], cmd("flatpak", seq!["uninstall", "--unused", "-y"], true, true)),
        ),
        FlatpakStage::SysUninstall => (fst(s, FlatpakStage::After), ask(seq![], list_refs())),
        FlatpakStage::After => {
            let n = sub0(s.before, refs_of(r));
            let l = if n == 0 {
                l1(LineKind::Success, "No unused runtimes"@)
            } else {
                l1(LineKind::Success, "Removed "@ + dec(n as nat) + " unused runtime(s)"@)
            };
            if s.deep {
                (fst(s, FlatpakStage::Repair), ask(seq![l], cmd("flatpak", seq!["repair"], true, true)))
            } else {
                fp_home(s, seq![l])
            }
        },
        FlatpakStage::Repair => fp_home(
            s,
            seq![ok_l(ok, "Flatpak installation repaired"@, "Flatpak repair failed"@)],
        ),
        FlatpakStage::Home => match text_of(r) {
            Some(h) => {
                let p = path_join(h, ".local/share/flatpak/repo/tmp"@);
                (FlatpakV { stage: FlatpakStage::TmpExists, tmp: p, ..s }, ask(seq![], OpV::Exists(p)))
            },
            None => fp_sweep(s),
        },
        FlatpakStage::TmpExists => if ok {
            (fst(s, FlatpakStage::TmpSize), ask(seq![], OpV::DirSize(s.tmp)))
        } else {
            fp_sweep(s)
        },
        FlatpakStage::TmpSize => if size_of(r) > 0 {
            (fst(s, FlatpakStage::TmpRm), ask(seq![], OpV::RmContents(s.tmp)))
        } else {
            fp_sweep(s)
        },
        FlatpakStage::TmpRm => fp_sweep(FlatpakV { freed: sat_add(s.freed, size_of(r)), ..s }),
        FlatpakStage::VarTmp => (fst(s, FlatpakStage::SysTmp), ask(seq![], OpV::Exists("/var/lib/flatpak/repo/tmp"@))),
        FlatpakStage::SysTmp => if ok {
            (
                fst(s, FlatpakStage::SysFind),
                ask(seq![], cmd("find", seq!["/var/lib/flatpak/repo/tmp", "-mindepth", "1", "-delete"], true, true)),
            )
        } else {
            fp_report(s)
        },
        FlatpakStage::SysFind => fp_report(s),
        FlatpakStage::Finished => (s, done(seq![], s.freed)),
    }
}

/// Start the Flatpak cleanup.
pub fn flatpak(deep: bool, dry_run: bool) -> (m: Flatpak)
    ensures
        m@ == (FlatpakV { deep, dry_run, stage: FlatpakStage::Begin, before: 0, tmp: seq![], freed: 0 }),
{
    let m = Flatpak { deep, dry_run, stage: FlatpakStage::Begin, before: 0, tmp: String::new(), freed: 0 };
    assert(m@.tmp =~= seq![]);
    m
}

fn refs_reply(r: &Reply) -> (n: u64)
    ensures
        n == refs_of(r@),
{
    match r {
        Reply::Text(Some(t)) => ref_count(t.as_str()),
        _ => 0,
    }
}

impl Flatpak {
    fn home(&mut self, pre: Vec<Line>) -> (st: Step)
        ensures
            (final(self)@, st@) == fp_home(old(self)@, line_views(pre@)),
    {
        self.stage = FlatpakStage::Home;
        ask_step(pre, Op::Env(String::from_str("HOME")))
    }

    fn sweep(&mut self) -> (st: Step)
        ensures
            (final(self)@, st@) == fp_sweep(old(self)@),
    {
        self.stage = FlatpakStage::VarTmp;
        let args = ["/var/tmp", "-name", "flatpak-cache-*", "-exec", "rm", "-rf", "{}", "+"];
        assert(args@ =~= seq!["/var/tmp", "-name", "flatpak-cache-*", "-exec", "rm", "-rf", "{}", "+"]);
        ask_step(no_lines(), crate::plan::run_op("find", &args, true, true))
    }

    fn report(&mut self) -> (st: Step)
        ensures
            (final(self)@, st@) == fp_report(old(self)@),
    {
        self.stage = FlatpakStage::Finished;
        let lines = if self.freed > 0 {
            one_line(line2(LineKind::Success, "Freed ", format_size(self.freed), Style::Green))
        } else {
            no_lines()
        };
        done_step(lines, self.freed)
    }

    /// Feed the answer to the previous request; get the next step.
    pub fn step(&mut self, r: &Reply) -> (st: Step)
        ensures
            (final(self)@, st@) == flatpak_next(old(self)@, r@),
    {
        let ok = flag_reply(r);
        match self.stage {
            FlatpakStage::Begin => {
                let head = line1(LineKind::Section, "Flatpak");
                if self.dry_run {
                    self.stage = FlatpakStage::Finished;
                    let mut v = two_lines(
                        head,
                        line1(LineKind::Info, "[DRY RUN] Would clean Flatpak unused runtimes & cache"),
                    );
                    if self.deep {
                        push_line(&mut v, line1(LineKind::Info, "[DRY RUN] Would also repair Flatpak installation"));
                    }
                    done_step(v, 0)
                } else {
                    self.stage = FlatpakStage::Before;
                    ask_step(one_line(head), crate::plan::capture2("flatpak", "list", "--columns=ref", true))
                }
            },
            FlatpakStage::Before => {
                self.before = refs_reply(r);
                self.stage = FlatpakStage::UserUninstall;
                ask_step(no_lines(), crate::plan::run3("flatpak", "uninstall", "--unused", "-y", false, true))
            },
            FlatpakStage::UserUninstall => {
                self.stage = FlatpakStage::SysUninstall;
                ask_step(no_lines(), crate::plan::run3("flatpak", "uninstall", "--unused", "-y", true, true))
            },
            FlatpakStage::SysUninstall => {
                self.stage = FlatpakStage::After;
                ask_step(no_lines(), crate::plan::capture2("flatpak", "list", "--columns=ref", true))
            },
            FlatpakStage::After => {
                let now = refs_reply(r);
                let n: u64 = if self.before >= now {
                    self.before - now
                } else {
                    0
                };
                let l = if n == 0 {
                    line1(LineKind::Success, "No unused runtimes")
                } else {
                    let t = cat("Removed ", dec_string(n).as_str()).concat(" unused runtime(s)");
                    line1s(LineKind::Success, t)
                };
                if self.deep {
                    self.stage = FlatpakStage::Repair;
                    ask_step(one_line(l), crate::plan::run1("flatpak", "repair", true, true))
                } else {
                    self.home(one_line(l))
                }
            },
            FlatpakStage::Repair => self.home(
                one_line(ok_line(ok, "Flatpak installation repaired", "Flatpak repair failed")),
            ),
            FlatpakStage::Home => match r {
                Reply::Text(Some(h)) => {
                    let p = path_join_exec(h.as_str(), ".local/share/flatpak/repo/tmp");
                    let op = Op::Exists(p.clone());
                    self.tmp = p;
                    self.stage = FlatpakStage::TmpExists;
                    ask_step(no_lines(), op)
                },
                _ => self.sweep(),
            },
            FlatpakStage::TmpExists => {
                if ok {
                    self.stage = FlatpakStage::TmpSize;
                    ask_step(no_lines(), Op::DirSize(self.tmp.clone()))
                } else {
                    self.sweep()
                }
            },
            FlatpakStage::TmpSize => {
                if size_reply(r) > 0 {
                    self.stage = FlatpakStage::TmpRm;
                    ask_step(no_lines(), Op::RmContents(self.tmp.clone()))
                } else {
                    self.sweep()
                }
            },
            FlatpakStage::TmpRm => {
                self.freed = self.freed.saturating_add(size_reply(r));
                self.sweep()
            },
            FlatpakStage::VarTmp => {
                self.stage = FlatpakStage::SysTmp;
                ask_step(no_lines(), Op::Exists(String::from_str("/var/lib/flatpak/repo/tmp")))
            },
            FlatpakStage::SysTmp => {
                if ok {
                    self.stage = FlatpakStage::SysFind;
                    ask_step(
                        no_lines(),
                        crate::plan::run4("find", "/var/lib/flatpak/repo/tmp", "-mindepth", "1", "-delete", true, true),
                    )
                } else {
                    self.report()
                }
            },
            FlatpakStage::SysFind => self.report(),
            FlatpakStage::Finished => done_step(no_lines(), self.freed),
        }
    }
}

// ═══════════════════════════ Snap ═══════════════════════════

#[derive(Debug, Clone, Copy, PartialEq, Eq, Structural)]
pub enum SnapStage {
    Begin,
    List,
    Remove(usize),
    CacheExists,
    CacheSize,
    CacheFind,
    Finished,
}

/// Remove disabled snap revisions and snapd's download cache.
pub struct Snap {
    pub dry_run: bool,
    pub stage: SnapStage,
    pub disabled: Vec<(String, String)>,
    pub size: u64,
}

#[verifier::ext_equal]
pub struct SnapV {
    pub dry_run: bool,
    pub stage: SnapStage,
    pub disabled: Seq<(Seq<char>, Seq<char>)>,
    pub size: u64,
}

impl View for Snap {
    type V = SnapV;

    open spec fn view(&self) -> SnapV {
        SnapV { dry_run: self.dry_run, stage: self.stage, disabled: pair_views(self.disabled@), size: self.size }
    }
}

pub open spec fn sst(s: SnapV, stage: SnapStage) -> SnapV {
    SnapV { stage, ..s }
}

/// Announce and remove disabled revision `i`.
pub open spec fn snap_remove(s: SnapV, pre: Seq<LineV>, i: int) -> (SnapV, StepV) {
    let (name, rev) = s.disabled[i];
    (
        sst(s, SnapStage::Remove(i as usize)),
        ask(
            pre.push(l1(LineKind::Info, "Removing "@ + name + " (rev "@ + rev + ")..."@)),
            OpV::Run {
                cmd: "snap"@,
                args: seq!["remove"@, name, "--revision"@, rev],
                elevated: true,
                quiet: true,
            },
        ),
    )
}

pub open spec fn snap_cache(s: SnapV, pre: Seq<LineV>) -> (SnapV, StepV) {
    (sst(s, SnapStage::CacheExists), ask(pre, OpV::Exists("/var/lib/snapd/cache"@)))
}

/// One transition of the Snap cleanup.
pub open spec fn snap_next(s: SnapV, r: ReplyV) -> (SnapV, StepV) {
    let ok = flag_of(r);
    match s.stage {
        SnapStage::Begin => {
            let head = l1(LineKind::Section, "Snap"@);
            if s.dry_run {
                (
                    sst(s, SnapStage::Finished),
                    done(
                        seq![head, l1(LineKind::Info, "[DRY RUN] Would remove disabled snap revisions & cache"@)],
                        0,
                    ),
                )
            } else {
                (
                    sst(s, SnapStage::List),
                    ask(seq![head], OpV::Capture { cmd: "snap"@, args: seq!["list"@, "--all"@], trusted: true }),
                )
            }
        },
        SnapStage::List => {
            let d = snap_disabled_spec(lines(text_or_empty(r)));
            let s2 = SnapV { disabled: d, ..s };
            if d.len() == 0 {
                snap_cache(s2, seq![l1(LineKind::Info, "No disabled snap revisions found"@)])
            } else {
                snap_remove(
                    s2,
                    seq![l1(LineKind::Info, "Found "@ + dec(d.len()) + " disabled revision(s)"@)],
                    0,
                )
            }
        },
        SnapStage::Remove(i) => if i < s.disabled.len() {
            let (name, rev) = s.disabled[i as int];
            let l = if ok {
                l1(LineKind::Success, "Removed "@ + name + " rev "@ + rev)
            } else {
                l1(LineKind::Error, "Failed to remove "@ + name + " rev "@ + rev)
            };
            if i + 1 < s.disabled.len() {
                snap_remove(s, seq![l], i + 1)
            } else {
                snap_cache(s, seq![l])
            }
        } else {
            snap_cache(s, seq![])
        },
        SnapStage::CacheExists => if ok {
            (sst(s, SnapStage::CacheSize), ask(seq![], OpV::DirSize("/var/lib/snapd/cache"@)))
        } else {
            (sst(s, SnapStage::Finished), done(seq![], 0))
        },
        SnapStage::CacheSize => if size_of(r) > 0 {
            (
                SnapV { stage: SnapStage::CacheFind, size: size_of(r), ..s },
                ask(seq![], cmd("find", seq!["/var/lib/snapd/cache", "-type", "f", "-delete"], true, true)),
            )
        } else {
            (sst(s, SnapStage::Finished), done(seq![], 0))
        },
        SnapStage::CacheFind => (
            sst(s, SnapStage::Finished),
            done(seq![l2(LineKind::Success, "Freed "@, fmt(s.size), Style::Green)], s.size),
        ),
        SnapStage::Finished => (s, done(seq![], 0)),
    }
}

/// Start the Snap cleanup.
pub fn snap(dry_run: bool) -> (m: Snap)
    ensures
        m@ == (SnapV { dry_run, stage: SnapStage::Begin, disabled: seq![], size: 0 }),
{
    let m = Snap { dry_run, stage: SnapStage::Begin, disabled: Vec::new(), size: 0 };
    assert(m@.disabled =~= seq![]);
    m
}

impl Snap {
    fn remove(&mut self, pre: Vec<Line>, i: usize) -> (st: Step)
        requires
            i < old(self).disabled@.len(),
        ensures
            (final(self)@, st@) == snap_remove(old(self)@, line_views(pre@), i as int),
    {
        let name = self.disabled[i].0.clone();
        let rev = self.disabled[i].1.clone();
        proof {
            assert(self@.disabled[i as int] == (name@, rev@));
        }
        let t = cat("Removing ", name.as_str()).concat(" (rev ").concat(rev.as_str()).concat(")...");
        let mut pre = pre;
        push_line(&mut pre, line1s(LineKind::Info, t));
        let mut args: Vec<String> = Vec::new();
        args.push(String::from_str("remove"));
        args.push(name);
        args.push(String::from_str("--revision"));
        args.push(rev);
        assert(crate::text::views(args@) =~= seq!["remove"@, self@.disabled[i as int].0, "--revision"@, self@.disabled[i as int].1]);
        self.stage = SnapStage::Remove(i);
        ask_step(pre, Op::Run { cmd: String::from_str("snap"), args, elevated: true, quiet: true })
    }

    fn cache(&mut self, pre: Vec<Line>) -> (st: Step)
        ensures
            (final(self)@, st@) == snap_cache(old(self)@, line_views(pre@)),
    {
        self.stage = SnapStage::CacheExists;
        ask_step(pre, Op::Exists(String::from_str("/var/lib/snapd/cache")))
    }

    /// Feed the answer to the previous request; get the next step.
    pub fn step(&mut self, r: &Reply) -> (st: Step)
        ensures
            (final(self)@, st@) == snap_next(old(self)@, r@),
    {
        let ok = flag_reply(r);
        match self.stage {
            SnapStage::Begin => {
                let head = line1(LineKind::Section, "Snap");
                if self.dry_run {
                    self.stage = SnapStage::Finished;
                    done_step(
                        two_lines(head, line1(LineKind::Info, "[DRY RUN] Would remove disabled snap revisions & cache")),
                        0,
                    )
                } else {
                    self.stage = SnapStage::List;
                    ask_step(one_line(head), crate::plan::capture2("snap", "list", "--all", true))
                }
            },
            SnapStage::List => {
                let d = snap_disabled(text_reply(r));
                let n = d.len();
                self.disabled = d;
                if n == 0 {
                    self.cache(one_line(line1(LineKind::Info, "No disabled snap revisions found")))
                } else {
                    let t = cat("Found ", dec_string(n as u64).as_str()).concat(" disabled revision(s)");
                    self.remove(one_line(line1s(LineKind::Info, t)), 0)
                }
            },
            SnapStage::Remove(i) => {
                if i < self.disabled.len() {
                    let name = self.disabled[i].0.as_str();
                    let rev = self.disabled[i].1.as_str();
                    proof {
                        assert(self@.disabled[i as int] == (name@, rev@));
                    }
                    let l = if ok {
                        line1s(LineKind::Success, cat("Removed ", name).concat(" rev ").concat(rev))
                    } else {
                        line1s(LineKind::Error, cat("Failed to remove ", name).concat(" rev ").concat(rev))
                    };
                    if i + 1 < self.disabled.len() {
                        self.remove(one_line(l), i + 1)
                    } else {
                        self.cache(one_line(l))
                    }
                } else {
                    self.cache(no_lines())
                }
            },
            SnapStage::CacheExists => {
                if ok {
                    self.stage = SnapStage::CacheSize;
                    ask_step(no_lines(), Op::DirSize(String::from_str("/var/lib/snapd/cache")))
                } else {
                    self.stage = SnapStage::Finished;
                    done_step(no_lines(), 0)
                }
            },
            SnapStage::CacheSize => {
                let size = size_reply(r);
                if size > 0 {
                    self.size = size;
                    self.stage = SnapStage::CacheFind;
                    ask_step(
                        no_lines(),
                        crate::plan::run4("find", "/var/lib/snapd/cache", "-type", "f", "-delete", true, true),
                    )
                } else {
                    self.stage = SnapStage::Finished;
                    done_step(no_lines(), 0)
                }
            },
            SnapStage::CacheFind => {
                self.stage = SnapStage::Finished;
                done_step(one_line(line2(LineKind::Success, "Freed ", format_size(self.size), Style::Green)), self.size)
            },
            SnapStage::Finished => done_step(no_lines(), 0),
        }
    }
}

} // verus!
