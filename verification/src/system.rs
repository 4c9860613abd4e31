//! System-level maintenance: the journal, crash dumps, filesystem TRIM and
//! Nix garbage collection.
use vstd::prelude::*;
use crate::clean::{fmt, sat_add};
use crate::detect::DiskType;
use crate::packages::sub0;
use crate::parse::{nix_freed_fields, nix_freed_spec, unit_shift, unit_shift_spec, usage_candidates, usage_fields};
use crate::paths::{gate_of, should_deep, Gate};
use crate::plan::{
    ask, ask_step, bytes_of, bytes_reply, cat, cmd, done, done_step, flag_of, flag_reply, l1, l2,
    l3, line1, line1s, line2, line3, line_views, no_lines, ok_l, ok_line, one_line, push_line,
    size_of, size_reply, text_of, two_lines, Line, LineV, Op, OpV, Reply, ReplyV, Step, StepV,
    Style,
};
use crate::text::lines;
use crate::utils::{format_size, LineKind};

verus! {

// ═══════════════════════════ Journal ═══════════════════════════

/// How much journal is kept, as `journalctl --vacuum-size` takes it.
pub const JOURNAL_LIMIT: &'static str = "50M";

/// The same limit in bytes, compared against the current usage.
pub const JOURNAL_LIMIT_BYTES: u64 = 52428800;

#[derive(Debug, Clone, Copy, PartialEq, Eq, Structural)]
pub enum JournalStage {
    Begin,
    Which,
    Usage,
    Scale(usize),
    Before,
    Vacuum,
    After,
    Finished,
}

/// Vacuum the systemd journal down to [`JOURNAL_LIMIT`].
pub struct Journal {
    pub dry_run: bool,
    pub stage: JournalStage,
    pub cands: Vec<(String, String)>,
    pub usage: Option<u64>,
    pub before: u64,
}

#[verifier::ext_equal]
pub struct JournalV {
    pub dry_run: bool,
    pub stage: JournalStage,
    pub cands: Seq<(Seq<char>, Seq<char>)>,
    pub usage: Option<u64>,
    pub before: u64,
}

pub open spec fn pair_view(p: (String, String)) -> (Seq<char>, Seq<char>) {
    (p.0@, p.1@)
}

impl View for Journal {
    type V = JournalV;

    open spec fn view(&self) -> JournalV {
        JournalV {
            dry_run: self.dry_run,
            stage: self.stage,
            cands: self.cands@.map_values(|p: (String, String)| pair_view(p)),
            usage: self.usage,
            before: self.before,
        }
    }
}

pub open spec fn jst(s: JournalV, stage: JournalStage) -> JournalV {
    JournalV { stage, ..s }
}

/// Try the candidates from `i` on: the first with a known unit is converted.
pub open spec fn journal_scan(s: JournalV, i: int) -> (JournalV, StepV)
    decreases s.cands.len() - i,
{
    if 0 <= i < s.cands.len() {
        match unit_shift_spec(s.cands[i].1) {
            Some(shift) => (
                jst(s, JournalStage::Scale(i as usize)),
                ask(seq![], OpV::ToBytes { num: s.cands[i].0, shift }),
            ),
            None => journal_scan(s, i + 1),
        }
    } else {
        journal_decide(s)
    }
}

/// With the usage known (or not), skip, report the dry run, or measure.
pub open spec fn journal_decide(s: JournalV) -> (JournalV, StepV) {
    match s.usage {
        Some(b) if b <= JOURNAL_LIMIT_BYTES => (
            jst(s, JournalStage::Finished),
            done(
                seq![
                    l1(
                        LineKind::Success,
                        "Already under 50M ("@ + fmt(b) + ") — nothing to vacuum"@,
                    ),
                ],
                0,
            ),
        ),
        _ => if s.dry_run {
            (
                jst(s, JournalStage::Finished),
                done(
                    seq![
                        l1(
                            LineKind::Info,
                            match s.usage {
                                Some(b) => "[DRY RUN] Would vacuum journal to 50M (currently "@
                                    + fmt(b) + ")"@,
                                None => "[DRY RUN] Would vacuum journal to 50M"@,
                            },
                        ),
                    ],
                    0,
                ),
            )
        } else {
            (jst(s, JournalStage::Before), ask(seq![], OpV::DirSize("/var/log/journal"@)))
        },
    }
}

/// One transition of the journal vacuum.
pub open spec fn journal_next(s: JournalV, r: ReplyV) -> (JournalV, StepV) {
    match s.stage {
        JournalStage::Begin => (
            jst(s, JournalStage::Which),
            ask(seq![l1(LineKind::Section, "Journal"@)], OpV::WhichTrusted("journalctl"@)),
        ),
        JournalStage::Which => if flag_of(r) {
            (
                jst(s, JournalStage::Usage),
                ask(
                    seq![],
                    OpV::Capture { cmd: "journalctl"@, args: seq!["--disk-usage"@], trusted: true },
                ),
            )
        } else {
            (
                jst(s, JournalStage::Finished),
                done(seq![l1(LineKind::Skip, "journalctl not found — skipped"@)], 0),
            )
        },
        JournalStage::Usage => match text_of(r) {
            Some(t) => journal_scan(JournalV { cands: usage_candidates(t), usage: None, ..s }, 0),
            None => journal_decide(JournalV { cands: seq![], usage: None, ..s }),
        },
        JournalStage::Scale(i) => match bytes_of(r) {
            Some(b) => journal_decide(JournalV { usage: Some(b), ..s }),
            None => journal_scan(s, i + 1),
        },
        JournalStage::Before => (
            JournalV { stage: JournalStage::Vacuum, before: size_of(r), ..s },
            ask(seq![], cmd("journalctl", seq!["--vacuum-size=50M"], true, true)),
        ),
        JournalStage::Vacuum => if flag_of(r) {
            (jst(s, JournalStage::After), ask(seq![], OpV::DirSize("/var/log/journal"@)))
        } else {
            (
                jst(s, JournalStage::Finished),
                done(seq![l1(LineKind::Error, "Journal vacuum failed"@)], 0),
            )
        },
        JournalStage::After => {
            let freed = sub0(s.before, size_of(r));
            (
                jst(s, JournalStage::Finished),
                done(
                    seq![
                        if freed > 0 {
                            l2(LineKind::Success, "Vacuumed to 50M — freed "@, fmt(freed), Style::Green)
                        } else {
                            match s.usage {
                                Some(b) => l1(
                                    LineKind::Success,
                                    "Vacuumed to 50M (was "@ + fmt(b) + ")"@,
                                ),
                                None => l1(LineKind::Success, "Vacuumed to 50M"@),
                            }
                        },
                    ],
                    freed,
                ),
            )
        },
        JournalStage::Finished => (s, done(seq![], 0)),
    }
}

/// Start vacuuming the journal.
pub fn journal(dry_run: bool) -> (m: Journal)
    ensures
        m@ == (JournalV {
            dry_run,
            stage: JournalStage::Begin,
            cands: seq![],
            usage: None,
            before: 0,
        }),
{
    let m = Journal { dry_run, stage: JournalStage::Begin, cands: Vec::new(), usage: None, before: 0 };
    assert(m@.cands =~= seq![]);
    m
}

impl Journal {
    fn scan(&mut self, i: usize) -> (st: Step)
        ensures
            (final(self)@, st@) == journal_scan(old(self)@, i as int),
        decreases self.cands@.len() - i,
    {
        if i < self.cands.len() {
            match unit_shift(self.cands[i].1.as_str()) {
                Some(shift) => {
                    let num = self.cands[i].0.clone();
                    self.stage = JournalStage::Scale(i);
                    ask_step(no_lines(), Op::ToBytes { num, shift })
                },
                None => self.scan(i + 1),
            }
        } else {
            self.decide()
        }
    }

    fn decide(&mut self) -> (st: Step)
        ensures
            (final(self)@, st@) == journal_decide(old(self)@),
    {
        match self.usage {
            Some(b) if b <= JOURNAL_LIMIT_BYTES => {
                self.stage = JournalStage::Finished;
                let t = cat("Already under 50M (", format_size(b).as_str()).concat(
                    ") — nothing to vacuum",
                );
                done_step(one_line(line1s(LineKind::Success, t)), 0)
            },
            _ => {
                if self.dry_run {
                    self.stage = JournalStage::Finished;
                    let t = match self.usage {
                        Some(b) => cat(
                            "[DRY RUN] Would vacuum journal to 50M (currently ",
                            format_size(b).as_str(),
                        ).concat(")"),
                        None => String::from_str("[DRY RUN] Would vacuum journal to 50M"),
                    };
                    done_step(one_line(line1s(LineKind::Info, t)), 0)
                } else {
                    self.stage = JournalStage::Before;
                    ask_step(no_lines(), Op::DirSize(String::from_str("/var/log/journal")))
                }
            },
        }
    }

    /// Feed the answer to the previous request; get the next step.
    pub fn step(&mut self, r: &Reply) -> (st: Step)
        ensures
            (final(self)@, st@) == journal_next(old(self)@, r@),
    {
        match self.stage {
            JournalStage::Begin => {
                self.stage = JournalStage::Which;
                ask_step(
                    one_line(line1(LineKind::Section, "Journal")),
                    Op::WhichTrusted(String::from_str("journalctl")),
                )
            },
            JournalStage::Which => {
                if flag_reply(r) {
                    self.stage = JournalStage::Usage;
                    ask_step(no_lines(), crate::plan::capture1("journalctl", "--disk-usage", true))
                } else {
                    self.stage = JournalStage::Finished;
                    done_step(one_line(line1(LineKind::Skip, "journalctl not found — skipped")), 0)
                }
            },
            JournalStage::Usage => {
                self.usage = None;
                match r {
                    Reply::Text(Some(t)) => {
                        let c = usage_fields(t.as_str());
                        self.cands = c;
                        assert(self@.cands =~= usage_candidates(t@));
                        self.scan(0)
                    },
                    _ => {
                        self.cands = Vec::new();
                        assert(self@.cands =~= seq![]);
                        self.decide()
                    },
                }
            },
            JournalStage::Scale(i) => match bytes_reply(r) {
                Some(b) => {
                    self.usage = Some(b);
                    self.decide()
                },
                None => {
                    if i < usize::MAX {
                        self.scan(i + 1)
                    } else {
                        let n = self.cands.len();
                        assert(self@.cands.len() == n);
                        assert(!(0 <= i + 1 < self@.cands.len()));
                        assert(journal_scan(self@, i + 1) == journal_decide(self@));
                        self.decide()
                    }
                },
            },
            JournalStage::Before => {
                self.before = size_reply(r);
                self.stage = JournalStage::Vacuum;
                ask_step(no_lines(), crate::plan::run1("journalctl", "--vacuum-size=50M", true, true))
            },
            JournalStage::Vacuum => {
                if flag_reply(r) {
                    self.stage = JournalStage::After;
                    ask_step(no_lines(), Op::DirSize(String::from_str("/var/log/journal")))
                } else {
                    self.stage = JournalStage::Finished;
                    done_step(one_line(line1(LineKind::Error, "Journal vacuum failed")), 0)
                }
            },
            JournalStage::After => {
                let after = size_reply(r);
                let freed: u64 = if self.before >= after {
                    self.before - after
                } else {
                    0
                };
                let l = if freed > 0 {
                    line2(LineKind::Success, "Vacuumed to 50M — freed ", format_size(freed), Style::Green)
                } else {
                    match self.usage {
                        Some(b) => line1s(
                            LineKind::Success,
                            cat("Vacuumed to 50M (was ", format_size(b).as_str()).concat(")"),
                        ),
                        None => line1(LineKind::Success, "Vacuumed to 50M"),
                    }
                };
                self.stage = JournalStage::Finished;
                done_step(one_line(l), freed)
            },
            JournalStage::Finished => done_step(no_lines(), 0),
        }
    }
}

// ═══════════════════════════ Crash dumps ═══════════════════════════

#[derive(Debug, Clone, Copy, PartialEq, Eq, Structural)]
pub enum DumpStage {
    Begin,
    SdExists,
    ApportExists,
    SdSize,
    SdFind,
    SdAfter,
    ApSize,
    ApFind,
    ApAfter,
    Finished,
}

/// Remove saved crash dumps: systemd-coredump's files and Apport's
/// top-level report files (never kdump's dated subdirectories).
pub struct Coredumps {
    pub dry_run: bool,
    pub stage: DumpStage,
    pub has_sd: bool,
    pub has_apport: bool,
    pub size: u64,
    pub freed: u64,
}

#[verifier::ext_equal]
pub struct CoredumpsV {
    pub dry_run: bool,
    pub stage: DumpStage,
    pub has_sd: bool,
    pub has_apport: bool,
    pub size: u64,
    pub freed: u64,
}

impl View for Coredumps {
    type V = CoredumpsV;

    open spec fn view(&self) -> CoredumpsV {
        CoredumpsV {
            dry_run: self.dry_run,
            stage: self.stage,
            has_sd: self.has_sd,
            has_apport: self.has_apport,
            size: self.size,
            freed: self.freed,
        }
    }
}

pub open spec fn dst(s: CoredumpsV, stage: DumpStage) -> CoredumpsV {
    CoredumpsV { stage, ..s }
}

/// Apport's report files: the only files deleted from `/var/crash`.
pub open spec fn report_suffixes() -> Seq<Seq<char>> {
    seq![".crash"@, ".uploaded"@]
}

/// Measure the Apport report files directly inside `/var/crash`.
pub open spec fn report_size_op() -> OpV {
    OpV::FlatFilesSize { dir: "/var/crash"@, suffixes: report_suffixes() }
}

/// Delete the top-level `*.crash` and `*.uploaded` files of `/var/crash`,
/// never a subdirectory (kdump keeps its dumps in dated ones).
pub open spec fn report_delete_args() -> Seq<&'static str> {
    seq![
        "/var/crash",
        "-maxdepth",
        "1",
        "-type",
        "f",
        "(",
        "-name",
        "*.crash",
        "-o",
        "-name",
        "*.uploaded",
        ")",
        "-delete",
    ]
}

fn report_size_exec() -> (op: Op)
    ensures
        op@ == report_size_op(),
{
    let mut suffixes: Vec<String> = Vec::new();
    suffixes.push(String::from_str(".crash"));
    suffixes.push(String::from_str(".uploaded"));
    assert(crate::text::views(suffixes@) =~= report_suffixes());
    Op::FlatFilesSize { dir: String::from_str("/var/crash"), suffixes }
}

/// Go on to Apport's reports, if that directory exists.
pub open spec fn apport_start(s: CoredumpsV, pre: Seq<LineV>) -> (CoredumpsV, StepV) {
    if s.has_apport {
        (dst(s, DumpStage::ApSize), ask(pre, report_size_op()))
    } else {
        (dst(s, DumpStage::Finished), done(pre, s.freed))
    }
}

/// One transition of the crash-dump cleanup.
pub open spec fn dumps_next(s: CoredumpsV, r: ReplyV) -> (CoredumpsV, StepV) {
    match s.stage {
        DumpStage::Begin => (
            dst(s, DumpStage::SdExists),
            ask(
                seq![l1(LineKind::Section, "Crash Dumps"@)],
                OpV::Exists("/var/lib/systemd/coredump"@),
            ),
        ),
        DumpStage::SdExists => (
            CoredumpsV { stage: DumpStage::ApportExists, has_sd: flag_of(r), ..s },
            ask(seq![], OpV::Exists("/var/crash"@)),
        ),
        DumpStage::ApportExists => {
            let has_sd = s.has_sd;
            let s2 = CoredumpsV { has_apport: flag_of(r), ..s };
            if !has_sd && !flag_of(r) {
                (
                    dst(s2, DumpStage::Finished),
                    done(
                        seq![l1(LineKind::Skip, "No crash-dump directory found — nothing to clean"@)],
                        0,
                    ),
                )
            } else if has_sd {
                (dst(s2, DumpStage::SdSize), ask(seq![], OpV::DirSize("/var/lib/systemd/coredump"@)))
            } else {
                apport_start(s2, seq![])
            }
        },
        DumpStage::SdSize => {
            let size = size_of(r);
            if size == 0 {
                apport_start(s, seq![l1(LineKind::Success, "systemd-coredump: already empty"@)])
            } else if s.dry_run {
                apport_start(
                    s,
                    seq![
                        l1(
                            LineKind::Info,
                            "[DRY RUN] Would clear systemd coredumps ("@ + fmt(size) + ")"@,
                        ),
                    ],
                )
            } else {
                (
                    CoredumpsV { stage: DumpStage::SdFind, size, ..s },
                    ask(
                        seq![],
                        cmd("find", seq!["/var/lib/systemd/coredump", "-type", "f", "-delete"], true, true),
                    ),
                )
            }
        },
        DumpStage::SdFind => (
            dst(s, DumpStage::SdAfter),
            ask(seq![], OpV::DirSize("/var/lib/systemd/coredump"@)),
        ),
        DumpStage::SdAfter => {
            let got = sub0(s.size, size_of(r));
            apport_start(
                CoredumpsV { freed: sat_add(s.freed, got), ..s },
                seq![l3(LineKind::Success, "systemd coredumps cleared ("@, fmt(got), Style::Green, ")"@)],
            )
        },
        DumpStage::ApSize => {
            let size = size_of(r);
            if size == 0 {
                (
                    dst(s, DumpStage::Finished),
                    done(seq![l1(LineKind::Success, "Apport: no crash reports to clean"@)], s.freed),
                )
            } else if s.dry_run {
                (
                    dst(s, DumpStage::Finished),
                    done(
                        seq![
                            l1(
                                LineKind::Info,
                                "[DRY RUN] Would clear Apport crash reports ("@ + fmt(size) + ")"@,
                            ),
                        ],
                        s.freed,
                    ),
                )
            } else {
                (
                    CoredumpsV { stage: DumpStage::ApFind, size, ..s },
                    ask(
                        seq![],
                        cmd("find", report_delete_args(), true, true),
                    ),
                )
            }
        },
        DumpStage::ApFind => (dst(s, DumpStage::ApAfter), ask(seq![], report_size_op())),
        DumpStage::ApAfter => {
            let got = sub0(s.size, size_of(r));
            let freed = sat_add(s.freed, got);
            (
                CoredumpsV { stage: DumpStage::Finished, freed, ..s },
                done(
                    seq![l3(LineKind::Success, "Apport reports cleared ("@, fmt(got), Style::Green, ")"@)],
                    freed,
                ),
            )
        },
        DumpStage::Finished => (s, done(seq![], s.freed)),
    }
}

/// Start clearing crash dumps.
pub fn coredumps(dry_run: bool) -> (m: Coredumps)
    ensures
        m@ == (CoredumpsV {
            dry_run,
            stage: DumpStage::Begin,
            has_sd: false,
            has_apport: false,
            size: 0,
            freed: 0,
        }),
{
    Coredumps { dry_run, stage: DumpStage::Begin, has_sd: false, has_apport: false, size: 0, freed: 0 }
}

impl Coredumps {
    fn apport(&mut self, pre: Vec<Line>) -> (st: Step)
        ensures
            (final(self)@, st@) == apport_start(old(self)@, line_views(pre@)),
    {
        if self.has_apport {
            self.stage = DumpStage::ApSize;
            ask_step(pre, report_size_exec())
        } else {
            self.stage = DumpStage::Finished;
            done_step(pre, self.freed)
        }
    }

    /// Feed the answer to the previous request; get the next step.
    pub fn step(&mut self, r: &Reply) -> (st: Step)
        ensures
            (final(self)@, st@) == dumps_next(old(self)@, r@),
    {
        match self.stage {
            DumpStage::Begin => {
                self.stage = DumpStage::SdExists;
                ask_step(
                    one_line(line1(LineKind::Section, "Crash Dumps")),
                    Op::Exists(String::from_str("/var/lib/systemd/coredump")),
                )
            },
            DumpStage::SdExists => {
                self.has_sd = flag_reply(r);
                self.stage = DumpStage::ApportExists;
                ask_step(no_lines(), Op::Exists(String::from_str("/var/crash")))
            },
            DumpStage::ApportExists => {
                let has_sd = self.has_sd;
                let has_apport = flag_reply(r);
                self.has_apport = has_apport;
                if !has_sd && !has_apport {
                    self.stage = DumpStage::Finished;
                    done_step(
                        one_line(line1(LineKind::Skip, "No crash-dump directory found — nothing to clean")),
                        0,
                    )
                } else if has_sd {
                    self.stage = DumpStage::SdSize;
                    ask_step(no_lines(), Op::DirSize(String::from_str("/var/lib/systemd/coredump")))
                } else {
                    self.apport(no_lines())
                }
            },
            DumpStage::SdSize => {
                let size = size_reply(r);
                if size == 0 {
                    self.apport(one_line(line1(LineKind::Success, "systemd-coredump: already empty")))
                } else if self.dry_run {
                    let t = cat("[DRY RUN] Would clear systemd coredumps (", format_size(size).as_str()).concat(")");
                    self.apport(one_line(line1s(LineKind::Info, t)))
                } else {
                    self.size = size;
                    self.stage = DumpStage::SdFind;
                    ask_step(
                        no_lines(),
                        crate::plan::run4("find", "/var/lib/systemd/coredump", "-type", "f", "-delete", true, true),
                    )
                }
            },
            DumpStage::SdFind => {
                self.stage = DumpStage::SdAfter;
                ask_step(no_lines(), Op::DirSize(String::from_str("/var/lib/systemd/coredump")))
            },
            DumpStage::SdAfter => {
                let after = size_reply(r);
                let got: u64 = if self.size >= after {
                    self.size - after
                } else {
                    0
                };
                self.freed = self.freed.saturating_add(got);
                self.apport(
                    one_line(line3(LineKind::Success, "systemd coredumps cleared (", format_size(got), Style::Green, ")")),
                )
            },
            DumpStage::ApSize => {
                let size = size_reply(r);
                if size == 0 {
                    self.stage = DumpStage::Finished;
                    done_step(one_line(line1(LineKind::Success, "Apport: no crash reports to clean")), self.freed)
                } else if self.dry_run {
                    self.stage = DumpStage::Finished;
                    let t = cat("[DRY RUN] Would clear Apport crash reports (", format_size(size).as_str()).concat(")");
                    done_step(one_line(line1s(LineKind::Info, t)), self.freed)
                } else {
                    self.size = size;
                    self.stage = DumpStage::ApFind;
                    let args = [
                        "/var/crash",
                        "-maxdepth",
                        "1",
                        "-type",
                        "f",
                        "(",
                        "-name",
                        "*.crash",
                        "-o",
                        "-name",
                        "*.uploaded",
                        ")",
                        "-delete",
                    ];
                    assert(args@ =~= report_delete_args());
                    ask_step(no_lines(), crate::plan::run_op("find", &args, true, true))
                }
            },
            DumpStage::ApFind => {
                self.stage = DumpStage::ApAfter;
                ask_step(no_lines(), report_size_exec())
            },
            DumpStage::ApAfter => {
                let after = size_reply(r);
                let got: u64 = if self.size >= after {
                    self.size - after
                } else {
                    0
                };
                self.freed = self.freed.saturating_add(got);
                self.stage = DumpStage::Finished;
                done_step(
                    one_line(line3(LineKind::Success, "Apport reports cleared (", format_size(got), Style::Green, ")")),
                    self.freed,
                )
            },
            DumpStage::Finished => done_step(no_lines(), self.freed),
        }
    }
}

// ═══════════════════════════ Filesystem TRIM ═══════════════════════════

#[derive(Debug, Clone, Copy, PartialEq, Eq, Structural)]
pub enum TrimStage {
    Begin,
    Which,
    Run,
    Finished,
}

/// Discard unused blocks on the filesystems listed in fstab. Maintenance,
/// not cache cleanup: it frees no measurable bytes.
pub struct Trim {
    pub dry_run: bool,
    pub disk: DiskType,
    pub stage: TrimStage,
}

pub struct TrimV {
    pub dry_run: bool,
    pub disk: DiskType,
    pub stage: TrimStage,
}

impl View for Trim {
    type V = TrimV;

    open spec fn view(&self) -> TrimV {
        TrimV { dry_run: self.dry_run, disk: self.disk, stage: self.stage }
    }
}

pub open spec fn trim_next(s: TrimV, r: ReplyV) -> (TrimV, StepV) {
    match s.stage {
        TrimStage::Begin => (
            TrimV { stage: TrimStage::Which, ..s },
            ask(seq![l1(LineKind::Section, "Filesystem Trim"@)], OpV::WhichTrusted("fstrim"@)),
        ),
        TrimStage::Which => if !flag_of(r) {
            (
                TrimV { stage: TrimStage::Finished, ..s },
                done(seq![l1(LineKind::Skip, "fstrim not found (install util-linux) — skipped"@)], 0),
            )
        } else if s.dry_run {
            (
                TrimV { stage: TrimStage::Finished, ..s },
                done(seq![l1(LineKind::Info, "[DRY RUN] Would run: fstrim --fstab --verbose"@)], 0),
            )
        } else {
            let note = l1(LineKind::Info, "Trimming fstab-listed filesystems (removable drives are skipped)..."@);
            (
                TrimV { stage: TrimStage::Run, ..s },
                ask(
                    if s.disk == DiskType::HDD {
                        seq![
                            l1(LineKind::Info, "Root disk looks like an HDD — TRIM only benefits SSD/NVMe"@),
                            note,
                        ]
                    } else {
                        seq![note]
                    },
                    cmd("fstrim", seq!["--fstab", "--verbose"], true, false),
                ),
            )
        },
        TrimStage::Run => (
            TrimV { stage: TrimStage::Finished, ..s },
            done(
                seq![
                    ok_l(
                        flag_of(r),
                        "Filesystems trimmed"@,
                        "fstrim failed (or no discard-capable filesystems)"@,
                    ),
                ],
                0,
            ),
        ),
        TrimStage::Finished => (s, done(seq![], 0)),
    }
}

/// Start trimming; `disk_type` is the root disk's kind.
pub fn trim(dry_run: bool, disk_type: DiskType) -> (m: Trim)
    ensures
        m@ == (TrimV { dry_run, disk: disk_type, stage: TrimStage::Begin }),
{
    Trim { dry_run, disk: disk_type, stage: TrimStage::Begin }
}

impl Trim {
    /// Feed the answer to the previous request; get the next step.
    pub fn step(&mut self, r: &Reply) -> (st: Step)
        ensures
            (final(self)@, st@) == trim_next(old(self)@, r@),
    {
        match self.stage {
            TrimStage::Begin => {
                self.stage = TrimStage::Which;
                ask_step(
                    one_line(line1(LineKind::Section, "Filesystem Trim")),
                    Op::WhichTrusted(String::from_str("fstrim")),
                )
            },
            TrimStage::Which => {
                if !flag_reply(r) {
                    self.stage = TrimStage::Finished;
                    done_step(
                        one_line(line1(LineKind::Skip, "fstrim not found (install util-linux) — skipped")),
                        0,
                    )
                } else if self.dry_run {
                    self.stage = TrimStage::Finished;
                    done_step(one_line(line1(LineKind::Info, "[DRY RUN] Would run: fstrim --fstab --verbose")), 0)
                } else {
                    let note = line1(
                        LineKind::Info,
                        "Trimming fstab-listed filesystems (removable drives are skipped)...",
                    );
                    let pre = if self.disk == DiskType::HDD {
                        two_lines(
                            line1(LineKind::Info, "Root disk looks like an HDD — TRIM only benefits SSD/NVMe"),
                            note,
                        )
                    } else {
                        one_line(note)
                    };
                    self.stage = TrimStage::Run;
                    ask_step(pre, crate::plan::run2("fstrim", "--fstab", "--verbose", true, false))
                }
            },
            TrimStage::Run => {
                self.stage = TrimStage::Finished;
                done_step(
                    one_line(
                        ok_line(
                            flag_reply(r),
                            "Filesystems trimmed",
                            "fstrim failed (or no discard-capable filesystems)",
                        ),
                    ),
                    0,
                )
            },
            TrimStage::Finished => done_step(no_lines(), 0),
        }
    }
}


// ═══════════════════════════ Nix garbage collection ═══════════════════════════

#[derive(Debug, Clone, Copy, PartialEq, Eq, Structural)]
pub enum NixStage {
    Begin,
    HasNix,
    Capture,
    Scale,
    Multi,
    SysGc,
    Confirm,
    UserD,
    MultiD,
    SysD,
    WhichNix,
    Wipe,
    Optimise,
    Finished,
}

/// Nix garbage collection on any distribution with a Nix store; the store
/// optimise pass is skipped on HDDs.
pub struct NixGc {
    pub deep: bool,
    pub dry_run: bool,
    pub yes: bool,
    pub disk: DiskType,
    pub stage: NixStage,
    pub freed: u64,
}

pub struct NixGcV {
    pub deep: bool,
    pub dry_run: bool,
    pub yes: bool,
    pub disk: DiskType,
    pub stage: NixStage,
    pub freed: u64,
}

impl View for NixGc {
    type V = NixGcV;

    open spec fn view(&self) -> NixGcV {
        NixGcV {
            deep: self.deep,
            dry_run: self.dry_run,
            yes: self.yes,
            disk: self.disk,
            stage: self.stage,
            freed: self.freed,
        }
    }
}

pub open spec fn nst(s: NixGcV, stage: NixStage) -> NixGcV {
    NixGcV { stage, ..s }
}

pub open spec fn nix_multi(s: NixGcV) -> (NixGcV, StepV) {
    (nst(s, NixStage::Multi), ask(seq![], OpV::NixMultiuser))
}

pub open spec fn nix_gate(s: NixGcV, pre: Seq<LineV>) -> (NixGcV, StepV) {
    match gate_of(s.deep, s.yes) {
        Gate::Run => nix_remove(s, pre),
        Gate::Skip => nix_report(s, pre),
        Gate::Ask => (
            nst(s, NixStage::Confirm),
            ask(pre, OpV::Confirm("Delete old Nix generations? (removes all but current) [y/N]:"@)),
        ),
    }
}

pub open spec fn nix_remove(s: NixGcV, pre: Seq<LineV>) -> (NixGcV, StepV) {
    (
        nst(s, NixStage::UserD),
        ask(
            pre.push(l1(LineKind::Info, "Removing old generations..."@)),
            cmd("nix-collect-garbage", seq!["-d"], false, false),
        ),
    )
}

pub open spec fn nix_after_d(s: NixGcV) -> (NixGcV, StepV) {
    (
        nst(s, NixStage::WhichNix),
        ask(seq![l1(LineKind::Success, "Old generations removed"@)], OpV::WhichTrusted("nix"@)),
    )
}

pub open spec fn nix_optimise(s: NixGcV) -> (NixGcV, StepV) {
    if s.disk == DiskType::HDD {
        nix_report(
            s,
            seq![
                l1(
                    LineKind::Info,
                    "Skipping store optimise on HDD (too slow). Run manually: nix store --optimise"@,
                ),
            ],
        )
    } else {
        (
            nst(s, NixStage::Optimise),
            ask(
                seq![l1(LineKind::Info, "Optimising Nix store (hard-linking identical files)..."@)],
                cmd("nix", seq!["store", "--optimise"], true, false),
            ),
        )
    }
}

pub open spec fn nix_report(s: NixGcV, pre: Seq<LineV>) -> (NixGcV, StepV) {
    (
        nst(s, NixStage::Finished),
        done(
            if s.freed > 0 {
                pre.push(l2(LineKind::Info, "Nix store freed: "@, fmt(s.freed), Style::Green))
            } else {
                pre
            },
            s.freed,
        ),
    )
}

/// One transition of the Nix garbage collection.
pub open spec fn nix_next(s: NixGcV, r: ReplyV) -> (NixGcV, StepV) {
    let ok = flag_of(r);
    match s.stage {
        NixStage::Begin => (nst(s, NixStage::HasNix), ask(seq![l1(LineKind::Section, "Nix GC"@)], OpV::HasNix)),
        NixStage::HasNix => if !ok {
            (nst(s, NixStage::Finished), done(seq![l1(LineKind::Skip, "Nix not installed — skipped"@)], 0))
        } else if s.dry_run {
            let first = l1(LineKind::Info, "[DRY RUN] Would run: nix-collect-garbage"@);
            (
                nst(s, NixStage::Finished),
                done(
                    if s.deep {
                        seq![first, l1(LineKind::Info, "[DRY RUN] Would also delete old generations (-d)"@)]
                    } else {
                        seq![first]
                    },
                    0,
                ),
            )
        } else {
            (
                nst(s, NixStage::Capture),
                ask(
                    seq![l1(LineKind::Info, "Collecting garbage (user)..."@)],
                    OpV::Capture { cmd: "nix-collect-garbage"@, args: seq![], trusted: false },
                ),
            )
        },
        NixStage::Capture => match text_of(r) {
            Some(out) => match nix_freed_spec(lines(out)) {
                Some((num, unit)) => match unit_shift_spec(unit) {
                    Some(shift) => (nst(s, NixStage::Scale), ask(seq![], OpV::ToBytes { num, shift })),
                    None => nix_multi(s),
                },
                None => nix_multi(s),
            },
            None => nix_multi(s),
        },
        NixStage::Scale => nix_multi(
            NixGcV {
                freed: sat_add(
                    s.freed,
                    match bytes_of(r) {
                        Some(b) => b,
                        None => 0,
                    },
                ),
                ..s
            },
        ),
        NixStage::Multi => if ok {
            (
                nst(s, NixStage::SysGc),
                ask(
                    seq![l1(LineKind::Info, "Collecting garbage (system)..."@)],
                    cmd("nix-collect-garbage", seq![], true, false),
                ),
            )
        } else {
            nix_gate(s, seq![])
        },
        NixStage::SysGc => nix_gate(s, seq![]),
        NixStage::Confirm => if ok {
            nix_remove(s, seq![])
        } else {
            nix_report(s, seq![])
        },
        NixStage::UserD => (nst(s, NixStage::MultiD), ask(seq![], OpV::NixMultiuser)),
        NixStage::MultiD => if ok {
            (nst(s, NixStage::SysD), ask(seq![], cmd("nix-collect-garbage", seq!["-d"], true, false)))
        } else {
            nix_after_d(s)
        },
        NixStage::SysD => nix_after_d(s),
        NixStage::WhichNix => if ok {
            (nst(s, NixStage::Wipe), ask(seq![], cmd("nix", seq!["profile", "wipe-history"], false, false)))
        } else {
            nix_optimise(s)
        },
        NixStage::Wipe => nix_optimise(s),
        NixStage::Optimise => nix_report(s, seq![l1(LineKind::Success, "Store optimised"@)]),
        NixStage::Finished => (s, done(seq![], s.freed)),
    }
}

/// Start Nix garbage collection.
pub fn nix_gc(deep: bool, dry_run: bool, yes: bool, disk_type: DiskType) -> (m: NixGc)
    ensures
        m@ == (NixGcV { deep, dry_run, yes, disk: disk_type, stage: NixStage::Begin, freed: 0 }),
{
    NixGc { deep, dry_run, yes, disk: disk_type, stage: NixStage::Begin, freed: 0 }
}

impl NixGc {
    fn multi(&mut self) -> (st: Step)
        ensures
            (final(self)@, st@) == nix_multi(old(self)@),
    {
        self.stage = NixStage::Multi;
        ask_step(no_lines(), Op::NixMultiuser)
    }

    fn gate(&mut self, pre: Vec<Line>) -> (st: Step)
        ensures
            (final(self)@, st@) == nix_gate(old(self)@, line_views(pre@)),
    {
        match should_deep(self.deep, self.yes) {
            Gate::Run => self.remove(pre),
            Gate::Skip => self.report(pre),
            Gate::Ask => {
                self.stage = NixStage::Confirm;
                ask_step(
                    pre,
                    Op::Confirm(
                        String::from_str("Delete old Nix generations? (removes all but current) [y/N]:"),
                    ),
                )
            },
        }
    }

    fn remove(&mut self, pre: Vec<Line>) -> (st: Step)
        ensures
            (final(self)@, st@) == nix_remove(old(self)@, line_views(pre@)),
    {
        let mut pre = pre;
        push_line(&mut pre, line1(LineKind::Info, "Removing old generations..."));
        self.stage = NixStage::UserD;
        ask_step(pre, crate::plan::run1("nix-collect-garbage", "-d", false, false))
    }

    fn after_d(&mut self) -> (st: Step)
        ensures
            (final(self)@, st@) == nix_after_d(old(self)@),
    {
        self.stage = NixStage::WhichNix;
        ask_step(
            one_line(line1(LineKind::Success, "Old generations removed")),
            Op::WhichTrusted(String::from_str("nix")),
        )
    }

    fn optimise(&mut self) -> (st: Step)
        ensures
            (final(self)@, st@) == nix_optimise(old(self)@),
    {
        if self.disk == DiskType::HDD {
            self.report(
                one_line(
                    line1(
                        LineKind::Info,
                        "Skipping store optimise on HDD (too slow). Run manually: nix store --optimise",
                    ),
                ),
            )
        } else {
            self.stage = NixStage::Optimise;
            ask_step(
                one_line(line1(LineKind::Info, "Optimising Nix store (hard-linking identical files)...")),
                crate::plan::run2("nix", "store", "--optimise", true, false),
            )
        }
    }

    fn report(&mut self, pre: Vec<Line>) -> (st: Step)
        ensures
            (final(self)@, st@) == nix_report(old(self)@, line_views(pre@)),
    {
        let mut pre = pre;
        if self.freed > 0 {
            push_line(&mut pre, line2(LineKind::Info, "Nix store freed: ", format_size(self.freed), Style::Green));
        }
        self.stage = NixStage::Finished;
        done_step(pre, self.freed)
    }

    /// Feed the answer to the previous request; get the next step.
    pub fn step(&mut self, r: &Reply) -> (st: Step)
        ensures
            (final(self)@, st@) == nix_next(old(self)@, r@),
    {
        let ok = flag_reply(r);
        match self.stage {
            NixStage::Begin => {
                self.stage = NixStage::HasNix;
                ask_step(one_line(line1(LineKind::Section, "Nix GC")), Op::HasNix)
            },
            NixStage::HasNix => {
                if !ok {
                    self.stage = NixStage::Finished;
                    done_step(one_line(line1(LineKind::Skip, "Nix not installed — skipped")), 0)
                } else if self.dry_run {
                    self.stage = NixStage::Finished;
                    let first = line1(LineKind::Info, "[DRY RUN] Would run: nix-collect-garbage");
                    let v = if self.deep {
                        two_lines(first, line1(LineKind::Info, "[DRY RUN] Would also delete old generations (-d)"))
                    } else {
                        one_line(first)
                    };
                    done_step(v, 0)
                } else {
                    self.stage = NixStage::Capture;
                    ask_step(
                        one_line(line1(LineKind::Info, "Collecting garbage (user)...")),
                        crate::plan::capture_bare("nix-collect-garbage", false),
                    )
                }
            },
            NixStage::Capture => match r {
                Reply::Text(Some(out)) => match nix_freed_fields(out.as_str()) {
                    Some((num, unit)) => match unit_shift(unit.as_str()) {
                        Some(shift) => {
                            self.stage = NixStage::Scale;
                            ask_step(no_lines(), Op::ToBytes { num, shift })
                        },
                        None => self.multi(),
                    },
                    None => self.multi(),
                },
                _ => self.multi(),
            },
            NixStage::Scale => {
                let b = match bytes_reply(r) {
                    Some(b) => b,
                    None => 0,
                };
                self.freed = self.freed.saturating_add(b);
                self.multi()
            },
            NixStage::Multi => {
                if ok {
                    self.stage = NixStage::SysGc;
                    ask_step(
                        one_line(line1(LineKind::Info, "Collecting garbage (system)...")),
                        crate::plan::run_bare("nix-collect-garbage", true, false),
                    )
                } else {
                    self.gate(no_lines())
                }
            },
            NixStage::SysGc => self.gate(no_lines()),
            NixStage::Confirm => {
                if ok {
                    self.remove(no_lines())
                } else {
                    self.report(no_lines())
                }
            },
            NixStage::UserD => {
                self.stage = NixStage::MultiD;
                ask_step(no_lines(), Op::NixMultiuser)
            },
            NixStage::MultiD => {
                if ok {
                    self.stage = NixStage::SysD;
                    ask_step(no_lines(), crate::plan::run1("nix-collect-garbage", "-d", true, false))
                } else {
                    self.after_d()
                }
            },
            NixStage::SysD => self.after_d(),
            NixStage::WhichNix => {
                if ok {
                    self.stage = NixStage::Wipe;
                    ask_step(no_lines(), crate::plan::run2("nix", "profile", "wipe-history", false, false))
                } else {
                    self.optimise()
                }
            },
            NixStage::Wipe => self.optimise(),
            NixStage::Optimise => self.report(one_line(line1(LineKind::Success, "Store optimised"))),
            NixStage::Finished => done_step(no_lines(), self.freed),
        }
    }
}

} // verus!
