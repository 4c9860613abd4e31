//! System cleaning operations, each a state machine over outside requests.
use vstd::prelude::*;
use crate::plan::{
    ask, ask_step, done, done_step, l1, l2, line1, line2, no_lines, one_line, two_lines, Op, OpV, Reply, ReplyV, Step, StepV, Style, flag_of, flag_reply, size_of, size_reply, text_of,
};
use crate::text::{path_join, path_join_exec, views};
use crate::utils::{format_size, size_text, LineKind};

verus! {

pub open spec fn fmt(n: u64) -> Seq<char> {
    size_text(n as nat)
}

pub open spec fn sat_add(a: u64, b: u64) -> u64 {
    if a + b > u64::MAX {
        u64::MAX
    } else {
        (a + b) as u64
    }
}

// ═══════════════════════════ Trash ═══════════════════════════

#[derive(Debug, Clone, Copy, PartialEq, Eq, Structural)]
pub enum TrashStage {
    Begin,
    Home,
    MeasureExists(usize),
    MeasureSize(usize),
    CleanExists(usize),
    CleanRm(usize),
    Finished,
}

/// Empty the user's trash: `~/.local/share/Trash/{files,info}` and `~/.Trash`.
pub struct Trash {
    pub dry_run: bool,
    pub stage: TrashStage,
    pub dirs: Vec<String>,
    pub total: u64,
    pub freed: u64,
}

#[verifier::ext_equal]
pub struct TrashV {
    pub dry_run: bool,
    pub stage: TrashStage,
    pub dirs: Seq<Seq<char>>,
    pub total: u64,
    pub freed: u64,
}

impl View for Trash {
    type V = TrashV;

    open spec fn view(&self) -> TrashV {
        TrashV {
            dry_run: self.dry_run,
            stage: self.stage,
            dirs: views(self.dirs@),
            total: self.total,
            freed: self.freed,
        }
    }
}

pub open spec fn trash_dirs(home: Seq<char>) -> Seq<Seq<char>> {
    seq![
        path_join(home, ".local/share/Trash/files"@),
        path_join(home, ".local/share/Trash/info"@),
        path_join(home, ".Trash"@),
    ]
}

/// After measuring directory `i`, move on to the next one or decide.
pub open spec fn trash_after_measure(s: TrashV, i: int) -> (TrashV, StepV) {
    if i + 1 < s.dirs.len() {
        (
            TrashV { stage: TrashStage::MeasureExists((i + 1) as usize), ..s },
            ask(seq![], OpV::Exists(s.dirs[i + 1])),
        )
    } else if s.total == 0 {
        (
            TrashV { stage: TrashStage::Finished, ..s },
            done(seq![l1(LineKind::Success, "Trash is empty"@)], 0),
        )
    } else {
        let size_line = l2(LineKind::Info, "Trash size: "@, fmt(s.total), Style::Yellow);
        if s.dry_run {
            (
                TrashV { stage: TrashStage::Finished, ..s },
                done(
                    seq![
                        size_line,
                        l2(LineKind::Info, "[DRY RUN] Would free "@, fmt(s.total), Style::Plain),
                    ],
                    0,
                ),
            )
        } else if s.dirs.len() > 0 {
            (
                TrashV { stage: TrashStage::CleanExists(0), ..s },
                ask(seq![size_line], OpV::Exists(s.dirs[0])),
            )
        } else {
            (TrashV { stage: TrashStage::Finished, ..s }, done(seq![size_line], 0))
        }
    }
}

/// After emptying directory `i`, move on to the next one or report.
pub open spec fn trash_after_clean(s: TrashV, i: int) -> (TrashV, StepV) {
    if i + 1 < s.dirs.len() {
        (
            TrashV { stage: TrashStage::CleanExists((i + 1) as usize), ..s },
            ask(seq![], OpV::Exists(s.dirs[i + 1])),
        )
    } else {
        (
            TrashV { stage: TrashStage::Finished, ..s },
            done(seq![l2(LineKind::Success, "Freed "@, fmt(s.freed), Style::Green)], s.freed),
        )
    }
}

/// One transition of the trash operation.
pub open spec fn trash_next(s: TrashV, r: ReplyV) -> (TrashV, StepV) {
    match s.stage {
        TrashStage::Begin => (
            TrashV { stage: TrashStage::Home, ..s },
            ask(seq![l1(LineKind::Section, "Trash"@)], OpV::Env("HOME"@)),
        ),
        TrashStage::Home => match text_of(r) {
            None => (
                TrashV { stage: TrashStage::Finished, ..s },
                done(seq![l1(LineKind::Error, "Cannot determine HOME directory"@)], 0),
            ),
            Some(home) => {
                let dirs = trash_dirs(home);
                (
                    TrashV { stage: TrashStage::MeasureExists(0), dirs, total: 0, ..s },
                    ask(seq![], OpV::Exists(dirs[0])),
                )
            },
        },
        TrashStage::MeasureExists(i) => if i < s.dirs.len() {
            if flag_of(r) {
                (
                    TrashV { stage: TrashStage::MeasureSize(i), ..s },
                    ask(seq![], OpV::DirSize(s.dirs[i as int])),
                )
            } else {
                trash_after_measure(s, i as int)
            }
        } else {
            (TrashV { stage: TrashStage::Finished, ..s }, done(seq![], s.freed))
        },
        TrashStage::MeasureSize(i) => trash_after_measure(
            TrashV { total: sat_add(s.total, size_of(r)), ..s },
            i as int,
        ),
        TrashStage::CleanExists(i) => if i < s.dirs.len() {
            if flag_of(r) {
                (
                    TrashV { stage: TrashStage::CleanRm(i), ..s },
                    ask(seq![], OpV::RmContents(s.dirs[i as int])),
                )
            } else {
                trash_after_clean(s, i as int)
            }
        } else {
            (TrashV { stage: TrashStage::Finished, ..s }, done(seq![], s.freed))
        },
        TrashStage::CleanRm(i) => trash_after_clean(
            TrashV { freed: sat_add(s.freed, size_of(r)), ..s },
            i as int,
        ),
        TrashStage::Finished => (s, done(seq![], s.freed)),
    }
}

/// Start emptying the trash.
pub fn trash(dry_run: bool) -> (t: Trash)
    ensures
        t@ == (TrashV { dry_run, stage: TrashStage::Begin, dirs: seq![], total: 0, freed: 0 }),
{
    Trash { dry_run, stage: TrashStage::Begin, dirs: Vec::new(), total: 0, freed: 0 }
}

impl Trash {
    fn after_measure(&mut self, i: usize) -> (st: Step)
        ensures
            (final(self)@, st@) == trash_after_measure(old(self)@, i as int),
    {
        if self.dirs.len() > 0 && i < self.dirs.len() - 1 {
            self.stage = TrashStage::MeasureExists(i + 1);
            ask_step(no_lines(), Op::Exists(self.dirs[i + 1].clone()))
        } else if self.total == 0 {
            self.stage = TrashStage::Finished;
            done_step(one_line(line1(LineKind::Success, "Trash is empty")), 0)
        } else {
            let size_line = line2(LineKind::Info, "Trash size: ", format_size(self.total), Style::Yellow);
            if self.dry_run {
                self.stage = TrashStage::Finished;
                let l = line2(LineKind::Info, "[DRY RUN] Would free ", format_size(self.total), Style::Plain);
                done_step(two_lines(size_line, l), 0)
            } else if self.dirs.len() > 0 {
                self.stage = TrashStage::CleanExists(0);
                ask_step(one_line(size_line), Op::Exists(self.dirs[0].clone()))
            } else {
                self.stage = TrashStage::Finished;
                done_step(one_line(size_line), 0)
            }
        }
    }

    fn after_clean(&mut self, i: usize) -> (st: Step)
        ensures
            (final(self)@, st@) == trash_after_clean(old(self)@, i as int),
    {
        if self.dirs.len() > 0 && i < self.dirs.len() - 1 {
            self.stage = TrashStage::CleanExists(i + 1);
            ask_step(no_lines(), Op::Exists(self.dirs[i + 1].clone()))
        } else {
            self.stage = TrashStage::Finished;
            done_step(
                one_line(line2(LineKind::Success, "Freed ", format_size(self.freed), Style::Green)),
                self.freed,
            )
        }
    }

    /// Feed the answer to the previous request; get the next step.
    pub fn step(&mut self, r: &Reply) -> (st: Step)
        ensures
            (final(self)@, st@) == trash_next(old(self)@, r@),
    {
        match self.stage {
            TrashStage::Begin => {
                self.stage = TrashStage::Home;
                ask_step(one_line(line1(LineKind::Section, "Trash")), Op::Env(String::from_str("HOME")))
            },
            TrashStage::Home => match r {
                Reply::Text(Some(home)) => {
                    let mut dirs: Vec<String> = Vec::new();
                    dirs.push(path_join_exec(home.as_str(), ".local/share/Trash/files"));
                    dirs.push(path_join_exec(home.as_str(), ".local/share/Trash/info"));
                    dirs.push(path_join_exec(home.as_str(), ".Trash"));
                    assert(views(dirs@) =~= trash_dirs(home@));
                    let first = dirs[0].clone();
                    self.dirs = dirs;
                    self.total = 0;
                    self.stage = TrashStage::MeasureExists(0);
                    ask_step(no_lines(), Op::Exists(first))
                },
                _ => {
                    self.stage = TrashStage::Finished;
                    done_step(one_line(line1(LineKind::Error, "Cannot determine HOME directory")), 0)
                },
            },
            TrashStage::MeasureExists(i) => {
                if i < self.dirs.len() {
                    if flag_reply(r) {
                        self.stage = TrashStage::MeasureSize(i);
                        ask_step(no_lines(), Op::DirSize(self.dirs[i].clone()))
                    } else {
                        self.after_measure(i)
                    }
                } else {
                    self.stage = TrashStage::Finished;
                    done_step(no_lines(), self.freed)
                }
            },
            TrashStage::MeasureSize(i) => {
                self.total = self.total.saturating_add(size_reply(r));
                self.after_measure(i)
            },
            TrashStage::CleanExists(i) => {
                if i < self.dirs.len() {
                    if flag_reply(r) {
                        self.stage = TrashStage::CleanRm(i);
                        ask_step(no_lines(), Op::RmContents(self.dirs[i].clone()))
                    } else {
                        self.after_clean(i)
                    }
                } else {
                    self.stage = TrashStage::Finished;
                    done_step(no_lines(), self.freed)
                }
            },
            TrashStage::CleanRm(i) => {
                self.freed = self.freed.saturating_add(size_reply(r));
                self.after_clean(i)
            },
            TrashStage::Finished => done_step(no_lines(), self.freed),
        }
    }
}

} // verus!
