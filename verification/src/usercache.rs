//! The user's cache directory and the AUR helpers' caches inside it.
use vstd::prelude::*;
use crate::clean::{fmt, sat_add};
use crate::detect::AurHelper;
use crate::packages::{find_partial_downloads, partial_paths, sub0};
use crate::paths::{
    gate_of, has_dev_cache, has_hand_pruned, partition_cache_entries, protected_cache_names,
    protected_names, prune_list, prune_targets, should_deep, skipped_has_dev_cache,
    skipped_has_hand_pruned_helper, split_entries, Gate,
};
use crate::plan::{
    ask, ask_step, cat, done, done_step, flag_of, flag_reply, l1, l2, line1, line1s, line2,
    line_views, names_of, names_reply, no_lines, one_line, push_line, size_of, size_reply, text_of,
    Line, LineV, Op, OpV, Reply, ReplyV, Step, StepV, Style,
};
use crate::text::{chars_of, path_join, path_join_exec, str_views, views};
use crate::utils::{format_size, LineKind};

verus! {

/// Saturating sum of byte counts.
pub open spec fn sum_sat(v: Seq<u64>) -> u64
    decreases v.len(),
{
    if v.len() == 0 {
        0
    } else {
        sat_add(sum_sat(v.drop_last()), v.last())
    }
}

/// `base/name` for each name.
pub open spec fn joined(base: Seq<char>, names: Seq<Seq<char>>) -> Seq<Seq<char>> {
    names.map_values(|n: Seq<char>| path_join(base, n))
}

// ═══════════════════════════ User cache ═══════════════════════════

#[derive(Debug, Clone, Copy, PartialEq, Eq, Structural)]
pub enum UserStage {
    Begin,
    Xdg,
    Home,
    BaseExists,
    HfHome,
    HfHub,
    List,
    Size(usize),
    Remove(usize),
    Finished,
}

/// Empty the user cache directory entry by entry, sparing model weights,
/// dev-tool caches and the AUR helpers' dirs (see `protected_cache_names`).
pub struct UserCache {
    pub dry_run: bool,
    pub helpers: Vec<AurHelper>,
    pub aur_running: bool,
    pub stage: UserStage,
    pub base: String,
    pub hf: Vec<String>,
    pub paths: Vec<String>,
    pub sizes: Vec<u64>,
    pub freed: u64,
}

#[verifier::ext_equal]
pub struct UserCacheV {
    pub dry_run: bool,
    pub helpers: Seq<AurHelper>,
    pub aur_running: bool,
    pub stage: UserStage,
    pub base: Seq<char>,
    pub hf: Seq<Seq<char>>,
    pub paths: Seq<Seq<char>>,
    pub sizes: Seq<u64>,
    pub freed: u64,
}

impl View for UserCache {
    type V = UserCacheV;

    open spec fn view(&self) -> UserCacheV {
        UserCacheV {
            dry_run: self.dry_run,
            helpers: self.helpers@,
            aur_running: self.aur_running,
            stage: self.stage,
            base: self.base@,
            hf: views(self.hf@),
            paths: views(self.paths@),
            sizes: self.sizes@,
            freed: self.freed,
        }
    }
}

pub open spec fn ust(s: UserCacheV, stage: UserStage) -> UserCacheV {
    UserCacheV { stage, ..s }
}

pub open spec fn uc_base(s: UserCacheV, base: Seq<char>) -> (UserCacheV, StepV) {
    (UserCacheV { stage: UserStage::BaseExists, base, ..s }, ask(seq![], OpV::Exists(base)))
}

/// Measure entry `i` onwards, then decide.
pub open spec fn uc_measure(s: UserCacheV, pre: Seq<LineV>, i: int) -> (UserCacheV, StepV) {
    if 0 <= i < s.paths.len() {
        (ust(s, UserStage::Size(i as usize)), ask(pre, OpV::EntrySize(s.paths[i])))
    } else {
        uc_decide(s, pre)
    }
}

pub open spec fn uc_decide(s: UserCacheV, pre: Seq<LineV>) -> (UserCacheV, StepV) {
    let total = sum_sat(s.sizes);
    if total == 0 {
        (ust(s, UserStage::Finished), done(pre.push(l1(LineKind::Success, "Already clean"@)), 0))
    } else if s.dry_run {
        (
            ust(s, UserStage::Finished),
            done(pre.push(l1(LineKind::Info, "[DRY RUN] Would free "@ + fmt(total))), 0),
        )
    } else {
        uc_remove(s, pre, 0)
    }
}

/// Remove entry `i` onwards, then report.
pub open spec fn uc_remove(s: UserCacheV, pre: Seq<LineV>, i: int) -> (UserCacheV, StepV) {
    if 0 <= i < s.paths.len() {
        (ust(s, UserStage::Remove(i as usize)), ask(pre, OpV::Remove(s.paths[i])))
    } else {
        (
            ust(s, UserStage::Finished),
            done(pre.push(l2(LineKind::Success, "Freed "@, fmt(s.freed), Style::Green)), s.freed),
        )
    }
}

pub open spec fn some_list(t: Option<Seq<char>>) -> Seq<Seq<char>> {
    match t {
        Some(v) => seq![v],
        None => seq![],
    }
}

/// One transition of the user-cache cleanup.
pub open spec fn user_next(s: UserCacheV, r: ReplyV) -> (UserCacheV, StepV) {
    match s.stage {
        UserStage::Begin => (
            ust(s, UserStage::Xdg),
            ask(seq![l1(LineKind::Section, "User Cache"@)], OpV::Env("XDG_CACHE_HOME"@)),
        ),
        UserStage::Xdg => match text_of(r) {
            Some(x) if x.len() > 0 => uc_base(s, x),
            _ => (ust(s, UserStage::Home), ask(seq![], OpV::Env("HOME"@))),
        },
        UserStage::Home => match text_of(r) {
            Some(h) => uc_base(s, path_join(h, ".cache"@)),
            None => (
                ust(s, UserStage::Finished),
                done(seq![l1(LineKind::Error, "Cannot determine cache directory"@)], 0),
            ),
        },
        UserStage::BaseExists => if flag_of(r) {
            (ust(s, UserStage::HfHome), ask(seq![], OpV::Env("HF_HOME"@)))
        } else {
            (ust(s, UserStage::Finished), done(seq![l1(LineKind::Info, "No cache directory found"@)], 0))
        },
        UserStage::HfHome => (
            UserCacheV { stage: UserStage::HfHub, hf: some_list(text_of(r)), ..s },
            ask(seq![], OpV::Env("HF_HUB_CACHE"@)),
        ),
        UserStage::HfHub => (
            UserCacheV { stage: UserStage::List, hf: s.hf + some_list(text_of(r)), ..s },
            ask(seq![], OpV::ListDir(s.base)),
        ),
        UserStage::List => {
            let protected = protected_names(s.base, s.helpers, s.aur_running, s.hf);
            let (clean, skipped) = split_entries(names_of(r), protected);
            let a: Seq<LineV> = if has_dev_cache(skipped) {
                seq![l1(LineKind::Skip, "Some dev-tool caches skipped — remove them with --dev"@)]
            } else {
                seq![]
            };
            let b: Seq<LineV> = if !s.aur_running && has_hand_pruned(skipped, s.helpers) {
                seq![l1(LineKind::Skip, "AUR helper cache skipped — clean it with --aur"@)]
            } else {
                seq![]
            };
            uc_measure(
                UserCacheV { paths: joined(s.base, clean), sizes: seq![], freed: 0, ..s },
                a + b,
                0,
            )
        },
        UserStage::Size(i) => uc_measure(
            UserCacheV { sizes: s.sizes.push(size_of(r)), ..s },
            seq![],
            i + 1,
        ),
        UserStage::Remove(i) => uc_remove(
            UserCacheV {
                freed: if flag_of(r) && i < s.sizes.len() {
                    sat_add(s.freed, s.sizes[i as int])
                } else {
                    s.freed
                },
                ..s
            },
            seq![],
            i + 1,
        ),
        UserStage::Finished => (s, done(seq![], s.freed)),
    }
}

/// Start cleaning the user cache. `helpers` are the installed AUR helpers;
/// `aur_running` says whether the AUR section runs in this invocation.
pub fn user_cache(dry_run: bool, helpers: &[AurHelper], aur_running: bool) -> (m: UserCache)
    ensures
        m@ == (UserCacheV {
            dry_run,
            helpers: helpers@,
            aur_running,
            stage: UserStage::Begin,
            base: seq![],
            hf: seq![],
            paths: seq![],
            sizes: seq![],
            freed: 0,
        }),
{
    let m = UserCache {
        dry_run,
        helpers: vstd::slice::slice_to_vec(helpers),
        aur_running,
        stage: UserStage::Begin,
        base: String::new(),
        hf: Vec::new(),
        paths: Vec::new(),
        sizes: Vec::new(),
        freed: 0,
    };
    assert(m@ =~= (UserCacheV {
        dry_run,
        helpers: helpers@,
        aur_running,
        stage: UserStage::Begin,
        base: seq![],
        hf: seq![],
        paths: seq![],
        sizes: seq![],
        freed: 0,
    }));
    m
}

/// `base/name` for each name.
fn join_all(base: &str, names: &Vec<String>) -> (v: Vec<String>)
    ensures
        views(v@) == joined(base@, views(names@)),
{
    let mut v: Vec<String> = Vec::new();
    let mut i: usize = 0;
    while i < names.len()
        invariant
            0 <= i <= names.len(),
            views(v@) == joined(base@, views(names@)).take(i as int),
        decreases names.len() - i,
    {
        let ghost before = views(v@);
        v.push(path_join_exec(base, names[i].as_str()));
        assert(views(v@) =~= before.push(path_join(base@, names@[i as int]@)));
        assert(joined(base@, views(names@)).take(i + 1) =~= joined(base@, views(names@)).take(
            i as int,
        ).push(path_join(base@, names@[i as int]@)));
        i = i + 1;
    }
    assert(joined(base@, views(names@)).take(names.len() as int) =~= joined(base@, views(names@)));
    v
}

/// Saturating sum of byte counts.
fn sum_sizes(v: &Vec<u64>) -> (n: u64)
    ensures
        n == sum_sat(v@),
{
    let mut n: u64 = 0;
    let mut i: usize = 0;
    while i < v.len()
        invariant
            0 <= i <= v.len(),
            n == sum_sat(v@.take(i as int)),
        decreases v.len() - i,
    {
        assert(v@.take(i + 1).drop_last() =~= v@.take(i as int));
        n = n.saturating_add(v[i]);
        i = i + 1;
    }
    assert(v@.take(v.len() as int) =~= v@);
    n
}

impl UserCache {
    fn base(&mut self, base: String) -> (st: Step)
        ensures
            (final(self)@, st@) == uc_base(old(self)@, base@),
    {
        let op = Op::Exists(base.clone());
        self.base = base;
        self.stage = UserStage::BaseExists;
        ask_step(no_lines(), op)
    }

    fn measure(&mut self, pre: Vec<Line>, i: usize) -> (st: Step)
        ensures
            (final(self)@, st@) == uc_measure(old(self)@, line_views(pre@), i as int),
    {
        if i < self.paths.len() {
            self.stage = UserStage::Size(i);
            ask_step(pre, Op::EntrySize(self.paths[i].clone()))
        } else {
            self.decide(pre)
        }
    }

    fn decide(&mut self, pre: Vec<Line>) -> (st: Step)
        ensures
            (final(self)@, st@) == uc_decide(old(self)@, line_views(pre@)),
    {
        let total = sum_sizes(&self.sizes);
        let mut pre = pre;
        if total == 0 {
            self.stage = UserStage::Finished;
            push_line(&mut pre, line1(LineKind::Success, "Already clean"));
            done_step(pre, 0)
        } else if self.dry_run {
            self.stage = UserStage::Finished;
            push_line(&mut pre, line1s(LineKind::Info, cat("[DRY RUN] Would free ", format_size(total).as_str())));
            done_step(pre, 0)
        } else {
            self.remove(pre, 0)
        }
    }

    fn remove(&mut self, pre: Vec<Line>, i: usize) -> (st: Step)
        ensures
            (final(self)@, st@) == uc_remove(old(self)@, line_views(pre@), i as int),
    {
        if i < self.paths.len() {
            self.stage = UserStage::Remove(i);
            ask_step(pre, Op::Remove(self.paths[i].clone()))
        } else {
            self.stage = UserStage::Finished;
            let mut pre = pre;
            push_line(&mut pre, line2(LineKind::Success, "Freed ", format_size(self.freed), Style::Green));
            done_step(pre, self.freed)
        }
    }

    /// Feed the answer to the previous request; get the next step.
    pub fn step(&mut self, r: &Reply) -> (st: Step)
        ensures
            (final(self)@, st@) == user_next(old(self)@, r@),
    {
        match self.stage {
            UserStage::Begin => {
                self.stage = UserStage::Xdg;
                ask_step(
                    one_line(line1(LineKind::Section, "User Cache")),
                    Op::Env(String::from_str("XDG_CACHE_HOME")),
                )
            },
            UserStage::Xdg => {
                match r {
                    Reply::Text(Some(x)) => {
                        let cx = chars_of(x.as_str());
                        if cx.len() > 0 {
                            return self.base(x.clone());
                        }
                    },
                    _ => {},
                }
                self.stage = UserStage::Home;
                ask_step(no_lines(), Op::Env(String::from_str("HOME")))
            },
            UserStage::Home => match r {
                Reply::Text(Some(h)) => self.base(path_join_exec(h.as_str(), ".cache")),
                _ => {
                    self.stage = UserStage::Finished;
                    done_step(one_line(line1(LineKind::Error, "Cannot determine cache directory")), 0)
                },
            },
            UserStage::BaseExists => {
                if flag_reply(r) {
                    self.stage = UserStage::HfHome;
                    ask_step(no_lines(), Op::Env(String::from_str("HF_HOME")))
                } else {
                    self.stage = UserStage::Finished;
                    done_step(one_line(line1(LineKind::Info, "No cache directory found")), 0)
                }
            },
            UserStage::HfHome => {
                let mut hf: Vec<String> = Vec::new();
                match r {
                    Reply::Text(Some(v)) => {
                        hf.push(v.clone());
                    },
                    _ => {},
                }
                assert(views(hf@) =~= some_list(text_of(r@)));
                self.hf = hf;
                self.stage = UserStage::HfHub;
                ask_step(no_lines(), Op::Env(String::from_str("HF_HUB_CACHE")))
            },
            UserStage::HfHub => {
                let ghost before = views(self.hf@);
                match r {
                    Reply::Text(Some(v)) => {
                        self.hf.push(v.clone());
                    },
                    _ => {},
                }
                assert(views(self.hf@) =~= before + some_list(text_of(r@)));
                self.stage = UserStage::List;
                ask_step(no_lines(), Op::ListDir(self.base.clone()))
            },
            UserStage::List => {
                let protected = protected_cache_names(
                    self.base.as_str(),
                    self.helpers.as_slice(),
                    self.aur_running,
                    self.hf.as_slice(),
                );
                let (clean, skipped) = partition_cache_entries(names_reply(r), &protected);
                let mut pre = no_lines();
                if skipped_has_dev_cache(skipped.as_slice()) {
                    push_line(&mut pre, line1(LineKind::Skip, "Some dev-tool caches skipped — remove them with --dev"));
                }
                if !self.aur_running && skipped_has_hand_pruned_helper(skipped.as_slice(), self.helpers.as_slice()) {
                    push_line(&mut pre, line1(LineKind::Skip, "AUR helper cache skipped — clean it with --aur"));
                }
                proof {
                    let a: Seq<LineV> = if has_dev_cache(views(skipped@)) {
                        seq![l1(LineKind::Skip, "Some dev-tool caches skipped — remove them with --dev"@)]
                    } else {
                        seq![]
                    };
                    let b: Seq<LineV> = if !self.aur_running && has_hand_pruned(views(skipped@), self.helpers@) {
                        seq![l1(LineKind::Skip, "AUR helper cache skipped — clean it with --aur"@)]
                    } else {
                        seq![]
                    };
                    assert(line_views(pre@) =~= a + b);
                }
                self.paths = join_all(self.base.as_str(), &clean);
                self.sizes = Vec::new();
                self.freed = 0;
                assert(self@.sizes =~= seq![]);
                self.measure(pre, 0)
            },
            UserStage::Size(i) => {
                let ghost before = self.sizes@;
                self.sizes.push(size_reply(r));
                if i < usize::MAX {
                    self.measure(no_lines(), i + 1)
                } else {
                    let n = self.paths.len();
                    assert(!(0 <= i + 1 < self@.paths.len()));
                    self.decide(no_lines())
                }
            },
            UserStage::Remove(i) => {
                if flag_reply(r) && i < self.sizes.len() {
                    self.freed = self.freed.saturating_add(self.sizes[i]);
                }
                if i < usize::MAX {
                    self.remove(no_lines(), i + 1)
                } else {
                    let n = self.paths.len();
                    assert(!(0 <= i + 1 < self@.paths.len()));
                    self.remove(no_lines(), n)
                }
            },
            UserStage::Finished => done_step(no_lines(), self.freed),
        }
    }
}


// ═══════════════════════════ AUR helper caches ═══════════════════════════

/// Words joined by single spaces.
pub open spec fn join_space(ws: Seq<Seq<char>>) -> Seq<char>
    decreases ws.len(),
{
    if ws.len() == 0 {
        seq![]
    } else if ws.len() == 1 {
        ws[0]
    } else {
        join_space(ws.drop_last()) + " "@ + ws.last()
    }
}

/// Words joined by single spaces (`<[&str]>::join(" ")`).
pub fn join_words(ws: &[&str]) -> (r: String)
    ensures
        r@ == join_space(str_views(ws@)),
{
    let mut r = String::new();
    let mut i: usize = 0;
    while i < ws.len()
        invariant
            0 <= i <= ws.len(),
            r@ == join_space(str_views(ws@).take(i as int)),
        decreases ws.len() - i,
    {
        let ghost t = str_views(ws@).take(i + 1);
        assert(t.drop_last() =~= str_views(ws@).take(i as int));
        assert(t.last() == ws@[i as int]@);
        if i == 0 {
            r = String::from_str(ws[0]);
            assert(t =~= seq![ws@[0]@]);
        } else {
            r = r.concat(" ").concat(ws[i]);
        }
        i = i + 1;
    }
    assert(str_views(ws@).take(ws.len() as int) =~= str_views(ws@));
    r
}

/// The dry-run lines for one helper: the command it would run, or each
/// directory it would clear by hand.
pub open spec fn dry_helper(h: AurHelper, deep: bool) -> Seq<LineV> {
    match if deep {
        h.deep_clean
    } else {
        h.clean
    } {
        Some(args) => seq![
            l1(LineKind::Info, "[DRY RUN] Would run: "@ + h.bin@ + " "@ + join_space(str_views(args@))),
        ],
        None => prune_list(h, deep).map_values(
            |d: Seq<char>| l1(LineKind::Info, "[DRY RUN] Would clear: "@ + h.bin@ + "/"@ + d),
        ),
    }
}

pub open spec fn dry_helpers(hs: Seq<AurHelper>, deep: bool) -> Seq<LineV>
    decreases hs.len(),
{
    if hs.len() == 0 {
        seq![]
    } else {
        dry_helpers(hs.drop_last(), deep) + dry_helper(hs.last(), deep)
    }
}

#[derive(Debug, Clone, Copy, PartialEq, Eq, Structural)]
pub enum AurStage {
    Begin,
    List,
    Sweep,
    Xdg,
    Home,
    Before(usize),
    Clean(usize),
    Confirm(usize),
    Deep(usize),
    PruneIsDir(usize, usize),
    PruneRm(usize, usize),
    After(usize),
    Finished,
}

/// Clean every installed AUR helper's cache, one result line per helper.
pub struct AurCache {
    pub helpers: Vec<AurHelper>,
    pub deep: bool,
    pub dry_run: bool,
    pub yes: bool,
    pub stage: AurStage,
    pub base: Option<String>,
    pub before: u64,
    pub total: u64,
    pub targets: Vec<&'static str>,
}

#[verifier::ext_equal]
pub struct AurCacheV {
    pub helpers: Seq<AurHelper>,
    pub deep: bool,
    pub dry_run: bool,
    pub yes: bool,
    pub stage: AurStage,
    pub base: Option<Seq<char>>,
    pub before: u64,
    pub total: u64,
    pub targets: Seq<Seq<char>>,
}

impl View for AurCache {
    type V = AurCacheV;

    open spec fn view(&self) -> AurCacheV {
        AurCacheV {
            helpers: self.helpers@,
            deep: self.deep,
            dry_run: self.dry_run,
            yes: self.yes,
            stage: self.stage,
            base: match self.base {
                Some(b) => Some(b@),
                None => None,
            },
            before: self.before,
            total: self.total,
            targets: str_views(self.targets@),
        }
    }
}

pub open spec fn ast(s: AurCacheV, stage: AurStage) -> AurCacheV {
    AurCacheV { stage, ..s }
}

/// The helper's own cache dir, under the user cache base.
pub open spec fn helper_dir(s: AurCacheV, i: int) -> Option<Seq<char>> {
    match s.base {
        Some(b) => Some(path_join(b, s.helpers[i].bin@)),
        None => None,
    }
}

pub open spec fn fail_line(bin: Seq<char>, args: Seq<Seq<char>>) -> LineV {
    l1(LineKind::Error, bin + " "@ + join_space(args) + " failed"@)
}

/// Start helper `i`, or report the total when all are done.
pub open spec fn aur_helper(s: AurCacheV, pre: Seq<LineV>, i: int) -> (AurCacheV, StepV)
    decreases s.helpers.len() - i, 4int,
{
    if 0 <= i < s.helpers.len() {
        match helper_dir(s, i) {
            Some(d) => (ast(s, AurStage::Before(i as usize)), ask(pre, OpV::DirSize(d))),
            None => aur_clean(AurCacheV { before: 0, ..s }, pre, i),
        }
    } else {
        (ast(s, AurStage::Finished), done(pre, s.total))
    }
}

/// Run helper `i`'s clean command, or prune its build dirs by hand.
pub open spec fn aur_clean(s: AurCacheV, pre: Seq<LineV>, i: int) -> (AurCacheV, StepV)
    decreases s.helpers.len() - i, 3int,
{
    let h = s.helpers[i];
    if !(0 <= i < s.helpers.len()) {
        (ast(s, AurStage::Finished), done(pre, s.total))
    } else {
    match h.clean {
        Some(args) => (
            ast(s, AurStage::Clean(i as usize)),
            ask(pre, OpV::Run { cmd: h.bin@, args: str_views(args@), elevated: false, quiet: true }),
        ),
        None => match helper_dir(s, i) {
            None => aur_helper(
                s,
                pre.push(l1(LineKind::Error, h.bin@ + ": cannot determine cache directory"@)),
                i + 1,
            ),
            Some(_) => aur_prune(AurCacheV { targets: prune_list(h, s.deep), ..s }, pre, i, 0),
        },
    }
    }
}

/// Clear target `k` onwards of helper `i` (when it is a directory).
pub open spec fn aur_prune(s: AurCacheV, pre: Seq<LineV>, i: int, k: int) -> (AurCacheV, StepV)
    decreases s.helpers.len() - i, 2int,
{
    if !(0 <= i < s.helpers.len()) {
        (ast(s, AurStage::Finished), done(pre, s.total))
    } else if 0 <= k < s.targets.len() {
        (
            ast(s, AurStage::PruneIsDir(i as usize, k as usize)),
            ask(pre, OpV::IsDir(path_join(helper_dir_text(s, i), s.targets[k]))),
        )
    } else {
        aur_after(s, pre, i)
    }
}

pub open spec fn helper_dir_text(s: AurCacheV, i: int) -> Seq<char> {
    match helper_dir(s, i) {
        Some(d) => d,
        None => seq![],
    }
}

/// Measure helper `i`'s dir again.
pub open spec fn aur_after(s: AurCacheV, pre: Seq<LineV>, i: int) -> (AurCacheV, StepV)
    decreases s.helpers.len() - i, 1int,
{
    if !(0 <= i < s.helpers.len()) {
        (ast(s, AurStage::Finished), done(pre, s.total))
    } else {
        match helper_dir(s, i) {
            Some(d) => (ast(s, AurStage::After(i as usize)), ask(pre, OpV::DirSize(d))),
            None => aur_done_one(s, pre, i, 0),
        }
    }
}

/// Report helper `i`'s freed bytes and go on.
pub open spec fn aur_done_one(s: AurCacheV, pre: Seq<LineV>, i: int, after: u64) -> (AurCacheV, StepV)
    decreases s.helpers.len() - i, 0int,
{
    if !(0 <= i < s.helpers.len()) {
        (ast(s, AurStage::Finished), done(pre, s.total))
    } else {
    let bin = s.helpers[i].bin@;
    let freed = sub0(s.before, after);
    let l = if freed > 0 {
        l2(LineKind::Success, bin + " — freed "@, fmt(freed), Style::Green)
    } else {
        l1(LineKind::Success, bin + " — already clean"@)
    };
    aur_helper(AurCacheV { total: sat_add(s.total, freed), ..s }, pre.push(l), i + 1)
    }
}

pub open spec fn deep_prompt(bin: Seq<char>, args: Seq<Seq<char>>) -> Seq<char> {
    "Run "@ + bin + " "@ + join_space(args) + "? (removes ALL cached AUR packages) [y/N]:"@
}

pub open spec fn deep_run(s: AurCacheV, i: int) -> OpV {
    let h = s.helpers[i];
    match h.deep_clean {
        Some(d) => crate::plan::cmd(h.bin, d@, false, true),
        None => crate::plan::cmd(h.bin, seq![], false, true),
    }
}

/// One transition of the AUR cache cleanup.
pub open spec fn aur_next(s: AurCacheV, r: ReplyV) -> (AurCacheV, StepV) {
    let ok = flag_of(r);
    match s.stage {
        AurStage::Begin => {
            let head = l1(LineKind::Section, "AUR Cache"@);
            if s.helpers.len() == 0 {
                (
                    ast(s, AurStage::Finished),
                    done(seq![head, l1(LineKind::Skip, "No AUR helper found — skipped"@)], 0),
                )
            } else if s.dry_run {
                (ast(s, AurStage::Finished), done(seq![head] + dry_helpers(s.helpers, s.deep), 0))
            } else {
                (ast(s, AurStage::List), ask(seq![head], OpV::ListDir("/var/cache/pacman/pkg"@)))
            }
        },
        AurStage::List => {
            let paths = partial_paths(names_of(r));
            if paths.len() > 0 {
                (
                    ast(s, AurStage::Sweep),
                    ask(
                        seq![],
                        OpV::Run { cmd: "rm"@, args: seq!["-rf"@] + paths, elevated: true, quiet: true },
                    ),
                )
            } else {
                (ast(s, AurStage::Xdg), ask(seq![], OpV::Env("XDG_CACHE_HOME"@)))
            }
        },
        AurStage::Sweep => (ast(s, AurStage::Xdg), ask(seq![], OpV::Env("XDG_CACHE_HOME"@))),
        AurStage::Xdg => match text_of(r) {
            Some(x) if x.len() > 0 => aur_helper(AurCacheV { base: Some(x), ..s }, seq![], 0),
            _ => (ast(s, AurStage::Home), ask(seq![], OpV::Env("HOME"@))),
        },
        AurStage::Home => aur_helper(
            AurCacheV {
                base: match text_of(r) {
                    Some(h) => Some(path_join(h, ".cache"@)),
                    None => None,
                },
                ..s
            },
            seq![],
            0,
        ),
        AurStage::Before(i) => if i < s.helpers.len() {
            aur_clean(AurCacheV { before: size_of(r), ..s }, seq![], i as int)
        } else {
            (ast(s, AurStage::Finished), done(seq![], s.total))
        },
        AurStage::Clean(i) => if i < s.helpers.len() {
            let h = s.helpers[i as int];
            if !ok {
                let args = match h.clean {
                    Some(a) => str_views(a@),
                    None => seq![],
                };
                aur_helper(s, seq![fail_line(h.bin@, args)], i + 1)
            } else {
                match h.deep_clean {
                    Some(d) => match gate_of(s.deep, s.yes) {
                        Gate::Run => (ast(s, AurStage::Deep(i)), ask(seq![], deep_run(s, i as int))),
                        Gate::Skip => aur_after(s, seq![], i as int),
                        Gate::Ask => (
                            ast(s, AurStage::Confirm(i)),
                            ask(seq![], OpV::Confirm(deep_prompt(h.bin@, str_views(d@)))),
                        ),
                    },
                    None => aur_after(s, seq![], i as int),
                }
            }
        } else {
            (ast(s, AurStage::Finished), done(seq![], s.total))
        },
        AurStage::Confirm(i) => if i < s.helpers.len() {
            if ok {
                (ast(s, AurStage::Deep(i)), ask(seq![], deep_run(s, i as int)))
            } else {
                aur_after(s, seq![], i as int)
            }
        } else {
            (ast(s, AurStage::Finished), done(seq![], s.total))
        },
        AurStage::Deep(i) => if i < s.helpers.len() {
            let h = s.helpers[i as int];
            if ok {
                aur_after(s, seq![], i as int)
            } else {
                let args = match h.deep_clean {
                    Some(a) => str_views(a@),
                    None => seq![],
                };
                aur_after(s, seq![fail_line(h.bin@, args)], i as int)
            }
        } else {
            (ast(s, AurStage::Finished), done(seq![], s.total))
        },
        AurStage::PruneIsDir(i, k) => if i < s.helpers.len() && k < s.targets.len() {
            if ok {
                (
                    ast(s, AurStage::PruneRm(i, k)),
                    ask(seq![], OpV::RmContents(path_join(helper_dir_text(s, i as int), s.targets[k as int]))),
                )
            } else {
                aur_prune(s, seq![], i as int, k + 1)
            }
        } else {
            (ast(s, AurStage::Finished), done(seq![], s.total))
        },
        AurStage::PruneRm(i, k) => if i < s.helpers.len() {
            aur_prune(s, seq![], i as int, k + 1)
        } else {
            (ast(s, AurStage::Finished), done(seq![], s.total))
        },
        AurStage::After(i) => if i < s.helpers.len() {
            aur_done_one(s, seq![], i as int, size_of(r))
        } else {
            (ast(s, AurStage::Finished), done(seq![], s.total))
        },
        AurStage::Finished => (s, done(seq![], s.total)),
    }
}

/// Start cleaning the caches of the installed AUR `helpers`.
pub fn aur_cache(helpers: &[AurHelper], deep: bool, dry_run: bool, yes: bool) -> (m: AurCache)
    ensures
        m@ == (AurCacheV {
            helpers: helpers@,
            deep,
            dry_run,
            yes,
            stage: AurStage::Begin,
            base: None,
            before: 0,
            total: 0,
            targets: seq![],
        }),
{
    let m = AurCache {
        helpers: vstd::slice::slice_to_vec(helpers),
        deep,
        dry_run,
        yes,
        stage: AurStage::Begin,
        base: None,
        before: 0,
        total: 0,
        targets: Vec::new(),
    };
    assert(m@.targets =~= seq![]);
    m
}

impl AurCache {
    fn dir_of(&self, i: usize) -> (d: Option<String>)
        requires
            i < self.helpers@.len(),
        ensures
            d matches Some(x) ==> helper_dir(self@, i as int) == Some(x@),
            d is None ==> helper_dir(self@, i as int) is None,
    {
        match &self.base {
            Some(b) => Some(path_join_exec(b.as_str(), self.helpers[i].bin)),
            None => None,
        }
    }

    fn dry_lines(&self) -> (v: Vec<Line>)
        ensures
            line_views(v@) == dry_helpers(self@.helpers, self@.deep),
    {
        let mut v: Vec<Line> = Vec::new();
        let mut i: usize = 0;
        while i < self.helpers.len()
            invariant
                0 <= i <= self.helpers@.len(),
                line_views(v@) == dry_helpers(self@.helpers.take(i as int), self@.deep),
            decreases self.helpers@.len() - i,
        {
            let h = self.helpers[i];
            let ghost before = line_views(v@);
            let chosen = if self.deep {
                h.deep_clean
            } else {
                h.clean
            };
            match chosen {
                Some(args) => {
                    let t = cat("[DRY RUN] Would run: ", h.bin).concat(" ").concat(join_words(args).as_str());
                    push_line(&mut v, line1s(LineKind::Info, t));
                },
                None => {
                    let ts = prune_targets(&h, self.deep);
                    let mut k: usize = 0;
                    while k < ts.len()
                        invariant
                            0 <= k <= ts.len(),
                            str_views(ts@) == prune_list(h, self@.deep),
                            line_views(v@) == before + dry_helper(h, self@.deep).take(k as int),
                            chosen is None,
                            chosen == (if self@.deep { h.deep_clean } else { h.clean }),
                        decreases ts.len() - k,
                    {
                        let t = cat("[DRY RUN] Would clear: ", h.bin).concat("/").concat(ts[k]);
                        let ghost b2 = line_views(v@);
                        push_line(&mut v, line1s(LineKind::Info, t));
                        assert(dry_helper(h, self@.deep).take(k + 1) =~= dry_helper(h, self@.deep).take(
                            k as int,
                        ).push(l1(LineKind::Info, "[DRY RUN] Would clear: "@ + h.bin@ + "/"@ + ts@[k as int]@)));
                        k = k + 1;
                    }
                    assert(dry_helper(h, self@.deep).take(ts.len() as int) =~= dry_helper(h, self@.deep));
                },
            }
            assert(self@.helpers.take(i + 1).drop_last() =~= self@.helpers.take(i as int));
            assert(self@.helpers.take(i + 1).last() == h);
            assert(line_views(v@) =~= before + dry_helper(h, self@.deep));
            i = i + 1;
        }
        assert(self@.helpers.take(self.helpers@.len() as int) =~= self@.helpers);
        v
    }

    fn helper(&mut self, pre: Vec<Line>, i: usize) -> (st: Step)
        ensures
            (final(self)@, st@) == aur_helper(old(self)@, line_views(pre@), i as int),
        decreases old(self)@.helpers.len() - i, 4int,
    {
        if i < self.helpers.len() {
            match self.dir_of(i) {
                Some(d) => {
                    self.stage = AurStage::Before(i);
                    ask_step(pre, Op::DirSize(d))
                },
                None => {
                    self.before = 0;
                    self.clean(pre, i)
                },
            }
        } else {
            self.stage = AurStage::Finished;
            done_step(pre, self.total)
        }
    }

    fn clean(&mut self, pre: Vec<Line>, i: usize) -> (st: Step)
        requires
            i < old(self)@.helpers.len(),
        ensures
            (final(self)@, st@) == aur_clean(old(self)@, line_views(pre@), i as int),
        decreases old(self)@.helpers.len() - i, 3int,
    {
        let h = self.helpers[i];
        match h.clean {
            Some(args) => {
                self.stage = AurStage::Clean(i);
                ask_step(pre, crate::plan::run_op(h.bin, args, false, true))
            },
            None => match self.dir_of(i) {
                None => {
                    let mut pre = pre;
                    push_line(&mut pre, line1s(LineKind::Error, cat(h.bin, ": cannot determine cache directory")));
                    let n = self.helpers.len();
                    assert(i < n);
                    self.helper(pre, i + 1)
                },
                Some(_) => {
                    self.targets = prune_targets(&h, self.deep);
                    self.prune(pre, i, 0)
                },
            },
        }
    }

    fn prune(&mut self, pre: Vec<Line>, i: usize, k: usize) -> (st: Step)
        requires
            i < old(self)@.helpers.len(),
        ensures
            (final(self)@, st@) == aur_prune(old(self)@, line_views(pre@), i as int, k as int),
        decreases old(self)@.helpers.len() - i, 2int,
    {
        if k < self.targets.len() {
            let d = match self.dir_of(i) {
                Some(d) => d,
                None => String::new(),
            };
            let t = path_join_exec(d.as_str(), self.targets[k]);
            self.stage = AurStage::PruneIsDir(i, k);
            ask_step(pre, Op::IsDir(t))
        } else {
            self.after(pre, i)
        }
    }

    fn after(&mut self, pre: Vec<Line>, i: usize) -> (st: Step)
        requires
            i < old(self)@.helpers.len(),
        ensures
            (final(self)@, st@) == aur_after(old(self)@, line_views(pre@), i as int),
        decreases old(self)@.helpers.len() - i, 1int,
    {
        match self.dir_of(i) {
            Some(d) => {
                self.stage = AurStage::After(i);
                ask_step(pre, Op::DirSize(d))
            },
            None => self.done_one(pre, i, 0),
        }
    }

    fn done_one(&mut self, pre: Vec<Line>, i: usize, after: u64) -> (st: Step)
        requires
            i < old(self)@.helpers.len(),
        ensures
            (final(self)@, st@) == aur_done_one(old(self)@, line_views(pre@), i as int, after),
        decreases old(self)@.helpers.len() - i, 0int,
    {
        let bin = self.helpers[i].bin;
        let freed: u64 = if self.before >= after {
            self.before - after
        } else {
            0
        };
        let l = if freed > 0 {
            line2(LineKind::Success, cat(bin, " — freed ").as_str(), format_size(freed), Style::Green)
        } else {
            line1s(LineKind::Success, cat(bin, " — already clean"))
        };
        self.total = self.total.saturating_add(freed);
        let mut pre = pre;
        push_line(&mut pre, l);
        let n = self.helpers.len();
        assert(i < n);
        self.helper(pre, i + 1)
    }

    fn deep_op(&self, i: usize) -> (op: Op)
        requires
            i < self@.helpers.len(),
        ensures
            op@ == deep_run(self@, i as int),
    {
        let h = self.helpers[i];
        match h.deep_clean {
            Some(d) => crate::plan::run_op(h.bin, d, false, true),
            None => crate::plan::run_bare(h.bin, false, true),
        }
    }

    /// Feed the answer to the previous request; get the next step.
    pub fn step(&mut self, r: &Reply) -> (st: Step)
        ensures
            (final(self)@, st@) == aur_next(old(self)@, r@),
    {
        let ok = flag_reply(r);
        match self.stage {
            AurStage::Begin => {
                let head = line1(LineKind::Section, "AUR Cache");
                if self.helpers.len() == 0 {
                    self.stage = AurStage::Finished;
                    done_step(
                        crate::plan::two_lines(head, line1(LineKind::Skip, "No AUR helper found — skipped")),
                        0,
                    )
                } else if self.dry_run {
                    let mut v = one_line(head);
                    let mut d = self.dry_lines();
                    let ghost v0 = v@;
                    let ghost d0 = d@;
                    v.append(&mut d);
                    assert(v@ =~= v0 + d0);
                    assert(line_views(v@) =~= line_views(v0) + line_views(d0));
                    self.stage = AurStage::Finished;
                    done_step(v, 0)
                } else {
                    self.stage = AurStage::List;
                    ask_step(one_line(head), Op::ListDir(String::from_str("/var/cache/pacman/pkg")))
                }
            },
            AurStage::List => {
                let paths = find_partial_downloads(names_reply(r));
                if paths.len() > 0 {
                    let mut head: Vec<String> = Vec::new();
                    head.push(String::from_str("-rf"));
                    assert(views(head@) =~= seq!["-rf"@]);
                    let args = crate::packages::append_args(head, &paths);
                    self.stage = AurStage::Sweep;
                    ask_step(no_lines(), Op::Run { cmd: String::from_str("rm"), args, elevated: true, quiet: true })
                } else {
                    self.stage = AurStage::Xdg;
                    ask_step(no_lines(), Op::Env(String::from_str("XDG_CACHE_HOME")))
                }
            },
            AurStage::Sweep => {
                self.stage = AurStage::Xdg;
                ask_step(no_lines(), Op::Env(String::from_str("XDG_CACHE_HOME")))
            },
            AurStage::Xdg => {
                match r {
                    Reply::Text(Some(x)) => {
                        let cx = chars_of(x.as_str());
                        if cx.len() > 0 {
                            self.base = Some(x.clone());
                            return self.helper(no_lines(), 0);
                        }
                    },
                    _ => {},
                }
                self.stage = AurStage::Home;
                ask_step(no_lines(), Op::Env(String::from_str("HOME")))
            },
            AurStage::Home => {
                self.base = match r {
                    Reply::Text(Some(h)) => Some(path_join_exec(h.as_str(), ".cache")),
                    _ => None,
                };
                self.helper(no_lines(), 0)
            },
            AurStage::Before(i) => {
                if i < self.helpers.len() {
                    self.before = size_reply(r);
                    self.clean(no_lines(), i)
                } else {
                    self.stage = AurStage::Finished;
                    done_step(no_lines(), self.total)
                }
            },
            AurStage::Clean(i) => {
                if i < self.helpers.len() {
                    let h = self.helpers[i];
                    if !ok {
                        let a: &[&str] = match h.clean {
                            Some(a) => a,
                            None => &[],
                        };
                        assert(str_views(a@) =~= match h.clean {
                            Some(a) => str_views(a@),
                            None => seq![],
                        });
                        let t = cat(h.bin, " ").concat(join_words(a).as_str()).concat(" failed");
                        self.helper(one_line(line1s(LineKind::Error, t)), i + 1)
                    } else {
                        match h.deep_clean {
                            Some(d) => match should_deep(self.deep, self.yes) {
                                Gate::Run => {
                                    self.stage = AurStage::Deep(i);
                                    let op = self.deep_op(i);
                                    ask_step(no_lines(), op)
                                },
                                Gate::Skip => self.after(no_lines(), i),
                                Gate::Ask => {
                                    let t = cat("Run ", h.bin).concat(" ").concat(join_words(d).as_str()).concat(
                                        "? (removes ALL cached AUR packages) [y/N]:",
                                    );
                                    self.stage = AurStage::Confirm(i);
                                    ask_step(no_lines(), Op::Confirm(t))
                                },
                            },
                            None => self.after(no_lines(), i),
                        }
                    }
                } else {
                    self.stage = AurStage::Finished;
                    done_step(no_lines(), self.total)
                }
            },
            AurStage::Confirm(i) => {
                if i < self.helpers.len() {
                    if ok {
                        self.stage = AurStage::Deep(i);
                        let op = self.deep_op(i);
                        ask_step(no_lines(), op)
                    } else {
                        self.after(no_lines(), i)
                    }
                } else {
                    self.stage = AurStage::Finished;
                    done_step(no_lines(), self.total)
                }
            },
            AurStage::Deep(i) => {
                if i < self.helpers.len() {
                    let h = self.helpers[i];
                    if ok {
                        self.after(no_lines(), i)
                    } else {
                        let a: &[&str] = match h.deep_clean {
                            Some(a) => a,
                            None => &[],
                        };
                        assert(str_views(a@) =~= match h.deep_clean {
                            Some(a) => str_views(a@),
                            None => seq![],
                        });
                        let t = cat(h.bin, " ").concat(join_words(a).as_str()).concat(" failed");
                        self.after(one_line(line1s(LineKind::Error, t)), i)
                    }
                } else {
                    self.stage = AurStage::Finished;
                    done_step(no_lines(), self.total)
                }
            },
            AurStage::PruneIsDir(i, k) => {
                if i < self.helpers.len() && k < self.targets.len() {
                    if ok {
                        let d = match self.dir_of(i) {
                            Some(d) => d,
                            None => String::new(),
                        };
                        let t = path_join_exec(d.as_str(), self.targets[k]);
                        self.stage = AurStage::PruneRm(i, k);
                        ask_step(no_lines(), Op::RmContents(t))
                    } else {
                        self.prune(no_lines(), i, k + 1)
                    }
                } else {
                    self.stage = AurStage::Finished;
                    done_step(no_lines(), self.total)
                }
            },
            AurStage::PruneRm(i, k) => {
                if i < self.helpers.len() {
                    if k < usize::MAX {
                        self.prune(no_lines(), i, k + 1)
                    } else {
                        let n = self.targets.len();
                        assert(!(0 <= k + 1 < self@.targets.len()));
                        self.prune(no_lines(), i, n)
                    }
                } else {
                    self.stage = AurStage::Finished;
                    done_step(no_lines(), self.total)
                }
            },
            AurStage::After(i) => {
                if i < self.helpers.len() {
                    self.done_one(no_lines(), i, size_reply(r))
                } else {
                    self.stage = AurStage::Finished;
                    done_step(no_lines(), self.total)
                }
            },
            AurStage::Finished => done_step(no_lines(), self.total),
        }
    }
}

} // verus!
