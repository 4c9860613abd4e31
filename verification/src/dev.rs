//! Dev-tool caches: scan first (sizes, nothing touched), print a summary,
//! then clean each tool the way that tool wants.
//!
//! Never deleted: installed binaries (`~/.cargo/bin`, global `node_modules`),
//! poetry virtualenvs, Gradle distributions. pnpm's hard-linked store and
//! Go's read-only module cache go through their own commands. Anything that
//! costs a re-download waits for `--deep`.
use vstd::prelude::*;
use crate::clean::{fmt, sat_add};
use crate::packages::sub0;
use crate::plan::{
    ask, ask_step, cat, done, done_step, flag_of, flag_reply, l1, l2, line1, line1s, line2,
    line_views, ln, names_of, no_lines, one_line, pv, push_line, size_of, size_reply, text_of,
    Line, LineV, Op, OpV, Part, Reply, ReplyV, Step, StepV, Style,
};
use crate::text::{chars_of, path_join, path_join_exec, str_views, views};
use crate::usercache::sum_sat;
use crate::utils::{format_size, LineKind};

verus! {

// ═══════════════════════════ The tool table ═══════════════════════════

/// Where a tool keeps its cache.
#[derive(Clone, Copy)]
pub enum Loc {
    /// A fixed path below the home directory.
    Home(&'static str),
    /// What `cmd a b` prints, when `cmd` is on `$PATH` and prints something;
    /// else the path below home.
    Probe(&'static str, &'static str, &'static str, &'static str),
    /// The variable's value when set and non-empty; else the path below home.
    EnvDir(&'static str, &'static str),
}

/// When a tool's cache is listed.
#[derive(Clone, Copy)]
pub enum Presence {
    /// When its directory exists and holds something.
    Always,
    /// Whenever the command is on `$PATH`, with no measurable size.
    Listed(&'static str),
    /// When the command is on `$PATH` and its directory holds something.
    IfTool(&'static str),
}

/// How a tool's cache is cleaned.
#[derive(Clone, Copy)]
pub enum Cleaner {
    /// Empty the directory, keeping it.
    Contents,
    /// Run the tool's own command and measure the directory around it.
    /// With `check`, only when the command is on `$PATH`; otherwise empty
    /// the directory (`fallback`) or do nothing.
    Command { bin: &'static str, args: &'static [&'static str], check: bool, fallback: bool },
    /// Run the command; it frees an amount nobody can measure.
    Fire { bin: &'static str, args: &'static [&'static str] },
}

/// A dev tool whose cache we know how to clean.
#[derive(Clone, Copy)]
pub struct DevTool {
    pub name: &'static str,
    pub loc: Loc,
    pub presence: Presence,
    pub needs_redownload: bool,
    pub note: &'static str,
    pub cleaner: Cleaner,
}

#[verifier::ext_equal]
pub enum LocV {
    Home(Seq<char>),
    Probe(Seq<char>, Seq<char>, Seq<char>, Seq<char>),
    EnvDir(Seq<char>, Seq<char>),
}

#[verifier::ext_equal]
pub enum PresenceV {
    Always,
    Listed(Seq<char>),
    IfTool(Seq<char>),
}

#[verifier::ext_equal]
pub enum CleanerV {
    Contents,
    Command { bin: Seq<char>, args: Seq<Seq<char>>, check: bool, fallback: bool },
    Fire { bin: Seq<char>, args: Seq<Seq<char>> },
}

#[verifier::ext_equal]
pub struct DevToolV {
    pub name: Seq<char>,
    pub loc: LocV,
    pub presence: PresenceV,
    pub needs_redownload: bool,
    pub note: Seq<char>,
    pub cleaner: CleanerV,
}

impl View for Loc {
    type V = LocV;

    open spec fn view(&self) -> LocV {
        match self {
            Loc::Home(s) => LocV::Home(s@),
            Loc::Probe(c, a, b, f) => LocV::Probe(c@, a@, b@, f@),
            Loc::EnvDir(v, f) => LocV::EnvDir(v@, f@),
        }
    }
}

impl View for Presence {
    type V = PresenceV;

    open spec fn view(&self) -> PresenceV {
        match self {
            Presence::Always => PresenceV::Always,
            Presence::Listed(c) => PresenceV::Listed(c@),
            Presence::IfTool(c) => PresenceV::IfTool(c@),
        }
    }
}

impl View for Cleaner {
    type V = CleanerV;

    open spec fn view(&self) -> CleanerV {
        match self {
            Cleaner::Contents => CleanerV::Contents,
            Cleaner::Command { bin, args, check, fallback } => CleanerV::Command {
                bin: bin@,
                args: str_views(args@),
                check: *check,
                fallback: *fallback,
            },
            Cleaner::Fire { bin, args } => CleanerV::Fire { bin: bin@, args: str_views(args@) },
        }
    }
}

impl View for DevTool {
    type V = DevToolV;

    open spec fn view(&self) -> DevToolV {
        DevToolV {
            name: self.name@,
            loc: self.loc@,
            presence: self.presence@,
            needs_redownload: self.needs_redownload,
            note: self.note@,
            cleaner: self.cleaner@,
        }
    }
}

pub open spec fn tool_views(v: Seq<DevTool>) -> Seq<DevToolV> {
    v.map_values(|t: DevTool| t@)
}

pub open spec fn tv(
    name: Seq<char>,
    loc: LocV,
    presence: PresenceV,
    needs_redownload: bool,
    note: Seq<char>,
    cleaner: CleanerV,
) -> DevToolV {
    DevToolV { name, loc, presence, needs_redownload, note, cleaner }
}

pub open spec fn cmd_v(bin: Seq<char>, args: Seq<Seq<char>>, check: bool, fallback: bool) -> CleanerV {
    CleanerV::Command { bin, args, check, fallback }
}

/// Every dev tool we scan, in display order.
pub open spec fn dev_table() -> Seq<DevToolV> {
    seq![
        tv("npm"@, LocV::Home(".npm/_cacache"@), PresenceV::Always, false, "safe"@, CleanerV::Contents),
        tv("yarn (classic)"@, LocV::Home(".cache/yarn"@), PresenceV::Always, false, "safe"@, CleanerV::Contents),
        tv("yarn (berry)"@, LocV::Home(".yarn/berry/cache"@), PresenceV::Always, false, "safe"@, CleanerV::Contents),
        tv("bun"@, LocV::Home(".bun/install/cache"@), PresenceV::Always, false, "safe"@, CleanerV::Contents),
        tv(
            "pnpm"@,
            LocV::Probe("pnpm"@, "store"@, "path"@, ".local/share/pnpm/store"@),
            PresenceV::Always,
            false,
            "store prune"@,
            cmd_v("pnpm"@, seq!["store"@, "prune"@], false, false),
        ),
        tv(
            "deno"@,
            LocV::EnvDir("DENO_DIR"@, ".cache/deno"@),
            PresenceV::Always,
            false,
            "safe"@,
            cmd_v("deno"@, seq!["clean"@], true, true),
        ),
        tv(
            "pip"@,
            LocV::Home(".cache/pip"@),
            PresenceV::Always,
            false,
            "safe"@,
            cmd_v("pip"@, seq!["cache"@, "purge"@], true, true),
        ),
        tv(
            "uv"@,
            LocV::Probe("uv"@, "cache"@, "dir"@, ".cache/uv"@),
            PresenceV::Always,
            false,
            "safe"@,
            cmd_v("uv"@, seq!["cache"@, "clean"@], true, true),
        ),
        tv("pipenv"@, LocV::Home(".cache/pipenv"@), PresenceV::Always, false, "safe"@, CleanerV::Contents),
        tv(
            "poetry"@,
            LocV::Home(".cache/pypoetry/cache"@),
            PresenceV::Always,
            false,
            "safe (virtualenvs preserved)"@,
            CleanerV::Contents,
        ),
        tv(
            "cargo registry/src"@,
            LocV::Home(".cargo/registry/src"@),
            PresenceV::Always,
            false,
            "re-extract only"@,
            CleanerV::Contents,
        ),
        tv(
            "cargo git/checkouts"@,
            LocV::Home(".cargo/git/checkouts"@),
            PresenceV::Always,
            false,
            "re-extract only"@,
            CleanerV::Contents,
        ),
        tv(
            "cargo registry/cache"@,
            LocV::Home(".cargo/registry/cache"@),
            PresenceV::Always,
            true,
            "re-download on next build"@,
            CleanerV::Contents,
        ),
        tv(
            "cargo git/db"@,
            LocV::Home(".cargo/git/db"@),
            PresenceV::Always,
            true,
            "re-download on next build"@,
            CleanerV::Contents,
        ),
        tv(
            "go modules"@,
            LocV::Probe("go"@, "env"@, "GOMODCACHE"@, "go/pkg/mod"@),
            PresenceV::Always,
            true,
            "re-download on next build"@,
            cmd_v("go"@, seq!["clean"@, "-modcache"@], true, false),
        ),
        tv(
            "ruby gems (old versions)"@,
            LocV::Home(""@),
            PresenceV::Listed("gem"@),
            false,
            "gem cleanup"@,
            CleanerV::Fire { bin: "gem"@, args: seq!["cleanup"@] },
        ),
        tv(
            "composer"@,
            LocV::Home(".cache/composer"@),
            PresenceV::IfTool("composer"@),
            false,
            "safe"@,
            cmd_v("composer"@, seq!["clear-cache"@, "--no-interaction"@], true, false),
        ),
        tv("gradle"@, LocV::Home(".gradle/caches"@), PresenceV::Always, false, "safe"@, CleanerV::Contents),
        tv(
            "maven (.m2)"@,
            LocV::Home(".m2/repository"@),
            PresenceV::Always,
            true,
            "re-download on next build"@,
            CleanerV::Contents,
        ),
    ]
}

/// The dev-tool table. Each cleaned path is a leaf cache directory:
/// `~/.cargo/bin`, poetry's `virtualenvs/`, Gradle's `wrapper/` and npm's
/// global `lib/node_modules` are never among them.
#[verifier::rlimit(60)]
pub fn dev_tools() -> (v: Vec<DevTool>)
    ensures
        tool_views(v@) =~~= dev_table(),
{
    let v = vec![
        DevTool { name: "npm", loc: Loc::Home(".npm/_cacache"), presence: Presence::Always, needs_redownload: false, note: "safe", cleaner: Cleaner::Contents },
        DevTool { name: "yarn (classic)", loc: Loc::Home(".cache/yarn"), presence: Presence::Always, needs_redownload: false, note: "safe", cleaner: Cleaner::Contents },
        DevTool { name: "yarn (berry)", loc: Loc::Home(".yarn/berry/cache"), presence: Presence::Always, needs_redownload: false, note: "safe", cleaner: Cleaner::Contents },
        DevTool { name: "bun", loc: Loc::Home(".bun/install/cache"), presence: Presence::Always, needs_redownload: false, note: "safe", cleaner: Cleaner::Contents },
        DevTool {
            name: "pnpm",
            loc: Loc::Probe("pnpm", "store", "path", ".local/share/pnpm/store"),
            presence: Presence::Always,
            needs_redownload: false,
            note: "store prune",
            cleaner: Cleaner::Command { bin: "pnpm", args: &["store", "prune"], check: false, fallback: false },
        },
        DevTool {
            name: "deno",
            loc: Loc::EnvDir("DENO_DIR", ".cache/deno"),
            presence: Presence::Always,
            needs_redownload: false,
            note: "safe",
            cleaner: Cleaner::Command { bin: "deno", args: &["clean"], check: true, fallback: true },
        },
        DevTool {
            name: "pip",
            loc: Loc::Home(".cache/pip"),
            presence: Presence::Always,
            needs_redownload: false,
            note: "safe",
            cleaner: Cleaner::Command { bin: "pip", args: &["cache", "purge"], check: true, fallback: true },
        },
        DevTool {
            name: "uv",
            loc: Loc::Probe("uv", "cache", "dir", ".cache/uv"),
            presence: Presence::Always,
            needs_redownload: false,
            note: "safe",
            cleaner: Cleaner::Command { bin: "uv", args: &["cache", "clean"], check: true, fallback: true },
        },
        DevTool { name: "pipenv", loc: Loc::Home(".cache/pipenv"), presence: Presence::Always, needs_redownload: false, note: "safe", cleaner: Cleaner::Contents },
        DevTool {
            name: "poetry",
            loc: Loc::Home(".cache/pypoetry/cache"),
            presence: Presence::Always,
            needs_redownload: false,
            note: "safe (virtualenvs preserved)",
            cleaner: Cleaner::Contents,
        },
        DevTool {
            name: "cargo registry/src",
            loc: Loc::Home(".cargo/registry/src"),
            presence: Presence::Always,
            needs_redownload: false,
            note: "re-extract only",
            cleaner: Cleaner::Contents,
        },
        DevTool {
            name: "cargo git/checkouts",
            loc: Loc::Home(".cargo/git/checkouts"),
            presence: Presence::Always,
            needs_redownload: false,
            note: "re-extract only",
            cleaner: Cleaner::Contents,
        },
        DevTool {
            name: "cargo registry/cache",
            loc: Loc::Home(".cargo/registry/cache"),
            presence: Presence::Always,
            needs_redownload: true,
            note: "re-download on next build",
            cleaner: Cleaner::Contents,
        },
        DevTool {
            name: "cargo git/db",
            loc: Loc::Home(".cargo/git/db"),
            presence: Presence::Always,
            needs_redownload: true,
            note: "re-download on next build",
            cleaner: Cleaner::Contents,
        },
        DevTool {
            name: "go modules",
            loc: Loc::Probe("go", "env", "GOMODCACHE", "go/pkg/mod"),
            presence: Presence::Always,
            needs_redownload: true,
            note: "re-download on next build",
            cleaner: Cleaner::Command { bin: "go", args: &["clean", "-modcache"], check: true, fallback: false },
        },
        DevTool {
            name: "ruby gems (old versions)",
            loc: Loc::Home(""),
            presence: Presence::Listed("gem"),
            needs_redownload: false,
            note: "gem cleanup",
            cleaner: Cleaner::Fire { bin: "gem", args: &["cleanup"] },
        },
        DevTool {
            name: "composer",
            loc: Loc::Home(".cache/composer"),
            presence: Presence::IfTool("composer"),
            needs_redownload: false,
            note: "safe",
            cleaner: Cleaner::Command { bin: "composer", args: &["clear-cache", "--no-interaction"], check: true, fallback: false },
        },
        DevTool { name: "gradle", loc: Loc::Home(".gradle/caches"), presence: Presence::Always, needs_redownload: false, note: "safe", cleaner: Cleaner::Contents },
        DevTool {
            name: "maven (.m2)",
            loc: Loc::Home(".m2/repository"),
            presence: Presence::Always,
            needs_redownload: true,
            note: "re-download on next build",
            cleaner: Cleaner::Contents,
        },
    ];
    proof {
        reveal_strlit("store");
        reveal_strlit("prune");
        reveal_strlit("clean");
        reveal_strlit("cache");
        reveal_strlit("purge");
        reveal_strlit("-modcache");
        reveal_strlit("cleanup");
        reveal_strlit("clear-cache");
        reveal_strlit("--no-interaction");
        assert(tool_views(v@).len() == dev_table().len());
        assert forall|i: int| 0 <= i < dev_table().len() implies #[trigger] tool_views(v@)[i] =~~= dev_table()[i] by {
        }
    }
    assert(tool_views(v@) =~~= dev_table());
    v
}

// ═══════════════════════════ Detected caches ═══════════════════════════

/// A single dev tool's cache, as the summary shows it and the cleaner acts
/// on it.
#[derive(Clone, Copy)]
pub struct DevCache {
    pub name: &'static str,
    pub size: u64,
    /// Cleaning it forces a re-download on the next build; gated behind
    /// `--deep`.
    pub needs_redownload: bool,
    /// Short note shown in the summary.
    pub note: &'static str,
}

pub open spec fn sizes_of(caches: Seq<DevCache>) -> Seq<u64> {
    caches.map_values(|c: DevCache| c.size)
}

/// Sizes of the caches cleaned in a given mode: without `--deep`, those
/// that need a re-download count 0.
pub open spec fn cleanable_sizes(caches: Seq<DevCache>, deep: bool) -> Seq<u64> {
    caches.map_values(|c: DevCache| if deep || !c.needs_redownload { c.size } else { 0 })
}

/// Total size of all detected caches (saturating).
pub fn total_size(caches: &[DevCache]) -> (n: u64)
    ensures
        n == sum_sat(sizes_of(caches@)),
{
    let mut n: u64 = 0;
    let mut i: usize = 0;
    while i < caches.len()
        invariant
            0 <= i <= caches.len(),
            n == sum_sat(sizes_of(caches@).take(i as int)),
        decreases caches.len() - i,
    {
        assert(sizes_of(caches@).take(i + 1).drop_last() =~= sizes_of(caches@).take(i as int));
        n = n.saturating_add(caches[i].size);
        i = i + 1;
    }
    assert(sizes_of(caches@).take(caches.len() as int) =~= sizes_of(caches@));
    n
}

/// Total size of the caches cleaned in the given mode: without `--deep`,
/// anything that needs a re-download is left out.
pub fn cleanable_size(caches: &[DevCache], deep: bool) -> (n: u64)
    ensures
        n == sum_sat(cleanable_sizes(caches@, deep)),
{
    let mut n: u64 = 0;
    let mut i: usize = 0;
    while i < caches.len()
        invariant
            0 <= i <= caches.len(),
            n == sum_sat(cleanable_sizes(caches@, deep).take(i as int)),
        decreases caches.len() - i,
    {
        assert(cleanable_sizes(caches@, deep).take(i + 1).drop_last() =~= cleanable_sizes(
            caches@,
            deep,
        ).take(i as int));
        let c = caches[i];
        if deep || !c.needs_redownload {
            n = n.saturating_add(c.size);
        } else {
            n = n.saturating_add(0);
        }
        i = i + 1;
    }
    assert(cleanable_sizes(caches@, deep).take(caches.len() as int) =~= cleanable_sizes(caches@, deep));
    n
}

// ═══════════════════════════ Summary table ═══════════════════════════

pub open spec fn spaces(n: int) -> Seq<char> {
    Seq::new(if n > 0 { n as nat } else { 0 }, |i: int| ' ')
}

/// `{:w$}`: left-aligned in a field of `w` characters.
pub open spec fn pad_right(s: Seq<char>, w: int) -> Seq<char> {
    s + spaces(w - s.len())
}

/// `{:>w$}`: right-aligned in a field of `w` characters.
pub open spec fn pad_left(s: Seq<char>, w: int) -> Seq<char> {
    spaces(w - s.len()) + s
}

/// The widest name, in bytes (`str::len`), and at least 8.
pub open spec fn name_width(caches: Seq<DevCache>) -> usize
    decreases caches.len(),
{
    if caches.len() == 0 {
        8
    } else {
        let w = name_width(caches.drop_last());
        let n = caches.last().name.len();
        if n > w {
            n
        } else {
            w
        }
    }
}

/// One row of the summary: bullet, padded name, right-aligned size, then a
/// check (cleaned now) or a warning sign (waits for `--deep`) and the note.
pub open spec fn summary_row(c: DevCache, deep: bool, width: usize) -> LineV {
    let will = deep || !c.needs_redownload;
    let size = if c.size == 0 {
        "  --  "@
    } else {
        fmt(c.size)
    };
    ln(
        LineKind::Plain,
        seq![
            pv("      \u{2022} "@ + pad_right(c.name@, width as int) + "  "@ + pad_left(size, 10) + "   "@, Style::Plain),
            if will {
                pv("\u{2713}"@, Style::Green)
            } else {
                pv("\u{26A0}"@, Style::Yellow)
            },
            pv(" "@, Style::Plain),
            pv(c.note@, Style::Dimmed),
        ],
    )
}

pub open spec fn summary_rows(caches: Seq<DevCache>, deep: bool, width: usize) -> Seq<LineV> {
    caches.map_values(|c: DevCache| summary_row(c, deep, width))
}

/// The whole summary: one row per cache, the totals, and a `--deep` hint
/// when something is held back.
pub open spec fn summary_lines(caches: Seq<DevCache>, deep: bool) -> Seq<LineV> {
    if caches.len() == 0 {
        seq![l1(LineKind::Info, "No dev-tool caches detected"@)]
    } else {
        let total = sum_sat(sizes_of(caches));
        let now = sum_sat(cleanable_sizes(caches, deep));
        let totals = ln(
            LineKind::Plain,
            seq![
                pv("      "@, Style::Plain),
                pv("\u{2500}"@, Style::Dimmed),
                pv(" Total: "@, Style::Plain),
                pv(fmt(total), Style::CyanBold),
                pv("   |   Will clean now: "@, Style::Plain),
                pv(fmt(now), Style::GreenBold),
            ],
        );
        let rows = summary_rows(caches, deep, name_width(caches)).push(totals);
        if !deep && total > now {
            rows.push(
                ln(
                    LineKind::Plain,
                    seq![
                        pv("      "@, Style::Plain),
                        pv("\u{2139}"@, Style::Blue),
                        pv(" "@, Style::Plain),
                        pv("Pass --deep to also clean caches that trigger re-downloads"@, Style::Dimmed),
                    ],
                ),
            )
        } else {
            rows
        }
    }
}

fn spaces_exec(n: usize) -> (v: Vec<char>)
    ensures
        v@ == spaces(n as int),
{
    let mut v: Vec<char> = Vec::new();
    let mut i: usize = 0;
    while i < n
        invariant
            0 <= i <= n,
            v@ =~= spaces(i as int),
        decreases n - i,
    {
        v.push(' ');
        i = i + 1;
    }
    v
}

fn pad_right_exec(s: &[char], w: usize) -> (v: Vec<char>)
    ensures
        v@ == pad_right(s@, w as int),
{
    let mut v = vstd::slice::slice_to_vec(s);
    let pad = if w > s.len() {
        spaces_exec(w - s.len())
    } else {
        spaces_exec(0)
    };
    let mut p = pad;
    let ghost a = v@;
    let ghost b = p@;
    v.append(&mut p);
    assert(v@ =~= pad_right(s@, w as int));
    v
}

fn pad_left_exec(s: &[char], w: usize) -> (v: Vec<char>)
    ensures
        v@ == pad_left(s@, w as int),
{
    let mut v = if w > s.len() {
        spaces_exec(w - s.len())
    } else {
        spaces_exec(0)
    };
    let mut t = vstd::slice::slice_to_vec(s);
    v.append(&mut t);
    assert(v@ =~= pad_left(s@, w as int));
    v
}

/// The widest name in bytes, at least 8.
fn name_width_exec(caches: &[DevCache]) -> (w: usize)
    ensures
        w == name_width(caches@),
{
    let mut w: usize = 8;
    let mut i: usize = 0;
    while i < caches.len()
        invariant
            0 <= i <= caches.len(),
            w == name_width(caches@.take(i as int)),
        decreases caches.len() - i,
    {
        assert(caches@.take(i + 1).drop_last() =~= caches@.take(i as int));
        let n = caches[i].name.len();
        if n > w {
            w = n;
        }
        i = i + 1;
    }
    assert(caches@.take(caches.len() as int) =~= caches@);
    w
}

fn parts_line(kind: LineKind, parts: Vec<Part>) -> (l: Line)
    ensures
        l@ == ln(kind, crate::plan::part_views(parts@)),
{
    Line { kind, parts }
}

fn push_part(v: &mut Vec<Part>, text: String, style: Style)
    ensures
        crate::plan::part_views(final(v)@) == crate::plan::part_views(old(v)@).push(pv(text@, style)),
{
    let ghost before = v@;
    v.push(Part { text, style });
    assert(crate::plan::part_views(v@) =~= crate::plan::part_views(before).push(pv(text@, style)));
}

/// The summary table of the detected caches, as report lines.
pub fn print_summary(caches: &[DevCache], deep: bool) -> (v: Vec<Line>)
    ensures
        line_views(v@) =~~= summary_lines(caches@, deep),
{
    if caches.len() == 0 {
        return one_line(line1(LineKind::Info, "No dev-tool caches detected"));
    }
    let wide = name_width_exec(caches);
    let mut rows: Vec<Line> = Vec::new();
    let mut i: usize = 0;
    while i < caches.len()
        invariant
            0 <= i <= caches.len(),
            wide == name_width(caches@),
            line_views(rows@) =~~= summary_rows(caches@, deep, name_width(caches@)).take(i as int),
        decreases caches.len() - i,
    {
        let c = caches[i];
        let will = deep || !c.needs_redownload;
        let size = if c.size == 0 {
            String::from_str("  --  ")
        } else {
            format_size(c.size)
        };
        let name = chars_of(c.name);
        let a = pad_right_exec(name.as_slice(), wide);
        let sz = chars_of(size.as_str());
        let b = pad_left_exec(sz.as_slice(), 10);
        let mut head = String::from_str("      \u{2022} ");
        head = head.concat(crate::text::string_of(a.as_slice()).as_str());
        head = head.concat("  ");
        head = head.concat(crate::text::string_of(b.as_slice()).as_str());
        head = head.concat("   ");
        let mut parts: Vec<Part> = Vec::new();
        push_part(&mut parts, head, Style::Plain);
        if will {
            push_part(&mut parts, String::from_str("\u{2713}"), Style::Green);
        } else {
            push_part(&mut parts, String::from_str("\u{26A0}"), Style::Yellow);
        }
        push_part(&mut parts, String::from_str(" "), Style::Plain);
        push_part(&mut parts, String::from_str(c.note), Style::Dimmed);
        let l = parts_line(LineKind::Plain, parts);
        assert(l@ =~~= summary_row(c, deep, name_width(caches@)));
        let ghost before = line_views(rows@);
        push_line(&mut rows, l);
        assert(summary_rows(caches@, deep, name_width(caches@)).take(i + 1) =~= summary_rows(
            caches@,
            deep,
            name_width(caches@),
        ).take(i as int).push(summary_row(c, deep, name_width(caches@))));
        i = i + 1;
    }
    assert(summary_rows(caches@, deep, name_width(caches@)).take(caches.len() as int) =~= summary_rows(
        caches@,
        deep,
        name_width(caches@),
    ));
    let total = total_size(caches);
    let now = cleanable_size(caches, deep);
    let mut parts: Vec<Part> = Vec::new();
    push_part(&mut parts, String::from_str("      "), Style::Plain);
    push_part(&mut parts, String::from_str("\u{2500}"), Style::Dimmed);
    push_part(&mut parts, String::from_str(" Total: "), Style::Plain);
    push_part(&mut parts, format_size(total), Style::CyanBold);
    push_part(&mut parts, String::from_str("   |   Will clean now: "), Style::Plain);
    push_part(&mut parts, format_size(now), Style::GreenBold);
    push_line(&mut rows, parts_line(LineKind::Plain, parts));
    if !deep && total > now {
        let mut hint: Vec<Part> = Vec::new();
        push_part(&mut hint, String::from_str("      "), Style::Plain);
        push_part(&mut hint, String::from_str("\u{2139}"), Style::Blue);
        push_part(&mut hint, String::from_str(" "), Style::Plain);
        push_part(&mut hint, String::from_str("Pass --deep to also clean caches that trigger re-downloads"), Style::Dimmed);
        push_line(&mut rows, parts_line(LineKind::Plain, hint));
    }
    rows
}


// ═══════════════════════════ The dev-cache run ═══════════════════════════

/// What a resolved cache path is for.
#[derive(Debug, Clone, Copy, PartialEq, Eq, Structural)]
pub enum Purpose {
    /// Measuring it while scanning.
    Scan,
    /// Emptying it.
    Contents,
    /// Measuring it before the tool's own clean command.
    Before,
    /// Measuring it after that command.
    After,
}

#[derive(Debug, Clone, Copy, PartialEq, Eq, Structural)]
pub enum DevStage {
    Begin,
    Home,
    Which(usize),
    Resolve(Purpose),
    Probe(Purpose),
    EnvVar(Purpose),
    Exists(Purpose),
    Size(Purpose),
    Confirm,
    CleanWhich,
    Run,
    Rm,
    Fire,
    Finished,
}

/// The dev-cache workflow: scan every tool, print the summary, then clean
/// each detected cache (scan alone for [`scan_all`]).
pub struct DevRun {
    pub deep: bool,
    pub dry_run: bool,
    pub yes: bool,
    pub scan_only: bool,
    pub stage: DevStage,
    pub tools: Vec<DevTool>,
    pub home: Option<String>,
    pub tool: usize,
    pub k: usize,
    pub path: String,
    pub before: u64,
    pub found: Vec<DevCache>,
    pub freed: u64,
}

pub struct DevRunV {
    pub deep: bool,
    pub dry_run: bool,
    pub yes: bool,
    pub scan_only: bool,
    pub stage: DevStage,
    pub tools: Seq<DevTool>,
    pub home: Option<Seq<char>>,
    pub tool: int,
    pub k: int,
    pub path: Seq<char>,
    pub before: u64,
    pub found: Seq<DevCache>,
    pub freed: u64,
}

impl View for DevRun {
    type V = DevRunV;

    open spec fn view(&self) -> DevRunV {
        DevRunV {
            deep: self.deep,
            dry_run: self.dry_run,
            yes: self.yes,
            scan_only: self.scan_only,
            stage: self.stage,
            tools: self.tools@,
            home: match self.home {
                Some(h) => Some(h@),
                None => None,
            },
            tool: self.tool as int,
            k: self.k as int,
            path: self.path@,
            before: self.before,
            found: self.found@,
            freed: self.freed,
        }
    }
}

pub open spec fn dvs(s: DevRunV, stage: DevStage) -> DevRunV {
    DevRunV { stage, ..s }
}

pub open spec fn home_path(home: Option<Seq<char>>, suffix: Seq<char>) -> Option<Seq<char>> {
    match home {
        Some(h) => Some(path_join(h, suffix)),
        None => None,
    }
}

/// The first tool named `name`.
pub open spec fn lookup(tools: Seq<DevTool>, name: Seq<char>) -> Option<int>
    decreases tools.len(),
{
    if tools.len() == 0 {
        None
    } else {
        match lookup(tools.drop_last(), name) {
            Some(i) => Some(i),
            None => if tools.last().name@ == name {
                Some(tools.len() - 1)
            } else {
                None
            },
        }
    }
}

pub open spec fn gems_listed(found: Seq<DevCache>) -> bool {
    exists|i: int| 0 <= i < found.len() && (#[trigger] found[i]).name@ == "ruby gems (old versions)"@
}

pub open spec fn any_redownload(found: Seq<DevCache>) -> bool {
    exists|i: int| 0 <= i < found.len() && (#[trigger] found[i]).needs_redownload
}

pub open spec fn phase(p: Purpose) -> int {
    if p == Purpose::Scan {
        2
    } else {
        1
    }
}

pub open spec fn rest(total: int, at: int) -> int {
    if at <= total {
        total - at
    } else {
        0
    }
}

pub open spec fn remaining(s: DevRunV, p: Purpose) -> int {
    if p == Purpose::Scan {
        rest(s.tools.len() as int, s.tool)
    } else {
        rest(s.found.len() as int, s.k)
    }
}

/// The position a purpose works at is in range.
pub open spec fn at_valid(s: DevRunV, p: Purpose) -> bool {
    if p == Purpose::Scan {
        0 <= s.tool < s.tools.len()
    } else {
        0 <= s.k < s.found.len() && 0 <= s.tool < s.tools.len()
    }
}

pub open spec fn dev_stop(s: DevRunV, pre: Seq<LineV>) -> (DevRunV, StepV) {
    (dvs(s, DevStage::Finished), done(pre, s.freed))
}

/// Scan tool `i` onwards.
pub open spec fn scan_from(s: DevRunV, pre: Seq<LineV>, i: int) -> (DevRunV, StepV)
    decreases 2int, rest(s.tools.len() as int, i), 3int,
{
    if 0 <= i < s.tools.len() {
        let s2 = DevRunV { tool: i, ..s };
        match s.tools[i].presence {
            Presence::Always => resolve(s2, pre, Purpose::Scan),
            Presence::Listed(c) => (dvs(s2, DevStage::Which(i as usize)), ask(pre, OpV::Which(c@))),
            Presence::IfTool(c) => (dvs(s2, DevStage::Which(i as usize)), ask(pre, OpV::Which(c@))),
        }
    } else {
        scan_done(s, pre)
    }
}

/// Find where the current tool's cache lives, then go on by purpose.
pub open spec fn resolve(s: DevRunV, pre: Seq<LineV>, p: Purpose) -> (DevRunV, StepV)
    decreases phase(p), remaining(s, p), 2int,
{
    if !at_valid(s, p) {
        dev_stop(s, pre)
    } else {
        match s.tools[s.tool].loc {
            Loc::Home(suffix) => resolved(s, pre, p, home_path(s.home, suffix@)),
            Loc::Probe(c, _, _, _) => (dvs(s, DevStage::Resolve(p)), ask(pre, OpV::Which(c@))),
            Loc::EnvDir(v, _) => (dvs(s, DevStage::EnvVar(p)), ask(pre, OpV::Env(v@))),
        }
    }
}

/// The fallback path below home of the current tool.
pub open spec fn fallback_of(s: DevRunV) -> Option<Seq<char>> {
    match s.tools[s.tool].loc {
        Loc::Home(suffix) => home_path(s.home, suffix@),
        Loc::Probe(_, _, _, f) => home_path(s.home, f@),
        Loc::EnvDir(_, f) => home_path(s.home, f@),
    }
}

/// Act on the resolved path (or on its absence).
pub open spec fn resolved(s: DevRunV, pre: Seq<LineV>, p: Purpose, path: Option<Seq<char>>) -> (DevRunV, StepV)
    decreases phase(p), remaining(s, p), 1int,
{
    if !at_valid(s, p) {
        dev_stop(s, pre)
    } else {
        match path {
            Some(x) => {
                let s2 = DevRunV { path: x, ..s };
                match p {
                    Purpose::Scan => (dvs(s2, DevStage::Exists(p)), ask(pre, OpV::Exists(x))),
                    Purpose::Contents => (dvs(s2, DevStage::Exists(p)), ask(pre, OpV::Exists(x))),
                    Purpose::Before => (dvs(s2, DevStage::Size(p)), ask(pre, OpV::DirSize(x))),
                    Purpose::After => (dvs(s2, DevStage::Size(p)), ask(pre, OpV::DirSize(x))),
                }
            },
            None => match p {
                Purpose::Scan => scan_from(s, pre, s.tool + 1),
                Purpose::Contents => clean_from(s, pre, s.k + 1),
                Purpose::Before => run_cmd(DevRunV { before: 0, ..s }, pre),
                Purpose::After => cmd_done(s, pre, 0),
            },
        }
    }
}

/// Scanning is over: stop there, or print the summary and clean.
pub open spec fn scan_done(s: DevRunV, pre: Seq<LineV>) -> (DevRunV, StepV)
    decreases 2int, 0int, 0int,
{
    if s.scan_only {
        dev_stop(s, pre)
    } else if s.found.len() == 0 {
        (dvs(s, DevStage::Finished), done(pre.push(l1(LineKind::Info, "No dev-tool caches detected"@)), 0))
    } else {
        let sum = pre + summary_lines(s.found, s.deep);
        let now = sum_sat(cleanable_sizes(s.found, s.deep));
        if now == 0 && !gems_listed(s.found) {
            (dvs(s, DevStage::Finished), done(sum.push(l1(LineKind::Success, "Nothing to clean"@)), 0))
        } else if s.dry_run {
            (
                dvs(s, DevStage::Finished),
                done(sum.push(l1(LineKind::Info, "[DRY RUN] Would free up to "@ + fmt(now))), 0),
            )
        } else if s.deep && any_redownload(s.found) && !s.yes {
            (
                dvs(s, DevStage::Confirm),
                ask(
                    sum,
                    OpV::Confirm(
                        "Proceed with --deep? This will trigger re-downloads on next build. [y/N]:"@,
                    ),
                ),
            )
        } else {
            clean_from(s, sum, 0)
        }
    }
}

/// Clean detected cache `k` onwards, then report.
pub open spec fn clean_from(s: DevRunV, pre: Seq<LineV>, k: int) -> (DevRunV, StepV)
    decreases 1int, rest(s.found.len() as int, k), 3int,
{
    if 0 <= k < s.found.len() {
        let c = s.found[k];
        if (c.needs_redownload && !s.deep) || s.dry_run {
            clean_from(s, pre, k + 1)
        } else {
            match lookup(s.tools, c.name@) {
                None => clean_from(s, pre, k + 1),
                Some(ti) => {
                    let s2 = DevRunV { tool: ti, k, ..s };
                    match s.tools[ti].cleaner {
                        Cleaner::Contents => resolve(s2, pre, Purpose::Contents),
                        Cleaner::Command { bin, args, check, fallback } => if check {
                            (dvs(s2, DevStage::CleanWhich), ask(pre, OpV::Which(bin@)))
                        } else {
                            resolve(s2, pre, Purpose::Before)
                        },
                        Cleaner::Fire { bin, args } => (
                            dvs(s2, DevStage::Fire),
                            ask(pre, crate::plan::cmd(bin, args@, false, false)),
                        ),
                    }
                },
            }
        }
    } else {
        (
            dvs(s, DevStage::Finished),
            done(pre.push(l2(LineKind::Success, "Freed "@, fmt(s.freed), Style::Green)), s.freed),
        )
    }
}

/// Run the current tool's own clean command.
pub open spec fn run_cmd(s: DevRunV, pre: Seq<LineV>) -> (DevRunV, StepV) {
    if 0 <= s.tool < s.tools.len() {
        match s.tools[s.tool].cleaner {
            Cleaner::Command { bin, args, .. } => (
                dvs(s, DevStage::Run),
                ask(pre, crate::plan::cmd(bin, args@, false, false)),
            ),
            _ => dev_stop(s, pre),
        }
    } else {
        dev_stop(s, pre)
    }
}

/// The command ran; count what left the directory and go on.
pub open spec fn cmd_done(s: DevRunV, pre: Seq<LineV>, after: u64) -> (DevRunV, StepV)
    decreases 1int, rest(s.found.len() as int, s.k), 0int,
{
    if 0 <= s.k < s.found.len() {
        clean_from(DevRunV { freed: sat_add(s.freed, sub0(s.before, after)), ..s }, pre, s.k + 1)
    } else {
        dev_stop(s, pre)
    }
}

/// One transition of the dev-cache workflow.
pub open spec fn dev_next(s: DevRunV, r: ReplyV) -> (DevRunV, StepV) {
    let ok = flag_of(r);
    match s.stage {
        DevStage::Begin => (
            dvs(s, DevStage::Home),
            ask(
                if s.scan_only {
                    seq![]
                } else {
                    seq![l1(LineKind::Section, "Dev Cache"@), l1(LineKind::Info, "Scanning..."@)]
                },
                OpV::Env("HOME"@),
            ),
        ),
        DevStage::Home => scan_from(DevRunV { home: text_of(r), ..s }, seq![], 0),
        DevStage::Which(i) => if i < s.tools.len() {
            let t = s.tools[i as int];
            match t.presence {
                Presence::Listed(_) => scan_from(
                    if ok {
                        DevRunV {
                            found: s.found.push(
                                DevCache {
                                    name: t.name,
                                    size: 0,
                                    needs_redownload: t.needs_redownload,
                                    note: t.note,
                                },
                            ),
                            ..s
                        }
                    } else {
                        s
                    },
                    seq![],
                    i + 1,
                ),
                _ => if ok {
                    resolve(DevRunV { tool: i as int, ..s }, seq![], Purpose::Scan)
                } else {
                    scan_from(s, seq![], i + 1)
                },
            }
        } else {
            dev_stop(s, seq![])
        },
        DevStage::Resolve(p) => if at_valid(s, p) {
            match s.tools[s.tool].loc {
                Loc::Probe(c, a, b, _) => if ok {
                    (
                        dvs(s, DevStage::Probe(p)),
                        ask(seq![], OpV::Capture { cmd: c@, args: seq![a@, b@], trusted: false }),
                    )
                } else {
                    resolved(s, seq![], p, fallback_of(s))
                },
                _ => dev_stop(s, seq![]),
            }
        } else {
            dev_stop(s, seq![])
        },
        DevStage::Probe(p) => match text_of(r) {
            Some(out) if out.len() > 0 => resolved(s, seq![], p, Some(out)),
            _ => resolved(s, seq![], p, if at_valid(s, p) { fallback_of(s) } else { None }),
        },
        DevStage::EnvVar(p) => match text_of(r) {
            Some(v) if v.len() > 0 => resolved(s, seq![], p, Some(v)),
            _ => resolved(s, seq![], p, if at_valid(s, p) { fallback_of(s) } else { None }),
        },
        DevStage::Exists(p) => match p {
            Purpose::Scan => if ok {
                (dvs(s, DevStage::Size(p)), ask(seq![], OpV::DirSize(s.path)))
            } else {
                scan_from(s, seq![], s.tool + 1)
            },
            Purpose::Contents => if ok {
                (dvs(s, DevStage::Rm), ask(seq![], OpV::RmContents(s.path)))
            } else {
                clean_from(s, seq![], s.k + 1)
            },
            _ => dev_stop(s, seq![]),
        },
        DevStage::Size(p) => match p {
            Purpose::Scan => if 0 <= s.tool < s.tools.len() {
                let t = s.tools[s.tool];
                let size = size_of(r);
                scan_from(
                    if size > 0 {
                        DevRunV {
                            found: s.found.push(
                                DevCache {
                                    name: t.name,
                                    size,
                                    needs_redownload: t.needs_redownload,
                                    note: t.note,
                                },
                            ),
                            ..s
                        }
                    } else {
                        s
                    },
                    seq![],
                    s.tool + 1,
                )
            } else {
                dev_stop(s, seq![])
            },
            Purpose::Before => run_cmd(DevRunV { before: size_of(r), ..s }, seq![]),
            Purpose::After => cmd_done(s, seq![], size_of(r)),
            Purpose::Contents => dev_stop(s, seq![]),
        },
        DevStage::Confirm => if ok {
            clean_from(s, seq![], 0)
        } else {
            (
                dvs(s, DevStage::Finished),
                done(seq![l1(LineKind::Skip, "Deep clean cancelled by user"@)], 0),
            )
        },
        DevStage::CleanWhich => if 0 <= s.tool < s.tools.len() {
            match s.tools[s.tool].cleaner {
                Cleaner::Command { fallback, .. } => if ok {
                    resolve(s, seq![], Purpose::Before)
                } else if fallback {
                    resolve(s, seq![], Purpose::Contents)
                } else {
                    clean_from(s, seq![], s.k + 1)
                },
                _ => dev_stop(s, seq![]),
            }
        } else {
            dev_stop(s, seq![])
        },
        DevStage::Run => resolve(s, seq![], Purpose::After),
        DevStage::Rm => clean_from(DevRunV { freed: sat_add(s.freed, size_of(r)), ..s }, seq![], s.k + 1),
        DevStage::Fire => clean_from(s, seq![], s.k + 1),
        DevStage::Finished => (s, done(seq![], s.freed)),
    }
}


pub open spec fn fresh(deep: bool, dry_run: bool, yes: bool, scan_only: bool, tools: Seq<DevTool>) -> DevRunV {
    DevRunV {
        deep,
        dry_run,
        yes,
        scan_only,
        stage: DevStage::Begin,
        tools,
        home: None,
        tool: 0,
        k: 0,
        path: seq![],
        before: 0,
        found: seq![],
        freed: 0,
    }
}

fn start(deep: bool, dry_run: bool, yes: bool, scan_only: bool) -> (m: DevRun)
    ensures
        m@ == fresh(deep, dry_run, yes, scan_only, m@.tools),
        tool_views(m@.tools) =~~= dev_table(),
{
    let m = DevRun {
        deep,
        dry_run,
        yes,
        scan_only,
        stage: DevStage::Begin,
        tools: dev_tools(),
        home: None,
        tool: 0,
        k: 0,
        path: String::new(),
        before: 0,
        found: Vec::new(),
        freed: 0,
    };
    assert(m@.path =~= seq![]);
    assert(m@.found =~= seq![]);
    m
}

/// Start the dev-cache workflow: scan, summarise, clean. Returns the
/// freed bytes when done.
pub fn run(deep: bool, dry_run: bool, yes: bool) -> (m: DevRun)
    ensures
        m@ == fresh(deep, dry_run, yes, false, m@.tools),
        tool_views(m@.tools) =~~= dev_table(),
{
    start(deep, dry_run, yes, false)
}

/// Start a scan alone: when it is done, `found` lists every dev-tool cache
/// present on this system. Nothing is touched.
pub fn scan_all() -> (m: DevRun)
    ensures
        m@ == fresh(false, false, false, true, m@.tools),
        tool_views(m@.tools) =~~= dev_table(),
{
    start(false, false, false, true)
}

fn home_path_exec(home: &Option<String>, suffix: &str) -> (r: Option<String>)
    ensures
        r matches Some(x) ==> home_path(opt_string(*home), suffix@) == Some(x@),
        r is None ==> home_path(opt_string(*home), suffix@) is None,
{
    match home {
        Some(h) => Some(path_join_exec(h.as_str(), suffix)),
        None => None,
    }
}

pub open spec fn opt_string(o: Option<String>) -> Option<Seq<char>> {
    match o {
        Some(s) => Some(s@),
        None => None,
    }
}

impl DevRun {
    fn stop(&mut self, pre: Vec<Line>) -> (st: Step)
        ensures
            (final(self)@, st@) == dev_stop(old(self)@, line_views(pre@)),
    {
        self.stage = DevStage::Finished;
        done_step(pre, self.freed)
    }

    fn fallback(&self) -> (r: Option<String>)
        requires
            self.tool < self.tools@.len(),
        ensures
            opt_string(r) == fallback_of(self@),
    {
        match self.tools[self.tool].loc {
            Loc::Home(suffix) => home_path_exec(&self.home, suffix),
            Loc::Probe(_, _, _, f) => home_path_exec(&self.home, f),
            Loc::EnvDir(_, f) => home_path_exec(&self.home, f),
        }
    }

    fn lookup_tool(&self, name: &str) -> (r: Option<usize>)
        ensures
            r matches Some(i) ==> lookup(self@.tools, name@) == Some(i as int) && i < self@.tools.len(),
            r is None ==> lookup(self@.tools, name@) is None,
    {
        let target = chars_of(name);
        let mut i: usize = 0;
        while i < self.tools.len()
            invariant
                0 <= i <= self.tools@.len(),
                target@ == name@,
                lookup(self@.tools.take(i as int), name@) is None,
            decreases self.tools@.len() - i,
        {
            let cs = chars_of(self.tools[i].name);
            let same = crate::text::eq_chars(cs.as_slice(), target.as_slice());
            assert(self@.tools.take(i + 1).drop_last() =~= self@.tools.take(i as int));
            if same {
                proof {
                    lemma_lookup_prefix(self@.tools, name@, i as int + 1);
                }
                return Some(i);
            }
            i = i + 1;
        }
        assert(self@.tools.take(self.tools@.len() as int) =~= self@.tools);
        None
    }

    fn scan_from(&mut self, pre: Vec<Line>, i: usize) -> (st: Step)
        ensures
            (final(self)@, st@) == scan_from(old(self)@, line_views(pre@), i as int),
        decreases 2int, rest(old(self)@.tools.len() as int, i as int), 3int,
    {
        if i < self.tools.len() {
            self.tool = i;
            match self.tools[i].presence {
                Presence::Always => self.resolve(pre, Purpose::Scan),
                Presence::Listed(c) => {
                    self.stage = DevStage::Which(i);
                    ask_step(pre, Op::Which(String::from_str(c)))
                },
                Presence::IfTool(c) => {
                    self.stage = DevStage::Which(i);
                    ask_step(pre, Op::Which(String::from_str(c)))
                },
            }
        } else {
            self.scan_done(pre)
        }
    }

    fn valid(&self, p: Purpose) -> (b: bool)
        ensures
            b == at_valid(self@, p),
    {
        if p == Purpose::Scan {
            self.tool < self.tools.len()
        } else {
            self.k < self.found.len() && self.tool < self.tools.len()
        }
    }

    fn resolve(&mut self, pre: Vec<Line>, p: Purpose) -> (st: Step)
        ensures
            (final(self)@, st@) == resolve(old(self)@, line_views(pre@), p),
        decreases phase(p), remaining(old(self)@, p), 2int,
    {
        if !self.valid(p) {
            return self.stop(pre);
        }
        match self.tools[self.tool].loc {
            Loc::Home(suffix) => {
                let path = home_path_exec(&self.home, suffix);
                self.resolved(pre, p, path)
            },
            Loc::Probe(c, _, _, _) => {
                self.stage = DevStage::Resolve(p);
                ask_step(pre, Op::Which(String::from_str(c)))
            },
            Loc::EnvDir(v, _) => {
                self.stage = DevStage::EnvVar(p);
                ask_step(pre, Op::Env(String::from_str(v)))
            },
        }
    }

    fn resolved(&mut self, pre: Vec<Line>, p: Purpose, path: Option<String>) -> (st: Step)
        ensures
            (final(self)@, st@) == resolved(old(self)@, line_views(pre@), p, opt_string(path)),
        decreases phase(p), remaining(old(self)@, p), 1int,
    {
        if !self.valid(p) {
            return self.stop(pre);
        }
        match path {
            Some(x) => {
                let op = match p {
                    Purpose::Scan => Op::Exists(x.clone()),
                    Purpose::Contents => Op::Exists(x.clone()),
                    Purpose::Before => Op::DirSize(x.clone()),
                    Purpose::After => Op::DirSize(x.clone()),
                };
                self.path = x;
                self.stage = match p {
                    Purpose::Scan => DevStage::Exists(p),
                    Purpose::Contents => DevStage::Exists(p),
                    _ => DevStage::Size(p),
                };
                ask_step(pre, op)
            },
            None => match p {
                Purpose::Scan => {
                    let n = self.tools.len();
                    assert(self.tool < n);
                    self.scan_from(pre, self.tool + 1)
                },
                Purpose::Contents => {
                    let n = self.found.len();
                    assert(self.k < n);
                    self.clean_from(pre, self.k + 1)
                },
                Purpose::Before => {
                    self.before = 0;
                    self.run_cmd(pre)
                },
                Purpose::After => self.cmd_done(pre, 0),
            },
        }
    }

    fn scan_done(&mut self, pre: Vec<Line>) -> (st: Step)
        ensures
            (final(self)@, st@) == scan_done(old(self)@, line_views(pre@)),
        decreases 2int, 0int, 0int,
    {
        if self.scan_only {
            return self.stop(pre);
        }
        let mut pre = pre;
        if self.found.len() == 0 {
            self.stage = DevStage::Finished;
            push_line(&mut pre, line1(LineKind::Info, "No dev-tool caches detected"));
            return done_step(pre, 0);
        }
        let mut sum = print_summary(self.found.as_slice(), self.deep);
        let ghost p0 = pre@;
        let ghost s0 = sum@;
        pre.append(&mut sum);
        assert(pre@ =~= p0 + s0);
        assert(line_views(pre@) =~= line_views(p0) + line_views(s0));
        let now = cleanable_size(self.found.as_slice(), self.deep);
        let gems = self.gems_listed();
        if now == 0 && !gems {
            self.stage = DevStage::Finished;
            push_line(&mut pre, line1(LineKind::Success, "Nothing to clean"));
            done_step(pre, 0)
        } else if self.dry_run {
            self.stage = DevStage::Finished;
            push_line(&mut pre, line1s(LineKind::Info, cat("[DRY RUN] Would free up to ", format_size(now).as_str())));
            done_step(pre, 0)
        } else if self.deep && self.any_redownload() && !self.yes {
            self.stage = DevStage::Confirm;
            ask_step(
                pre,
                Op::Confirm(
                    String::from_str(
                        "Proceed with --deep? This will trigger re-downloads on next build. [y/N]:",
                    ),
                ),
            )
        } else {
            self.clean_from(pre, 0)
        }
    }

    fn gems_listed(&self) -> (b: bool)
        ensures
            b == gems_listed(self@.found),
    {
        let mut i: usize = 0;
        while i < self.found.len()
            invariant
                0 <= i <= self.found@.len(),
                forall|j: int| 0 <= j < i ==> (#[trigger] self@.found[j]).name@ != "ruby gems (old versions)"@,
            decreases self.found@.len() - i,
        {
            let cs = chars_of(self.found[i].name);
            if crate::text::is_text(cs.as_slice(), "ruby gems (old versions)") {
                assert(self@.found[i as int].name@ == "ruby gems (old versions)"@);
                return true;
            }
            i = i + 1;
        }
        false
    }

    fn any_redownload(&self) -> (b: bool)
        ensures
            b == any_redownload(self@.found),
    {
        let mut i: usize = 0;
        while i < self.found.len()
            invariant
                0 <= i <= self.found@.len(),
                forall|j: int| 0 <= j < i ==> !(#[trigger] self@.found[j]).needs_redownload,
            decreases self.found@.len() - i,
        {
            if self.found[i].needs_redownload {
                assert(self@.found[i as int].needs_redownload);
                return true;
            }
            i = i + 1;
        }
        false
    }

    fn clean_from(&mut self, pre: Vec<Line>, k: usize) -> (st: Step)
        ensures
            (final(self)@, st@) == clean_from(old(self)@, line_views(pre@), k as int),
        decreases 1int, rest(old(self)@.found.len() as int, k as int), 3int,
    {
        if k < self.found.len() {
            let c = self.found[k];
            if (c.needs_redownload && !self.deep) || self.dry_run {
                return self.clean_from(pre, k + 1);
            }
            match self.lookup_tool(c.name) {
                None => self.clean_from(pre, k + 1),
                Some(ti) => {
                    self.tool = ti;
                    self.k = k;
                    match self.tools[ti].cleaner {
                        Cleaner::Contents => self.resolve(pre, Purpose::Contents),
                        Cleaner::Command { bin, args, check, fallback } => {
                            if check {
                                self.stage = DevStage::CleanWhich;
                                ask_step(pre, Op::Which(String::from_str(bin)))
                            } else {
                                self.resolve(pre, Purpose::Before)
                            }
                        },
                        Cleaner::Fire { bin, args } => {
                            self.stage = DevStage::Fire;
                            ask_step(pre, crate::plan::run_op(bin, args, false, false))
                        },
                    }
                },
            }
        } else {
            self.stage = DevStage::Finished;
            let mut pre = pre;
            push_line(&mut pre, line2(LineKind::Success, "Freed ", format_size(self.freed), Style::Green));
            done_step(pre, self.freed)
        }
    }

    fn run_cmd(&mut self, pre: Vec<Line>) -> (st: Step)
        ensures
            (final(self)@, st@) == run_cmd(old(self)@, line_views(pre@)),
    {
        if self.tool >= self.tools.len() {
            return self.stop(pre);
        }
        match self.tools[self.tool].cleaner {
            Cleaner::Command { bin, args, .. } => {
                self.stage = DevStage::Run;
                ask_step(pre, crate::plan::run_op(bin, args, false, false))
            },
            _ => self.stop(pre),
        }
    }

    fn cmd_done(&mut self, pre: Vec<Line>, after: u64) -> (st: Step)
        ensures
            (final(self)@, st@) == cmd_done(old(self)@, line_views(pre@), after),
        decreases 1int, rest(old(self)@.found.len() as int, old(self)@.k), 0int,
    {
        if self.k < self.found.len() {
            let gone: u64 = if self.before >= after {
                self.before - after
            } else {
                0
            };
            self.freed = self.freed.saturating_add(gone);
            let n = self.found.len();
            assert(self.k < n);
            self.clean_from(pre, self.k + 1)
        } else {
            self.stop(pre)
        }
    }

    fn step_scan(&mut self, r: &Reply) -> (st: Step)
        requires
            old(self).stage is Begin || old(self).stage is Home || old(self).stage is Which || old(self).stage is Resolve || old(self).stage is Probe || old(self).stage is EnvVar,
        ensures
            (final(self)@, st@) == dev_next(old(self)@, r@),
    {
        let ok = flag_reply(r);
        match self.stage {
            DevStage::Begin => {
                self.stage = DevStage::Home;
                let pre = if self.scan_only {
                    no_lines()
                } else {
                    crate::plan::two_lines(
                        line1(LineKind::Section, "Dev Cache"),
                        line1(LineKind::Info, "Scanning..."),
                    )
                };
                ask_step(pre, Op::Env(String::from_str("HOME")))
            },
            DevStage::Home => {
                self.home = match r {
                    Reply::Text(Some(h)) => Some(h.clone()),
                    _ => None,
                };
                self.scan_from(no_lines(), 0)
            },
            DevStage::Which(i) => {
                if i < self.tools.len() {
                    let t = self.tools[i];
                    match t.presence {
                        Presence::Listed(_) => {
                            if ok {
                                self.found.push(
                                    DevCache {
                                        name: t.name,
                                        size: 0,
                                        needs_redownload: t.needs_redownload,
                                        note: t.note,
                                    },
                                );
                            }
                            self.scan_from(no_lines(), i + 1)
                        },
                        _ => {
                            if ok {
                                self.tool = i;
                                self.resolve(no_lines(), Purpose::Scan)
                            } else {
                                self.scan_from(no_lines(), i + 1)
                            }
                        },
                    }
                } else {
                    self.stop(no_lines())
                }
            },
            DevStage::Resolve(p) => {
                if self.valid(p) {
                    match self.tools[self.tool].loc {
                        Loc::Probe(c, a, b, _) => {
                            if ok {
                                self.stage = DevStage::Probe(p);
                                ask_step(no_lines(), crate::plan::capture2(c, a, b, false))
                            } else {
                                let f = self.fallback();
                                self.resolved(no_lines(), p, f)
                            }
                        },
                        _ => self.stop(no_lines()),
                    }
                } else {
                    self.stop(no_lines())
                }
            },
            DevStage::Probe(p) | DevStage::EnvVar(p) => {
                let got = match r {
                    Reply::Text(Some(out)) => {
                        let cs = chars_of(out.as_str());
                        if cs.len() > 0 {
                            Some(out.clone())
                        } else {
                            None
                        }
                    },
                    _ => None,
                };
                match got {
                    Some(x) => self.resolved(no_lines(), p, Some(x)),
                    None => {
                        let f = if self.valid(p) {
                            self.fallback()
                        } else {
                            None
                        };
                        self.resolved(no_lines(), p, f)
                    },
                }
            },
            _ => self.stop(no_lines()),
        }
    }

    fn step_measure(&mut self, r: &Reply) -> (st: Step)
        requires
            old(self).stage is Exists || old(self).stage is Size,
        ensures
            (final(self)@, st@) == dev_next(old(self)@, r@),
    {
        let ok = flag_reply(r);
        match self.stage {
            DevStage::Exists(p) => match p {
                Purpose::Scan => {
                    if ok {
                        self.stage = DevStage::Size(p);
                        ask_step(no_lines(), Op::DirSize(self.path.clone()))
                    } else if self.tool < usize::MAX {
                        self.scan_from(no_lines(), self.tool + 1)
                    } else {
                        { let n = self.tools.len(); assert(!(0 <= self@.tool + 1 < n)); self.scan_from(no_lines(), n) }
                    }
                },
                Purpose::Contents => {
                    if ok {
                        self.stage = DevStage::Rm;
                        ask_step(no_lines(), Op::RmContents(self.path.clone()))
                    } else if self.k < usize::MAX {
                        self.clean_from(no_lines(), self.k + 1)
                    } else {
                        { let n = self.found.len(); assert(!(0 <= self@.k + 1 < n)); self.clean_from(no_lines(), n) }
                    }
                },
                _ => self.stop(no_lines()),
            },
            DevStage::Size(p) => match p {
                Purpose::Scan => {
                    if self.tool < self.tools.len() {
                        let t = self.tools[self.tool];
                        let size = size_reply(r);
                        if size > 0 {
                            self.found.push(
                                DevCache { name: t.name, size, needs_redownload: t.needs_redownload, note: t.note },
                            );
                        }
                        self.scan_from(no_lines(), self.tool + 1)
                    } else {
                        self.stop(no_lines())
                    }
                },
                Purpose::Before => {
                    self.before = size_reply(r);
                    self.run_cmd(no_lines())
                },
                Purpose::After => self.cmd_done(no_lines(), size_reply(r)),
                Purpose::Contents => self.stop(no_lines()),
            },
            _ => self.stop(no_lines()),
        }
    }

    fn step_clean(&mut self, r: &Reply) -> (st: Step)
        requires
            old(self).stage is Confirm || old(self).stage is CleanWhich || old(self).stage is Run || old(self).stage is Rm || old(self).stage is Fire || old(self).stage is Finished,
        ensures
            (final(self)@, st@) == dev_next(old(self)@, r@),
    {
        let ok = flag_reply(r);
        match self.stage {
            DevStage::Confirm => {
                if ok {
                    self.clean_from(no_lines(), 0)
                } else {
                    self.stage = DevStage::Finished;
                    done_step(one_line(line1(LineKind::Skip, "Deep clean cancelled by user")), 0)
                }
            },
            DevStage::CleanWhich => {
                if self.tool < self.tools.len() {
                    match self.tools[self.tool].cleaner {
                        Cleaner::Command { fallback, .. } => {
                            if ok {
                                self.resolve(no_lines(), Purpose::Before)
                            } else if fallback {
                                self.resolve(no_lines(), Purpose::Contents)
                            } else if self.k < usize::MAX {
                                self.clean_from(no_lines(), self.k + 1)
                            } else {
                                { let n = self.found.len(); assert(!(0 <= self@.k + 1 < n)); self.clean_from(no_lines(), n) }
                            }
                        },
                        _ => self.stop(no_lines()),
                    }
                } else {
                    self.stop(no_lines())
                }
            },
            DevStage::Run => self.resolve(no_lines(), Purpose::After),
            DevStage::Rm => {
                self.freed = self.freed.saturating_add(size_reply(r));
                if self.k < usize::MAX {
                    self.clean_from(no_lines(), self.k + 1)
                } else {
                    { let n = self.found.len(); assert(!(0 <= self@.k + 1 < n)); self.clean_from(no_lines(), n) }
                }
            },
            DevStage::Fire => {
                if self.k < usize::MAX {
                    self.clean_from(no_lines(), self.k + 1)
                } else {
                    { let n = self.found.len(); assert(!(0 <= self@.k + 1 < n)); self.clean_from(no_lines(), n) }
                }
            },
            DevStage::Finished => done_step(no_lines(), self.freed),
            _ => self.stop(no_lines()),
        }
    }
    /// Feed the answer to the previous request; get the next step.
    pub fn step(&mut self, r: &Reply) -> (st: Step)
        ensures
            (final(self)@, st@) == dev_next(old(self)@, r@),
    {
        match self.stage {
            DevStage::Begin | DevStage::Home | DevStage::Which(_) | DevStage::Resolve(_)
            | DevStage::Probe(_) | DevStage::EnvVar(_) => self.step_scan(r),
            DevStage::Exists(_) | DevStage::Size(_) => self.step_measure(r),
            _ => self.step_clean(r),
        }
    }
}

proof fn lemma_lookup_prefix(tools: Seq<DevTool>, name: Seq<char>, n: int)
    requires
        0 < n <= tools.len(),
        lookup(tools.take(n - 1), name) is None,
        tools[n - 1].name@ == name,
    ensures
        lookup(tools, name) == Some(n - 1),
    decreases tools.len(),
{
    if n == tools.len() {
        assert(tools.drop_last() =~= tools.take(n - 1));
    } else {
        assert(tools.drop_last().take(n - 1) =~= tools.take(n - 1));
        assert(tools.drop_last()[n - 1] == tools[n - 1]);
        lemma_lookup_prefix(tools.drop_last(), name, n);
        assert(tools.take(n) =~= tools.drop_last().take(n));
    }
}

// ═══════════════════════════ Clearing around kept entries ═══════════════════════════

/// The entries of a directory to clear: every name not kept, in order.
pub open spec fn clear_targets(names: Seq<Seq<char>>, keep: Seq<Seq<char>>) -> Seq<Seq<char>>
    decreases names.len(),
{
    if names.len() == 0 {
        seq![]
    } else {
        clear_targets(names.drop_last(), keep) + if keep.contains(names.last()) {
            seq![]
        } else {
            seq![names.last()]
        }
    }
}

#[derive(Debug, Clone, Copy, PartialEq, Eq, Structural)]
pub enum ClearStage {
    Begin,
    IsDir,
    List,
    Size(usize),
    Remove(usize),
    Finished,
}

/// Empty a directory except the entries named in `keep` (for a parent
/// directory that holds something that must survive, such as `~/.cargo/bin`).
/// Finishes with the bytes freed: an entry counts once it is removed.
pub struct ClearExcept {
    pub path: String,
    pub keep: Vec<String>,
    pub stage: ClearStage,
    pub targets: Vec<String>,
    pub size: u64,
    pub freed: u64,
}

pub struct ClearExceptV {
    pub path: Seq<char>,
    pub keep: Seq<Seq<char>>,
    pub stage: ClearStage,
    pub targets: Seq<Seq<char>>,
    pub size: u64,
    pub freed: u64,
}

impl View for ClearExcept {
    type V = ClearExceptV;

    open spec fn view(&self) -> ClearExceptV {
        ClearExceptV {
            path: self.path@,
            keep: views(self.keep@),
            stage: self.stage,
            targets: views(self.targets@),
            size: self.size,
            freed: self.freed,
        }
    }
}

pub open spec fn cs(s: ClearExceptV, stage: ClearStage) -> ClearExceptV {
    ClearExceptV { stage, ..s }
}

/// Measure target `i`, or finish past the last one.
pub open spec fn clear_at(s: ClearExceptV, i: int) -> (ClearExceptV, StepV) {
    if 0 <= i < s.targets.len() {
        (cs(s, ClearStage::Size(i as usize)), ask(seq![], OpV::EntrySize(path_join(s.path, s.targets[i]))))
    } else {
        (cs(s, ClearStage::Finished), done(seq![], s.freed))
    }
}

/// One transition of clearing around kept entries.
pub open spec fn clear_next(s: ClearExceptV, r: ReplyV) -> (ClearExceptV, StepV) {
    match s.stage {
        ClearStage::Begin => (cs(s, ClearStage::IsDir), ask(seq![], OpV::IsDir(s.path))),
        ClearStage::IsDir => if flag_of(r) {
            (cs(s, ClearStage::List), ask(seq![], OpV::ListDir(s.path)))
        } else {
            (cs(s, ClearStage::Finished), done(seq![], 0))
        },
        ClearStage::List => clear_at(
            ClearExceptV { targets: clear_targets(names_of(r), s.keep), freed: 0, ..s },
            0,
        ),
        ClearStage::Size(i) => if i < s.targets.len() {
            (
                ClearExceptV { stage: ClearStage::Remove(i), size: size_of(r), ..s },
                ask(seq![], OpV::Remove(path_join(s.path, s.targets[i as int]))),
            )
        } else {
            (cs(s, ClearStage::Finished), done(seq![], s.freed))
        },
        ClearStage::Remove(i) => clear_at(
            ClearExceptV {
                freed: if flag_of(r) {
                    sat_add(s.freed, s.size)
                } else {
                    s.freed
                },
                ..s
            },
            i + 1,
        ),
        ClearStage::Finished => (s, done(seq![], s.freed)),
    }
}

/// Start emptying `path` except the entries named in `keep`.
pub fn clear_except(path: &str, keep: &[&str]) -> (m: ClearExcept)
    ensures
        m@.path == path@,
        m@.keep == str_views(keep@),
        m@.stage == ClearStage::Begin,
        m@.targets.len() == 0,
        m@.freed == 0,
{
    let mut k: Vec<String> = Vec::new();
    let mut i: usize = 0;
    while i < keep.len()
        invariant
            0 <= i <= keep.len(),
            views(k@) =~= str_views(keep@).take(i as int),
        decreases keep.len() - i,
    {
        let ghost before = k@;
        k.push(String::from_str(keep[i]));
        assert(views(k@) =~= views(before).push(keep@[i as int]@));
        i = i + 1;
    }
    assert(str_views(keep@).take(keep.len() as int) =~= str_views(keep@));
    let t: Vec<String> = Vec::new();
    assert(views(t@) =~= seq![]);
    ClearExcept { path: String::from_str(path), keep: k, stage: ClearStage::Begin, targets: t, size: 0, freed: 0 }
}

fn kept(keep: &Vec<String>, name: &str) -> (b: bool)
    ensures
        b == views(keep@).contains(name@),
{
    let n = chars_of(name);
    let mut i: usize = 0;
    while i < keep.len()
        invariant
            0 <= i <= keep.len(),
            n@ == name@,
            forall|j: int| 0 <= j < i ==> views(keep@)[j] != name@,
        decreases keep.len() - i,
    {
        let k = chars_of(keep[i].as_str());
        if crate::text::eq_chars(k.as_slice(), n.as_slice()) {
            assert(views(keep@)[i as int] == name@);
            return true;
        }
        i = i + 1;
    }
    false
}

fn clear_targets_exec(names: &[String], keep: &Vec<String>) -> (t: Vec<String>)
    ensures
        views(t@) == clear_targets(views(names@), views(keep@)),
{
    let mut t: Vec<String> = Vec::new();
    let mut i: usize = 0;
    while i < names.len()
        invariant
            0 <= i <= names.len(),
            views(t@) == clear_targets(views(names@).take(i as int), views(keep@)),
        decreases names.len() - i,
    {
        let ghost pre = views(names@).take(i + 1);
        assert(pre.drop_last() =~= views(names@).take(i as int));
        assert(pre.last() == names@[i as int]@);
        if !kept(keep, names[i].as_str()) {
            let ghost before = t@;
            t.push(names[i].clone());
            assert(views(t@) =~= views(before).push(names@[i as int]@));
        }
        i = i + 1;
    }
    assert(views(names@).take(names.len() as int) =~= views(names@));
    t
}

impl ClearExcept {
    fn at(&mut self, i: usize) -> (st: Step)
        ensures
            (final(self)@, st@) == clear_at(old(self)@, i as int),
    {
        if i < self.targets.len() {
            self.stage = ClearStage::Size(i);
            ask_step(no_lines(), Op::EntrySize(path_join_exec(self.path.as_str(), self.targets[i].as_str())))
        } else {
            self.stage = ClearStage::Finished;
            done_step(no_lines(), self.freed)
        }
    }

    /// Feed the answer to the previous request; get the next step.
    pub fn step(&mut self, r: &Reply) -> (st: Step)
        ensures
            (final(self)@, st@) == clear_next(old(self)@, r@),
    {
        match self.stage {
            ClearStage::Begin => {
                self.stage = ClearStage::IsDir;
                ask_step(no_lines(), Op::IsDir(self.path.clone()))
            },
            ClearStage::IsDir => if flag_reply(r) {
                self.stage = ClearStage::List;
                ask_step(no_lines(), Op::ListDir(self.path.clone()))
            } else {
                self.stage = ClearStage::Finished;
                done_step(no_lines(), 0)
            },
            ClearStage::List => {
                self.targets = clear_targets_exec(crate::plan::names_reply(r), &self.keep);
                self.freed = 0;
                self.at(0)
            },
            ClearStage::Size(i) => if i < self.targets.len() {
                self.size = size_reply(r);
                self.stage = ClearStage::Remove(i);
                ask_step(no_lines(), Op::Remove(path_join_exec(self.path.as_str(), self.targets[i].as_str())))
            } else {
                self.stage = ClearStage::Finished;
                done_step(no_lines(), self.freed)
            },
            ClearStage::Remove(i) => {
                if flag_reply(r) {
                    self.freed = self.freed.saturating_add(self.size);
                }
                if i < usize::MAX {
                    self.at(i + 1)
                } else {
                    let n = self.targets.len();
                    self.stage = ClearStage::Finished;
                    done_step(no_lines(), self.freed)
                }
            },
            ClearStage::Finished => done_step(no_lines(), self.freed),
        }
    }
}

} // verus!
