//! One cleaning session: what it prints around the operations, which
//! operations run in which order, and how their results add up.
use vstd::prelude::*;
use crate::cli::Ops;
use crate::detect::{distro_name, distro_pkg_manager, privilege_name, AurHelper, DiskType, Distro, Privilege};
use crate::plan::{
    l1, ln, line1, line_views, part_views, push_line, pv, Line, LineV, Part, Style,
};
use crate::utils::LineKind;

verus! {

// ═══════════════════════════ Building lines ═══════════════════════════

/// A piece of text with a style.
fn sp(text: &str, style: Style) -> (p: Part)
    ensures
        p@ == pv(text@, style),
{
    Part { text: String::from_str(text), style }
}

/// A line made of `parts`.
fn lp(kind: LineKind, parts: Vec<Part>) -> (l: Line)
    ensures
        l@ == ln(kind, part_views(parts@)),
{
    Line { kind, parts }
}

/// An empty line of `kind`.
pub open spec fn blank(kind: LineKind) -> LineV {
    ln(kind, seq![])
}

fn blank_line(kind: LineKind) -> (l: Line)
    ensures
        l@ =~~= blank(kind),
{
    let parts: Vec<Part> = Vec::new();
    assert(part_views(parts@) =~= seq![]);
    lp(kind, parts)
}

/// `s` when `b`, else nothing.
pub open spec fn when(b: bool, s: Seq<LineV>) -> Seq<LineV> {
    if b {
        s
    } else {
        seq![]
    }
}

// ═══════════════════════════ Banner ═══════════════════════════

pub open spec fn rule() -> Seq<char> {
    "\u{2500}\u{2500}\u{2500}\u{2500}\u{2500}\u{2500}\u{2500}\u{2500}\u{2500}\u{2500}\u{2500}\u{2500}\u{2500}\u{2500}\u{2500}\u{2500}\u{2500}\u{2500}\u{2500}\u{2500}\u{2500}\u{2500}\u{2500}\u{2500}\u{2500}\u{2500}\u{2500}\u{2500}\u{2500}\u{2500}\u{2500}\u{2500}\u{2500}\u{2500}\u{2500}\u{2500}\u{2500}\u{2500}\u{2500}\u{2500}\u{2500}\u{2500}\u{2500}\u{2500}\u{2500}\u{2500}"@
}

pub open spec fn banner_spec(version: Seq<char>) -> Seq<LineV> {
    seq![
        blank(LineKind::Banner),
        ln(
            LineKind::Banner,
            seq![
                pv("    "@, Style::Plain),
                pv("\u{26a1} Oxi"@, Style::CyanBold),
                pv(" "@, Style::Plain),
                pv("Clean"@, Style::WhiteBold),
                pv("  "@, Style::Plain),
                pv("v"@ + version, Style::Dimmed),
            ],
        ),
        ln(
            LineKind::Banner,
            seq![pv("    "@, Style::Plain), pv("Fast Cross-Distribution Linux System Cleaner"@, Style::White)],
        ),
        ln(LineKind::Banner, seq![pv("    "@, Style::Plain), pv(rule(), Style::CyanDimmed)]),
        blank(LineKind::Banner),
    ]
}

/// The banner for `version`: shown unless the run is quiet or JSON.
pub fn banner(version: &str) -> (v: Vec<Line>)
    ensures
        line_views(v@) =~~= banner_spec(version@),
{
    let mut v: Vec<Line> = Vec::new();
    push_line(&mut v, blank_line(LineKind::Banner));
    let mut a: Vec<Part> = Vec::new();
    a.push(sp("    ", Style::Plain));
    a.push(sp("\u{26a1} Oxi", Style::CyanBold));
    a.push(sp(" ", Style::Plain));
    a.push(sp("Clean", Style::WhiteBold));
    a.push(sp("  ", Style::Plain));
    a.push(Part { text: crate::plan::cat("v", version), style: Style::Dimmed });
    push_line(&mut v, lp(LineKind::Banner, a));
    let mut b: Vec<Part> = Vec::new();
    b.push(sp("    ", Style::Plain));
    b.push(sp("Fast Cross-Distribution Linux System Cleaner", Style::White));
    push_line(&mut v, lp(LineKind::Banner, b));
    let mut c: Vec<Part> = Vec::new();
    c.push(sp("    ", Style::Plain));
    c.push(sp(
        "\u{2500}\u{2500}\u{2500}\u{2500}\u{2500}\u{2500}\u{2500}\u{2500}\u{2500}\u{2500}\u{2500}\u{2500}\u{2500}\u{2500}\u{2500}\u{2500}\u{2500}\u{2500}\u{2500}\u{2500}\u{2500}\u{2500}\u{2500}\u{2500}\u{2500}\u{2500}\u{2500}\u{2500}\u{2500}\u{2500}\u{2500}\u{2500}\u{2500}\u{2500}\u{2500}\u{2500}\u{2500}\u{2500}\u{2500}\u{2500}\u{2500}\u{2500}\u{2500}\u{2500}\u{2500}\u{2500}",
        Style::CyanDimmed,
    ));
    push_line(&mut v, lp(LineKind::Banner, c));
    push_line(&mut v, blank_line(LineKind::Banner));
    v
}

// ═══════════════════════════ The system ═══════════════════════════

/// Everything detected once at startup.
pub struct SystemFacts {
    pub pretty_name: String,
    pub distro: Distro,
    /// Installed AUR helpers, in table order; empty off Arch.
    pub aur_helpers: Vec<AurHelper>,
    pub has_flatpak: bool,
    pub has_snap: bool,
    pub has_nix: bool,
    pub privilege: Privilege,
    pub disk_type: DiskType,
}

/// AUR helpers only matter on Arch-family systems.
pub fn helpers_for(distro: Distro, present: &Vec<String>) -> (v: Vec<AurHelper>)
    ensures
        distro != Distro::Arch ==> v@.len() == 0,
        distro == Distro::Arch ==> exists|t: Vec<AurHelper>|
            crate::detect::helper_views(t@) =~~= crate::detect::aur_table() && v@
                == crate::detect::installed_helpers(t@, crate::text::views(present@)),
{
    if distro == Distro::Arch {
        crate::detect::aur_helpers(present)
    } else {
        Vec::new()
    }
}

pub open spec fn label_line(label: Seq<char>, value: Seq<char>, style: Style) -> LineV {
    ln(
        LineKind::Plain,
        seq![pv("  "@, Style::Plain), pv(label, Style::WhiteBold), pv(" "@, Style::Plain), pv(value, style)],
    )
}

fn label_line_exec(label: &str, value: String, style: Style) -> (l: Line)
    ensures
        l@ =~~= label_line(label@, value@, style),
{
    let mut a: Vec<Part> = Vec::new();
    a.push(sp("  ", Style::Plain));
    a.push(sp(label, Style::WhiteBold));
    a.push(sp(" ", Style::Plain));
    a.push(Part { text: value, style });
    lp(LineKind::Plain, a)
}

pub open spec fn distro_line(d: Distro) -> LineV {
    ln(
        LineKind::Plain,
        seq![
            pv("  "@, Style::Plain),
            pv("Distro:"@, Style::WhiteBold),
            pv(" "@, Style::Plain),
            pv(distro_name(d), Style::Cyan),
            pv(" ("@, Style::Plain),
            pv(distro_pkg_manager(d), Style::Dimmed),
            pv(")"@, Style::Plain),
        ],
    )
}

pub open spec fn mode_line(text: Seq<char>, style: Style) -> LineV {
    ln(LineKind::Plain, seq![pv("  "@, Style::Plain), pv(text, style)])
}

pub open spec fn hdd_line() -> LineV {
    ln(
        LineKind::Plain,
        seq![
            pv("  "@, Style::Plain),
            pv("\u{26a0}"@, Style::YellowBold),
            pv(" "@, Style::Plain),
            pv("HDD detected \u{2014} cleanup may take longer"@, Style::Yellow),
        ],
    )
}

/// What the system block says: the system, the family and its package
/// manager, the first AUR helper, Flatpak, Snap, Nix (off NixOS), a warning
/// for spinning disks, and the dry-run and deep modes.
pub open spec fn info_spec(
    pretty: Seq<char>,
    d: Distro,
    helpers: Seq<AurHelper>,
    flatpak: bool,
    snap: bool,
    nix: bool,
    disk: DiskType,
    dry_run: bool,
    deep: bool,
) -> Seq<LineV> {
    seq![label_line("System:"@, pretty, Style::Cyan), distro_line(d)]
        + when(helpers.len() > 0, seq![label_line("AUR:"@, helpers[0].bin@, Style::Cyan)])
        + when(flatpak, seq![label_line("Flatpak:"@, "detected \u{2714}"@, Style::Green)])
        + when(snap, seq![label_line("Snap:"@, "detected \u{2714}"@, Style::Green)])
        + when(nix && d != Distro::Nix, seq![label_line("Nix:"@, "detected \u{2714}"@, Style::Green)])
        + when(disk == DiskType::HDD, seq![hdd_line()])
        + when(
            dry_run,
            seq![
                blank(LineKind::Plain),
                mode_line("\u{26a0}  DRY RUN MODE \u{2014} no changes will be made"@, Style::YellowBold),
            ],
        )
        + when(
            deep,
            seq![
                blank(LineKind::Plain),
                mode_line("\u{26a0}  DEEP CLEAN MODE \u{2014} aggressive cleaning enabled"@, Style::RedBold),
            ],
        )
}

fn mode_line_exec(text: &str, style: Style) -> (l: Line)
    ensures
        l@ =~~= mode_line(text@, style),
{
    let mut a: Vec<Part> = Vec::new();
    a.push(sp("  ", Style::Plain));
    a.push(sp(text, style));
    lp(LineKind::Plain, a)
}

/// `a` followed by `b`.
pub fn cat_lines(a: Vec<Line>, b: Vec<Line>) -> (r: Vec<Line>)
    ensures
        line_views(r@) =~= line_views(a@) + line_views(b@),
{
    let mut a = a;
    let mut b = b;
    let ghost x = a@;
    let ghost y = b@;
    a.append(&mut b);
    assert(line_views(a@) =~= line_views(x) + line_views(y));
    a
}

fn when_line(b: bool, l: Line) -> (v: Vec<Line>)
    ensures
        line_views(v@) =~~= when(b, seq![l@]),
{
    let mut v: Vec<Line> = Vec::new();
    if b {
        push_line(&mut v, l);
    }
    proof {
        if b {
            assert(line_views(v@) =~~= seq![l@]);
        } else {
            assert(line_views(v@) =~~= seq![]);
        }
    }
    v
}

fn detected(b: bool, label: &str) -> (v: Vec<Line>)
    ensures
        line_views(v@) =~~= when(b, seq![label_line(label@, "detected \u{2714}"@, Style::Green)]),
{
    when_line(b, label_line_exec(label, String::from_str("detected \u{2714}"), Style::Green))
}

fn mode_piece(b: bool, text: &str, style: Style) -> (v: Vec<Line>)
    ensures
        line_views(v@) =~~= when(b, seq![blank(LineKind::Plain), mode_line(text@, style)]),
{
    let mut v: Vec<Line> = Vec::new();
    if b {
        push_line(&mut v, blank_line(LineKind::Plain));
        push_line(&mut v, mode_line_exec(text, style));
    }
    proof {
        if b {
            assert(line_views(v@) =~~= seq![blank(LineKind::Plain), mode_line(text@, style)]);
        } else {
            assert(line_views(v@) =~~= seq![]);
        }
    }
    v
}

fn head_lines(sys: &SystemFacts) -> (v: Vec<Line>)
    ensures
        line_views(v@) =~~= seq![label_line("System:"@, sys.pretty_name@, Style::Cyan), distro_line(sys.distro)],
{
    let mut v: Vec<Line> = Vec::new();
    push_line(&mut v, label_line_exec("System:", sys.pretty_name.clone(), Style::Cyan));
    let mut d: Vec<Part> = Vec::new();
    d.push(sp("  ", Style::Plain));
    d.push(sp("Distro:", Style::WhiteBold));
    d.push(sp(" ", Style::Plain));
    d.push(sp(sys.distro.name(), Style::Cyan));
    d.push(sp(" (", Style::Plain));
    d.push(sp(sys.distro.pkg_manager(), Style::Dimmed));
    d.push(sp(")", Style::Plain));
    push_line(&mut v, lp(LineKind::Plain, d));
    v
}

fn aur_piece(helpers: &Vec<AurHelper>) -> (v: Vec<Line>)
    ensures
        line_views(v@) =~~= when(helpers@.len() > 0, seq![label_line("AUR:"@, helpers@[0].bin@, Style::Cyan)]),
{
    if helpers.len() > 0 {
        when_line(true, label_line_exec("AUR:", String::from_str(helpers[0].bin), Style::Cyan))
    } else {
        let v: Vec<Line> = Vec::new();
        assert(line_views(v@) =~~= seq![]);
        v
    }
}

fn hdd_piece(disk: DiskType) -> (v: Vec<Line>)
    ensures
        line_views(v@) =~~= when(disk == DiskType::HDD, seq![hdd_line()]),
{
    let mut h: Vec<Part> = Vec::new();
    h.push(sp("  ", Style::Plain));
    h.push(sp("\u{26a0}", Style::YellowBold));
    h.push(sp(" ", Style::Plain));
    h.push(sp("HDD detected \u{2014} cleanup may take longer", Style::Yellow));
    when_line(disk == DiskType::HDD, lp(LineKind::Plain, h))
}

/// The system block printed before the operations; nothing in JSON mode.
pub fn system_info(sys: &SystemFacts, dry_run: bool, deep: bool, json: bool) -> (v: Vec<Line>)
    ensures
        json ==> line_views(v@) =~= seq![],
        !json ==> line_views(v@) =~~= info_spec(
            sys.pretty_name@,
            sys.distro,
            sys.aur_helpers@,
            sys.has_flatpak,
            sys.has_snap,
            sys.has_nix,
            sys.disk_type,
            dry_run,
            deep,
        ),
{
    if json {
        let v: Vec<Line> = Vec::new();
        assert(line_views(v@) =~= seq![]);
        return v;
    }
    let v = cat_lines(head_lines(sys), aur_piece(&sys.aur_helpers));
    let v = cat_lines(v, detected(sys.has_flatpak, "Flatpak:"));
    let v = cat_lines(v, detected(sys.has_snap, "Snap:"));
    let v = cat_lines(v, detected(sys.has_nix && sys.distro != Distro::Nix, "Nix:"));
    let v = cat_lines(v, hdd_piece(sys.disk_type));
    let v = cat_lines(v, mode_piece(dry_run, "\u{26a0}  DRY RUN MODE \u{2014} no changes will be made", Style::YellowBold));
    cat_lines(v, mode_piece(deep, "\u{26a0}  DEEP CLEAN MODE \u{2014} aggressive cleaning enabled", Style::RedBold))
}

// ═══════════════════════════ The operations ═══════════════════════════

/// One piece of work of a session.
#[derive(Debug, Clone, Copy, PartialEq, Eq, Structural)]
pub enum Task {
    UserCache,
    PkgCache,
    NixGc,
    Orphans,
    AurCache,
    /// `--aur` was asked for on a system that is not Arch-based.
    NotArch,
    Flatpak,
    /// `--flatpak` was asked for without Flatpak installed.
    NoFlatpak,
    Snap,
    /// `--snap` was asked for without Snap installed.
    NoSnap,
    Journal,
    Trash,
    Coredumps,
    Dev,
    Trim,
}

/// A report entry: the operation's name and the tasks whose freed bytes it sums.
pub struct Entry {
    pub name: &'static str,
    pub tasks: Vec<Task>,
}

pub struct EntryV {
    pub name: Seq<char>,
    pub tasks: Seq<Task>,
}

impl View for Entry {
    type V = EntryV;

    open spec fn view(&self) -> EntryV {
        EntryV { name: self.name@, tasks: self.tasks@ }
    }
}

pub open spec fn entry_views(v: Seq<Entry>) -> Seq<EntryV> {
    v.map_values(|e: Entry| e@)
}

pub open spec fn ev(name: Seq<char>, tasks: Seq<Task>) -> EntryV {
    EntryV { name, tasks }
}

pub open spec fn when_entry(b: bool, e: EntryV) -> Seq<EntryV> {
    if b {
        seq![e]
    } else {
        seq![]
    }
}

/// The session's operations in run order, each with its tasks: Nix's
/// garbage collection joins the package cache on systems other than NixOS
/// that have Nix; the AUR cache runs on Arch only, Flatpak and Snap only
/// where installed, and each says it was skipped only when its own flag
/// asked for it (not when it came from `--all`).
pub open spec fn plan_spec(
    ops: Ops,
    aur_flag: bool,
    flatpak_flag: bool,
    snap_flag: bool,
    distro: Distro,
    has_flatpak: bool,
    has_snap: bool,
    has_nix: bool,
) -> Seq<EntryV> {
    when_entry(ops.cache, ev("cache"@, seq![Task::UserCache]))
        + when_entry(
            ops.packages,
            ev(
                "packages"@,
                if has_nix && distro != Distro::Nix {
                    seq![Task::PkgCache, Task::NixGc]
                } else {
                    seq![Task::PkgCache]
                },
            ),
        ) + when_entry(ops.orphans, ev("orphans"@, seq![Task::Orphans]))
        + when_entry(
            ops.aur,
            ev(
                "aur"@,
                if distro == Distro::Arch {
                    seq![Task::AurCache]
                } else if aur_flag {
                    seq![Task::NotArch]
                } else {
                    seq![]
                },
            ),
        ) + when_entry(
            ops.flatpak,
            ev(
                "flatpak"@,
                if has_flatpak {
                    seq![Task::Flatpak]
                } else if flatpak_flag {
                    seq![Task::NoFlatpak]
                } else {
                    seq![]
                },
            ),
        ) + when_entry(
            ops.snap,
            ev(
                "snap"@,
                if has_snap {
                    seq![Task::Snap]
                } else if snap_flag {
                    seq![Task::NoSnap]
                } else {
                    seq![]
                },
            ),
        ) + when_entry(ops.journal, ev("journal"@, seq![Task::Journal]))
        + when_entry(ops.trash, ev("trash"@, seq![Task::Trash]))
        + when_entry(ops.coredumps, ev("coredumps"@, seq![Task::Coredumps]))
        + when_entry(ops.dev, ev("dev"@, seq![Task::Dev]))
        + when_entry(ops.trim, ev("trim"@, seq![Task::Trim]))
}

fn push_entry(v: &mut Vec<Entry>, b: bool, name: &'static str, tasks: Vec<Task>)
    ensures
        entry_views(final(v)@) =~= entry_views(old(v)@) + when_entry(b, ev(name@, tasks@)),
{
    let ghost before = v@;
    if b {
        v.push(Entry { name, tasks });
        assert(entry_views(v@) =~= entry_views(before) + seq![ev(name@, tasks@)]);
    } else {
        assert(entry_views(v@) =~= entry_views(before) + seq![]);
    }
}

fn tasks1(a: Task) -> (v: Vec<Task>)
    ensures
        v@ == seq![a],
{
    let mut v: Vec<Task> = Vec::new();
    v.push(a);
    assert(v@ =~= seq![a]);
    v
}

fn tasks_or(first: bool, a: Task, second: bool, b: Task) -> (v: Vec<Task>)
    ensures
        v@ == (if first {
            seq![a]
        } else if second {
            seq![b]
        } else {
            seq![]
        }),
{
    if first {
        tasks1(a)
    } else if second {
        tasks1(b)
    } else {
        let v: Vec<Task> = Vec::new();
        assert(v@ =~= seq![]);
        v
    }
}

/// The operations of a session in run order. `aur_flag`, `flatpak_flag` and
/// `snap_flag` are the flags as given on the command line.
pub fn session_plan(
    ops: Ops,
    aur_flag: bool,
    flatpak_flag: bool,
    snap_flag: bool,
    sys: &SystemFacts,
) -> (v: Vec<Entry>)
    ensures
        entry_views(v@) =~= plan_spec(
            ops,
            aur_flag,
            flatpak_flag,
            snap_flag,
            sys.distro,
            sys.has_flatpak,
            sys.has_snap,
            sys.has_nix,
        ),
{
    let mut v: Vec<Entry> = Vec::new();
    assert(entry_views(v@) =~= seq![]);
    push_entry(&mut v, ops.cache, "cache", tasks1(Task::UserCache));
    let mut pk = tasks1(Task::PkgCache);
    if sys.has_nix && sys.distro != Distro::Nix {
        pk.push(Task::NixGc);
        assert(pk@ =~= seq![Task::PkgCache, Task::NixGc]);
    }
    push_entry(&mut v, ops.packages, "packages", pk);
    push_entry(&mut v, ops.orphans, "orphans", tasks1(Task::Orphans));
    push_entry(&mut v, ops.aur, "aur", tasks_or(sys.distro == Distro::Arch, Task::AurCache, aur_flag, Task::NotArch));
    push_entry(&mut v, ops.flatpak, "flatpak", tasks_or(sys.has_flatpak, Task::Flatpak, flatpak_flag, Task::NoFlatpak));
    push_entry(&mut v, ops.snap, "snap", tasks_or(sys.has_snap, Task::Snap, snap_flag, Task::NoSnap));
    push_entry(&mut v, ops.journal, "journal", tasks1(Task::Journal));
    push_entry(&mut v, ops.trash, "trash", tasks1(Task::Trash));
    push_entry(&mut v, ops.coredumps, "coredumps", tasks1(Task::Coredumps));
    push_entry(&mut v, ops.dev, "dev", tasks1(Task::Dev));
    push_entry(&mut v, ops.trim, "trim", tasks1(Task::Trim));
    v
}

pub open spec fn skip_spec(t: Task) -> Seq<LineV> {
    match t {
        Task::NotArch => seq![
            l1(LineKind::Section, "AUR Cache"@),
            l1(LineKind::Skip, "Not an Arch-based system \u{2014} skipped"@),
        ],
        Task::NoFlatpak => seq![
            l1(LineKind::Section, "Flatpak"@),
            l1(LineKind::Skip, "Flatpak is not installed \u{2014} skipped"@),
        ],
        Task::NoSnap => seq![
            l1(LineKind::Section, "Snap"@),
            l1(LineKind::Skip, "Snap is not installed \u{2014} skipped"@),
        ],
        _ => seq![],
    }
}

/// What a skipped task prints; nothing for a task that runs.
pub fn skip_lines(t: Task) -> (v: Vec<Line>)
    ensures
        line_views(v@) =~~= skip_spec(t),
{
    let mut v: Vec<Line> = Vec::new();
    match t {
        Task::NotArch => {
            push_line(&mut v, line1(LineKind::Section, "AUR Cache"));
            push_line(&mut v, line1(LineKind::Skip, "Not an Arch-based system \u{2014} skipped"));
        },
        Task::NoFlatpak => {
            push_line(&mut v, line1(LineKind::Section, "Flatpak"));
            push_line(&mut v, line1(LineKind::Skip, "Flatpak is not installed \u{2014} skipped"));
        },
        Task::NoSnap => {
            push_line(&mut v, line1(LineKind::Section, "Snap"));
            push_line(&mut v, line1(LineKind::Skip, "Snap is not installed \u{2014} skipped"));
        },
        _ => {},
    }
    v
}

/// `--json` implies non-interactive: prompts are answered as with `--yes`.
pub fn effective_yes(yes: bool, json: bool) -> (b: bool)
    ensures
        b == (yes || json),
{
    yes || json
}

/// The running total of freed bytes, saturating.
pub open spec fn freed_total(v: Seq<(Seq<char>, u64)>) -> u64
    decreases v.len(),
{
    if v.len() == 0 {
        0
    } else {
        crate::clean::sat_add(freed_total(v.drop_last()), v.last().1)
    }
}

/// The bytes freed by all recorded operations, saturating.
pub fn total_freed(results: &[(&str, u64)]) -> (n: u64)
    ensures
        n == freed_total(crate::cli::result_views(results@)),
{
    let mut n: u64 = 0;
    let mut i: usize = 0;
    while i < results.len()
        invariant
            0 <= i <= results.len(),
            n == freed_total(crate::cli::result_views(results@).take(i as int)),
        decreases results.len() - i,
    {
        let ghost t = crate::cli::result_views(results@).take(i + 1);
        assert(t.drop_last() =~= crate::cli::result_views(results@).take(i as int));
        n = n.saturating_add(results[i].1);
        i = i + 1;
    }
    assert(crate::cli::result_views(results@).take(results.len() as int) =~= crate::cli::result_views(results@));
    n
}

// ═══════════════════════════ Privileges ═══════════════════════════

/// What to do about privileges before running.
#[derive(Debug, Clone, Copy, PartialEq, Eq, Structural)]
pub enum PrivGate {
    /// Nothing selected needs them, or it is a dry run.
    Proceed,
    /// They are needed and there is no way to get them.
    NoTool,
    /// They are needed: acquire them first.
    Acquire,
}

pub open spec fn privilege_gate_spec(needs_sudo: bool, dry_run: bool, p: Privilege) -> PrivGate {
    if needs_sudo && !dry_run {
        if p == Privilege::Unavailable {
            PrivGate::NoTool
        } else {
            PrivGate::Acquire
        }
    } else {
        PrivGate::Proceed
    }
}

/// Privileges are needed when a selected operation needs them and the run
/// is not a dry run.
pub fn privilege_gate(needs_sudo: bool, dry_run: bool, p: Privilege) -> (g: PrivGate)
    ensures
        g == privilege_gate_spec(needs_sudo, dry_run, p),
{
    if needs_sudo && !dry_run {
        if p == Privilege::Unavailable {
            PrivGate::NoTool
        } else {
            PrivGate::Acquire
        }
    } else {
        PrivGate::Proceed
    }
}

pub open spec fn no_tool_spec() -> Seq<LineV> {
    seq![
        l1(LineKind::Error, "No privilege-escalation tool found (need root, sudo, or doas)."@),
        l1(LineKind::Info, "Install sudo or doas, or re-run as root, for system-level cleanup."@),
        l1(LineKind::Info, "User-level operations (--cache, --trash, --dev) work without privileges."@),
    ]
}

/// What a run without any escalation tool says before it stops.
pub fn no_tool_lines() -> (v: Vec<Line>)
    ensures
        line_views(v@) =~~= no_tool_spec(),
{
    let mut v: Vec<Line> = Vec::new();
    push_line(&mut v, line1(LineKind::Error, "No privilege-escalation tool found (need root, sudo, or doas)."));
    push_line(&mut v, line1(LineKind::Info, "Install sudo or doas, or re-run as root, for system-level cleanup."));
    push_line(
        &mut v,
        line1(LineKind::Info, "User-level operations (--cache, --trash, --dev) work without privileges."),
    );
    v
}

pub open spec fn request_spec(p: Privilege, json: bool) -> Seq<LineV> {
    if p == Privilege::Root || json {
        seq![]
    } else {
        seq![
            blank(LineKind::Plain),
            mode_line("\u{1f510} Requesting privileges ("@ + privilege_name(p) + ")..."@, Style::Yellow),
        ]
    }
}

/// What is printed before asking for privileges: nothing when already root
/// or in JSON mode.
pub fn request_lines(p: Privilege, json: bool) -> (v: Vec<Line>)
    ensures
        line_views(v@) =~~= request_spec(p, json),
{
    let mut v: Vec<Line> = Vec::new();
    if p == Privilege::Root || json {
        assert(line_views(v@) =~~= seq![]);
        return v;
    }
    push_line(&mut v, blank_line(LineKind::Plain));
    let mut a: Vec<Part> = Vec::new();
    a.push(sp("  ", Style::Plain));
    a.push(Part {
        text: crate::plan::cat("\u{1f510} Requesting privileges (", p.name()).concat(")..."),
        style: Style::Yellow,
    });
    push_line(&mut v, lp(LineKind::Plain, a));
    v
}

// ═══════════════════════════ Start and end ═══════════════════════════

pub open spec fn nothing_spec() -> Seq<LineV> {
    seq![
        ln(
            LineKind::Plain,
            seq![
                pv("  "@, Style::Plain),
                pv("\u{2718}"@, Style::RedBold),
                pv(" No operation selected. Use "@, Style::Plain),
                pv("--all"@, Style::Cyan),
                pv(" for all, or select specific operations."@, Style::Plain),
            ],
        ),
        blank(LineKind::Plain),
        ln(
            LineKind::Plain,
            seq![
                pv("  Quick start:  "@, Style::Plain),
                pv("oxiclean"@, Style::Green),
                pv(" "@, Style::Plain),
                pv("--all"@, Style::Cyan),
            ],
        ),
        ln(
            LineKind::Plain,
            seq![
                pv("  See help:     "@, Style::Plain),
                pv("oxiclean"@, Style::Green),
                pv(" "@, Style::Plain),
                pv("--help"@, Style::Cyan),
            ],
        ),
        blank(LineKind::Plain),
    ]
}

/// What a run with no operation selected says (outside JSON mode).
pub fn nothing_selected() -> (v: Vec<Line>)
    ensures
        line_views(v@) =~~= nothing_spec(),
{
    let mut v: Vec<Line> = Vec::new();
    let mut a: Vec<Part> = Vec::new();
    a.push(sp("  ", Style::Plain));
    a.push(sp("\u{2718}", Style::RedBold));
    a.push(sp(" No operation selected. Use ", Style::Plain));
    a.push(sp("--all", Style::Cyan));
    a.push(sp(" for all, or select specific operations.", Style::Plain));
    push_line(&mut v, lp(LineKind::Plain, a));
    push_line(&mut v, blank_line(LineKind::Plain));
    let mut b: Vec<Part> = Vec::new();
    b.push(sp("  Quick start:  ", Style::Plain));
    b.push(sp("oxiclean", Style::Green));
    b.push(sp(" ", Style::Plain));
    b.push(sp("--all", Style::Cyan));
    push_line(&mut v, lp(LineKind::Plain, b));
    let mut c: Vec<Part> = Vec::new();
    c.push(sp("  See help:     ", Style::Plain));
    c.push(sp("oxiclean", Style::Green));
    c.push(sp(" ", Style::Plain));
    c.push(sp("--help", Style::Cyan));
    push_line(&mut v, lp(LineKind::Plain, c));
    push_line(&mut v, blank_line(LineKind::Plain));
    v
}

pub open spec fn double_rule() -> Seq<char> {
    "\u{2550}\u{2550}\u{2550}\u{2550}\u{2550}\u{2550}\u{2550}\u{2550}\u{2550}\u{2550}\u{2550}\u{2550}\u{2550}\u{2550}\u{2550}\u{2550}\u{2550}\u{2550}\u{2550}\u{2550}\u{2550}\u{2550}\u{2550}\u{2550}\u{2550}\u{2550}\u{2550}\u{2550}\u{2550}\u{2550}\u{2550}\u{2550}\u{2550}\u{2550}\u{2550}\u{2550}\u{2550}\u{2550}\u{2550}\u{2550}\u{2550}\u{2550}\u{2550}\u{2550}\u{2550}\u{2550}"@
}

pub open spec fn summary_spec(total: u64, elapsed: Seq<char>, dry_run: bool) -> Seq<LineV> {
    seq![
        blank(LineKind::Plain),
        mode_line(double_rule(), Style::CyanDimmed),
        ln(
            LineKind::Plain,
            seq![
                pv("  "@, Style::Plain),
                pv("\u{26a1} Total freed:"@, Style::WhiteBold),
                pv(" "@, Style::Plain),
                pv(crate::clean::fmt(total), Style::GreenBold),
            ],
        ),
        ln(
            LineKind::Plain,
            seq![
                pv("  "@, Style::Plain),
                pv("\u{23f1}  Completed in:"@, Style::WhiteBold),
                pv(" "@, Style::Plain),
                pv(elapsed + "s"@, Style::Plain),
            ],
        ),
    ] + when(dry_run, seq![mode_line("\u{1f4cb} This was a dry run \u{2014} no changes were made"@, Style::YellowBold)])
        + seq![mode_line(double_rule(), Style::CyanDimmed), blank(LineKind::Plain)]
}

fn rule_line() -> (l: Line)
    ensures
        l@ =~~= mode_line(double_rule(), Style::CyanDimmed),
{
    mode_line_exec(
        "\u{2550}\u{2550}\u{2550}\u{2550}\u{2550}\u{2550}\u{2550}\u{2550}\u{2550}\u{2550}\u{2550}\u{2550}\u{2550}\u{2550}\u{2550}\u{2550}\u{2550}\u{2550}\u{2550}\u{2550}\u{2550}\u{2550}\u{2550}\u{2550}\u{2550}\u{2550}\u{2550}\u{2550}\u{2550}\u{2550}\u{2550}\u{2550}\u{2550}\u{2550}\u{2550}\u{2550}\u{2550}\u{2550}\u{2550}\u{2550}\u{2550}\u{2550}\u{2550}\u{2550}\u{2550}\u{2550}",
        Style::CyanDimmed,
    )
}

/// The closing report: total freed, the time taken (`elapsed` is the
/// seconds already written out), and a dry-run reminder.
pub fn summary(total: u64, elapsed: &str, dry_run: bool) -> (v: Vec<Line>)
    ensures
        line_views(v@) =~~= summary_spec(total, elapsed@, dry_run),
{
    let mut head: Vec<Line> = Vec::new();
    push_line(&mut head, blank_line(LineKind::Plain));
    push_line(&mut head, rule_line());
    let mut a: Vec<Part> = Vec::new();
    a.push(sp("  ", Style::Plain));
    a.push(sp("\u{26a1} Total freed:", Style::WhiteBold));
    a.push(sp(" ", Style::Plain));
    a.push(Part { text: crate::utils::format_size(total), style: Style::GreenBold });
    push_line(&mut head, lp(LineKind::Plain, a));
    let mut b: Vec<Part> = Vec::new();
    b.push(sp("  ", Style::Plain));
    b.push(sp("\u{23f1}  Completed in:", Style::WhiteBold));
    b.push(sp(" ", Style::Plain));
    b.push(Part { text: crate::plan::cat(elapsed, "s"), style: Style::Plain });
    push_line(&mut head, lp(LineKind::Plain, b));
    let mid = when_line(dry_run, mode_line_exec("\u{1f4cb} This was a dry run \u{2014} no changes were made", Style::YellowBold));
    let mut tail: Vec<Line> = Vec::new();
    push_line(&mut tail, rule_line());
    push_line(&mut tail, blank_line(LineKind::Plain));
    cat_lines(cat_lines(head, mid), tail)
}

} // verus!
