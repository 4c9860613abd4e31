//! Which operations a command line selects, and the JSON report.
use vstd::prelude::*;
use crate::packages::dec_string;
use crate::plan::cat;
use crate::text::{chars_of, push_char, str_views, string_of, trim, trim_exec, views};
use crate::utils::dec;

verus! {

/// The operation flags of a command line, as given.
pub struct Selection {
    pub cache: bool,
    pub packages: bool,
    pub orphans: bool,
    pub aur: bool,
    pub flatpak: bool,
    pub snap: bool,
    pub journal: bool,
    pub trash: bool,
    pub coredumps: bool,
    pub dev: bool,
    pub trim: bool,
    pub all: bool,
    /// The `--skip` names, split at commas.
    pub skip: Vec<String>,
}

/// The set of cleanup operations to run.
#[derive(Debug, Clone, Copy, PartialEq, Eq, Structural)]
pub struct Ops {
    pub cache: bool,
    pub packages: bool,
    pub orphans: bool,
    pub aur: bool,
    pub flatpak: bool,
    pub snap: bool,
    pub journal: bool,
    pub trash: bool,
    pub coredumps: bool,
    pub dev: bool,
    pub trim: bool,
}

/// The operations `--all` turns on, and so the only names `--skip` accepts.
pub open spec fn skippable() -> Seq<Seq<char>> {
    seq![
        "cache"@,
        "packages"@,
        "orphans"@,
        "aur"@,
        "flatpak"@,
        "snap"@,
        "journal"@,
        "trash"@,
        "coredumps"@,
    ]
}

/// The names `--skip` accepts: what `--all` turns on. `dev` and `trim` are
/// never part of `--all`, so they are not among them.
pub fn skippable_ops() -> (v: Vec<&'static str>)
    ensures
        str_views(v@) == skippable(),
{
    let v = vec!["cache", "packages", "orphans", "aur", "flatpak", "snap", "journal", "trash", "coredumps"];
    assert(str_views(v@) =~= skippable());
    v
}

/// `op` is among the (trimmed) skip names.
pub open spec fn skipped(skip: Seq<Seq<char>>, op: Seq<char>) -> bool {
    exists|i: int| 0 <= i < skip.len() && trim(#[trigger] skip[i]) == op
}

/// The first skip name that is not a skippable operation, trimmed.
pub open spec fn first_unknown(skip: Seq<Seq<char>>) -> Option<Seq<char>>
    decreases skip.len(),
{
    if skip.len() == 0 {
        None
    } else {
        match first_unknown(skip.drop_last()) {
            Some(n) => Some(n),
            None => if skippable().contains(trim(skip.last())) {
                None
            } else {
                Some(trim(skip.last()))
            },
        }
    }
}

/// The error text for an unknown skip name.
pub open spec fn unknown_message(name: Seq<char>) -> Seq<char> {
    "unknown --skip operation '"@ + name
        + "'. Valid: cache, packages, orphans, aur, flatpak, snap, journal, trash, coredumps"@
}

pub open spec fn on(all: bool, flag: bool, skip: Seq<Seq<char>>, op: Seq<char>) -> bool {
    (all || flag) && !skipped(skip, op)
}

/// What `resolve` returns for a selection.
pub open spec fn resolution(sel: Selection) -> Result<Ops, Seq<char>> {
    let skip = views(sel.skip@);
    if skip.len() > 0 && !sel.all {
        Err("--skip only works together with --all"@)
    } else {
        match first_unknown(skip) {
            Some(n) => Err(unknown_message(n)),
            None => Ok(
                Ops {
                    cache: on(sel.all, sel.cache, skip, "cache"@),
                    packages: on(sel.all, sel.packages, skip, "packages"@),
                    orphans: on(sel.all, sel.orphans, skip, "orphans"@),
                    aur: on(sel.all, sel.aur, skip, "aur"@),
                    flatpak: on(sel.all, sel.flatpak, skip, "flatpak"@),
                    snap: on(sel.all, sel.snap, skip, "snap"@),
                    journal: on(sel.all, sel.journal, skip, "journal"@),
                    trash: on(sel.all, sel.trash, skip, "trash"@),
                    coredumps: on(sel.all, sel.coredumps, skip, "coredumps"@),
                    dev: sel.dev,
                    trim: sel.trim,
                },
            ),
        }
    }
}

pub open spec fn result_view(r: Result<Ops, String>) -> Result<Ops, Seq<char>> {
    match r {
        Ok(o) => Ok(o),
        Err(e) => Err(e@),
    }
}

/// Some skip name, trimmed, equals `op`.
fn is_skipped(skip: &Vec<String>, op: &str) -> (b: bool)
    ensures
        b == skipped(views(skip@), op@),
{
    let target = chars_of(op);
    let mut i: usize = 0;
    while i < skip.len()
        invariant
            0 <= i <= skip.len(),
            target@ == op@,
            forall|j: int| 0 <= j < i ==> trim(#[trigger] views(skip@)[j]) != op@,
        decreases skip.len() - i,
    {
        let cs = chars_of(skip[i].as_str());
        let t = trim_exec(cs.as_slice());
        assert(views(skip@)[i as int] == cs@);
        if crate::text::eq_chars(t, target.as_slice()) {
            return true;
        }
        i = i + 1;
    }
    false
}

impl Ops {
    /// Resolve the operations a selection asks for. `--all` turns on every
    /// system operation but never `--dev` or `--trim`; `--skip` only takes
    /// operations away, only with `--all`, and only names `--all` turns on.
    pub fn resolve(sel: &Selection) -> (r: Result<Ops, String>)
        ensures
            result_view(r) == resolution(*sel),
    {
        if sel.skip.len() > 0 && !sel.all {
            return Err(String::from_str("--skip only works together with --all"));
        }
        let valid = skippable_ops();
        let mut i: usize = 0;
        while i < sel.skip.len()
            invariant
                0 <= i <= sel.skip.len(),
                !(sel.skip@.len() > 0 && !sel.all),
                str_views(valid@) == skippable(),
                first_unknown(views(sel.skip@).take(i as int)) is None,
            decreases sel.skip.len() - i,
        {
            let cs = chars_of(sel.skip[i].as_str());
            let name = trim_exec(cs.as_slice());
            assert(views(sel.skip@).take(i + 1).drop_last() =~= views(sel.skip@).take(i as int));
            assert(views(sel.skip@).take(i + 1).last() == cs@);
            if !crate::text::in_list(name, &valid) {
                proof {
                    assert(views(sel.skip@)[i as int] == cs@);
                    assert(name@ == trim(views(sel.skip@)[i as int]));
                    lemma_first_unknown_prefix(views(sel.skip@), i as int + 1);
                    assert(first_unknown(views(sel.skip@)) == Some(name@));
                }
                let msg = cat("unknown --skip operation '", string_of(name).as_str()).concat(
                    "'. Valid: cache, packages, orphans, aur, flatpak, snap, journal, trash, coredumps",
                );
                assert(msg@ == unknown_message(name@));
                return Err(msg);
            }
            i = i + 1;
        }
        assert(views(sel.skip@).take(sel.skip.len() as int) =~= views(sel.skip@));
        let skip = &sel.skip;
        Ok(
            Ops {
                cache: (sel.all || sel.cache) && !is_skipped(skip, "cache"),
                packages: (sel.all || sel.packages) && !is_skipped(skip, "packages"),
                orphans: (sel.all || sel.orphans) && !is_skipped(skip, "orphans"),
                aur: (sel.all || sel.aur) && !is_skipped(skip, "aur"),
                flatpak: (sel.all || sel.flatpak) && !is_skipped(skip, "flatpak"),
                snap: (sel.all || sel.snap) && !is_skipped(skip, "snap"),
                journal: (sel.all || sel.journal) && !is_skipped(skip, "journal"),
                trash: (sel.all || sel.trash) && !is_skipped(skip, "trash"),
                coredumps: (sel.all || sel.coredumps) && !is_skipped(skip, "coredumps"),
                dev: sel.dev,
                trim: sel.trim,
            },
        )
    }

    pub open spec fn any_spec(&self) -> bool {
        self.cache || self.packages || self.orphans || self.aur || self.flatpak || self.snap
            || self.journal || self.trash || self.coredumps || self.dev || self.trim
    }

    /// True if at least one operation is selected.
    pub fn any(&self) -> (b: bool)
        ensures
            b == self.any_spec(),
    {
        self.cache || self.packages || self.orphans || self.aur || self.flatpak || self.snap
            || self.journal || self.trash || self.coredumps || self.dev || self.trim
    }

    pub open spec fn needs_sudo_spec(&self) -> bool {
        self.packages || self.orphans || self.aur || self.journal || self.flatpak || self.snap
            || self.trim || self.coredumps
    }

    /// True if a selected operation needs elevated privileges.
    pub fn needs_sudo(&self) -> (b: bool)
        ensures
            b == self.needs_sudo_spec(),
    {
        self.packages || self.orphans || self.aur || self.journal || self.flatpak || self.snap
            || self.trim || self.coredumps
    }
}

proof fn lemma_first_unknown_prefix(skip: Seq<Seq<char>>, n: int)
    requires
        0 < n <= skip.len(),
        first_unknown(skip.take(n - 1)) is None,
        !skippable().contains(trim(skip[n - 1])),
    ensures
        first_unknown(skip) == Some(trim(skip[n - 1])),
    decreases skip.len(),
{
    if n == skip.len() {
        assert(skip.drop_last() =~= skip.take(n - 1));
    } else {
        assert(skip.drop_last().take(n - 1) =~= skip.take(n - 1));
        lemma_first_unknown_prefix(skip.drop_last(), n);
    }
}

// ═══════════════════════════ JSON ═══════════════════════════

pub open spec fn hex_digit(d: nat) -> char {
    if d < 10 {
        ((d + 48) as u32) as char
    } else {
        ((d + 87) as u32) as char
    }
}

/// How one character is written inside a JSON string literal.
pub open spec fn json_escape(c: char) -> Seq<char> {
    if c == '"' {
        seq!['\\', '"']
    } else if c == '\\' {
        seq!['\\', '\\']
    } else if c == '\n' {
        seq!['\\', 'n']
    } else if c == '\r' {
        seq!['\\', 'r']
    } else if c == '\t' {
        seq!['\\', 't']
    } else if (c as u32) < 0x20 {
        seq!['\\', 'u', '0', '0', hex_digit(((c as u32) / 16) as nat), hex_digit(((c as u32) % 16) as nat)]
    } else {
        seq![c]
    }
}

pub open spec fn json_body(s: Seq<char>) -> Seq<char>
    decreases s.len(),
{
    if s.len() == 0 {
        seq![]
    } else {
        json_body(s.drop_last()) + json_escape(s.last())
    }
}

/// `s` as a JSON string literal, quotes included.
pub open spec fn json_text(s: Seq<char>) -> Seq<char> {
    seq!['"'] + json_body(s) + seq!['"']
}

fn push_all_chars(out: &mut String, cs: &[char])
    ensures
        final(out)@ == old(out)@ + cs@,
{
    let mut i: usize = 0;
    let ghost start = out@;
    while i < cs.len()
        invariant
            0 <= i <= cs.len(),
            out@ == start + cs@.take(i as int),
        decreases cs.len() - i,
    {
        push_char(out, cs[i]);
        assert(cs@.take(i + 1) =~= cs@.take(i as int).push(cs@[i as int]));
        i = i + 1;
    }
    assert(cs@.take(cs.len() as int) =~= cs@);
}

fn hex_exec(d: u32) -> (c: char)
    requires
        d < 16,
    ensures
        c == hex_digit(d as nat),
{
    let table = ['0', '1', '2', '3', '4', '5', '6', '7', '8', '9', 'a', 'b', 'c', 'd', 'e', 'f'];
    assert(table@ =~= Seq::new(16, |i: int| hex_digit(i as nat)));
    table[d as usize]
}

/// Escape a string as a JSON string literal, quotes included.
pub fn json_string(s: &str) -> (r: String)
    ensures
        r@ == json_text(s@),
{
    let mut out = String::new();
    push_char(&mut out, '"');
    let cs = chars_of(s);
    let mut i: usize = 0;
    while i < cs.len()
        invariant
            0 <= i <= cs.len(),
            cs@ == s@,
            out@ == seq!['"'] + json_body(cs@.take(i as int)),
        decreases cs.len() - i,
    {
        let c = cs[i];
        let ghost before = out@;
        if c == '"' {
            push_all_chars(&mut out, &['\\', '"']);
        } else if c == '\\' {
            push_all_chars(&mut out, &['\\', '\\']);
        } else if c == '\n' {
            push_all_chars(&mut out, &['\\', 'n']);
        } else if c == '\r' {
            push_all_chars(&mut out, &['\\', 'r']);
        } else if c == '\t' {
            push_all_chars(&mut out, &['\\', 't']);
        } else if (c as u32) < 0x20 {
            let v = c as u32;
            let hi = hex_exec(v / 16);
            let lo = hex_exec(v % 16);
            push_all_chars(&mut out, &['\\', 'u', '0', '0', hi, lo]);
        } else {
            push_char(&mut out, c);
        }
        assert(cs@.take(i + 1).drop_last() =~= cs@.take(i as int));
        assert(out@ =~= before + json_escape(c));
        i = i + 1;
    }
    assert(cs@.take(cs.len() as int) =~= cs@);
    push_char(&mut out, '"');
    out
}

pub open spec fn bool_text(b: bool) -> Seq<char> {
    if b {
        "true"@
    } else {
        "false"@
    }
}

/// The operations object's members: `"name":bytes`, comma-separated.
pub open spec fn ops_members(results: Seq<(Seq<char>, u64)>) -> Seq<char>
    decreases results.len(),
{
    if results.len() == 0 {
        seq![]
    } else {
        let m = json_text(results.last().0) + ":"@ + dec(results.last().1 as nat);
        if results.len() == 1 {
            m
        } else {
            ops_members(results.drop_last()) + ","@ + m
        }
    }
}

/// The single JSON object `--json` prints. `elapsed` is the run time in
/// seconds, already written with two decimals.
pub open spec fn report_text(
    version: Seq<char>,
    distro: Seq<char>,
    dry_run: bool,
    deep: bool,
    results: Seq<(Seq<char>, u64)>,
    total: u64,
    elapsed: Seq<char>,
) -> Seq<char> {
    "{\"version\":"@ + json_text(version) + ",\"distro\":"@ + json_text(distro) + ",\"dry_run\":"@
        + bool_text(dry_run) + ",\"deep\":"@ + bool_text(deep) + ",\"operations\":{"@
        + ops_members(results) + "},\"total_freed_bytes\":"@ + dec(total as nat)
        + ",\"elapsed_secs\":"@ + elapsed + "}"@
}

pub open spec fn result_views(v: Seq<(&str, u64)>) -> Seq<(Seq<char>, u64)> {
    v.map_values(|p: (&str, u64)| (p.0@, p.1))
}

/// The `--json` report: version, distro, modes, each operation's freed
/// bytes in run order, the total, and the elapsed time.
pub fn json_report(
    version: &str,
    distro: &str,
    dry_run: bool,
    deep: bool,
    results: &[(&str, u64)],
    total: u64,
    elapsed: &str,
) -> (r: String)
    ensures
        r@ == report_text(version@, distro@, dry_run, deep, result_views(results@), total, elapsed@),
{
    let mut out = String::from_str("{\"version\":");
    out = out.concat(json_string(version).as_str());
    out = out.concat(",\"distro\":");
    out = out.concat(json_string(distro).as_str());
    out = out.concat(",\"dry_run\":");
    out = out.concat(if dry_run {
        "true"
    } else {
        "false"
    });
    out = out.concat(",\"deep\":");
    out = out.concat(if deep {
        "true"
    } else {
        "false"
    });
    out = out.concat(",\"operations\":{");
    let ghost head = out@;
    let mut members = String::new();
    let mut i: usize = 0;
    while i < results.len()
        invariant
            0 <= i <= results.len(),
            members@ == ops_members(result_views(results@).take(i as int)),
        decreases results.len() - i,
    {
        let (name, bytes) = results[i];
        let m = json_string(name).concat(":").concat(dec_string(bytes).as_str());
        let ghost t = result_views(results@).take(i + 1);
        assert(t.drop_last() =~= result_views(results@).take(i as int));
        assert(t.last() == (name@, bytes));
        if i == 0 {
            members = m;
        } else {
            members = members.concat(",").concat(m.as_str());
        }
        i = i + 1;
    }
    assert(result_views(results@).take(results.len() as int) =~= result_views(results@));
    out = out.concat(members.as_str());
    out = out.concat("},\"total_freed_bytes\":");
    out = out.concat(dec_string(total).as_str());
    out = out.concat(",\"elapsed_secs\":");
    out = out.concat(elapsed);
    out = out.concat("}");
    out
}

/// The one-line JSON object that reports a failure.
pub fn json_error(msg: &str) -> (r: String)
    ensures
        r@ == "{\"error\":"@ + json_text(msg@) + "}"@,
{
    String::from_str("{\"error\":").concat(json_string(msg).as_str()).concat("}")
}

} // verus!
