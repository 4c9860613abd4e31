//! Reading the text that package tools and config files hand us.
use vstd::prelude::*;
use crate::text::{
    chars_of, contains, contains_text, cviews, drop_while_end, drop_while_end_exec, is_ascii_digit, is_text, lines, lines_exec, starts_with, starts_with_text,
    string_of, strip_prefix, strip_prefix_exec, trim, trim_char, trim_char_exec, trim_exec, words,
    words_exec, split_char, split_char_exec, dot_comma_pred, eq_pred, Pred, views,
};

verus! {

broadcast use vstd::string::group_string_axioms;

// ═══════════════════════════ pacman partial downloads ═══════════════════════════

pub open spec fn is_partial_download_spec(name: Seq<char>) -> bool {
    starts_with(name, "download-"@) && !contains(name, ".pkg.tar"@)
}

/// A pacman partial-download leftover: `download-` plus a random suffix, never
/// a real `.pkg.tar.*` package.
pub fn is_partial_download(name: &str) -> (b: bool)
    ensures
        b == is_partial_download_spec(name@),
{
    let n = chars_of(name);
    starts_with_text(n.as_slice(), "download-") && !contains_text(n.as_slice(), ".pkg.tar")
}

// ═══════════════════════════ make.conf ═══════════════════════════

/// The value one make.conf line assigns through `prefix` (`KEY=`): the line
/// is trimmed, comments are skipped, and the value is trimmed and stripped of
/// double and then single quotes. Empty values count as no assignment.
pub open spec fn make_conf_line(l: Seq<char>, prefix: Seq<char>) -> Option<Seq<char>> {
    let t = trim(l);
    if starts_with(t, "#"@) {
        None
    } else {
        match strip_prefix(t, prefix) {
            Some(rest) => {
                let v = trim_char(trim_char(trim(rest), '"'), '\'');
                if v.len() > 0 {
                    Some(v)
                } else {
                    None
                }
            },
            None => None,
        }
    }
}

/// The last assignment through `prefix` among `ls`.
pub open spec fn make_conf_value(ls: Seq<Seq<char>>, prefix: Seq<char>) -> Option<Seq<char>>
    decreases ls.len(),
{
    if ls.len() == 0 {
        None
    } else {
        match make_conf_line(ls.last(), prefix) {
            Some(v) => Some(v),
            None => make_conf_value(ls.drop_last(), prefix),
        }
    }
}

fn make_conf_line_exec(l: &[char], prefix: &[char]) -> (r: Option<Vec<char>>)
    ensures
        match make_conf_line(l@, prefix@) {
            Some(v) => r.is_some() && r.unwrap()@ == v,
            None => r.is_none(),
        },
{
    let t = trim_exec(l);
    if starts_with_text(t, "#") {
        return None;
    }
    match strip_prefix_exec(t, prefix) {
        Some(rest) => {
            let v = trim_char_exec(trim_char_exec(trim_exec(rest), '"'), '\'');
            if v.len() > 0 {
                Some(vstd::slice::slice_to_vec(v))
            } else {
                None
            }
        },
        None => None,
    }
}

/// Read a `KEY=value` assignment out of make.conf content. Later assignments
/// win; comments and empty values are ignored.
pub fn parse_make_conf_var(make_conf: &str, key: &str) -> (r: Option<String>)
    ensures
        match make_conf_value(lines(make_conf@), key@ + "="@) {
            Some(v) => r.is_some() && r.unwrap()@ == v,
            None => r.is_none(),
        },
{
    let mut prefix = chars_of(key);
    prefix.push('=');
    proof {
        reveal_strlit("=");
        assert(prefix@ =~= key@ + "="@);
    }
    let cs = chars_of(make_conf);
    let ls = lines_exec(cs.as_slice());
    let mut found: Option<Vec<char>> = None;
    let mut i: usize = 0;
    while i < ls.len()
        invariant
            0 <= i <= ls.len(),
            prefix@ == key@ + "="@,
            cviews(ls@) == lines(make_conf@),
            match make_conf_value(cviews(ls@).take(i as int), prefix@) {
                Some(v) => found.is_some() && found.unwrap()@ == v,
                None => found.is_none(),
            },
        decreases ls.len() - i,
    {
        assert(cviews(ls@).take(i + 1).drop_last() =~= cviews(ls@).take(i as int));
        assert(cviews(ls@).take(i + 1).last() == ls@[i as int]@);
        match make_conf_line_exec(ls[i].as_slice(), prefix.as_slice()) {
            Some(v) => {
                found = Some(v);
            },
            None => {},
        }
        i = i + 1;
    }
    assert(cviews(ls@).take(ls.len() as int) =~= cviews(ls@));
    match found {
        Some(v) => Some(string_of(v.as_slice())),
        None => None,
    }
}

/// `PORTAGE_TMPDIR` from make.conf content; the caller falls back to
/// `/var/tmp` and appends `portage`.
pub fn parse_portage_tmpdir(make_conf: &str) -> (r: Option<String>)
    ensures
        match make_conf_value(lines(make_conf@), "PORTAGE_TMPDIR="@) {
            Some(v) => r.is_some() && r.unwrap()@ == v,
            None => r.is_none(),
        },
{
    proof {
        reveal_strlit("PORTAGE_TMPDIR");
        reveal_strlit("=");
        reveal_strlit("PORTAGE_TMPDIR=");
        assert("PORTAGE_TMPDIR"@ + "="@ =~= "PORTAGE_TMPDIR="@);
    }
    parse_make_conf_var(make_conf, "PORTAGE_TMPDIR")
}

// ═══════════════════════════ size figures ═══════════════════════════

/// Binary exponent of a size unit as journalctl and Nix print them.
pub open spec fn unit_shift_spec(unit: Seq<char>) -> Option<u32> {
    if unit == ""@ || unit == "B"@ {
        Some(0)
    } else if unit == "K"@ || unit == "KB"@ || unit == "KiB"@ {
        Some(10)
    } else if unit == "M"@ || unit == "MB"@ || unit == "MiB"@ {
        Some(20)
    } else if unit == "G"@ || unit == "GB"@ || unit == "GiB"@ {
        Some(30)
    } else if unit == "T"@ || unit == "TB"@ || unit == "TiB"@ {
        Some(40)
    } else {
        None
    }
}

/// The power of two a size unit stands for; `None` for an unknown unit.
pub fn unit_shift(unit: &str) -> (r: Option<u32>)
    ensures
        r == unit_shift_spec(unit@),
{
    let u = chars_of(unit);
    let s = u.as_slice();
    if is_text(s, "") || is_text(s, "B") {
        Some(0)
    } else if is_text(s, "K") || is_text(s, "KB") || is_text(s, "KiB") {
        Some(10)
    } else if is_text(s, "M") || is_text(s, "MB") || is_text(s, "MiB") {
        Some(20)
    } else if is_text(s, "G") || is_text(s, "GB") || is_text(s, "GiB") {
        Some(30)
    } else if is_text(s, "T") || is_text(s, "TB") || is_text(s, "TiB") {
        Some(40)
    } else {
        None
    }
}

/// The number and unit in Nix's report line (`… 2.3 MiB freed`): the last
/// line whose last word is `freed`, read backwards so the leading store-path
/// count is never taken. `None` when that line has fewer than three words.
pub open spec fn nix_freed_spec(ls: Seq<Seq<char>>) -> Option<(Seq<char>, Seq<char>)>
    decreases ls.len(),
{
    if ls.len() == 0 {
        None
    } else {
        let t = words(ls.last());
        if t.len() > 0 && t.last() == "freed"@ {
            if t.len() < 3 {
                None
            } else {
                Some((drop_while_end(t[t.len() - 3], eq_pred(',')), t[t.len() - 2]))
            }
        } else {
            nix_freed_spec(ls.drop_last())
        }
    }
}

/// Number and unit of the total `nix-collect-garbage` reports it freed.
pub fn nix_freed_fields(text: &str) -> (r: Option<(String, String)>)
    ensures
        match nix_freed_spec(lines(text@)) {
            Some((n, u)) => r.is_some() && r.unwrap().0@ == n && r.unwrap().1@ == u,
            None => r.is_none(),
        },
{
    let cs = chars_of(text);
    let ls = lines_exec(cs.as_slice());
    let mut i: usize = ls.len();
    assert(cviews(ls@).take(i as int) =~= cviews(ls@));
    while i > 0
        invariant
            0 <= i <= ls.len(),
            cviews(ls@) == lines(text@),
            nix_freed_spec(lines(text@)) == nix_freed_spec(cviews(ls@).take(i as int)),
        decreases i,
    {
        let ghost pre = cviews(ls@).take(i as int);
        assert(pre.last() == ls@[i - 1]@);
        assert(pre.drop_last() =~= cviews(ls@).take(i - 1));
        let t = words_exec(ls[i - 1].as_slice());
        if t.len() > 0 && is_text(t[t.len() - 1].as_slice(), "freed") {
            assert(cviews(t@).last() == t@[t.len() - 1]@);
            if t.len() < 3 {
                return None;
            }
            assert(cviews(t@)[t.len() - 3] == t@[t.len() - 3]@);
            assert(cviews(t@)[t.len() - 2] == t@[t.len() - 2]@);
            let num = drop_while_end_exec(t[t.len() - 3].as_slice(), &Pred::Ch(','));
            return Some((string_of(num), string_of(t[t.len() - 2].as_slice())));
        }
        proof {
            if t.len() > 0 {
                assert(cviews(t@).last() == t@[t.len() - 1]@);
            }
        }
        i = i - 1;
    }
    None
}

/// Length of the leading run of digits and dots.
pub open spec fn num_prefix_len(t: Seq<char>) -> nat
    decreases t.len(),
{
    if t.len() == 0 || !(is_ascii_digit(t[0]) || t[0] == '.') {
        0
    } else {
        1 + num_prefix_len(t.drop_first())
    }
}

/// One word of `journalctl --disk-usage` split into a numeric part and the
/// rest, after dropping trailing `.` and `,`.
pub open spec fn num_unit(w: Seq<char>) -> (Seq<char>, Seq<char>) {
    let t = drop_while_end(w, dot_comma_pred());
    let i = num_prefix_len(t);
    (t.take(i as int), t.skip(i as int))
}

/// Every word of the text as a (number, unit) candidate, in order.
pub open spec fn usage_candidates(text: Seq<char>) -> Seq<(Seq<char>, Seq<char>)> {
    words(text).map_values(|w: Seq<char>| num_unit(w))
}

proof fn lemma_num_prefix(t: Seq<char>, k: int)
    requires
        0 <= k <= t.len(),
        forall|m: int| 0 <= m < k ==> (is_ascii_digit(#[trigger] t[m]) || t[m] == '.'),
        k == t.len() || !(is_ascii_digit(t[k]) || t[k] == '.'),
    ensures
        num_prefix_len(t) == k,
    decreases k,
{
    if k > 0 {
        assert forall|m: int| 0 <= m < k - 1 implies (is_ascii_digit(
            #[trigger] t.drop_first()[m],
        ) || t.drop_first()[m] == '.') by {
            assert(t.drop_first()[m] == t[m + 1]);
        }
        lemma_num_prefix(t.drop_first(), k - 1);
    }
}

fn num_unit_exec(w: &[char]) -> (r: (String, String))
    ensures
        r.0@ == num_unit(w@).0,
        r.1@ == num_unit(w@).1,
{
    let t = drop_while_end_exec(w, &Pred::DotComma);
    let mut k: usize = 0;
    while k < t.len() && (('0' <= t[k] && t[k] <= '9') || t[k] == '.')
        invariant
            0 <= k <= t.len(),
            forall|m: int| 0 <= m < k ==> (is_ascii_digit(#[trigger] t@[m]) || t@[m] == '.'),
        decreases t.len() - k,
    {
        k = k + 1;
    }
    proof {
        lemma_num_prefix(t@, k as int);
    }
    let a = &t[0..k];
    let b = &t[k..t.len()];
    assert(a@ =~= t@.take(k as int));
    assert(b@ =~= t@.skip(k as int));
    (string_of(a), string_of(b))
}

/// The (number, unit) candidates of a `journalctl --disk-usage` report,
/// word by word. The first one that converts is the usage; translated
/// wording therefore still yields the figure.
pub fn usage_fields(text: &str) -> (r: Vec<(String, String)>)
    ensures
        r@.len() == usage_candidates(text@).len(),
        forall|i: int|
            0 <= i < r@.len() ==> #[trigger] r@[i].0@ == usage_candidates(text@)[i].0
                && r@[i].1@ == usage_candidates(text@)[i].1,
{
    let cs = chars_of(text);
    let ws = words_exec(cs.as_slice());
    let mut r: Vec<(String, String)> = Vec::new();
    let mut i: usize = 0;
    while i < ws.len()
        invariant
            0 <= i <= ws.len(),
            cviews(ws@) == words(text@),
            r@.len() == i,
            forall|k: int|
                0 <= k < i ==> #[trigger] r@[k].0@ == usage_candidates(text@)[k].0
                    && r@[k].1@ == usage_candidates(text@)[k].1,
        decreases ws.len() - i,
    {
        assert(cviews(ws@)[i as int] == ws@[i as int]@);
        let nu = num_unit_exec(ws[i].as_slice());
        r.push(nu);
        i = i + 1;
    }
    r
}

// ═══════════════════════════ package tool listings ═══════════════════════════

/// The package name a `zypper packages --orphaned` table row names: rows hold
/// `|`, are neither the header nor the rule, and have at least three columns;
/// the third column, trimmed, is the name when non-empty.
pub open spec fn zypper_row(l: Seq<char>) -> Seq<Seq<char>> {
    if contains(l, "|"@) && !contains(l, "---"@) && !contains(l, "Name"@) {
        let cols = split_char(l, '|');
        if cols.len() >= 3 && trim(cols[2]).len() > 0 {
            seq![trim(cols[2])]
        } else {
            seq![]
        }
    } else {
        seq![]
    }
}

pub open spec fn zypper_names(ls: Seq<Seq<char>>) -> Seq<Seq<char>>
    decreases ls.len(),
{
    if ls.len() == 0 {
        seq![]
    } else {
        zypper_names(ls.drop_last()) + zypper_row(ls.last())
    }
}

/// Orphaned package names from `zypper packages --orphaned` output.
pub fn zypper_orphans(out: &str) -> (r: Vec<String>)
    ensures
        views(r@) == zypper_names(lines(out@)),
{
    let cs = chars_of(out);
    let ls = lines_exec(cs.as_slice());
    let mut r: Vec<String> = Vec::new();
    let mut i: usize = 0;
    while i < ls.len()
        invariant
            0 <= i <= ls.len(),
            cviews(ls@) == lines(out@),
            views(r@) == zypper_names(cviews(ls@).take(i as int)),
        decreases ls.len() - i,
    {
        assert(cviews(ls@).take(i + 1).drop_last() =~= cviews(ls@).take(i as int));
        assert(cviews(ls@).take(i + 1).last() == ls@[i as int]@);
        let l = ls[i].as_slice();
        let ghost before = r@;
        if contains_text(l, "|") && !contains_text(l, "---") && !contains_text(l, "Name") {
            let cols = split_char_exec(l, '|');
            if cols.len() >= 3 {
                assert(cviews(cols@)[2] == cols@[2]@);
                let name = trim_exec(cols[2].as_slice());
                if name.len() > 0 {
                    r.push(string_of(name));
                }
            }
        }
        assert(views(r@) =~= views(before) + zypper_row(ls@[i as int]@));
        i = i + 1;
    }
    assert(cviews(ls@).take(ls.len() as int) =~= cviews(ls@));
    r
}

/// A `snap list --all` row describing a disabled revision: (name, revision).
pub open spec fn snap_row(l: Seq<char>) -> Seq<(Seq<char>, Seq<char>)> {
    if contains(l, "disabled"@) && words(l).len() >= 3 {
        seq![(words(l)[0], words(l)[2])]
    } else {
        seq![]
    }
}

pub open spec fn snap_disabled_spec(ls: Seq<Seq<char>>) -> Seq<(Seq<char>, Seq<char>)>
    decreases ls.len(),
{
    if ls.len() == 0 {
        seq![]
    } else {
        snap_disabled_spec(ls.drop_last()) + snap_row(ls.last())
    }
}

pub open spec fn pair_views(v: Seq<(String, String)>) -> Seq<(Seq<char>, Seq<char>)> {
    v.map_values(|p: (String, String)| (p.0@, p.1@))
}

/// Disabled revisions listed by `snap list --all`, as (name, revision).
pub fn snap_disabled(out: &str) -> (r: Vec<(String, String)>)
    ensures
        pair_views(r@) == snap_disabled_spec(lines(out@)),
{
    let cs = chars_of(out);
    let ls = lines_exec(cs.as_slice());
    let mut r: Vec<(String, String)> = Vec::new();
    let mut i: usize = 0;
    while i < ls.len()
        invariant
            0 <= i <= ls.len(),
            cviews(ls@) == lines(out@),
            pair_views(r@) == snap_disabled_spec(cviews(ls@).take(i as int)),
        decreases ls.len() - i,
    {
        assert(cviews(ls@).take(i + 1).drop_last() =~= cviews(ls@).take(i as int));
        assert(cviews(ls@).take(i + 1).last() == ls@[i as int]@);
        let l = ls[i].as_slice();
        let ghost before = r@;
        if contains_text(l, "disabled") {
            let parts = words_exec(l);
            if parts.len() >= 3 {
                assert(cviews(parts@)[0] == parts@[0]@);
                assert(cviews(parts@)[2] == parts@[2]@);
                r.push((string_of(parts[0].as_slice()), string_of(parts[2].as_slice())));
            }
        }
        assert(pair_views(r@) =~= pair_views(before) + snap_row(ls@[i as int]@));
        i = i + 1;
    }
    assert(cviews(ls@).take(ls.len() as int) =~= cviews(ls@));
    r
}

/// Lines that hold something besides whitespace.
pub open spec fn nonblank_count(ls: Seq<Seq<char>>) -> nat
    decreases ls.len(),
{
    if ls.len() == 0 {
        0
    } else {
        nonblank_count(ls.drop_last()) + if trim(ls.last()).len() > 0 {
            1nat
        } else {
            0nat
        }
    }
}

/// `n`, or `u64::MAX` when it does not fit.
pub open spec fn cap_u64(n: nat) -> u64 {
    if n >= u64::MAX {
        u64::MAX
    } else {
        n as u64
    }
}

/// Number of installed Flatpak refs in `flatpak list --columns=ref` output:
/// one ref per non-blank line.
pub fn ref_count(out: &str) -> (n: u64)
    ensures
        n == cap_u64(nonblank_count(lines(out@))),
{
    let cs = chars_of(out);
    let ls = lines_exec(cs.as_slice());
    let mut n: u64 = 0;
    let mut i: usize = 0;
    while i < ls.len()
        invariant
            0 <= i <= ls.len(),
            cviews(ls@) == lines(out@),
            n == nonblank_count(cviews(ls@).take(i as int)),
            n <= i,
        decreases ls.len() - i,
    {
        assert(cviews(ls@).take(i + 1).drop_last() =~= cviews(ls@).take(i as int));
        assert(cviews(ls@).take(i + 1).last() == ls@[i as int]@);
        if trim_exec(ls[i].as_slice()).len() > 0 {
            if n == u64::MAX {
                return u64::MAX;
            }
            n = n + 1;
        }
        i = i + 1;
    }
    assert(cviews(ls@).take(ls.len() as int) =~= cviews(ls@));
    n
}

} // verus!
