//! Character-level text model shared by every parser in the crate.
//!
//! Strings are reasoned about through their `Seq<char>` view. The executable
//! helpers work on `&[char]` (one decode up front) and convert back to
//! `String` at the edges.
use vstd::prelude::*;

verus! {

broadcast use vstd::string::group_string_axioms;

// ───────────────────────── spec model ─────────────────────────

/// Unicode `White_Space`, the set `char::is_whitespace` tests.
pub open spec fn is_ws(c: char) -> bool {
    ||| ('\u{9}' <= c && c <= '\u{d}')
    ||| c == ' '
    ||| c == '\u{85}'
    ||| c == '\u{a0}'
    ||| c == '\u{1680}'
    ||| ('\u{2000}' <= c && c <= '\u{200a}')
    ||| c == '\u{2028}'
    ||| c == '\u{2029}'
    ||| c == '\u{202f}'
    ||| c == '\u{205f}'
    ||| c == '\u{3000}'
}

pub open spec fn is_ascii_digit(c: char) -> bool {
    '0' <= c && c <= '9'
}

/// `s` with every leading character satisfying `p` removed.
pub open spec fn drop_while(s: Seq<char>, p: spec_fn(char) -> bool) -> Seq<char>
    decreases s.len(),
{
    if s.len() > 0 && p(s[0]) {
        drop_while(s.drop_first(), p)
    } else {
        s
    }
}

/// `s` with every trailing character satisfying `p` removed.
pub open spec fn drop_while_end(s: Seq<char>, p: spec_fn(char) -> bool) -> Seq<char>
    decreases s.len(),
{
    if s.len() > 0 && p(s.last()) {
        drop_while_end(s.drop_last(), p)
    } else {
        s
    }
}

/// The whitespace predicate as a value.
pub open spec fn ws_pred() -> spec_fn(char) -> bool {
    |c: char| is_ws(c)
}

/// The "equals `c`" predicate as a value.
pub open spec fn eq_pred(c: char) -> spec_fn(char) -> bool {
    |x: char| x == c
}

/// The "either quote mark" predicate as a value.
pub open spec fn quote_pred() -> spec_fn(char) -> bool {
    |x: char| x == '"' || x == '\''
}

/// The "`.` or `,`" predicate as a value.
pub open spec fn dot_comma_pred() -> spec_fn(char) -> bool {
    |x: char| x == '.' || x == ','
}

/// The ASCII-digit predicate as a value.
pub open spec fn digit_pred() -> spec_fn(char) -> bool {
    |x: char| is_ascii_digit(x)
}

/// `str::trim`.
pub open spec fn trim(s: Seq<char>) -> Seq<char> {
    drop_while_end(drop_while(s, ws_pred()), ws_pred())
}

/// `str::trim_end`.
pub open spec fn trim_end(s: Seq<char>) -> Seq<char> {
    drop_while_end(s, ws_pred())
}

/// `str::trim_matches(c)` for a single character.
pub open spec fn trim_char(s: Seq<char>, c: char) -> Seq<char> {
    drop_while_end(drop_while(s, eq_pred(c)), eq_pred(c))
}

pub open spec fn starts_with(s: Seq<char>, p: Seq<char>) -> bool {
    p.len() <= s.len() && s.take(p.len() as int) == p
}

/// `str::strip_prefix`.
pub open spec fn strip_prefix(s: Seq<char>, p: Seq<char>) -> Option<Seq<char>> {
    if starts_with(s, p) {
        Some(s.skip(p.len() as int))
    } else {
        None
    }
}

/// `p` occurs in `s` starting at index `i`.
pub open spec fn occurs_at(s: Seq<char>, p: Seq<char>, i: int) -> bool {
    0 <= i && i + p.len() <= s.len() && s.subrange(i, i + p.len()) == p
}

/// `str::contains` with a string pattern.
pub open spec fn contains(s: Seq<char>, p: Seq<char>) -> bool {
    exists|i: int| #[trigger] occurs_at(s, p, i)
}

/// Index of the first occurrence of `c` in `s`, if any.
pub open spec fn find_char(s: Seq<char>, c: char) -> Option<int>
    decreases s.len(),
{
    if s.len() == 0 {
        None
    } else if s[0] == c {
        Some(0)
    } else {
        match find_char(s.drop_first(), c) {
            Some(i) => Some(i + 1),
            None => None,
        }
    }
}

/// One line as `str::lines` yields it: a trailing `'\r'` is dropped.
pub open spec fn strip_cr(l: Seq<char>) -> Seq<char> {
    if l.len() > 0 && l.last() == '\r' {
        l.drop_last()
    } else {
        l
    }
}

/// `str::lines`: split at `'\n'`, drop a `'\r'` before it, and yield no
/// empty line after a final newline.
pub open spec fn lines(s: Seq<char>) -> Seq<Seq<char>>
    decreases s.len(),
{
    if s.len() == 0 {
        seq![]
    } else {
        match find_char(s, '\n') {
            Some(i) => if 0 <= i < s.len() {
                seq![strip_cr(s.take(i))] + lines(s.skip(i + 1))
            } else {
                seq![]
            },
            None => seq![s],
        }
    }
}

/// `str::split_whitespace`: the maximal runs of non-whitespace characters.
pub open spec fn words(s: Seq<char>) -> Seq<Seq<char>>
    decreases s.len(),
{
    let t = drop_while(s, ws_pred());
    if t.len() == 0 {
        seq![]
    } else {
        let w = take_until_ws(t);
        proof {
            lemma_drop_while_len(s, ws_pred());
            lemma_take_until_ws(t);
        }
        if w.len() == 0 {
            seq![]
        } else {
            seq![w] + words(t.skip(w.len() as int))
        }
    }
}

pub proof fn lemma_drop_while_len(s: Seq<char>, p: spec_fn(char) -> bool)
    ensures
        drop_while(s, p).len() <= s.len(),
        drop_while(s, p) == s.skip(s.len() - drop_while(s, p).len()),
        drop_while(s, p).len() > 0 ==> !p(drop_while(s, p)[0]),
    decreases s.len(),
{
    if s.len() > 0 && p(s[0]) {
        lemma_drop_while_len(s.drop_first(), p);
        assert(s.drop_first().skip(s.drop_first().len() - drop_while(s, p).len()) =~= s.skip(
            s.len() - drop_while(s, p).len(),
        ));
    } else {
        assert(s.skip(0) =~= s);
    }
}

/// The longest prefix of `s` holding no whitespace.
pub open spec fn take_until_ws(s: Seq<char>) -> Seq<char>
    decreases s.len(),
{
    if s.len() == 0 || is_ws(s[0]) {
        seq![]
    } else {
        seq![s[0]] + take_until_ws(s.drop_first())
    }
}

pub proof fn lemma_take_until_ws(s: Seq<char>)
    ensures
        take_until_ws(s).len() <= s.len(),
        take_until_ws(s) == s.take(take_until_ws(s).len() as int),
        forall|i: int| 0 <= i < take_until_ws(s).len() ==> !is_ws(#[trigger] s[i]),
        take_until_ws(s).len() < s.len() ==> is_ws(s[take_until_ws(s).len() as int]),
    decreases s.len(),
{
    if s.len() > 0 && !is_ws(s[0]) {
        lemma_take_until_ws(s.drop_first());
        assert(take_until_ws(s) =~= s.take(take_until_ws(s).len() as int));
        assert forall|i: int| 0 <= i < take_until_ws(s).len() implies !is_ws(#[trigger] s[i]) by {
            if i > 0 {
                assert(s[i] == s.drop_first()[i - 1]);
            }
        }
    }
}

/// `str::split(c)` for a single character: always one more piece than
/// there are separators.
pub open spec fn split_char(s: Seq<char>, c: char) -> Seq<Seq<char>>
    decreases s.len(),
{
    match find_char(s, c) {
        Some(i) => if 0 <= i < s.len() {
            seq![s.take(i)] + split_char(s.skip(i + 1), c)
        } else {
            seq![s]
        },
        None => seq![s],
    }
}

/// ASCII lower-casing of one character.
pub open spec fn ascii_lower(c: char) -> char {
    if 'A' <= c && c <= 'Z' {
        ((c as u32) + 32) as char
    } else {
        c
    }
}

pub open spec fn all_ascii(s: Seq<char>) -> bool {
    forall|i: int| 0 <= i < s.len() ==> (s[i] as u32) < 128
}

pub open spec fn lower_ascii_seq(s: Seq<char>) -> Seq<char> {
    s.map_values(|c: char| ascii_lower(c))
}

/// Views of a sequence of strings.
pub open spec fn views(v: Seq<String>) -> Seq<Seq<char>> {
    v.map_values(|s: String| s@)
}

/// Views of a sequence of string slices.
pub open spec fn str_views(v: Seq<&str>) -> Seq<Seq<char>> {
    v.map_values(|s: &str| s@)
}

// ───────────────────────── trusted edges ─────────────────────────

/// What `str::to_lowercase` returns: Unicode lower-casing of the whole text.
pub uninterp spec fn unicode_lowercase(s: Seq<char>) -> Seq<char>;

/// Calls `str::to_lowercase`. Trusted: the result is the Unicode lower-case
/// form of `s`, a function of `s` alone; on ASCII text that form maps
/// `A`–`Z` to `a`–`z` and keeps every other character, as the Unicode case
/// tables define for the ASCII range. Non-ASCII mappings are left unnamed.
#[verifier::external_body]
pub(crate) fn to_lowercase(s: &str) -> (r: String)
    ensures
        r@ == unicode_lowercase(s@),
        all_ascii(s@) ==> r@ == lower_ascii_seq(s@),
{
    s.to_lowercase()
}

/// Calls `String::push`. Trusted: appends `c` to the end of `s`.
#[verifier::external_body]
pub(crate) fn push_char(s: &mut String, c: char)
    ensures
        final(s)@ == old(s)@.push(c),
{
    s.push(c)
}

// ───────────────────────── executable helpers ─────────────────────────

/// Decode a string slice into its characters.
pub fn chars_of(s: &str) -> (v: Vec<char>)
    ensures
        v@ == s@,
{
    let mut v: Vec<char> = Vec::new();
    for c in it: s.chars()
        invariant
            it.seq() == s@,
            v@ == it.seq().take(it.index() as int),
    {
        v.push(c);
    }
    assert(v@ =~= s@);
    v
}

/// Build a `String` from characters.
pub fn string_of(v: &[char]) -> (s: String)
    ensures
        s@ == v@,
{
    let mut s = String::new();
    let mut i: usize = 0;
    while i < v.len()
        invariant
            0 <= i <= v.len(),
            s@ == v@.take(i as int),
        decreases v.len() - i,
    {
        push_char(&mut s, v[i]);
        assert(v@.take(i as int).push(v@[i as int]) =~= v@.take(i + 1));
        i = i + 1;
    }
    assert(v@.take(v.len() as int) =~= v@);
    s
}


/// Views of a sequence of character vectors.
pub open spec fn cviews(v: Seq<Vec<char>>) -> Seq<Seq<char>> {
    v.map_values(|x: Vec<char>| x@)
}

pub proof fn lemma_drop_while_step(s: Seq<char>, p: spec_fn(char) -> bool, i: int)
    requires
        0 <= i < s.len(),
        p(s[i]),
    ensures
        drop_while(s.skip(i), p) == drop_while(s.skip(i + 1), p),
{
    assert(s.skip(i).drop_first() =~= s.skip(i + 1));
}

pub proof fn lemma_drop_while_stop(s: Seq<char>, p: spec_fn(char) -> bool, i: int)
    requires
        0 <= i <= s.len(),
        i == s.len() || !p(s[i]),
    ensures
        drop_while(s.skip(i), p) == s.skip(i),
{
}

pub proof fn lemma_drop_while_end_step(s: Seq<char>, p: spec_fn(char) -> bool, j: int)
    requires
        0 < j <= s.len(),
        p(s[j - 1]),
    ensures
        drop_while_end(s.take(j), p) == drop_while_end(s.take(j - 1), p),
{
    assert(s.take(j).drop_last() =~= s.take(j - 1));
}

pub fn is_ws_exec(c: char) -> (b: bool)
    ensures
        b == is_ws(c),
{
    ('\u{9}' <= c && c <= '\u{d}') || c == ' ' || c == '\u{85}' || c == '\u{a0}' || c
        == '\u{1680}' || ('\u{2000}' <= c && c <= '\u{200a}') || c == '\u{2028}' || c
        == '\u{2029}' || c == '\u{202f}' || c == '\u{205f}' || c == '\u{3000}'
}

/// Which predicate a trimming loop applies.
pub enum Pred {
    Ws,
    Ch(char),
    Digit,
    Quote,
    DotComma,
}

pub open spec fn pred_of(p: Pred) -> spec_fn(char) -> bool {
    match p {
        Pred::Ws => ws_pred(),
        Pred::Ch(c) => eq_pred(c),
        Pred::Digit => digit_pred(),
        Pred::Quote => quote_pred(),
        Pred::DotComma => dot_comma_pred(),
    }
}

fn test_pred(p: &Pred, c: char) -> (b: bool)
    ensures
        b == (pred_of(*p))(c),
{
    match p {
        Pred::Ws => is_ws_exec(c),
        Pred::Ch(x) => c == *x,
        Pred::Digit => '0' <= c && c <= '9',
        Pred::Quote => c == '"' || c == '\'',
        Pred::DotComma => c == '.' || c == ',',
    }
}

/// Drop the leading characters that satisfy `p`.
pub fn drop_while_exec<'a>(s: &'a [char], p: &Pred) -> (r: &'a [char])
    ensures
        r@ == drop_while(s@, pred_of(*p)),
{
    let mut i: usize = 0;
    assert(s@.skip(0) =~= s@);
    while i < s.len() && test_pred(p, s[i])
        invariant
            0 <= i <= s.len(),
            drop_while(s@, pred_of(*p)) == drop_while(s@.skip(i as int), pred_of(*p)),
        decreases s.len() - i,
    {
        proof {
            lemma_drop_while_step(s@, pred_of(*p), i as int);
        }
        i = i + 1;
    }
    proof {
        lemma_drop_while_stop(s@, pred_of(*p), i as int);
        assert(s@.skip(0) =~= s@);
    }
    let r = &s[i..s.len()];
    assert(r@ =~= s@.skip(i as int));
    r
}

/// Drop the trailing characters that satisfy `p`.
pub fn drop_while_end_exec<'a>(s: &'a [char], p: &Pred) -> (r: &'a [char])
    ensures
        r@ == drop_while_end(s@, pred_of(*p)),
{
    let mut j: usize = s.len();
    assert(s@.take(j as int) =~= s@);
    while j > 0 && test_pred(p, s[j - 1])
        invariant
            0 <= j <= s.len(),
            drop_while_end(s@, pred_of(*p)) == drop_while_end(s@.take(j as int), pred_of(*p)),
        decreases j,
    {
        proof {
            lemma_drop_while_end_step(s@, pred_of(*p), j as int);
        }
        j = j - 1;
    }
    let r = &s[0..j];
    assert(r@ =~= s@.take(j as int));
    r
}

pub fn trim_exec<'a>(s: &'a [char]) -> (r: &'a [char])
    ensures
        r@ == trim(s@),
{
    drop_while_end_exec(drop_while_exec(s, &Pred::Ws), &Pred::Ws)
}

pub fn trim_char_exec<'a>(s: &'a [char], c: char) -> (r: &'a [char])
    ensures
        r@ == trim_char(s@, c),
{
    drop_while_end_exec(drop_while_exec(s, &Pred::Ch(c)), &Pred::Ch(c))
}

/// `p` is a prefix of `s`.
pub fn starts_with_exec(s: &[char], p: &[char]) -> (b: bool)
    ensures
        b == starts_with(s@, p@),
{
    if p.len() > s.len() {
        return false;
    }
    let mut i: usize = 0;
    while i < p.len()
        invariant
            p.len() <= s.len(),
            0 <= i <= p.len(),
            forall|k: int| 0 <= k < i ==> s@[k] == p@[k],
        decreases p.len() - i,
    {
        if s[i] != p[i] {
            assert(s@.take(p.len() as int)[i as int] != p@[i as int]);
            return false;
        }
        i = i + 1;
    }
    assert(s@.take(p.len() as int) =~= p@);
    true
}

/// `p` occurs in `s` at index `i`.
pub fn occurs_at_exec(s: &[char], p: &[char], i: usize) -> (b: bool)
    ensures
        b == occurs_at(s@, p@, i as int),
{
    if i > s.len() || p.len() > s.len() - i {
        return false;
    }
    let mut k: usize = 0;
    while k < p.len()
        invariant
            i + p.len() <= s.len(),
            0 <= k <= p.len(),
            forall|m: int| 0 <= m < k ==> s@[i + m] == p@[m],
        decreases p.len() - k,
    {
        if s[i + k] != p[k] {
            assert(s@.subrange(i as int, i + p.len())[k as int] != p@[k as int]);
            return false;
        }
        k = k + 1;
    }
    assert(s@.subrange(i as int, i + p.len()) =~= p@);
    true
}

/// `str::contains` with a string pattern.
pub fn contains_exec(s: &[char], p: &[char]) -> (b: bool)
    ensures
        b == contains(s@, p@),
{
    if p.len() > s.len() {
        assert forall|k: int| !occurs_at(s@, p@, k) by {}
        return false;
    }
    let last = s.len() - p.len();
    let mut i: usize = 0;
    loop
        invariant
            last == s.len() - p.len(),
            0 <= i <= last,
            forall|k: int| 0 <= k < i ==> !occurs_at(s@, p@, k),
        ensures
            forall|k: int| 0 <= k <= last ==> !occurs_at(s@, p@, k),
        decreases last - i,
    {
        if occurs_at_exec(s, p, i) {
            return true;
        }
        if i == last {
            break;
        }
        i = i + 1;
    }
    assert forall|k: int| !occurs_at(s@, p@, k) by {
        if 0 <= k <= last {
        }
    }
    false
}

pub proof fn lemma_find_char(s: Seq<char>, c: char, j: int)
    requires
        0 <= j <= s.len(),
        forall|k: int| 0 <= k < j ==> s[k] != c,
        j == s.len() || s[j] == c,
    ensures
        find_char(s, c) == (if j < s.len() { Some(j) } else { None::<int> }),
    decreases j,
{
    if j > 0 {
        lemma_find_char(s.drop_first(), c, j - 1);
    }
}

/// Index of the first `c` in `s`.
pub fn find_char_exec(s: &[char], c: char) -> (r: Option<usize>)
    ensures
        match find_char(s@, c) {
            Some(i) => r == Some(i as usize) && 0 <= i < s@.len(),
            None => r.is_none(),
        },
{
    let mut i: usize = 0;
    while i < s.len()
        invariant
            0 <= i <= s.len(),
            forall|k: int| 0 <= k < i ==> s@[k] != c,
        decreases s.len() - i,
    {
        if s[i] == c {
            proof {
                lemma_find_char(s@, c, i as int);
            }
            return Some(i);
        }
        i = i + 1;
    }
    proof {
        lemma_find_char(s@, c, i as int);
    }
    None
}

pub fn strip_cr_exec<'a>(l: &'a [char]) -> (r: &'a [char])
    ensures
        r@ == strip_cr(l@),
{
    if l.len() > 0 && l[l.len() - 1] == '\r' {
        let r = &l[0..l.len() - 1];
        assert(r@ =~= l@.drop_last());
        r
    } else {
        l
    }
}

/// `str::lines`.
pub fn lines_exec(s: &[char]) -> (out: Vec<Vec<char>>)
    ensures
        cviews(out@) == lines(s@),
{
    let mut out: Vec<Vec<char>> = Vec::new();
    let mut p: usize = 0;
    assert(s@.skip(0) =~= s@);
    while p < s.len()
        invariant
            0 <= p <= s.len(),
            lines(s@) == cviews(out@) + lines(s@.skip(p as int)),
        decreases s.len() - p,
    {
        let rest = &s[p..s.len()];
        assert(rest@ =~= s@.skip(p as int));
        match find_char_exec(rest, '\n') {
            Some(i) => {
                let piece = strip_cr_exec(&rest[0..i]);
                assert(rest@.subrange(0, i as int) =~= rest@.take(i as int));
                let v = vstd::slice::slice_to_vec(piece);
                let ghost before = out@;
                out.push(v);
                assert(rest@.skip(i + 1) =~= s@.skip(p + i + 1));
                assert(cviews(out@) =~= cviews(before) + seq![v@]);
                p = p + i + 1;
            },
            None => {
                let v = vstd::slice::slice_to_vec(rest);
                let ghost before = out@;
                out.push(v);
                assert(cviews(out@) =~= cviews(before) + seq![v@]);
                p = s.len();
                assert(s@.skip(p as int) =~= Seq::<char>::empty());
            },
        }
    }
    assert(s@.skip(p as int) =~= Seq::<char>::empty());
    assert(cviews(out@) + Seq::<Seq<char>>::empty() =~= cviews(out@));
    out
}


/// `str::split_whitespace`.
pub fn words_exec(s: &[char]) -> (out: Vec<Vec<char>>)
    ensures
        cviews(out@) == words(s@),
{
    let mut out: Vec<Vec<char>> = Vec::new();
    let mut p: usize = 0;
    assert(s@.skip(0) =~= s@);
    while p < s.len()
        invariant
            0 <= p <= s.len(),
            words(s@) == cviews(out@) + words(s@.skip(p as int)),
        decreases s.len() - p,
    {
        let rest = &s[p..s.len()];
        assert(rest@ =~= s@.skip(p as int));
        let t = drop_while_exec(rest, &Pred::Ws);
        proof {
            lemma_drop_while_len(rest@, ws_pred());
        }
        if t.len() == 0 {
            assert(words(rest@) =~= Seq::<Seq<char>>::empty());
            p = s.len();
            assert(s@.skip(p as int) =~= Seq::<char>::empty());
        } else {
            let q = p + (rest.len() - t.len());
            let mut k: usize = 0;
            while k < t.len() && !is_ws_exec(t[k])
                invariant
                    0 <= k <= t.len(),
                    forall|m: int| 0 <= m < k ==> !is_ws(t@[m]),
                decreases t.len() - k,
            {
                k = k + 1;
            }
            proof {
                lemma_take_until_ws(t@);
            }
            assert(take_until_ws(t@).len() == k);
            let w = vstd::slice::slice_to_vec(&t[0..k]);
            assert(w@ =~= t@.take(k as int));
            let ghost before = out@;
            out.push(w);
            assert(cviews(out@) =~= cviews(before) + seq![w@]);
            assert(t@.skip(k as int) =~= s@.skip(q + k));
            p = q + k;
        }
    }
    assert(s@.skip(p as int) =~= Seq::<char>::empty());
    assert(cviews(out@) + Seq::<Seq<char>>::empty() =~= cviews(out@));
    out
}

/// `str::split(c)`.
pub fn split_char_exec(s: &[char], c: char) -> (out: Vec<Vec<char>>)
    ensures
        cviews(out@) == split_char(s@, c),
{
    let mut out: Vec<Vec<char>> = Vec::new();
    let mut p: usize = 0;
    assert(s@.skip(0) =~= s@);
    loop
        invariant_except_break
            0 <= p <= s.len(),
            split_char(s@, c) == cviews(out@) + split_char(s@.skip(p as int), c),
        ensures
            split_char(s@, c) == cviews(out@),
        decreases s.len() - p,
    {
        let rest = &s[p..s.len()];
        assert(rest@ =~= s@.skip(p as int));
        match find_char_exec(rest, c) {
            Some(i) => {
                let w = vstd::slice::slice_to_vec(&rest[0..i]);
                assert(w@ =~= rest@.take(i as int));
                let ghost before = out@;
                out.push(w);
                assert(cviews(out@) =~= cviews(before) + seq![w@]);
                assert(rest@.skip(i + 1) =~= s@.skip(p + i + 1));
                p = p + i + 1;
            },
            None => {
                let w = vstd::slice::slice_to_vec(rest);
                let ghost before = out@;
                out.push(w);
                assert(cviews(out@) =~= cviews(before) + seq![w@]);
                break;
            },
        }
    }
    out
}

/// `str::strip_prefix`.
pub fn strip_prefix_exec<'a>(s: &'a [char], p: &[char]) -> (r: Option<&'a [char]>)
    ensures
        match strip_prefix(s@, p@) {
            Some(t) => r.is_some() && r.unwrap()@ == t,
            None => r.is_none(),
        },
{
    if starts_with_exec(s, p) {
        let r = &s[p.len()..s.len()];
        assert(r@ =~= s@.skip(p.len() as int));
        Some(r)
    } else {
        None
    }
}


/// Index of the last occurrence of `c` in `s`, if any.
pub open spec fn rfind_char(s: Seq<char>, c: char) -> Option<int>
    decreases s.len(),
{
    if s.len() == 0 {
        None
    } else if s.last() == c {
        Some(s.len() - 1)
    } else {
        rfind_char(s.drop_last(), c)
    }
}

/// `str::trim_start_matches` with a string pattern: every leading copy of
/// `p` is removed.
pub open spec fn strip_all_prefix(s: Seq<char>, p: Seq<char>) -> Seq<char>
    decreases s.len(),
{
    if p.len() > 0 && starts_with(s, p) {
        strip_all_prefix(s.skip(p.len() as int), p)
    } else {
        s
    }
}

/// Bytes one character takes in UTF-8.
pub open spec fn char_utf8_len(c: char) -> nat {
    if (c as u32) < 0x80 {
        1
    } else if (c as u32) < 0x800 {
        2
    } else if (c as u32) < 0x10000 {
        3
    } else {
        4
    }
}

/// `str::len`: the UTF-8 byte length of the text.
pub open spec fn utf8_len(s: Seq<char>) -> nat
    decreases s.len(),
{
    if s.len() == 0 {
        0
    } else {
        utf8_len(s.drop_last()) + char_utf8_len(s.last())
    }
}

/// Two character slices hold the same text.
pub fn eq_chars(a: &[char], b: &[char]) -> (r: bool)
    ensures
        r == (a@ == b@),
{
    if a.len() != b.len() {
        return false;
    }
    let mut i: usize = 0;
    while i < a.len()
        invariant
            a.len() == b.len(),
            0 <= i <= a.len(),
            forall|k: int| 0 <= k < i ==> a@[k] == b@[k],
        decreases a.len() - i,
    {
        if a[i] != b[i] {
            return false;
        }
        i = i + 1;
    }
    assert(a@ =~= b@);
    true
}

/// The text `x` equals one of the texts in `list`.
pub fn in_list(x: &[char], list: &Vec<&str>) -> (r: bool)
    ensures
        r == str_views(list@).contains(x@),
{
    let mut i: usize = 0;
    while i < list.len()
        invariant
            0 <= i <= list.len(),
            forall|k: int| 0 <= k < i ==> list@[k]@ != x@,
        decreases list.len() - i,
    {
        let item = chars_of(list[i]);
        if eq_chars(item.as_slice(), x) {
            assert(str_views(list@)[i as int] == x@);
            return true;
        }
        i = i + 1;
    }
    assert forall|k: int| 0 <= k < list@.len() implies str_views(list@)[k] != x@ by {}
    false
}

/// The text `x` equals the string `lit`.
pub fn is_text(x: &[char], lit: &str) -> (r: bool)
    ensures
        r == (x@ == lit@),
{
    let v = chars_of(lit);
    eq_chars(x, v.as_slice())
}

/// `lit` is a prefix of `x`.
pub fn starts_with_text(x: &[char], lit: &str) -> (r: bool)
    ensures
        r == starts_with(x@, lit@),
{
    let v = chars_of(lit);
    starts_with_exec(x, v.as_slice())
}

/// `lit` occurs in `x`.
pub fn contains_text(x: &[char], lit: &str) -> (r: bool)
    ensures
        r == contains(x@, lit@),
{
    let v = chars_of(lit);
    contains_exec(x, v.as_slice())
}

pub proof fn lemma_rfind_char(s: Seq<char>, c: char, j: int)
    requires
        0 <= j <= s.len(),
        forall|k: int| j <= k < s.len() ==> s[k] != c,
        j == 0 || s[j - 1] == c,
    ensures
        rfind_char(s, c) == (if j > 0 { Some(j - 1) } else { None::<int> }),
    decreases s.len() - j,
{
    if s.len() > j {
        lemma_rfind_char(s.drop_last(), c, j);
    }
}

/// Index of the last `c` in `s`.
pub fn rfind_char_exec(s: &[char], c: char) -> (r: Option<usize>)
    ensures
        match rfind_char(s@, c) {
            Some(i) => r == Some(i as usize) && 0 <= i < s@.len(),
            None => r.is_none(),
        },
{
    let mut j: usize = s.len();
    while j > 0 && s[j - 1] != c
        invariant
            0 <= j <= s.len(),
            forall|k: int| j <= k < s.len() ==> s@[k] != c,
        decreases j,
    {
        j = j - 1;
    }
    proof {
        lemma_rfind_char(s@, c, j as int);
    }
    if j > 0 {
        Some(j - 1)
    } else {
        None
    }
}

/// Remove every leading copy of `p`.
pub fn strip_all_prefix_exec<'a>(s: &'a [char], p: &[char]) -> (r: &'a [char])
    ensures
        r@ == strip_all_prefix(s@, p@),
{
    if p.len() == 0 {
        return s;
    }
    let mut i: usize = 0;
    assert(s@.skip(0) =~= s@);
    while i <= s.len() && starts_with_exec(&s[i..s.len()], p)
        invariant
            0 <= i <= s.len(),
            p.len() > 0,
            strip_all_prefix(s@, p@) == strip_all_prefix(s@.skip(i as int), p@),
        decreases s.len() - i,
    {
        let ghost t = s@.skip(i as int);
        assert(s@.subrange(i as int, s@.len() as int) =~= t);
        assert(t.skip(p.len() as int) =~= s@.skip(i + p.len()));
        i = i + p.len();
    }
    let r = &s[i..s.len()];
    assert(r@ =~= s@.skip(i as int));
    r
}

/// UTF-8 byte length of a character slice.
pub fn utf8_len_exec(s: &[char]) -> (n: u128)
    ensures
        n == utf8_len(s@),
{
    let mut n: u128 = 0;
    let mut i: usize = 0;
    while i < s.len()
        invariant
            0 <= i <= s.len(),
            n == utf8_len(s@.take(i as int)),
            n <= 4 * i,
        decreases s.len() - i,
    {
        let c = s[i];
        let w: u128 = if (c as u32) < 0x80 {
            1
        } else if (c as u32) < 0x800 {
            2
        } else if (c as u32) < 0x10000 {
            3
        } else {
            4
        };
        assert(s@.take(i + 1).drop_last() =~= s@.take(i as int));
        n = n + w;
        i = i + 1;
    }
    assert(s@.take(s.len() as int) =~= s@);
    n
}


/// `Path::join` on Unix: an absolute `rel` replaces `base`; otherwise a `/`
/// is inserted unless `base` is empty or already ends in one.
pub open spec fn path_join(base: Seq<char>, rel: Seq<char>) -> Seq<char> {
    if rel.len() > 0 && rel[0] == '/' {
        rel
    } else if base.len() > 0 && base.last() != '/' {
        base + seq!['/'] + rel
    } else {
        base + rel
    }
}

/// `Path::join` on Unix.
pub fn path_join_exec(base: &str, rel: &str) -> (r: String)
    ensures
        r@ == path_join(base@, rel@),
{
    let b = chars_of(base);
    let r = chars_of(rel);
    if r.len() > 0 && r[0] == '/' {
        return String::from_str(rel);
    }
    let mut out: Vec<char> = b;
    if out.len() > 0 && out[out.len() - 1] != '/' {
        out.push('/');
    }
    let ghost pre = out@;
    let mut i: usize = 0;
    while i < r.len()
        invariant
            0 <= i <= r.len(),
            out@ == pre + r@.take(i as int),
        decreases r.len() - i,
    {
        out.push(r[i]);
        assert(r@.take(i + 1) =~= r@.take(i as int).push(r@[i as int]));
        i = i + 1;
    }
    assert(r@.take(r.len() as int) =~= r@);
    assert(out@ =~= path_join(base@, rel@));
    string_of(out.as_slice())
}

} // verus!
