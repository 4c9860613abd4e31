//! Self-update decisions: version comparison, who owns the installed binary,
//! which release asset fits, and the privileged install script.
use vstd::prelude::*;
use crate::plan::{
    ask, ask_step, cat, code_reply, data_reply, done, done_step, flag_of, flag_reply, l1, l2, line1,
    line2, names_of, names_reply, no_lines, one_line, outcome_of, outcome_reply, push_line,
    release_of, release_reply, size_of, size_reply, text_or_empty, text_reply, two_lines, code_of,
    data_of, pv, Line, LineV, Op, OpV, Part, Reply, ReplyV, Step, StepV, Style,
};
use crate::utils::{dec, LineKind};
use crate::text::{path_join, path_join_exec, chars_of, is_ascii_digit, push_char, split_char, split_char_exec, starts_with, str_views, string_of, trim, trim_exec, drop_while, eq_pred, Pred, drop_while_exec, cviews, views};

verus! {

// ═══════════════════════════ Versions ═══════════════════════════

pub open spec fn digit_value(c: char) -> nat {
    ((c as u32) - 48) as nat
}

/// The number a run of ASCII digits spells.
pub open spec fn digits_value(t: Seq<char>) -> nat
    decreases t.len(),
{
    if t.len() == 0 {
        0
    } else {
        digits_value(t.drop_last()) * 10 + digit_value(t.last())
    }
}

pub open spec fn all_digits(t: Seq<char>) -> bool {
    forall|i: int| 0 <= i < t.len() ==> is_ascii_digit(#[trigger] t[i])
}

/// `str::parse::<u64>`: an optional `+`, then one or more ASCII digits,
/// whose value fits.
pub open spec fn parse_u64(s: Seq<char>) -> Option<u64> {
    let t = if s.len() > 0 && s[0] == '+' {
        s.drop_first()
    } else {
        s
    };
    if t.len() > 0 && all_digits(t) && digits_value(t) <= u64::MAX {
        Some(digits_value(t) as u64)
    } else {
        None
    }
}

/// The leading run of ASCII digits.
pub open spec fn digit_prefix(t: Seq<char>) -> Seq<char>
    decreases t.len(),
{
    if t.len() > 0 && is_ascii_digit(t[0]) {
        seq![t[0]] + digit_prefix(t.drop_first())
    } else {
        seq![]
    }
}

/// `1.4.2` or `v1.4.2` as (major, minor, patch); a missing or malformed
/// patch reads as 0.
pub open spec fn version_of(s: Seq<char>) -> Option<(u64, u64, u64)> {
    let t = drop_while(trim(s), eq_pred('v'));
    let parts = split_char(t, '.');
    match parse_u64(parts[0]) {
        Some(major) => if parts.len() >= 2 {
            match parse_u64(parts[1]) {
                Some(minor) => {
                    let patch = if parts.len() >= 3 {
                        match parse_u64(digit_prefix(parts[2])) {
                            Some(p) => p,
                            None => 0,
                        }
                    } else {
                        0
                    };
                    Some((major, minor, patch))
                },
                None => None,
            }
        } else {
            None
        },
        None => None,
    }
}

fn parse_u64_exec(s: &[char]) -> (r: Option<u64>)
    ensures
        r == parse_u64(s@),
{
    let t: &[char] = if s.len() > 0 && s[0] == '+' {
        &s[1..s.len()]
    } else {
        s
    };
    assert(t@ =~= (if s@.len() > 0 && s@[0] == '+' { s@.drop_first() } else { s@ }));
    if t.len() == 0 {
        return None;
    }
    let mut v: u64 = 0;
    let mut i: usize = 0;
    while i < t.len()
        invariant
            0 <= i <= t.len(),
            t@.len() > 0,
            t@ == (if s@.len() > 0 && s@[0] == '+' { s@.drop_first() } else { s@ }),
            all_digits(t@.take(i as int)),
            v == digits_value(t@.take(i as int)),
        decreases t.len() - i,
    {
        let c = t[i];
        assert(t@.take(i + 1).drop_last() =~= t@.take(i as int));
        if !('0' <= c && c <= '9') {
            assert(!all_digits(t@)) by {
                assert(!is_ascii_digit(t@[i as int]));
            }
            return None;
        }
        let d = (c as u32 - 48) as u64;
        if v > (u64::MAX - d) / 10 {
            proof {
                lemma_digits_grow(t@, i as int + 1);
                assert(digits_value(t@.take(i + 1)) == v * 10 + d) by {
                    assert(t@.take(i + 1).last() == c);
                }
                assert(v * 10 + d > u64::MAX) by (nonlinear_arith)
                    requires
                        v > (u64::MAX - d) / 10,
                        d <= 9,
                {
                }
            }
            return None;
        }
        assert(v * 10 + d <= u64::MAX) by (nonlinear_arith)
            requires
                v <= (u64::MAX - d) / 10,
                d <= 9,
        {
        }
        v = v * 10 + d;
        assert(all_digits(t@.take(i + 1))) by {
            assert forall|k: int| 0 <= k < i + 1 implies is_ascii_digit(#[trigger] t@.take(i + 1)[k]) by {
                if k < i {
                    assert(t@.take(i + 1)[k] == t@.take(i as int)[k]);
                }
            }
        }
        i = i + 1;
    }
    assert(t@.take(t.len() as int) =~= t@);
    Some(v)
}

proof fn lemma_split_nonempty(s: Seq<char>, c: char)
    ensures
        split_char(s, c).len() >= 1,
    decreases s.len(),
{
    match crate::text::find_char(s, c) {
        Some(i) => if 0 <= i < s.len() {
            lemma_split_nonempty(s.skip(i + 1), c);
        },
        None => {},
    }
}

/// A prefix of `t` already exceeds `u64::MAX`, so `t` does too when it is
/// all digits.
proof fn lemma_digits_grow(t: Seq<char>, n: int)
    requires
        0 <= n <= t.len(),
    ensures
        all_digits(t) ==> digits_value(t) >= digits_value(t.take(n)),
    decreases t.len(),
{
    if n < t.len() {
        assert(t.drop_last().take(n) =~= t.take(n));
        lemma_digits_grow(t.drop_last(), n);
        if all_digits(t) {
            assert(all_digits(t.drop_last())) by {
                assert forall|i: int| 0 <= i < t.drop_last().len() implies is_ascii_digit(
                    #[trigger] t.drop_last()[i],
                ) by {
                    assert(t.drop_last()[i] == t[i]);
                }
            }
        }
    } else {
        assert(t.take(n) =~= t);
    }
}

fn digit_prefix_exec(t: &[char]) -> (r: Vec<char>)
    ensures
        r@ == digit_prefix(t@),
{
    let mut k: usize = 0;
    while k < t.len() && '0' <= t[k] && t[k] <= '9'
        invariant
            0 <= k <= t.len(),
            forall|m: int| 0 <= m < k ==> is_ascii_digit(#[trigger] t@[m]),
        decreases t.len() - k,
    {
        k = k + 1;
    }
    proof {
        lemma_digit_prefix(t@, k as int);
    }
    vstd::slice::slice_to_vec(&t[0..k])
}

proof fn lemma_digit_prefix(t: Seq<char>, k: int)
    requires
        0 <= k <= t.len(),
        forall|m: int| 0 <= m < k ==> is_ascii_digit(#[trigger] t[m]),
        k == t.len() || !is_ascii_digit(t[k]),
    ensures
        digit_prefix(t) == t.take(k),
    decreases k,
{
    if k > 0 {
        assert forall|m: int| 0 <= m < k - 1 implies is_ascii_digit(#[trigger] t.drop_first()[m]) by {
            assert(t.drop_first()[m] == t[m + 1]);
        }
        lemma_digit_prefix(t.drop_first(), k - 1);
        assert(seq![t[0]] + t.drop_first().take(k - 1) =~= t.take(k));
    } else {
        assert(t.take(0) =~= seq![]);
    }
}

/// Parse `1.4.2` or `v1.4.2` into `(major, minor, patch)`.
pub fn parse_version(s: &str) -> (r: Option<(u64, u64, u64)>)
    ensures
        r == version_of(s@),
{
    let cs = chars_of(s);
    let t = drop_while_exec(trim_exec(cs.as_slice()), &Pred::Ch('v'));
    let parts = split_char_exec(t, '.');
    proof {
        lemma_split_nonempty(t@, '.');
    }
    assert(cviews(parts@)[0] == parts@[0]@);
    match parse_u64_exec(parts[0].as_slice()) {
        Some(major) => {
            if parts.len() >= 2 {
                assert(cviews(parts@)[1] == parts@[1]@);
                match parse_u64_exec(parts[1].as_slice()) {
                    Some(minor) => {
                        let patch = if parts.len() >= 3 {
                            assert(cviews(parts@)[2] == parts@[2]@);
                            let d = digit_prefix_exec(parts[2].as_slice());
                            match parse_u64_exec(d.as_slice()) {
                                Some(p) => p,
                                None => 0,
                            }
                        } else {
                            0
                        };
                        Some((major, minor, patch))
                    },
                    None => None,
                }
            } else {
                None
            }
        },
        None => None,
    }
}

/// Lexicographic order on versions.
pub open spec fn version_lt(a: (u64, u64, u64), b: (u64, u64, u64)) -> bool {
    a.0 < b.0 || (a.0 == b.0 && (a.1 < b.1 || (a.1 == b.1 && a.2 < b.2)))
}

pub open spec fn newer(current: Seq<char>, latest: Seq<char>) -> bool {
    match (version_of(current), version_of(latest)) {
        (Some(c), Some(l)) => version_lt(c, l),
        _ => false,
    }
}

/// True only if `latest` is strictly newer than `current`; an unreadable
/// version never counts as newer.
pub fn is_newer(current: &str, latest: &str) -> (b: bool)
    ensures
        b == newer(current@, latest@),
{
    match (parse_version(current), parse_version(latest)) {
        (Some(c), Some(l)) => c.0 < l.0 || (c.0 == l.0 && (c.1 < l.1 || (c.1 == l.1 && c.2 < l.2))),
        _ => false,
    }
}

// ═══════════════════════════ Quoting ═══════════════════════════

/// Each `'` becomes `'\''`.
pub open spec fn quote_body(s: Seq<char>) -> Seq<char>
    decreases s.len(),
{
    if s.len() == 0 {
        seq![]
    } else {
        quote_body(s.drop_last()) + if s.last() == '\'' {
            seq!['\'', '\\', '\'', '\'']
        } else {
            seq![s.last()]
        }
    }
}

pub open spec fn quoted(s: Seq<char>) -> Seq<char> {
    seq!['\''] + quote_body(s) + seq!['\'']
}

/// Single-quote a path for safe use inside an `sh -c` string.
pub fn shell_quote(s: &str) -> (r: String)
    ensures
        r@ == quoted(s@),
{
    let cs = chars_of(s);
    let mut out = String::new();
    push_char(&mut out, '\'');
    let mut i: usize = 0;
    while i < cs.len()
        invariant
            0 <= i <= cs.len(),
            cs@ == s@,
            out@ == seq!['\''] + quote_body(cs@.take(i as int)),
        decreases cs.len() - i,
    {
        let ghost before = out@;
        assert(cs@.take(i + 1).drop_last() =~= cs@.take(i as int));
        if cs[i] == '\'' {
            push_char(&mut out, '\'');
            push_char(&mut out, '\\');
            push_char(&mut out, '\'');
            push_char(&mut out, '\'');
        } else {
            push_char(&mut out, cs[i]);
        }
        assert(out@ =~= seq!['\''] + quote_body(cs@.take(i + 1)));
        i = i + 1;
    }
    assert(cs@.take(cs.len() as int) =~= cs@);
    push_char(&mut out, '\'');
    out
}

/// The privileged install: copy into a sibling temp file, make it
/// executable, rename it over the target; the temp file is removed on exit
/// whatever happens.
pub open spec fn script_of(src: Seq<char>, tmp: Seq<char>, dst: Seq<char>) -> Seq<char> {
    "trap 'rm -f "@ + quoted(tmp) + "' EXIT; cp -f "@ + quoted(src) + " "@ + quoted(tmp)
        + " && chmod 755 "@ + quoted(tmp) + " && mv -f "@ + quoted(tmp) + " "@ + quoted(dst)
}

/// The `sh -c` script that installs `src` over `dst` through `tmp`.
pub fn install_script(src: &str, tmp: &str, dst: &str) -> (r: String)
    ensures
        r@ == script_of(src@, tmp@, dst@),
{
    let q_src = shell_quote(src);
    let q_tmp = shell_quote(tmp);
    let q_dst = shell_quote(dst);
    let mut out = String::from_str("trap 'rm -f ");
    out = out.concat(q_tmp.as_str()).concat("' EXIT; cp -f ").concat(q_src.as_str()).concat(" ");
    out = out.concat(q_tmp.as_str()).concat(" && chmod 755 ").concat(q_tmp.as_str());
    out = out.concat(" && mv -f ").concat(q_tmp.as_str()).concat(" ").concat(q_dst.as_str());
    out
}

// ═══════════════════════════ Release assets ═══════════════════════════

pub open spec fn arch_token(arch: Seq<char>) -> Option<Seq<char>> {
    if arch == "x86_64"@ {
        Some("x86_64"@)
    } else if arch == "aarch64"@ {
        Some("aarch64"@)
    } else {
        None
    }
}

/// The release-asset token for a target architecture, or `None` where no
/// prebuilt binary is published.
pub fn asset_arch(arch: &str) -> (r: Option<&'static str>)
    ensures
        r matches Some(t) ==> arch_token(arch@) == Some(t@),
        r is None ==> arch_token(arch@) is None,
{
    let cs = chars_of(arch);
    if crate::text::is_text(cs.as_slice(), "x86_64") {
        Some("x86_64")
    } else if crate::text::is_text(cs.as_slice(), "aarch64") {
        Some("aarch64")
    } else {
        None
    }
}

/// A musl loader among the names in `/lib`.
pub open spec fn musl_present(names: Seq<Seq<char>>) -> bool {
    exists|i: int|
        0 <= i < names.len() && (starts_with(#[trigger] names[i], "libc.musl-"@) || starts_with(
            names[i],
            "ld-musl-"@,
        ))
}

/// `musl` when a musl loader is among the names in `/lib`, else `gnu`.
pub fn libc_of(names: &[String]) -> (r: &'static str)
    ensures
        r@ == (if musl_present(views(names@)) {
            "musl"@
        } else {
            "gnu"@
        }),
{
    let mut i: usize = 0;
    while i < names.len()
        invariant
            0 <= i <= names.len(),
            forall|k: int|
                0 <= k < i ==> !(starts_with(#[trigger] views(names@)[k], "libc.musl-"@) || starts_with(
                    views(names@)[k],
                    "ld-musl-"@,
                )),
        decreases names.len() - i,
    {
        let cs = chars_of(names[i].as_str());
        assert(views(names@)[i as int] == cs@);
        if crate::text::starts_with_text(cs.as_slice(), "libc.musl-") || crate::text::starts_with_text(
            cs.as_slice(),
            "ld-musl-",
        ) {
            return "musl";
        }
        i = i + 1;
    }
    "gnu"
}

/// The first four bytes of an ELF file.
pub open spec fn elf_magic(b: Seq<u8>) -> bool {
    b.len() >= 4 && b[0] == 0x7f && b[1] == 0x45 && b[2] == 0x4c && b[3] == 0x46
}

/// The leading bytes of a file are the ELF magic `0x7F E L F`.
pub fn is_elf_header(b: &[u8]) -> (r: bool)
    ensures
        r == elf_magic(b@),
{
    b.len() >= 4 && b[0] == 0x7f && b[1] == 0x45 && b[2] == 0x4c && b[3] == 0x46
}

// ═══════════════════════════ Package-manager ownership ═══════════════════════════

/// Whether a package manager owns a path.
#[derive(Debug, Clone, Copy, PartialEq, Eq, Structural)]
pub enum Ownership {
    /// It owns the file: do not self-update.
    Owned,
    /// It is installed and cleanly reports it does not own it.
    NotOwned,
    /// It is not installed, so it cannot own anything here.
    Absent,
    /// It is installed but its query failed: fail closed.
    Errored,
}

pub open spec fn ownership_spec(installed: bool, code: Option<i32>) -> Ownership {
    if !installed {
        Ownership::Absent
    } else {
        match code {
            Some(0) => Ownership::Owned,
            Some(1) => Ownership::NotOwned,
            _ => Ownership::Errored,
        }
    }
}

/// Read an ownership query: exit 0 means owned, exit 1 cleanly not owned;
/// any other end (another code, a signal, a failed start) is an error.
/// `code` is the query's exit code, `None` when it has none.
pub fn ownership_of(installed: bool, code: Option<i32>) -> (o: Ownership)
    ensures
        o == ownership_spec(installed, code),
{
    if !installed {
        Ownership::Absent
    } else {
        match code {
            Some(0) => Ownership::Owned,
            Some(1) => Ownership::NotOwned,
            _ => Ownership::Errored,
        }
    }
}

/// A package manager that may own the binary: the tool, the query's
/// arguments (the path follows them), and the command to update with.
#[derive(Clone, Copy)]
pub struct OwnerProbe {
    pub tool: &'static str,
    pub args: &'static [&'static str],
    pub command: &'static str,
}

/// The package managers asked, in order: pacman, dpkg, then rpm.
pub fn owner_probes() -> (v: Vec<OwnerProbe>)
    ensures
        known_probes(v@),
{
    let v = vec![
        OwnerProbe { tool: "pacman", args: &["-Qo"], command: "paru -Syu oxiclean   (or: sudo pacman -Syu)" },
        OwnerProbe {
            tool: "dpkg",
            args: &["-S"],
            command: "sudo apt update && sudo apt install --only-upgrade oxiclean",
        },
        OwnerProbe { tool: "rpm", args: &["-qf"], command: "sudo dnf upgrade oxiclean" },
    ];
    assert(str_views(v@[0].args@) =~= seq!["-Qo"@]);
    assert(str_views(v@[1].args@) =~= seq!["-S"@]);
    assert(str_views(v@[2].args@) =~= seq!["-qf"@]);
    v
}

pub open spec fn verdict_spec(p: OwnerProbe, o: Ownership) -> Option<Seq<char>> {
    match o {
        Ownership::Owned => Some(p.command@),
        Ownership::Errored => Some(
            "your package manager ("@ + p.tool@
                + " query failed — refusing to overwrite a possibly-managed binary)"@,
        ),
        _ => None,
    }
}

/// What one probe's answer means: the command to update with when the tool
/// owns the binary or its query failed, nothing when it cleanly does not.
pub fn owner_verdict(p: &OwnerProbe, o: Ownership) -> (r: Option<String>)
    ensures
        r matches Some(t) ==> verdict_spec(*p, o) == Some(t@),
        r is None ==> verdict_spec(*p, o) is None,
{
    match o {
        Ownership::Owned => Some(String::from_str(p.command)),
        Ownership::Errored => Some(
            cat("your package manager (", p.tool).concat(
                " query failed — refusing to overwrite a possibly-managed binary)",
            ),
        ),
        _ => None,
    }
}

/// The first probe whose answer is decisive decides.
pub open spec fn managed_spec(ps: Seq<OwnerProbe>, os: Seq<Ownership>) -> Option<Seq<char>>
    decreases ps.len(),
{
    if ps.len() == 0 || os.len() == 0 {
        None
    } else {
        match verdict_spec(ps[0], os[0]) {
            Some(t) => Some(t),
            None => managed_spec(ps.drop_first(), os.drop_first()),
        }
    }
}

/// If a package manager owns the binary, or is installed and its query
/// failed, the command the user should update with instead. `owners` holds
/// the probes' answers in order; asking may stop at the first decisive one.
pub fn managed_by(probes: &[OwnerProbe], owners: &[Ownership]) -> (r: Option<String>)
    ensures
        r matches Some(t) ==> managed_spec(probes@, owners@) == Some(t@),
        r is None ==> managed_spec(probes@, owners@) is None,
{
    let mut i: usize = 0;
    assert(probes@.skip(0) =~= probes@);
    assert(owners@.skip(0) =~= owners@);
    while i < probes.len() && i < owners.len()
        invariant
            0 <= i <= probes.len(),
            i <= owners.len(),
            managed_spec(probes@, owners@) == managed_spec(probes@.skip(i as int), owners@.skip(i as int)),
        decreases probes.len() - i,
    {
        let ghost ps = probes@.skip(i as int);
        let ghost os = owners@.skip(i as int);
        assert(ps[0] == probes@[i as int]);
        assert(os[0] == owners@[i as int]);
        assert(ps.drop_first() =~= probes@.skip(i + 1));
        assert(os.drop_first() =~= owners@.skip(i + 1));
        match owner_verdict(&probes[i], owners[i]) {
            Some(t) => {
                return Some(t);
            },
            None => {},
        }
        i = i + 1;
    }
    None
}

// ═══════════════════════════ The update run ═══════════════════════════

/// The directory holding the absolute path `p` (which has no trailing `/`):
/// everything before its last `/`, or the root.
pub open spec fn parent_dir(p: Seq<char>) -> Seq<char> {
    match crate::text::rfind_char(p, '/') {
        Some(i) => if i == 0 {
            "/"@
        } else {
            p.take(i)
        },
        None => seq![],
    }
}

fn parent_dir_exec(p: &str) -> (r: String)
    ensures
        r@ == parent_dir(p@),
{
    let cs = chars_of(p);
    assert(cs@ == p@);
    let found = crate::text::rfind_char_exec(cs.as_slice(), '/');
    proof {
        assert(cs@.len() == cs.len());
        match crate::text::rfind_char(p@, '/') {
            Some(j) => {
                assert(0 <= j < cs.len());
                assert(found == Some(j as usize));
                assert(found.unwrap() as int == j);
            },
            None => {},
        }
    }
    match found {
        Some(i) => if i == 0 {
            String::from_str("/")
        } else {
            let head = &cs.as_slice()[0..i];
            assert(head@ =~= cs@.take(i as int));
            string_of(head)
        },
        None => {
            assert(seq![] =~= Seq::<char>::empty());
            String::new()
        },
    }
}

/// The probe table the update run asks: pacman, dpkg, then rpm.
pub open spec fn known_probes(v: Seq<OwnerProbe>) -> bool {
    &&& v.len() == 3
    &&& v[0].tool@ == "pacman"@
    &&& str_views(v[0].args@) == seq!["-Qo"@]
    &&& v[0].command@ == "paru -Syu oxiclean   (or: sudo pacman -Syu)"@
    &&& v[1].tool@ == "dpkg"@
    &&& str_views(v[1].args@) == seq!["-S"@]
    &&& v[1].command@ == "sudo apt update && sudo apt install --only-upgrade oxiclean"@
    &&& v[2].tool@ == "rpm"@
    &&& str_views(v[2].args@) == seq!["-qf"@]
    &&& v[2].command@ == "sudo dnf upgrade oxiclean"@
}

#[derive(Debug, Clone, Copy, PartialEq, Eq, Structural)]
pub enum UpdStage {
    Begin,
    Exe,
    Which(usize),
    Query(usize),
    Fetch,
    Confirm,
    Arch,
    Libc,
    TempDir,
    Pid,
    Download,
    Head,
    SetExec,
    Version,
    Writable,
    Install,
    Elevated,
    Cleanup,
    Finished,
}

/// The `--update` run: refuse package-manager installs, compare with the
/// latest release, download the matching asset, check it, and swap it in
/// atomically. Finishes with the process exit code.
pub struct SelfUpdate {
    pub current: String,
    pub yes: bool,
    pub quiet: bool,
    pub stage: UpdStage,
    pub probes: Vec<OwnerProbe>,
    pub exe: String,
    pub tag: String,
    pub latest: String,
    pub arch: String,
    pub asset: String,
    pub tmpdir: String,
    pub tmp: String,
    pub pid: u64,
    pub code: u64,
}

#[verifier::ext_equal]
pub struct SelfUpdateV {
    pub current: Seq<char>,
    pub yes: bool,
    pub quiet: bool,
    pub stage: UpdStage,
    pub probes: Seq<OwnerProbe>,
    pub exe: Seq<char>,
    pub tag: Seq<char>,
    pub latest: Seq<char>,
    pub arch: Seq<char>,
    pub asset: Seq<char>,
    pub tmpdir: Seq<char>,
    pub tmp: Seq<char>,
    pub pid: u64,
    pub code: u64,
}

impl View for SelfUpdate {
    type V = SelfUpdateV;

    open spec fn view(&self) -> SelfUpdateV {
        SelfUpdateV {
            current: self.current@,
            yes: self.yes,
            quiet: self.quiet,
            stage: self.stage,
            probes: self.probes@,
            exe: self.exe@,
            tag: self.tag@,
            latest: self.latest@,
            arch: self.arch@,
            asset: self.asset@,
            tmpdir: self.tmpdir@,
            tmp: self.tmp@,
            pid: self.pid,
            code: self.code,
        }
    }
}

pub open spec fn uv(s: SelfUpdateV, stage: UpdStage) -> SelfUpdateV {
    SelfUpdateV { stage, ..s }
}

/// Stop with `code`, printing `lines`.
pub open spec fn upd_finish(s: SelfUpdateV, lines: Seq<LineV>, code: u64) -> (SelfUpdateV, StepV) {
    (SelfUpdateV { stage: UpdStage::Finished, code, ..s }, done(lines, code))
}

/// Stop with `code` once the downloaded file has been removed.
pub open spec fn upd_cleanup(s: SelfUpdateV, lines: Seq<LineV>, code: u64) -> (SelfUpdateV, StepV) {
    (SelfUpdateV { stage: UpdStage::Cleanup, code, ..s }, ask(lines, OpV::Remove(s.tmp)))
}

/// Ask probe `i` whether its tool is installed; past the last probe, fetch
/// the latest release.
pub open spec fn upd_probe(s: SelfUpdateV, i: int) -> (SelfUpdateV, StepV) {
    if 0 <= i < s.probes.len() {
        (uv(s, UpdStage::Which(i as usize)), ask(seq![], OpV::Which(s.probes[i].tool@)))
    } else {
        (uv(s, UpdStage::Fetch), ask(seq![l1(LineKind::Section, "Update"@)], OpV::FetchRelease))
    }
}

pub open spec fn query_args(p: OwnerProbe, exe: Seq<char>) -> Seq<Seq<char>> {
    str_views(p.args@).push(exe)
}

pub open spec fn managed_lines(exe: Seq<char>, cmd: Seq<char>) -> Seq<LineV> {
    seq![
        l1(LineKind::Section, "Update"@),
        l1(LineKind::Info, "Installed by a package manager ("@ + exe + ")"@),
        l2(LineKind::Info, "Update it with:  "@, cmd, Style::Bold),
    ]
}

pub open spec fn avail_line(current: Seq<char>, latest: Seq<char>) -> LineV {
    crate::plan::ln(
        LineKind::Plain,
        seq![
            pv("  "@, Style::Plain),
            pv("Update available:"@, Style::Bold),
            pv(" "@, Style::Plain),
            pv(current, Style::Yellow),
            pv(" "@, Style::Plain),
            pv("\u{2192}"@, Style::Dimmed),
            pv(" "@, Style::Plain),
            pv(latest, Style::GreenBold),
        ],
    )
}

pub open spec fn note_line(l: Seq<char>) -> LineV {
    l1(LineKind::Plain, "  "@ + l)
}

/// The release notes, trimmed, between blank lines; nothing when empty or
/// in quiet mode.
pub open spec fn note_lines(body: Option<Seq<char>>, quiet: bool) -> Seq<LineV> {
    let notes = trim(
        match body {
            Some(b) => b,
            None => seq![],
        },
    );
    if notes.len() > 0 && !quiet {
        seq![crate::plan::ln(LineKind::Plain, seq![])] + crate::text::lines(notes).map_values(
            |l: Seq<char>| note_line(l),
        ) + seq![crate::plan::ln(LineKind::Plain, seq![])]
    } else {
        seq![]
    }
}

pub open spec fn libc_name(names: Seq<Seq<char>>) -> Seq<char> {
    if musl_present(names) {
        "musl"@
    } else {
        "gnu"@
    }
}

pub open spec fn asset_url(tag: Seq<char>, asset: Seq<char>) -> Seq<char> {
    "https://github.com/croaky-fx/oxiclean/releases/download/"@ + tag + "/"@ + asset
}

pub open spec fn self_check_msg(latest: Seq<char>, got: Seq<char>) -> Seq<char> {
    "downloaded binary failed its self-check (expected "@ + latest + ", got '"@ + got
        + "') \u{2014} libc mismatch?"@
}

pub open spec fn no_asset_msg(arch: Seq<char>) -> Seq<char> {
    "no prebuilt binary for "@ + arch
        + " \u{2014} build from source: cargo install --git https://github.com/croaky-fx/oxiclean"@
}

pub open spec fn updated_line(current: Seq<char>, latest: Seq<char>) -> LineV {
    l1(LineKind::Success, "Updated "@ + current + " \u{2192} "@ + latest)
}

pub open spec fn install_tmp(s: SelfUpdateV) -> Seq<char> {
    path_join(parent_dir(s.exe), ".oxiclean.new."@ + dec(s.pid as nat))
}

/// One transition of the update run.
pub open spec fn upd_next(s: SelfUpdateV, r: ReplyV) -> (SelfUpdateV, StepV) {
    match s.stage {
        UpdStage::Begin => (uv(s, UpdStage::Exe), ask(seq![], OpV::CurrentExe)),
        UpdStage::Exe => match outcome_of(r) {
            Err(e) => upd_finish(s, seq![l1(LineKind::Error, "cannot locate own binary: "@ + e)], 1),
            Ok(p) => upd_probe(SelfUpdateV { exe: p, ..s }, 0),
        },
        UpdStage::Which(i) => if flag_of(r) && i < s.probes.len() {
            (
                uv(s, UpdStage::Query(i)),
                ask(
                    seq![],
                    OpV::Status { cmd: s.probes[i as int].tool@, args: query_args(s.probes[i as int], s.exe) },
                ),
            )
        } else {
            upd_probe(s, i + 1)
        },
        UpdStage::Query(i) => if i < s.probes.len() {
            match verdict_spec(s.probes[i as int], ownership_spec(true, code_of(r))) {
                Some(cmd) => upd_finish(s, managed_lines(s.exe, cmd), 0),
                None => upd_probe(s, i + 1),
            }
        } else {
            upd_probe(s, i + 1)
        },
        UpdStage::Fetch => match release_of(r) {
            Err(e) => upd_finish(
                s,
                seq![l1(LineKind::Error, "couldn't check for updates ("@ + e + ")"@)],
                1,
            ),
            Ok((tag, body)) => {
                let latest = crate::text::strip_all_prefix(tag, "v"@);
                let s2 = SelfUpdateV { tag, latest, ..s };
                if !newer(s.current, latest) {
                    upd_finish(
                        s2,
                        seq![l1(LineKind::Success, "You're on the latest version ("@ + s.current + ")"@)],
                        0,
                    )
                } else {
                    let pre = seq![avail_line(s.current, latest)] + note_lines(body, s.quiet);
                    if s.yes {
                        (uv(s2, UpdStage::Arch), ask(pre, OpV::HostArch))
                    } else {
                        (
                            uv(s2, UpdStage::Confirm),
                            ask(pre, OpV::Confirm("Upgrade to "@ + latest + "? [y/N]:"@)),
                        )
                    }
                }
            },
        },
        UpdStage::Confirm => if flag_of(r) {
            (uv(s, UpdStage::Arch), ask(seq![], OpV::HostArch))
        } else {
            upd_finish(s, seq![l1(LineKind::Info, "Update cancelled"@)], 0)
        },
        UpdStage::Arch => match arch_token(text_or_empty(r)) {
            None => upd_finish(s, seq![l1(LineKind::Error, no_asset_msg(text_or_empty(r)))], 1),
            Some(t) => (
                SelfUpdateV { stage: UpdStage::Libc, arch: t, ..s },
                ask(seq![], OpV::ListDir("/lib"@)),
            ),
        },
        UpdStage::Libc => (
            SelfUpdateV {
                stage: UpdStage::TempDir,
                asset: "oxiclean-"@ + s.arch + "-linux-"@ + libc_name(names_of(r)),
                ..s
            },
            ask(seq![], OpV::TempDir),
        ),
        UpdStage::TempDir => (
            SelfUpdateV { stage: UpdStage::Pid, tmpdir: text_or_empty(r), ..s },
            ask(seq![], OpV::ProcessId),
        ),
        UpdStage::Pid => {
            let tmp = path_join(s.tmpdir, "oxiclean-update."@ + dec(size_of(r) as nat));
            (
                SelfUpdateV { stage: UpdStage::Download, pid: size_of(r), tmp, ..s },
                ask(
                    seq![l1(LineKind::Info, "Downloading "@ + s.asset + "..."@)],
                    OpV::Download { url: asset_url(s.tag, s.asset), dest: tmp },
                ),
            )
        },
        UpdStage::Download => match outcome_of(r) {
            Err(e) => upd_cleanup(s, seq![l1(LineKind::Error, "download failed ("@ + e + ")"@)], 1),
            Ok(_) => (uv(s, UpdStage::Head), ask(seq![], OpV::ReadHead(s.tmp))),
        },
        UpdStage::Head => if elf_magic(data_of(r)) {
            (uv(s, UpdStage::SetExec), ask(seq![], OpV::SetExec(s.tmp)))
        } else {
            upd_cleanup(s, seq![l1(LineKind::Error, "downloaded file is not a valid Linux binary"@)], 1)
        },
        UpdStage::SetExec => (
            uv(s, UpdStage::Version),
            ask(seq![], OpV::Capture { cmd: s.tmp, args: seq!["--version"@], trusted: false }),
        ),
        UpdStage::Version => if crate::text::contains(text_or_empty(r), s.latest) {
            (
                uv(s, UpdStage::Writable),
                ask(
                    seq![
                        l1(LineKind::Success, "Verified "@ + s.latest),
                        l1(LineKind::Info, "Installing to "@ + s.exe + "..."@),
                    ],
                    OpV::DirWritable(parent_dir(s.exe)),
                ),
            )
        } else {
            upd_cleanup(s, seq![l1(LineKind::Error, self_check_msg(s.latest, text_or_empty(r)))], 1)
        },
        UpdStage::Writable => if flag_of(r) {
            (
                uv(s, UpdStage::Install),
                ask(seq![], OpV::Install { src: s.tmp, tmp: install_tmp(s), dst: s.exe }),
            )
        } else {
            (
                uv(s, UpdStage::Elevated),
                ask(
                    seq![],
                    OpV::Run {
                        cmd: "sh"@,
                        args: seq!["-c"@, script_of(s.tmp, install_tmp(s), s.exe)],
                        elevated: true,
                        quiet: false,
                    },
                ),
            )
        },
        UpdStage::Install => match outcome_of(r) {
            Err(e) => upd_cleanup(s, seq![l1(LineKind::Error, "install failed ("@ + e + ")"@)], 1),
            Ok(_) => upd_cleanup(s, seq![updated_line(s.current, s.latest)], 0),
        },
        UpdStage::Elevated => if flag_of(r) {
            upd_cleanup(s, seq![updated_line(s.current, s.latest)], 0)
        } else {
            upd_cleanup(
                s,
                seq![l1(LineKind::Error, "install failed (privileged install failed)"@)],
                1,
            )
        },
        UpdStage::Cleanup => (uv(s, UpdStage::Finished), done(seq![], s.code)),
        UpdStage::Finished => (s, done(seq![], s.code)),
    }
}

/// Start the `--update` run for the running version `current`. With `yes`
/// the upgrade is not confirmed; with `quiet` the release notes are not shown.
pub fn self_update(current: &str, yes: bool, quiet: bool) -> (m: SelfUpdate)
    ensures
        m@ == (SelfUpdateV {
            current: current@,
            yes,
            quiet,
            stage: UpdStage::Begin,
            probes: m@.probes,
            exe: seq![],
            tag: seq![],
            latest: seq![],
            arch: seq![],
            asset: seq![],
            tmpdir: seq![],
            tmp: seq![],
            pid: 0,
            code: 0,
        }),
        known_probes(m@.probes),
{
    SelfUpdate {
        current: String::from_str(current),
        yes,
        quiet,
        stage: UpdStage::Begin,
        probes: owner_probes(),
        exe: String::new(),
        tag: String::new(),
        latest: String::new(),
        arch: String::new(),
        asset: String::new(),
        tmpdir: String::new(),
        tmp: String::new(),
        pid: 0,
        code: 0,
    }
}

fn note_lines_exec(body: &Option<String>, quiet: bool) -> (v: Vec<Line>)
    ensures
        crate::plan::line_views(v@) == note_lines(crate::plan::opt_view(*body), quiet),
{
    let empty = String::new();
    let b: &str = match body {
        Some(x) => x.as_str(),
        None => empty.as_str(),
    };
    assert(b@ == (match crate::plan::opt_view(*body) {
        Some(x) => x,
        None => seq![],
    }));
    let cs = chars_of(b);
    let notes = trim_exec(cs.as_slice());
    let mut v: Vec<Line> = Vec::new();
    if notes.len() == 0 || quiet {
        assert(crate::plan::line_views(v@) =~= seq![]);
        return v;
    }
    let ls = crate::text::lines_exec(notes);
    let blank: Vec<Part> = Vec::new();
    assert(crate::plan::part_views(blank@) =~= seq![]);
    push_line(&mut v, Line { kind: LineKind::Plain, parts: blank });
    assert(crate::plan::line_views(v@) =~= seq![crate::plan::ln(LineKind::Plain, seq![])]);
    let mut i: usize = 0;
    while i < ls.len()
        invariant
            0 <= i <= ls.len(),
            crate::text::cviews(ls@) == crate::text::lines(notes@),
            crate::plan::line_views(v@) == seq![crate::plan::ln(LineKind::Plain, seq![])]
                + crate::text::cviews(ls@).take(i as int).map_values(|l: Seq<char>| note_line(l)),
        decreases ls.len() - i,
    {
        let text = cat("  ", string_of(ls[i].as_slice()).as_str());
        let ghost before = v@;
        push_line(&mut v, crate::plan::line1s(LineKind::Plain, text));
        assert(crate::text::cviews(ls@)[i as int] == ls@[i as int]@);
        assert(crate::text::cviews(ls@).take(i + 1).map_values(|l: Seq<char>| note_line(l))
            =~= crate::text::cviews(ls@).take(i as int).map_values(|l: Seq<char>| note_line(l)).push(
            note_line(ls@[i as int]@),
        ));
        i = i + 1;
    }
    assert(crate::text::cviews(ls@).take(ls.len() as int) =~= crate::text::cviews(ls@));
    let blank2: Vec<Part> = Vec::new();
    assert(crate::plan::part_views(blank2@) =~= seq![]);
    push_line(&mut v, Line { kind: LineKind::Plain, parts: blank2 });
    v
}

fn avail_line_exec(current: &str, latest: &str) -> (l: Line)
    ensures
        l@ =~~= avail_line(current@, latest@),
{
    let mut parts: Vec<Part> = Vec::new();
    parts.push(Part { text: String::from_str("  "), style: Style::Plain });
    parts.push(Part { text: String::from_str("Update available:"), style: Style::Bold });
    parts.push(Part { text: String::from_str(" "), style: Style::Plain });
    parts.push(Part { text: String::from_str(current), style: Style::Yellow });
    parts.push(Part { text: String::from_str(" "), style: Style::Plain });
    parts.push(Part { text: String::from_str("\u{2192}"), style: Style::Dimmed });
    parts.push(Part { text: String::from_str(" "), style: Style::Plain });
    parts.push(Part { text: String::from_str(latest), style: Style::GreenBold });
    Line { kind: LineKind::Plain, parts }
}

fn error_line(a: &str, b: &str, c: &str) -> (l: Line)
    ensures
        l@ =~~= l1(LineKind::Error, a@ + b@ + c@),
{
    crate::plan::line1s(LineKind::Error, cat(a, b).concat(c))
}

fn query_args_exec(p: &OwnerProbe, exe: &str) -> (args: Vec<String>)
    ensures
        views(args@) == query_args(*p, exe@),
{
    let mut args: Vec<String> = Vec::new();
    let mut k: usize = 0;
    while k < p.args.len()
        invariant
            0 <= k <= p.args.len(),
            views(args@) =~= str_views(p.args@).take(k as int),
        decreases p.args.len() - k,
    {
        let ghost before = args@;
        args.push(String::from_str(p.args[k]));
        assert(views(args@) =~= views(before).push(p.args@[k as int]@));
        k = k + 1;
    }
    assert(str_views(p.args@).take(p.args.len() as int) =~= str_views(p.args@));
    let ghost before = args@;
    args.push(String::from_str(exe));
    assert(views(args@) =~= views(before).push(exe@));
    args
}

impl SelfUpdate {
    fn finish(&mut self, lines: Vec<Line>, code: u64) -> (st: Step)
        ensures
            (final(self)@, st@) == upd_finish(old(self)@, crate::plan::line_views(lines@), code),
    {
        self.stage = UpdStage::Finished;
        self.code = code;
        done_step(lines, code)
    }

    fn cleanup(&mut self, lines: Vec<Line>, code: u64) -> (st: Step)
        ensures
            (final(self)@, st@) == upd_cleanup(old(self)@, crate::plan::line_views(lines@), code),
    {
        self.stage = UpdStage::Cleanup;
        self.code = code;
        ask_step(lines, Op::Remove(self.tmp.clone()))
    }

    fn probe(&mut self, i: usize) -> (st: Step)
        ensures
            (final(self)@, st@) == upd_probe(old(self)@, i as int),
    {
        if i < self.probes.len() {
            self.stage = UpdStage::Which(i);
            ask_step(no_lines(), Op::Which(String::from_str(self.probes[i].tool)))
        } else {
            self.stage = UpdStage::Fetch;
            ask_step(one_line(line1(LineKind::Section, "Update")), Op::FetchRelease)
        }
    }

    fn on_exe(&mut self, r: &Reply) -> (st: Step)
        requires
            old(self).stage is Exe,
        ensures
            (final(self)@, st@) == upd_next(old(self)@, r@),
    {
        match outcome_reply(r) {
            Err(e) => self.finish(
                one_line(crate::plan::line1s(LineKind::Error, cat("cannot locate own binary: ", e.as_str()))),
                1,
            ),
            Ok(p) => {
                self.exe = p;
                self.probe(0)
            },
        }
    }

    fn on_which(&mut self, r: &Reply, i: usize) -> (st: Step)
        requires
            old(self).stage == UpdStage::Which(i),
        ensures
            (final(self)@, st@) == upd_next(old(self)@, r@),
    {
        if flag_reply(r) && i < self.probes.len() {
            let p = self.probes[i];
            let args = query_args_exec(&p, self.exe.as_str());
            self.stage = UpdStage::Query(i);
            ask_step(no_lines(), Op::Status { cmd: String::from_str(p.tool), args })
        } else if i < usize::MAX {
            self.probe(i + 1)
        } else {
            let n = self.probes.len();
            self.stage = UpdStage::Fetch;
            ask_step(one_line(line1(LineKind::Section, "Update")), Op::FetchRelease)
        }
    }

    fn on_query(&mut self, r: &Reply, i: usize) -> (st: Step)
        requires
            old(self).stage == UpdStage::Query(i),
        ensures
            (final(self)@, st@) == upd_next(old(self)@, r@),
    {
        if i < self.probes.len() {
            let p = self.probes[i];
            match owner_verdict(&p, ownership_of(true, code_reply(r))) {
                Some(cmd) => {
                    let mut v: Vec<Line> = Vec::new();
                    push_line(&mut v, line1(LineKind::Section, "Update"));
                    push_line(
                        &mut v,
                        crate::plan::line1s(
                            LineKind::Info,
                            cat("Installed by a package manager (", self.exe.as_str()).concat(")"),
                        ),
                    );
                    push_line(&mut v, line2(LineKind::Info, "Update it with:  ", cmd, Style::Bold));
                    assert(crate::plan::line_views(v@) =~~= managed_lines(self.exe@, cmd@));
                    self.finish(v, 0)
                },
                None => self.probe(i + 1),
            }
        } else if i < usize::MAX {
            self.probe(i + 1)
        } else {
            let n = self.probes.len();
            self.stage = UpdStage::Fetch;
            ask_step(one_line(line1(LineKind::Section, "Update")), Op::FetchRelease)
        }
    }

    fn on_fetch(&mut self, r: &Reply) -> (st: Step)
        requires
            old(self).stage is Fetch,
        ensures
            (final(self)@, st@) == upd_next(old(self)@, r@),
    {
        match release_reply(r) {
            Err(e) => self.finish(one_line(error_line("couldn't check for updates (", e.as_str(), ")")), 1),
            Ok((tag, body)) => {
                let tcs = chars_of(tag.as_str());
                let vcs = chars_of("v");
                let latest = string_of(crate::text::strip_all_prefix_exec(tcs.as_slice(), vcs.as_slice()));
                let fresh = is_newer(self.current.as_str(), latest.as_str());
                self.tag = tag;
                self.latest = latest.clone();
                if !fresh {
                    let l = crate::plan::line1s(
                        LineKind::Success,
                        cat("You're on the latest version (", self.current.as_str()).concat(")"),
                    );
                    return self.finish(one_line(l), 0);
                }
                let mut pre = one_line(avail_line_exec(self.current.as_str(), latest.as_str()));
                let mut notes = note_lines_exec(&body, self.quiet);
                let ghost a = pre@;
                let ghost b = notes@;
                pre.append(&mut notes);
                assert(crate::plan::line_views(pre@) =~= crate::plan::line_views(a) + crate::plan::line_views(b));
                if self.yes {
                    self.stage = UpdStage::Arch;
                    ask_step(pre, Op::HostArch)
                } else {
                    self.stage = UpdStage::Confirm;
                    ask_step(pre, Op::Confirm(cat("Upgrade to ", latest.as_str()).concat("? [y/N]:")))
                }
            },
        }
    }

    fn on_arch(&mut self, r: &Reply) -> (st: Step)
        requires
            old(self).stage is Arch,
        ensures
            (final(self)@, st@) == upd_next(old(self)@, r@),
    {
        let a = text_reply(r);
        match asset_arch(a) {
            None => {
                let msg = cat("no prebuilt binary for ", a).concat(
                    " \u{2014} build from source: cargo install --git https://github.com/croaky-fx/oxiclean",
                );
                self.finish(one_line(crate::plan::line1s(LineKind::Error, msg)), 1)
            },
            Some(t) => {
                self.arch = String::from_str(t);
                self.stage = UpdStage::Libc;
                ask_step(no_lines(), Op::ListDir(String::from_str("/lib")))
            },
        }
    }

    fn on_pid(&mut self, r: &Reply) -> (st: Step)
        requires
            old(self).stage is Pid,
        ensures
            (final(self)@, st@) == upd_next(old(self)@, r@),
    {
        let pid = size_reply(r);
        let name = cat("oxiclean-update.", crate::packages::dec_string(pid).as_str());
        let tmp = path_join_exec(self.tmpdir.as_str(), name.as_str());
        let url = cat("https://github.com/croaky-fx/oxiclean/releases/download/", self.tag.as_str()).concat(
            "/",
        ).concat(self.asset.as_str());
        let l = crate::plan::line1s(LineKind::Info, cat("Downloading ", self.asset.as_str()).concat("..."));
        self.pid = pid;
        self.tmp = tmp.clone();
        self.stage = UpdStage::Download;
        ask_step(one_line(l), Op::Download { url, dest: tmp })
    }

    fn on_version(&mut self, r: &Reply) -> (st: Step)
        requires
            old(self).stage is Version,
        ensures
            (final(self)@, st@) == upd_next(old(self)@, r@),
    {
        let got = text_reply(r);
        let gcs = chars_of(got);
        let lcs = chars_of(self.latest.as_str());
        if crate::text::contains_exec(gcs.as_slice(), lcs.as_slice()) {
            let a = crate::plan::line1s(LineKind::Success, cat("Verified ", self.latest.as_str()));
            let b = crate::plan::line1s(LineKind::Info, cat("Installing to ", self.exe.as_str()).concat("..."));
            self.stage = UpdStage::Writable;
            ask_step(two_lines(a, b), Op::DirWritable(parent_dir_exec(self.exe.as_str())))
        } else {
            let msg = cat("downloaded binary failed its self-check (expected ", self.latest.as_str()).concat(
                ", got '",
            ).concat(got).concat("') \u{2014} libc mismatch?");
            self.cleanup(one_line(crate::plan::line1s(LineKind::Error, msg)), 1)
        }
    }

    fn on_writable(&mut self, r: &Reply) -> (st: Step)
        requires
            old(self).stage is Writable,
        ensures
            (final(self)@, st@) == upd_next(old(self)@, r@),
    {
        let dir = parent_dir_exec(self.exe.as_str());
        let name = cat(".oxiclean.new.", crate::packages::dec_string(self.pid).as_str());
        let itmp = path_join_exec(dir.as_str(), name.as_str());
        if flag_reply(r) {
            self.stage = UpdStage::Install;
            ask_step(no_lines(), Op::Install { src: self.tmp.clone(), tmp: itmp, dst: self.exe.clone() })
        } else {
            let script = install_script(self.tmp.as_str(), itmp.as_str(), self.exe.as_str());
            let mut args: Vec<String> = Vec::new();
            args.push(String::from_str("-c"));
            args.push(script);
            assert(views(args@) =~= seq!["-c"@, script_of(self.tmp@, itmp@, self.exe@)]);
            self.stage = UpdStage::Elevated;
            ask_step(no_lines(), Op::Run { cmd: String::from_str("sh"), args, elevated: true, quiet: false })
        }
    }

    fn updated(&self) -> (l: Line)
        ensures
            l@ =~~= updated_line(self.current@, self.latest@),
    {
        crate::plan::line1s(
            LineKind::Success,
            cat("Updated ", self.current.as_str()).concat(" \u{2192} ").concat(self.latest.as_str()),
        )
    }

    fn on_rest(&mut self, r: &Reply) -> (st: Step)
        requires
            !(old(self).stage is Begin || old(self).stage is Exe || old(self).stage is Which
                || old(self).stage is Query || old(self).stage is Fetch || old(self).stage is Arch
                || old(self).stage is Pid || old(self).stage is Version || old(self).stage is Writable),
        ensures
            (final(self)@, st@) == upd_next(old(self)@, r@),
    {
        match self.stage {
            UpdStage::Confirm => if flag_reply(r) {
                self.stage = UpdStage::Arch;
                ask_step(no_lines(), Op::HostArch)
            } else {
                self.finish(one_line(line1(LineKind::Info, "Update cancelled")), 0)
            },
            UpdStage::Libc => {
                let libc = libc_of(names_reply(r));
                self.asset = cat("oxiclean-", self.arch.as_str()).concat("-linux-").concat(libc);
                self.stage = UpdStage::TempDir;
                ask_step(no_lines(), Op::TempDir)
            },
            UpdStage::TempDir => {
                self.tmpdir = String::from_str(text_reply(r));
                self.stage = UpdStage::Pid;
                ask_step(no_lines(), Op::ProcessId)
            },
            UpdStage::Download => match outcome_reply(r) {
                Err(e) => self.cleanup(one_line(error_line("download failed (", e.as_str(), ")")), 1),
                Ok(_) => {
                    self.stage = UpdStage::Head;
                    ask_step(no_lines(), Op::ReadHead(self.tmp.clone()))
                },
            },
            UpdStage::Head => if is_elf_header(data_reply(r)) {
                self.stage = UpdStage::SetExec;
                ask_step(no_lines(), Op::SetExec(self.tmp.clone()))
            } else {
                self.cleanup(one_line(line1(LineKind::Error, "downloaded file is not a valid Linux binary")), 1)
            },
            UpdStage::SetExec => {
                let mut args: Vec<String> = Vec::new();
                args.push(String::from_str("--version"));
                assert(views(args@) =~= seq!["--version"@]);
                self.stage = UpdStage::Version;
                ask_step(no_lines(), Op::Capture { cmd: self.tmp.clone(), args, trusted: false })
            },
            UpdStage::Install => match outcome_reply(r) {
                Err(e) => self.cleanup(one_line(error_line("install failed (", e.as_str(), ")")), 1),
                Ok(_) => {
                    let l = self.updated();
                    self.cleanup(one_line(l), 0)
                },
            },
            UpdStage::Elevated => if flag_reply(r) {
                let l = self.updated();
                self.cleanup(one_line(l), 0)
            } else {
                self.cleanup(one_line(line1(LineKind::Error, "install failed (privileged install failed)")), 1)
            },
            UpdStage::Cleanup => {
                self.stage = UpdStage::Finished;
                done_step(no_lines(), self.code)
            },
            _ => done_step(no_lines(), self.code),
        }
    }

    /// Feed the answer to the previous request; get the next step.
    pub fn step(&mut self, r: &Reply) -> (st: Step)
        ensures
            (final(self)@, st@) == upd_next(old(self)@, r@),
    {
        match self.stage {
            UpdStage::Begin => {
                self.stage = UpdStage::Exe;
                ask_step(no_lines(), Op::CurrentExe)
            },
            UpdStage::Exe => self.on_exe(r),
            UpdStage::Which(i) => self.on_which(r, i),
            UpdStage::Query(i) => self.on_query(r, i),
            UpdStage::Fetch => self.on_fetch(r),
            UpdStage::Arch => self.on_arch(r),
            UpdStage::Pid => self.on_pid(r),
            UpdStage::Version => self.on_version(r),
            UpdStage::Writable => self.on_writable(r),
            _ => self.on_rest(r),
        }
    }
}

} // verus!
