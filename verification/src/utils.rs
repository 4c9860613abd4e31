//! Sizes, trusted command resolution, privilege escalation plans and the
//! run-wide output settings.
use vstd::prelude::*;
use vstd::arithmetic::div_mod::{lemma_div_denominator, lemma_fundamental_div_mod};
use crate::detect::{privilege_name, Privilege};
use crate::text::{
    chars_of, find_char, find_char_exec, push_char, starts_with, starts_with_text, str_views,
    string_of, views,
};

verus! {

// ═══════════════════════════ Human-readable sizes ═══════════════════════════

pub open spec fn p2(n: nat) -> nat
    decreases n,
{
    if n == 0 {
        1
    } else {
        2 * p2((n - 1) as nat)
    }
}

/// How many low bits `b` loses when held in a 53-bit significand.
pub open spec fn sig_shift(b: nat) -> nat
    decreases b,
{
    if b < p2(53) || b == 0 {
        0
    } else {
        1 + sig_shift(b / 2)
    }
}

/// The value a double-precision float holds for `b`: `b` rounded to 53
/// significant bits, ties to even.
pub open spec fn double_value(b: nat) -> nat {
    let s = sig_shift(b);
    if s == 0 {
        b
    } else {
        let p = p2(s);
        let q = b / p;
        let r = b % p;
        let half = p / 2;
        let q2 = if r > half || (r == half && q % 2 == 1) {
            q + 1
        } else {
            q
        };
        q2 * p
    }
}

/// `v / 2^k` in hundredths, rounded to nearest, ties to even — what
/// `{:.2}` prints for that exact value.
pub open spec fn hundredths(v: nat, k: nat) -> nat {
    let d = p2(k);
    let n = v * 100;
    let q = n / d;
    let r = n % d;
    if r * 2 > d || (r * 2 == d && q % 2 == 1) {
        q + 1
    } else {
        q
    }
}

pub open spec fn digit_char(d: nat) -> char {
    if d == 0 {
        '0'
    } else if d == 1 {
        '1'
    } else if d == 2 {
        '2'
    } else if d == 3 {
        '3'
    } else if d == 4 {
        '4'
    } else if d == 5 {
        '5'
    } else if d == 6 {
        '6'
    } else if d == 7 {
        '7'
    } else if d == 8 {
        '8'
    } else {
        '9'
    }
}

/// Decimal digits of `n`.
pub open spec fn dec(n: nat) -> Seq<char>
    decreases n,
{
    if n < 10 {
        seq![digit_char(n)]
    } else {
        dec(n / 10).push(digit_char(n % 10))
    }
}

/// A count of hundredths printed as `int.dd`.
pub open spec fn fixed2(h: nat) -> Seq<char> {
    dec(h / 100) + seq!['.', digit_char((h % 100) / 10), digit_char(h % 10)]
}

/// What `format_size` prints for `bytes`: binary units with two decimals
/// from KB up, plain bytes below.
pub open spec fn size_text(bytes: nat) -> Seq<char> {
    let v = double_value(bytes);
    if v >= p2(30) {
        fixed2(hundredths(v, 30)) + " GB"@
    } else if v >= p2(20) {
        fixed2(hundredths(v, 20)) + " MB"@
    } else if v >= p2(10) {
        fixed2(hundredths(v, 10)) + " KB"@
    } else {
        dec(bytes) + " B"@
    }
}

fn digit_exec(d: u128) -> (c: char)
    requires
        d < 10,
    ensures
        c == digit_char(d as nat),
{
    if d == 0 {
        '0'
    } else if d == 1 {
        '1'
    } else if d == 2 {
        '2'
    } else if d == 3 {
        '3'
    } else if d == 4 {
        '4'
    } else if d == 5 {
        '5'
    } else if d == 6 {
        '6'
    } else if d == 7 {
        '7'
    } else if d == 8 {
        '8'
    } else {
        '9'
    }
}

/// Decimal digits of `n`.
pub fn dec_exec(n: u128) -> (r: Vec<char>)
    ensures
        r@ == dec(n as nat),
    decreases n,
{
    if n < 10 {
        let mut r = Vec::new();
        r.push(digit_exec(n));
        r
    } else {
        let mut r = dec_exec(n / 10);
        r.push(digit_exec(n % 10));
        r
    }
}

proof fn lemma_p2_values()
    ensures
        p2(10) == 1024,
        p2(20) == 1048576,
        p2(30) == 1073741824,
        p2(53) == 9007199254740992,
{
    reveal_with_fuel(p2, 54);
}

proof fn lemma_p2_pos(n: nat)
    ensures
        p2(n) >= 1,
    decreases n,
{
    if n > 0 {
        lemma_p2_pos((n - 1) as nat);
    }
}

proof fn lemma_p2_mono(a: nat, b: nat)
    requires
        a <= b,
    ensures
        p2(a) <= p2(b),
    decreases b,
{
    if a < b {
        lemma_p2_mono(a, (b - 1) as nat);
    }
}

/// The double-precision value of `b`, as an exact integer.
fn double_value_exec(b: u64) -> (v: u128)
    ensures
        v == double_value(b as nat),
        v <= 0x1_0000_0000_0000_0000,
{
    proof {
        lemma_p2_values();
        reveal_with_fuel(p2, 12);
    }
    let mut t: u64 = b;
    let mut s: u32 = 0;
    let mut p: u64 = 1;
    assert(b / 1 == b);
    while t >= 9007199254740992
        invariant
            s <= 11,
            1 <= p <= 2048,
            p == p2(s as nat),
            t == (b as int) / (p as int),
            sig_shift(b as nat) == s + sig_shift(t as nat),
            p2(53) == 9007199254740992,
            p2(10) == 1024,
            p2(11) == 2048,
        decreases t,
    {
        proof {
            lemma_fundamental_div_mod(b as int, p as int);
            assert(t * p <= b) by (nonlinear_arith)
                requires
                    t == (b as int) / (p as int),
                    b == p * ((b as int) / (p as int)) + (b as int) % (p as int),
                    (b as int) % (p as int) >= 0,
            ;
            assert(p < 2048) by (nonlinear_arith)
                requires
                    t >= 9007199254740992,
                    t * p <= b,
                    b < 0x1_0000_0000_0000_0000,
            ;
            if s >= 11 {
                lemma_p2_mono(11, s as nat);
            }
            lemma_p2_mono(s as nat, 10);
            lemma_div_denominator(b as int, p as int, 2);
            assert(p2((s + 1) as nat) == 2 * p2(s as nat));
        }
        t = t / 2;
        s = s + 1;
        p = p * 2;
    }
    if s == 0 {
        return b as u128;
    }
    let q = b / p;
    let r = b % p;
    let half = p / 2;
    let q2: u128 = if r > half || (r == half && q % 2 == 1) {
        q as u128 + 1
    } else {
        q as u128
    };
    assert(q == t);
    assert(q2 * p <= 0x1_0000_0000_0000_0000) by (nonlinear_arith)
        requires
            q2 <= q + 1,
            q < 9007199254740992,
            p <= 2048,
    ;
    q2 * (p as u128)
}

fn hundredths_exec(v: u128, k: u32, d: u128) -> (h: u128)
    requires
        v <= 0x1_0000_0000_0000_0000,
        d == p2(k as nat),
        d >= 2,
        d <= 0x4000_0000,
    ensures
        h == hundredths(v as nat, k as nat),
{
    let n = v * 100;
    let q = n / d;
    let r = n % d;
    assert(r < d);
    assert(q <= n) by (nonlinear_arith)
        requires
            q == n / d,
            d >= 1,
            n >= 0,
    ;
    if r * 2 > d || (r * 2 == d && q % 2 == 1) {
        q + 1
    } else {
        q
    }
}

fn push_all(out: &mut String, cs: &[char])
    ensures
        final(out)@ == old(out)@ + cs@,
{
    let mut i: usize = 0;
    while i < cs.len()
        invariant
            0 <= i <= cs.len(),
            out@ == old(out)@ + cs@.take(i as int),
        decreases cs.len() - i,
    {
        push_char(out, cs[i]);
        assert(cs@.take(i + 1) =~= cs@.take(i as int).push(cs@[i as int]));
        i = i + 1;
    }
    assert(cs@.take(cs.len() as int) =~= cs@);
}

fn fixed2_exec(h: u128) -> (r: Vec<char>)
    ensures
        r@ == fixed2(h as nat),
{
    let mut r = dec_exec(h / 100);
    r.push('.');
    r.push(digit_exec((h % 100) / 10));
    r.push(digit_exec(h % 10));
    r
}

/// Format bytes as a human-readable size: `512 B`, `1.50 KB`, `1024.00 MB`.
pub fn format_size(bytes: u64) -> (r: String)
    ensures
        r@ == size_text(bytes as nat),
{
    proof {
        lemma_p2_values();
    }
    let v = double_value_exec(bytes);
    let mut out = String::new();
    if v >= 1073741824 {
        let t = fixed2_exec(hundredths_exec(v, 30, 1073741824));
        push_all(&mut out, t.as_slice());
        push_all(&mut out, &[' ', 'G', 'B']);
        proof {
            reveal_strlit(" GB");
        }
    } else if v >= 1048576 {
        let t = fixed2_exec(hundredths_exec(v, 20, 1048576));
        push_all(&mut out, t.as_slice());
        push_all(&mut out, &[' ', 'M', 'B']);
        proof {
            reveal_strlit(" MB");
        }
    } else if v >= 1024 {
        let t = fixed2_exec(hundredths_exec(v, 10, 1024));
        push_all(&mut out, t.as_slice());
        push_all(&mut out, &[' ', 'K', 'B']);
        proof {
            reveal_strlit(" KB");
        }
    } else {
        let t = dec_exec(bytes as u128);
        push_all(&mut out, t.as_slice());
        push_all(&mut out, &[' ', 'B']);
        proof {
            reveal_strlit(" B");
        }
    }
    assert(out@ =~= size_text(bytes as nat));
    out
}

// ═══════════════════════════ Trusted binary resolution ═══════════════════════════

/// Directories a privileged command may come from. `$PATH` is never
/// consulted; these are root-writable only. The Nix default profile is the
/// system (root-owned) one; per-user profiles are deliberately absent.
pub open spec fn trusted_dirs() -> Seq<&'static str> {
    seq![
        "/usr/bin",
        "/bin",
        "/usr/sbin",
        "/sbin",
        "/usr/local/bin",
        "/usr/local/sbin",
        "/nix/var/nix/profiles/default/bin",
    ]
}

/// The trusted directory list.
pub fn trusted_bin_dirs() -> (v: Vec<&'static str>)
    ensures
        v@ == trusted_dirs(),
{
    let v = vec![
        "/usr/bin",
        "/bin",
        "/usr/sbin",
        "/sbin",
        "/usr/local/bin",
        "/usr/local/sbin",
        "/nix/var/nix/profiles/default/bin",
    ];
    assert(v@ =~= trusted_dirs());
    v
}

/// `dirs` joined with `:`.
pub open spec fn join_colon(dirs: Seq<Seq<char>>) -> Seq<char>
    decreases dirs.len(),
{
    if dirs.len() == 0 {
        seq![]
    } else if dirs.len() == 1 {
        dirs[0]
    } else {
        join_colon(dirs.drop_last()) + seq![':'] + dirs.last()
    }
}

/// The `PATH` handed to every child: the trusted directories only.
pub fn trusted_path() -> (r: String)
    ensures
        r@ == join_colon(str_views(trusted_dirs())),
{
    let dirs = trusted_bin_dirs();
    let mut out = String::new();
    let mut i: usize = 0;
    while i < dirs.len()
        invariant
            0 <= i <= dirs.len(),
            dirs@ == trusted_dirs(),
            out@ == join_colon(str_views(dirs@).take(i as int)),
        decreases dirs.len() - i,
    {
        let d = chars_of(dirs[i]);
        if i > 0 {
            push_char(&mut out, ':');
        }
        push_all(&mut out, d.as_slice());
        assert(str_views(dirs@).take(i + 1).drop_last() =~= str_views(dirs@).take(i as int));
        proof {
            if i == 0 {
                assert(out@ =~= str_views(dirs@).take(1)[0]);
            } else {
                assert(out@ =~= join_colon(str_views(dirs@).take(i as int)) + seq![':']
                    + str_views(dirs@).take(i + 1).last());
            }
        }
        i = i + 1;
    }
    assert(str_views(dirs@).take(dirs.len() as int) =~= str_views(dirs@));
    out
}

/// `dir` joined with a bare command name.
pub open spec fn in_dir(dir: Seq<char>, cmd: Seq<char>) -> Seq<char> {
    dir + seq!['/'] + cmd
}

/// The first trusted directory holding `cmd` among the known `files`.
pub open spec fn first_present(dirs: Seq<Seq<char>>, cmd: Seq<char>, files: Seq<Seq<char>>) -> Option<Seq<char>>
    decreases dirs.len(),
{
    if dirs.len() == 0 {
        None
    } else if files.contains(in_dir(dirs[0], cmd)) {
        Some(in_dir(dirs[0], cmd))
    } else {
        first_present(dirs.drop_first(), cmd, files)
    }
}

/// Where `cmd` resolves, given the absolute paths known to be regular files:
/// an absolute command must itself be a file; a name holding `/` otherwise
/// never resolves; a bare name is looked up in the trusted directories only.
pub open spec fn resolve(cmd: Seq<char>, files: Seq<Seq<char>>) -> Option<Seq<char>> {
    if starts_with(cmd, "/"@) {
        if files.contains(cmd) {
            Some(cmd)
        } else {
            None
        }
    } else if find_char(cmd, '/').is_some() {
        None
    } else {
        first_present(str_views(trusted_dirs()), cmd, files)
    }
}

/// Every path `resolve` may look at for `cmd`.
pub open spec fn candidates(cmd: Seq<char>) -> Seq<Seq<char>> {
    if starts_with(cmd, "/"@) {
        seq![cmd]
    } else if find_char(cmd, '/').is_some() {
        seq![]
    } else {
        str_views(trusted_dirs()).map_values(|d: Seq<char>| in_dir(d, cmd))
    }
}

fn contains_text_in(files: &Vec<String>, p: &[char]) -> (b: bool)
    ensures
        b == views(files@).contains(p@),
{
    let mut i: usize = 0;
    while i < files.len()
        invariant
            0 <= i <= files.len(),
            forall|k: int| 0 <= k < i ==> files@[k]@ != p@,
        decreases files.len() - i,
    {
        let f = chars_of(files[i].as_str());
        if crate::text::eq_chars(f.as_slice(), p) {
            assert(views(files@)[i as int] == p@);
            return true;
        }
        i = i + 1;
    }
    assert forall|k: int| 0 <= k < views(files@).len() implies views(files@)[k] != p@ by {}
    false
}

fn dir_join(dir: &str, cmd: &[char]) -> (r: Vec<char>)
    ensures
        r@ == in_dir(dir@, cmd@),
{
    let mut r = chars_of(dir);
    r.push('/');
    let mut i: usize = 0;
    let ghost base = r@;
    while i < cmd.len()
        invariant
            0 <= i <= cmd.len(),
            r@ == base + cmd@.take(i as int),
        decreases cmd.len() - i,
    {
        r.push(cmd[i]);
        assert(cmd@.take(i + 1) =~= cmd@.take(i as int).push(cmd@[i as int]));
        i = i + 1;
    }
    assert(cmd@.take(cmd.len() as int) =~= cmd@);
    r
}

/// The paths a resolution of `cmd` may look at; callers probe them and pass
/// the ones that are regular files to [`resolve_trusted`].
pub fn trusted_candidates(cmd: &str) -> (r: Vec<String>)
    ensures
        views(r@) =~= candidates(cmd@),
{
    let c = chars_of(cmd);
    let mut r: Vec<String> = Vec::new();
    if starts_with_text(c.as_slice(), "/") {
        r.push(String::from_str(cmd));
        return r;
    }
    if find_char_exec(c.as_slice(), '/').is_some() {
        return r;
    }
    let dirs = trusted_bin_dirs();
    let mut i: usize = 0;
    while i < dirs.len()
        invariant
            0 <= i <= dirs.len(),
            c@ == cmd@,
            dirs@ == trusted_dirs(),
            !starts_with(cmd@, "/"@),
            find_char(cmd@, '/').is_none(),
            views(r@) =~= str_views(dirs@).take(i as int).map_values(|d: Seq<char>| in_dir(d, cmd@)),
        decreases dirs.len() - i,
    {
        let p = dir_join(dirs[i], c.as_slice());
        let ghost before = r@;
        r.push(string_of(p.as_slice()));
        assert(views(r@) =~= views(before).push(p@));
        assert(str_views(dirs@).take(i + 1) =~= str_views(dirs@).take(i as int).push(dirs@[i as int]@));
        i = i + 1;
    }
    assert(str_views(dirs@).take(dirs.len() as int) =~= str_views(dirs@));
    r
}

/// Resolve `cmd` to an absolute path inside the trusted directories, given
/// `files`, the absolute paths known to be regular files. `None` means "not
/// available": refusing beats running something unverified as root.
pub fn resolve_trusted(cmd: &str, files: &Vec<String>) -> (r: Option<String>)
    ensures
        match resolve(cmd@, views(files@)) {
            Some(p) => r.is_some() && r.unwrap()@ == p,
            None => r.is_none(),
        },
{
    let c = chars_of(cmd);
    if starts_with_text(c.as_slice(), "/") {
        if contains_text_in(files, c.as_slice()) {
            return Some(String::from_str(cmd));
        }
        return None;
    }
    if find_char_exec(c.as_slice(), '/').is_some() {
        return None;
    }
    let dirs = trusted_bin_dirs();
    let mut i: usize = 0;
    assert(str_views(dirs@).skip(0) =~= str_views(dirs@));
    while i < dirs.len()
        invariant
            0 <= i <= dirs.len(),
            c@ == cmd@,
            dirs@ == trusted_dirs(),
            !starts_with(cmd@, "/"@),
            find_char(cmd@, '/').is_none(),
            resolve(cmd@, views(files@)) == first_present(
                str_views(dirs@).skip(i as int),
                cmd@,
                views(files@),
            ),
        decreases dirs.len() - i,
    {
        let ghost rest = str_views(dirs@).skip(i as int);
        assert(rest[0] == dirs@[i as int]@);
        assert(rest.drop_first() =~= str_views(dirs@).skip(i + 1));
        let p = dir_join(dirs[i], c.as_slice());
        if contains_text_in(files, p.as_slice()) {
            return Some(string_of(p.as_slice()));
        }
        i = i + 1;
    }
    None
}

/// Availability check for a command we intend to run with privileges; agrees
/// with what [`elevate`] accepts.
pub fn which_trusted(cmd: &str, files: &Vec<String>) -> (b: bool)
    ensures
        b == resolve(cmd@, views(files@)).is_some(),
{
    resolve_trusted(cmd, files).is_some()
}

// ═══════════════════════════ Process plans ═══════════════════════════

/// How a child process's output is handled.
#[derive(Debug, Clone, Copy, PartialEq, Eq, Structural)]
pub enum RunMode {
    /// Output goes straight to the terminal.
    Inherit,
    /// Output is captured; stderr is replayed only when the command fails.
    Quiet,
    /// Stdout is captured and handed back.
    Capture,
}

/// A process to start: absolute program path and its arguments. Every child
/// also receives the trusted `PATH`.
pub struct Spawn {
    pub program: String,
    pub args: Vec<String>,
    pub mode: RunMode,
}

pub struct SpawnView {
    pub program: Seq<char>,
    pub args: Seq<Seq<char>>,
    pub mode: RunMode,
}

impl View for Spawn {
    type V = SpawnView;

    open spec fn view(&self) -> SpawnView {
        SpawnView { program: self.program@, args: views(self.args@), mode: self.mode }
    }
}

pub open spec fn spawn_view(program: Seq<char>, args: Seq<Seq<char>>, mode: RunMode) -> SpawnView {
    SpawnView { program, args, mode }
}

/// What running `cmd args` with `privilege` starts: `Root` runs the trusted
/// command directly; `Sudo`/`Doas` run the trusted helper with the trusted
/// command as its first argument; `Unavailable` — or any name that does not
/// resolve — starts nothing.
pub open spec fn elevation(
    privilege: Privilege,
    cmd: Seq<char>,
    args: Seq<Seq<char>>,
    files: Seq<Seq<char>>,
    mode: RunMode,
) -> Option<SpawnView> {
    match resolve(cmd, files) {
        None => None,
        Some(target) => match privilege {
            Privilege::Root => Some(spawn_view(target, args, mode)),
            Privilege::Sudo | Privilege::Doas => match resolve(privilege_name(privilege), files) {
                Some(helper) => Some(spawn_view(helper, seq![target] + args, mode)),
                None => None,
            },
            Privilege::Unavailable => None,
        },
    }
}

fn strings_of(args: &[&str]) -> (v: Vec<String>)
    ensures
        views(v@) =~= str_views(args@),
{
    let mut v: Vec<String> = Vec::new();
    let mut i: usize = 0;
    while i < args.len()
        invariant
            0 <= i <= args.len(),
            views(v@) =~= str_views(args@).take(i as int),
        decreases args.len() - i,
    {
        let ghost before = v@;
        v.push(String::from_str(args[i]));
        assert(views(v@) =~= views(before).push(args@[i as int]@));
        assert(str_views(args@).take(i + 1) =~= str_views(args@).take(i as int).push(args@[i as int]@));
        i = i + 1;
    }
    assert(str_views(args@).take(args.len() as int) =~= str_views(args@));
    v
}

fn plan(privilege: Privilege, cmd: &str, args: &[&str], files: &Vec<String>, mode: RunMode) -> (r: Option<Spawn>)
    ensures
        match elevation(privilege, cmd@, str_views(args@), views(files@), mode) {
            Some(v) => r.is_some() && r.unwrap()@ == v,
            None => r.is_none(),
        },
{
    let target = match resolve_trusted(cmd, files) {
        Some(t) => t,
        None => return None,
    };
    match privilege {
        Privilege::Root => Some(Spawn { program: target, args: strings_of(args), mode }),
        Privilege::Sudo | Privilege::Doas => {
            let helper = match resolve_trusted(privilege.name(), files) {
                Some(h) => h,
                None => return None,
            };
            let rest = strings_of(args);
            let mut all: Vec<String> = Vec::new();
            let ghost tv = target@;
            all.push(target);
            let mut i: usize = 0;
            while i < rest.len()
                invariant
                    0 <= i <= rest.len(),
                    views(all@) =~= seq![tv] + views(rest@).take(i as int),
                decreases rest.len() - i,
            {
                let ghost before = all@;
                all.push(rest[i].clone());
                assert(views(all@) =~= views(before).push(rest@[i as int]@));
                assert(views(rest@).take(i + 1) =~= views(rest@).take(i as int).push(rest@[i as int]@));
                i = i + 1;
            }
            assert(views(rest@).take(rest.len() as int) =~= views(rest@));
            Some(Spawn { program: helper, args: all, mode })
        },
        Privilege::Unavailable => None,
    }
}

/// Plan running `cmd` with the requested privilege helper, output visible.
/// Both the helper and the command are resolved in the trusted directories,
/// so neither is looked up in the caller's `$PATH`.
pub fn elevate(privilege: Privilege, cmd: &str, args: &[&str], files: &Vec<String>) -> (r: Option<Spawn>)
    ensures
        match elevation(privilege, cmd@, str_views(args@), views(files@), RunMode::Inherit) {
            Some(v) => r.is_some() && r.unwrap()@ == v,
            None => r.is_none(),
        },
{
    plan(privilege, cmd, args, files, RunMode::Inherit)
}

/// [`elevate`] with the command's chatter captured.
pub fn elevate_quiet(privilege: Privilege, cmd: &str, args: &[&str], files: &Vec<String>) -> (r: Option<Spawn>)
    ensures
        match elevation(privilege, cmd@, str_views(args@), views(files@), RunMode::Quiet) {
            Some(v) => r.is_some() && r.unwrap()@ == v,
            None => r.is_none(),
        },
{
    plan(privilege, cmd, args, files, RunMode::Quiet)
}

/// [`elevate`] with the helper detected at startup.
pub fn sudo(settings: &Settings, cmd: &str, args: &[&str], files: &Vec<String>) -> (r: Option<Spawn>)
    ensures
        match elevation(settings.privilege_or_default(), cmd@, str_views(args@), views(files@), RunMode::Inherit) {
            Some(v) => r.is_some() && r.unwrap()@ == v,
            None => r.is_none(),
        },
{
    elevate(settings.current_privilege(), cmd, args, files)
}

/// [`elevate_quiet`] with the helper detected at startup.
pub fn sudo_quiet(settings: &Settings, cmd: &str, args: &[&str], files: &Vec<String>) -> (r: Option<Spawn>)
    ensures
        match elevation(settings.privilege_or_default(), cmd@, str_views(args@), views(files@), RunMode::Quiet) {
            Some(v) => r.is_some() && r.unwrap()@ == v,
            None => r.is_none(),
        },
{
    elevate_quiet(settings.current_privilege(), cmd, args, files)
}

/// Capture the output of a command resolved in the trusted directories, for
/// output that is acted on with root behind it. `None`: not available.
pub fn capture_trusted(cmd: &str, args: &[&str], files: &Vec<String>) -> (r: Option<Spawn>)
    ensures
        match resolve(cmd@, views(files@)) {
            Some(p) => r.is_some() && r.unwrap()@ == spawn_view(p, str_views(args@), RunMode::Capture),
            None => r.is_none(),
        },
{
    match resolve_trusted(cmd, files) {
        Some(p) => Some(Spawn { program: p, args: strings_of(args), mode: RunMode::Capture }),
        None => None,
    }
}

/// The outcome of an attempt that may or may not need a process.
pub enum Attempt {
    /// Decided without starting anything.
    Settled(bool),
    /// Start this process; its success is the outcome.
    Run(Spawn),
}

/// How credentials for `privilege` are cached: `sudo -v`, or `doas true`
/// (doas has no equivalent of `-v`); root needs nothing; without a helper the
/// attempt fails. The helper is resolved in the trusted directories, since
/// this is the call that prompts for the password.
pub fn acquire_privilege(privilege: Privilege, files: &Vec<String>) -> (a: Attempt)
    ensures
        match privilege {
            Privilege::Root => a == Attempt::Settled(true),
            Privilege::Unavailable => a == Attempt::Settled(false),
            Privilege::Sudo => match resolve("sudo"@, views(files@)) {
                Some(p) => a is Run && a->Run_0@ == spawn_view(p, seq!["-v"@], RunMode::Inherit),
                None => a == Attempt::Settled(false),
            },
            Privilege::Doas => match resolve("doas"@, views(files@)) {
                Some(p) => a is Run && a->Run_0@ == spawn_view(p, seq!["true"@], RunMode::Inherit),
                None => a == Attempt::Settled(false),
            },
        },
{
    match privilege {
        Privilege::Root => Attempt::Settled(true),
        Privilege::Sudo => match resolve_trusted("sudo", files) {
            Some(p) => {
                let mut args: Vec<String> = Vec::new();
                args.push(String::from_str("-v"));
                assert(views(args@) =~= seq!["-v"@]);
                Attempt::Run(Spawn { program: p, args, mode: RunMode::Inherit })
            },
            None => Attempt::Settled(false),
        },
        Privilege::Doas => match resolve_trusted("doas", files) {
            Some(p) => {
                let mut args: Vec<String> = Vec::new();
                args.push(String::from_str("true"));
                assert(views(args@) =~= seq!["true"@]);
                Attempt::Run(Spawn { program: p, args, mode: RunMode::Inherit })
            },
            None => Attempt::Settled(false),
        },
        Privilege::Unavailable => Attempt::Settled(false),
    }
}

// ═══════════════════════════ Run-wide settings ═══════════════════════════

/// Flags fixed once at startup. Each is set at most once: a second `set_*`
/// call leaves the first value in place.
pub struct Settings {
    pub privilege: Option<Privilege>,
    pub quiet: Option<bool>,
    pub json: Option<bool>,
    pub verbose: Option<bool>,
}

/// The kind of a report line, which decides when it is shown.
#[derive(Debug, Clone, Copy, PartialEq, Eq, Structural)]
pub enum LineKind {
    Banner,
    Section,
    Success,
    Warning,
    Error,
    Info,
    Skip,
    /// A bare line printed as is (list items, tables).
    Plain,
}

pub open spec fn set_once<T>(cur: Option<T>, v: T) -> Option<T> {
    match cur {
        Some(x) => Some(x),
        None => Some(v),
    }
}

impl Settings {
    /// Nothing set yet.
    pub fn new() -> (s: Settings)
        ensures
            s.privilege.is_none() && s.quiet.is_none() && s.json.is_none() && s.verbose.is_none(),
    {
        Settings { privilege: None, quiet: None, json: None, verbose: None }
    }

    pub open spec fn privilege_or_default(&self) -> Privilege {
        match self.privilege {
            Some(p) => p,
            None => Privilege::Sudo,
        }
    }

    pub open spec fn flag(o: Option<bool>) -> bool {
        match o {
            Some(b) => b,
            None => false,
        }
    }

    /// Record the detected privilege helper; later calls are ignored.
    pub fn set_privilege(&mut self, p: Privilege)
        ensures
            final(self).privilege == set_once(old(self).privilege, p),
            final(self).quiet == old(self).quiet,
            final(self).json == old(self).json,
            final(self).verbose == old(self).verbose,
    {
        if self.privilege.is_none() {
            self.privilege = Some(p);
        }
    }

    /// Enable quiet mode; later calls are ignored.
    pub fn set_quiet(&mut self, q: bool)
        ensures
            final(self).quiet == set_once(old(self).quiet, q),
            final(self).privilege == old(self).privilege,
            final(self).json == old(self).json,
            final(self).verbose == old(self).verbose,
    {
        if self.quiet.is_none() {
            self.quiet = Some(q);
        }
    }

    /// Enable JSON mode; later calls are ignored.
    pub fn set_json(&mut self, j: bool)
        ensures
            final(self).json == set_once(old(self).json, j),
            final(self).privilege == old(self).privilege,
            final(self).quiet == old(self).quiet,
            final(self).verbose == old(self).verbose,
    {
        if self.json.is_none() {
            self.json = Some(j);
        }
    }

    /// Enable verbose mode; later calls are ignored.
    pub fn set_verbose(&mut self, v: bool)
        ensures
            final(self).verbose == set_once(old(self).verbose, v),
            final(self).privilege == old(self).privilege,
            final(self).quiet == old(self).quiet,
            final(self).json == old(self).json,
    {
        if self.verbose.is_none() {
            self.verbose = Some(v);
        }
    }

    /// True if `--quiet` was set.
    pub fn is_quiet(&self) -> (b: bool)
        ensures
            b == Self::flag(self.quiet),
    {
        match self.quiet {
            Some(b) => b,
            None => false,
        }
    }

    /// True if `--json` was set.
    pub fn is_json(&self) -> (b: bool)
        ensures
            b == Self::flag(self.json),
    {
        match self.json {
            Some(b) => b,
            None => false,
        }
    }

    /// True if `--verbose` was set.
    pub fn is_verbose(&self) -> (b: bool)
        ensures
            b == Self::flag(self.verbose),
    {
        match self.verbose {
            Some(b) => b,
            None => false,
        }
    }

    /// The helper detected at startup, or `Sudo` if none was recorded.
    pub fn current_privilege(&self) -> (p: Privilege)
        ensures
            p == self.privilege_or_default(),
    {
        match self.privilege {
            Some(p) => p,
            None => Privilege::Sudo,
        }
    }

    /// True when no human-facing output may be printed at all (JSON mode).
    pub fn silent(&self) -> (b: bool)
        ensures
            b == Self::flag(self.json),
    {
        self.is_json()
    }

    pub open spec fn shows_spec(&self, kind: LineKind) -> bool {
        match kind {
            LineKind::Banner | LineKind::Info | LineKind::Skip => !Self::flag(self.quiet)
                && !Self::flag(self.json),
            LineKind::Section | LineKind::Success | LineKind::Warning | LineKind::Error => !Self::flag(
                self.json,
            ),
            LineKind::Plain => true,
        }
    }

    /// Whether a line of `kind` is printed: JSON mode silences every report
    /// line; quiet mode also hides the banner, info and skip lines. Bare
    /// lines are always printed.
    pub fn shows(&self, kind: LineKind) -> (b: bool)
        ensures
            b == self.shows_spec(kind),
    {
        match kind {
            LineKind::Banner | LineKind::Info | LineKind::Skip => !self.is_quiet() && !self.silent(),
            LineKind::Section | LineKind::Success | LineKind::Warning | LineKind::Error => !self.silent(),
            LineKind::Plain => true,
        }
    }

    /// Whether a "quiet" command really captures its output: `--verbose`
    /// restores the raw output.
    pub fn effective_mode(&self, mode: RunMode) -> (m: RunMode)
        ensures
            m == (if mode == RunMode::Quiet && Self::flag(self.verbose) {
                RunMode::Inherit
            } else {
                mode
            }),
    {
        if mode == RunMode::Quiet && self.is_verbose() {
            RunMode::Inherit
        } else {
            mode
        }
    }
}


/// A confirmation answer reads as yes: trimmed and lower-cased, it is `y`
/// or `yes`.
pub open spec fn affirmative(input: Seq<char>) -> bool {
    let t = crate::text::unicode_lowercase(crate::text::trim(input));
    t == "y"@ || t == "yes"@
}

/// Read the answer typed at a `[y/N]` prompt.
pub fn is_affirmative(input: &str) -> (b: bool)
    ensures
        b == affirmative(input@),
{
    let cs = crate::text::chars_of(input);
    let t = crate::text::trim_exec(cs.as_slice());
    let ts = crate::text::string_of(t);
    let low = crate::text::to_lowercase(ts.as_str());
    is_yes(low.as_str())
}

/// An answer, already trimmed and lower-cased, that means yes.
pub fn is_yes(answer: &str) -> (b: bool)
    ensures
        b == (answer@ == "y"@ || answer@ == "yes"@),
{
    let lc = crate::text::chars_of(answer);
    crate::text::is_text(lc.as_slice(), "y") || crate::text::is_text(lc.as_slice(), "yes")
}

// ═══════════════════════════ Effective user ═══════════════════════════

/// The fields after `Uid:` on a `/proc/self/status` line.
pub open spec fn uid_fields(line: Seq<char>) -> Seq<Seq<char>> {
    crate::text::words(line.skip(4))
}

/// The first `Uid:` line that lists an effective uid decides: root when that
/// uid (the second field: real, effective, saved, fs) is `0`.
pub open spec fn status_root(ls: Seq<Seq<char>>) -> Option<bool>
    decreases ls.len(),
{
    if ls.len() == 0 {
        None
    } else if starts_with(ls[0], "Uid:"@) && uid_fields(ls[0]).len() >= 2 {
        Some(uid_fields(ls[0])[1] == "0"@)
    } else {
        status_root(ls.drop_first())
    }
}

/// Whether the process runs as root, read from `/proc/self/status` content
/// rather than from an `id` binary that could be shadowed. `None` when no
/// `Uid:` line gives an effective uid.
pub fn root_from_status(status: &str) -> (r: Option<bool>)
    ensures
        r == status_root(crate::text::lines(status@)),
{
    let cs = chars_of(status);
    let ls = crate::text::lines_exec(cs.as_slice());
    let mut i: usize = 0;
    assert(crate::text::cviews(ls@).skip(0) =~= crate::text::cviews(ls@));
    while i < ls.len()
        invariant
            0 <= i <= ls.len(),
            crate::text::cviews(ls@) == crate::text::lines(status@),
            status_root(crate::text::lines(status@)) == status_root(
                crate::text::cviews(ls@).skip(i as int),
            ),
        decreases ls.len() - i,
    {
        let ghost rest = crate::text::cviews(ls@).skip(i as int);
        assert(rest[0] == ls@[i as int]@);
        assert(rest.drop_first() =~= crate::text::cviews(ls@).skip(i + 1));
        let line = ls[i].as_slice();
        if starts_with_text(line, "Uid:") {
            proof {
                reveal_strlit("Uid:");
            }
            assert(line@.len() >= 4);
            let tail = &line[4..line.len()];
            assert(tail@ =~= line@.skip(4));
            let f = crate::text::words_exec(tail);
            if f.len() >= 2 {
                assert(crate::text::cviews(f@)[1] == f@[1]@);
                return Some(crate::text::is_text(f[1].as_slice(), "0"));
            }
        }
        i = i + 1;
    }
    None
}

// ═══════════════════════════ Failed commands ═══════════════════════════

/// The lines of `ls` with something other than whitespace on them.
pub open spec fn nonblank_lines(ls: Seq<Seq<char>>) -> Seq<Seq<char>>
    decreases ls.len(),
{
    if ls.len() == 0 {
        seq![]
    } else {
        nonblank_lines(ls.drop_last()) + if crate::text::trim(ls.last()).len() > 0 {
            seq![ls.last()]
        } else {
            seq![]
        }
    }
}

/// At most the first five of `s`.
pub open spec fn first_five(s: Seq<Seq<char>>) -> Seq<Seq<char>> {
    if s.len() <= 5 {
        s
    } else {
        s.take(5)
    }
}

/// What is shown of a failed command's error output: its first five
/// non-blank lines.
pub fn stderr_excerpt(text: &str) -> (v: Vec<String>)
    ensures
        views(v@) == first_five(nonblank_lines(crate::text::lines(text@))),
{
    let cs = chars_of(text);
    let ls = crate::text::lines_exec(cs.as_slice());
    let mut v: Vec<String> = Vec::new();
    let mut i: usize = 0;
    assert(crate::text::cviews(ls@).take(0) =~= seq![]);
    assert(views(v@) =~= seq![]);
    while i < ls.len()
        invariant
            0 <= i <= ls.len(),
            crate::text::cviews(ls@) == crate::text::lines(text@),
            views(v@) == first_five(nonblank_lines(crate::text::cviews(ls@).take(i as int))),
            v@.len() <= 5,
        decreases ls.len() - i,
    {
        let ghost all = crate::text::cviews(ls@);
        let ghost s = nonblank_lines(all.take(i as int));
        assert(all.take(i + 1).drop_last() =~= all.take(i as int));
        assert(all.take(i + 1).last() == ls@[i as int]@);
        let line = ls[i].as_slice();
        let keep = crate::text::trim_exec(line).len() > 0;
        let ghost e: Seq<Seq<char>> = if keep {
            seq![line@]
        } else {
            seq![]
        };
        assert(nonblank_lines(all.take(i + 1)) == s + e);
        assert(views(v@).len() == v@.len());
        if v.len() < 5 {
            assert(s.len() < 5);
            if keep {
                let ghost before = v@;
                v.push(string_of(line));
                assert(views(v@) =~= views(before).push(line@));
            }
            assert(views(v@) =~= s + e);
        } else {
            assert(s.len() >= 5);
            assert((s + e).take(5) =~= s.take(5));
        }
        i = i + 1;
    }
    assert(crate::text::cviews(ls@).take(ls.len() as int) =~= crate::text::cviews(ls@));
    v
}

} // verus!
