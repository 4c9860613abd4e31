//! The vocabulary shared by every cleanup operation.
//!
//! A cleanup operation alternates outside work (running a command, measuring
//! a directory, asking the user) with decisions. Each operation is a state
//! machine: `step` takes the answer to the previous request and returns the
//! report lines to print plus the next request, or the final freed-byte
//! count. The caller performs each request and feeds the answer back.
use vstd::prelude::*;
use crate::text::views;
use crate::utils::LineKind;

verus! {

/// Presentation of a piece of a report line.
#[derive(Debug, Clone, Copy, PartialEq, Eq, Structural)]
pub enum Style {
    Plain,
    Green,
    Yellow,
    Dimmed,
    Blue,
    CyanBold,
    GreenBold,
    Bold,
    White,
    WhiteBold,
    Cyan,
    CyanDimmed,
    YellowBold,
    RedBold,
}

/// A styled piece of a report line.
pub struct Part {
    pub text: String,
    pub style: Style,
}

/// One report line: its kind and its pieces, printed back to back.
pub struct Line {
    pub kind: LineKind,
    pub parts: Vec<Part>,
}

#[verifier::ext_equal]
pub struct PartV {
    pub text: Seq<char>,
    pub style: Style,
}

#[verifier::ext_equal]
pub struct LineV {
    pub kind: LineKind,
    pub parts: Seq<PartV>,
}

impl View for Part {
    type V = PartV;

    open spec fn view(&self) -> PartV {
        PartV { text: self.text@, style: self.style }
    }
}

pub open spec fn part_views(v: Seq<Part>) -> Seq<PartV> {
    v.map_values(|p: Part| p@)
}

impl View for Line {
    type V = LineV;

    open spec fn view(&self) -> LineV {
        LineV { kind: self.kind, parts: part_views(self.parts@) }
    }
}

pub open spec fn line_views(v: Seq<Line>) -> Seq<LineV> {
    v.map_values(|l: Line| l@)
}

pub open spec fn pv(text: Seq<char>, style: Style) -> PartV {
    PartV { text, style }
}

/// A line of one plain piece.
pub open spec fn l1(kind: LineKind, a: Seq<char>) -> LineV {
    LineV { kind, parts: seq![pv(a, Style::Plain)] }
}

/// A line of a plain piece followed by a styled one.
pub open spec fn l2(kind: LineKind, a: Seq<char>, b: Seq<char>, sb: Style) -> LineV {
    LineV { kind, parts: seq![pv(a, Style::Plain), pv(b, sb)] }
}

/// A line of plain, styled, plain pieces.
pub open spec fn l3(kind: LineKind, a: Seq<char>, b: Seq<char>, sb: Style, c: Seq<char>) -> LineV {
    LineV { kind, parts: seq![pv(a, Style::Plain), pv(b, sb), pv(c, Style::Plain)] }
}

/// A line of several pieces.
pub open spec fn ln(kind: LineKind, parts: Seq<PartV>) -> LineV {
    LineV { kind, parts }
}

/// A line of one plain piece.
pub fn line1(kind: LineKind, a: &str) -> (l: Line)
    ensures
        l@ =~~= l1(kind, a@),
{
    let mut parts: Vec<Part> = Vec::new();
    parts.push(Part { text: String::from_str(a), style: Style::Plain });
    Line { kind, parts }
}

/// A line of one plain piece, from an owned string.
pub fn line1s(kind: LineKind, a: String) -> (l: Line)
    ensures
        l@ =~~= l1(kind, a@),
{
    let mut parts: Vec<Part> = Vec::new();
    parts.push(Part { text: a, style: Style::Plain });
    Line { kind, parts }
}

/// A line of a plain piece followed by a styled one.
pub fn line2(kind: LineKind, a: &str, b: String, sb: Style) -> (l: Line)
    ensures
        l@ =~~= l2(kind, a@, b@, sb),
{
    let mut parts: Vec<Part> = Vec::new();
    parts.push(Part { text: String::from_str(a), style: Style::Plain });
    parts.push(Part { text: b, style: sb });
    Line { kind, parts }
}

/// A line of plain, styled, plain pieces.
pub fn line3(kind: LineKind, a: &str, b: String, sb: Style, c: &str) -> (l: Line)
    ensures
        l@ =~~= l3(kind, a@, b@, sb, c@),
{
    let mut parts: Vec<Part> = Vec::new();
    parts.push(Part { text: String::from_str(a), style: Style::Plain });
    parts.push(Part { text: b, style: sb });
    parts.push(Part { text: String::from_str(c), style: Style::Plain });
    Line { kind, parts }
}

/// A plain piece.
pub fn part(text: String, style: Style) -> (p: Part)
    ensures
        p@ == pv(text@, style),
{
    Part { text, style }
}

/// A request for outside work. The answer kind is given for each.
pub enum Op {
    /// Booted into an OSTree deployment? → `Flag`.
    IsOstree,
    /// Is `/usr` on a read-only mount? → `Flag`.
    IsReadonlyRootfs,
    /// Is Nix installed (`/nix/store` exists)? → `Flag`.
    HasNix,
    /// Does the Nix install run a daemon? → `Flag`.
    NixMultiuser,
    /// Does the path exist? → `Flag`.
    Exists(String),
    /// Is the path a directory? → `Flag`.
    IsDir(String),
    /// Is the command on `$PATH`? → `Flag`.
    Which(String),
    /// Does the command resolve in the trusted directories? → `Flag`.
    WhichTrusted(String),
    /// Run a command → `Flag` (success). `elevated` goes through the
    /// privilege helper with trusted resolution; `quiet` captures chatter.
    Run { cmd: String, args: Vec<String>, elevated: bool, quiet: bool },
    /// Capture a command's stdout, trimmed → `Text` (`None` when it could
    /// not be started). `trusted` restricts it to the trusted directories.
    Capture { cmd: String, args: Vec<String>, trusted: bool },
    /// Read a file → `Text` (`None` when unreadable).
    ReadFile(String),
    /// Bytes under a path, symlinks skipped → `Size`.
    DirSize(String),
    /// Remove a directory's contents, keep the directory → `Size` freed.
    RmContents(String),
    /// Size of one cache entry (the link itself for a symlink) → `Size`.
    EntrySize(String),
    /// Bytes of the regular files directly inside `dir` whose names end
    /// with one of `suffixes` → `Size`.
    FlatFilesSize { dir: String, suffixes: Vec<String> },
    /// Names of a directory's entries → `Names` (empty when unreadable).
    ListDir(String),
    /// Remove one entry (a directory tree, or a file or link) → `Flag`.
    Remove(String),
    /// Is an `emerge` build running? Fails closed → `Flag`.
    EmergeRunning,
    /// Ask the user a yes/no question → `Flag`.
    Confirm(String),
    /// Read an environment variable → `Text`.
    Env(String),
    /// The byte count a decimal figure `num` times `2^shift` stands for,
    /// truncated → `Bytes` (`None` when `num` is not a number).
    ToBytes { num: String, shift: u32 },
    /// The running binary's canonical path → `Outcome` (the error text on failure).
    CurrentExe,
    /// Fetch the latest published release → `Release` (tag and notes, or the error text).
    FetchRelease,
    /// Run a command found on `$PATH` with its output discarded → `Code`
    /// (its exit code; `None` when it could not start or had none).
    Status { cmd: String, args: Vec<String> },
    /// The architecture this binary was built for → `Text`.
    HostArch,
    /// The system's temporary directory → `Text`.
    TempDir,
    /// This process's id → `Size`.
    ProcessId,
    /// Download `url` into the file `dest` → `Outcome` (the error text on failure).
    Download { url: String, dest: String },
    /// The first four bytes of a file → `Data` (empty when unreadable or shorter).
    ReadHead(String),
    /// Make a file executable (mode 755) → `Flag`.
    SetExec(String),
    /// Can files be created in the directory? → `Flag`.
    DirWritable(String),
    /// Copy `src` to `tmp`, make it executable and rename it over `dst`
    /// (removing `tmp` when the rename fails) → `Outcome`.
    Install { src: String, tmp: String, dst: String },
}

pub enum OpV {
    IsOstree,
    IsReadonlyRootfs,
    HasNix,
    NixMultiuser,
    Exists(Seq<char>),
    IsDir(Seq<char>),
    Which(Seq<char>),
    WhichTrusted(Seq<char>),
    Run { cmd: Seq<char>, args: Seq<Seq<char>>, elevated: bool, quiet: bool },
    Capture { cmd: Seq<char>, args: Seq<Seq<char>>, trusted: bool },
    ReadFile(Seq<char>),
    DirSize(Seq<char>),
    RmContents(Seq<char>),
    EntrySize(Seq<char>),
    FlatFilesSize { dir: Seq<char>, suffixes: Seq<Seq<char>> },
    ListDir(Seq<char>),
    Remove(Seq<char>),
    EmergeRunning,
    Confirm(Seq<char>),
    Env(Seq<char>),
    ToBytes { num: Seq<char>, shift: u32 },
    CurrentExe,
    FetchRelease,
    Status { cmd: Seq<char>, args: Seq<Seq<char>> },
    HostArch,
    TempDir,
    ProcessId,
    Download { url: Seq<char>, dest: Seq<char> },
    ReadHead(Seq<char>),
    SetExec(Seq<char>),
    DirWritable(Seq<char>),
    Install { src: Seq<char>, tmp: Seq<char>, dst: Seq<char> },
}

impl View for Op {
    type V = OpV;

    open spec fn view(&self) -> OpV {
        match self {
            Op::IsOstree => OpV::IsOstree,
            Op::IsReadonlyRootfs => OpV::IsReadonlyRootfs,
            Op::HasNix => OpV::HasNix,
            Op::NixMultiuser => OpV::NixMultiuser,
            Op::Exists(p) => OpV::Exists(p@),
            Op::IsDir(p) => OpV::IsDir(p@),
            Op::Which(c) => OpV::Which(c@),
            Op::WhichTrusted(c) => OpV::WhichTrusted(c@),
            Op::Run { cmd, args, elevated, quiet } => OpV::Run {
                cmd: cmd@,
                args: views(args@),
                elevated: *elevated,
                quiet: *quiet,
            },
            Op::Capture { cmd, args, trusted } => OpV::Capture {
                cmd: cmd@,
                args: views(args@),
                trusted: *trusted,
            },
            Op::ReadFile(p) => OpV::ReadFile(p@),
            Op::DirSize(p) => OpV::DirSize(p@),
            Op::RmContents(p) => OpV::RmContents(p@),
            Op::EntrySize(p) => OpV::EntrySize(p@),
            Op::FlatFilesSize { dir, suffixes } => OpV::FlatFilesSize { dir: dir@, suffixes: views(suffixes@) },
            Op::ListDir(p) => OpV::ListDir(p@),
            Op::Remove(p) => OpV::Remove(p@),
            Op::EmergeRunning => OpV::EmergeRunning,
            Op::Confirm(q) => OpV::Confirm(q@),
            Op::Env(n) => OpV::Env(n@),
            Op::ToBytes { num, shift } => OpV::ToBytes { num: num@, shift: *shift },
            Op::CurrentExe => OpV::CurrentExe,
            Op::FetchRelease => OpV::FetchRelease,
            Op::Status { cmd, args } => OpV::Status { cmd: cmd@, args: views(args@) },
            Op::HostArch => OpV::HostArch,
            Op::TempDir => OpV::TempDir,
            Op::ProcessId => OpV::ProcessId,
            Op::Download { url, dest } => OpV::Download { url: url@, dest: dest@ },
            Op::ReadHead(p) => OpV::ReadHead(p@),
            Op::SetExec(p) => OpV::SetExec(p@),
            Op::DirWritable(p) => OpV::DirWritable(p@),
            Op::Install { src, tmp, dst } => OpV::Install { src: src@, tmp: tmp@, dst: dst@ },
        }
    }
}

/// The answer to a request; `Start` begins a machine.
pub enum Reply {
    Start,
    Flag(bool),
    Size(u64),
    Text(Option<String>),
    Names(Vec<String>),
    Bytes(Option<u64>),
    Outcome(Result<String, String>),
    Release(Result<(String, Option<String>), String>),
    Code(Option<i32>),
    Data(Vec<u8>),
}

pub enum ReplyV {
    Start,
    Flag(bool),
    Size(u64),
    Text(Option<Seq<char>>),
    Names(Seq<Seq<char>>),
    Bytes(Option<u64>),
    Outcome(Result<Seq<char>, Seq<char>>),
    Release(Result<(Seq<char>, Option<Seq<char>>), Seq<char>>),
    Code(Option<i32>),
    Data(Seq<u8>),
}

pub open spec fn opt_view(o: Option<String>) -> Option<Seq<char>> {
    match o {
        Some(s) => Some(s@),
        None => None,
    }
}

impl View for Reply {
    type V = ReplyV;

    open spec fn view(&self) -> ReplyV {
        match self {
            Reply::Start => ReplyV::Start,
            Reply::Flag(b) => ReplyV::Flag(*b),
            Reply::Size(n) => ReplyV::Size(*n),
            Reply::Text(t) => ReplyV::Text(
                match t {
                    Some(s) => Some(s@),
                    None => None,
                },
            ),
            Reply::Names(v) => ReplyV::Names(views(v@)),
            Reply::Bytes(b) => ReplyV::Bytes(*b),
            Reply::Outcome(o) => ReplyV::Outcome(
                match o {
                    Ok(v) => Ok(v@),
                    Err(e) => Err(e@),
                },
            ),
            Reply::Release(o) => ReplyV::Release(
                match o {
                    Ok((tag, body)) => Ok((tag@, opt_view(*body))),
                    Err(e) => Err(e@),
                },
            ),
            Reply::Code(c) => ReplyV::Code(*c),
            Reply::Data(d) => ReplyV::Data(d@),
        }
    }
}

/// A reply read as a flag; any other kind reads as `false`.
pub open spec fn flag_of(r: ReplyV) -> bool {
    match r {
        ReplyV::Flag(b) => b,
        _ => false,
    }
}

/// A reply read as a size; any other kind reads as 0.
pub open spec fn size_of(r: ReplyV) -> u64 {
    match r {
        ReplyV::Size(n) => n,
        _ => 0,
    }
}

/// A reply read as text; any other kind reads as `None`.
pub open spec fn text_of(r: ReplyV) -> Option<Seq<char>> {
    match r {
        ReplyV::Text(t) => t,
        _ => None,
    }
}

/// A reply read as a name list; any other kind reads as empty.
pub open spec fn names_of(r: ReplyV) -> Seq<Seq<char>> {
    match r {
        ReplyV::Names(v) => v,
        _ => seq![],
    }
}

/// A reply read as a byte count; any other kind reads as `None`.
pub open spec fn bytes_of(r: ReplyV) -> Option<u64> {
    match r {
        ReplyV::Bytes(b) => b,
        _ => None,
    }
}

/// A reply read as an outcome; any other kind reads as a failure with no text.
pub open spec fn outcome_of(r: ReplyV) -> Result<Seq<char>, Seq<char>> {
    match r {
        ReplyV::Outcome(o) => o,
        _ => Err(seq![]),
    }
}

/// A reply read as a fetched release; any other kind reads as a failure with no text.
pub open spec fn release_of(r: ReplyV) -> Result<(Seq<char>, Option<Seq<char>>), Seq<char>> {
    match r {
        ReplyV::Release(o) => o,
        _ => Err(seq![]),
    }
}

/// A reply read as an exit code; any other kind reads as `None`.
pub open spec fn code_of(r: ReplyV) -> Option<i32> {
    match r {
        ReplyV::Code(c) => c,
        _ => None,
    }
}

/// A reply read as data; any other kind reads as empty.
pub open spec fn data_of(r: ReplyV) -> Seq<u8> {
    match r {
        ReplyV::Data(d) => d,
        _ => seq![],
    }
}

/// The outcome a reply carries, copied out.
pub fn outcome_reply(r: &Reply) -> (o: Result<String, String>)
    ensures
        match (o, outcome_of(r@)) {
            (Ok(a), Ok(b)) => a@ == b,
            (Err(a), Err(b)) => a@ == b,
            _ => false,
        },
{
    match r {
        Reply::Outcome(Ok(v)) => Ok(v.clone()),
        Reply::Outcome(Err(e)) => Err(e.clone()),
        _ => Err(String::new()),
    }
}

/// The release a reply carries, copied out.
pub fn release_reply(r: &Reply) -> (o: Result<(String, Option<String>), String>)
    ensures
        match (o, release_of(r@)) {
            (Ok((t, b)), Ok((t2, b2))) => t@ == t2 && opt_view(b) == b2,
            (Err(a), Err(b)) => a@ == b,
            _ => false,
        },
{
    match r {
        Reply::Release(Ok((t, b))) => {
            let body = match b {
                Some(x) => Some(x.clone()),
                None => None,
            };
            Ok((t.clone(), body))
        },
        Reply::Release(Err(e)) => Err(e.clone()),
        _ => Err(String::new()),
    }
}

pub fn code_reply(r: &Reply) -> (c: Option<i32>)
    ensures
        c == code_of(r@),
{
    match r {
        Reply::Code(c) => *c,
        _ => None,
    }
}

/// The data a reply carries, borrowed; any other kind reads as empty.
pub fn data_reply(r: &Reply) -> (d: &[u8])
    ensures
        d@ == data_of(r@),
{
    match r {
        Reply::Data(d) => d.as_slice(),
        _ => {
            let e: &[u8] = &[];
            assert(e@ =~= seq![]);
            e
        },
    }
}

/// A reply read as text, with no text reading as empty.
pub open spec fn text_or_empty(r: ReplyV) -> Seq<char> {
    match text_of(r) {
        Some(t) => t,
        None => seq![],
    }
}

pub fn bytes_reply(r: &Reply) -> (b: Option<u64>)
    ensures
        b == bytes_of(r@),
{
    match r {
        Reply::Bytes(b) => *b,
        _ => None,
    }
}

/// The text of a reply, borrowed; no text reads as empty.
pub fn text_reply(r: &Reply) -> (t: &str)
    ensures
        t@ == text_or_empty(r@),
{
    match r {
        Reply::Text(Some(t)) => t.as_str(),
        _ => {
            proof {
                reveal_strlit("");
            }
            assert(""@ =~= seq![]);
            ""
        },
    }
}

/// The names of a reply; any other kind reads as empty.
pub fn names_reply(r: &Reply) -> (v: &[String])
    ensures
        views(v@) == names_of(r@),
{
    match r {
        Reply::Names(v) => v.as_slice(),
        _ => {
            let e: &[String] = &[];
            assert(views(e@) =~= seq![]);
            e
        },
    }
}

pub fn flag_reply(r: &Reply) -> (b: bool)
    ensures
        b == flag_of(r@),
{
    match r {
        Reply::Flag(b) => *b,
        _ => false,
    }
}

pub fn size_reply(r: &Reply) -> (n: u64)
    ensures
        n == size_of(r@),
{
    match r {
        Reply::Size(n) => *n,
        _ => 0,
    }
}

/// What comes after a step: a request, or the operation's freed bytes.
pub enum Next {
    Ask(Op),
    Done(u64),
}

pub enum NextV {
    Ask(OpV),
    Done(u64),
}

impl View for Next {
    type V = NextV;

    open spec fn view(&self) -> NextV {
        match self {
            Next::Ask(op) => NextV::Ask(op@),
            Next::Done(n) => NextV::Done(*n),
        }
    }
}

/// One step of an operation: lines to print, then what comes next.
pub struct Step {
    pub lines: Vec<Line>,
    pub next: Next,
}

#[verifier::ext_equal]
pub struct StepV {
    pub lines: Seq<LineV>,
    pub next: NextV,
}

impl View for Step {
    type V = StepV;

    open spec fn view(&self) -> StepV {
        StepV { lines: line_views(self.lines@), next: self.next@ }
    }
}

pub open spec fn ask(lines: Seq<LineV>, op: OpV) -> StepV {
    StepV { lines, next: NextV::Ask(op) }
}

pub open spec fn done(lines: Seq<LineV>, n: u64) -> StepV {
    StepV { lines, next: NextV::Done(n) }
}

/// A step that prints `lines` and asks `op`.
pub fn ask_step(lines: Vec<Line>, op: Op) -> (s: Step)
    ensures
        s@ == ask(line_views(lines@), op@),
{
    Step { lines, next: Next::Ask(op) }
}

/// A step that prints `lines` and finishes with `n` bytes freed.
pub fn done_step(lines: Vec<Line>, n: u64) -> (s: Step)
    ensures
        s@ == done(line_views(lines@), n),
{
    Step { lines, next: Next::Done(n) }
}

/// No lines.
pub fn no_lines() -> (v: Vec<Line>)
    ensures
        line_views(v@) =~= seq![],
{
    Vec::new()
}

/// One line.
pub fn one_line(l: Line) -> (v: Vec<Line>)
    ensures
        line_views(v@) =~= seq![l@],
{
    let mut v = Vec::new();
    v.push(l);
    v
}

/// Two lines.
pub fn two_lines(a: Line, b: Line) -> (v: Vec<Line>)
    ensures
        line_views(v@) =~= seq![a@, b@],
{
    let mut v = Vec::new();
    v.push(a);
    v.push(b);
    v
}

/// Append a line.
pub fn push_line(v: &mut Vec<Line>, l: Line)
    ensures
        line_views(final(v)@) == line_views(old(v)@).push(l@),
{
    let ghost before = v@;
    v.push(l);
    assert(line_views(v@) =~= line_views(before).push(l@));
}

/// Command arguments from string slices.
pub fn args_of(a: &[&str]) -> (v: Vec<String>)
    ensures
        views(v@) =~= crate::text::str_views(a@),
{
    let mut v: Vec<String> = Vec::new();
    let mut i: usize = 0;
    while i < a.len()
        invariant
            0 <= i <= a.len(),
            views(v@) =~= crate::text::str_views(a@).take(i as int),
        decreases a.len() - i,
    {
        let ghost before = v@;
        v.push(String::from_str(a[i]));
        assert(views(v@) =~= views(before).push(a@[i as int]@));
        assert(crate::text::str_views(a@).take(i + 1) =~= crate::text::str_views(a@).take(
            i as int,
        ).push(a@[i as int]@));
        i = i + 1;
    }
    assert(crate::text::str_views(a@).take(a.len() as int) =~= crate::text::str_views(a@));
    v
}

/// The request to run `c a`.
pub open spec fn cmd(c: &str, a: Seq<&str>, elevated: bool, quiet: bool) -> OpV {
    OpV::Run { cmd: c@, args: crate::text::str_views(a), elevated, quiet }
}

/// A success line when `ok`, else an error line.
pub open spec fn ok_l(ok: bool, yes: Seq<char>, no: Seq<char>) -> LineV {
    if ok {
        l1(LineKind::Success, yes)
    } else {
        l1(LineKind::Error, no)
    }
}

/// A success line when `ok`, else an error line.
pub fn ok_line(ok: bool, yes: &str, no: &str) -> (l: Line)
    ensures
        l@ =~~= ok_l(ok, yes@, no@),
{
    if ok {
        line1(LineKind::Success, yes)
    } else {
        line1(LineKind::Error, no)
    }
}

/// `a` followed by `b`.
pub fn cat(a: &str, b: &str) -> (r: String)
    ensures
        r@ == a@ + b@,
{
    String::from_str(a).concat(b)
}

/// Run `cmd args`, escalated or not, quiet or not.
pub fn run_op(c: &str, args: &[&str], elevated: bool, quiet: bool) -> (op: Op)
    ensures
        op@ == cmd(c, args@, elevated, quiet),
{
    Op::Run { cmd: String::from_str(c), args: args_of(args), elevated, quiet }
}

/// Run `c a`.
pub fn run1(c: &str, a: &str, elevated: bool, quiet: bool) -> (op: Op)
    ensures
        op@ == cmd(c, seq![a], elevated, quiet),
{
    let args = [a];
    assert(args@ =~= seq![a]);
    run_op(c, &args, elevated, quiet)
}

/// Run `c a b`.
pub fn run2(c: &str, a: &str, b: &str, elevated: bool, quiet: bool) -> (op: Op)
    ensures
        op@ == cmd(c, seq![a, b], elevated, quiet),
{
    let args = [a, b];
    assert(args@ =~= seq![a, b]);
    run_op(c, &args, elevated, quiet)
}

/// Run `c a b d`.
pub fn run3(c: &str, a: &str, b: &str, d: &str, elevated: bool, quiet: bool) -> (op: Op)
    ensures
        op@ == cmd(c, seq![a, b, d], elevated, quiet),
{
    let args = [a, b, d];
    assert(args@ =~= seq![a, b, d]);
    run_op(c, &args, elevated, quiet)
}

/// Run `c a b d e`.
pub fn run4(c: &str, a: &str, b: &str, d: &str, e: &str, elevated: bool, quiet: bool) -> (op: Op)
    ensures
        op@ == cmd(c, seq![a, b, d, e], elevated, quiet),
{
    let args = [a, b, d, e];
    assert(args@ =~= seq![a, b, d, e]);
    run_op(c, &args, elevated, quiet)
}

/// Run `c` with no arguments.
pub fn run_bare(c: &str, elevated: bool, quiet: bool) -> (op: Op)
    ensures
        op@ == cmd(c, seq![], elevated, quiet),
{
    let args: Vec<String> = Vec::new();
    assert(views(args@) =~= crate::text::str_views(seq![]));
    Op::Run { cmd: String::from_str(c), args, elevated, quiet }
}

/// Capture `c a`.
pub fn capture1(c: &str, a: &str, trusted: bool) -> (op: Op)
    ensures
        op@ == (OpV::Capture { cmd: c@, args: seq![a@], trusted }),
{
    let args = [a];
    assert(crate::text::str_views(args@) =~= seq![a@]);
    capture_op(c, &args, trusted)
}

/// Capture `c a b`.
pub fn capture2(c: &str, a: &str, b: &str, trusted: bool) -> (op: Op)
    ensures
        op@ == (OpV::Capture { cmd: c@, args: seq![a@, b@], trusted }),
{
    let args = [a, b];
    assert(crate::text::str_views(args@) =~= seq![a@, b@]);
    capture_op(c, &args, trusted)
}

/// Capture `c` with no arguments.
pub fn capture_bare(c: &str, trusted: bool) -> (op: Op)
    ensures
        op@ == (OpV::Capture { cmd: c@, args: seq![], trusted }),
{
    let args: Vec<String> = Vec::new();
    assert(views(args@) =~= seq![]);
    Op::Capture { cmd: String::from_str(c), args, trusted }
}

/// Capture `cmd args`.
pub fn capture_op(cmd: &str, args: &[&str], trusted: bool) -> (op: Op)
    ensures
        op@ == (OpV::Capture { cmd: cmd@, args: crate::text::str_views(args@), trusted }),
{
    Op::Capture { cmd: String::from_str(cmd), args: args_of(args), trusted }
}

} // verus!
