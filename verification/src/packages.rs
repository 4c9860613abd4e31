//! The package-manager cache: each distribution's clean command, with the
//! freed figure measured on the directory that command empties.
use vstd::prelude::*;
use crate::clean::{fmt, sat_add};
use crate::detect::{distro_pkg_manager, Distro};
use crate::parse::{
    is_partial_download, is_partial_download_spec, make_conf_value, nix_freed_fields,
    nix_freed_spec, parse_make_conf_var, unit_shift, unit_shift_spec,
};
use crate::paths::{
    cache_dir_of, fedora_dir_of, gate_of, pkg_cache_dir, portage_build_dir, portage_dir_is_safe,
    portage_dir_of, portage_safe, resolve_fedora_cache_dir, should_deep, Gate,
};
use crate::plan::{
    ask, ask_step, bytes_of, bytes_reply, cat, cmd, done, done_step, flag_of, flag_reply, l1, l2,
    l3, line1, line1s, line2, line3, line_views, names_of, names_reply, no_lines, ok_l, ok_line,
    one_line, run_op, size_of, size_reply, text_of, text_or_empty, text_reply, two_lines, Line,
    LineV, Op, OpV, Reply, ReplyV, Step, StepV, Style,
};
use crate::text::{
    chars_of, lines, path_join, path_join_exec, string_of, trim, trim_exec, views,
};
use crate::utils::{format_size, LineKind};

verus! {

/// `a - b`, or 0 when `b` exceeds `a`.
pub open spec fn sub0(a: u64, b: u64) -> u64 {
    if a >= b {
        (a - b) as u64
    } else {
        0
    }
}

/// The leftovers of interrupted downloads among a pacman cache's entries,
/// as full paths.
pub open spec fn partial_paths(names: Seq<Seq<char>>) -> Seq<Seq<char>>
    decreases names.len(),
{
    if names.len() == 0 {
        seq![]
    } else {
        let rest = partial_paths(names.drop_last());
        if is_partial_download_spec(names.last()) {
            rest.push(path_join("/var/cache/pacman/pkg"@, names.last()))
        } else {
            rest
        }
    }
}

/// Paths of the pacman partial-download leftovers among `names`.
pub fn find_partial_downloads(names: &[String]) -> (r: Vec<String>)
    ensures
        views(r@) == partial_paths(views(names@)),
{
    let mut out: Vec<String> = Vec::new();
    let mut i: usize = 0;
    while i < names.len()
        invariant
            0 <= i <= names.len(),
            views(out@) == partial_paths(views(names@).take(i as int)),
        decreases names.len() - i,
    {
        let ghost before = views(out@);
        let n = names[i].as_str();
        if is_partial_download(n) {
            out.push(path_join_exec("/var/cache/pacman/pkg", n));
            assert(views(out@) =~= before.push(path_join("/var/cache/pacman/pkg"@, n@)));
        }
        assert(views(names@).take(i + 1).drop_last() =~= views(names@).take(i as int));
        assert(views(names@).take(i + 1).last() == n@);
        i = i + 1;
    }
    assert(views(names@).take(names.len() as int) =~= views(names@));
    out
}

#[derive(Debug, Clone, Copy, PartialEq, Eq, Structural)]
pub enum PkgStage {
    Begin,
    Ostree,
    OstreeRan,
    Readonly,
    FedoraLib,
    FedoraDnf,
    GentooQuery,
    GentooConf,
    GentooLegacy,
    GentooModern,
    SizeBefore,
    ArchList,
    ArchSweep,
    ArchSc,
    ArchConfirm,
    ArchScc,
    DebClean,
    DebConfirm,
    DebAuto,
    FedoraPm,
    FedoraClean,
    SuseClean,
    NixCapture,
    NixScale,
    NixSudo,
    NixConfirm,
    NixUserD,
    NixSudoD,
    NixOptimise,
    VoidConfirm,
    VoidClean,
    AlpineClean,
    AlpineConfirm,
    AlpineIsDir,
    AlpineFind,
    GentooEclean,
    GentooDistfiles,
    GentooConfirm,
    GentooPackages,
    GentooDistIsDir,
    GentooFind,
    PortageConf,
    PortageExists,
    PortageEmerge,
    PortageSize,
    PortageFind,
    SolusClean,
    ClearWhich,
    ClearClean,
    SizeAfter,
    Finished,
}

/// Clean the package manager's cache. `flag` carries one decision between
/// steps (dnf present, `-OO` chosen, purge chosen); `build` and `psize` are
/// Gentoo's portage build tree and its measured size.
pub struct PkgCache {
    pub distro: Distro,
    pub deep: bool,
    pub dry_run: bool,
    pub yes: bool,
    pub stage: PkgStage,
    pub dir: Option<String>,
    pub before: u64,
    pub extra: u64,
    pub flag: bool,
    pub build: String,
    pub psize: u64,
}

#[verifier::ext_equal]
pub struct PkgV {
    pub distro: Distro,
    pub deep: bool,
    pub dry_run: bool,
    pub yes: bool,
    pub stage: PkgStage,
    pub dir: Option<Seq<char>>,
    pub before: u64,
    pub extra: u64,
    pub flag: bool,
    pub build: Seq<char>,
    pub psize: u64,
}

impl View for PkgCache {
    type V = PkgV;

    open spec fn view(&self) -> PkgV {
        PkgV {
            distro: self.distro,
            deep: self.deep,
            dry_run: self.dry_run,
            yes: self.yes,
            stage: self.stage,
            dir: match self.dir {
                Some(d) => Some(d@),
                None => None,
            },
            before: self.before,
            extra: self.extra,
            flag: self.flag,
            build: self.build@,
            psize: self.psize,
        }
    }
}

pub open spec fn at(s: PkgV, stage: PkgStage) -> PkgV {
    PkgV { stage, ..s }
}

pub open spec fn sc_args() -> Seq<&'static str> {
    seq!["-Sc", "--noconfirm"]
}

pub open spec fn scc_args() -> Seq<&'static str> {
    seq!["-Scc", "--noconfirm"]
}

pub open spec fn scc_prompt() -> Seq<char> {
    "Run pacman -Scc? (removes ALL cached packages) [y/N]:"@
}

pub open spec fn autoclean_prompt() -> Seq<char> {
    "Run apt autoclean? (removes outdated debs) [y/N]:"@
}

pub open spec fn nix_prompt() -> Seq<char> {
    "Delete ALL old generations? (nix-collect-garbage -d) [y/N]:"@
}

pub open spec fn void_prompt() -> Seq<char> {
    "Also remove cached packages that are no longer installed? (removes downgrade targets) [y/N]:"@
}

pub open spec fn apk_prompt() -> Seq<char> {
    "Also remove cached packages for installed versions? (they re-download on next install) [y/N]:"@
}

pub open spec fn binpkg_prompt() -> Seq<char> {
    "Also clean binary packages? [y/N]:"@
}

pub open spec fn kept_line() -> LineV {
    l1(LineKind::Skip, "Cached current versions kept — remove them with --deep"@)
}

pub open spec fn dry_line(d: Distro, deep: bool) -> LineV {
    l1(
        LineKind::Info,
        "[DRY RUN] Would clean "@ + distro_pkg_manager(d) + " cache"@ + if deep {
            " (deep)"@
        } else {
            ""@
        },
    )
}

pub open spec fn void_flag(all: bool) -> &'static str {
    if all {
        "-OO"
    } else {
        "-O"
    }
}

pub open spec fn fedora_pm(dnf: bool) -> &'static str {
    if dnf {
        "dnf"
    } else {
        "yum"
    }
}

/// Measure the cache dir, if there is one, before the clean runs.
pub open spec fn pkg_measure(s: PkgV) -> (PkgV, StepV) {
    match s.dir {
        Some(d) => (at(s, PkgStage::SizeBefore), ask(seq![], OpV::DirSize(d))),
        None => pkg_action(PkgV { before: 0, ..s }, seq![]),
    }
}

/// Start the distribution's clean command.
pub open spec fn pkg_action(s: PkgV, pre: Seq<LineV>) -> (PkgV, StepV) {
    match s.distro {
        Distro::Arch => (
            at(s, PkgStage::ArchList),
            ask(pre, OpV::ListDir("/var/cache/pacman/pkg"@)),
        ),
        Distro::Debian => (
            at(s, PkgStage::DebClean),
            ask(pre, cmd("apt-get", seq!["clean"], true, true)),
        ),
        Distro::Fedora => (at(s, PkgStage::FedoraPm), ask(pre, OpV::WhichTrusted("dnf"@))),
        Distro::Suse => (
            at(s, PkgStage::SuseClean),
            ask(pre, cmd("zypper", seq!["clean", "--all"], true, true)),
        ),
        Distro::Nix => (
            at(s, PkgStage::NixCapture),
            ask(
                pre.push(l1(LineKind::Info, "Running Nix garbage collection..."@)),
                OpV::Capture { cmd: "nix-collect-garbage"@, args: seq![], trusted: false },
            ),
        ),
        Distro::Void => match gate_of(s.deep, s.yes) {
            Gate::Run => void_run(PkgV { flag: true, ..s }, pre),
            Gate::Skip => void_run(PkgV { flag: false, ..s }, pre),
            Gate::Ask => (at(s, PkgStage::VoidConfirm), ask(pre, OpV::Confirm(void_prompt()))),
        },
        Distro::Alpine => (
            at(s, PkgStage::AlpineClean),
            ask(pre, cmd("apk", seq!["cache", "clean"], true, true)),
        ),
        Distro::Gentoo => (at(s, PkgStage::GentooEclean), ask(pre, OpV::WhichTrusted("eclean"@))),
        Distro::Solus => (
            at(s, PkgStage::SolusClean),
            ask(pre, cmd("eopkg", seq!["delete-cache"], true, true)),
        ),
        Distro::Clear => (at(s, PkgStage::ClearWhich), ask(pre, OpV::WhichTrusted("swupd"@))),
        Distro::Unknown => pkg_finish(s, pre),
    }
}

/// Measure the cache dir again, if there is one.
pub open spec fn pkg_finish(s: PkgV, pre: Seq<LineV>) -> (PkgV, StepV) {
    match s.dir {
        Some(d) => (at(s, PkgStage::SizeAfter), ask(pre, OpV::DirSize(d))),
        None => pkg_report(s, pre, 0),
    }
}

/// Freed bytes: what left the cache dir plus what was freed elsewhere.
pub open spec fn pkg_report(s: PkgV, pre: Seq<LineV>, after: u64) -> (PkgV, StepV) {
    let freed = sat_add(sub0(s.before, after), s.extra);
    (
        at(s, PkgStage::Finished),
        done(
            if freed > 0 {
                pre.push(l2(LineKind::Info, "Package cache freed: "@, fmt(freed), Style::Green))
            } else {
                pre
            },
            freed,
        ),
    )
}

pub open spec fn void_run(s: PkgV, pre: Seq<LineV>) -> (PkgV, StepV) {
    (at(s, PkgStage::VoidClean), ask(pre, cmd("xbps-remove", seq![void_flag(s.flag), "-y"], true, true)))
}

pub open spec fn nix_sudo(s: PkgV) -> (PkgV, StepV) {
    (at(s, PkgStage::NixSudo), ask(seq![], cmd("nix-collect-garbage", seq![], true, false)))
}

pub open spec fn alpine_purge(s: PkgV, pre: Seq<LineV>) -> (PkgV, StepV) {
    (at(s, PkgStage::AlpineIsDir), ask(pre, OpV::IsDir("/var/cache/apk"@)))
}

pub open spec fn alpine_keep(s: PkgV, pre: Seq<LineV>, purge: bool) -> (PkgV, StepV) {
    let l = pre.push(l1(LineKind::Success, "apk cache cleaned"@));
    pkg_finish(s, if purge { l } else { l.push(kept_line()) })
}

pub open spec fn portage_start(s: PkgV, pre: Seq<LineV>) -> (PkgV, StepV) {
    (at(s, PkgStage::PortageConf), ask(pre, OpV::ReadFile("/etc/portage/make.conf"@)))
}

pub open spec fn dir_or_empty(d: Option<Seq<char>>) -> Seq<char> {
    match d {
        Some(x) => x,
        None => seq![],
    }
}

/// One transition of the package-cache operation.
pub open spec fn pkg_next(s: PkgV, r: ReplyV) -> (PkgV, StepV) {
    let ok = flag_of(r);
    match s.stage {
        PkgStage::Begin => (
            at(s, PkgStage::Ostree),
            ask(seq![l1(LineKind::Section, "Package Cache"@)], OpV::IsOstree),
        ),
        PkgStage::Ostree => if ok {
            if s.dry_run {
                (
                    at(s, PkgStage::Finished),
                    done(
                        seq![l1(LineKind::Info, "[DRY RUN] Would run: rpm-ostree cleanup -bm"@)],
                        0,
                    ),
                )
            } else {
                (
                    at(s, PkgStage::OstreeRan),
                    ask(seq![], cmd("rpm-ostree", seq!["cleanup", "-bm"], true, true)),
                )
            }
        } else {
            (at(s, PkgStage::Readonly), ask(seq![], OpV::IsReadonlyRootfs))
        },
        PkgStage::OstreeRan => (
            at(s, PkgStage::Finished),
            done(
                seq![
                    ok_l(
                        ok,
                        "rpm-ostree cleaned (base deployments + cached metadata)"@,
                        "rpm-ostree cleanup failed"@,
                    ),
                ],
                0,
            ),
        ),
        PkgStage::Readonly => if ok {
            (
                at(s, PkgStage::Finished),
                done(
                    seq![
                        l1(
                            LineKind::Skip,
                            "Immutable/read-only system — package cache managed by atomic updates"@,
                        ),
                    ],
                    0,
                ),
            )
        } else if s.distro == Distro::Unknown {
            (
                at(s, PkgStage::Finished),
                done(seq![l1(LineKind::Skip, "Unknown distribution — skipped"@)], 0),
            )
        } else if s.dry_run {
            (at(s, PkgStage::Finished), done(seq![dry_line(s.distro, s.deep)], 0))
        } else if s.distro == Distro::Fedora {
            (at(s, PkgStage::FedoraLib), ask(seq![], OpV::IsDir("/var/cache/libdnf5"@)))
        } else if s.distro == Distro::Gentoo {
            (
                at(s, PkgStage::GentooQuery),
                ask(
                    seq![],
                    OpV::Capture { cmd: "portageq"@, args: seq!["distdir"@], trusted: true },
                ),
            )
        } else {
            pkg_measure(PkgV { dir: cache_dir_of(s.distro, seq![], seq![]), ..s })
        },
        PkgStage::FedoraLib => if ok {
            pkg_measure(PkgV { dir: Some(fedora_dir_of(true, false)), ..s })
        } else {
            (at(s, PkgStage::FedoraDnf), ask(seq![], OpV::WhichTrusted("dnf"@)))
        },
        PkgStage::FedoraDnf => pkg_measure(PkgV { dir: Some(fedora_dir_of(false, ok)), ..s }),
        PkgStage::GentooQuery => {
            let out = trim(text_or_empty(r));
            if text_of(r) is Some && out.len() > 0 {
                pkg_measure(PkgV { dir: Some(out), ..s })
            } else {
                (at(s, PkgStage::GentooConf), ask(seq![], OpV::ReadFile("/etc/portage/make.conf"@)))
            }
        },
        PkgStage::GentooConf => match make_conf_value(lines(text_or_empty(r)), "DISTDIR="@) {
            Some(d) => pkg_measure(PkgV { dir: Some(d), ..s }),
            None => (
                at(s, PkgStage::GentooLegacy),
                ask(seq![], OpV::IsDir("/usr/portage/distfiles"@)),
            ),
        },
        PkgStage::GentooLegacy => if ok {
            (at(s, PkgStage::GentooModern), ask(seq![], OpV::IsDir("/var/cache/distfiles"@)))
        } else {
            pkg_measure(PkgV { dir: Some("/var/cache/distfiles"@), ..s })
        },
        PkgStage::GentooModern => pkg_measure(
            PkgV {
                dir: Some(
                    if ok {
                        "/var/cache/distfiles"@
                    } else {
                        "/usr/portage/distfiles"@
                    },
                ),
                ..s
            },
        ),
        PkgStage::SizeBefore => pkg_action(PkgV { before: size_of(r), ..s }, seq![]),
        // ── Arch ──
        PkgStage::ArchList => {
            let paths = partial_paths(names_of(r));
            if paths.len() > 0 {
                (
                    at(s, PkgStage::ArchSweep),
                    ask(
                        seq![],
                        OpV::Run {
                            cmd: "rm"@,
                            args: seq!["-rf"@] + paths,
                            elevated: true,
                            quiet: true,
                        },
                    ),
                )
            } else {
                (at(s, PkgStage::ArchSc), ask(seq![], cmd("pacman", sc_args(), true, true)))
            }
        },
        PkgStage::ArchSweep => (
            at(s, PkgStage::ArchSc),
            ask(seq![], cmd("pacman", sc_args(), true, true)),
        ),
        PkgStage::ArchSc => {
            let pre = seq![ok_l(ok, "pacman cache cleaned"@, "pacman -Sc failed"@)];
            match gate_of(s.deep, s.yes) {
                Gate::Run => (at(s, PkgStage::ArchScc), ask(pre, cmd("pacman", scc_args(), true, true))),
                Gate::Skip => pkg_finish(s, pre),
                Gate::Ask => (at(s, PkgStage::ArchConfirm), ask(pre, OpV::Confirm(scc_prompt()))),
            }
        },
        PkgStage::ArchConfirm => if ok {
            (at(s, PkgStage::ArchScc), ask(seq![], cmd("pacman", scc_args(), true, true)))
        } else {
            pkg_finish(s, seq![])
        },
        PkgStage::ArchScc => pkg_finish(
            s,
            seq![ok_l(ok, "pacman deep clean done"@, "pacman -Scc failed"@)],
        ),
        // ── Debian ──
        PkgStage::DebClean => {
            let pre = seq![ok_l(ok, "apt cache cleaned"@, "apt-get clean failed"@)];
            match gate_of(s.deep, s.yes) {
                Gate::Run => (
                    at(s, PkgStage::DebAuto),
                    ask(pre, cmd("apt-get", seq!["autoclean", "-y"], true, true)),
                ),
                Gate::Skip => pkg_finish(s, pre),
                Gate::Ask => (at(s, PkgStage::DebConfirm), ask(pre, OpV::Confirm(autoclean_prompt()))),
            }
        },
        PkgStage::DebConfirm => if ok {
            (at(s, PkgStage::DebAuto), ask(seq![], cmd("apt-get", seq!["autoclean", "-y"], true, true)))
        } else {
            pkg_finish(s, seq![])
        },
        PkgStage::DebAuto => pkg_finish(s, seq![ok_l(ok, "autoclean done"@, "autoclean failed"@)]),
        // ── Fedora ──
        PkgStage::FedoraPm => (
            PkgV { stage: PkgStage::FedoraClean, flag: ok, ..s },
            ask(seq![], cmd(fedora_pm(ok), seq!["clean", "all"], true, true)),
        ),
        PkgStage::FedoraClean => pkg_finish(
            s,
            seq![
                ok_l(
                    ok,
                    fedora_pm(s.flag)@ + " cache cleaned"@,
                    fedora_pm(s.flag)@ + " clean failed"@,
                ),
            ],
        ),
        // ── openSUSE ──
        PkgStage::SuseClean => pkg_finish(
            s,
            seq![ok_l(ok, "zypper cache cleaned"@, "zypper clean failed"@)],
        ),
        // ── Nix ──
        PkgStage::NixCapture => match text_of(r) {
            Some(out) => match nix_freed_spec(lines(out)) {
                Some((num, unit)) => match unit_shift_spec(unit) {
                    Some(shift) => (
                        at(s, PkgStage::NixScale),
                        ask(seq![], OpV::ToBytes { num, shift }),
                    ),
                    None => nix_sudo(s),
                },
                None => nix_sudo(s),
            },
            None => nix_sudo(s),
        },
        PkgStage::NixScale => nix_sudo(
            PkgV {
                extra: sat_add(
                    s.extra,
                    match bytes_of(r) {
                        Some(b) => b,
                        None => 0,
                    },
                ),
                ..s
            },
        ),
        PkgStage::NixSudo => {
            let pre = seq![l1(LineKind::Success, "Garbage collected"@)];
            match gate_of(s.deep, s.yes) {
                Gate::Run => (
                    at(s, PkgStage::NixUserD),
                    ask(pre, cmd("nix-collect-garbage", seq!["-d"], false, false)),
                ),
                Gate::Skip => pkg_finish(s, pre),
                Gate::Ask => (at(s, PkgStage::NixConfirm), ask(pre, OpV::Confirm(nix_prompt()))),
            }
        },
        PkgStage::NixConfirm => if ok {
            (
                at(s, PkgStage::NixUserD),
                ask(seq![], cmd("nix-collect-garbage", seq!["-d"], false, false)),
            )
        } else {
            pkg_finish(s, seq![])
        },
        PkgStage::NixUserD => (
            at(s, PkgStage::NixSudoD),
            ask(seq![], cmd("nix-collect-garbage", seq!["-d"], true, false)),
        ),
        PkgStage::NixSudoD => (
            at(s, PkgStage::NixOptimise),
            ask(
                seq![
                    l1(LineKind::Success, "Old generations deleted"@),
                    l1(LineKind::Info, "Optimizing Nix store (may take a while)..."@),
                ],
                cmd("nix-store", seq!["--optimise"], true, false),
            ),
        ),
        PkgStage::NixOptimise => pkg_finish(s, seq![l1(LineKind::Success, "Nix store optimized"@)]),
        // ── Void ──
        PkgStage::VoidConfirm => void_run(PkgV { flag: ok, ..s }, seq![]),
        PkgStage::VoidClean => if ok {
            pkg_finish(
                s,
                if s.flag {
                    seq![l1(LineKind::Success, "xbps cache cleaned"@)]
                } else {
                    seq![l1(LineKind::Success, "xbps cache cleaned"@), kept_line()]
                },
            )
        } else {
            pkg_finish(
                s,
                seq![l1(LineKind::Error, "xbps-remove "@ + void_flag(s.flag)@ + " failed"@)],
            )
        },
        // ── Alpine ──
        PkgStage::AlpineClean => {
            let pre: Seq<LineV> = if ok {
                seq![]
            } else {
                seq![l1(LineKind::Warning, "apk cache clean failed"@)]
            };
            match gate_of(s.deep, s.yes) {
                Gate::Run => alpine_purge(s, pre),
                Gate::Skip => alpine_keep(s, pre, false),
                Gate::Ask => (at(s, PkgStage::AlpineConfirm), ask(pre, OpV::Confirm(apk_prompt()))),
            }
        },
        PkgStage::AlpineConfirm => if ok {
            alpine_purge(s, seq![])
        } else {
            alpine_keep(s, seq![], false)
        },
        PkgStage::AlpineIsDir => if ok {
            (
                at(s, PkgStage::AlpineFind),
                ask(seq![], cmd("find", seq!["/var/cache/apk", "-type", "f", "-delete"], true, true)),
            )
        } else {
            alpine_keep(s, seq![], true)
        },
        PkgStage::AlpineFind => pkg_finish(s, seq![l1(LineKind::Success, "apk cache cleared"@)]),
        // ── Gentoo ──
        PkgStage::GentooEclean => if ok {
            (at(s, PkgStage::GentooDistfiles), ask(seq![], cmd("eclean", seq!["distfiles"], true, true)))
        } else {
            (
                at(s, PkgStage::GentooDistIsDir),
                ask(
                    seq![l1(LineKind::Warning, "eclean not found — install app-portage/gentoolkit"@)],
                    OpV::IsDir(dir_or_empty(s.dir)),
                ),
            )
        },
        PkgStage::GentooDistfiles => {
            let pre = seq![ok_l(ok, "Distfiles cleaned"@, "eclean distfiles failed"@)];
            match gate_of(s.deep, s.yes) {
                Gate::Run => (
                    at(s, PkgStage::GentooPackages),
                    ask(pre, cmd("eclean", seq!["packages"], true, true)),
                ),
                Gate::Skip => portage_start(s, pre),
                Gate::Ask => (at(s, PkgStage::GentooConfirm), ask(pre, OpV::Confirm(binpkg_prompt()))),
            }
        },
        PkgStage::GentooConfirm => if ok {
            (at(s, PkgStage::GentooPackages), ask(seq![], cmd("eclean", seq!["packages"], true, true)))
        } else {
            portage_start(s, seq![])
        },
        PkgStage::GentooPackages => portage_start(
            s,
            if ok {
                seq![l1(LineKind::Success, "Binary packages cleaned"@)]
            } else {
                seq![]
            },
        ),
        PkgStage::GentooDistIsDir => if ok {
            (
                at(s, PkgStage::GentooFind),
                ask(
                    seq![],
                    OpV::Run {
                        cmd: "find"@,
                        args: seq![dir_or_empty(s.dir), "-type"@, "f"@, "-delete"@],
                        elevated: true,
                        quiet: true,
                    },
                ),
            )
        } else {
            portage_start(s, seq![])
        },
        PkgStage::GentooFind => portage_start(s, seq![l1(LineKind::Success, "Distfiles cleaned"@)]),
        PkgStage::PortageConf => {
            let b = portage_dir_of(text_or_empty(r));
            (PkgV { stage: PkgStage::PortageExists, build: b, ..s }, ask(seq![], OpV::Exists(b)))
        },
        PkgStage::PortageExists => if ok && portage_safe(s.build) {
            (at(s, PkgStage::PortageEmerge), ask(seq![], OpV::EmergeRunning))
        } else {
            pkg_finish(s, seq![])
        },
        PkgStage::PortageEmerge => if ok {
            pkg_finish(s, seq![l1(LineKind::Skip, "emerge is running — leaving build tmp untouched"@)])
        } else {
            (at(s, PkgStage::PortageSize), ask(seq![], OpV::DirSize(s.build)))
        },
        PkgStage::PortageSize => {
            let size = size_of(r);
            if size == 0 {
                pkg_finish(s, seq![])
            } else if s.dry_run {
                pkg_finish(
                    s,
                    seq![
                        l1(
                            LineKind::Info,
                            "[DRY RUN] Would clear failed-build leftovers in "@ + s.build + " ("@
                                + fmt(size) + ")"@,
                        ),
                    ],
                )
            } else {
                (
                    PkgV { stage: PkgStage::PortageFind, psize: size, ..s },
                    ask(
                        seq![],
                        OpV::Run {
                            cmd: "find"@,
                            args: seq![s.build, "-mindepth"@, "1"@, "-delete"@],
                            elevated: true,
                            quiet: true,
                        },
                    ),
                )
            }
        },
        PkgStage::PortageFind => pkg_finish(
            PkgV { extra: sat_add(s.extra, s.psize), ..s },
            seq![
                l3(
                    LineKind::Success,
                    "Cleared portage build leftovers ("@,
                    fmt(s.psize),
                    Style::Green,
                    ")"@,
                ),
            ],
        ),
        // ── Solus ──
        PkgStage::SolusClean => pkg_finish(
            s,
            seq![ok_l(ok, "eopkg cache cleaned"@, "eopkg delete-cache failed"@)],
        ),
        // ── Clear Linux ──
        PkgStage::ClearWhich => if ok {
            (
                at(s, PkgStage::ClearClean),
                ask(
                    seq![],
                    cmd(
                        "swupd",
                        if s.deep {
                            seq!["clean", "--all"]
                        } else {
                            seq!["clean"]
                        },
                        true,
                        true,
                    ),
                ),
            )
        } else {
            pkg_finish(s, seq![l1(LineKind::Skip, "swupd not found — skipped"@)])
        },
        PkgStage::ClearClean => pkg_finish(
            s,
            seq![ok_l(ok, "swupd cache cleaned"@, "swupd clean failed"@)],
        ),
        PkgStage::SizeAfter => pkg_report(s, seq![], size_of(r)),
        PkgStage::Finished => (s, done(seq![], 0)),
    }
}


/// Start cleaning the package cache of `distro`.
pub fn pkg_cache(distro: &Distro, deep: bool, dry_run: bool, yes: bool) -> (m: PkgCache)
    ensures
        m@ == (PkgV {
            distro: *distro,
            deep,
            dry_run,
            yes,
            stage: PkgStage::Begin,
            dir: None,
            before: 0,
            extra: 0,
            flag: false,
            build: seq![],
            psize: 0,
        }),
{
    let m = PkgCache {
        distro: *distro,
        deep,
        dry_run,
        yes,
        stage: PkgStage::Begin,
        dir: None,
        before: 0,
        extra: 0,
        flag: false,
        build: String::new(),
        psize: 0,
    };
    assert(m@.build =~= seq![]);
    m
}

impl PkgCache {
    fn measure(&mut self) -> (st: Step)
        ensures
            (final(self)@, st@) == pkg_measure(old(self)@),
    {
        match &self.dir {
            Some(d) => {
                let op = Op::DirSize(d.clone());
                self.stage = PkgStage::SizeBefore;
                ask_step(no_lines(), op)
            },
            None => {
                self.before = 0;
                self.action(no_lines())
            },
        }
    }

    fn action(&mut self, pre: Vec<Line>) -> (st: Step)
        ensures
            (final(self)@, st@) == pkg_action(old(self)@, line_views(pre@)),
    {
        let mut pre = pre;
        match self.distro {
            Distro::Arch => {
                self.stage = PkgStage::ArchList;
                ask_step(pre, Op::ListDir(String::from_str("/var/cache/pacman/pkg")))
            },
            Distro::Debian => {
                self.stage = PkgStage::DebClean;
                ask_step(pre, crate::plan::run1("apt-get", "clean", true, true))
            },
            Distro::Fedora => {
                self.stage = PkgStage::FedoraPm;
                ask_step(pre, Op::WhichTrusted(String::from_str("dnf")))
            },
            Distro::Suse => {
                self.stage = PkgStage::SuseClean;
                ask_step(pre, crate::plan::run2("zypper", "clean", "--all", true, true))
            },
            Distro::Nix => {
                self.stage = PkgStage::NixCapture;
                crate::plan::push_line(&mut pre, line1(LineKind::Info, "Running Nix garbage collection..."));
                let op = crate::plan::capture_bare("nix-collect-garbage", false);
                ask_step(pre, op)
            },
            Distro::Void => match should_deep(self.deep, self.yes) {
                Gate::Run => {
                    self.flag = true;
                    self.void_run(pre)
                },
                Gate::Skip => {
                    self.flag = false;
                    self.void_run(pre)
                },
                Gate::Ask => {
                    self.stage = PkgStage::VoidConfirm;
                    ask_step(pre, Op::Confirm(String::from_str(
                        "Also remove cached packages that are no longer installed? (removes downgrade targets) [y/N]:",
                    )))
                },
            },
            Distro::Alpine => {
                self.stage = PkgStage::AlpineClean;
                ask_step(pre, crate::plan::run2("apk", "cache", "clean", true, true))
            },
            Distro::Gentoo => {
                self.stage = PkgStage::GentooEclean;
                ask_step(pre, Op::WhichTrusted(String::from_str("eclean")))
            },
            Distro::Solus => {
                self.stage = PkgStage::SolusClean;
                ask_step(pre, crate::plan::run1("eopkg", "delete-cache", true, true))
            },
            Distro::Clear => {
                self.stage = PkgStage::ClearWhich;
                ask_step(pre, Op::WhichTrusted(String::from_str("swupd")))
            },
            Distro::Unknown => self.finish(pre),
        }
    }

    fn finish(&mut self, pre: Vec<Line>) -> (st: Step)
        ensures
            (final(self)@, st@) == pkg_finish(old(self)@, line_views(pre@)),
    {
        match &self.dir {
            Some(d) => {
                let op = Op::DirSize(d.clone());
                self.stage = PkgStage::SizeAfter;
                ask_step(pre, op)
            },
            None => self.report(pre, 0),
        }
    }

    fn report(&mut self, pre: Vec<Line>, after: u64) -> (st: Step)
        ensures
            (final(self)@, st@) == pkg_report(old(self)@, line_views(pre@), after),
    {
        let gone: u64 = if self.before >= after {
            self.before - after
        } else {
            0
        };
        let freed = gone.saturating_add(self.extra);
        let mut pre = pre;
        if freed > 0 {
            crate::plan::push_line(
                &mut pre,
                line2(LineKind::Info, "Package cache freed: ", format_size(freed), Style::Green),
            );
        }
        self.stage = PkgStage::Finished;
        done_step(pre, freed)
    }

    fn void_run(&mut self, pre: Vec<Line>) -> (st: Step)
        ensures
            (final(self)@, st@) == void_run(old(self)@, line_views(pre@)),
    {
        self.stage = PkgStage::VoidClean;
        let flag = if self.flag {
            "-OO"
        } else {
            "-O"
        };
        let args = [flag, "-y"];
        let op = run_op("xbps-remove", &args, true, true);
        assert(args@ =~= seq![void_flag(self.flag), "-y"]);
        ask_step(pre, op)
    }

    fn nix_sudo(&mut self) -> (st: Step)
        ensures
            (final(self)@, st@) == nix_sudo(old(self)@),
    {
        self.stage = PkgStage::NixSudo;
        let op = crate::plan::run_bare("nix-collect-garbage", true, false);
        ask_step(no_lines(), op)
    }

    fn alpine_purge(&mut self, pre: Vec<Line>) -> (st: Step)
        ensures
            (final(self)@, st@) == alpine_purge(old(self)@, line_views(pre@)),
    {
        self.stage = PkgStage::AlpineIsDir;
        ask_step(pre, Op::IsDir(String::from_str("/var/cache/apk")))
    }

    fn alpine_keep(&mut self, pre: Vec<Line>, purge: bool) -> (st: Step)
        ensures
            (final(self)@, st@) == alpine_keep(old(self)@, line_views(pre@), purge),
    {
        let mut pre = pre;
        crate::plan::push_line(&mut pre, line1(LineKind::Success, "apk cache cleaned"));
        if !purge {
            crate::plan::push_line(
                &mut pre,
                line1(LineKind::Skip, "Cached current versions kept — remove them with --deep"),
            );
        }
        self.finish(pre)
    }

    fn portage_start(&mut self, pre: Vec<Line>) -> (st: Step)
        ensures
            (final(self)@, st@) == portage_start(old(self)@, line_views(pre@)),
    {
        self.stage = PkgStage::PortageConf;
        ask_step(pre, Op::ReadFile(String::from_str("/etc/portage/make.conf")))
    }

    fn step_start(&mut self, r: &Reply) -> (st: Step)
        requires
            old(self).stage == PkgStage::Begin || old(self).stage == PkgStage::Ostree
                || old(self).stage == PkgStage::OstreeRan || old(self).stage == PkgStage::Readonly
                || old(self).stage == PkgStage::FedoraLib || old(self).stage == PkgStage::FedoraDnf
                || old(self).stage == PkgStage::GentooQuery || old(self).stage
                == PkgStage::GentooConf || old(self).stage == PkgStage::GentooLegacy
                || old(self).stage == PkgStage::GentooModern || old(self).stage
                == PkgStage::SizeBefore || old(self).stage == PkgStage::SizeAfter
                || old(self).stage == PkgStage::Finished,
        ensures
            (final(self)@, st@) == pkg_next(old(self)@, r@),
    {
        let ok = flag_reply(r);
        match self.stage {
            PkgStage::Begin => {
                self.stage = PkgStage::Ostree;
                ask_step(one_line(line1(LineKind::Section, "Package Cache")), Op::IsOstree)
            },
            PkgStage::Ostree => {
                if ok {
                    if self.dry_run {
                        self.stage = PkgStage::Finished;
                        done_step(
                            one_line(line1(LineKind::Info, "[DRY RUN] Would run: rpm-ostree cleanup -bm")),
                            0,
                        )
                    } else {
                        self.stage = PkgStage::OstreeRan;
                        ask_step(no_lines(), crate::plan::run2("rpm-ostree", "cleanup", "-bm", true, true))
                    }
                } else {
                    self.stage = PkgStage::Readonly;
                    ask_step(no_lines(), Op::IsReadonlyRootfs)
                }
            },
            PkgStage::OstreeRan => {
                self.stage = PkgStage::Finished;
                done_step(
                    one_line(
                        ok_line(
                            ok,
                            "rpm-ostree cleaned (base deployments + cached metadata)",
                            "rpm-ostree cleanup failed",
                        ),
                    ),
                    0,
                )
            },
            PkgStage::Readonly => {
                if ok {
                    self.stage = PkgStage::Finished;
                    done_step(
                        one_line(
                            line1(
                                LineKind::Skip,
                                "Immutable/read-only system — package cache managed by atomic updates",
                            ),
                        ),
                        0,
                    )
                } else if self.distro == Distro::Unknown {
                    self.stage = PkgStage::Finished;
                    done_step(one_line(line1(LineKind::Skip, "Unknown distribution — skipped")), 0)
                } else if self.dry_run {
                    self.stage = PkgStage::Finished;
                    let t = cat("[DRY RUN] Would clean ", self.distro.pkg_manager());
                    let t = t.concat(" cache");
                    let t = if self.deep {
                        t.concat(" (deep)")
                    } else {
                        t.concat("")
                    };
                    done_step(one_line(line1s(LineKind::Info, t)), 0)
                } else if self.distro == Distro::Fedora {
                    self.stage = PkgStage::FedoraLib;
                    ask_step(no_lines(), Op::IsDir(String::from_str("/var/cache/libdnf5")))
                } else if self.distro == Distro::Gentoo {
                    self.stage = PkgStage::GentooQuery;
                    ask_step(no_lines(), crate::plan::capture1("portageq", "distdir", true))
                } else {
                    self.dir = pkg_cache_dir(&self.distro, "", "");
                    self.measure()
                }
            },
            PkgStage::FedoraLib => {
                if ok {
                    self.dir = Some(String::from_str(resolve_fedora_cache_dir(true, false)));
                    self.measure()
                } else {
                    self.stage = PkgStage::FedoraDnf;
                    ask_step(no_lines(), Op::WhichTrusted(String::from_str("dnf")))
                }
            },
            PkgStage::FedoraDnf => {
                self.dir = Some(String::from_str(resolve_fedora_cache_dir(false, ok)));
                self.measure()
            },
            PkgStage::GentooQuery => {
                let has = match r {
                    Reply::Text(Some(_)) => true,
                    _ => false,
                };
                let cs = chars_of(text_reply(r));
                let out = trim_exec(cs.as_slice());
                if has && out.len() > 0 {
                    self.dir = Some(string_of(out));
                    self.measure()
                } else {
                    self.stage = PkgStage::GentooConf;
                    ask_step(no_lines(), Op::ReadFile(String::from_str("/etc/portage/make.conf")))
                }
            },
            PkgStage::GentooConf => {
                proof {
                    reveal_strlit("DISTDIR");
                    reveal_strlit("=");
                    reveal_strlit("DISTDIR=");
                    assert("DISTDIR"@ + "="@ =~= "DISTDIR="@);
                }
                match parse_make_conf_var(text_reply(r), "DISTDIR") {
                    Some(d) => {
                        self.dir = Some(d);
                        self.measure()
                    },
                    None => {
                        self.stage = PkgStage::GentooLegacy;
                        ask_step(no_lines(), Op::IsDir(String::from_str("/usr/portage/distfiles")))
                    },
                }
            },
            PkgStage::GentooLegacy => {
                if ok {
                    self.stage = PkgStage::GentooModern;
                    ask_step(no_lines(), Op::IsDir(String::from_str("/var/cache/distfiles")))
                } else {
                    self.dir = Some(String::from_str("/var/cache/distfiles"));
                    self.measure()
                }
            },
            PkgStage::GentooModern => {
                self.dir = Some(
                    if ok {
                        String::from_str("/var/cache/distfiles")
                    } else {
                        String::from_str("/usr/portage/distfiles")
                    },
                );
                self.measure()
            },
            PkgStage::SizeBefore => {
                self.before = size_reply(r);
                self.action(no_lines())
            },
            PkgStage::SizeAfter => self.report(no_lines(), size_reply(r)),
            _ => done_step(no_lines(), 0),
        }
    }

    fn step_plain(&mut self, r: &Reply) -> (st: Step)
        requires
            old(self).stage == PkgStage::ArchList || old(self).stage == PkgStage::ArchSweep
                || old(self).stage == PkgStage::ArchSc || old(self).stage == PkgStage::ArchConfirm
                || old(self).stage == PkgStage::ArchScc || old(self).stage == PkgStage::DebClean
                || old(self).stage == PkgStage::DebConfirm || old(self).stage == PkgStage::DebAuto
                || old(self).stage == PkgStage::FedoraPm || old(self).stage == PkgStage::FedoraClean
                || old(self).stage == PkgStage::SuseClean || old(self).stage == PkgStage::SolusClean
                || old(self).stage == PkgStage::ClearWhich || old(self).stage
                == PkgStage::ClearClean,
        ensures
            (final(self)@, st@) == pkg_next(old(self)@, r@),
    {
        let ok = flag_reply(r);
        match self.stage {
            PkgStage::ArchList => {
                let paths = find_partial_downloads(names_reply(r));
                if paths.len() > 0 {
                    let mut args: Vec<String> = Vec::new();
                    args.push(String::from_str("-rf"));
                    let ghost head = views(args@);
                    let mut i: usize = 0;
                    while i < paths.len()
                        invariant
                            0 <= i <= paths.len(),
                            head == seq!["-rf"@],
                            views(args@) == head + views(paths@).take(i as int),
                        decreases paths.len() - i,
                    {
                        let ghost before = views(args@);
                        args.push(paths[i].clone());
                        assert(views(args@) =~= before.push(paths@[i as int]@));
                        assert(views(paths@).take(i + 1) =~= views(paths@).take(i as int).push(
                            paths@[i as int]@,
                        ));
                        i = i + 1;
                    }
                    assert(views(paths@).take(paths.len() as int) =~= views(paths@));
                    self.stage = PkgStage::ArchSweep;
                    ask_step(
                        no_lines(),
                        Op::Run { cmd: String::from_str("rm"), args, elevated: true, quiet: true },
                    )
                } else {
                    self.stage = PkgStage::ArchSc;
                    ask_step(no_lines(), crate::plan::run2("pacman", "-Sc", "--noconfirm", true, true))
                }
            },
            PkgStage::ArchSweep => {
                self.stage = PkgStage::ArchSc;
                ask_step(no_lines(), crate::plan::run2("pacman", "-Sc", "--noconfirm", true, true))
            },
            PkgStage::ArchSc => {
                let pre = one_line(ok_line(ok, "pacman cache cleaned", "pacman -Sc failed"));
                match should_deep(self.deep, self.yes) {
                    Gate::Run => {
                        self.stage = PkgStage::ArchScc;
                        ask_step(pre, crate::plan::run2("pacman", "-Scc", "--noconfirm", true, true))
                    },
                    Gate::Skip => self.finish(pre),
                    Gate::Ask => {
                        self.stage = PkgStage::ArchConfirm;
                        ask_step(
                            pre,
                            Op::Confirm(
                                String::from_str(
                                    "Run pacman -Scc? (removes ALL cached packages) [y/N]:",
                                ),
                            ),
                        )
                    },
                }
            },
            PkgStage::ArchConfirm => {
                if ok {
                    self.stage = PkgStage::ArchScc;
                    ask_step(no_lines(), crate::plan::run2("pacman", "-Scc", "--noconfirm", true, true))
                } else {
                    self.finish(no_lines())
                }
            },
            PkgStage::ArchScc => self.finish(
                one_line(ok_line(ok, "pacman deep clean done", "pacman -Scc failed")),
            ),
            PkgStage::DebClean => {
                let pre = one_line(ok_line(ok, "apt cache cleaned", "apt-get clean failed"));
                match should_deep(self.deep, self.yes) {
                    Gate::Run => {
                        self.stage = PkgStage::DebAuto;
                        ask_step(pre, crate::plan::run2("apt-get", "autoclean", "-y", true, true))
                    },
                    Gate::Skip => self.finish(pre),
                    Gate::Ask => {
                        self.stage = PkgStage::DebConfirm;
                        ask_step(
                            pre,
                            Op::Confirm(
                                String::from_str("Run apt autoclean? (removes outdated debs) [y/N]:"),
                            ),
                        )
                    },
                }
            },
            PkgStage::DebConfirm => {
                if ok {
                    self.stage = PkgStage::DebAuto;
                    ask_step(no_lines(), crate::plan::run2("apt-get", "autoclean", "-y", true, true))
                } else {
                    self.finish(no_lines())
                }
            },
            PkgStage::DebAuto => self.finish(one_line(ok_line(ok, "autoclean done", "autoclean failed"))),
            PkgStage::FedoraPm => {
                self.stage = PkgStage::FedoraClean;
                self.flag = ok;
                let pm = if ok {
                    "dnf"
                } else {
                    "yum"
                };
                ask_step(no_lines(), crate::plan::run2(pm, "clean", "all", true, true))
            },
            PkgStage::FedoraClean => {
                let pm = if self.flag {
                    "dnf"
                } else {
                    "yum"
                };
                let l = if ok {
                    line1s(LineKind::Success, cat(pm, " cache cleaned"))
                } else {
                    line1s(LineKind::Error, cat(pm, " clean failed"))
                };
                self.finish(one_line(l))
            },
            PkgStage::SuseClean => self.finish(
                one_line(ok_line(ok, "zypper cache cleaned", "zypper clean failed")),
            ),
            PkgStage::SolusClean => self.finish(
                one_line(ok_line(ok, "eopkg cache cleaned", "eopkg delete-cache failed")),
            ),
            PkgStage::ClearWhich => {
                if ok {
                    self.stage = PkgStage::ClearClean;
                    let op = if self.deep {
                        crate::plan::run2("swupd", "clean", "--all", true, true)
                    } else {
                        crate::plan::run1("swupd", "clean", true, true)
                    };
                    ask_step(no_lines(), op)
                } else {
                    self.finish(one_line(line1(LineKind::Skip, "swupd not found — skipped")))
                }
            },
            _ => self.finish(one_line(ok_line(ok, "swupd cache cleaned", "swupd clean failed"))),
        }
    }

    fn step_nix(&mut self, r: &Reply) -> (st: Step)
        requires
            old(self).stage == PkgStage::NixCapture || old(self).stage == PkgStage::NixScale
                || old(self).stage == PkgStage::NixSudo || old(self).stage == PkgStage::NixConfirm
                || old(self).stage == PkgStage::NixUserD || old(self).stage == PkgStage::NixSudoD
                || old(self).stage == PkgStage::NixOptimise,
        ensures
            (final(self)@, st@) == pkg_next(old(self)@, r@),
    {
        let ok = flag_reply(r);
        match self.stage {
            PkgStage::NixCapture => {
                match r {
                    Reply::Text(Some(out)) => match nix_freed_fields(out.as_str()) {
                        Some((num, unit)) => match unit_shift(unit.as_str()) {
                            Some(shift) => {
                                self.stage = PkgStage::NixScale;
                                ask_step(no_lines(), Op::ToBytes { num, shift })
                            },
                            None => self.nix_sudo(),
                        },
                        None => self.nix_sudo(),
                    },
                    _ => self.nix_sudo(),
                }
            },
            PkgStage::NixScale => {
                let b = match bytes_reply(r) {
                    Some(b) => b,
                    None => 0,
                };
                self.extra = self.extra.saturating_add(b);
                self.nix_sudo()
            },
            PkgStage::NixSudo => {
                let pre = one_line(line1(LineKind::Success, "Garbage collected"));
                match should_deep(self.deep, self.yes) {
                    Gate::Run => {
                        self.stage = PkgStage::NixUserD;
                        ask_step(pre, crate::plan::run1("nix-collect-garbage", "-d", false, false))
                    },
                    Gate::Skip => self.finish(pre),
                    Gate::Ask => {
                        self.stage = PkgStage::NixConfirm;
                        ask_step(
                            pre,
                            Op::Confirm(
                                String::from_str(
                                    "Delete ALL old generations? (nix-collect-garbage -d) [y/N]:",
                                ),
                            ),
                        )
                    },
                }
            },
            PkgStage::NixConfirm => {
                if ok {
                    self.stage = PkgStage::NixUserD;
                    ask_step(no_lines(), crate::plan::run1("nix-collect-garbage", "-d", false, false))
                } else {
                    self.finish(no_lines())
                }
            },
            PkgStage::NixUserD => {
                self.stage = PkgStage::NixSudoD;
                ask_step(no_lines(), crate::plan::run1("nix-collect-garbage", "-d", true, false))
            },
            PkgStage::NixSudoD => {
                self.stage = PkgStage::NixOptimise;
                ask_step(
                    two_lines(
                        line1(LineKind::Success, "Old generations deleted"),
                        line1(LineKind::Info, "Optimizing Nix store (may take a while)..."),
                    ),
                    crate::plan::run1("nix-store", "--optimise", true, false),
                )
            },
            _ => self.finish(one_line(line1(LineKind::Success, "Nix store optimized"))),
        }
    }

    fn step_void_alpine(&mut self, r: &Reply) -> (st: Step)
        requires
            old(self).stage == PkgStage::VoidConfirm || old(self).stage == PkgStage::VoidClean
                || old(self).stage == PkgStage::AlpineClean || old(self).stage
                == PkgStage::AlpineConfirm || old(self).stage == PkgStage::AlpineIsDir
                || old(self).stage == PkgStage::AlpineFind,
        ensures
            (final(self)@, st@) == pkg_next(old(self)@, r@),
    {
        let ok = flag_reply(r);
        match self.stage {
            PkgStage::VoidConfirm => {
                self.flag = ok;
                self.void_run(no_lines())
            },
            PkgStage::VoidClean => {
                if ok {
                    let mut pre = one_line(line1(LineKind::Success, "xbps cache cleaned"));
                    if !self.flag {
                        crate::plan::push_line(
                            &mut pre,
                            line1(LineKind::Skip, "Cached current versions kept — remove them with --deep"),
                        );
                    }
                    self.finish(pre)
                } else {
                    let flag = if self.flag {
                        "-OO"
                    } else {
                        "-O"
                    };
                    let t = cat("xbps-remove ", flag).concat(" failed");
                    self.finish(one_line(line1s(LineKind::Error, t)))
                }
            },
            PkgStage::AlpineClean => {
                let pre = if ok {
                    no_lines()
                } else {
                    one_line(line1(LineKind::Warning, "apk cache clean failed"))
                };
                match should_deep(self.deep, self.yes) {
                    Gate::Run => self.alpine_purge(pre),
                    Gate::Skip => self.alpine_keep(pre, false),
                    Gate::Ask => {
                        self.stage = PkgStage::AlpineConfirm;
                        ask_step(
                            pre,
                            Op::Confirm(
                                String::from_str(
                                    "Also remove cached packages for installed versions? (they re-download on next install) [y/N]:",
                                ),
                            ),
                        )
                    },
                }
            },
            PkgStage::AlpineConfirm => {
                if ok {
                    self.alpine_purge(no_lines())
                } else {
                    self.alpine_keep(no_lines(), false)
                }
            },
            PkgStage::AlpineIsDir => {
                if ok {
                    self.stage = PkgStage::AlpineFind;
                    ask_step(
                        no_lines(),
                        crate::plan::run4("find", "/var/cache/apk", "-type", "f", "-delete", true, true),
                    )
                } else {
                    self.alpine_keep(no_lines(), true)
                }
            },
            _ => self.finish(one_line(line1(LineKind::Success, "apk cache cleared"))),
        }
    }

    fn step_gentoo(&mut self, r: &Reply) -> (st: Step)
        requires
            old(self).stage == PkgStage::GentooEclean || old(self).stage
                == PkgStage::GentooDistfiles || old(self).stage == PkgStage::GentooConfirm
                || old(self).stage == PkgStage::GentooPackages || old(self).stage
                == PkgStage::GentooDistIsDir || old(self).stage == PkgStage::GentooFind
                || old(self).stage == PkgStage::PortageConf || old(self).stage
                == PkgStage::PortageExists || old(self).stage == PkgStage::PortageEmerge
                || old(self).stage == PkgStage::PortageSize || old(self).stage
                == PkgStage::PortageFind,
        ensures
            (final(self)@, st@) == pkg_next(old(self)@, r@),
    {
        let ok = flag_reply(r);
        match self.stage {
            PkgStage::GentooEclean => {
                if ok {
                    self.stage = PkgStage::GentooDistfiles;
                    ask_step(no_lines(), crate::plan::run1("eclean", "distfiles", true, true))
                } else {
                    let d = match &self.dir {
                        Some(d) => d.clone(),
                        None => String::new(),
                    };
                    assert(d@ == dir_or_empty(self@.dir));
                    self.stage = PkgStage::GentooDistIsDir;
                    ask_step(
                        one_line(
                            line1(LineKind::Warning, "eclean not found — install app-portage/gentoolkit"),
                        ),
                        Op::IsDir(d),
                    )
                }
            },
            PkgStage::GentooDistfiles => {
                let pre = one_line(ok_line(ok, "Distfiles cleaned", "eclean distfiles failed"));
                match should_deep(self.deep, self.yes) {
                    Gate::Run => {
                        self.stage = PkgStage::GentooPackages;
                        ask_step(pre, crate::plan::run1("eclean", "packages", true, true))
                    },
                    Gate::Skip => self.portage_start(pre),
                    Gate::Ask => {
                        self.stage = PkgStage::GentooConfirm;
                        ask_step(
                            pre,
                            Op::Confirm(String::from_str("Also clean binary packages? [y/N]:")),
                        )
                    },
                }
            },
            PkgStage::GentooConfirm => {
                if ok {
                    self.stage = PkgStage::GentooPackages;
                    ask_step(no_lines(), crate::plan::run1("eclean", "packages", true, true))
                } else {
                    self.portage_start(no_lines())
                }
            },
            PkgStage::GentooPackages => {
                let pre = if ok {
                    one_line(line1(LineKind::Success, "Binary packages cleaned"))
                } else {
                    no_lines()
                };
                self.portage_start(pre)
            },
            PkgStage::GentooDistIsDir => {
                if ok {
                    let d = match &self.dir {
                        Some(d) => d.clone(),
                        None => String::new(),
                    };
                    let mut args: Vec<String> = Vec::new();
                    args.push(d);
                    args.push(String::from_str("-type"));
                    args.push(String::from_str("f"));
                    args.push(String::from_str("-delete"));
                    assert(views(args@) =~= seq![dir_or_empty(self@.dir), "-type"@, "f"@, "-delete"@]);
                    self.stage = PkgStage::GentooFind;
                    ask_step(
                        no_lines(),
                        Op::Run { cmd: String::from_str("find"), args, elevated: true, quiet: true },
                    )
                } else {
                    self.portage_start(no_lines())
                }
            },
            PkgStage::GentooFind => self.portage_start(
                one_line(line1(LineKind::Success, "Distfiles cleaned")),
            ),
            PkgStage::PortageConf => {
                let b = portage_build_dir(text_reply(r));
                let op = Op::Exists(b.clone());
                self.build = b;
                self.stage = PkgStage::PortageExists;
                ask_step(no_lines(), op)
            },
            PkgStage::PortageExists => {
                if ok && portage_dir_is_safe(self.build.as_str()) {
                    self.stage = PkgStage::PortageEmerge;
                    ask_step(no_lines(), Op::EmergeRunning)
                } else {
                    self.finish(no_lines())
                }
            },
            PkgStage::PortageEmerge => {
                if ok {
                    self.finish(
                        one_line(line1(LineKind::Skip, "emerge is running — leaving build tmp untouched")),
                    )
                } else {
                    self.stage = PkgStage::PortageSize;
                    ask_step(no_lines(), Op::DirSize(self.build.clone()))
                }
            },
            PkgStage::PortageSize => {
                let size = size_reply(r);
                if size == 0 {
                    self.finish(no_lines())
                } else if self.dry_run {
                    let t = cat("[DRY RUN] Would clear failed-build leftovers in ", self.build.as_str());
                    let t = t.concat(" (");
                    let f = format_size(size);
                    let t = t.concat(f.as_str()).concat(")");
                    self.finish(one_line(line1s(LineKind::Info, t)))
                } else {
                    let mut args: Vec<String> = Vec::new();
                    args.push(self.build.clone());
                    args.push(String::from_str("-mindepth"));
                    args.push(String::from_str("1"));
                    args.push(String::from_str("-delete"));
                    assert(views(args@) =~= seq![self@.build, "-mindepth"@, "1"@, "-delete"@]);
                    self.psize = size;
                    self.stage = PkgStage::PortageFind;
                    ask_step(
                        no_lines(),
                        Op::Run { cmd: String::from_str("find"), args, elevated: true, quiet: true },
                    )
                }
            },
            _ => {
                self.extra = self.extra.saturating_add(self.psize);
                let l = line3(
                    LineKind::Success,
                    "Cleared portage build leftovers (",
                    format_size(self.psize),
                    Style::Green,
                    ")",
                );
                self.finish(one_line(l))
            },
        }
    }

    /// Feed the answer to the previous request; get the next step.
    pub fn step(&mut self, r: &Reply) -> (st: Step)
        ensures
            (final(self)@, st@) == pkg_next(old(self)@, r@),
    {
        match self.stage {
            PkgStage::ArchList | PkgStage::ArchSweep | PkgStage::ArchSc | PkgStage::ArchConfirm
            | PkgStage::ArchScc | PkgStage::DebClean | PkgStage::DebConfirm | PkgStage::DebAuto
            | PkgStage::FedoraPm | PkgStage::FedoraClean | PkgStage::SuseClean
            | PkgStage::SolusClean | PkgStage::ClearWhich | PkgStage::ClearClean => self.step_plain(r),
            PkgStage::NixCapture | PkgStage::NixScale | PkgStage::NixSudo | PkgStage::NixConfirm
            | PkgStage::NixUserD | PkgStage::NixSudoD | PkgStage::NixOptimise => self.step_nix(r),
            PkgStage::VoidConfirm | PkgStage::VoidClean | PkgStage::AlpineClean
            | PkgStage::AlpineConfirm | PkgStage::AlpineIsDir | PkgStage::AlpineFind => self.step_void_alpine(r),
            PkgStage::GentooEclean | PkgStage::GentooDistfiles | PkgStage::GentooConfirm
            | PkgStage::GentooPackages | PkgStage::GentooDistIsDir | PkgStage::GentooFind
            | PkgStage::PortageConf | PkgStage::PortageExists | PkgStage::PortageEmerge
            | PkgStage::PortageSize | PkgStage::PortageFind => self.step_gentoo(r),
            _ => self.step_start(r),
        }
    }
}


// ═══════════════════════════ Orphaned packages ═══════════════════════════

/// Decimal text of `n`.
pub fn dec_string(n: u64) -> (r: String)
    ensures
        r@ == crate::utils::dec(n as nat),
{
    let v = crate::utils::dec_exec(n as u128);
    string_of(v.as_slice())
}

#[derive(Debug, Clone, Copy, PartialEq, Eq, Structural)]
pub enum OrphanStage {
    Begin,
    Ostree,
    Readonly,
    ArchQuery,
    SuseQuery,
    FedoraPm,
    Confirm,
    Removing,
    Finished,
}

/// Remove packages nothing depends on any more.
pub struct Orphans {
    pub distro: Distro,
    pub dry_run: bool,
    pub yes: bool,
    pub stage: OrphanStage,
    pub pkgs: Vec<String>,
}

#[verifier::ext_equal]
pub struct OrphansV {
    pub distro: Distro,
    pub dry_run: bool,
    pub yes: bool,
    pub stage: OrphanStage,
    pub pkgs: Seq<Seq<char>>,
}

impl View for Orphans {
    type V = OrphansV;

    open spec fn view(&self) -> OrphansV {
        OrphansV {
            distro: self.distro,
            dry_run: self.dry_run,
            yes: self.yes,
            stage: self.stage,
            pkgs: views(self.pkgs@),
        }
    }
}

pub open spec fn ost(s: OrphansV, stage: OrphanStage) -> OrphansV {
    OrphansV { stage, ..s }
}

/// The listing line of one orphan: an indented dimmed bullet and the name.
pub open spec fn bullet(p: Seq<char>) -> LineV {
    l3(LineKind::Plain, "      "@, "\u{2022}"@, Style::Dimmed, " "@ + p)
}

pub open spec fn bullets(pkgs: Seq<Seq<char>>) -> Seq<LineV> {
    pkgs.map_values(|p: Seq<char>| bullet(p))
}

/// The privileged command that removes `pkgs`: pacman on Arch, zypper
/// otherwise (the only two distributions that list orphans first).
pub open spec fn removal(d: Distro, pkgs: Seq<Seq<char>>) -> OpV {
    if d == Distro::Arch {
        OpV::Run {
            cmd: "pacman"@,
            args: seq!["-Rns"@, "--noconfirm"@] + pkgs,
            elevated: true,
            quiet: false,
        }
    } else {
        OpV::Run {
            cmd: "zypper"@,
            args: seq!["remove"@, "-y"@, "--clean-deps"@] + pkgs,
            elevated: true,
            quiet: false,
        }
    }
}

/// The line reporting a removal's outcome.
pub open spec fn orphan_result(d: Distro, ok: bool) -> LineV {
    match d {
        Distro::Arch => ok_l(ok, "Orphans removed"@, "Failed to remove some orphans"@),
        Distro::Suse => ok_l(ok, "Orphans removed"@, "Failed to remove orphans"@),
        Distro::Void => if ok {
            l1(LineKind::Success, "Orphans removed"@)
        } else {
            l1(LineKind::Warning, "No orphans found or removal failed"@)
        },
        Distro::Gentoo => ok_l(ok, "Depclean done"@, "Depclean failed"@),
        Distro::Solus => if ok {
            l1(LineKind::Success, "Orphans removed"@)
        } else {
            l1(LineKind::Warning, "No orphans or removal failed"@)
        },
        _ => ok_l(ok, "Autoremove done"@, "Autoremove failed"@),
    }
}

pub open spec fn orphans_fin(s: OrphansV, lines: Seq<LineV>) -> (OrphansV, StepV) {
    (ost(s, OrphanStage::Finished), done(lines, 0))
}

/// Listed orphans: report them, then remove them unless this is a dry run,
/// asking first unless `--yes`.
pub open spec fn orphans_listed(s: OrphansV, pre: Seq<LineV>, pkgs: Seq<Seq<char>>) -> (OrphansV, StepV) {
    let s2 = OrphansV { pkgs, ..s };
    if s.dry_run {
        orphans_fin(s2, pre.push(l1(LineKind::Info, "[DRY RUN] Would remove above packages"@)))
    } else if s.yes {
        (ost(s2, OrphanStage::Removing), ask(pre, removal(s.distro, pkgs)))
    } else {
        (ost(s2, OrphanStage::Confirm), ask(pre, OpV::Confirm("Remove orphaned packages? [y/N]:"@)))
    }
}

/// A single removal command, announced by `note`, or its dry-run line.
pub open spec fn orphans_direct(s: OrphansV, dry: Seq<char>, note: Seq<char>, op: OpV) -> (OrphansV, StepV) {
    if s.dry_run {
        orphans_fin(s, seq![l1(LineKind::Info, dry)])
    } else {
        (ost(s, OrphanStage::Removing), ask(seq![l1(LineKind::Info, note)], op))
    }
}

/// Start the distribution's orphan handling.
pub open spec fn orphans_action(s: OrphansV) -> (OrphansV, StepV) {
    match s.distro {
        Distro::Arch => (
            ost(s, OrphanStage::ArchQuery),
            ask(seq![], OpV::Capture { cmd: "pacman"@, args: seq!["-Qdtq"@], trusted: true }),
        ),
        Distro::Debian => orphans_direct(
            s,
            "[DRY RUN] Would run: apt-get autoremove"@,
            "Running autoremove..."@,
            cmd("apt-get", seq!["autoremove", "-y"], true, false),
        ),
        Distro::Fedora => (ost(s, OrphanStage::FedoraPm), ask(seq![], OpV::WhichTrusted("dnf"@))),
        Distro::Suse => (
            ost(s, OrphanStage::SuseQuery),
            ask(
                seq![],
                OpV::Capture { cmd: "zypper"@, args: seq!["packages"@, "--orphaned"@], trusted: true },
            ),
        ),
        Distro::Nix => orphans_fin(
            s,
            seq![l1(LineKind::Info, "NixOS handles orphans via garbage collection (already covered)"@)],
        ),
        Distro::Void => orphans_direct(
            s,
            "[DRY RUN] Would run: xbps-remove -o"@,
            "Removing orphans..."@,
            cmd("xbps-remove", seq!["-o", "-y"], true, false),
        ),
        Distro::Alpine => orphans_fin(
            s,
            seq![
                l1(
                    LineKind::Success,
                    "apk removes unused dependencies automatically on 'apk del' — nothing to clean"@,
                ),
            ],
        ),
        Distro::Gentoo => orphans_direct(
            s,
            "[DRY RUN] Would run: emerge --depclean"@,
            "Running depclean..."@,
            cmd("emerge", seq!["--depclean"], true, false),
        ),
        Distro::Solus => orphans_direct(
            s,
            "[DRY RUN] Would remove orphans"@,
            "Removing orphans..."@,
            cmd("eopkg", seq!["remove-orphans", "-y"], true, false),
        ),
        Distro::Clear => orphans_fin(
            s,
            seq![l1(LineKind::Info, "Clear Linux auto-manages dependencies via swupd bundles"@)],
        ),
        Distro::Unknown => orphans_fin(s, seq![]),
    }
}

/// One transition of the orphan removal.
pub open spec fn orphans_next(s: OrphansV, r: ReplyV) -> (OrphansV, StepV) {
    let ok = flag_of(r);
    match s.stage {
        OrphanStage::Begin => (
            ost(s, OrphanStage::Ostree),
            ask(seq![l1(LineKind::Section, "Orphaned Packages"@)], OpV::IsOstree),
        ),
        OrphanStage::Ostree => if ok {
            orphans_fin(
                s,
                seq![
                    l1(
                        LineKind::Skip,
                        "Atomic system — packages are part of the OS image, no orphans to remove"@,
                    ),
                ],
            )
        } else {
            (ost(s, OrphanStage::Readonly), ask(seq![], OpV::IsReadonlyRootfs))
        },
        OrphanStage::Readonly => if ok {
            orphans_fin(
                s,
                seq![
                    l1(
                        LineKind::Skip,
                        "Immutable/read-only system — package removal handled by atomic updates"@,
                    ),
                ],
            )
        } else if s.distro == Distro::Unknown {
            orphans_fin(s, seq![l1(LineKind::Skip, "Unknown distribution — skipped"@)])
        } else {
            orphans_action(s)
        },
        OrphanStage::ArchQuery => {
            let out = text_or_empty(r);
            if out.len() == 0 {
                orphans_fin(s, seq![l1(LineKind::Success, "No orphans found"@)])
            } else {
                let pkgs = lines(out);
                orphans_listed(
                    s,
                    seq![
                        l1(
                            LineKind::Info,
                            "Found "@ + crate::utils::dec(pkgs.len()) + " orphan(s):"@,
                        ),
                    ] + bullets(pkgs),
                    pkgs,
                )
            }
        },
        OrphanStage::SuseQuery => {
            let out = text_or_empty(r);
            let pkgs = crate::parse::zypper_names(lines(out));
            if out.len() == 0 || !crate::text::contains(out, "|"@) || pkgs.len() == 0 {
                orphans_fin(s, seq![l1(LineKind::Success, "No orphans found"@)])
            } else {
                orphans_listed(
                    s,
                    seq![
                        l1(
                            LineKind::Info,
                            "Found "@ + crate::utils::dec(pkgs.len()) + " orphan(s)"@,
                        ),
                    ],
                    pkgs,
                )
            }
        },
        OrphanStage::FedoraPm => orphans_direct(
            s,
            "[DRY RUN] Would run: "@ + fedora_pm(ok)@ + " autoremove"@,
            "Running autoremove..."@,
            cmd(fedora_pm(ok), seq!["autoremove", "-y"], true, false),
        ),
        OrphanStage::Confirm => if ok {
            (ost(s, OrphanStage::Removing), ask(seq![], removal(s.distro, s.pkgs)))
        } else {
            orphans_fin(s, seq![])
        },
        OrphanStage::Removing => orphans_fin(s, seq![orphan_result(s.distro, ok)]),
        OrphanStage::Finished => (s, done(seq![], 0)),
    }
}

/// Start removing orphaned packages on `distro`.
pub fn orphans(distro: &Distro, dry_run: bool, yes: bool) -> (m: Orphans)
    ensures
        m@ == (OrphansV {
            distro: *distro,
            dry_run,
            yes,
            stage: OrphanStage::Begin,
            pkgs: seq![],
        }),
{
    let m = Orphans { distro: *distro, dry_run, yes, stage: OrphanStage::Begin, pkgs: Vec::new() };
    assert(m@.pkgs =~= seq![]);
    m
}

/// `head` followed by `rest`, as command arguments.
pub fn append_args(head: Vec<String>, rest: &Vec<String>) -> (v: Vec<String>)
    ensures
        views(v@) == views(head@) + views(rest@),
{
    let mut v = head;
    let ghost h = views(v@);
    let mut i: usize = 0;
    while i < rest.len()
        invariant
            0 <= i <= rest.len(),
            views(v@) == h + views(rest@).take(i as int),
        decreases rest.len() - i,
    {
        let ghost before = views(v@);
        v.push(rest[i].clone());
        assert(views(v@) =~= before.push(rest@[i as int]@));
        assert(views(rest@).take(i + 1) =~= views(rest@).take(i as int).push(rest@[i as int]@));
        i = i + 1;
    }
    assert(views(rest@).take(rest.len() as int) =~= views(rest@));
    v
}

/// The listing lines of `pkgs`.
fn bullet_lines(pkgs: &Vec<String>) -> (v: Vec<Line>)
    ensures
        line_views(v@) == bullets(views(pkgs@)),
{
    let mut v: Vec<Line> = Vec::new();
    let mut i: usize = 0;
    while i < pkgs.len()
        invariant
            0 <= i <= pkgs.len(),
            line_views(v@) == bullets(views(pkgs@)).take(i as int),
        decreases pkgs.len() - i,
    {
        let ghost before = line_views(v@);
        let c = cat(" ", pkgs[i].as_str());
        let l2 = line3(LineKind::Plain, "      ", String::from_str("\u{2022}"), Style::Dimmed, c.as_str());
        assert(l2@ =~~= bullet(pkgs@[i as int]@));
        crate::plan::push_line(&mut v, l2);
        assert(bullets(views(pkgs@)).take(i + 1) =~= bullets(views(pkgs@)).take(i as int).push(
            bullet(pkgs@[i as int]@),
        ));
        i = i + 1;
    }
    assert(bullets(views(pkgs@)).take(pkgs.len() as int) =~= bullets(views(pkgs@)));
    v
}

impl Orphans {
    fn fin(&mut self, lines: Vec<Line>) -> (st: Step)
        ensures
            (final(self)@, st@) == orphans_fin(old(self)@, line_views(lines@)),
    {
        self.stage = OrphanStage::Finished;
        done_step(lines, 0)
    }

    fn removal_op(&self) -> (op: Op)
        ensures
            op@ == removal(self@.distro, self@.pkgs),
    {
        if self.distro == Distro::Arch {
            let mut head: Vec<String> = Vec::new();
            head.push(String::from_str("-Rns"));
            head.push(String::from_str("--noconfirm"));
            assert(views(head@) =~= seq!["-Rns"@, "--noconfirm"@]);
            Op::Run {
                cmd: String::from_str("pacman"),
                args: append_args(head, &self.pkgs),
                elevated: true,
                quiet: false,
            }
        } else {
            let mut head: Vec<String> = Vec::new();
            head.push(String::from_str("remove"));
            head.push(String::from_str("-y"));
            head.push(String::from_str("--clean-deps"));
            assert(views(head@) =~= seq!["remove"@, "-y"@, "--clean-deps"@]);
            Op::Run {
                cmd: String::from_str("zypper"),
                args: append_args(head, &self.pkgs),
                elevated: true,
                quiet: false,
            }
        }
    }

    fn listed(&mut self, pre: Vec<Line>, pkgs: Vec<String>) -> (st: Step)
        ensures
            (final(self)@, st@) == orphans_listed(old(self)@, line_views(pre@), views(pkgs@)),
    {
        self.pkgs = pkgs;
        let mut pre = pre;
        if self.dry_run {
            crate::plan::push_line(&mut pre, line1(LineKind::Info, "[DRY RUN] Would remove above packages"));
            self.fin(pre)
        } else if self.yes {
            self.stage = OrphanStage::Removing;
            let op = self.removal_op();
            ask_step(pre, op)
        } else {
            self.stage = OrphanStage::Confirm;
            ask_step(pre, Op::Confirm(String::from_str("Remove orphaned packages? [y/N]:")))
        }
    }

    fn direct(&mut self, dry: String, note: &str, op: Op) -> (st: Step)
        ensures
            (final(self)@, st@) == orphans_direct(old(self)@, dry@, note@, op@),
    {
        if self.dry_run {
            self.fin(one_line(line1s(LineKind::Info, dry)))
        } else {
            self.stage = OrphanStage::Removing;
            ask_step(one_line(line1(LineKind::Info, note)), op)
        }
    }

    fn action(&mut self) -> (st: Step)
        ensures
            (final(self)@, st@) == orphans_action(old(self)@),
    {
        match self.distro {
            Distro::Arch => {
                self.stage = OrphanStage::ArchQuery;
                ask_step(no_lines(), crate::plan::capture1("pacman", "-Qdtq", true))
            },
            Distro::Debian => self.direct(
                String::from_str("[DRY RUN] Would run: apt-get autoremove"),
                "Running autoremove...",
                crate::plan::run2("apt-get", "autoremove", "-y", true, false),
            ),
            Distro::Fedora => {
                self.stage = OrphanStage::FedoraPm;
                ask_step(no_lines(), Op::WhichTrusted(String::from_str("dnf")))
            },
            Distro::Suse => {
                self.stage = OrphanStage::SuseQuery;
                ask_step(no_lines(), crate::plan::capture2("zypper", "packages", "--orphaned", true))
            },
            Distro::Nix => self.fin(
                one_line(
                    line1(LineKind::Info, "NixOS handles orphans via garbage collection (already covered)"),
                ),
            ),
            Distro::Void => self.direct(
                String::from_str("[DRY RUN] Would run: xbps-remove -o"),
                "Removing orphans...",
                crate::plan::run2("xbps-remove", "-o", "-y", true, false),
            ),
            Distro::Alpine => self.fin(
                one_line(
                    line1(
                        LineKind::Success,
                        "apk removes unused dependencies automatically on 'apk del' — nothing to clean",
                    ),
                ),
            ),
            Distro::Gentoo => self.direct(
                String::from_str("[DRY RUN] Would run: emerge --depclean"),
                "Running depclean...",
                crate::plan::run1("emerge", "--depclean", true, false),
            ),
            Distro::Solus => self.direct(
                String::from_str("[DRY RUN] Would remove orphans"),
                "Removing orphans...",
                crate::plan::run2("eopkg", "remove-orphans", "-y", true, false),
            ),
            Distro::Clear => self.fin(
                one_line(line1(LineKind::Info, "Clear Linux auto-manages dependencies via swupd bundles")),
            ),
            Distro::Unknown => self.fin(no_lines()),
        }
    }

    /// Feed the answer to the previous request; get the next step.
    pub fn step(&mut self, r: &Reply) -> (st: Step)
        ensures
            (final(self)@, st@) == orphans_next(old(self)@, r@),
    {
        let ok = flag_reply(r);
        match self.stage {
            OrphanStage::Begin => {
                self.stage = OrphanStage::Ostree;
                ask_step(one_line(line1(LineKind::Section, "Orphaned Packages")), Op::IsOstree)
            },
            OrphanStage::Ostree => {
                if ok {
                    self.fin(
                        one_line(
                            line1(
                                LineKind::Skip,
                                "Atomic system — packages are part of the OS image, no orphans to remove",
                            ),
                        ),
                    )
                } else {
                    self.stage = OrphanStage::Readonly;
                    ask_step(no_lines(), Op::IsReadonlyRootfs)
                }
            },
            OrphanStage::Readonly => {
                if ok {
                    self.fin(
                        one_line(
                            line1(
                                LineKind::Skip,
                                "Immutable/read-only system — package removal handled by atomic updates",
                            ),
                        ),
                    )
                } else if self.distro == Distro::Unknown {
                    self.fin(one_line(line1(LineKind::Skip, "Unknown distribution — skipped")))
                } else {
                    self.action()
                }
            },
            OrphanStage::ArchQuery => {
                let out = text_reply(r);
                let cs = chars_of(out);
                if cs.len() == 0 {
                    self.fin(one_line(line1(LineKind::Success, "No orphans found")))
                } else {
                    let ls = crate::text::lines_exec(cs.as_slice());
                    let mut pkgs: Vec<String> = Vec::new();
                    let mut i: usize = 0;
                    while i < ls.len()
                        invariant
                            0 <= i <= ls.len(),
                            views(pkgs@) == cviews_take(ls@, i as int),
                        decreases ls.len() - i,
                    {
                        let ghost before = views(pkgs@);
                        pkgs.push(string_of(ls[i].as_slice()));
                        assert(views(pkgs@) =~= before.push(ls@[i as int]@));
                        assert(cviews_take(ls@, i + 1) =~= cviews_take(ls@, i as int).push(
                            ls@[i as int]@,
                        ));
                        i = i + 1;
                    }
                    assert(cviews_take(ls@, ls.len() as int) =~= crate::text::cviews(ls@));
                    let n = dec_string(pkgs.len() as u64);
                    let t = cat("Found ", n.as_str()).concat(" orphan(s):");
                    let mut pre = one_line(line1s(LineKind::Info, t));
                    let mut bl = bullet_lines(&pkgs);
                    let ghost p0 = pre@;
                    let ghost b0 = bl@;
                    pre.append(&mut bl);
                    assert(pre@ =~= p0 + b0);
                    assert(line_views(pre@) =~= line_views(p0) + line_views(b0));
                    self.listed(pre, pkgs)
                }
            },
            OrphanStage::SuseQuery => {
                let out = text_reply(r);
                let cs = chars_of(out);
                let pkgs = crate::parse::zypper_orphans(out);
                if cs.len() == 0 || !crate::text::contains_text(cs.as_slice(), "|") || pkgs.len() == 0 {
                    self.fin(one_line(line1(LineKind::Success, "No orphans found")))
                } else {
                    let n = dec_string(pkgs.len() as u64);
                    let t = cat("Found ", n.as_str()).concat(" orphan(s)");
                    self.listed(one_line(line1s(LineKind::Info, t)), pkgs)
                }
            },
            OrphanStage::FedoraPm => {
                let pm = if ok {
                    "dnf"
                } else {
                    "yum"
                };
                let dry = cat("[DRY RUN] Would run: ", pm).concat(" autoremove");
                self.direct(dry, "Running autoremove...", crate::plan::run2(pm, "autoremove", "-y", true, false))
            },
            OrphanStage::Confirm => {
                if ok {
                    self.stage = OrphanStage::Removing;
                    let op = self.removal_op();
                    ask_step(no_lines(), op)
                } else {
                    self.fin(no_lines())
                }
            },
            OrphanStage::Removing => {
                let l = match self.distro {
                    Distro::Arch => ok_line(ok, "Orphans removed", "Failed to remove some orphans"),
                    Distro::Suse => ok_line(ok, "Orphans removed", "Failed to remove orphans"),
                    Distro::Void => if ok {
                        line1(LineKind::Success, "Orphans removed")
                    } else {
                        line1(LineKind::Warning, "No orphans found or removal failed")
                    },
                    Distro::Gentoo => ok_line(ok, "Depclean done", "Depclean failed"),
                    Distro::Solus => if ok {
                        line1(LineKind::Success, "Orphans removed")
                    } else {
                        line1(LineKind::Warning, "No orphans or removal failed")
                    },
                    _ => ok_line(ok, "Autoremove done", "Autoremove failed"),
                };
                self.fin(one_line(l))
            },
            OrphanStage::Finished => done_step(no_lines(), 0),
        }
    }
}

pub open spec fn cviews_take(v: Seq<Vec<char>>, i: int) -> Seq<Seq<char>> {
    crate::text::cviews(v).take(i)
}

} // verus!
