//! Properties of the library as a whole, each proved over the same spec
//! functions the operations' own contracts use.
use vstd::prelude::*;
use crate::cli::{first_unknown, resolution, skippable, skipped, Ops, Selection};
use crate::detect::{aur_table, AurHelper};
use crate::paths::{
    add_relocations, dev_dirs, held_helper_dirs, model_dirs, protected_names, split_entries,
};
use crate::text::{views, contains, starts_with, drop_while, trim, split_char};
use crate::utils::set_once;
use crate::detect::{Distro, DiskType, Privilege};
use crate::plan::{cmd, flag_of, text_of, text_or_empty, NextV, OpV, ReplyV};
use crate::text::lines;
use crate::packages::{pkg_next, removal, orphans_next, OrphanStage, OrphansV, PkgStage, PkgV};
use crate::clean::{trash_next, TrashV};
use crate::system::{
    dumps_next, journal_next, journal_scan, nix_next, trim_next, CoredumpsV, DumpStage,
    JournalStage, JournalV, NixGcV, NixStage, TrimStage, TrimV,
};
use crate::parse::{unit_shift_spec, usage_candidates};
use crate::bundles::{flatpak_next, snap_next, FlatpakStage, FlatpakV, SnapStage, SnapV};
use crate::usercache::{aur_next, user_next, AurCacheV, AurStage, UserCacheV};
use crate::update::{
    elf_magic, ownership_spec, upd_next, verdict_spec, SelfUpdateV, UpdStage,
};
use crate::plan::{code_of, data_of, names_of, size_of, LineV, StepV};
use crate::clean::sat_add;
use crate::dev::{
    at_valid, clean_from, cmd_done, dev_next, home_path, lookup, phase, remaining, resolve, resolved,
    rest, scan_done, scan_from, summary_lines, clear_next, clear_targets, ClearExceptV, ClearStage,
    Cleaner, DevRunV, DevStage, Loc, Presence, Purpose,
};
use crate::text::path_join;
use crate::session::{ev, plan_spec, privilege_gate_spec, when_entry, EntryV, PrivGate, Task};

verus! {

// ═══════════════════════════ Selecting operations ═══════════════════════════

/// `--dev` and `--trim` are opt-in only: whatever `--all` and `--skip` say,
/// each is on exactly when its own flag is given.
pub proof fn all_never_enables_dev_or_trim(sel: Selection)
    ensures
        resolution(sel) matches Ok(o) ==> o.dev == sel.dev && o.trim == sel.trim,
{
}

/// `--skip` only subtracts: an operation is on only when `--all` or its own
/// flag asked for it.
pub proof fn skip_only_subtracts(sel: Selection)
    ensures
        resolution(sel) matches Ok(o) ==> {
            &&& o.cache ==> sel.all || sel.cache
            &&& o.packages ==> sel.all || sel.packages
            &&& o.orphans ==> sel.all || sel.orphans
            &&& o.aur ==> sel.all || sel.aur
            &&& o.flatpak ==> sel.all || sel.flatpak
            &&& o.snap ==> sel.all || sel.snap
            &&& o.journal ==> sel.all || sel.journal
            &&& o.trash ==> sel.all || sel.trash
            &&& o.coredumps ==> sel.all || sel.coredumps
        },
{
}

/// A skipped operation is off, and under `--all` every operation not
/// skipped is on.
pub proof fn all_minus_skip(sel: Selection)
    ensures
        resolution(sel) matches Ok(o) ==> {
            &&& o.cache == ((sel.all || sel.cache) && !skipped(views(sel.skip@), "cache"@))
            &&& o.packages == ((sel.all || sel.packages) && !skipped(views(sel.skip@), "packages"@))
            &&& o.orphans == ((sel.all || sel.orphans) && !skipped(views(sel.skip@), "orphans"@))
            &&& o.aur == ((sel.all || sel.aur) && !skipped(views(sel.skip@), "aur"@))
            &&& o.flatpak == ((sel.all || sel.flatpak) && !skipped(views(sel.skip@), "flatpak"@))
            &&& o.snap == ((sel.all || sel.snap) && !skipped(views(sel.skip@), "snap"@))
            &&& o.journal == ((sel.all || sel.journal) && !skipped(views(sel.skip@), "journal"@))
            &&& o.trash == ((sel.all || sel.trash) && !skipped(views(sel.skip@), "trash"@))
            &&& o.coredumps == ((sel.all || sel.coredumps) && !skipped(
                views(sel.skip@),
                "coredumps"@,
            ))
        },
{
}

/// `--skip` is refused without `--all`.
pub proof fn skip_needs_all(sel: Selection)
    requires
        sel.skip@.len() > 0,
        !sel.all,
    ensures
        resolution(sel) is Err,
{
}

/// Every accepted skip name, trimmed, is an operation `--all` turns on.
pub proof fn accepted_skips_are_skippable(sel: Selection)
    ensures
        resolution(sel) is Ok ==> forall|i: int|
            0 <= i < sel.skip@.len() ==> skippable().contains(
                crate::text::trim(#[trigger] views(sel.skip@)[i]),
            ),
{
    if resolution(sel) is Ok {
        lemma_no_unknown(views(sel.skip@));
    }
}

proof fn lemma_no_unknown(skip: Seq<Seq<char>>)
    ensures
        first_unknown(skip) is None ==> forall|i: int|
            0 <= i < skip.len() ==> skippable().contains(crate::text::trim(#[trigger] skip[i])),
    decreases skip.len(),
{
    if skip.len() > 0 {
        lemma_no_unknown(skip.drop_last());
        if first_unknown(skip) is None {
            assert forall|i: int| 0 <= i < skip.len() implies skippable().contains(
                crate::text::trim(#[trigger] skip[i]),
            ) by {
                if i < skip.len() - 1 {
                    assert(skip[i] == skip.drop_last()[i]);
                }
            }
        }
    }
}

// ═══════════════════════════ Protected caches ═══════════════════════════

/// Splitting cache entries loses nothing and mixes nothing: every entry
/// lands on exactly one side, nothing protected is selected for cleaning,
/// and everything spared is protected.
pub proof fn partition_spares_protected(names: Seq<Seq<char>>, protected: Seq<Seq<char>>)
    ensures
        split_entries(names, protected).0.len() + split_entries(names, protected).1.len() == names.len(),
        forall|i: int|
            0 <= i < split_entries(names, protected).0.len() ==> !protected.contains(
                #[trigger] split_entries(names, protected).0[i],
            ) && names.contains(split_entries(names, protected).0[i]),
        forall|i: int|
            0 <= i < split_entries(names, protected).1.len() ==> protected.contains(
                #[trigger] split_entries(names, protected).1[i],
            ),
    decreases names.len(),
{
    if names.len() > 0 {
        partition_spares_protected(names.drop_last(), protected);
        let (c, s) = split_entries(names.drop_last(), protected);
        assert forall|i: int| 0 <= i < c.len() implies names.contains(#[trigger] c[i]) by {
            let j = choose|j: int| 0 <= j < names.drop_last().len() && names.drop_last()[j] == c[i];
            assert(names[j] == c[i]);
        }
        assert(names[names.len() - 1] == names.last());
    }
}

/// Relocations only ever add names.
proof fn lemma_relocations_keep(names: Seq<Seq<char>>, base: Seq<char>, hf: Seq<Seq<char>>, x: Seq<char>)
    requires
        names.contains(x),
    ensures
        add_relocations(names, base, hf).contains(x),
    decreases hf.len(),
{
    if hf.len() > 0 {
        lemma_relocations_keep(names, base, hf.drop_last(), x);
        let before = add_relocations(names, base, hf.drop_last());
        let j = choose|j: int| 0 <= j < before.len() && before[j] == x;
        assert forall|y: Seq<char>| #[trigger] before.push(y).contains(x) by {
            assert(before.push(y)[j] == x);
        }
    }
}

/// Model weights and dev-tool caches are protected from a `--cache` wipe
/// whatever the helpers, the AUR section and the Hugging Face variables.
pub proof fn models_and_dev_caches_always_protected(
    base: Seq<char>,
    helpers: Seq<AurHelper>,
    aur_running: bool,
    hf: Seq<Seq<char>>,
    name: Seq<char>,
)
    requires
        model_dirs().contains(name) || dev_dirs().contains(name),
    ensures
        protected_names(base, helpers, aur_running, hf).contains(name),
{
    let fixed = model_dirs() + dev_dirs() + held_helper_dirs(helpers, aur_running);
    if model_dirs().contains(name) {
        let j = choose|j: int| 0 <= j < model_dirs().len() && model_dirs()[j] == name;
        assert(fixed[j] == name);
    } else {
        let j = choose|j: int| 0 <= j < dev_dirs().len() && dev_dirs()[j] == name;
        assert(fixed[model_dirs().len() + j] == name);
    }
    lemma_relocations_keep(fixed, base, hf, name);
}

proof fn lemma_held(hs: Seq<AurHelper>, aur_running: bool, j: int)
    requires
        0 <= j < hs.len(),
        aur_running || hs[j].clean is None,
    ensures
        held_helper_dirs(hs, aur_running).contains(hs[j].bin@),
    decreases hs.len(),
{
    let rest = held_helper_dirs(hs.drop_last(), aur_running);
    if j == hs.len() - 1 {
        assert(rest.push(hs.last().bin@)[rest.len() as int] == hs[j].bin@);
    } else {
        assert(hs.drop_last()[j] == hs[j]);
        lemma_held(hs.drop_last(), aur_running, j);
        let k = choose|k: int| 0 <= k < rest.len() && rest[k] == hs[j].bin@;
        if aur_running || hs.last().clean is None {
            assert(rest.push(hs.last().bin@)[k] == hs[j].bin@);
        }
    }
}

/// A helper's cache dir is held back from a `--cache` wipe when the AUR
/// section runs (it cleans the dir itself), and a hand-pruned helper's dir
/// (which keeps state, such as aura's snapshots) always.
pub proof fn helper_dirs_held_back(
    base: Seq<char>,
    helpers: Seq<AurHelper>,
    aur_running: bool,
    hf: Seq<Seq<char>>,
    j: int,
)
    requires
        0 <= j < helpers.len(),
        aur_running || helpers[j].clean is None,
    ensures
        protected_names(base, helpers, aur_running, hf).contains(helpers[j].bin@),
{
    lemma_held(helpers, aur_running, j);
    let held = held_helper_dirs(helpers, aur_running);
    let fixed = model_dirs() + dev_dirs() + held;
    let k = choose|k: int| 0 <= k < held.len() && held[k] == helpers[j].bin@;
    assert(fixed[model_dirs().len() + dev_dirs().len() + k] == helpers[j].bin@);
    lemma_relocations_keep(fixed, base, hf, helpers[j].bin@);
}

proof fn lemma_not_held(hs: Seq<AurHelper>, name: Seq<char>)
    requires
        forall|k: int| 0 <= k < hs.len() && #[trigger] hs[k].bin@ == name ==> hs[k].clean is Some,
    ensures
        !held_helper_dirs(hs, false).contains(name),
    decreases hs.len(),
{
    if hs.len() > 0 {
        assert forall|k: int| 0 <= k < hs.drop_last().len() && #[trigger] hs.drop_last()[k].bin@ == name
            implies hs.drop_last()[k].clean is Some by {
            assert(hs.drop_last()[k] == hs[k]);
        }
        lemma_not_held(hs.drop_last(), name);
        let rest = held_helper_dirs(hs.drop_last(), false);
        if hs.last().clean is None {
            assert(hs[hs.len() - 1] == hs.last());
            assert(hs.last().bin@ != name);
            assert forall|k: int| 0 <= k < rest.push(hs.last().bin@).len() implies rest.push(
                hs.last().bin@,
            )[k] != name by {
                if k < rest.len() {
                    assert(rest.push(hs.last().bin@)[k] == rest[k]);
                }
            }
        }
    }
}

/// Deferring to the AUR section never strands a cache: when that section
/// does not run, a command-driven helper's dir is not held back (unless it
/// is also a protected name, or a hand-pruned helper shares it).
pub proof fn deferral_never_strands(base: Seq<char>, helpers: Seq<AurHelper>, name: Seq<char>)
    requires
        !model_dirs().contains(name),
        !dev_dirs().contains(name),
        forall|k: int| 0 <= k < helpers.len() && #[trigger] helpers[k].bin@ == name ==> helpers[k].clean is Some,
    ensures
        !protected_names(base, helpers, false, seq![]).contains(name),
{
    lemma_not_held(helpers, name);
    let held = held_helper_dirs(helpers, false);
    let fixed = model_dirs() + dev_dirs() + held;
    assert(add_relocations(fixed, base, seq![]) == fixed);
    assert forall|i: int| 0 <= i < fixed.len() implies fixed[i] != name by {
        if i < model_dirs().len() {
            assert(fixed[i] == model_dirs()[i]);
        } else if i < model_dirs().len() + dev_dirs().len() {
            assert(fixed[i] == dev_dirs()[i - model_dirs().len()]);
        } else {
            assert(fixed[i] == held[i - model_dirs().len() - dev_dirs().len()]);
        }
    }
}

// ═══════════════════════════ The AUR helper table ═══════════════════════════

/// Every supported helper is cleaned exactly one way: by its own command or
/// by pruning directories, never both and never neither; deep flags exist
/// only beside safe ones.
pub proof fn every_helper_cleanable_one_way()
    ensures
        forall|i: int|
            0 <= i < aur_table().len() ==> ((#[trigger] aur_table()[i]).clean is Some) != (
            aur_table()[i].prune_dirs.len() > 0) && (aur_table()[i].clean is None
                ==> aur_table()[i].deep_clean is None),
{
    assert forall|i: int| 0 <= i < aur_table().len() implies ((#[trigger] aur_table()[i]).clean is Some)
        != (aur_table()[i].prune_dirs.len() > 0) && (aur_table()[i].clean is None
        ==> aur_table()[i].deep_clean is None) by {
        reveal_strlit("builds");
        assert(0 <= i <= 4);
    }
}

/// What is pruned by hand is never user state: no prune directory is
/// `snapshots` (restore points) or `hashes` (build bookkeeping), every one
/// is a plain non-empty child name, and none is listed in both modes.
pub proof fn pruned_dirs_are_plain_cache_dirs()
    ensures
        forall|i: int, k: int|
            #![trigger aur_table()[i].prune_dirs[k]]
            0 <= i < aur_table().len() && 0 <= k < aur_table()[i].prune_dirs.len() ==> {
                let d = aur_table()[i].prune_dirs[k];
                &&& d != "snapshots"@ && d != "hashes"@ && d.len() > 0
                &&& !d.contains('/') && !contains(d, ".."@)
                &&& !aur_table()[i].prune_dirs_deep.contains(d)
            },
        forall|i: int, k: int|
            #![trigger aur_table()[i].prune_dirs_deep[k]]
            0 <= i < aur_table().len() && 0 <= k < aur_table()[i].prune_dirs_deep.len() ==> {
                let d = aur_table()[i].prune_dirs_deep[k];
                &&& d != "snapshots"@ && d != "hashes"@ && d.len() > 0
                &&& !d.contains('/') && !contains(d, ".."@)
            },
{
    reveal_strlit("builds");
    reveal_strlit("cache");
    reveal_strlit("packages");
    reveal_strlit("snapshots");
    reveal_strlit("hashes");
    reveal_strlit("..");
    assert forall|i: int, k: int|
        #![trigger aur_table()[i].prune_dirs[k]]
        0 <= i < aur_table().len() && 0 <= k < aur_table()[i].prune_dirs.len() implies {
            let d = aur_table()[i].prune_dirs[k];
            &&& d != "snapshots"@ && d != "hashes"@ && d.len() > 0
            &&& !d.contains('/') && !contains(d, ".."@)
            &&& !aur_table()[i].prune_dirs_deep.contains(d)
        } by {
        assert(i == 4 && k == 0);
        let d = aur_table()[i].prune_dirs[k];
        assert(d =~= seq!['b', 'u', 'i', 'l', 'd', 's']);
        assert(!d.contains('/'));
        assert(!contains(d, ".."@)) by {
            assert forall|j: int| !occurs_at(d, ".."@, j) by {
                if 0 <= j && j + 2 <= d.len() {
                    assert(d.subrange(j, j + 2)[0] == d[j]);
                }
            }
        }
        assert(aur_table()[i].prune_dirs_deep =~= seq!["cache"@, "packages"@]);
        assert("cache"@.len() == 5);
        assert("packages"@.len() == 8);
        assert(!aur_table()[i].prune_dirs_deep.contains(d));
        assert(d != "snapshots"@ && d != "hashes"@);
    }
    assert forall|i: int, k: int|
        #![trigger aur_table()[i].prune_dirs_deep[k]]
        0 <= i < aur_table().len() && 0 <= k < aur_table()[i].prune_dirs_deep.len() implies {
            let d = aur_table()[i].prune_dirs_deep[k];
            &&& d != "snapshots"@ && d != "hashes"@ && d.len() > 0
            &&& !d.contains('/') && !contains(d, ".."@)
        } by {
        assert(i == 4);
        let d = aur_table()[i].prune_dirs_deep[k];
        assert(d == "cache"@ || d == "packages"@);
        if d == "cache"@ {
            assert(d =~= seq!['c', 'a', 'c', 'h', 'e']);
        } else {
            assert(d =~= seq!['p', 'a', 'c', 'k', 'a', 'g', 'e', 's']);
        }
        assert(!d.contains('/'));
        assert(!contains(d, ".."@)) by {
            assert forall|j: int| !occurs_at(d, ".."@, j) by {
                if 0 <= j && j + 2 <= d.len() {
                    assert(d.subrange(j, j + 2)[0] == d[j]);
                }
            }
        }
    }
}

use crate::text::occurs_at;

/// Every helper with its own clean command never waits on stdin (both flag
/// sets carry `--noconfirm`), and its deep flags differ from its safe ones.
pub proof fn command_helpers_noninteractive_and_distinct()
    ensures
        forall|i: int|
            0 <= i < aur_table().len() && (#[trigger] aur_table()[i]).clean is Some
                && aur_table()[i].deep_clean is Some ==> aur_table()[i].clean->0.contains(
                "--noconfirm"@,
            ) && aur_table()[i].deep_clean->0.contains("--noconfirm"@) && aur_table()[i].clean->0
                != aur_table()[i].deep_clean->0,
{
    reveal_strlit("-Sc");
    reveal_strlit("-Scc");
    reveal_strlit("-Sca");
    reveal_strlit("-Scca");
    assert forall|i: int|
        0 <= i < aur_table().len() && (#[trigger] aur_table()[i]).clean is Some
            && aur_table()[i].deep_clean is Some implies aur_table()[i].clean->0.contains(
            "--noconfirm"@,
        ) && aur_table()[i].deep_clean->0.contains("--noconfirm"@) && aur_table()[i].clean->0
            != aur_table()[i].deep_clean->0 by {
        let c = aur_table()[i].clean->0;
        let d = aur_table()[i].deep_clean->0;
        assert(c[1] == "--noconfirm"@);
        assert(d[1] == "--noconfirm"@);
        assert("-Sc"@.len() == 3);
        assert("-Scc"@.len() == 4);
        assert("-Sca"@.len() == 4);
        assert("-Scca"@.len() == 5);
        assert(0 <= i < 4);
        if i == 2 {
            assert(c[0] == "-Sca"@ && d[0] == "-Scca"@);
        } else {
            assert(c[0] == "-Sc"@ && d[0] == "-Scc"@);
        }
        assert(c[0] != d[0]);
    }
}

// ═══════════════════════════ Settings ═══════════════════════════

/// A setting is recorded once: the first value set wins over any later one.
pub proof fn first_setting_wins<T>(v: T, w: T)
    ensures
        set_once(set_once(None, v), w) == Some(v),
{
}


// ═══════════════════════════ Dry runs and prompts ═══════════════════════════

/// The step asks to change the system: run a command, empty a directory or
/// remove an entry.
pub open spec fn changes_system(n: NextV) -> bool {
    match n {
        NextV::Ask(op) => op is Run || op is RmContents || op is Remove,
        NextV::Done(_) => false,
    }
}

/// The step asks the user a question.
pub open spec fn prompts(n: NextV) -> bool {
    match n {
        NextV::Ask(op) => op is Confirm,
        NextV::Done(_) => false,
    }
}

pub open spec fn pkg_dry_states(s: PkgV) -> bool {
    s.dry_run ==> (s.stage == PkgStage::Begin || s.stage == PkgStage::Ostree || s.stage
        == PkgStage::Readonly || s.stage == PkgStage::Finished)
}

/// A dry run of the package-cache operation changes nothing: from its first
/// state every step stays among the dry-run states, and none asks to run a
/// command, empty a directory or remove an entry.
pub proof fn pkg_cache_dry_run_changes_nothing(s: PkgV, r: ReplyV)
    requires
        pkg_dry_states(s),
    ensures
        pkg_dry_states(pkg_next(s, r).0),
        s.dry_run ==> !changes_system(pkg_next(s, r).1.next),
{
}

pub open spec fn pkg_yes_states(s: PkgV) -> bool {
    s.yes ==> !(s.stage == PkgStage::ArchConfirm || s.stage == PkgStage::DebConfirm || s.stage
        == PkgStage::NixConfirm || s.stage == PkgStage::VoidConfirm || s.stage
        == PkgStage::AlpineConfirm || s.stage == PkgStage::GentooConfirm)
}

/// `--yes` never prompts in the package-cache operation: deep steps either
/// run (with `--deep`) or are skipped.
#[verifier::rlimit(60)]
pub proof fn pkg_cache_yes_never_prompts(s: PkgV, r: ReplyV)
    requires
        pkg_yes_states(s),
    ensures
        pkg_yes_states(pkg_next(s, r).0),
        s.yes ==> !prompts(pkg_next(s, r).1.next),
{
    match s.stage {
        PkgStage::Begin => {},
        PkgStage::Ostree => {},
        PkgStage::OstreeRan => {},
        PkgStage::Readonly => {},
        PkgStage::FedoraLib => {},
        PkgStage::FedoraDnf => {},
        PkgStage::GentooQuery => {},
        PkgStage::GentooConf => {},
        PkgStage::GentooLegacy => {},
        PkgStage::GentooModern => {},
        PkgStage::SizeBefore => {},
        PkgStage::ArchList => {},
        PkgStage::ArchSweep => {},
        PkgStage::ArchSc => {},
        PkgStage::ArchConfirm => {},
        PkgStage::ArchScc => {},
        PkgStage::DebClean => {},
        PkgStage::DebConfirm => {},
        PkgStage::DebAuto => {},
        PkgStage::FedoraPm => {},
        PkgStage::FedoraClean => {},
        PkgStage::SuseClean => {},
        PkgStage::NixCapture => {},
        PkgStage::NixScale => {},
        PkgStage::NixSudo => {},
        PkgStage::NixConfirm => {},
        PkgStage::NixUserD => {},
        PkgStage::NixSudoD => {},
        PkgStage::NixOptimise => {},
        PkgStage::VoidConfirm => {},
        PkgStage::VoidClean => {},
        PkgStage::AlpineClean => {},
        PkgStage::AlpineConfirm => {},
        PkgStage::AlpineIsDir => {},
        PkgStage::AlpineFind => {},
        PkgStage::GentooEclean => {},
        PkgStage::GentooDistfiles => {},
        PkgStage::GentooConfirm => {},
        PkgStage::GentooPackages => {},
        PkgStage::GentooDistIsDir => {},
        PkgStage::GentooFind => {},
        PkgStage::PortageConf => {},
        PkgStage::PortageExists => {},
        PkgStage::PortageEmerge => {},
        PkgStage::PortageSize => {},
        PkgStage::PortageFind => {},
        PkgStage::SolusClean => {},
        PkgStage::ClearWhich => {},
        PkgStage::ClearClean => {},
        PkgStage::SizeAfter => {},
        PkgStage::Finished => {},
    }
}

/// On an OSTree system the package-cache operation runs exactly
/// `rpm-ostree cleanup -bm` (temporary files and cached metadata) and
/// nothing else: never `-p` or `-r`, which alter bootable deployments.
pub proof fn ostree_runs_only_cleanup_bm(s: PkgV, r: ReplyV)
    requires
        s.stage == PkgStage::Ostree,
        flag_of(r),
    ensures
        pkg_next(s, r).1.next is Done || pkg_next(s, r).1.next == NextV::Ask(
            cmd("rpm-ostree", seq!["cleanup", "-bm"], true, true),
        ),
        pkg_next(s, r).0.stage == PkgStage::Finished || pkg_next(s, r).0.stage == PkgStage::OstreeRan,
        forall|r2: ReplyV| #[trigger] pkg_next(pkg_next(s, r).0, r2).1.next is Done,
{
}

pub open spec fn orphans_dry_states(s: OrphansV) -> bool {
    s.dry_run ==> !(s.stage == OrphanStage::Confirm || s.stage == OrphanStage::Removing)
}

/// A dry run of the orphan removal only lists: no step removes anything.
pub proof fn orphans_dry_run_changes_nothing(s: OrphansV, r: ReplyV)
    requires
        orphans_dry_states(s),
    ensures
        orphans_dry_states(orphans_next(s, r).0),
        s.dry_run ==> !changes_system(orphans_next(s, r).1.next),
{
}

/// With `--yes`, orphans are removed without asking.
pub proof fn orphans_yes_never_prompts(s: OrphansV, r: ReplyV)
    requires
        s.yes ==> s.stage != OrphanStage::Confirm,
    ensures
        s.yes ==> orphans_next(s, r).0.stage != OrphanStage::Confirm,
        s.yes ==> !prompts(orphans_next(s, r).1.next),
{
}

/// Orphans are removed only after they were listed, and exactly those: the
/// removal command names the listed packages and nothing else.
pub proof fn orphans_removes_only_listed(s: OrphansV, r: ReplyV)
    requires
        orphans_next(s, r).1.next matches NextV::Ask(op) && op is Run && s.distro == Distro::Arch,
        s.stage == OrphanStage::ArchQuery || s.stage == OrphanStage::Confirm,
    ensures
        s.stage == OrphanStage::ArchQuery ==> orphans_next(s, r).1.next == NextV::Ask(
            removal(Distro::Arch, lines(text_or_empty(r))),
        ),
        s.stage == OrphanStage::Confirm ==> orphans_next(s, r).1.next == NextV::Ask(
            removal(Distro::Arch, s.pkgs),
        ),
{
}

pub open spec fn trash_dry_states(s: TrashV) -> bool {
    s.dry_run ==> !(s.stage is CleanExists || s.stage is CleanRm)
}

/// A dry run of the trash only measures it.
pub proof fn trash_dry_run_changes_nothing(s: TrashV, r: ReplyV)
    requires
        trash_dry_states(s),
    ensures
        trash_dry_states(trash_next(s, r).0),
        s.dry_run ==> !changes_system(trash_next(s, r).1.next),
{
}

pub open spec fn journal_dry_states(s: JournalV) -> bool {
    s.dry_run ==> !(s.stage == JournalStage::Before || s.stage == JournalStage::Vacuum || s.stage
        == JournalStage::After)
}

proof fn lemma_journal_scan_dry(s: JournalV, i: int)
    requires
        journal_dry_states(s),
    ensures
        journal_dry_states(journal_scan(s, i).0),
        s.dry_run ==> !changes_system(journal_scan(s, i).1.next),
    decreases s.cands.len() - i,
{
    if 0 <= i < s.cands.len() {
        if unit_shift_spec(s.cands[i].1) is None {
            lemma_journal_scan_dry(s, i + 1);
        }
    }
}

/// A dry run of the journal vacuum only reads the usage.
pub proof fn journal_dry_run_changes_nothing(s: JournalV, r: ReplyV)
    requires
        journal_dry_states(s),
    ensures
        journal_dry_states(journal_next(s, r).0),
        s.dry_run ==> !changes_system(journal_next(s, r).1.next),
{
    match s.stage {
        JournalStage::Usage => match text_of(r) {
            Some(t) => lemma_journal_scan_dry(
                JournalV { cands: usage_candidates(t), usage: None, ..s },
                0,
            ),
            None => {},
        },
        JournalStage::Scale(i) => lemma_journal_scan_dry(s, i + 1),
        _ => {},
    }
}

pub open spec fn dumps_dry_states(s: CoredumpsV) -> bool {
    s.dry_run ==> !(s.stage == DumpStage::SdFind || s.stage == DumpStage::SdAfter || s.stage
        == DumpStage::ApFind || s.stage == DumpStage::ApAfter)
}

/// A dry run of the crash-dump cleanup only measures.
pub proof fn coredumps_dry_run_changes_nothing(s: CoredumpsV, r: ReplyV)
    requires
        dumps_dry_states(s),
    ensures
        dumps_dry_states(dumps_next(s, r).0),
        s.dry_run ==> !changes_system(dumps_next(s, r).1.next),
{
}

/// Apport cleanup deletes only the top-level `*.crash` and `*.uploaded`
/// report files of `/var/crash`: never another file, never kdump's dated
/// subdirectories.
pub proof fn apport_deletes_only_top_level_files(s: CoredumpsV, r: ReplyV)
    requires
        s.stage == DumpStage::ApSize,
        dumps_next(s, r).1.next matches NextV::Ask(op) && op is Run,
    ensures
        dumps_next(s, r).1.next == NextV::Ask(
            cmd("find", crate::system::report_delete_args(), true, true),
        ),
        crate::system::report_delete_args() == seq![
            "/var/crash",
            "-maxdepth",
            "1",
            "-type",
            "f",
            "(",
            "-name",
            "*.crash",
            "-o",
            "-name",
            "*.uploaded",
            ")",
            "-delete",
        ],
{
}

/// The size of Apport's reports is measured over exactly the files the
/// cleanup deletes: the top-level `*.crash` and `*.uploaded` files.
pub proof fn apport_measures_only_report_files(s: CoredumpsV, r: ReplyV)
    ensures
        dumps_next(s, r).1.next matches NextV::Ask(op) ==> ((op is FlatFilesSize) ==> (op
            == crate::system::report_size_op())),
        crate::system::report_size_op() == (OpV::FlatFilesSize {
            dir: "/var/crash"@,
            suffixes: seq![".crash"@, ".uploaded"@],
        }),
{
}

/// A dry run of TRIM runs nothing.
pub proof fn trim_dry_run_changes_nothing(s: TrimV, r: ReplyV)
    requires
        s.dry_run ==> s.stage != TrimStage::Run,
    ensures
        s.dry_run ==> trim_next(s, r).0.stage != TrimStage::Run,
        s.dry_run ==> !changes_system(trim_next(s, r).1.next),
{
}

pub open spec fn nix_dry_states(s: NixGcV) -> bool {
    s.dry_run ==> (s.stage == NixStage::Begin || s.stage == NixStage::HasNix || s.stage
        == NixStage::Finished)
}

/// A dry run of the Nix garbage collection runs nothing.
pub proof fn nix_gc_dry_run_changes_nothing(s: NixGcV, r: ReplyV)
    requires
        nix_dry_states(s),
    ensures
        nix_dry_states(nix_next(s, r).0),
        s.dry_run ==> !changes_system(nix_next(s, r).1.next),
{
}

/// With `--yes`, the Nix garbage collection never prompts.
pub proof fn nix_gc_yes_never_prompts(s: NixGcV, r: ReplyV)
    requires
        s.yes ==> s.stage != NixStage::Confirm,
    ensures
        s.yes ==> nix_next(s, r).0.stage != NixStage::Confirm,
        s.yes ==> !prompts(nix_next(s, r).1.next),
{
}

/// On an HDD the Nix store is never optimised (it can take hours there).
pub proof fn nix_never_optimises_on_hdd(s: NixGcV, r: ReplyV)
    requires
        s.disk == DiskType::HDD,
    ensures
        nix_next(s, r).1.next != NextV::Ask(cmd("nix", seq!["store", "--optimise"], true, false)),
{
    reveal_strlit("nix");
    reveal_strlit("nix-collect-garbage");
    reveal_strlit("store");
    reveal_strlit("profile");
    reveal_strlit("-d");
    reveal_strlit("--optimise");
    reveal_strlit("wipe-history");
    assert("nix"@.len() == 3);
    assert("nix-collect-garbage"@.len() == 19);
    assert("nix"@ != "nix-collect-garbage"@);
    match s.stage {
        NixStage::Begin => { assert(nix_next(s, r).1.next != NextV::Ask(cmd("nix", seq!["store", "--optimise"], true, false))); },
        NixStage::HasNix => { assert(nix_next(s, r).1.next != NextV::Ask(cmd("nix", seq!["store", "--optimise"], true, false))); },
        NixStage::Capture => { assert(nix_next(s, r).1.next != NextV::Ask(cmd("nix", seq!["store", "--optimise"], true, false))); },
        NixStage::Scale => { assert(nix_next(s, r).1.next != NextV::Ask(cmd("nix", seq!["store", "--optimise"], true, false))); },
        NixStage::Multi => { assert(nix_next(s, r).1.next != NextV::Ask(cmd("nix", seq!["store", "--optimise"], true, false))); },
        NixStage::SysGc => { assert(nix_next(s, r).1.next != NextV::Ask(cmd("nix", seq!["store", "--optimise"], true, false))); },
        NixStage::Confirm => { assert(nix_next(s, r).1.next != NextV::Ask(cmd("nix", seq!["store", "--optimise"], true, false))); },
        NixStage::UserD => { assert(nix_next(s, r).1.next != NextV::Ask(cmd("nix", seq!["store", "--optimise"], true, false))); },
        NixStage::MultiD => { assert(nix_next(s, r).1.next != NextV::Ask(cmd("nix", seq!["store", "--optimise"], true, false))); },
        NixStage::SysD => { assert(nix_next(s, r).1.next != NextV::Ask(cmd("nix", seq!["store", "--optimise"], true, false))); },
        NixStage::WhichNix => { assert(nix_next(s, r).1.next != NextV::Ask(cmd("nix", seq!["store", "--optimise"], true, false))); },
        NixStage::Wipe => { assert(nix_next(s, r).1.next != NextV::Ask(cmd("nix", seq!["store", "--optimise"], true, false))); },
        NixStage::Optimise => { assert(nix_next(s, r).1.next != NextV::Ask(cmd("nix", seq!["store", "--optimise"], true, false))); },
        NixStage::Finished => { assert(nix_next(s, r).1.next != NextV::Ask(cmd("nix", seq!["store", "--optimise"], true, false))); },
    }
}

/// A dry run of the Flatpak cleanup runs nothing.
pub proof fn flatpak_dry_run_changes_nothing(s: FlatpakV, r: ReplyV)
    requires
        s.dry_run ==> (s.stage == FlatpakStage::Begin || s.stage == FlatpakStage::Finished),
    ensures
        s.dry_run ==> (flatpak_next(s, r).0.stage == FlatpakStage::Begin || flatpak_next(s, r).0.stage
            == FlatpakStage::Finished),
        s.dry_run ==> !changes_system(flatpak_next(s, r).1.next),
{
}

/// A dry run of the Snap cleanup runs nothing.
pub proof fn snap_dry_run_changes_nothing(s: SnapV, r: ReplyV)
    requires
        s.dry_run ==> (s.stage == SnapStage::Begin || s.stage == SnapStage::Finished),
    ensures
        s.dry_run ==> (snap_next(s, r).0.stage == SnapStage::Begin || snap_next(s, r).0.stage
            == SnapStage::Finished),
        s.dry_run ==> !changes_system(snap_next(s, r).1.next),
{
}

/// A dry run of the user-cache cleanup only measures: nothing is removed.
pub proof fn user_cache_dry_run_changes_nothing(s: UserCacheV, r: ReplyV)
    requires
        s.dry_run ==> !(s.stage is Remove),
    ensures
        s.dry_run ==> !(user_next(s, r).0.stage is Remove),
        s.dry_run ==> !changes_system(user_next(s, r).1.next),
{
}

/// A dry run of the AUR cache cleanup runs nothing.
pub proof fn aur_cache_dry_run_changes_nothing(s: AurCacheV, r: ReplyV)
    requires
        s.dry_run ==> (s.stage == AurStage::Begin || s.stage == AurStage::Finished),
    ensures
        s.dry_run ==> (aur_next(s, r).0.stage == AurStage::Begin || aur_next(s, r).0.stage
            == AurStage::Finished),
        s.dry_run ==> !changes_system(aur_next(s, r).1.next),
{
}


// ═══════════════════════════ Self-update ═══════════════════════════

/// The step installs something: it asks to install a file or to run a command.
pub open spec fn installs(n: NextV) -> bool {
    match n {
        NextV::Ask(op) => op is Install || op is Run,
        NextV::Done(_) => false,
    }
}

/// A binary a package manager owns (or may own, its query having failed) is
/// never replaced: that answer ends the run at once, successfully, with
/// nothing downloaded or installed.
pub proof fn managed_install_is_never_replaced(s: SelfUpdateV, r: ReplyV, i: usize)
    requires
        s.stage == UpdStage::Query(i),
        i < s.probes.len(),
        verdict_spec(s.probes[i as int], ownership_spec(true, code_of(r))) is Some,
    ensures
        upd_next(s, r).0.stage == UpdStage::Finished,
        upd_next(s, r).1.next == NextV::Done(0),
{
}

/// Only the step after the install directory was checked asks to install.
pub proof fn install_only_from_the_final_stage(s: SelfUpdateV, r: ReplyV)
    ensures
        installs(upd_next(s, r).1.next) ==> s.stage == UpdStage::Writable,
{
}

/// The install directory is only checked once the downloaded binary has
/// reported the expected version.
pub proof fn install_needs_the_self_check(s: SelfUpdateV, r: ReplyV)
    ensures
        upd_next(s, r).0.stage == UpdStage::Writable ==> s.stage == UpdStage::Version && contains(
            text_or_empty(r),
            s.latest,
        ),
{
}

/// The downloaded file is only made executable (and run) when it starts with
/// the ELF magic.
pub proof fn downloaded_file_must_be_elf(s: SelfUpdateV, r: ReplyV)
    ensures
        upd_next(s, r).0.stage == UpdStage::SetExec ==> s.stage == UpdStage::Head && elf_magic(
            data_of(r),
        ),
{
}

/// Once the download has begun the run never just stops: every step asks
/// for more, so every way out goes through removing the temporary file.
pub proof fn download_is_always_cleaned_up(s: SelfUpdateV, r: ReplyV)
    requires
        s.stage == UpdStage::Download || s.stage == UpdStage::Head || s.stage == UpdStage::SetExec
            || s.stage == UpdStage::Version || s.stage == UpdStage::Writable || s.stage
            == UpdStage::Install || s.stage == UpdStage::Elevated,
    ensures
        upd_next(s, r).1.next is Ask,
        upd_next(s, r).1.next is Ask && !(upd_next(s, r).0.stage == UpdStage::Cleanup) ==> !(upd_next(
            s,
            r,
        ).1.next->Ask_0 is Remove),
        upd_next(s, r).0.stage == UpdStage::Cleanup ==> upd_next(s, r).1.next == NextV::Ask(
            OpV::Remove(s.tmp),
        ),
{
}

/// Without `--yes` the upgrade is confirmed first: the step after the
/// release check that wants to go on asks the user.
pub proof fn upgrade_is_confirmed_without_yes(s: SelfUpdateV, r: ReplyV)
    requires
        s.stage == UpdStage::Fetch,
        !s.yes,
    ensures
        upd_next(s, r).0.stage != UpdStage::Arch,
{
}

// ═══════════════════════════ Sessions ═══════════════════════════

/// A dry run never asks for privileges, whatever it selects.
pub proof fn dry_run_needs_no_privileges(needs_sudo: bool, p: Privilege)
    ensures
        privilege_gate_spec(needs_sudo, true, p) == PrivGate::Proceed,
{
}


/// No operation of `p` runs task `t`.
#[verifier::opaque]
pub open spec fn free_of(p: Seq<EntryV>, t: Task) -> bool {
    forall|i: int| 0 <= i < p.len() ==> !(#[trigger] p[i]).tasks.contains(t)
}

proof fn lemma_free_cat(a: Seq<EntryV>, b: Seq<EntryV>, t: Task)
    requires
        free_of(a, t),
        free_of(b, t),
    ensures
        free_of(a + b, t),
{
    reveal(free_of);
    assert forall|i: int| 0 <= i < (a + b).len() implies !(#[trigger] (a + b)[i]).tasks.contains(t) by {
        if i < a.len() {
            assert((a + b)[i] == a[i]);
        } else {
            assert((a + b)[i] == b[i - a.len()]);
        }
    }
}

proof fn lemma_free_entry(b: bool, name: Seq<char>, tasks: Seq<Task>, t: Task)
    requires
        b ==> forall|k: int| 0 <= k < tasks.len() ==> tasks[k] != t,
    ensures
        free_of(when_entry(b, ev(name, tasks)), t),
{
    reveal(free_of);
    if b {
        assert(when_entry(b, ev(name, tasks))[0].tasks == tasks);
        if tasks.contains(t) {
            let k = choose|k: int| 0 <= k < tasks.len() && tasks[k] == t;
            assert(false);
        }
    }
}

/// `--all` never cleans dev caches or trims: unless `--dev` (`--trim`) was
/// given, no operation of the session runs the dev-cache (trim) task.
pub proof fn session_never_runs_dev_or_trim_unasked(
    sel: Selection,
    distro: Distro,
    has_flatpak: bool,
    has_snap: bool,
    has_nix: bool,
)
    ensures
        resolution(sel) matches Ok(o) ==> {
            let p = plan_spec(o, sel.aur, sel.flatpak, sel.snap, distro, has_flatpak, has_snap, has_nix);
            &&& !sel.dev ==> free_of(p, Task::Dev)
            &&& !sel.trim ==> free_of(p, Task::Trim)
        },
{
    if let Ok(o) = resolution(sel) {
        if !sel.dev {
            lemma_plan_free(o, sel.aur, sel.flatpak, sel.snap, distro, has_flatpak, has_snap, has_nix, Task::Dev);
        }
        if !sel.trim {
            lemma_plan_free(o, sel.aur, sel.flatpak, sel.snap, distro, has_flatpak, has_snap, has_nix, Task::Trim);
        }
    }
}

#[verifier::rlimit(80)]
proof fn lemma_plan_free(
    o: Ops,
    aur_flag: bool,
    flatpak_flag: bool,
    snap_flag: bool,
    distro: Distro,
    has_flatpak: bool,
    has_snap: bool,
    has_nix: bool,
    t: Task,
)
    requires
        t == Task::Dev ==> !o.dev,
        t == Task::Trim ==> !o.trim,
        t == Task::Dev || t == Task::Trim,
    ensures
        free_of(plan_spec(o, aur_flag, flatpak_flag, snap_flag, distro, has_flatpak, has_snap, has_nix), t),
{
    let pk = if has_nix && distro != Distro::Nix {
        seq![Task::PkgCache, Task::NixGc]
    } else {
        seq![Task::PkgCache]
    };
    let au = if distro == Distro::Arch {
        seq![Task::AurCache]
    } else if aur_flag {
        seq![Task::NotArch]
    } else {
        seq![]
    };
    let fl = if has_flatpak {
        seq![Task::Flatpak]
    } else if flatpak_flag {
        seq![Task::NoFlatpak]
    } else {
        seq![]
    };
    let sn = if has_snap {
        seq![Task::Snap]
    } else if snap_flag {
        seq![Task::NoSnap]
    } else {
        seq![]
    };
    let e0 = when_entry(o.cache, ev("cache"@, seq![Task::UserCache]));
    let e1 = when_entry(o.packages, ev("packages"@, pk));
    let e2 = when_entry(o.orphans, ev("orphans"@, seq![Task::Orphans]));
    let e3 = when_entry(o.aur, ev("aur"@, au));
    let e4 = when_entry(o.flatpak, ev("flatpak"@, fl));
    let e5 = when_entry(o.snap, ev("snap"@, sn));
    let e6 = when_entry(o.journal, ev("journal"@, seq![Task::Journal]));
    let e7 = when_entry(o.trash, ev("trash"@, seq![Task::Trash]));
    let e8 = when_entry(o.coredumps, ev("coredumps"@, seq![Task::Coredumps]));
    let e9 = when_entry(o.dev, ev("dev"@, seq![Task::Dev]));
    let e10 = when_entry(o.trim, ev("trim"@, seq![Task::Trim]));
    lemma_free_entry(o.cache, "cache"@, seq![Task::UserCache], t);
    lemma_free_entry(o.packages, "packages"@, pk, t);
    lemma_free_entry(o.orphans, "orphans"@, seq![Task::Orphans], t);
    lemma_free_entry(o.aur, "aur"@, au, t);
    lemma_free_entry(o.flatpak, "flatpak"@, fl, t);
    lemma_free_entry(o.snap, "snap"@, sn, t);
    lemma_free_entry(o.journal, "journal"@, seq![Task::Journal], t);
    lemma_free_entry(o.trash, "trash"@, seq![Task::Trash], t);
    lemma_free_entry(o.coredumps, "coredumps"@, seq![Task::Coredumps], t);
    lemma_free_entry(o.dev, "dev"@, seq![Task::Dev], t);
    lemma_free_entry(o.trim, "trim"@, seq![Task::Trim], t);
    lemma_free_cat(e0, e1, t);
    lemma_free_cat(e0 + e1, e2, t);
    lemma_free_cat(e0 + e1 + e2, e3, t);
    lemma_free_cat(e0 + e1 + e2 + e3, e4, t);
    lemma_free_cat(e0 + e1 + e2 + e3 + e4, e5, t);
    lemma_free_cat(e0 + e1 + e2 + e3 + e4 + e5, e6, t);
    lemma_free_cat(e0 + e1 + e2 + e3 + e4 + e5 + e6, e7, t);
    lemma_free_cat(e0 + e1 + e2 + e3 + e4 + e5 + e6 + e7, e8, t);
    lemma_free_cat(e0 + e1 + e2 + e3 + e4 + e5 + e6 + e7 + e8, e9, t);
    lemma_free_cat(e0 + e1 + e2 + e3 + e4 + e5 + e6 + e7 + e8 + e9, e10, t);
}

// ═══════════════════════════ Trusted commands ═══════════════════════════

proof fn lemma_first_present_in(dirs: Seq<Seq<char>>, cmd: Seq<char>, files: Seq<Seq<char>>)
    ensures
        crate::utils::first_present(dirs, cmd, files) matches Some(p) ==> files.contains(p) && exists|i: int|
            0 <= i < dirs.len() && p == crate::utils::in_dir(#[trigger] dirs[i], cmd),
    decreases dirs.len(),
{
    if dirs.len() > 0 {
        lemma_first_present_in(dirs.drop_first(), cmd, files);
        if !files.contains(crate::utils::in_dir(dirs[0], cmd)) {
            if let Some(p) = crate::utils::first_present(dirs, cmd, files) {
                let i = choose|i: int| 0 <= i < dirs.drop_first().len() && p == crate::utils::in_dir(
                    #[trigger] dirs.drop_first()[i],
                    cmd,
                );
                assert(dirs[i + 1] == dirs.drop_first()[i]);
            }
        }
    }
}

/// A command only ever resolves to a path known to be a regular file, and
/// that path is the command itself when it is absolute, or the bare name
/// inside one of the trusted directories: `$PATH` plays no part.
pub proof fn commands_resolve_only_in_trusted_dirs(cmd: Seq<char>, files: Seq<Seq<char>>)
    ensures
        crate::utils::resolve(cmd, files) matches Some(p) ==> files.contains(p) && ((starts_with(cmd, "/"@)
            && p == cmd) || (crate::text::find_char(cmd, '/').is_none() && exists|i: int|
            0 <= i < crate::utils::trusted_dirs().len() && p == crate::utils::in_dir(
                (#[trigger] crate::utils::trusted_dirs()[i])@,
                cmd,
            ))),
{
    let dirs = crate::text::str_views(crate::utils::trusted_dirs());
    lemma_first_present_in(dirs, cmd, files);
    if !starts_with(cmd, "/"@) && crate::text::find_char(cmd, '/').is_none() {
        if let Some(p) = crate::utils::resolve(cmd, files) {
            let i = choose|i: int| 0 <= i < dirs.len() && p == crate::utils::in_dir(#[trigger] dirs[i], cmd);
            assert(dirs[i] == crate::utils::trusted_dirs()[i]@);
        }
    }
}

/// Operations that stay in the user's own files (`--cache`, `--trash`,
/// `--dev`) never need privileges; `--aur` does, since a helper's clean
/// empties the shared pacman cache.
pub proof fn user_level_operations_need_no_privileges(o: Ops)
    requires
        !o.packages && !o.orphans && !o.aur && !o.journal && !o.flatpak && !o.snap && !o.trim
            && !o.coredumps,
    ensures
        !o.needs_sudo_spec(),
{
}

/// `--aur` asks for privileges up front: the helpers' cleans and the
/// partial-download sweep work on the root-owned pacman cache.
pub proof fn aur_needs_privileges(o: Ops)
    ensures
        o.aur ==> o.needs_sudo_spec(),
{
}

// ═══════════════════════════ Portage build tree ═══════════════════════════

pub open spec fn portage_name() -> Seq<char> {
    seq!['p', 'o', 'r', 't', 'a', 'g', 'e']
}

proof fn lemma_no_slash_in_portage()
    ensures
        crate::text::find_char(portage_name(), '/') is None,
        crate::text::split_char(portage_name(), '/') == seq![portage_name()],
{
    let p = portage_name();
    reveal_with_fuel(crate::text::find_char, 8);
    assert(p.drop_first() =~= seq!['o', 'r', 't', 'a', 'g', 'e']);
    assert(p.drop_first().drop_first() =~= seq!['r', 't', 'a', 'g', 'e']);
    assert(p.drop_first().drop_first().drop_first() =~= seq!['t', 'a', 'g', 'e']);
    assert(p.drop_first().drop_first().drop_first().drop_first() =~= seq!['a', 'g', 'e']);
    assert(p.drop_first().drop_first().drop_first().drop_first().drop_first() =~= seq!['g', 'e']);
    assert(p.drop_first().drop_first().drop_first().drop_first().drop_first().drop_first() =~= seq!['e']);
    assert(p.drop_first().drop_first().drop_first().drop_first().drop_first().drop_first().drop_first()
        =~= Seq::<char>::empty());
}

/// A `PORTAGE_TMPDIR` of `/` or `//` never yields a build directory that
/// passes the deletion gate: both expand to a `portage` directly below the root.
pub proof fn root_portage_tmpdir_is_rejected()
    ensures
        !crate::paths::portage_safe(crate::text::path_join(seq!['/'], portage_name())),
        !crate::paths::portage_safe(crate::text::path_join(seq!['/', '/'], portage_name())),
{
    let p = portage_name();
    lemma_no_slash_in_portage();
    let one = crate::text::path_join(seq!['/'], p);
    assert(one =~= seq!['/'] + p);
    assert(crate::text::find_char(one, '/') == Some(0int));
    assert(one.skip(1) =~= p);
    assert(one.take(0) =~= Seq::<char>::empty());
    let parts1 = crate::text::split_char(one, '/');
    assert(parts1 =~= seq![Seq::<char>::empty(), p]);
    reveal_with_fuel(crate::paths::keep_named, 4);
    assert(seq![Seq::<char>::empty(), p].drop_last() =~= seq![Seq::<char>::empty()]);
    assert(seq![Seq::<char>::empty()].drop_last() =~= Seq::<Seq<char>>::empty());
    assert(crate::paths::keep_named(parts1) =~= seq![p]);
    assert(crate::paths::components(one).len() == 2);
    let two = crate::text::path_join(seq!['/', '/'], p);
    assert(two =~= seq!['/', '/'] + p);
    assert(crate::text::find_char(two, '/') == Some(0int));
    assert(two.skip(1) =~= one);
    assert(two.take(0) =~= Seq::<char>::empty());
    let parts2 = crate::text::split_char(two, '/');
    assert(parts2 =~= seq![Seq::<char>::empty(), Seq::<char>::empty(), p]);
    assert(seq![Seq::<char>::empty(), Seq::<char>::empty(), p].drop_last() =~= seq![
        Seq::<char>::empty(),
        Seq::<char>::empty(),
    ]);
    assert(seq![Seq::<char>::empty(), Seq::<char>::empty()].drop_last() =~= seq![Seq::<char>::empty()]);
    assert(crate::paths::keep_named(parts2) =~= seq![p]);
    assert(crate::paths::components(two).len() == 2);
}

// ═══════════════════════════ Clearing around kept entries ═══════════════════════════

/// None of the state's targets is a kept name.
pub open spec fn clear_inv(s: ClearExceptV) -> bool {
    forall|k: int| 0 <= k < s.targets.len() ==> !s.keep.contains(#[trigger] s.targets[k])
}

proof fn lemma_targets_not_kept(names: Seq<Seq<char>>, keep: Seq<Seq<char>>)
    ensures
        forall|k: int| 0 <= k < clear_targets(names, keep).len() ==> !keep.contains(
            #[trigger] clear_targets(names, keep)[k],
        ),
    decreases names.len(),
{
    if names.len() > 0 {
        lemma_targets_not_kept(names.drop_last(), keep);
        let a = clear_targets(names.drop_last(), keep);
        assert forall|k: int| 0 <= k < clear_targets(names, keep).len() implies !keep.contains(
            #[trigger] clear_targets(names, keep)[k],
        ) by {
            if k < a.len() {
                assert(clear_targets(names, keep)[k] == a[k]);
            }
        }
    }
}

/// Emptying a directory around kept entries never measures or removes a
/// kept entry: every entry it asks to remove is the directory joined with a
/// name that is not kept, and that stays so from state to state.
pub proof fn kept_entries_are_never_removed(s: ClearExceptV, r: ReplyV)
    requires
        clear_inv(s),
    ensures
        clear_inv(clear_next(s, r).0),
        clear_next(s, r).0.keep == s.keep,
        clear_next(s, r).0.path == s.path,
        clear_next(s, r).1.next matches NextV::Ask(op) ==> (op matches OpV::Remove(p) ==> exists|n: Seq<char>|
            !s.keep.contains(n) && p == path_join(s.path, n)),
        clear_next(s, r).1.next matches NextV::Ask(op) ==> (op matches OpV::EntrySize(p) ==> exists|n: Seq<char>|
            !s.keep.contains(n) && p == path_join(s.path, n)),
{
    if s.stage == ClearStage::List {
        lemma_targets_not_kept(names_of(r), s.keep);
    }
    match clear_next(s, r).1.next {
        NextV::Ask(op) => match op {
            OpV::Remove(p) => {
                if let ClearStage::Size(i) = s.stage {
                    assert(!s.keep.contains(s.targets[i as int]));
                }
            },
            OpV::EntrySize(p) => {
                let t = clear_next(s, r).0;
                if let ClearStage::Size(i) = t.stage {
                    assert(!t.keep.contains(t.targets[i as int]));
                }
            },
            _ => {},
        },
        _ => {},
    }
}


// ═══════════════════════════ Dev caches ═══════════════════════════

/// The step asks to run a command with elevated privileges.
pub open spec fn elevates(n: NextV) -> bool {
    match n {
        NextV::Ask(op) => op matches OpV::Run { elevated, .. } && elevated,
        NextV::Done(_) => false,
    }
}

/// A dev-cache step runs nothing as root, and with `--yes` (which stays on)
/// asks no question.
pub open spec fn dev_quiet(s: DevRunV, t: (DevRunV, StepV)) -> bool {
    &&& t.0.yes == s.yes
    &&& s.yes ==> !prompts(t.1.next)
    &&& !elevates(t.1.next)
}

proof fn lemma_yes_scan_from(s: DevRunV, pre: Seq<LineV>, i: int)
    ensures
        dev_quiet(s, scan_from(s, pre, i)),
    decreases 2int, rest(s.tools.len() as int, i), 3int,
{
    if 0 <= i < s.tools.len() {
        let s2 = DevRunV { tool: i, ..s };
        if s.tools[i].presence is Always {
            lemma_yes_resolve(s2, pre, Purpose::Scan);
        }
    } else {
        lemma_yes_scan_done(s, pre);
    }
}

proof fn lemma_yes_resolve(s: DevRunV, pre: Seq<LineV>, p: Purpose)
    ensures
        dev_quiet(s, resolve(s, pre, p)),
    decreases phase(p), remaining(s, p), 2int,
{
    if at_valid(s, p) {
        if let Loc::Home(suffix) = s.tools[s.tool].loc {
            lemma_yes_resolved(s, pre, p, home_path(s.home, suffix@));
        }
    }
}

proof fn lemma_yes_resolved(s: DevRunV, pre: Seq<LineV>, p: Purpose, path: Option<Seq<char>>)
    ensures
        dev_quiet(s, resolved(s, pre, p, path)),
    decreases phase(p), remaining(s, p), 1int,
{
    if at_valid(s, p) && path is None {
        match p {
            Purpose::Scan => lemma_yes_scan_from(s, pre, s.tool + 1),
            Purpose::Contents => lemma_yes_clean_from(s, pre, s.k + 1),
            Purpose::After => lemma_yes_cmd_done(s, pre, 0),
            Purpose::Before => {},
        }
    }
}

proof fn lemma_yes_scan_done(s: DevRunV, pre: Seq<LineV>)
    ensures
        dev_quiet(s, scan_done(s, pre)),
    decreases 2int, 0int, 0int,
{
    if !s.scan_only && s.found.len() > 0 {
        lemma_yes_clean_from(s, pre + summary_lines(s.found, s.deep), 0);
    }
}

proof fn lemma_yes_clean_from(s: DevRunV, pre: Seq<LineV>, k: int)
    ensures
        dev_quiet(s, clean_from(s, pre, k)),
    decreases 1int, rest(s.found.len() as int, k), 3int,
{
    if 0 <= k < s.found.len() {
        let c = s.found[k];
        if (c.needs_redownload && !s.deep) || s.dry_run {
            lemma_yes_clean_from(s, pre, k + 1);
        } else {
            match lookup(s.tools, c.name@) {
                None => lemma_yes_clean_from(s, pre, k + 1),
                Some(ti) => {
                    let s2 = DevRunV { tool: ti, k, ..s };
                    match s.tools[ti].cleaner {
                        Cleaner::Contents => lemma_yes_resolve(s2, pre, Purpose::Contents),
                        Cleaner::Command { check, .. } => if !check {
                            lemma_yes_resolve(s2, pre, Purpose::Before);
                        },
                        Cleaner::Fire { .. } => {},
                    }
                },
            }
        }
    }
}

proof fn lemma_yes_cmd_done(s: DevRunV, pre: Seq<LineV>, after: u64)
    ensures
        dev_quiet(s, cmd_done(s, pre, after)),
    decreases 1int, rest(s.found.len() as int, s.k), 0int,
{
    if 0 <= s.k < s.found.len() {
        let s2 = DevRunV { freed: sat_add(s.freed, crate::packages::sub0(s.before, after)), ..s };
        lemma_yes_clean_from(s2, pre, s.k + 1);
    }
}

/// The dev-cache workflow runs every tool with the user's own privileges,
/// and with `--yes` it never asks, not even before a `--deep` clean that
/// costs re-downloads.
pub proof fn dev_runs_unprivileged_and_yes_never_prompts(s: DevRunV, r: ReplyV)
    ensures
        dev_quiet(s, dev_next(s, r)),
{
    let ok = flag_of(r);
    match s.stage {
        DevStage::Home => lemma_yes_scan_from(DevRunV { home: text_of(r), ..s }, seq![], 0),
        DevStage::Which(i) => if i < s.tools.len() {
            match s.tools[i as int].presence {
                Presence::Listed(_) => {
                    let t = s.tools[i as int];
                    let s2 = if ok {
                        DevRunV {
                            found: s.found.push(
                                crate::dev::DevCache {
                                    name: t.name,
                                    size: 0,
                                    needs_redownload: t.needs_redownload,
                                    note: t.note,
                                },
                            ),
                            ..s
                        }
                    } else {
                        s
                    };
                    lemma_yes_scan_from(s2, seq![], i + 1);
                },
                _ => if ok {
                    lemma_yes_resolve(DevRunV { tool: i as int, ..s }, seq![], Purpose::Scan);
                } else {
                    lemma_yes_scan_from(s, seq![], i + 1);
                },
            }
        },
        DevStage::Resolve(p) => if at_valid(s, p) {
            lemma_yes_resolved(s, seq![], p, crate::dev::fallback_of(s));
        },
        DevStage::Probe(p) => {
            lemma_yes_resolved(s, seq![], p, text_of(r));
            lemma_yes_resolved(s, seq![], p, if at_valid(s, p) { crate::dev::fallback_of(s) } else { None });
        },
        DevStage::EnvVar(p) => {
            lemma_yes_resolved(s, seq![], p, text_of(r));
            lemma_yes_resolved(s, seq![], p, if at_valid(s, p) { crate::dev::fallback_of(s) } else { None });
        },
        DevStage::Exists(p) => {
            lemma_yes_scan_from(s, seq![], s.tool + 1);
            lemma_yes_clean_from(s, seq![], s.k + 1);
        },
        DevStage::Size(p) => match p {
            Purpose::Scan => if 0 <= s.tool < s.tools.len() {
                let t = s.tools[s.tool];
                let size = size_of(r);
                let s2 = if size > 0 {
                    DevRunV {
                        found: s.found.push(
                            crate::dev::DevCache {
                                name: t.name,
                                size,
                                needs_redownload: t.needs_redownload,
                                note: t.note,
                            },
                        ),
                        ..s
                    }
                } else {
                    s
                };
                lemma_yes_scan_from(s2, seq![], s.tool + 1);
            },
            Purpose::After => lemma_yes_cmd_done(s, seq![], size_of(r)),
            _ => {},
        },
        DevStage::Confirm => lemma_yes_clean_from(s, seq![], 0),
        DevStage::CleanWhich => {
            lemma_yes_resolve(s, seq![], Purpose::Before);
            lemma_yes_resolve(s, seq![], Purpose::Contents);
            lemma_yes_clean_from(s, seq![], s.k + 1);
        },
        DevStage::Run => lemma_yes_resolve(s, seq![], Purpose::After),
        DevStage::Rm => lemma_yes_clean_from(
            DevRunV { freed: sat_add(s.freed, size_of(r)), ..s },
            seq![],
            s.k + 1,
        ),
        DevStage::Fire => lemma_yes_clean_from(s, seq![], s.k + 1),
        _ => {},
    }
}


/// The stages a dry run of the dev-cache workflow passes through: scanning only.
pub open spec fn dev_dry_stage(st: DevStage) -> bool {
    ||| st == DevStage::Begin
    ||| st == DevStage::Home
    ||| st is Which
    ||| st == DevStage::Resolve(Purpose::Scan)
    ||| st == DevStage::Probe(Purpose::Scan)
    ||| st == DevStage::EnvVar(Purpose::Scan)
    ||| st == DevStage::Exists(Purpose::Scan)
    ||| st == DevStage::Size(Purpose::Scan)
    ||| st == DevStage::Finished
}

/// The step stays a dry run among the scanning stages and changes nothing.
pub open spec fn dev_dry(t: (DevRunV, StepV)) -> bool {
    &&& t.0.dry_run
    &&& dev_dry_stage(t.0.stage)
    &&& !changes_system(t.1.next)
}

proof fn lemma_dry_scan_from(s: DevRunV, pre: Seq<LineV>, i: int)
    requires
        s.dry_run,
    ensures
        dev_dry(scan_from(s, pre, i)),
    decreases 2int, rest(s.tools.len() as int, i), 3int,
{
    if 0 <= i < s.tools.len() {
        let s2 = DevRunV { tool: i, ..s };
        if s.tools[i].presence is Always {
            lemma_dry_resolve(s2, pre);
        }
    }
}

proof fn lemma_dry_resolve(s: DevRunV, pre: Seq<LineV>)
    requires
        s.dry_run,
    ensures
        dev_dry(resolve(s, pre, Purpose::Scan)),
    decreases phase(Purpose::Scan), remaining(s, Purpose::Scan), 2int,
{
    if at_valid(s, Purpose::Scan) {
        if let Loc::Home(suffix) = s.tools[s.tool].loc {
            lemma_dry_resolved(s, pre, home_path(s.home, suffix@));
        }
    }
}

proof fn lemma_dry_resolved(s: DevRunV, pre: Seq<LineV>, path: Option<Seq<char>>)
    requires
        s.dry_run,
    ensures
        dev_dry(resolved(s, pre, Purpose::Scan, path)),
    decreases phase(Purpose::Scan), remaining(s, Purpose::Scan), 1int,
{
    if at_valid(s, Purpose::Scan) && path is None {
        lemma_dry_scan_from(s, pre, s.tool + 1);
    }
}

/// A dry run of the dev-cache workflow only scans: from any scanning state
/// every step stays among the scanning states and none asks to run a
/// command, empty a directory or remove an entry.
pub proof fn dev_dry_run_changes_nothing(s: DevRunV, r: ReplyV)
    requires
        s.dry_run,
        dev_dry_stage(s.stage),
    ensures
        dev_dry(dev_next(s, r)),
{
    let ok = flag_of(r);
    match s.stage {
        DevStage::Home => lemma_dry_scan_from(DevRunV { home: text_of(r), ..s }, seq![], 0),
        DevStage::Which(i) => if i < s.tools.len() {
            match s.tools[i as int].presence {
                Presence::Listed(_) => {
                    let t = s.tools[i as int];
                    let s2 = if ok {
                        DevRunV {
                            found: s.found.push(
                                crate::dev::DevCache {
                                    name: t.name,
                                    size: 0,
                                    needs_redownload: t.needs_redownload,
                                    note: t.note,
                                },
                            ),
                            ..s
                        }
                    } else {
                        s
                    };
                    lemma_dry_scan_from(s2, seq![], i + 1);
                },
                _ => if ok {
                    lemma_dry_resolve(DevRunV { tool: i as int, ..s }, seq![]);
                } else {
                    lemma_dry_scan_from(s, seq![], i + 1);
                },
            }
        },
        DevStage::Resolve(p) => if at_valid(s, p) {
            lemma_dry_resolved(s, seq![], crate::dev::fallback_of(s));
        },
        DevStage::Probe(p) => {
            lemma_dry_resolved(s, seq![], text_of(r));
            lemma_dry_resolved(s, seq![], if at_valid(s, p) { crate::dev::fallback_of(s) } else { None });
        },
        DevStage::EnvVar(p) => {
            lemma_dry_resolved(s, seq![], text_of(r));
            lemma_dry_resolved(s, seq![], if at_valid(s, p) { crate::dev::fallback_of(s) } else { None });
        },
        DevStage::Exists(p) => lemma_dry_scan_from(s, seq![], s.tool + 1),
        DevStage::Size(p) => if 0 <= s.tool < s.tools.len() {
            let t = s.tools[s.tool];
            let size = size_of(r);
            let s2 = if size > 0 {
                DevRunV {
                    found: s.found.push(
                        crate::dev::DevCache {
                            name: t.name,
                            size,
                            needs_redownload: t.needs_redownload,
                            note: t.note,
                        },
                    ),
                    ..s
                }
            } else {
                s
            };
            lemma_dry_scan_from(s2, seq![], s.tool + 1);
        },
        _ => {},
    }
}


/// The stages at which the dev-cache run works on one detected cache.
pub open spec fn dev_clean_stage(st: DevStage) -> bool {
    match st {
        DevStage::Resolve(p) => p != Purpose::Scan,
        DevStage::Probe(p) => p != Purpose::Scan,
        DevStage::EnvVar(p) => p != Purpose::Scan,
        DevStage::Exists(p) => p != Purpose::Scan,
        DevStage::Size(p) => p != Purpose::Scan,
        DevStage::CleanWhich => true,
        DevStage::Run => true,
        DevStage::Rm => true,
        DevStage::Fire => true,
        _ => false,
    }
}

/// The stages of the scan, before the summary is printed.
pub open spec fn dev_scan_stage(st: DevStage) -> bool {
    match st {
        DevStage::Begin => true,
        DevStage::Home => true,
        DevStage::Which(_) => true,
        DevStage::Resolve(p) => p == Purpose::Scan,
        DevStage::Probe(p) => p == Purpose::Scan,
        DevStage::EnvVar(p) => p == Purpose::Scan,
        DevStage::Exists(p) => p == Purpose::Scan,
        DevStage::Size(p) => p == Purpose::Scan,
        _ => false,
    }
}

/// The run stands at detected cache `k`, with the tool that found it, outside
/// a dry run, and the cache needs no re-download unless `--deep` was given.
pub open spec fn dev_at_cache(s: DevRunV) -> bool {
    &&& 0 <= s.k < s.found.len()
    &&& 0 <= s.tool < s.tools.len()
    &&& s.tools[s.tool].name@ == s.found[s.k].name@
    &&& !s.dry_run
    &&& s.found[s.k].needs_redownload ==> s.deep
}

/// What holds in every state of a dev-cache run.
pub open spec fn dev_run_inv(s: DevRunV) -> bool {
    &&& dev_clean_stage(s.stage) ==> dev_at_cache(s)
    &&& (dev_scan_stage(s.stage) || s.stage == DevStage::Confirm) ==> s.freed == 0
    &&& s.stage == DevStage::Confirm ==> s.deep && !s.yes && !s.dry_run && crate::dev::any_redownload(
        s.found,
    )
    &&& s.stage is Resolve ==> 0 <= s.tool < s.tools.len() && s.tools[s.tool].loc is Probe
}

/// The run is done, or works on a detected cache at position `k` or later.
pub open spec fn dev_past(k: int, t: DevRunV) -> bool {
    t.stage == DevStage::Finished || (dev_clean_stage(t.stage) && t.k >= k)
}

/// What one cache's cleaning adds to the total, credited at the step that
/// finishes it: the bytes emptied, or the drop in size across the tool's own
/// command.
pub open spec fn dev_credit(s: DevRunV, r: ReplyV) -> u64 {
    match s.stage {
        DevStage::Rm => size_of(r),
        DevStage::Size(Purpose::After) => crate::packages::sub0(s.before, size_of(r)),
        DevStage::Run => crate::packages::sub0(s.before, 0),
        DevStage::Resolve(Purpose::After) => crate::packages::sub0(s.before, 0),
        DevStage::Probe(Purpose::After) => crate::packages::sub0(s.before, 0),
        DevStage::EnvVar(Purpose::After) => crate::packages::sub0(s.before, 0),
        _ => 0,
    }
}

/// The step finishes the cache the run stands at: the run moves past it.
pub open spec fn dev_finishes(s: DevRunV, r: ReplyV) -> bool {
    dev_clean_stage(s.stage) && dev_past(s.k + 1, dev_next(s, r).0)
}

/// What the step adds to the total: the result of the cache it finishes, or 0.
pub open spec fn dev_step_result(s: DevRunV, r: ReplyV) -> u64 {
    if dev_finishes(s, r) {
        dev_credit(s, r)
    } else {
        0
    }
}

/// A step keeps the run's invariant and its options, touches the system only
/// at a cache, and finishes with the running total.
pub open spec fn dev_keeps(s: DevRunV, t: (DevRunV, StepV)) -> bool {
    &&& dev_run_inv(t.0)
    &&& t.0.deep == s.deep && t.0.dry_run == s.dry_run && t.0.yes == s.yes && t.0.tools == s.tools
    &&& changes_system(t.1.next) ==> dev_clean_stage(t.0.stage)
    &&& t.1.next matches NextV::Done(n) ==> n == t.0.freed
}

/// What a purpose needs of the state it resolves a path in.
pub open spec fn dev_ready(s: DevRunV, p: Purpose) -> bool {
    if p == Purpose::Scan {
        s.freed == 0
    } else {
        dev_at_cache(s)
    }
}

/// What resolving a path for `p` does to the detected caches and the total.
pub open spec fn dev_resolves(s: DevRunV, p: Purpose, t: DevRunV) -> bool {
    &&& t.found == s.found
    &&& if p == Purpose::Scan {
        t.freed == s.freed
    } else {
        ||| p != Purpose::After && t.freed == s.freed && dev_past(s.k, t)
        ||| p == Purpose::After && t.freed == s.freed && dev_clean_stage(t.stage) && t.k == s.k
        ||| p == Purpose::After && t.freed == sat_add(s.freed, crate::packages::sub0(s.before, 0))
            && dev_past(s.k + 1, t)
    }
}

proof fn lemma_lookup_found(tools: Seq<crate::dev::DevTool>, name: Seq<char>)
    ensures
        lookup(tools, name) matches Some(i) ==> 0 <= i < tools.len() && tools[i].name@ == name,
    decreases tools.len(),
{
    if tools.len() > 0 {
        lemma_lookup_found(tools.drop_last(), name);
        if let Some(i) = lookup(tools.drop_last(), name) {
            assert(tools.drop_last()[i] == tools[i]);
        }
    }
}

proof fn lemma_run_scan_from(s: DevRunV, pre: Seq<LineV>, i: int)
    requires
        s.freed == 0,
    ensures
        dev_keeps(s, scan_from(s, pre, i)),
        scan_from(s, pre, i).0.found == s.found,
        scan_from(s, pre, i).0.freed == s.freed,
    decreases 2int, rest(s.tools.len() as int, i), 3int,
{
    if 0 <= i < s.tools.len() {
        let s2 = DevRunV { tool: i, ..s };
        if s.tools[i].presence is Always {
            lemma_run_resolve(s2, pre, Purpose::Scan);
        }
    } else {
        lemma_run_scan_done(s, pre);
    }
}

proof fn lemma_run_resolve(s: DevRunV, pre: Seq<LineV>, p: Purpose)
    requires
        dev_ready(s, p),
    ensures
        dev_keeps(s, resolve(s, pre, p)),
        dev_resolves(s, p, resolve(s, pre, p).0),
    decreases phase(p), remaining(s, p), 2int,
{
    if at_valid(s, p) {
        if let Loc::Home(suffix) = s.tools[s.tool].loc {
            lemma_run_resolved(s, pre, p, home_path(s.home, suffix@));
        }
    }
}

proof fn lemma_run_resolved(s: DevRunV, pre: Seq<LineV>, p: Purpose, path: Option<Seq<char>>)
    requires
        dev_ready(s, p),
    ensures
        dev_keeps(s, resolved(s, pre, p, path)),
        dev_resolves(s, p, resolved(s, pre, p, path).0),
    decreases phase(p), remaining(s, p), 1int,
{
    if at_valid(s, p) && path is None {
        match p {
            Purpose::Scan => lemma_run_scan_from(s, pre, s.tool + 1),
            Purpose::Contents => lemma_run_clean_from(s, pre, s.k + 1),
            Purpose::Before => lemma_run_run_cmd(DevRunV { before: 0, ..s }, pre),
            Purpose::After => lemma_run_cmd_done(s, pre, 0),
        }
    }
}

proof fn lemma_run_scan_done(s: DevRunV, pre: Seq<LineV>)
    requires
        s.freed == 0,
    ensures
        dev_keeps(s, scan_done(s, pre)),
        scan_done(s, pre).0.found == s.found,
        scan_done(s, pre).0.freed == s.freed,
    decreases 2int, 0int, 0int,
{
    if !s.scan_only && s.found.len() != 0 {
        lemma_run_clean_from(s, pre + summary_lines(s.found, s.deep), 0);
    }
}

proof fn lemma_run_clean_from(s: DevRunV, pre: Seq<LineV>, k: int)
    ensures
        dev_keeps(s, clean_from(s, pre, k)),
        clean_from(s, pre, k).0.found == s.found,
        clean_from(s, pre, k).0.freed == s.freed,
        dev_past(k, clean_from(s, pre, k).0),
    decreases 1int, rest(s.found.len() as int, k), 3int,
{
    if 0 <= k < s.found.len() {
        let c = s.found[k];
        if (c.needs_redownload && !s.deep) || s.dry_run {
            lemma_run_clean_from(s, pre, k + 1);
        } else {
            lemma_lookup_found(s.tools, c.name@);
            match lookup(s.tools, c.name@) {
                None => lemma_run_clean_from(s, pre, k + 1),
                Some(ti) => {
                    let s2 = DevRunV { tool: ti, k, ..s };
                    match s.tools[ti].cleaner {
                        Cleaner::Contents => lemma_run_resolve(s2, pre, Purpose::Contents),
                        Cleaner::Command { check, .. } => if !check {
                            lemma_run_resolve(s2, pre, Purpose::Before);
                        },
                        Cleaner::Fire { .. } => {},
                    }
                },
            }
        }
    }
}

proof fn lemma_run_run_cmd(s: DevRunV, pre: Seq<LineV>)
    requires
        dev_at_cache(s),
    ensures
        dev_keeps(s, crate::dev::run_cmd(s, pre)),
        crate::dev::run_cmd(s, pre).0.found == s.found,
        crate::dev::run_cmd(s, pre).0.freed == s.freed,
        dev_past(s.k, crate::dev::run_cmd(s, pre).0),
{
}

proof fn lemma_run_cmd_done(s: DevRunV, pre: Seq<LineV>, after: u64)
    requires
        dev_at_cache(s),
    ensures
        dev_keeps(s, cmd_done(s, pre, after)),
        cmd_done(s, pre, after).0.found == s.found,
        cmd_done(s, pre, after).0.freed == sat_add(s.freed, crate::packages::sub0(s.before, after)),
        dev_past(s.k + 1, cmd_done(s, pre, after).0),
    decreases 1int, rest(s.found.len() as int, s.k), 0int,
{
    lemma_run_clean_from(
        DevRunV { freed: sat_add(s.freed, crate::packages::sub0(s.before, after)), ..s },
        pre,
        s.k + 1,
    );
}

/// A dev-cache run starts in its invariant.
pub proof fn dev_run_starts_in_its_invariant(
    deep: bool,
    dry_run: bool,
    yes: bool,
    scan_only: bool,
    tools: Seq<crate::dev::DevTool>,
)
    ensures
        dev_run_inv(crate::dev::fresh(deep, dry_run, yes, scan_only, tools)),
{
}

/// Over a whole dev-cache run, every step keeps the run's invariant, so in
/// every state the run reaches from its start:
/// - a step that runs a command, empties a directory or removes an entry
///   stands at a detected cache, with the tool that found it, outside a dry
///   run; without `--deep` no cache that needs a re-download is touched;
/// - the `--deep` prompt is asked only with `--deep`, without `--yes`, when
///   some detected cache needs a re-download; declined, it ends the run with
///   0 freed and touches nothing;
/// - the run reports the running total, which starts at 0 and grows only by
///   one cache's result (the bytes emptied, or the drop in size across the
///   tool's own command), after which the run moves past that cache; the
///   caches are worked in order and stay fixed once the scan is over (the
///   sum over a whole run is `dev_run_total_is_the_sum_of_its_caches`).
#[verifier::rlimit(60)]
pub proof fn dev_run_cleans_only_what_it_may(s: DevRunV, r: ReplyV)
    requires
        dev_run_inv(s),
    ensures
        dev_keeps(s, dev_next(s, r)),
        changes_system(dev_next(s, r).1.next) ==> dev_at_cache(dev_next(s, r).0),
        !dev_scan_stage(s.stage) ==> dev_next(s, r).0.found == s.found,
        s.stage == DevStage::Confirm && !flag_of(r) ==> dev_next(s, r).0.stage == DevStage::Finished
            && dev_next(s, r).1.next == NextV::Done(0),
        dev_next(s, r).0.freed == sat_add(s.freed, dev_step_result(s, r)),
        dev_clean_stage(s.stage) ==> dev_past(s.k, dev_next(s, r).0),
        s.stage == DevStage::Finished ==> dev_next(s, r).0 == s,
        s.stage == DevStage::Rm ==> dev_next(s, r).0.freed == sat_add(s.freed, size_of(r)),
        s.stage == DevStage::Size(Purpose::After) ==> dev_next(s, r).0.freed == sat_add(
            s.freed,
            crate::packages::sub0(s.before, size_of(r)),
        ),
{
    let ok = flag_of(r);
    match s.stage {
        DevStage::Begin => {},
        DevStage::Home => lemma_run_scan_from(DevRunV { home: text_of(r), ..s }, seq![], 0),
        DevStage::Which(i) => if i < s.tools.len() {
            let t = s.tools[i as int];
            match t.presence {
                Presence::Listed(_) => {
                    let s2 = if ok {
                        DevRunV {
                            found: s.found.push(
                                crate::dev::DevCache {
                                    name: t.name,
                                    size: 0,
                                    needs_redownload: t.needs_redownload,
                                    note: t.note,
                                },
                            ),
                            ..s
                        }
                    } else {
                        s
                    };
                    lemma_run_scan_from(s2, seq![], i + 1);
                },
                _ => if ok {
                    lemma_run_resolve(DevRunV { tool: i as int, ..s }, seq![], Purpose::Scan);
                } else {
                    lemma_run_scan_from(s, seq![], i + 1);
                },
            }
        },
        DevStage::Resolve(p) => if at_valid(s, p) {
            lemma_run_resolved(s, seq![], p, crate::dev::fallback_of(s));
        },
        DevStage::Probe(p) => {
            lemma_run_resolved(s, seq![], p, text_of(r));
            lemma_run_resolved(s, seq![], p, if at_valid(s, p) { crate::dev::fallback_of(s) } else { None });
        },
        DevStage::EnvVar(p) => {
            lemma_run_resolved(s, seq![], p, text_of(r));
            lemma_run_resolved(s, seq![], p, if at_valid(s, p) { crate::dev::fallback_of(s) } else { None });
        },
        DevStage::Exists(p) => match p {
            Purpose::Scan => lemma_run_scan_from(s, seq![], s.tool + 1),
            Purpose::Contents => lemma_run_clean_from(s, seq![], s.k + 1),
            _ => {},
        },
        DevStage::Size(p) => match p {
            Purpose::Scan => if 0 <= s.tool < s.tools.len() {
                let t = s.tools[s.tool];
                let size = size_of(r);
                let s2 = if size > 0 {
                    DevRunV {
                        found: s.found.push(
                            crate::dev::DevCache {
                                name: t.name,
                                size,
                                needs_redownload: t.needs_redownload,
                                note: t.note,
                            },
                        ),
                        ..s
                    }
                } else {
                    s
                };
                lemma_run_scan_from(s2, seq![], s.tool + 1);
            },
            Purpose::Before => lemma_run_run_cmd(DevRunV { before: size_of(r), ..s }, seq![]),
            Purpose::After => lemma_run_cmd_done(s, seq![], size_of(r)),
            Purpose::Contents => {},
        },
        DevStage::Confirm => lemma_run_clean_from(s, seq![], 0),
        DevStage::CleanWhich => {
            lemma_run_resolve(s, seq![], Purpose::Before);
            lemma_run_resolve(s, seq![], Purpose::Contents);
            lemma_run_clean_from(s, seq![], s.k + 1);
        },
        DevStage::Run => lemma_run_resolve(s, seq![], Purpose::After),
        DevStage::Rm => lemma_run_clean_from(
            DevRunV { freed: sat_add(s.freed, size_of(r)), ..s },
            seq![],
            s.k + 1,
        ),
        DevStage::Fire => lemma_run_clean_from(s, seq![], s.k + 1),
        DevStage::Finished => {},
    }
}


/// The state a dev-cache run reaches from `s` on the replies `rs`, in order.
pub open spec fn dev_after(s: DevRunV, rs: Seq<ReplyV>) -> DevRunV
    decreases rs.len(),
{
    if rs.len() == 0 {
        s
    } else {
        dev_next(dev_after(s, rs.drop_last()), rs.last()).0
    }
}

/// The positions, among the detected caches, of the caches the run finished
/// on the replies `rs`, in order.
pub open spec fn dev_worked(s: DevRunV, rs: Seq<ReplyV>) -> Seq<int>
    decreases rs.len(),
{
    if rs.len() == 0 {
        seq![]
    } else {
        let p = dev_after(s, rs.drop_last());
        if dev_finishes(p, rs.last()) {
            dev_worked(s, rs.drop_last()).push(p.k)
        } else {
            dev_worked(s, rs.drop_last())
        }
    }
}

/// What each of those caches freed, in the same order.
pub open spec fn dev_results(s: DevRunV, rs: Seq<ReplyV>) -> Seq<u64>
    decreases rs.len(),
{
    if rs.len() == 0 {
        seq![]
    } else {
        let p = dev_after(s, rs.drop_last());
        if dev_finishes(p, rs.last()) {
            dev_results(s, rs.drop_last()).push(dev_credit(p, rs.last()))
        } else {
            dev_results(s, rs.drop_last())
        }
    }
}

/// Detected cache `k` of `t` is one the run may clean: outside a dry run, and
/// one that needs a re-download only with `--deep`.
pub open spec fn dev_cache_counted(t: DevRunV, k: int) -> bool {
    &&& 0 <= k < t.found.len()
    &&& !t.dry_run
    &&& t.found[k].needs_redownload ==> t.deep
}

proof fn lemma_dev_trace(s: DevRunV, rs: Seq<ReplyV>)
    requires
        dev_run_inv(s),
        s.freed == 0,
    ensures
        dev_run_inv(dev_after(s, rs)),
        dev_after(s, rs).deep == s.deep,
        dev_after(s, rs).dry_run == s.dry_run,
        dev_after(s, rs).freed == crate::usercache::sum_sat(dev_results(s, rs)),
        dev_worked(s, rs).len() == dev_results(s, rs).len(),
        dev_worked(s, rs).len() > 0 ==> dev_clean_stage(dev_after(s, rs).stage) || dev_after(
            s,
            rs,
        ).stage == DevStage::Finished,
        forall|i: int, j: int|
            0 <= i < j < dev_worked(s, rs).len() ==> dev_worked(s, rs)[i] < dev_worked(s, rs)[j],
        forall|i: int|
            0 <= i < dev_worked(s, rs).len() ==> dev_cache_counted(
                dev_after(s, rs),
                #[trigger] dev_worked(s, rs)[i],
            ),
        forall|i: int|
            0 <= i < dev_worked(s, rs).len() && dev_clean_stage(dev_after(s, rs).stage) ==> #[trigger] dev_worked(
                s,
                rs,
            )[i] < dev_after(s, rs).k,
    decreases rs.len(),
{
    if rs.len() > 0 {
        let q = rs.drop_last();
        let r = rs.last();
        lemma_dev_trace(s, q);
        let p = dev_after(s, q);
        dev_run_cleans_only_what_it_may(p, r);
        let e = dev_next(p, r).0;
        assert(dev_after(s, rs) == e);
        let w0 = dev_worked(s, q);
        let v0 = dev_results(s, q);
        let w = dev_worked(s, rs);
        if dev_finishes(p, r) {
            assert(w == w0.push(p.k));
            assert(dev_results(s, rs) == v0.push(dev_credit(p, r)));
            assert(dev_results(s, rs).drop_last() =~= v0);
            assert forall|i: int| 0 <= i < w.len() implies dev_cache_counted(e, #[trigger] w[i]) by {
                if i < w0.len() {
                    assert(w[i] == w0[i]);
                    assert(dev_cache_counted(p, w0[i]));
                }
            }
            assert forall|i: int, j: int| 0 <= i < j < w.len() implies w[i] < w[j] by {
                assert(w[i] == w0[i]);
                if j < w0.len() {
                    assert(w[j] == w0[j]);
                }
            }
            assert forall|i: int| 0 <= i < w.len() && dev_clean_stage(e.stage) implies #[trigger] w[i] < e.k by {
                if i < w0.len() {
                    assert(w[i] == w0[i]);
                    assert(w0[i] < p.k);
                }
            }
        } else {
            assert(w == w0);
            assert(dev_results(s, rs) == v0);
            assert forall|i: int| 0 <= i < w.len() implies dev_cache_counted(e, #[trigger] w[i]) by {
                assert(dev_cache_counted(p, w0[i]));
            }
            assert forall|i: int| 0 <= i < w.len() && dev_clean_stage(e.stage) implies #[trigger] w[i] < e.k by {
                assert(w0[i] < p.k);
            }
        }
    }
}

/// The total a dev-cache run frees is the sum of what each cache it cleaned
/// freed. Run from its start on any replies, the run has worked on a list of
/// detected caches, in order and each once, each one it may clean (never in
/// a dry run; one that needs a re-download only with `--deep`). What each
/// freed is the bytes emptied, or the drop in size across the tool's own
/// command. The total the run holds, and the figure it finishes with, is the
/// sum of those results (saturating at `u64::MAX`).
pub proof fn dev_run_total_is_the_sum_of_its_caches(s: DevRunV, rs: Seq<ReplyV>, r: ReplyV)
    requires
        s == crate::dev::fresh(s.deep, s.dry_run, s.yes, s.scan_only, s.tools),
    ensures
        dev_after(s, rs).freed == crate::usercache::sum_sat(dev_results(s, rs)),
        dev_next(dev_after(s, rs), r).1.next matches NextV::Done(n) ==> n == crate::usercache::sum_sat(
            dev_results(s, rs.push(r)),
        ),
        dev_worked(s, rs).len() == dev_results(s, rs).len(),
        forall|i: int, j: int|
            0 <= i < j < dev_worked(s, rs).len() ==> dev_worked(s, rs)[i] < dev_worked(s, rs)[j],
        forall|i: int|
            0 <= i < dev_worked(s, rs).len() ==> dev_cache_counted(
                dev_after(s, rs),
                #[trigger] dev_worked(s, rs)[i],
            ),
{
    dev_run_starts_in_its_invariant(s.deep, s.dry_run, s.yes, s.scan_only, s.tools);
    lemma_dev_trace(s, rs);
    lemma_dev_trace(s, rs.push(r));
    assert(rs.push(r).drop_last() =~= rs);
    dev_run_cleans_only_what_it_may(dev_after(s, rs), r);
}


/// Emptying the trash and the user cache never runs anything as root.
pub proof fn user_level_machines_never_elevate(t: TrashV, u: UserCacheV, r: ReplyV)
    ensures
        !elevates(trash_next(t, r).1.next),
        !elevates(user_next(u, r).1.next),
{
}


/// Before the package-cache operation first measures, no cache directory
/// has been decided yet.
pub open spec fn pkg_dir_states(s: PkgV) -> bool {
    (s.stage == PkgStage::Begin || s.stage == PkgStage::Ostree || s.stage == PkgStage::OstreeRan
        || s.stage == PkgStage::Readonly || s.stage == PkgStage::FedoraLib || s.stage
        == PkgStage::FedoraDnf || s.stage == PkgStage::GentooQuery || s.stage == PkgStage::GentooConf
        || s.stage == PkgStage::GentooLegacy || s.stage == PkgStage::GentooModern) ==> s.dir is None
}

/// The package-cache operation measures one directory, decided before the
/// first measurement and never changed after: every size it asks for is of
/// that directory (before and after the clean command) or of the Portage
/// build tree it clears.
#[verifier::rlimit(60)]
pub proof fn pkg_cache_measures_one_decided_dir(s: PkgV, r: ReplyV)
    requires
        pkg_dir_states(s),
    ensures
        pkg_dir_states(pkg_next(s, r).0),
        s.dir is Some ==> pkg_next(s, r).0.dir == s.dir,
        pkg_next(s, r).1.next matches NextV::Ask(op) ==> (op matches OpV::DirSize(x) ==> pkg_next(s, r).0.dir
            == Some(x) || x == pkg_next(s, r).0.build),
{
    match s.stage {
        PkgStage::Begin => {},
        PkgStage::Ostree => {},
        PkgStage::OstreeRan => {},
        PkgStage::Readonly => {},
        PkgStage::FedoraLib => {},
        PkgStage::FedoraDnf => {},
        PkgStage::GentooQuery => {},
        PkgStage::GentooConf => {},
        PkgStage::GentooLegacy => {},
        PkgStage::GentooModern => {},
        PkgStage::SizeBefore => {},
        PkgStage::ArchList => {},
        PkgStage::ArchSweep => {},
        PkgStage::ArchSc => {},
        PkgStage::ArchConfirm => {},
        PkgStage::ArchScc => {},
        PkgStage::DebClean => {},
        PkgStage::DebConfirm => {},
        PkgStage::DebAuto => {},
        PkgStage::FedoraPm => {},
        PkgStage::FedoraClean => {},
        PkgStage::SuseClean => {},
        PkgStage::NixCapture => {},
        PkgStage::NixScale => {},
        PkgStage::NixSudo => {},
        PkgStage::NixConfirm => {},
        PkgStage::NixUserD => {},
        PkgStage::NixSudoD => {},
        PkgStage::NixOptimise => {},
        PkgStage::VoidConfirm => {},
        PkgStage::VoidClean => {},
        PkgStage::AlpineClean => {},
        PkgStage::AlpineConfirm => {},
        PkgStage::AlpineIsDir => {},
        PkgStage::AlpineFind => {},
        PkgStage::GentooEclean => {},
        PkgStage::GentooDistfiles => {},
        PkgStage::GentooConfirm => {},
        PkgStage::GentooPackages => {},
        PkgStage::GentooDistIsDir => {},
        PkgStage::GentooFind => {},
        PkgStage::PortageConf => {},
        PkgStage::PortageExists => {},
        PkgStage::PortageEmerge => {},
        PkgStage::PortageSize => {},
        PkgStage::PortageFind => {},
        PkgStage::SolusClean => {},
        PkgStage::ClearWhich => {},
        PkgStage::ClearClean => {},
        PkgStage::SizeAfter => {},
        PkgStage::Finished => {},
    }
}

/// A prune directory that is a plain cache dir: a non-empty child name that
/// is not user state.
pub open spec fn plain_prune_dir(d: Seq<char>) -> bool {
    &&& d != "snapshots"@ && d != "hashes"@ && d.len() > 0
    &&& !d.contains('/') && !contains(d, ".."@)
}

proof fn lemma_installed_from_table(table: Seq<AurHelper>, present: Seq<Seq<char>>)
    ensures
        forall|j: int|
            0 <= j < crate::detect::installed_helpers(table, present).len() ==> exists|i: int|
                0 <= i < table.len() && #[trigger] crate::detect::installed_helpers(table, present)[j]
                    == table[i],
    decreases table.len(),
{
    if table.len() > 0 {
        lemma_installed_from_table(table.drop_last(), present);
        let a = crate::detect::installed_helpers(table.drop_last(), present);
        let r = crate::detect::installed_helpers(table, present);
        assert forall|j: int| 0 <= j < r.len() implies exists|i: int|
            0 <= i < table.len() && #[trigger] r[j] == table[i] by {
            if j < a.len() {
                assert(r[j] == a[j]);
                let i = choose|i: int| 0 <= i < table.drop_last().len() && a[j] == table.drop_last()[i];
                assert(table.drop_last()[i] == table[i]);
            } else {
                assert(r[j] == table[table.len() - 1]);
            }
        }
    }
}

/// The helpers actually driven, those of the table found installed (what
/// `aur_helpers` returns), keep the table's guarantees: each is cleaned one
/// way only, deep flags only beside safe ones, command flags never wait on
/// stdin and differ between modes, and every prune dir is a plain cache dir
/// listed in one mode only.
pub proof fn installed_helpers_keep_the_table_laws(t: Seq<AurHelper>, present: Seq<Seq<char>>)
    requires
        crate::detect::helper_views(t) =~~= aur_table(),
    ensures
        forall|j: int|
            0 <= j < crate::detect::installed_helpers(t, present).len() ==> {
                let h = (#[trigger] crate::detect::installed_helpers(t, present)[j])@;
                &&& (h.clean is Some) != (h.prune_dirs.len() > 0)
                &&& h.clean is None ==> h.deep_clean is None
                &&& (h.clean is Some && h.deep_clean is Some) ==> h.clean->0.contains("--noconfirm"@)
                    && h.deep_clean->0.contains("--noconfirm"@) && h.clean->0 != h.deep_clean->0
                &&& forall|k: int|
                    0 <= k < h.prune_dirs.len() ==> plain_prune_dir(#[trigger] h.prune_dirs[k])
                        && !h.prune_dirs_deep.contains(h.prune_dirs[k])
                &&& forall|k: int|
                    0 <= k < h.prune_dirs_deep.len() ==> plain_prune_dir(#[trigger] h.prune_dirs_deep[k])
            },
{
    every_helper_cleanable_one_way();
    pruned_dirs_are_plain_cache_dirs();
    command_helpers_noninteractive_and_distinct();
    lemma_installed_from_table(t, present);
    let r = crate::detect::installed_helpers(t, present);
    assert forall|j: int| 0 <= j < r.len() implies {
        let h = (#[trigger] r[j])@;
        &&& (h.clean is Some) != (h.prune_dirs.len() > 0)
        &&& h.clean is None ==> h.deep_clean is None
        &&& (h.clean is Some && h.deep_clean is Some) ==> h.clean->0.contains("--noconfirm"@)
            && h.deep_clean->0.contains("--noconfirm"@) && h.clean->0 != h.deep_clean->0
        &&& forall|k: int|
            0 <= k < h.prune_dirs.len() ==> plain_prune_dir(#[trigger] h.prune_dirs[k])
                && !h.prune_dirs_deep.contains(h.prune_dirs[k])
        &&& forall|k: int|
            0 <= k < h.prune_dirs_deep.len() ==> plain_prune_dir(#[trigger] h.prune_dirs_deep[k])
    } by {
        let i = choose|i: int| 0 <= i < t.len() && r[j] == t[i];
        let h = r[j]@;
        assert(crate::detect::helper_views(t)[i] == aur_table()[i]);
        assert(h == aur_table()[i]);
        assert forall|k: int| 0 <= k < h.prune_dirs.len() implies plain_prune_dir(#[trigger] h.prune_dirs[k])
            && !h.prune_dirs_deep.contains(h.prune_dirs[k]) by {
            assert(h.prune_dirs[k] == aur_table()[i].prune_dirs[k]);
        }
        assert forall|k: int| 0 <= k < h.prune_dirs_deep.len() implies plain_prune_dir(
            #[trigger] h.prune_dirs_deep[k],
        ) by {
            assert(h.prune_dirs_deep[k] == aur_table()[i].prune_dirs_deep[k]);
        }
    }
}


// ═══════════════════════════ Reading what the system reports ═══════════════════════════

/// `r` is `name` with its trailing ASCII digits removed: a prefix of `name`
/// that does not end in a digit, followed in `name` by digits only.
pub open spec fn without_trailing_digits(name: Seq<char>, r: Seq<char>) -> bool {
    &&& r.len() <= name.len()
    &&& r =~= name.take(r.len() as int)
    &&& forall|i: int| r.len() <= i < name.len() ==> crate::text::is_ascii_digit(#[trigger] name[i])
    &&& r.len() == 0 || !crate::text::is_ascii_digit(r.last())
}

proof fn lemma_drop_trailing_digits(s: Seq<char>)
    ensures
        without_trailing_digits(s, crate::text::drop_while_end(s, crate::text::digit_pred())),
    decreases s.len(),
{
    if s.len() > 0 && crate::text::is_ascii_digit(s.last()) {
        let t = s.drop_last();
        lemma_drop_trailing_digits(t);
        let r = crate::text::drop_while_end(t, crate::text::digit_pred());
        assert(crate::text::drop_while_end(s, crate::text::digit_pred()) == r);
        assert forall|i: int| r.len() <= i < s.len() implies crate::text::is_ascii_digit(#[trigger] s[i]) by {
            if i < t.len() {
                assert(s[i] == t[i]);
            }
        }
        assert(r =~= s.take(r.len() as int));
    }
}

/// The disk behind `/dev/NAME`, when NAME is neither an NVMe nor an eMMC
/// device, is NAME without its trailing digits, whatever its letters:
/// `sda3` gives `sda`, `vda2` gives `vda`, `hda1` gives `hda`, `xvda1` gives
/// `xvda`.
pub proof fn partitions_name_their_disk_by_dropping_digits(name: Seq<char>)
    requires
        !starts_with(name, "nvme"@),
        !starts_with(name, "mmcblk"@),
        !starts_with(name, "/dev/"@),
    ensures
        without_trailing_digits(name, crate::detect::block_name_of("/dev/"@ + name)),
{
    reveal_strlit("/dev/");
    let d = "/dev/"@ + name;
    assert(d.take(5) =~= "/dev/"@);
    assert(d.skip(5) =~= name);
    assert(crate::text::strip_all_prefix(d, "/dev/"@) == crate::text::strip_all_prefix(name, "/dev/"@));
    lemma_drop_trailing_digits(name);
}

proof fn lemma_nothing_in_empty(p: Seq<char>)
    requires
        p.len() > 0,
    ensures
        !contains(Seq::<char>::empty(), p),
{
    if contains(Seq::<char>::empty(), p) {
        let i = choose|i: int| occurs_at(Seq::<char>::empty(), p, i);
        assert(occurs_at(Seq::<char>::empty(), p, i));
    }
}

/// An `ID` the table knows decides the family by itself, whatever `ID_LIKE`
/// says. For any other `ID`, the family is the first of these that `ID_LIKE`
/// mentions: arch, then debian or ubuntu, then fedora or rhel, then suse;
/// mentioning none leaves it unknown. So Oracle Linux (`ID=ol`,
/// `ID_LIKE=fedora`) is of the Fedora family.
pub proof fn unknown_ids_follow_id_like(id: Seq<char>, id_like: Seq<char>)
    ensures
        crate::detect::classify(id, ""@) != Distro::Unknown ==> crate::detect::classify(id, id_like)
            == crate::detect::classify(id, ""@),
        crate::detect::classify(id, ""@) == Distro::Unknown && contains(id_like, "arch"@)
            ==> crate::detect::classify(id, id_like) == Distro::Arch,
        crate::detect::classify(id, ""@) == Distro::Unknown && !contains(id_like, "arch"@) && (contains(
            id_like,
            "debian"@,
        ) || contains(id_like, "ubuntu"@)) ==> crate::detect::classify(id, id_like) == Distro::Debian,
        crate::detect::classify(id, ""@) == Distro::Unknown && !contains(id_like, "arch"@) && !contains(
            id_like,
            "debian"@,
        ) && !contains(id_like, "ubuntu"@) && (contains(id_like, "fedora"@) || contains(id_like, "rhel"@))
            ==> crate::detect::classify(id, id_like) == Distro::Fedora,
        crate::detect::classify(id, ""@) == Distro::Unknown && !contains(id_like, "arch"@) && !contains(
            id_like,
            "debian"@,
        ) && !contains(id_like, "ubuntu"@) && !contains(id_like, "fedora"@) && !contains(id_like, "rhel"@)
            && contains(id_like, "suse"@) ==> crate::detect::classify(id, id_like) == Distro::Suse,
        crate::detect::classify(id, ""@) == Distro::Unknown && !contains(id_like, "arch"@) && !contains(
            id_like,
            "debian"@,
        ) && !contains(id_like, "ubuntu"@) && !contains(id_like, "fedora"@) && !contains(id_like, "rhel"@)
            && !contains(id_like, "suse"@) ==> crate::detect::classify(id, id_like) == Distro::Unknown,
{
    reveal_strlit("");
    reveal_strlit("arch");
    reveal_strlit("debian");
    reveal_strlit("ubuntu");
    reveal_strlit("fedora");
    reveal_strlit("rhel");
    reveal_strlit("suse");
    assert(""@ =~= Seq::<char>::empty());
    lemma_nothing_in_empty("arch"@);
    lemma_nothing_in_empty("debian"@);
    lemma_nothing_in_empty("ubuntu"@);
    lemma_nothing_in_empty("fedora"@);
    lemma_nothing_in_empty("rhel"@);
    lemma_nothing_in_empty("suse"@);
}

/// The journal is vacuumed exactly when it is over 50 MiB, or its size is
/// unknown. At or under the limit the operation finishes, freeing nothing;
/// over it, a dry run only reports, and a real run measures
/// `/var/log/journal` and then runs `journalctl --vacuum-size=50M` as root.
pub proof fn journal_vacuums_only_over_the_limit(s: JournalV, r: ReplyV)
    ensures
        s.usage is Some && s.usage.unwrap() <= 50 * 1024 * 1024 ==> crate::system::journal_decide(s).0.stage
            == JournalStage::Finished && crate::system::journal_decide(s).1.next == NextV::Done(0),
        (s.usage is None || s.usage.unwrap() > 50 * 1024 * 1024) && s.dry_run
            ==> crate::system::journal_decide(s).0.stage == JournalStage::Finished
            && crate::system::journal_decide(s).1.next == NextV::Done(0),
        (s.usage is None || s.usage.unwrap() > 50 * 1024 * 1024) && !s.dry_run
            ==> crate::system::journal_decide(s).0.stage == JournalStage::Before
            && crate::system::journal_decide(s).1.next == NextV::Ask(OpV::DirSize("/var/log/journal"@)),
        s.stage is Scale && crate::plan::bytes_of(r) is Some && crate::plan::bytes_of(r).unwrap() > 50
            * 1024 * 1024 && !s.dry_run ==> journal_next(s, r).1.next == NextV::Ask(
            OpV::DirSize("/var/log/journal"@),
        ),
        s.stage == JournalStage::Before ==> journal_next(s, r).1.next == NextV::Ask(
            cmd("journalctl", seq!["--vacuum-size=50M"], true, true),
        ),
{
}

/// A listing row that names a disabled revision: it mentions `disabled` and
/// has at least three words.
pub open spec fn disabled_row(l: Seq<char>) -> bool {
    contains(l, "disabled"@) && crate::text::words(l).len() >= 3
}

/// Every disabled revision of a `snap list --all` listing is removed: one
/// (name, revision) entry for each disabled row, in the rows' order, read as
/// the row's first and third words. So there are as many entries as
/// disabled rows.
pub proof fn snap_lists_every_disabled_revision(ls: Seq<Seq<char>>)
    ensures
        crate::parse::snap_disabled_spec(ls) == ls.filter(|l: Seq<char>| disabled_row(l)).map_values(
            |l: Seq<char>| (crate::text::words(l)[0], crate::text::words(l)[2]),
        ),
        crate::parse::snap_disabled_spec(ls).len() == ls.filter(|l: Seq<char>| disabled_row(l)).len(),
    decreases ls.len(),
{
    reveal(Seq::filter);
    if ls.len() > 0 {
        snap_lists_every_disabled_revision(ls.drop_last());
        let f = ls.drop_last().filter(|l: Seq<char>| disabled_row(l));
        let g = |l: Seq<char>| (crate::text::words(l)[0], crate::text::words(l)[2]);
        if disabled_row(ls.last()) {
            assert(ls.filter(|l: Seq<char>| disabled_row(l)) == f.push(ls.last()));
            assert(f.push(ls.last()).map_values(g) =~= f.map_values(g) + seq![g(ls.last())]);
        } else {
            assert(ls.filter(|l: Seq<char>| disabled_row(l)) == f);
            assert(crate::parse::snap_disabled_spec(ls) =~= crate::parse::snap_disabled_spec(ls.drop_last()));
        }
    }
}

/// The number an ASCII digit string spells, read whole.
pub open spec fn decimal(t: Seq<char>) -> nat
    decreases t.len(),
{
    if t.len() == 0 {
        0
    } else {
        decimal(t.drop_last()) * 10 + ((t.last() as int) - 48) as nat
    }
}

/// A version component: one or more ASCII digits whose value fits in a `u64`.
pub open spec fn numeral(t: Seq<char>) -> bool {
    &&& t.len() > 0
    &&& forall|i: int| 0 <= i < t.len() ==> '0' <= #[trigger] t[i] && t[i] <= '9'
    &&& decimal(t) <= u64::MAX
}

proof fn lemma_decimal(t: Seq<char>)
    requires
        forall|i: int| 0 <= i < t.len() ==> '0' <= #[trigger] t[i] && t[i] <= '9',
    ensures
        crate::update::digits_value(t) == decimal(t),
        crate::update::all_digits(t),
        crate::update::digit_prefix(t) == t,
    decreases t.len(),
{
    if t.len() > 0 {
        lemma_decimal(t.drop_last());
        lemma_decimal(t.drop_first());
        assert(seq![t[0]] + t.drop_first() =~= t);
    }
}

proof fn lemma_find_dot(a: Seq<char>, rest: Seq<char>)
    requires
        forall|i: int| 0 <= i < a.len() ==> '0' <= #[trigger] a[i] && a[i] <= '9',
        rest.len() > 0 ==> rest[0] == '.',
    ensures
        crate::text::find_char(a + rest, '.') == if rest.len() > 0 {
            Some(a.len() as int)
        } else {
            None::<int>
        },
    decreases a.len(),
{
    if a.len() > 0 {
        lemma_find_dot(a.drop_first(), rest);
        assert((a + rest).drop_first() =~= a.drop_first() + rest);
    } else {
        assert(a + rest =~= rest);
        if rest.len() == 0 {
            assert(crate::text::find_char(rest, '.') is None);
        }
    }
}

proof fn lemma_not_ws_nor_v(s: Seq<char>)
    requires
        s.len() > 0,
        '0' <= s[0] && s[0] <= '9',
        '0' <= s.last() && s.last() <= '9',
    ensures
        drop_while(trim(s), crate::text::eq_pred('v')) == s,
{
    assert(trim(s) == s);
}

/// A version `MAJOR.MINOR.PATCH` of decimal numerals reads each number whole:
/// its value is that of each component as a decimal number, so `1.10.0` is
/// (1, 10, 0).
pub proof fn versions_read_each_number_whole(a: Seq<char>, b: Seq<char>, c: Seq<char>)
    requires
        numeral(a),
        numeral(b),
        numeral(c),
    ensures
        crate::update::version_of(a + seq!['.'] + b + seq!['.'] + c) == Some(
            (decimal(a) as u64, decimal(b) as u64, decimal(c) as u64),
        ),
{
    lemma_decimal(a);
    lemma_decimal(b);
    lemma_decimal(c);
    let bc = b + seq!['.'] + c;
    let s = a + seq!['.'] + bc;
    assert(a + seq!['.'] + b + seq!['.'] + c =~= s);
    assert(s[0] == a[0]);
    assert(s.last() == c.last());
    lemma_not_ws_nor_v(s);
    lemma_find_dot(a, seq!['.'] + bc);
    assert(s =~= a + (seq!['.'] + bc));
    assert(s.take(a.len() as int) =~= a);
    assert(s.skip(a.len() as int + 1) =~= bc);
    lemma_find_dot(b, seq!['.'] + c);
    assert(bc =~= b + (seq!['.'] + c));
    assert(bc.take(b.len() as int) =~= b);
    assert(bc.skip(b.len() as int + 1) =~= c);
    lemma_find_dot(c, seq![]);
    assert(c + Seq::<char>::empty() =~= c);
    let parts = split_char(s, '.');
    assert(split_char(c, '.') == seq![c]);
    assert(split_char(bc, '.') =~= seq![b, c]);
    assert(parts =~= seq![a, b, c]);
}

/// Versions of three decimal numerals compare by their numbers, major first,
/// then minor, then patch: `1.10.0` is newer than `1.9.0`.
pub proof fn newer_compares_versions_by_number(
    a: Seq<char>,
    b: Seq<char>,
    c: Seq<char>,
    x: Seq<char>,
    y: Seq<char>,
    z: Seq<char>,
)
    requires
        numeral(a),
        numeral(b),
        numeral(c),
        numeral(x),
        numeral(y),
        numeral(z),
    ensures
        crate::update::newer(a + seq!['.'] + b + seq!['.'] + c, x + seq!['.'] + y + seq!['.'] + z) <==> (
        decimal(a) < decimal(x) || (decimal(a) == decimal(x) && (decimal(b) < decimal(y) || (decimal(b)
            == decimal(y) && decimal(c) < decimal(z))))),
{
    versions_read_each_number_whole(a, b, c);
    versions_read_each_number_whole(x, y, z);
}

} // verus!
