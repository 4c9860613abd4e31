//! Where caches live, which of their entries are protected, and which paths
//! are safe to empty.
use vstd::prelude::*;
use crate::detect::{AurHelper, Distro};
use crate::parse::{make_conf_value, parse_portage_tmpdir};
use crate::text::{
    chars_of, cviews, eq_chars, is_text, path_join, path_join_exec, split_char, split_char_exec,
    str_views, string_of, views, lines,
};

verus! {

// ═══════════════════════════ Path components ═══════════════════════════

/// The pieces between slashes that name a component: not empty, not `.`.
pub open spec fn keep_named(parts: Seq<Seq<char>>) -> Seq<Seq<char>>
    decreases parts.len(),
{
    if parts.len() == 0 {
        seq![]
    } else {
        let rest = keep_named(parts.drop_last());
        if parts.last().len() > 0 && parts.last() != seq!['.'] {
            rest.push(parts.last())
        } else {
            rest
        }
    }
}

/// `Path::components` on Unix, each rendered as text: `/` for the root, `.`
/// for a leading current-directory marker, then every named piece (`..`
/// included). Repeated slashes and inner `.` pieces vanish.
pub open spec fn components(p: Seq<char>) -> Seq<Seq<char>> {
    let parts = split_char(p, '/');
    let lead: Seq<Seq<char>> = if p.len() > 0 && p[0] == '/' {
        seq![seq!['/']]
    } else if parts.len() > 0 && parts[0] == seq!['.'] {
        seq![seq!['.']]
    } else {
        seq![]
    };
    lead + keep_named(parts)
}

/// `Path::file_name`: the last component when it is a plain name.
pub open spec fn file_name(p: Seq<char>) -> Option<Seq<char>> {
    let c = components(p);
    if c.len() > 0 && c.last() != seq!['/'] && c.last() != seq!['.'] && c.last() != seq!['.', '.'] {
        Some(c.last())
    } else {
        None
    }
}

/// `Path::components`, rendered as text.
pub fn components_exec(p: &str) -> (r: Vec<Vec<char>>)
    ensures
        cviews(r@) == components(p@),
{
    let cs = chars_of(p);
    let parts = split_char_exec(cs.as_slice(), '/');
    let mut out: Vec<Vec<char>> = Vec::new();
    let slash = cs.len() > 0 && cs[0] == '/';
    let dotted = !slash && parts.len() > 0 && is_text(parts[0].as_slice(), ".");
    proof {
        reveal_strlit(".");
    }
    if slash {
        let mut v: Vec<char> = Vec::new();
        v.push('/');
        assert(v@ =~= seq!['/']);
        out.push(v);
        assert(cviews(out@) =~= seq![seq!['/']]);
    } else if dotted {
        let mut v: Vec<char> = Vec::new();
        v.push('.');
        assert(v@ =~= seq!['.']);
        out.push(v);
        assert(cviews(out@) =~= seq![seq!['.']]);
    } else {
        assert(cviews(out@) =~= seq![]);
    }
    let ghost lead: Seq<Seq<char>> = if p@.len() > 0 && p@[0] == '/' {
        seq![seq!['/']]
    } else if split_char(p@, '/').len() > 0 && split_char(p@, '/')[0] == seq!['.'] {
        seq![seq!['.']]
    } else {
        seq![]
    };
    proof {
        assert("."@ =~= seq!['.']);
        if slash {
            assert(cviews(out@) =~= lead);
        } else if dotted {
            assert(parts@[0]@ == split_char(p@, '/')[0]);
            assert(cviews(out@) =~= lead);
        } else {
            if split_char(p@, '/').len() > 0 {
                assert(parts@[0]@ == split_char(p@, '/')[0]);
            }
            assert(cviews(out@) =~= lead);
        }
        assert(cviews(parts@).take(0) =~= seq![]);
        assert(lead + keep_named(seq![]) =~= lead);
    }
    let mut i: usize = 0;
    while i < parts.len()
        invariant
            0 <= i <= parts.len(),
            cviews(parts@) == split_char(p@, '/'),
            components(p@) == lead + keep_named(split_char(p@, '/')),
            cviews(out@) == lead + keep_named(cviews(parts@).take(i as int)),
        decreases parts.len() - i,
    {
        let ghost before = cviews(out@);
        let named = parts[i].len() > 0 && !is_text(parts[i].as_slice(), ".");
        if named {
            out.push(vstd::slice::slice_to_vec(parts[i].as_slice()));
        }
        proof {
            reveal_strlit(".");
            assert("."@ =~= seq!['.']);
            let t = cviews(parts@).take(i + 1);
            assert(t.drop_last() =~= cviews(parts@).take(i as int));
            assert(t.last() == parts@[i as int]@);
            if named {
                assert(cviews(out@) =~= before.push(parts@[i as int]@));
            } else {
                assert(cviews(out@) =~= before);
            }
        }
        i = i + 1;
    }
    assert(cviews(parts@).take(parts.len() as int) =~= cviews(parts@));
    out
}

// ═══════════════════════════ Portage build tree ═══════════════════════════

/// The build tree is `<tmpdir>/portage`: it must end in a `portage`
/// component and sit at least one directory below the root.
pub open spec fn portage_safe(dir: Seq<char>) -> bool {
    file_name(dir) == Some(seq!['p', 'o', 'r', 't', 'a', 'g', 'e']) && components(dir).len() >= 3
}

/// Final safety gate before deleting anything under the portage build tree:
/// the path must be `<real-dir>/portage`. A malformed `PORTAGE_TMPDIR`
/// (empty, or `/`) would otherwise expand to `/portage`.
pub fn portage_dir_is_safe(dir: &str) -> (b: bool)
    ensures
        b == portage_safe(dir@),
{
    let c = components_exec(dir);
    let n = c.len();
    if n < 3 {
        return false;
    }
    let last = &c[n - 1];
    proof {
        reveal_strlit("portage");
        assert(cviews(c@).last() == c@[n - 1]@);
        assert("portage"@ =~= seq!['p', 'o', 'r', 't', 'a', 'g', 'e']);
    }
    let b = is_text(last.as_slice(), "portage");
    proof {
        if b {
            assert(last@ =~= seq!['p', 'o', 'r', 't', 'a', 'g', 'e']);
            assert(file_name(dir@) == Some(last@));
        } else {
            assert(last@ != seq!['p', 'o', 'r', 't', 'a', 'g', 'e']);
        }
    }
    b
}

/// `$PORTAGE_TMPDIR/portage`, with `PORTAGE_TMPDIR` read from make.conf and
/// `/var/tmp` when unset.
pub open spec fn portage_dir_of(make_conf: Seq<char>) -> Seq<char> {
    let base = match make_conf_value(lines(make_conf), "PORTAGE_TMPDIR="@) {
        Some(v) => v,
        None => "/var/tmp"@,
    };
    path_join(base, "portage"@)
}

/// Resolve the portage build-tmp directory from make.conf's content.
pub fn portage_build_dir(make_conf: &str) -> (r: String)
    ensures
        r@ == portage_dir_of(make_conf@),
{
    match parse_portage_tmpdir(make_conf) {
        Some(base) => path_join_exec(base.as_str(), "portage"),
        None => path_join_exec("/var/tmp", "portage"),
    }
}

// ═══════════════════════════ Package-cache directories ═══════════════════════════

pub open spec fn fedora_dir_of(libdnf5_exists: bool, has_dnf: bool) -> Seq<char> {
    if libdnf5_exists {
        "/var/cache/libdnf5"@
    } else if has_dnf {
        "/var/cache/dnf"@
    } else {
        "/var/cache/yum"@
    }
}

/// The Fedora/RHEL cache dir to measure: dnf5's when present, then dnf4's,
/// then yum's. One active dir, so a stale sibling is never double-counted.
pub fn resolve_fedora_cache_dir(libdnf5_exists: bool, has_dnf: bool) -> (r: &'static str)
    ensures
        r@ == fedora_dir_of(libdnf5_exists, has_dnf),
{
    if libdnf5_exists {
        "/var/cache/libdnf5"
    } else if has_dnf {
        "/var/cache/dnf"
    } else {
        "/var/cache/yum"
    }
}

/// The directory each package manager's clean command empties. Fedora's and
/// Gentoo's are resolved on the system and passed in.
pub open spec fn cache_dir_of(d: Distro, fedora: Seq<char>, gentoo: Seq<char>) -> Option<Seq<char>> {
    match d {
        Distro::Arch => Some("/var/cache/pacman/pkg"@),
        Distro::Debian => Some("/var/cache/apt/archives"@),
        Distro::Fedora => Some(fedora),
        Distro::Suse => Some("/var/cache/zypp"@),
        Distro::Void => Some("/var/cache/xbps"@),
        Distro::Alpine => Some("/var/cache/apk"@),
        Distro::Gentoo => Some(gentoo),
        Distro::Solus => Some("/var/cache/eopkg"@),
        _ => None,
    }
}

/// The package-cache directory whose size before and after the clean gives
/// the freed figure: the whole tree the clean command touches.
pub fn pkg_cache_dir(distro: &Distro, fedora: &str, gentoo: &str) -> (r: Option<String>)
    ensures
        r matches Some(s) ==> cache_dir_of(*distro, fedora@, gentoo@) == Some(s@),
        r is None ==> cache_dir_of(*distro, fedora@, gentoo@) is None,
{
    match distro {
        Distro::Arch => Some(String::from_str("/var/cache/pacman/pkg")),
        Distro::Debian => Some(String::from_str("/var/cache/apt/archives")),
        Distro::Fedora => Some(String::from_str(fedora)),
        Distro::Suse => Some(String::from_str("/var/cache/zypp")),
        Distro::Void => Some(String::from_str("/var/cache/xbps")),
        Distro::Alpine => Some(String::from_str("/var/cache/apk")),
        Distro::Gentoo => Some(String::from_str(gentoo)),
        Distro::Solus => Some(String::from_str("/var/cache/eopkg")),
        _ => None,
    }
}

// ═══════════════════════════ Protected user caches ═══════════════════════════

pub open spec fn model_dirs() -> Seq<Seq<char>> {
    seq!["huggingface"@, "torch"@]
}

pub open spec fn dev_dirs() -> Seq<Seq<char>> {
    seq!["uv"@, "pip"@, "pipenv"@, "pypoetry"@, "deno"@, "ccache"@, "yarn"@]
}

/// Model-weight caches: multi-GB downloads grabbed on purpose. Neither
/// `--cache` nor `--dev` removes them, so they are kept silently.
pub fn protected_model_dirs() -> (v: Vec<&'static str>)
    ensures
        str_views(v@) == model_dirs(),
{
    let v = vec!["huggingface", "torch"];
    assert(str_views(v@) =~= model_dirs());
    v
}

/// Dev-tool caches under the user cache dir that `--dev` owns; their
/// presence prints a "use --dev" hint.
pub fn protected_dev_dirs() -> (v: Vec<&'static str>)
    ensures
        str_views(v@) == dev_dirs(),
{
    let v = vec!["uv", "pip", "pipenv", "pypoetry", "deno", "ccache", "yarn"];
    assert(str_views(v@) =~= dev_dirs());
    v
}

/// Every top-level name protected from a `--cache` wipe.
pub fn all_protected_dirs() -> (v: Vec<&'static str>)
    ensures
        str_views(v@) == model_dirs() + dev_dirs(),
{
    let mut v = protected_model_dirs();
    let d = protected_dev_dirs();
    let mut i: usize = 0;
    while i < d.len()
        invariant
            0 <= i <= d.len(),
            str_views(d@) == dev_dirs(),
            str_views(v@) == model_dirs() + dev_dirs().take(i as int),
        decreases d.len() - i,
    {
        let ghost before = str_views(v@);
        v.push(d[i]);
        assert(str_views(v@) =~= before.push(d@[i as int]@));
        assert(dev_dirs().take(i + 1) =~= dev_dirs().take(i as int).push(dev_dirs()[i as int]));
        i = i + 1;
    }
    assert(dev_dirs().take(d.len() as int) =~= dev_dirs());
    v
}

pub open spec fn cache_base_of(xdg: Option<Seq<char>>, home: Option<Seq<char>>) -> Option<Seq<char>> {
    match xdg {
        Some(x) if x.len() > 0 => Some(x),
        _ => match home {
            Some(h) => Some(path_join(h, ".cache"@)),
            None => None,
        },
    }
}

/// The user cache directory: `XDG_CACHE_HOME` when set and non-empty, else
/// `~/.cache`. `xdg` and `home` are the two variables' values, when set.
pub fn user_cache_base(xdg: Option<&str>, home: Option<&str>) -> (r: Option<String>)
    ensures
        r matches Some(s) ==> cache_base_of(opt_view(xdg), opt_view(home)) == Some(s@),
        r is None ==> cache_base_of(opt_view(xdg), opt_view(home)) is None,
{
    if let Some(x) = xdg {
        let cx = chars_of(x);
        if cx.len() > 0 {
            return Some(String::from_str(x));
        }
    }
    match home {
        Some(h) => Some(path_join_exec(h, ".cache")),
        None => None,
    }
}

pub open spec fn opt_view(o: Option<&str>) -> Option<Seq<char>> {
    match o {
        Some(s) => Some(s@),
        None => None,
    }
}

/// Cache dirs of the helpers whose dir is held back: every helper when the
/// AUR section runs (it cleans them itself), and a hand-pruned helper always
/// (its dir keeps state, such as aura's snapshots).
pub open spec fn held_helper_dirs(hs: Seq<AurHelper>, aur_running: bool) -> Seq<Seq<char>>
    decreases hs.len(),
{
    if hs.len() == 0 {
        seq![]
    } else {
        let rest = held_helper_dirs(hs.drop_last(), aur_running);
        if aur_running || hs.last().clean is None {
            rest.push(hs.last().bin@)
        } else {
            rest
        }
    }
}

/// The first component of `val` below `base`, when `val` lies under `base`
/// component-wise (`Path::strip_prefix`, then the first component).
pub open spec fn first_below(base: Seq<char>, val: Seq<char>) -> Option<Seq<char>> {
    let cb = components(base);
    let cv = components(val);
    if cb.len() < cv.len() && cv.take(cb.len() as int) == cb {
        Some(cv[cb.len() as int])
    } else {
        None
    }
}

/// Add the entry an `HF_HOME`/`HF_HUB_CACHE` relocation inside `base` lives
/// in, for each value in turn, when not already named.
pub open spec fn add_relocations(names: Seq<Seq<char>>, base: Seq<char>, hf: Seq<Seq<char>>) -> Seq<Seq<char>>
    decreases hf.len(),
{
    if hf.len() == 0 {
        names
    } else {
        let before = add_relocations(names, base, hf.drop_last());
        let val = hf.last();
        if val.len() == 0 {
            before
        } else {
            match first_below(base, val) {
                Some(first) => if before.contains(first) {
                    before
                } else {
                    before.push(first)
                },
                None => before,
            }
        }
    }
}

pub open spec fn protected_names(
    base: Seq<char>,
    helpers: Seq<AurHelper>,
    aur_running: bool,
    hf: Seq<Seq<char>>,
) -> Seq<Seq<char>> {
    add_relocations(model_dirs() + dev_dirs() + held_helper_dirs(helpers, aur_running), base, hf)
}

/// The text `x` is one of `names`.
fn names_contain(names: &Vec<String>, x: &[char]) -> (b: bool)
    ensures
        b == views(names@).contains(x@),
{
    let mut i: usize = 0;
    while i < names.len()
        invariant
            0 <= i <= names.len(),
            forall|k: int| 0 <= k < i ==> names@[k]@ != x@,
        decreases names.len() - i,
    {
        let c = chars_of(names[i].as_str());
        if eq_chars(c.as_slice(), x) {
            assert(views(names@)[i as int] == x@);
            return true;
        }
        i = i + 1;
    }
    assert forall|k: int| 0 <= k < views(names@).len() implies views(names@)[k] != x@ by {
        assert(views(names@)[k] == names@[k]@);
    }
    false
}

/// The first component of `val` below `base`, when `val` lies under it.
fn first_below_exec(base: &str, val: &str) -> (r: Option<Vec<char>>)
    ensures
        r matches Some(f) ==> first_below(base@, val@) == Some(f@),
        r is None ==> first_below(base@, val@) is None,
{
    let cb = components_exec(base);
    let cv = components_exec(val);
    if cb.len() >= cv.len() {
        return None;
    }
    let mut k: usize = 0;
    while k < cb.len()
        invariant
            0 <= k <= cb.len(),
            cb.len() < cv.len(),
            components(base@) == cviews(cb@),
            components(val@) == cviews(cv@),
            forall|j: int| 0 <= j < k ==> cb@[j]@ == cv@[j]@,
        decreases cb.len() - k,
    {
        if !eq_chars(cb[k].as_slice(), cv[k].as_slice()) {
            assert(cviews(cv@).take(cb.len() as int) != cviews(cb@)) by {
                assert(cviews(cv@).take(cb.len() as int)[k as int] == cv@[k as int]@);
                assert(cviews(cb@)[k as int] == cb@[k as int]@);
            }
            assert(components(base@) == cviews(cb@));
            assert(components(val@) == cviews(cv@));
            assert(first_below(base@, val@) is None);
            return None;
        }
        k = k + 1;
    }
    let f = vstd::slice::slice_to_vec(cv[cb.len()].as_slice());
    proof {
        assert(cviews(cv@).take(cb.len() as int) =~= cviews(cb@));
        assert(cviews(cv@)[cb.len() as int] == f@);
    }
    Some(f)
}

/// The top-level names to protect inside `cache_base`: model and dev-tool
/// caches, the cache dirs of helpers held back (see `held_helper_dirs`), and
/// the entry an `HF_HOME`/`HF_HUB_CACHE` relocation inside the base lives in.
/// `hf` holds the values of those two variables that are set, in that order.
pub fn protected_cache_names(
    cache_base: &str,
    helpers: &[AurHelper],
    aur_running: bool,
    hf: &[String],
) -> (names: Vec<String>)
    ensures
        views(names@) == protected_names(cache_base@, helpers@, aur_running, views(hf@)),
{
    let fixed = all_protected_dirs();
    let mut names: Vec<String> = Vec::new();
    let mut i: usize = 0;
    while i < fixed.len()
        invariant
            0 <= i <= fixed.len(),
            str_views(fixed@) == model_dirs() + dev_dirs(),
            views(names@) == str_views(fixed@).take(i as int),
        decreases fixed.len() - i,
    {
        let ghost before = views(names@);
        names.push(String::from_str(fixed[i]));
        assert(views(names@) =~= before.push(fixed@[i as int]@));
        assert(str_views(fixed@).take(i + 1) =~= str_views(fixed@).take(i as int).push(
            fixed@[i as int]@,
        ));
        i = i + 1;
    }
    assert(str_views(fixed@).take(fixed.len() as int) =~= str_views(fixed@));
    let ghost fixed_v = views(names@);
    let mut j: usize = 0;
    while j < helpers.len()
        invariant
            0 <= j <= helpers.len(),
            fixed_v == model_dirs() + dev_dirs(),
            views(names@) == fixed_v + held_helper_dirs(helpers@.take(j as int), aur_running),
        decreases helpers.len() - j,
    {
        let ghost before = views(names@);
        let h = helpers[j];
        if aur_running || h.clean.is_none() {
            names.push(String::from_str(h.bin));
            assert(views(names@) =~= before.push(h.bin@));
        }
        assert(helpers@.take(j + 1).drop_last() =~= helpers@.take(j as int));
        j = j + 1;
    }
    assert(helpers@.take(helpers.len() as int) =~= helpers@);
    let ghost start = views(names@);
    let mut k: usize = 0;
    while k < hf.len()
        invariant
            0 <= k <= hf.len(),
            views(names@) == add_relocations(start, cache_base@, views(hf@).take(k as int)),
        decreases hf.len() - k,
    {
        let ghost before = views(names@);
        let val = hf[k].as_str();
        proof {
            assert(views(hf@).take(k + 1).drop_last() =~= views(hf@).take(k as int));
            assert(views(hf@).take(k + 1).last() == val@);
        }
        let cval = chars_of(val);
        if cval.len() > 0 {
            match first_below_exec(cache_base, val) {
                Some(first) => {
                    if !names_contain(&names, first.as_slice()) {
                        names.push(string_of(first.as_slice()));
                        assert(views(names@) =~= before.push(first@));
                    }
                },
                None => {},
            }
        }
        k = k + 1;
    }
    assert(views(hf@).take(hf.len() as int) =~= views(hf@));
    names
}

pub open spec fn split_entries(names: Seq<Seq<char>>, protected: Seq<Seq<char>>) -> (
    Seq<Seq<char>>,
    Seq<Seq<char>>,
)
    decreases names.len(),
{
    if names.len() == 0 {
        (seq![], seq![])
    } else {
        let (c, s) = split_entries(names.drop_last(), protected);
        if protected.contains(names.last()) {
            (c, s.push(names.last()))
        } else {
            (c.push(names.last()), s)
        }
    }
}

/// Split the top-level entry names of the cache dir into `(to_clean,
/// protected)`, keeping their order. Nothing protected is ever selected.
pub fn partition_cache_entries(names: &[String], protected: &Vec<String>) -> (r: (
    Vec<String>,
    Vec<String>,
))
    ensures
        (views(r.0@), views(r.1@)) == split_entries(views(names@), views(protected@)),
{
    let mut to_clean: Vec<String> = Vec::new();
    let mut skipped: Vec<String> = Vec::new();
    let mut i: usize = 0;
    while i < names.len()
        invariant
            0 <= i <= names.len(),
            (views(to_clean@), views(skipped@)) == split_entries(
                views(names@).take(i as int),
                views(protected@),
            ),
        decreases names.len() - i,
    {
        let ghost c0 = views(to_clean@);
        let ghost s0 = views(skipped@);
        let c = chars_of(names[i].as_str());
        let hit = names_contain(protected, c.as_slice());
        if hit {
            skipped.push(names[i].clone());
            assert(views(skipped@) =~= s0.push(names@[i as int]@));
        } else {
            to_clean.push(names[i].clone());
            assert(views(to_clean@) =~= c0.push(names@[i as int]@));
        }
        assert(views(names@).take(i + 1).drop_last() =~= views(names@).take(i as int));
        i = i + 1;
    }
    assert(views(names@).take(names.len() as int) =~= views(names@));
    (to_clean, skipped)
}

/// Some spared entry is a dev-tool cache (which `--dev` can clean).
pub open spec fn has_dev_cache(skipped: Seq<Seq<char>>) -> bool {
    exists|i: int| 0 <= i < skipped.len() && dev_dirs().contains(#[trigger] skipped[i])
}

/// True if any spared entry is a dev-tool cache, so the `--dev` hint is due.
/// Model caches are excluded: nothing, not even `--dev`, removes them.
pub fn skipped_has_dev_cache(skipped: &[String]) -> (b: bool)
    ensures
        b == has_dev_cache(views(skipped@)),
{
    let dev = protected_dev_dirs();
    let mut i: usize = 0;
    while i < skipped.len()
        invariant
            0 <= i <= skipped.len(),
            str_views(dev@) == dev_dirs(),
            forall|k: int| 0 <= k < i ==> !dev_dirs().contains(#[trigger] views(skipped@)[k]),
        decreases skipped.len() - i,
    {
        let c = chars_of(skipped[i].as_str());
        if crate::text::in_list(c.as_slice(), &dev) {
            assert(views(skipped@)[i as int] == c@);
            return true;
        }
        assert(views(skipped@)[i as int] == c@);
        i = i + 1;
    }
    false
}

/// Some spared entry is the cache dir of a hand-pruned helper.
pub open spec fn has_hand_pruned(skipped: Seq<Seq<char>>, helpers: Seq<AurHelper>) -> bool {
    exists|i: int, j: int|
        0 <= i < skipped.len() && 0 <= j < helpers.len() && helpers[j].bin@ == skipped[i]
            && helpers[j].clean is None
}

/// True if any spared entry belongs to a helper with no clean command.
pub fn skipped_has_hand_pruned_helper(skipped: &[String], helpers: &[AurHelper]) -> (b: bool)
    ensures
        b == has_hand_pruned(views(skipped@), helpers@),
{
    let mut i: usize = 0;
    while i < skipped.len()
        invariant
            0 <= i <= skipped.len(),
            forall|a: int, j: int|
                0 <= a < i && 0 <= j < helpers@.len() ==> !(helpers@[j].bin@ == views(skipped@)[a]
                    && helpers@[j].clean is None),
        decreases skipped.len() - i,
    {
        let c = chars_of(skipped[i].as_str());
        assert(views(skipped@)[i as int] == skipped@[i as int]@);
        let mut j: usize = 0;
        while j < helpers.len()
            invariant
                0 <= j <= helpers.len(),
                i < skipped.len(),
                c@ == views(skipped@)[i as int],
                forall|a: int, b: int|
                    0 <= a < i && 0 <= b < helpers@.len() ==> !(helpers@[b].bin@ == views(
                        skipped@,
                    )[a] && helpers@[b].clean is None),
                forall|b: int|
                    0 <= b < j ==> !(helpers@[b].bin@ == views(skipped@)[i as int]
                        && helpers@[b].clean is None),
            decreases helpers.len() - j,
        {
            let h = helpers[j];
            let name = chars_of(h.bin);
            if h.clean.is_none() && eq_chars(name.as_slice(), c.as_slice()) {
                assert(0 <= i < views(skipped@).len() && 0 <= j < helpers@.len()
                    && helpers@[j as int].bin@ == views(skipped@)[i as int]
                    && helpers@[j as int].clean is None);
                return true;
            }
            j = j + 1;
        }
        i = i + 1;
    }
    false
}

pub open spec fn prune_list(h: AurHelper, deep: bool) -> Seq<Seq<char>> {
    str_views(h.prune_dirs@) + if deep {
        str_views(h.prune_dirs_deep@)
    } else {
        seq![]
    }
}

/// Subdirectories to clear for a helper pruned by hand; the ones that cost a
/// re-download only under `--deep`.
pub fn prune_targets(h: &AurHelper, deep: bool) -> (v: Vec<&'static str>)
    ensures
        str_views(v@) == prune_list(*h, deep),
{
    let mut v: Vec<&'static str> = Vec::new();
    let mut i: usize = 0;
    while i < h.prune_dirs.len()
        invariant
            0 <= i <= h.prune_dirs@.len(),
            str_views(v@) == str_views(h.prune_dirs@).take(i as int),
        decreases h.prune_dirs@.len() - i,
    {
        let ghost before = str_views(v@);
        v.push(h.prune_dirs[i]);
        assert(str_views(v@) =~= before.push(h.prune_dirs@[i as int]@));
        assert(str_views(h.prune_dirs@).take(i + 1) =~= str_views(h.prune_dirs@).take(i as int).push(
            h.prune_dirs@[i as int]@,
        ));
        i = i + 1;
    }
    assert(str_views(h.prune_dirs@).take(h.prune_dirs@.len() as int) =~= str_views(h.prune_dirs@));
    if deep {
        let ghost first = str_views(v@);
        let mut k: usize = 0;
        while k < h.prune_dirs_deep.len()
            invariant
                0 <= k <= h.prune_dirs_deep@.len(),
                str_views(v@) == first + str_views(h.prune_dirs_deep@).take(k as int),
            decreases h.prune_dirs_deep@.len() - k,
        {
            let ghost before = str_views(v@);
            v.push(h.prune_dirs_deep[k]);
            assert(str_views(v@) =~= before.push(h.prune_dirs_deep@[k as int]@));
            assert(str_views(h.prune_dirs_deep@).take(k + 1) =~= str_views(h.prune_dirs_deep@).take(
                k as int,
            ).push(h.prune_dirs_deep@[k as int]@));
            k = k + 1;
        }
        assert(str_views(h.prune_dirs_deep@).take(h.prune_dirs_deep@.len() as int)
            =~= str_views(h.prune_dirs_deep@));
    } else {
        assert(str_views(v@) =~= prune_list(*h, deep));
    }
    v
}

// ═══════════════════════════ Deep gate ═══════════════════════════

/// What to do about a destructive "deep" step.
#[derive(Debug, Clone, Copy, PartialEq, Eq, Structural)]
pub enum Gate {
    /// Run it: the user asked for `--deep`.
    Run,
    /// Skip it silently: a non-interactive run without `--deep`.
    Skip,
    /// Ask the user first.
    Ask,
}

pub open spec fn gate_of(deep: bool, yes: bool) -> Gate {
    if deep {
        Gate::Run
    } else if yes {
        Gate::Skip
    } else {
        Gate::Ask
    }
}

/// Decide whether a destructive "deep" step runs: always under `--deep`,
/// never (and without asking) under `--yes` alone, otherwise by asking.
pub fn should_deep(deep: bool, yes: bool) -> (g: Gate)
    ensures
        g == gate_of(deep, yes),
{
    if deep {
        Gate::Run
    } else if yes {
        Gate::Skip
    } else {
        Gate::Ask
    }
}

} // verus!
