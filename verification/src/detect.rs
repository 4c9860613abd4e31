//! Distribution, privilege-helper and disk detection: every decision that can
//! be made from text the system hands us.
use vstd::prelude::*;
use crate::text::{
    chars_of, contains, contains_text, cviews, drop_while, drop_while_end, drop_while_end_exec,
    drop_while_exec, in_list, is_text, lines, lines_exec, quote_pred, starts_with,
    starts_with_text, str_views, string_of, strip_prefix, strip_prefix_exec, to_lowercase,
    unicode_lowercase, views, eq_chars, Pred, trim, trim_exec, is_ascii_digit, strip_all_prefix,
    strip_all_prefix_exec, rfind_char, rfind_char_exec, digit_pred, words, words_exec, split_char,
    split_char_exec, utf8_len, utf8_len_exec, starts_with_exec,
};

verus! {

broadcast use vstd::string::group_string_axioms;

// ═══════════════════════════ Distribution ═══════════════════════════

#[derive(Debug, Clone, Copy, PartialEq, Eq, Structural)]
pub enum Distro {
    Arch,
    Debian,
    Fedora,
    Suse,
    Nix,
    Void,
    Alpine,
    Gentoo,
    Solus,
    Clear,
    Unknown,
}

pub open spec fn distro_name(d: Distro) -> Seq<char> {
    match d {
        Distro::Arch => "Arch Linux"@,
        Distro::Debian => "Debian/Ubuntu"@,
        Distro::Fedora => "Fedora/RHEL"@,
        Distro::Suse => "openSUSE/SLES"@,
        Distro::Nix => "NixOS"@,
        Distro::Void => "Void Linux"@,
        Distro::Alpine => "Alpine Linux"@,
        Distro::Gentoo => "Gentoo"@,
        Distro::Solus => "Solus"@,
        Distro::Clear => "Clear Linux"@,
        Distro::Unknown => "Unknown"@,
    }
}

pub open spec fn distro_pkg_manager(d: Distro) -> Seq<char> {
    match d {
        Distro::Arch => "pacman"@,
        Distro::Debian => "apt"@,
        Distro::Fedora => "dnf/yum"@,
        Distro::Suse => "zypper"@,
        Distro::Nix => "nix"@,
        Distro::Void => "xbps"@,
        Distro::Alpine => "apk"@,
        Distro::Gentoo => "portage"@,
        Distro::Solus => "eopkg"@,
        Distro::Clear => "swupd"@,
        Distro::Unknown => "N/A"@,
    }
}

impl Distro {
    /// Human-readable family name.
    pub fn name(&self) -> (r: &'static str)
        ensures
            r@ == distro_name(*self),
    {
        match self {
            Distro::Arch => "Arch Linux",
            Distro::Debian => "Debian/Ubuntu",
            Distro::Fedora => "Fedora/RHEL",
            Distro::Suse => "openSUSE/SLES",
            Distro::Nix => "NixOS",
            Distro::Void => "Void Linux",
            Distro::Alpine => "Alpine Linux",
            Distro::Gentoo => "Gentoo",
            Distro::Solus => "Solus",
            Distro::Clear => "Clear Linux",
            Distro::Unknown => "Unknown",
        }
    }

    /// Package-manager label of the family.
    pub fn pkg_manager(&self) -> (r: &'static str)
        ensures
            r@ == distro_pkg_manager(*self),
    {
        match self {
            Distro::Arch => "pacman",
            Distro::Debian => "apt",
            Distro::Fedora => "dnf/yum",
            Distro::Suse => "zypper",
            Distro::Nix => "nix",
            Distro::Void => "xbps",
            Distro::Alpine => "apk",
            Distro::Gentoo => "portage",
            Distro::Solus => "eopkg",
            Distro::Clear => "swupd",
            Distro::Unknown => "N/A",
        }
    }
}

pub open spec fn arch_ids() -> Seq<&'static str> {
    seq![
        "arch",
        "manjaro",
        "endeavouros",
        "garuda",
        "artix",
        "cachyos",
        "arcolinux",
        "archcraft",
        "parabola",
        "hyperbola",
        "crystal",
        "bluestar",
        "archbang",
    ]
}

pub open spec fn debian_ids() -> Seq<&'static str> {
    seq![
        "debian",
        "ubuntu",
        "linuxmint",
        "pop",
        "elementary",
        "zorin",
        "kali",
        "parrot",
        "deepin",
        "mx",
        "antix",
        "lmde",
        "devuan",
        "raspbian",
        "neon",
        "pureos",
        "tails",
        "peppermint",
        "bodhi",
        "sparky",
        "bunsen",
    ]
}

pub open spec fn fedora_ids() -> Seq<&'static str> {
    seq![
        "fedora",
        "rhel",
        "centos",
        "rocky",
        "alma",
        "nobara",
        "ultramarine",
        "oracle",
        "scientific",
        "amazon",
        "eurolinux",
    ]
}

pub open spec fn suse_ids() -> Seq<&'static str> {
    seq![
        "opensuse",
        "opensuse-leap",
        "opensuse-tumbleweed",
        "opensuse-microos",
        "sles",
        "suse",
    ]
}

fn arch_id_list() -> (v: Vec<&'static str>)
    ensures
        v@ == arch_ids(),
{
    let v = vec![
        "arch",
        "manjaro",
        "endeavouros",
        "garuda",
        "artix",
        "cachyos",
        "arcolinux",
        "archcraft",
        "parabola",
        "hyperbola",
        "crystal",
        "bluestar",
        "archbang",
    ];
    assert(v@ =~= arch_ids());
    v
}

fn debian_id_list() -> (v: Vec<&'static str>)
    ensures
        v@ == debian_ids(),
{
    let v = vec![
        "debian",
        "ubuntu",
        "linuxmint",
        "pop",
        "elementary",
        "zorin",
        "kali",
        "parrot",
        "deepin",
        "mx",
        "antix",
        "lmde",
        "devuan",
        "raspbian",
        "neon",
        "pureos",
        "tails",
        "peppermint",
        "bodhi",
        "sparky",
        "bunsen",
    ];
    assert(v@ =~= debian_ids());
    v
}

fn fedora_id_list() -> (v: Vec<&'static str>)
    ensures
        v@ == fedora_ids(),
{
    let v = vec![
        "fedora",
        "rhel",
        "centos",
        "rocky",
        "alma",
        "nobara",
        "ultramarine",
        "oracle",
        "scientific",
        "amazon",
        "eurolinux",
    ];
    assert(v@ =~= fedora_ids());
    v
}

fn suse_id_list() -> (v: Vec<&'static str>)
    ensures
        v@ == suse_ids(),
{
    let v = vec![
        "opensuse",
        "opensuse-leap",
        "opensuse-tumbleweed",
        "opensuse-microos",
        "sles",
        "suse",
    ];
    assert(v@ =~= suse_ids());
    v
}

/// An os-release value with its surrounding quote marks (either kind) removed.
pub open spec fn unquote(v: Seq<char>) -> Seq<char> {
    drop_while_end(drop_while(v, quote_pred()), quote_pred())
}

/// The value of the last line of `ls` that starts with `prefix`, unquoted and
/// lower-cased; empty when no line assigns it.
pub open spec fn os_release_field(ls: Seq<Seq<char>>, prefix: Seq<char>) -> Seq<char>
    decreases ls.len(),
{
    if ls.len() == 0 {
        seq![]
    } else {
        match strip_prefix(ls.last(), prefix) {
            Some(v) => unicode_lowercase(unquote(v)),
            None => os_release_field(ls.drop_last(), prefix),
        }
    }
}

/// The family an `ID` / `ID_LIKE` pair belongs to.
pub open spec fn classify(id: Seq<char>, id_like: Seq<char>) -> Distro {
    if str_views(arch_ids()).contains(id) {
        Distro::Arch
    } else if str_views(debian_ids()).contains(id) {
        Distro::Debian
    } else if str_views(fedora_ids()).contains(id) {
        Distro::Fedora
    } else if str_views(suse_ids()).contains(id) || starts_with(id, "opensuse"@) {
        Distro::Suse
    } else if id == "nixos"@ {
        Distro::Nix
    } else if id == "void"@ {
        Distro::Void
    } else if id == "alpine"@ || id == "postmarketos"@ {
        Distro::Alpine
    } else if id == "gentoo"@ || id == "funtoo"@ || id == "calculate"@ {
        Distro::Gentoo
    } else if id == "solus"@ {
        Distro::Solus
    } else if id == "clear-linux-os"@ {
        Distro::Clear
    } else if contains(id_like, "arch"@) {
        Distro::Arch
    } else if contains(id_like, "debian"@) || contains(id_like, "ubuntu"@) {
        Distro::Debian
    } else if contains(id_like, "fedora"@) || contains(id_like, "rhel"@) {
        Distro::Fedora
    } else if contains(id_like, "suse"@) {
        Distro::Suse
    } else {
        Distro::Unknown
    }
}

/// The family `/etc/os-release` content describes.
pub open spec fn distro_of(content: Seq<char>) -> Distro {
    classify(
        os_release_field(lines(content), "ID="@),
        os_release_field(lines(content), "ID_LIKE="@),
    )
}

/// Unquote and lower-case one value.
fn field_value(v: &[char]) -> (r: Vec<char>)
    ensures
        r@ == unicode_lowercase(unquote(v@)),
{
    let u = drop_while_end_exec(drop_while_exec(v, &Pred::Quote), &Pred::Quote);
    let us = string_of(u);
    let low = to_lowercase(us.as_str());
    chars_of(low.as_str())
}

/// Parse `/etc/os-release` content and return the matching family. Values may
/// be quoted with `"` or `'`, or not at all; the last assignment wins.
pub fn distro_from_str(content: &str) -> (d: Distro)
    ensures
        d == distro_of(content@),
{
    let cs = chars_of(content);
    let ls = lines_exec(cs.as_slice());
    let id_prefix = chars_of("ID=");
    let like_prefix = chars_of("ID_LIKE=");
    let mut id: Vec<char> = Vec::new();
    let mut id_like: Vec<char> = Vec::new();
    let mut i: usize = 0;
    while i < ls.len()
        invariant
            0 <= i <= ls.len(),
            id_prefix@ == "ID="@,
            like_prefix@ == "ID_LIKE="@,
            cviews(ls@) == lines(content@),
            id@ == os_release_field(cviews(ls@).take(i as int), "ID="@),
            id_like@ == os_release_field(cviews(ls@).take(i as int), "ID_LIKE="@),
        decreases ls.len() - i,
    {
        let line = ls[i].as_slice();
        let ghost pre = cviews(ls@).take(i as int);
        assert(cviews(ls@).take(i + 1).drop_last() =~= pre);
        assert(cviews(ls@).take(i + 1).last() == line@);
        match strip_prefix_exec(line, id_prefix.as_slice()) {
            Some(v) => {
                id = field_value(v);
                proof {
                    // A line holding `ID=` cannot also start with `ID_LIKE=`.
                    reveal_strlit("ID=");
                    reveal_strlit("ID_LIKE=");
                    assert(line@.take(3)[2] == '=');
                    if starts_with(line@, "ID_LIKE="@) {
                        assert(line@.take(8)[2] == '_');
                        assert(line@.take(8)[2] == line@.take(3)[2]);
                    }
                }
            },
            None => {
                match strip_prefix_exec(line, like_prefix.as_slice()) {
                    Some(v) => {
                        id_like = field_value(v);
                    },
                    None => {},
                }
            },
        }
        i = i + 1;
    }
    assert(cviews(ls@).take(ls.len() as int) =~= cviews(ls@));
    classify_exec(id.as_slice(), id_like.as_slice())
}

/// The family named by an `ID` and an `ID_LIKE` value, both already unquoted
/// and lower-cased: a known `ID` decides, then the first family `ID_LIKE`
/// mentions, else `Unknown`.
pub fn classify_ids(id: &str, id_like: &str) -> (d: Distro)
    ensures
        d == classify(id@, id_like@),
{
    let a = chars_of(id);
    let b = chars_of(id_like);
    classify_exec(a.as_slice(), b.as_slice())
}

fn classify_exec(id: &[char], id_like: &[char]) -> (d: Distro)
    ensures
        d == classify(id@, id_like@),
{
    if in_list(id, &arch_id_list()) {
        return Distro::Arch;
    }
    if in_list(id, &debian_id_list()) {
        return Distro::Debian;
    }
    if in_list(id, &fedora_id_list()) {
        return Distro::Fedora;
    }
    if in_list(id, &suse_id_list()) || starts_with_text(id, "opensuse") {
        return Distro::Suse;
    }
    if is_text(id, "nixos") {
        return Distro::Nix;
    }
    if is_text(id, "void") {
        return Distro::Void;
    }
    if is_text(id, "alpine") || is_text(id, "postmarketos") {
        return Distro::Alpine;
    }
    if is_text(id, "gentoo") || is_text(id, "funtoo") || is_text(id, "calculate") {
        return Distro::Gentoo;
    }
    if is_text(id, "solus") {
        return Distro::Solus;
    }
    if is_text(id, "clear-linux-os") {
        return Distro::Clear;
    }
    if contains_text(id_like, "arch") {
        return Distro::Arch;
    }
    if contains_text(id_like, "debian") || contains_text(id_like, "ubuntu") {
        return Distro::Debian;
    }
    if contains_text(id_like, "fedora") || contains_text(id_like, "rhel") {
        return Distro::Fedora;
    }
    if contains_text(id_like, "suse") {
        return Distro::Suse;
    }
    Distro::Unknown
}

} // verus!

verus! {

/// An AUR helper we know how to clean, with the flags that helper actually
/// wants.
#[derive(Debug, Clone, Copy, PartialEq, Eq)]
pub struct AurHelper {
    /// Binary name, also used as the display label and cache-dir name.
    pub bin: &'static str,
    /// Safe clean; `None` when the helper has no command that cleans its own cache.
    pub clean: Option<&'static [&'static str]>,
    /// Aggressive clean, gated behind `--deep`.
    pub deep_clean: Option<&'static [&'static str]>,
    /// Subdirectories of the helper's cache dir that we clear ourselves.
    pub prune_dirs: &'static [&'static str],
    /// Extra subdirectories cleared only under `--deep`.
    pub prune_dirs_deep: &'static [&'static str],
}

/// The mathematical content of an [`AurHelper`].
#[verifier::ext_equal]
pub struct AurHelperView {
    pub bin: Seq<char>,
    pub clean: Option<Seq<Seq<char>>>,
    pub deep_clean: Option<Seq<Seq<char>>>,
    pub prune_dirs: Seq<Seq<char>>,
    pub prune_dirs_deep: Seq<Seq<char>>,
}

pub open spec fn opt_views(o: Option<&'static [&'static str]>) -> Option<Seq<Seq<char>>> {
    match o {
        Some(s) => Some(str_views(s@)),
        None => None,
    }
}

impl View for AurHelper {
    type V = AurHelperView;

    open spec fn view(&self) -> AurHelperView {
        AurHelperView {
            bin: self.bin@,
            clean: opt_views(self.clean),
            deep_clean: opt_views(self.deep_clean),
            prune_dirs: str_views(self.prune_dirs@),
            prune_dirs_deep: str_views(self.prune_dirs_deep@),
        }
    }
}

pub open spec fn helper_view(
    bin: Seq<char>,
    clean: Option<Seq<Seq<char>>>,
    deep_clean: Option<Seq<Seq<char>>>,
    prune_dirs: Seq<Seq<char>>,
    prune_dirs_deep: Seq<Seq<char>>,
) -> AurHelperView {
    AurHelperView { bin, clean, deep_clean, prune_dirs, prune_dirs_deep }
}

/// Every AUR helper we support, in display order.
pub open spec fn aur_table() -> Seq<AurHelperView> {
    seq![
        helper_view(
            "paru"@,
            Some(seq!["-Sc"@, "--noconfirm"@]),
            Some(seq!["-Scc"@, "--noconfirm"@]),
            seq![],
            seq![],
        ),
        helper_view(
            "yay"@,
            Some(seq!["-Sc"@, "--noconfirm"@]),
            Some(seq!["-Scc"@, "--noconfirm"@]),
            seq![],
            seq![],
        ),
        helper_view(
            "trizen"@,
            Some(seq!["-Sca"@, "--noconfirm"@]),
            Some(seq!["-Scca"@, "--noconfirm"@]),
            seq![],
            seq![],
        ),
        helper_view(
            "pikaur"@,
            Some(seq!["-Sc"@, "--noconfirm"@]),
            Some(seq!["-Scc"@, "--noconfirm"@]),
            seq![],
            seq![],
        ),
        helper_view("aura"@, None, None, seq!["builds"@], seq!["cache"@, "packages"@]),
    ]
}

pub open spec fn helper_views(v: Seq<AurHelper>) -> Seq<AurHelperView> {
    v.map_values(|h: AurHelper| h@)
}

/// The AUR helper table. Flags differ per helper: trizen's `-a` keeps its
/// clean scoped to its own cache (without it the clean also empties the
/// shared pacman cache), and aura has no command that cleans its own cache,
/// so its build directories are pruned by hand and `snapshots/` and
/// `hashes/` (state, not cache) are never listed.
pub fn aur_helper_table() -> (t: Vec<AurHelper>)
    ensures
        helper_views(t@) =~~= aur_table(),
{
    let t = vec![
        AurHelper {
            bin: "paru",
            clean: Some(&["-Sc", "--noconfirm"]),
            deep_clean: Some(&["-Scc", "--noconfirm"]),
            prune_dirs: &[],
            prune_dirs_deep: &[],
        },
        AurHelper {
            bin: "yay",
            clean: Some(&["-Sc", "--noconfirm"]),
            deep_clean: Some(&["-Scc", "--noconfirm"]),
            prune_dirs: &[],
            prune_dirs_deep: &[],
        },
        AurHelper {
            bin: "trizen",
            clean: Some(&["-Sca", "--noconfirm"]),
            deep_clean: Some(&["-Scca", "--noconfirm"]),
            prune_dirs: &[],
            prune_dirs_deep: &[],
        },
        AurHelper {
            bin: "pikaur",
            clean: Some(&["-Sc", "--noconfirm"]),
            deep_clean: Some(&["-Scc", "--noconfirm"]),
            prune_dirs: &[],
            prune_dirs_deep: &[],
        },
        AurHelper {
            bin: "aura",
            clean: None,
            deep_clean: None,
            prune_dirs: &["builds"],
            prune_dirs_deep: &["cache", "packages"],
        },
    ];
    assert(helper_views(t@) =~~= aur_table());
    t
}

/// The helpers of `table` whose binary is among `present`, in table order.
pub open spec fn installed_helpers(table: Seq<AurHelper>, present: Seq<Seq<char>>) -> Seq<AurHelper>
    decreases table.len(),
{
    if table.len() == 0 {
        seq![]
    } else {
        installed_helpers(table.drop_last(), present) + if present.contains(table.last().bin@) {
            seq![table.last()]
        } else {
            seq![]
        }
    }
}

/// Every supported AUR helper whose binary was found on `$PATH`, in table
/// order. `present` names the binaries the lookup found.
pub fn aur_helpers(present: &Vec<String>) -> (found: Vec<AurHelper>)
    ensures
        exists|t: Vec<AurHelper>|
            helper_views(t@) =~~= aur_table() && found@ == installed_helpers(t@, views(present@)),
{
    let table = aur_helper_table();
    let mut found: Vec<AurHelper> = Vec::new();
    let mut i: usize = 0;
    while i < table.len()
        invariant
            0 <= i <= table.len(),
            found@ == installed_helpers(table@.take(i as int), views(present@)),
        decreases table.len() - i,
    {
        let h = table[i];
        let name = chars_of(h.bin);
        let mut hit = false;
        let mut k: usize = 0;
        while k < present.len()
            invariant
                0 <= k <= present.len(),
                name@ == h.bin@,
                hit == views(present@).take(k as int).contains(h.bin@),
            decreases present.len() - k,
        {
            let p = chars_of(present[k].as_str());
            let same = eq_chars(p.as_slice(), name.as_slice());
            proof {
                let ps = views(present@);
                let a = ps.take(k as int);
                let b = ps.take(k + 1);
                assert(b =~= a.push(ps[k as int]));
                assert(ps[k as int] == present@[k as int]@);
                if same {
                    assert(b[k as int] == h.bin@);
                }
                if a.contains(h.bin@) {
                    let j = choose|j: int| 0 <= j < a.len() && a[j] == h.bin@;
                    assert(b[j] == h.bin@);
                }
                if b.contains(h.bin@) {
                    let j = choose|j: int| 0 <= j < b.len() && b[j] == h.bin@;
                    if j < k {
                        assert(a[j] == h.bin@);
                    }
                }
            }
            hit = hit || same;
            k = k + 1;
        }
        assert(views(present@).take(present.len() as int) =~= views(present@));
        assert(table@.take(i + 1).drop_last() =~= table@.take(i as int));
        if hit {
            found.push(h);
        }
        i = i + 1;
    }
    assert(table@.take(table.len() as int) =~= table@);
    found
}

// ═══════════════════════════ Privilege ═══════════════════════════

/// Available privilege-escalation helpers. `Root` means no escalation is
/// needed; `Unavailable` means there is no escalation tool at all.
#[derive(Debug, Clone, Copy, PartialEq, Eq, Structural)]
pub enum Privilege {
    Doas,
    Sudo,
    Root,
    Unavailable,
}

pub open spec fn privilege_name(p: Privilege) -> Seq<char> {
    match p {
        Privilege::Doas => "doas"@,
        Privilege::Sudo => "sudo"@,
        Privilege::Root => ""@,
        Privilege::Unavailable => ""@,
    }
}

impl Privilege {
    /// Binary that performs the escalation; empty for `Root` and `Unavailable`,
    /// which have no wrapper to run.
    pub fn name(&self) -> (r: &'static str)
        ensures
            r@ == privilege_name(*self),
    {
        match self {
            Privilege::Doas => "doas",
            Privilege::Sudo => "sudo",
            Privilege::Root => "",
            Privilege::Unavailable => "",
        }
    }
}

/// Pick the privilege method: already root, then `doas`, then `sudo`, else none.
pub fn find_privilege(is_root: bool, has_doas: bool, has_sudo: bool) -> (p: Privilege)
    ensures
        p == (if is_root {
            Privilege::Root
        } else if has_doas {
            Privilege::Doas
        } else if has_sudo {
            Privilege::Sudo
        } else {
            Privilege::Unavailable
        }),
{
    if is_root {
        return Privilege::Root;
    }
    if has_doas {
        return Privilege::Doas;
    }
    if has_sudo {
        return Privilege::Sudo;
    }
    Privilege::Unavailable
}

// ═══════════════════════════ Disks and mounts ═══════════════════════════

#[derive(Debug, Clone, Copy, PartialEq, Eq, Structural)]
pub enum DiskType {
    NVMe,
    SSD,
    HDD,
    Unknown,
}

pub open spec fn disk_type_of(rotational: Seq<char>, block_name: Seq<char>) -> DiskType {
    if starts_with(block_name, "nvme"@) {
        DiskType::NVMe
    } else if trim(rotational) == "0"@ {
        DiskType::SSD
    } else if trim(rotational) == "1"@ {
        DiskType::HDD
    } else {
        DiskType::Unknown
    }
}

/// Classify a disk from its `queue/rotational` content and block-device name.
/// NVMe is recognised by name because some NVMe drives report rotational=1.
pub fn disk_type_from_rotational(rotational: &str, block_name: &str) -> (d: DiskType)
    ensures
        d == disk_type_of(rotational@, block_name@),
{
    let name = chars_of(block_name);
    if starts_with_text(name.as_slice(), "nvme") {
        return DiskType::NVMe;
    }
    let r = chars_of(rotational);
    let t = trim_exec(r.as_slice());
    if is_text(t, "0") {
        DiskType::SSD
    } else if is_text(t, "1") {
        DiskType::HDD
    } else {
        DiskType::Unknown
    }
}

pub open spec fn all_digits(s: Seq<char>) -> bool {
    forall|i: int| 0 <= i < s.len() ==> is_ascii_digit(#[trigger] s[i])
}

/// The parent block device of a device path: `/dev/sda3` → `sda`,
/// `/dev/nvme0n1p2` → `nvme0n1`, `/dev/mmcblk0p1` → `mmcblk0`.
pub open spec fn block_name_of(device: Seq<char>) -> Seq<char> {
    let name = strip_all_prefix(device, "/dev/"@);
    if starts_with(name, "nvme"@) || starts_with(name, "mmcblk"@) {
        match rfind_char(name, 'p') {
            Some(pos) => {
                let tail = name.skip(pos + 1);
                if tail.len() > 0 && all_digits(tail) {
                    name.take(pos)
                } else {
                    name
                }
            },
            None => name,
        }
    } else {
        drop_while_end(name, digit_pred())
    }
}

fn all_digits_exec(s: &[char]) -> (b: bool)
    ensures
        b == all_digits(s@),
{
    let mut i: usize = 0;
    while i < s.len()
        invariant
            0 <= i <= s.len(),
            forall|k: int| 0 <= k < i ==> is_ascii_digit(s@[k]),
        decreases s.len() - i,
    {
        if !('0' <= s[i] && s[i] <= '9') {
            return false;
        }
        i = i + 1;
    }
    true
}

/// Extract the parent block-device name from a device path.
pub fn extract_block_name(device: &str) -> (r: String)
    ensures
        r@ == block_name_of(device@),
{
    let d = chars_of(device);
    let dev = chars_of("/dev/");
    let name = strip_all_prefix_exec(d.as_slice(), dev.as_slice());
    if starts_with_text(name, "nvme") || starts_with_text(name, "mmcblk") {
        match rfind_char_exec(name, 'p') {
            Some(pos) => {
                let n = name.len();
                assert(pos < n);
                let tail = &name[pos + 1..n];
                assert(tail@ =~= name@.skip(pos + 1));
                if tail.len() > 0 && all_digits_exec(tail) {
                    let head = &name[0..pos];
                    assert(head@ =~= name@.take(pos as int));
                    return string_of(head);
                }
                string_of(name)
            },
            None => string_of(name),
        }
    } else {
        string_of(drop_while_end_exec(name, &Pred::Digit))
    }
}

/// The device on the first `/proc/mounts` line whose mount point is `mp`.
pub open spec fn mount_device(ls: Seq<Seq<char>>, mp: Seq<char>) -> Option<Seq<char>>
    decreases ls.len(),
{
    if ls.len() == 0 {
        None
    } else {
        let w = words(ls[0]);
        if w.len() >= 2 && w[1] == mp {
            Some(w[0])
        } else {
            mount_device(ls.drop_first(), mp)
        }
    }
}

/// Parse `/proc/mounts` content and return the device backing `mount_point`.
pub fn find_mount_device_in(mounts: &str, mount_point: &str) -> (r: Option<String>)
    ensures
        match mount_device(lines(mounts@), mount_point@) {
            Some(d) => r.is_some() && r.unwrap()@ == d,
            None => r.is_none(),
        },
{
    let cs = chars_of(mounts);
    let mp = chars_of(mount_point);
    let ls = lines_exec(cs.as_slice());
    let mut i: usize = 0;
    assert(cviews(ls@).skip(0) =~= cviews(ls@));
    while i < ls.len()
        invariant
            0 <= i <= ls.len(),
            mp@ == mount_point@,
            cviews(ls@) == lines(mounts@),
            mount_device(lines(mounts@), mount_point@) == mount_device(
                cviews(ls@).skip(i as int),
                mount_point@,
            ),
        decreases ls.len() - i,
    {
        let ghost rest = cviews(ls@).skip(i as int);
        assert(rest[0] == ls@[i as int]@);
        assert(rest.drop_first() =~= cviews(ls@).skip(i + 1));
        let w = words_exec(ls[i].as_slice());
        if w.len() >= 2 && eq_chars(w[1].as_slice(), mp.as_slice()) {
            assert(cviews(w@)[1] == w@[1]@);
            assert(cviews(w@)[0] == w@[0]@);
            return Some(string_of(w[0].as_slice()));
        }
        proof {
            if w.len() >= 2 {
                assert(cviews(w@)[1] == w@[1]@);
            }
        }
        i = i + 1;
    }
    None
}

/// The mount option list holds the exact token `ro`.
pub open spec fn has_ro_flag(opts: Seq<char>) -> bool {
    split_char(opts, ',').contains("ro"@)
}

/// A mount at `mp` covers `path`.
pub open spec fn covers(mp: Seq<char>, path: Seq<char>) -> bool {
    mp == "/"@ || mp == path || starts_with(path, mp + "/"@)
}

/// Longest-prefix scan state after the lines `ls`: the best mount point's
/// byte length and whether it is read-only.
pub open spec fn ro_scan(ls: Seq<Seq<char>>, path: Seq<char>) -> (nat, Option<bool>)
    decreases ls.len(),
{
    if ls.len() == 0 {
        (0, None)
    } else {
        let prev = ro_scan(ls.drop_last(), path);
        let parts = words(ls.last());
        if parts.len() < 4 {
            prev
        } else if !covers(parts[1], path) || utf8_len(parts[1]) < prev.0 {
            prev
        } else {
            (utf8_len(parts[1]), Some(has_ro_flag(parts[3])))
        }
    }
}

fn has_ro_flag_exec(opts: &[char]) -> (b: bool)
    ensures
        b == has_ro_flag(opts@),
{
    let pieces = split_char_exec(opts, ',');
    let mut i: usize = 0;
    while i < pieces.len()
        invariant
            0 <= i <= pieces.len(),
            cviews(pieces@) == split_char(opts@, ','),
            forall|k: int| 0 <= k < i ==> cviews(pieces@)[k] != "ro"@,
        decreases pieces.len() - i,
    {
        if is_text(pieces[i].as_slice(), "ro") {
            assert(cviews(pieces@)[i as int] == "ro"@);
            return true;
        }
        i = i + 1;
    }
    false
}

fn covers_exec(mp: &[char], path: &[char]) -> (b: bool)
    ensures
        b == covers(mp@, path@),
{
    if is_text(mp, "/") || eq_chars(mp, path) {
        return true;
    }
    let mut with_sep: Vec<char> = vstd::slice::slice_to_vec(mp);
    with_sep.push('/');
    proof {
        reveal_strlit("/");
        assert(with_sep@ =~= mp@ + "/"@);
    }
    starts_with_exec(path, with_sep.as_slice())
}

/// Whether the filesystem backing `path` is mounted read-only, by
/// longest-prefix match over `/proc/mounts` (a later line wins a tie). Only
/// the exact option token `ro` counts. `None` when no mount covers the path.
pub fn path_is_readonly_in(mounts: &str, path: &str) -> (r: Option<bool>)
    ensures
        r == ro_scan(lines(mounts@), path@).1,
{
    let cs = chars_of(mounts);
    let p = chars_of(path);
    let ls = lines_exec(cs.as_slice());
    let mut best_len: u128 = 0;
    let mut best_ro: Option<bool> = None;
    let mut i: usize = 0;
    while i < ls.len()
        invariant
            0 <= i <= ls.len(),
            p@ == path@,
            cviews(ls@) == lines(mounts@),
            (best_len as nat, best_ro) == ro_scan(cviews(ls@).take(i as int), path@),
        decreases ls.len() - i,
    {
        let ghost pre = cviews(ls@).take(i as int);
        assert(cviews(ls@).take(i + 1).drop_last() =~= pre);
        assert(cviews(ls@).take(i + 1).last() == ls@[i as int]@);
        let parts = words_exec(ls[i].as_slice());
        if parts.len() >= 4 {
            let mp = parts[1].as_slice();
            assert(cviews(parts@)[1] == mp@);
            assert(cviews(parts@)[3] == parts@[3]@);
            if covers_exec(mp, p.as_slice()) {
                let n = utf8_len_exec(mp);
                if n >= best_len {
                    best_len = n;
                    best_ro = Some(has_ro_flag_exec(parts[3].as_slice()));
                }
            }
        }
        i = i + 1;
    }
    assert(cviews(ls@).take(ls.len() as int) =~= cviews(ls@));
    best_ro
}

/// The device backing `/home`, else `/`, else nothing.
pub open spec fn root_device(mounts: Seq<char>) -> Seq<char> {
    match mount_device(lines(mounts), "/home"@) {
        Some(d) => d,
        None => match mount_device(lines(mounts), "/"@) {
            Some(d) => d,
            None => seq![],
        },
    }
}

/// Block-device name of the disk hosting `/home` (falling back to `/`), from
/// `/proc/mounts` content; empty when neither is mounted.
pub fn root_disk_block(mounts: &str) -> (r: String)
    ensures
        r@ == block_name_of(root_device(mounts@)),
{
    let dev = match find_mount_device_in(mounts, "/home") {
        Some(d) => d,
        None => match find_mount_device_in(mounts, "/") {
            Some(d) => d,
            None => String::new(),
        },
    };
    extract_block_name(dev.as_str())
}

/// The first line of `ls` starting with `p`.
pub open spec fn first_with_prefix(ls: Seq<Seq<char>>, p: Seq<char>) -> Option<Seq<char>>
    decreases ls.len(),
{
    if ls.len() == 0 {
        None
    } else if starts_with(ls[0], p) {
        Some(ls[0])
    } else {
        first_with_prefix(ls.drop_first(), p)
    }
}

pub open spec fn pretty_name_of(content: Seq<char>) -> Seq<char> {
    match first_with_prefix(lines(content), "PRETTY_NAME="@) {
        Some(l) => unquote(l.skip(12)),
        None => "Unknown Linux"@,
    }
}

/// `PRETTY_NAME` from `/etc/os-release` content, unquoted; "Unknown Linux"
/// when absent.
pub fn pretty_name_in(content: &str) -> (r: String)
    ensures
        r@ == pretty_name_of(content@),
{
    let cs = chars_of(content);
    let ls = lines_exec(cs.as_slice());
    let key = chars_of("PRETTY_NAME=");
    proof {
        reveal_strlit("PRETTY_NAME=");
    }
    let mut i: usize = 0;
    assert(cviews(ls@).skip(0) =~= cviews(ls@));
    while i < ls.len()
        invariant
            0 <= i <= ls.len(),
            key@ == "PRETTY_NAME="@,
            key@.len() == 12,
            cviews(ls@) == lines(content@),
            first_with_prefix(lines(content@), "PRETTY_NAME="@) == first_with_prefix(
                cviews(ls@).skip(i as int),
                "PRETTY_NAME="@,
            ),
        decreases ls.len() - i,
    {
        let ghost rest = cviews(ls@).skip(i as int);
        assert(rest[0] == ls@[i as int]@);
        assert(rest.drop_first() =~= cviews(ls@).skip(i + 1));
        let line = ls[i].as_slice();
        if starts_with_exec(line, key.as_slice()) {
            let v = &line[12..line.len()];
            assert(v@ =~= line@.skip(12));
            let u = drop_while_end_exec(drop_while_exec(v, &Pred::Quote), &Pred::Quote);
            return string_of(u);
        }
        i = i + 1;
    }
    String::from_str("Unknown Linux")
}

} // verus!
