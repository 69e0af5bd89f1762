//! Kernel management: the platform a kernel is built for, the names of its
//! binaries and release assets, and the choices made when downloading,
//! unpacking, listing and activating kernels. Downloads and file access are
//! done by the caller.

use vstd::prelude::*;
use crate::error::{AppError, ErrorView};
use crate::runtime::archive::{gunzip, gunzip_bytes, name_views, zip_entry, zip_entry_bytes, zip_entry_names, zip_names};
use crate::sorting::{sort_by_key, sorted_by_key};
use crate::text::{
    chars_of, concat, contains, ends_with, owned, starts_with, str_contains, str_ends_with,
    str_eq, str_is_empty, str_starts_with, str_trim, string_from_chars, trim, replace_all,
    replace_all_exec, starts_with_exec, ends_with_exec,
};

verus! {

broadcast use vstd::seq_lib::group_to_multiset_ensures;

/// Identified platform details used to select the correct kernel asset.
#[derive(Debug)]
pub struct Platform {
    pub os: String,
    pub arch: String,
}

/// The OS name kernel assets use for a Rust target OS.
pub open spec fn platform_os_text(target_os: Seq<char>) -> Seq<char> {
    if target_os == "linux"@ {
        "linux"@
    } else if target_os == "macos"@ {
        "darwin"@
    } else if target_os == "windows"@ {
        "windows"@
    } else {
        target_os
    }
}

/// The architecture name kernel assets use for a Rust target architecture.
pub open spec fn platform_arch_text(target_arch: Seq<char>) -> Seq<char> {
    if target_arch == "x86_64"@ {
        "amd64"@
    } else if target_arch == "aarch64"@ {
        "arm64"@
    } else if target_arch == "arm"@ {
        "armv7"@
    } else {
        target_arch
    }
}

/// `mihomo-{os}-{arch}`, with `.exe` on Windows.
pub open spec fn binary_name_text(os: Seq<char>, arch: Seq<char>) -> Seq<char> {
    if os == "windows"@ {
        "mihomo-"@ + os + "-"@ + arch + ".exe"@
    } else {
        "mihomo-"@ + os + "-"@ + arch
    }
}

/// `mihomo-{os}-{arch}*.{ext}`, with `zip` on Windows and `gz` elsewhere.
pub open spec fn asset_pattern_text(os: Seq<char>, arch: Seq<char>) -> Seq<char> {
    "mihomo-"@ + os + "-"@ + arch + "*."@ + (if os == "windows"@ { "zip"@ } else { "gz"@ })
}

impl Platform {
    /// The platform of a build target, from its `target_os` and
    /// `target_arch` (as `std::env::consts` gives them).
    pub fn current(target_os: &str, target_arch: &str) -> (p: Platform)
        ensures
            p.os@ == platform_os_text(target_os@),
            p.arch@ == platform_arch_text(target_arch@),
    {
        let os = if str_eq(target_os, "linux") {
            owned("linux")
        } else if str_eq(target_os, "macos") {
            owned("darwin")
        } else if str_eq(target_os, "windows") {
            owned("windows")
        } else {
            owned(target_os)
        };
        let arch = if str_eq(target_arch, "x86_64") {
            owned("amd64")
        } else if str_eq(target_arch, "aarch64") {
            owned("arm64")
        } else if str_eq(target_arch, "arm") {
            owned("armv7")
        } else {
            owned(target_arch)
        };
        Platform { os, arch }
    }

    /// Binary filename for this platform (e.g. `mihomo-linux-amd64`,
    /// `mihomo-windows-amd64.exe`).
    pub fn binary_name(&self) -> (r: String)
        ensures
            r@ == binary_name_text(self.os@, self.arch@),
    {
        let a = concat("mihomo-", self.os.as_str());
        let b = concat(a.as_str(), "-");
        let c = concat(b.as_str(), self.arch.as_str());
        if str_eq(self.os.as_str(), "windows") {
            concat(c.as_str(), ".exe")
        } else {
            c
        }
    }

    /// The asset-name glob pattern used to find the download file in a
    /// GitHub release: `.gz` archives for linux/darwin, `.zip` for windows.
    pub fn asset_pattern(&self) -> (r: String)
        ensures
            r@ == asset_pattern_text(self.os@, self.arch@),
    {
        let ext = if str_eq(self.os.as_str(), "windows") { "zip" } else { "gz" };
        let a = concat("mihomo-", self.os.as_str());
        let b = concat(a.as_str(), "-");
        let c = concat(b.as_str(), self.arch.as_str());
        let d = concat(c.as_str(), "*.");
        concat(d.as_str(), ext)
    }
}

/// A simplified GitHub release object (only the fields used).
#[derive(Debug)]
pub struct GithubRelease {
    pub tag_name: String,
    pub name: Option<String>,
    pub prerelease: bool,
    pub published_at: String,
    pub assets: Vec<GithubAsset>,
}

/// A single asset within a GitHub release.
#[derive(Debug)]
pub struct GithubAsset {
    pub name: String,
    pub size: u64,
    pub browser_download_url: String,
}

/// Manages mihomo kernel binaries in a kernels directory.
#[derive(Debug)]
pub struct KernelManager {
    kernels_dir: String,
    platform: Platform,
}

/// The text before the first `*` (all of it when there is none).
pub open spec fn before_star(s: Seq<char>) -> Seq<char>
    decreases s.len(),
{
    if s.len() == 0 {
        s
    } else if s[0] == '*' {
        seq![]
    } else {
        seq![s[0]] + before_star(s.drop_first())
    }
}

/// The text after the first `*` (empty when there is none).
pub open spec fn after_star(s: Seq<char>) -> Seq<char>
    decreases s.len(),
{
    if s.len() == 0 {
        s
    } else if s[0] == '*' {
        s.drop_first()
    } else {
        after_star(s.drop_first())
    }
}

/// Whether an asset name matches a one-`*` glob pattern: it starts with
/// the text before the `*`, ends with the text after it, and is long
/// enough for both.
pub open spec fn asset_matches(name: Seq<char>, pattern: Seq<char>) -> bool {
    &&& starts_with(name, before_star(pattern))
    &&& ends_with(name, after_star(pattern))
    &&& before_star(pattern).len() + after_star(pattern).len() <= name.len()
}

/// The texts before and after the first `*`.
fn star_parts(s: &str) -> (r: (Vec<char>, Vec<char>))
    ensures
        r.0@ == before_star(s@),
        r.1@ == after_star(s@),
{
    let c = chars_of(s);
    let n = c.len();
    let mut i: usize = 0;
    assert(s@.skip(0) =~= s@);
    assert(s@.subrange(0, 0) + before_star(s@) =~= before_star(s@));
    while i < n && c[i] != '*'
        invariant
            n == c@.len(),
            c@ == s@,
            i <= n,
            forall|j: int| 0 <= j < i ==> c@[j] != '*',
            before_star(s@) == s@.subrange(0, i as int) + before_star(s@.skip(i as int)),
            after_star(s@) == after_star(s@.skip(i as int)),
        decreases n - i,
    {
        assert(s@.skip(i as int).drop_first() =~= s@.skip(i + 1));
        assert(s@.subrange(0, i + 1) =~= s@.subrange(0, i as int) + seq![s@[i as int]]);
        i = i + 1;
    }
    let mut before: Vec<char> = Vec::new();
    crate::text::push_range(&mut before, c.as_slice(), 0, i);
    let mut after: Vec<char> = Vec::new();
    if i < n {
        crate::text::push_range(&mut after, c.as_slice(), i + 1, n);
    }
    proof {
        if i == n {
            assert(s@.skip(i as int).len() == 0);
            assert(after@ =~= after_star(s@));
        } else {
            assert(s@.skip(i as int).drop_first() =~= s@.skip(i + 1));
            assert(after@ =~= s@.subrange(i + 1, n as int));
            assert(s@.skip(i + 1) =~= s@.subrange(i + 1, n as int));
        }
        assert(before@ =~= s@.subrange(0, i as int));
        assert(before_star(s@) =~= s@.subrange(0, i as int) + before_star(s@.skip(i as int)));
        assert(before_star(s@.skip(i as int)) =~= Seq::<char>::empty());
    }
    (before, after)
}

/// The kind of archive a kernel asset is.
#[derive(Debug, Clone, Copy, PartialEq, Eq, Structural)]
pub enum ArchiveKind {
    Gz,
    Zip,
}

/// Whether a zip entry is the kernel binary: its name holds the binary name
/// without `.exe`, or both end with `.exe`.
pub open spec fn is_kernel_entry(name: Seq<char>, target: Seq<char>) -> bool {
    contains(name, replace_all(target, ".exe"@, Seq::empty())) || (ends_with(name, ".exe"@) && ends_with(target, ".exe"@))
}

/// The archive kind of an asset name, or the error for any other name.
pub open spec fn archive_kind_of(name: Seq<char>) -> Option<ArchiveKind> {
    if ends_with(name, ".gz"@) {
        Some(ArchiveKind::Gz)
    } else if ends_with(name, ".zip"@) {
        Some(ArchiveKind::Zip)
    } else {
        None
    }
}

/// The archive kind of an asset: `.gz` or `.zip`.
pub fn archive_kind(asset_name: &str) -> (r: Result<ArchiveKind, AppError>)
    ensures
        r matches Ok(k) ==> archive_kind_of(asset_name@) == Some(k),
        r is Err <==> archive_kind_of(asset_name@) is None,
        r matches Err(e) ==> e@ == ErrorView::Other("unknown archive format: "@ + asset_name@),
{
    if str_ends_with(asset_name, ".gz") {
        Ok(ArchiveKind::Gz)
    } else if str_ends_with(asset_name, ".zip") {
        Ok(ArchiveKind::Zip)
    } else {
        Err(AppError::Other(concat("unknown archive format: ", asset_name)))
    }
}

/// The version named in the active-version file: its trimmed contents,
/// when not blank.
pub open spec fn active_version_text(contents: Option<Seq<char>>) -> Option<Seq<char>> {
    match contents {
        Some(c) => if trim(c).len() == 0 { None } else { Some(trim(c)) },
        None => None,
    }
}

/// Whether a readable zip entry is the kernel binary.
pub open spec fn entry_is_kernel(e: Option<String>, target: Seq<char>) -> bool {
    match e {
        Some(n) => is_kernel_entry(n@, target),
        None => false,
    }
}

/// The first entry from `from` on that is the kernel binary, or 0 when
/// there is none.
pub open spec fn kernel_entry_index(names: Seq<Option<Seq<char>>>, target: Seq<char>, from: nat) -> nat
    decreases names.len() - from,
{
    if from >= names.len() {
        0
    } else if names[from as int] matches Some(n) && is_kernel_entry(n, target) {
        from
    } else {
        kernel_entry_index(names, target, from + 1)
    }
}

/// What a downloaded kernel asset unpacks to for the binary `target`: a
/// `.gz` asset decoded, the kernel entry of a `.zip` asset (else its first
/// entry); or the error met on the way.
pub open spec fn extract_kernel_spec(asset_name: Seq<char>, data: Seq<u8>, target: Seq<char>) -> Result<Seq<u8>, ErrorView> {
    match archive_kind_of(asset_name) {
        None => Err(ErrorView::Other("unknown archive format: "@ + asset_name)),
        Some(ArchiveKind::Gz) => match gunzip(data) {
            Some(b) => Ok(b),
            None => Err(ErrorView::Other("gz decompression failed"@)),
        },
        Some(ArchiveKind::Zip) => match zip_names(data) {
            None => Err(ErrorView::Other("zip decompression failed"@)),
            Some(names) => match zip_entry(data, kernel_entry_index(names, target, 0)) {
                Some(b) => Ok(b),
                None => Err(ErrorView::Other("zip decompression failed"@)),
            },
        },
    }
}

impl KernelManager {
    /// The GitHub API address of the latest releases (thirty of them).
    pub fn releases_url() -> (r: &'static str)
        ensures
            r@ == "https://api.github.com/repos/MetaCubeX/mihomo/releases?per_page=30"@,
    {
        "https://api.github.com/repos/MetaCubeX/mihomo/releases?per_page=30"
    }

    /// The platform's binary name.
    pub open spec fn binary_text(&self) -> Seq<char> {
        binary_name_text(self.platform_names().0, self.platform_names().1)
    }

    /// The kernels directory, as characters.
    pub closed spec fn dir(&self) -> Seq<char> {
        self.kernels_dir@
    }

    /// The platform, as its two names.
    pub closed spec fn platform_names(&self) -> (Seq<char>, Seq<char>) {
        (self.platform.os@, self.platform.arch@)
    }

    /// A manager for the kernels under `kernels_dir`, for `platform`.
    pub fn new(kernels_dir: &str, platform: Platform) -> (m: Self)
        ensures
            m.dir() == kernels_dir@,
            m.platform_names() == (platform.os@, platform.arch@),
    {
        KernelManager { kernels_dir: owned(kernels_dir), platform }
    }

    /// Return the platform.
    pub fn platform(&self) -> (r: &Platform)
        ensures
            (r.os@, r.arch@) == self.platform_names(),
    {
        &self.platform
    }

    /// Return the kernels directory path.
    pub fn kernels_dir(&self) -> (r: &str)
        ensures
            r@ == self.dir(),
    {
        self.kernels_dir.as_str()
    }

    /// The first asset of a release that matches this platform's pattern.
    pub fn find_matching_asset<'a>(&self, release: &'a GithubRelease) -> (r: Option<&'a GithubAsset>)
        ensures
            r matches Some(a) ==> exists|i: int| 0 <= i < release.assets@.len() && release.assets@[i] == *a
                && asset_matches(a.name@, asset_pattern_text(self.platform_names().0, self.platform_names().1))
                && forall|j: int| 0 <= j < i ==> !asset_matches(#[trigger] release.assets@[j].name@,
                    asset_pattern_text(self.platform_names().0, self.platform_names().1)),
            r is None ==> forall|j: int| 0 <= j < release.assets@.len() ==> !asset_matches(#[trigger] release.assets@[j].name@,
                asset_pattern_text(self.platform_names().0, self.platform_names().1)),
    {
        let pattern = self.platform.asset_pattern();
        let (prefix, suffix) = star_parts(pattern.as_str());
        let n = release.assets.len();
        let mut i: usize = 0;
        while i < n
            invariant
                n == release.assets@.len(),
                i <= n,
                pattern@ == asset_pattern_text(self.platform_names().0, self.platform_names().1),
                prefix@ == before_star(pattern@),
                suffix@ == after_star(pattern@),
                forall|j: int| 0 <= j < i ==> !asset_matches(#[trigger] release.assets@[j].name@, pattern@),
            decreases n - i,
        {
            let a = &release.assets[i];
            let name = chars_of(a.name.as_str());
            if prefix.len() <= name.len() && suffix.len() <= name.len() - prefix.len()
                && starts_with_exec(name.as_slice(), prefix.as_slice())
                && ends_with_exec(name.as_slice(), suffix.as_slice()) {
                return Some(a);
            }
            i = i + 1;
        }
        None
    }

    /// The asset to download for a release, or the error when none matches.
    pub fn download_asset<'a>(&self, release: &'a GithubRelease) -> (r: Result<&'a GithubAsset, AppError>)
        ensures
            r is Err <==> forall|j: int| 0 <= j < release.assets@.len() ==> !asset_matches(#[trigger] release.assets@[j].name@,
                asset_pattern_text(self.platform_names().0, self.platform_names().1)),
            r matches Ok(a) ==> exists|i: int| 0 <= i < release.assets@.len() && release.assets@[i] == *a
                && asset_matches(a.name@, asset_pattern_text(self.platform_names().0, self.platform_names().1))
                && forall|j: int| 0 <= j < i ==> !asset_matches(#[trigger] release.assets@[j].name@,
                    asset_pattern_text(self.platform_names().0, self.platform_names().1)),
            r matches Err(e) ==> e@ == ErrorView::Other("no matching asset found for current platform"@),
    {
        match self.find_matching_asset(release) {
            Some(a) => Ok(a),
            None => Err(AppError::Other(owned("no matching asset found for current platform"))),
        }
    }

    /// The zip entry to extract: the first one that is the kernel binary
    /// (entries that cannot be read are `None`), or the first entry.
    pub fn select_zip_entry(&self, names: &[Option<String>]) -> (r: usize)
        ensures
            (exists|i: int| 0 <= i < names@.len() && entry_is_kernel(#[trigger] names@[i], self.binary_text()))
                ==> (r < names@.len() && entry_is_kernel(names@[r as int], self.binary_text())
                && forall|j: int| 0 <= j < r ==> !entry_is_kernel(#[trigger] names@[j], self.binary_text())),
            !(exists|i: int| 0 <= i < names@.len() && entry_is_kernel(#[trigger] names@[i], self.binary_text())) ==> r == 0,
            r == kernel_entry_index(name_views(names@), self.binary_text(), 0),
    {
        let ghost nv = name_views(names@);
        let target = self.platform.binary_name();
        let tc = chars_of(target.as_str());
        let exe = chars_of(".exe");
        let nothing: Vec<char> = Vec::new();
        proof { reveal_strlit(".exe"); }
        let stem_chars = replace_all_exec(tc.as_slice(), exe.as_slice(), nothing.as_slice());
        let stem = string_from_chars(stem_chars.as_slice());
        let target_exe = str_ends_with(target.as_str(), ".exe");
        let n = names.len();
        let mut i: usize = 0;
        while i < n
            invariant
                n == names@.len(),
                i <= n,
                target@ == binary_name_text(self.platform_names().0, self.platform_names().1),
                stem@ == replace_all(target@, ".exe"@, Seq::empty()),
                target_exe == ends_with(target@, ".exe"@),
                forall|j: int| 0 <= j < i ==> !entry_is_kernel(#[trigger] names@[j], target@),
                nv == name_views(names@),
                kernel_entry_index(nv, target@, 0) == kernel_entry_index(nv, target@, i as nat),
            decreases n - i,
        {
            if let Some(nm) = &names[i] {
                if str_contains(nm.as_str(), stem.as_str()) || (str_ends_with(nm.as_str(), ".exe") && target_exe) {
                    return i;
                }
            }
            i = i + 1;
        }
        0
    }

    /// Unpacks a downloaded kernel asset into the binary's bytes (see
    /// [`extract_kernel_spec`]).
    pub fn extract_kernel(&self, asset_name: &str, data: &[u8]) -> (r: Result<Vec<u8>, AppError>)
        ensures
            r matches Ok(b) ==> extract_kernel_spec(asset_name@, data@, self.binary_text()) == Ok::<Seq<u8>, ErrorView>(b@),
            r matches Err(e) ==> extract_kernel_spec(asset_name@, data@, self.binary_text()) == Err::<Seq<u8>, ErrorView>(e@),
    {
        match archive_kind(asset_name) {
            Err(e) => Err(e),
            Ok(ArchiveKind::Gz) => match gunzip_bytes(data) {
                Some(b) => Ok(b),
                None => Err(AppError::Other(owned("gz decompression failed"))),
            },
            Ok(ArchiveKind::Zip) => {
                let names = match zip_entry_names(data) {
                    Some(n) => n,
                    None => return Err(AppError::Other(owned("zip decompression failed"))),
                };
                let idx = self.select_zip_entry(names.as_slice());
                match zip_entry_bytes(data, idx) {
                    Some(b) => Ok(b),
                    None => Err(AppError::Other(owned("zip decompression failed"))),
                }
            },
        }
    }

    /// The message when a version's binary is missing.
    pub fn missing_binary_message(&self, version: &str, path: &str) -> (r: String)
        ensures
            r@ == "kernel binary not found for version "@ + version@ + " at "@ + path@,
    {
        let a = concat("kernel binary not found for version ", version);
        let b = concat(a.as_str(), " at ");
        concat(b.as_str(), path)
    }

    /// The binary path of a version, given the joined path and whether a
    /// file is there.
    pub fn get_binary_path(&self, version: &str, path: String, exists: bool) -> (r: Result<String, AppError>)
        ensures
            r is Ok <==> exists,
            r matches Ok(p) ==> p@ == path@,
            r matches Err(e) ==> e@ == ErrorView::Other("kernel binary not found for version "@ + version@ + " at "@ + path@),
    {
        if exists {
            Ok(path)
        } else {
            Err(AppError::Other(self.missing_binary_message(version, path.as_str())))
        }
    }

    /// Installed versions (directory names holding a binary), sorted.
    pub fn list_installed_versions(&self, tags: Vec<String>) -> (r: Vec<String>)
        ensures
            sorted_by_key(r@),
            r@.to_multiset() == tags@.to_multiset(),
    {
        sort_by_key(tags)
    }

    /// The active version from the contents of the active-version file.
    pub fn get_active_version(&self, contents: Option<String>) -> (r: Option<String>)
        ensures
            r matches Some(v) ==> active_version_text(match contents { Some(c) => Some(c@), None => None }) == Some(v@),
            r is None <==> active_version_text(match contents { Some(c) => Some(c@), None => None }) is None,
    {
        match contents {
            Some(c) => {
                let t = str_trim(c.as_str());
                if str_is_empty(t.as_str()) { None } else { Some(t) }
            },
            None => None,
        }
    }
}

} // verus!
