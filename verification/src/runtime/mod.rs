//! Core business logic: the mihomo mode model, core metadata, release asset
//! selection and version detection; with kernel, subscription and config
//! file management in submodules.

pub mod archive;
pub mod config_file;
pub mod kernel;
pub mod provider;
pub mod subscription;

use vstd::prelude::*;
use crate::error::{AppError, ErrorView};
use crate::runtime::archive::{gunzip, gunzip_bytes, name_views, zip_entry, zip_entry_bytes, zip_entry_names, zip_names};
use crate::sorting::{reversed, sort_by_key, sorted_by_key};
use crate::text::{
    chars_of, concat, contains, ends_with, owned, starts_with, str_contains, str_ends_with,
    str_is_empty, str_starts_with, str_to_ascii_lowercase, str_trim, string_from_chars,
    to_ascii_lowercase, trim,
};

verus! {

broadcast use vstd::seq_lib::group_to_multiset_ensures;

/// The proxy mode of a running mihomo core.
#[derive(Debug, Clone, Copy, PartialEq, Eq, Structural)]
pub enum MihomoMode {
    Rule,
    Global,
    Direct,
}

impl MihomoMode {
    /// The mode after this one in the cycle `Rule -> Global -> Direct -> Rule`.
    pub open spec fn next_mode(self) -> MihomoMode {
        match self {
            MihomoMode::Rule => MihomoMode::Global,
            MihomoMode::Global => MihomoMode::Direct,
            MihomoMode::Direct => MihomoMode::Rule,
        }
    }

    /// The value mihomo's API uses for the mode.
    pub open spec fn api_text(self) -> Seq<char> {
        match self {
            MihomoMode::Rule => "rule"@,
            MihomoMode::Global => "global"@,
            MihomoMode::Direct => "direct"@,
        }
    }

    /// The name shown for the mode.
    pub open spec fn display_text(self) -> Seq<char> {
        match self {
            MihomoMode::Rule => "Rule"@,
            MihomoMode::Global => "Global"@,
            MihomoMode::Direct => "Direct"@,
        }
    }

    /// The next mode in the cycle.
    pub fn next(self) -> (r: Self)
        ensures
            r == self.next_mode(),
    {
        match self {
            MihomoMode::Rule => MihomoMode::Global,
            MihomoMode::Global => MihomoMode::Direct,
            MihomoMode::Direct => MihomoMode::Rule,
        }
    }

    /// The value mihomo's API uses for the mode.
    pub fn api_value(self) -> (r: &'static str)
        ensures
            r@ == self.api_text(),
    {
        match self {
            MihomoMode::Rule => "rule",
            MihomoMode::Global => "global",
            MihomoMode::Direct => "direct",
        }
    }

    /// The name shown for the mode (its `Display`).
    pub fn display_name(self) -> (r: String)
        ensures
            r@ == self.display_text(),
    {
        match self {
            MihomoMode::Rule => owned("Rule"),
            MihomoMode::Global => owned("Global"),
            MihomoMode::Direct => owned("Direct"),
        }
    }

    /// Reads a mode from text, ignoring ASCII case (its `Deserialize`).
    pub fn parse(value: &str) -> (r: Result<MihomoMode, String>)
        ensures
            r matches Ok(m) ==> m.api_text() == to_ascii_lowercase(value@),
            r is Err <==> (to_ascii_lowercase(value@) != "rule"@ && to_ascii_lowercase(value@)
                != "global"@ && to_ascii_lowercase(value@) != "direct"@),
            r matches Err(e) ==> e@ == "unsupported mihomo mode "@ + to_ascii_lowercase(value@),
    {
        let lower = str_to_ascii_lowercase(value);
        if crate::text::str_eq(lower.as_str(), "rule") {
            Ok(MihomoMode::Rule)
        } else if crate::text::str_eq(lower.as_str(), "global") {
            Ok(MihomoMode::Global)
        } else if crate::text::str_eq(lower.as_str(), "direct") {
            Ok(MihomoMode::Direct)
        } else {
            Err(concat("unsupported mihomo mode ", lower.as_str()))
        }
    }
}

/// Three steps of the mode cycle come back to the start, and no fewer do.
pub proof fn law_mode_cycle(m: MihomoMode)
    ensures
        m.next_mode().next_mode().next_mode() == m,
        m.next_mode() != m,
        m.next_mode().next_mode() != m,
{
}

/// A mode's API value is its own lowercase, and no two modes share one, so
/// parsing a mode's API value gives that mode back.
pub proof fn law_mode_api_value_parses(m: MihomoMode, other: MihomoMode)
    ensures
        to_ascii_lowercase(m.api_text()) == m.api_text(),
        other.api_text() == m.api_text() ==> other == m,
{
    reveal_strlit("rule");
    reveal_strlit("global");
    reveal_strlit("direct");
    assert(to_ascii_lowercase(m.api_text()) =~= m.api_text());
    if other != m {
        assert(other.api_text() != m.api_text()) by {
            if other.api_text().len() == m.api_text().len() {
                assert(other.api_text()[0] != m.api_text()[0]);
            }
        }
    }
}

/// Whether the core process is running.
#[derive(Debug, Clone, Copy, PartialEq, Eq, Structural)]
pub enum CoreStatus {
    Stopped,
    Running,
    Missing,
}

impl CoreStatus {
    /// The name shown for the status.
    pub open spec fn display_text(self) -> Seq<char> {
        match self {
            CoreStatus::Stopped => "Stopped"@,
            CoreStatus::Running => "Running"@,
            CoreStatus::Missing => "Missing"@,
        }
    }

    /// The name shown for the status (its `Display`).
    pub fn display_name(self) -> (r: String)
        ensures
            r@ == self.display_text(),
    {
        match self {
            CoreStatus::Stopped => owned("Stopped"),
            CoreStatus::Running => owned("Running"),
            CoreStatus::Missing => owned("Missing"),
        }
    }
}

/// A mihomo core binary and what is known of it.
#[derive(Debug)]
pub struct MihomoCore {
    pub binary_path: Option<String>,
    pub version: String,
    pub status: CoreStatus,
}

impl MihomoCore {
    /// Describes a core. `exists` tells whether the binary is on disk and
    /// `detected` is the version it reported, if any; the version is
    /// `unknown` unless a binary is there and reported a non-empty one.
    pub fn new(binary_path: Option<String>, exists: bool, detected: Option<String>) -> (c: Self)
        ensures
            c.binary_path == binary_path,
            c.version@ == (match detected {
                Some(v) if binary_path is Some && exists && v@.len() > 0 => v@,
                _ => "unknown"@,
            }),
            c.status == (if binary_path is Some && exists { CoreStatus::Stopped } else { CoreStatus::Missing }),
    {
        let present = binary_path.is_some() && exists;
        let version = match detected {
            Some(v) => if present && !str_is_empty(v.as_str()) {
                v
            } else {
                owned("unknown")
            },
            None => owned("unknown"),
        };
        let status = if present {
            CoreStatus::Stopped
        } else {
            CoreStatus::Missing
        };
        MihomoCore { binary_path, version, status }
    }
}

/// The first line of a text (as `str::lines` gives it): up to the first
/// `\n`, without a `\r` before it.
pub open spec fn first_line(t: Seq<char>) -> Seq<char> {
    if exists|i: int| 0 <= i < t.len() && t[i] == '\n' {
        let i = choose|i: int| 0 <= i < t.len() && t[i] == '\n' && forall|j: int| 0 <= j < i ==> t[j] != '\n';
        let l = t.subrange(0, i);
        if l.len() > 0 && l.last() == '\r' { l.drop_last() } else { l }
    } else {
        t
    }
}

/// The version a core reports for `-v`: the first line of its trimmed
/// standard output, or of its trimmed standard error when the output is
/// blank; nothing when the command failed or both are blank.
pub open spec fn version_text(success: bool, stdout: Seq<char>, stderr: Seq<char>) -> Option<Seq<char>> {
    if !success {
        None
    } else {
        let text = if trim(stdout).len() == 0 { trim(stderr) } else { trim(stdout) };
        if text.len() == 0 { None } else { Some(first_line(text)) }
    }
}

/// The first line of a text.
fn first_line_exec(t: &[char]) -> (r: Vec<char>)
    ensures
        r@ == first_line(t@),
{
    let n = t.len();
    let mut i: usize = 0;
    while i < n && t[i] != '\n'
        invariant
            n == t@.len(),
            i <= n,
            forall|j: int| 0 <= j < i ==> t@[j] != '\n',
        decreases n - i,
    {
        i = i + 1;
    }
    let mut r: Vec<char> = Vec::new();
    if i == n {
        crate::text::push_all(&mut r, t);
        assert(r@ =~= t@);
        return r;
    }
    proof {
        let k = choose|k: int| 0 <= k < t@.len() && t@[k] == '\n' && forall|j: int| 0 <= j < k ==> t@[j] != '\n';
        if k < i {
        } else if k > i {
        }
        assert(k == i);
    }
    let end = if i > 0 && t[i - 1] == '\r' { i - 1 } else { i };
    crate::text::push_range(&mut r, t, 0, end);
    proof {
        let l = t@.subrange(0, i as int);
        if end < i {
            assert(r@ =~= l.drop_last());
        } else {
            assert(r@ =~= l);
        }
    }
    r
}

/// The version a core reports, from the result of running it with `-v`.
pub fn version_from_output(success: bool, stdout: &str, stderr: &str) -> (r: Option<String>)
    ensures
        r matches Some(v) ==> version_text(success, stdout@, stderr@) == Some(v@),
        r is None <==> version_text(success, stdout@, stderr@) is None,
{
    if !success {
        return None;
    }
    let out = str_trim(stdout);
    let text = if str_is_empty(out.as_str()) { str_trim(stderr) } else { out };
    if str_is_empty(text.as_str()) {
        None
    } else {
        let c = chars_of(text.as_str());
        let l = first_line_exec(c.as_slice());
        Some(string_from_chars(l.as_slice()))
    }
}

/// A release asset as the GitHub API lists it.
#[derive(Debug)]
pub struct ReleaseAsset {
    pub name: String,
    pub browser_download_url: String,
}

/// A release as the GitHub API lists it.
#[derive(Debug)]
pub struct Release {
    pub tag_name: String,
    pub assets: Vec<ReleaseAsset>,
}

/// How much an asset name is preferred among the matching ones.
pub open spec fn asset_score_of(name: Seq<char>) -> int {
    let l = to_ascii_lowercase(name);
    (if contains(l, "compatible"@) { 30int } else { 0int })
        + (if contains(l, "-v1-"@) { 20int } else { 0int })
        + (if contains(l, "go124"@) {
            3int
        } else if contains(l, "go122"@) {
            2int
        } else if contains(l, "go120"@) {
            1int
        } else {
            0int
        })
}

/// How much an asset name is preferred among the matching ones.
pub fn asset_score(name: &str) -> (r: i32)
    ensures
        r == asset_score_of(name@),
{
    let lower = str_to_ascii_lowercase(name);
    let mut score: i32 = 0;
    if str_contains(lower.as_str(), "compatible") {
        score = score + 30;
    }
    if str_contains(lower.as_str(), "-v1-") {
        score = score + 20;
    }
    if str_contains(lower.as_str(), "go124") {
        score = score + 3;
    } else if str_contains(lower.as_str(), "go122") {
        score = score + 2;
    } else if str_contains(lower.as_str(), "go120") {
        score = score + 1;
    }
    score
}

/// Whether an asset name is a build for the platform: it names the OS and
/// the architecture, has the archive extension, and is not an Android build.
pub open spec fn asset_fits(name: Seq<char>, os: Seq<char>, arch: Seq<char>, extension: Seq<char>) -> bool {
    let l = to_ascii_lowercase(name);
    contains(l, os) && contains(l, arch) && ends_with(l, extension) && !contains(l, "android"@)
}

/// The asset to install: among the fitting ones, one with the highest
/// score, the last such one when several share it.
pub open spec fn is_best_asset(names: Seq<Seq<char>>, os: Seq<char>, arch: Seq<char>, extension: Seq<char>, i: int) -> bool {
    &&& 0 <= i < names.len()
    &&& asset_fits(names[i], os, arch, extension)
    &&& forall|j: int| 0 <= j < names.len() && asset_fits(names[j], os, arch, extension)
        ==> asset_score_of(#[trigger] names[j]) <= asset_score_of(names[i])
    &&& forall|j: int| i < j < names.len() && asset_fits(names[j], os, arch, extension)
        ==> asset_score_of(#[trigger] names[j]) < asset_score_of(names[i])
}

/// The names of a list of assets.
pub open spec fn asset_names(assets: Seq<ReleaseAsset>) -> Seq<Seq<char>> {
    assets.map_values(|a: ReleaseAsset| a.name@)
}

/// Whether an asset fits the platform.
pub fn asset_fits_exec(name: &str, os: &str, arch: &str, extension: &str) -> (r: bool)
    ensures
        r == asset_fits(name@, os@, arch@, extension@),
{
    let l = str_to_ascii_lowercase(name);
    str_contains(l.as_str(), os) && str_contains(l.as_str(), arch) && str_ends_with(l.as_str(), extension)
        && !str_contains(l.as_str(), "android")
}

/// The release asset to install for a platform (`os`, `arch` and archive
/// `extension` as the release names them): the fitting asset with the
/// highest score, the last one among equals.
pub fn choose_asset<'a>(assets: &'a [ReleaseAsset], os: &str, arch: &str, extension: &str) -> (r: Option<&'a ReleaseAsset>)
    ensures
        r is None <==> forall|j: int| 0 <= j < assets@.len() ==> !asset_fits(#[trigger] assets@[j].name@, os@, arch@, extension@),
        r matches Some(a) ==> exists|i: int| is_best_asset(asset_names(assets@), os@, arch@, extension@, i) && assets@[i] == *a,
{
    let ghost names = asset_names(assets@);
    let n = assets.len();
    let mut best: Option<usize> = None;
    let mut best_score: i32 = 0;
    let mut k: usize = 0;
    while k < n
        invariant
            n == assets@.len(),
            names == asset_names(assets@),
            k <= n,
            best is None ==> forall|j: int| 0 <= j < k ==> !asset_fits(#[trigger] names[j], os@, arch@, extension@),
            best matches Some(b) ==> {
                &&& b < k
                &&& asset_fits(names[b as int], os@, arch@, extension@)
                &&& best_score == asset_score_of(names[b as int])
                &&& forall|j: int| 0 <= j < k && asset_fits(names[j], os@, arch@, extension@)
                    ==> asset_score_of(#[trigger] names[j]) <= best_score
                &&& forall|j: int| b < j < k && asset_fits(names[j], os@, arch@, extension@)
                    ==> asset_score_of(#[trigger] names[j]) < best_score
            },
        decreases n - k,
    {
        let a = &assets[k];
        assert(names[k as int] == a.name@);
        if asset_fits_exec(a.name.as_str(), os, arch, extension) {
            let s = asset_score(a.name.as_str());
            if best.is_none() || s >= best_score {
                best = Some(k);
                best_score = s;
            }
        }
        k = k + 1;
    }
    match best {
        Some(b) => {
            assert(is_best_asset(names, os@, arch@, extension@, b as int));
            Some(&assets[b])
        },
        None => {
            assert forall|j: int| 0 <= j < assets@.len() implies !asset_fits(#[trigger] assets@[j].name@, os@, arch@, extension@) by {
                assert(names[j] == assets@[j].name@);
            }
            None
        },
    }
}

/// The OS name mihomo's releases use for a Rust target OS.
pub open spec fn release_os_text(target_os: Seq<char>) -> Seq<char> {
    if target_os == "windows"@ {
        "windows"@
    } else if target_os == "macos"@ {
        "darwin"@
    } else {
        "linux"@
    }
}

/// The OS name mihomo's releases use for a Rust target OS.
pub fn release_os(target_os: &str) -> (r: &'static str)
    ensures
        r@ == release_os_text(target_os@),
{
    if crate::text::str_eq(target_os, "windows") {
        "windows"
    } else if crate::text::str_eq(target_os, "macos") {
        "darwin"
    } else {
        "linux"
    }
}

/// The architecture name mihomo's releases use for a Rust target
/// architecture.
pub open spec fn release_arch_text(target_arch: Seq<char>) -> Seq<char> {
    if target_arch == "x86_64"@ {
        "amd64"@
    } else if target_arch == "aarch64"@ {
        "arm64"@
    } else if target_arch == "arm"@ {
        "arm"@
    } else if target_arch == "x86"@ {
        "386"@
    } else {
        target_arch
    }
}

/// The architecture name mihomo's releases use for a Rust target
/// architecture.
pub fn release_arch(target_arch: &str) -> (r: String)
    ensures
        r@ == release_arch_text(target_arch@),
{
    if crate::text::str_eq(target_arch, "x86_64") {
        owned("amd64")
    } else if crate::text::str_eq(target_arch, "aarch64") {
        owned("arm64")
    } else if crate::text::str_eq(target_arch, "arm") {
        owned("arm")
    } else if crate::text::str_eq(target_arch, "x86") {
        owned("386")
    } else {
        owned(target_arch)
    }
}

/// The archive extension of release assets: `.zip` on Windows, `.gz`
/// elsewhere.
pub fn release_extension(windows: bool) -> (r: &'static str)
    ensures
        r@ == (if windows { ".zip"@ } else { ".gz"@ }),
{
    if windows { ".zip" } else { ".gz" }
}

/// The file name of the core binary: `mihomo.exe` on Windows, `mihomo`
/// elsewhere.
pub fn binary_name(windows: bool) -> (r: &'static str)
    ensures
        r@ == (if windows { "mihomo.exe"@ } else { "mihomo"@ }),
{
    if windows { "mihomo.exe" } else { "mihomo" }
}

/// The release tag for a requested version: itself when it starts with
/// `v`, else with `v` in front.
pub open spec fn release_tag(version: Seq<char>) -> Seq<char> {
    if starts_with(version, "v"@) { version } else { "v"@ + version }
}

/// The GitHub API address of a release's metadata.
pub open spec fn release_url_text(version: Seq<char>) -> Seq<char> {
    if version == "latest"@ {
        "https://api.github.com/repos/MetaCubeX/mihomo/releases/latest"@
    } else {
        "https://api.github.com/repos/MetaCubeX/mihomo/releases/tags/"@ + release_tag(version)
    }
}

/// The GitHub API address of a release's metadata (`latest`, or a version
/// with or without its leading `v`).
pub fn release_url(version: &str) -> (r: String)
    ensures
        r@ == release_url_text(version@),
{
    if crate::text::str_eq(version, "latest") {
        owned("https://api.github.com/repos/MetaCubeX/mihomo/releases/latest")
    } else {
        let tag = if str_starts_with(version, "v") { owned(version) } else { concat("v", version) };
        concat("https://api.github.com/repos/MetaCubeX/mihomo/releases/tags/", tag.as_str())
    }
}

/// The file a downloaded core is stored under: `{tag}-{binary}`.
pub fn versioned_binary_name(tag: &str, binary: &str) -> (r: String)
    ensures
        r@ == tag@ + "-"@ + binary@,
{
    let t = concat(tag, "-");
    concat(t.as_str(), binary)
}

/// Whether a zip entry is the core executable.
pub open spec fn is_core_entry(name: Seq<char>) -> bool {
    ends_with(to_ascii_lowercase(name), "mihomo.exe"@) || ends_with(to_ascii_lowercase(name), "mihomo"@)
}

/// The first zip entry that is the core executable.
pub fn select_core_entry(names: &[String]) -> (r: Option<usize>)
    ensures
        r matches Some(i) ==> i < names@.len() && is_core_entry(names@[i as int]@)
            && forall|j: int| 0 <= j < i ==> !is_core_entry(#[trigger] names@[j]@),
        r is None ==> forall|j: int| 0 <= j < names@.len() ==> !is_core_entry(#[trigger] names@[j]@),
{
    let n = names.len();
    let mut i: usize = 0;
    while i < n
        invariant
            n == names@.len(),
            i <= n,
            forall|j: int| 0 <= j < i ==> !is_core_entry(#[trigger] names@[j]@),
        decreases n - i,
    {
        let l = str_to_ascii_lowercase(names[i].as_str());
        if str_ends_with(l.as_str(), "mihomo.exe") || str_ends_with(l.as_str(), "mihomo") {
            return Some(i);
        }
        i = i + 1;
    }
    None
}

/// The message when a zip asset holds no core executable.
pub fn missing_executable_message(asset_name: &str) -> (r: String)
    ensures
        r@ == "mihomo executable was not found in "@ + asset_name@,
{
    concat("mihomo executable was not found in ", asset_name)
}

/// The first zip entry from `from` on that cannot be opened or is the core
/// executable.
pub open spec fn core_entry_scan(names: Seq<Option<Seq<char>>>, from: nat) -> Option<nat>
    decreases names.len() - from,
{
    if from >= names.len() {
        None
    } else if names[from as int] is None || is_core_entry(names[from as int]->0) {
        Some(from)
    } else {
        core_entry_scan(names, from + 1)
    }
}

/// What a downloaded core asset unpacks to: a `.gz` asset decoded, the
/// core entry of a `.zip` asset (the entries are looked at in order, and
/// one that cannot be opened first stops the search), any other asset as
/// it is; or the error met on the way.
pub open spec fn extract_core_spec(asset_name: Seq<char>, data: Seq<u8>) -> Result<Seq<u8>, ErrorView> {
    if ends_with(asset_name, ".gz"@) {
        match gunzip(data) {
            Some(b) => Ok(b),
            None => Err(ErrorView::Other("decompress mihomo gzip asset"@)),
        }
    } else if ends_with(asset_name, ".zip"@) {
        match zip_names(data) {
            None => Err(ErrorView::Other("open mihomo zip asset"@)),
            Some(names) => match core_entry_scan(names, 0) {
                None => Err(ErrorView::Other("mihomo executable was not found in "@ + asset_name)),
                Some(i) => if names[i as int] is None {
                    Err(ErrorView::Other("read zip entry"@))
                } else {
                    match zip_entry(data, i) {
                        Some(b) => Ok(b),
                        None => Err(ErrorView::Other("extract mihomo zip asset"@)),
                    }
                },
            },
        }
    } else {
        Ok(data)
    }
}

/// Unpacks a downloaded core asset (see [`extract_core_spec`]).
pub fn extract_core(asset_name: &str, data: &[u8]) -> (r: Result<Vec<u8>, AppError>)
    ensures
        r matches Ok(b) ==> extract_core_spec(asset_name@, data@) == Ok::<Seq<u8>, ErrorView>(b@),
        r matches Err(e) ==> extract_core_spec(asset_name@, data@) == Err::<Seq<u8>, ErrorView>(e@),
{
    if str_ends_with(asset_name, ".gz") {
        match gunzip_bytes(data) {
            Some(b) => Ok(b),
            None => Err(AppError::Other(owned("decompress mihomo gzip asset"))),
        }
    } else if str_ends_with(asset_name, ".zip") {
        let names = match zip_entry_names(data) {
            Some(n) => n,
            None => return Err(AppError::Other(owned("open mihomo zip asset"))),
        };
        let ghost nv = name_views(names@);
        let n = names.len();
        let mut i: usize = 0;
        let mut found = false;
        while i < n && !found
            invariant
                n == names@.len(),
                nv == name_views(names@),
                nv.len() == n,
                i <= n,
                found ==> i < n && (nv[i as int] is None || is_core_entry(nv[i as int]->0)),
                core_entry_scan(nv, 0) == core_entry_scan(nv, i as nat),
            decreases n - i + (if found { 0int } else { 1int }),
        {
            let stop = match &names[i] {
                None => true,
                Some(name) => {
                    let l = str_to_ascii_lowercase(name.as_str());
                    str_ends_with(l.as_str(), "mihomo.exe") || str_ends_with(l.as_str(), "mihomo")
                },
            };
            if stop {
                found = true;
            } else {
                i = i + 1;
            }
        }
        if !found {
            return Err(AppError::Other(missing_executable_message(asset_name)));
        }
        assert(core_entry_scan(nv, i as nat) == Some(i as nat));
        if names[i].is_none() {
            return Err(AppError::Other(owned("read zip entry")));
        }
        match zip_entry_bytes(data, i) {
            Some(b) => Ok(b),
            None => Err(AppError::Other(owned("extract mihomo zip asset"))),
        }
    } else {
        Ok(vstd::slice::slice_to_vec(data))
    }
}

/// The names in `names` that end with the binary name.
pub open spec fn core_names(names: Seq<String>, binary: Seq<char>) -> Seq<String>
    decreases names.len(),
{
    if names.len() == 0 {
        seq![]
    } else if ends_with(names.last()@, binary) {
        core_names(names.drop_last(), binary).push(names.last())
    } else {
        core_names(names.drop_last(), binary)
    }
}

/// Of the file names in the cores directory, those ending with the binary
/// name, newest first: sorted and then reversed.
pub fn versioned_core_names(names: Vec<String>, binary: &str) -> (r: Vec<String>)
    ensures
        sorted_by_key(r@.reverse()),
        r@.to_multiset() == core_names(names@, binary@).to_multiset(),
{
    broadcast use vstd::multiset::group_multiset_axioms;
    let ghost orig = names@;
    let mut names = names;
    let mut kept: Vec<String> = Vec::new();
    assert(kept@.to_multiset() =~= vstd::multiset::Multiset::empty());
    while names.len() > 0
        invariant
            kept@.to_multiset().add(core_names(names@, binary@).to_multiset())
                == core_names(orig, binary@).to_multiset(),
        decreases names@.len(),
    {
        let ghost before = names@;
        let e = names.pop().unwrap();
        proof {
            assert(before.drop_last() =~= names@);
            assert(before.last() == e);
        }
        if str_ends_with(e.as_str(), binary) {
            kept.push(e);
        }
    }
    assert(core_names(names@, binary@) =~= Seq::<String>::empty());
    let sorted = sort_by_key(kept);
    let r = reversed(sorted);
    proof {
        assert(r@.reverse() =~= sorted@);
        sorted@.lemma_reverse_to_multiset();
    }
    r
}

/// Newer Go builds rank higher: of two asset names alike in being
/// `compatible` builds and in being `-v1-` builds, one naming go124 scores
/// above one that does not, one naming go122 (and not go124) scores above
/// one naming only go120 or no Go version, and one naming go120 scores above
/// one naming none; a `compatible` build outranks any build that is not,
/// and a `-v1-` build any otherwise alike build that is not.
pub proof fn law_newer_go_builds_rank_higher(a: Seq<char>, b: Seq<char>)
    ensures
        ({
            let la = to_ascii_lowercase(a);
            let lb = to_ascii_lowercase(b);
            let alike = contains(la, "compatible"@) == contains(lb, "compatible"@)
                && contains(la, "-v1-"@) == contains(lb, "-v1-"@);
            &&& alike && contains(la, "go124"@) && !contains(lb, "go124"@)
                ==> asset_score_of(a) > asset_score_of(b)
            &&& alike && contains(la, "go122"@) && !contains(la, "go124"@) && !contains(lb, "go124"@)
                && !contains(lb, "go122"@) ==> asset_score_of(a) > asset_score_of(b)
            &&& alike && contains(la, "go120"@) && !contains(la, "go124"@) && !contains(la, "go122"@)
                && !contains(lb, "go124"@) && !contains(lb, "go122"@) && !contains(lb, "go120"@)
                ==> asset_score_of(a) > asset_score_of(b)
            &&& contains(la, "compatible"@) && !contains(lb, "compatible"@) ==> asset_score_of(a) > asset_score_of(b)
            &&& contains(la, "compatible"@) == contains(lb, "compatible"@) && contains(la, "-v1-"@)
                && !contains(lb, "-v1-"@) ==> asset_score_of(a) > asset_score_of(b)
        }),
{
}

} // verus!
