//! Update checking: version comparison, release-asset selection, and the
//! report built from a release description.

use vstd::prelude::*;

use crate::strs::{ends_with, has_prefix, has_suffix, starts_with, strip_leading_char, trim_start_char};

verus! {

/// One entry of a release's asset list, as far as the selection reads it.
#[derive(Debug, Clone)]
pub struct ReleaseAsset {
    /// The asset's file name; `None` when the entry has none.
    pub name: Option<String>,
    /// Where the asset can be downloaded; `None` when the entry has none.
    pub browser_download_url: Option<String>,
}

/// How a scan of the assets for one suffix ended.
pub enum AssetScan {
    /// An entry with the suffix was found; its download URL.
    Hit(Option<String>),
    /// No entry has the suffix.
    Miss,
}

/// Scans `assets` in order for a name ending with `ext`; an entry without a
/// name does not match.
pub open spec fn scan_suffix(assets: Seq<ReleaseAsset>, ext: Seq<char>) -> AssetScan
    decreases assets.len(),
{
    if assets.len() == 0 {
        AssetScan::Miss
    } else {
        match assets[0].name {
            Some(name) if has_suffix(name@, ext) => AssetScan::Hit(assets[0].browser_download_url),
            _ => scan_suffix(assets.drop_first(), ext),
        }
    }
}

/// Scans for each suffix of the preference table in turn.
pub open spec fn scan_suffixes(assets: Seq<ReleaseAsset>, suffixes: Seq<String>) -> AssetScan
    decreases suffixes.len(),
{
    if suffixes.len() == 0 {
        AssetScan::Miss
    } else {
        let r = scan_suffix(assets, suffixes[0]@);
        if r is Miss {
            scan_suffixes(assets, suffixes.drop_first())
        } else {
            r
        }
    }
}

/// The asset URL that selection picks: the first asset matching the most
/// preferred suffix, else the first asset.
pub open spec fn picked_asset(assets: Seq<ReleaseAsset>, suffixes: Seq<String>) -> Option<String> {
    match scan_suffixes(assets, suffixes) {
        AssetScan::Hit(url) => url,
        AssetScan::Miss => if assets.len() > 0 {
            assets[0].browser_download_url
        } else {
            None
        },
    }
}

fn clone_url(url: &Option<String>) -> (r: Option<String>)
    ensures
        r == *url,
{
    match url {
        Some(u) => Some(u.clone()),
        None => None,
    }
}

/// Selects the download URL of a release asset: for each suffix of the
/// platform's preference table in order, the first asset whose name ends
/// with it; when none matches, the first asset. An asset without a name
/// matches no suffix.
pub fn pick_asset_url(assets: &Vec<ReleaseAsset>, suffixes: &Vec<String>) -> (r: Option<String>)
    ensures
        r == picked_asset(assets@, suffixes@),
{
    let n = assets.len();
    let m = suffixes.len();
    let mut k: usize = 0;
    assert(suffixes@.subrange(0, m as int) =~= suffixes@);
    while k < m
        invariant
            n == assets@.len(),
            m == suffixes@.len(),
            k <= m,
            scan_suffixes(assets@, suffixes@) == scan_suffixes(
                assets@,
                suffixes@.subrange(k as int, m as int),
            ),
        decreases m - k,
    {
        let ext = suffixes[k].as_str();
        let ghost rest = suffixes@.subrange(k as int, m as int);
        assert(rest.drop_first() =~= suffixes@.subrange(k + 1, m as int));
        assert(rest[0] == suffixes@[k as int]);
        let mut j: usize = 0;
        assert(assets@.subrange(0, n as int) =~= assets@);
        while j < n
            invariant
                n == assets@.len(),
                scan_suffix(assets@, ext@) == scan_suffix(assets@.subrange(j as int, n as int), ext@),
                j <= n,
                k < m,
                m == suffixes@.len(),
                rest == suffixes@.subrange(k as int, m as int),
                rest.len() > 0,
                ext@ == rest[0]@,
                scan_suffixes(assets@, suffixes@) == scan_suffixes(assets@, rest),
            decreases n - j,
        {
            let ghost tail = assets@.subrange(j as int, n as int);
            assert(tail[0] == assets@[j as int]);
            if let Some(name) = &assets[j].name {
                if ends_with(name.as_str(), ext) {
                    return clone_url(&assets[j].browser_download_url);
                }
            }
            assert(tail.drop_first() =~= assets@.subrange(j + 1, n as int));
            j = j + 1;
        }
        k = k + 1;
    }
    if n > 0 {
        clone_url(&assets[0].browser_download_url)
    } else {
        None
    }
}

/// What an update check found.
#[derive(Debug, Clone)]
pub struct UpdateInfo {
    pub current: String,
    pub latest: String,
    pub url: String,
    pub asset_url: Option<String>,
    pub is_newer: bool,
}

/// Whether `c` is an ASCII decimal digit.
pub open spec fn is_digit(c: char) -> bool {
    '0' <= c && c <= '9'
}

/// Whether every character of `t` is a decimal digit.
pub open spec fn all_digits(t: Seq<char>) -> bool {
    forall|i: int| 0 <= i < t.len() ==> is_digit(#[trigger] t[i])
}

/// The number that the decimal digits `t` spell.
pub open spec fn digits_value(t: Seq<char>) -> nat
    decreases t.len(),
{
    if t.len() == 0 {
        0
    } else {
        digits_value(t.drop_last()) * 10 + (t.last() as u32 - '0' as u32) as nat
    }
}

/// The text without one leading `+`, if it has one.
pub open spec fn unsigned_body(t: Seq<char>) -> Seq<char> {
    if t.len() > 0 && t[0] == '+' {
        t.drop_first()
    } else {
        t
    }
}

/// What `str::parse::<u64>` accepts: an optional `+`, then one or more
/// decimal digits whose value fits in a `u64`.
pub open spec fn parses_as_u64(t: Seq<char>) -> bool {
    let body = unsigned_body(t);
    body.len() > 0 && all_digits(body) && digits_value(body) <= u64::MAX
}

/// A version segment's number: its value when it parses as a `u64`, else 0.
pub open spec fn segment_number(t: Seq<char>) -> nat {
    if parses_as_u64(t) {
        digits_value(unsigned_body(t))
    } else {
        0
    }
}

/// Index of the first `.` at or after `i`, or the length when there is none.
pub open spec fn find_dot(s: Seq<char>, i: int) -> int
    decreases s.len() - i,
{
    if i >= s.len() {
        s.len() as int
    } else if s[i] == '.' {
        i
    } else {
        find_dot(s, i + 1)
    }
}

/// The number of the `k`-th `.`-separated segment counted from the segment
/// that starts at `start`; a segment that does not exist counts as 0.
pub open spec fn component_from(s: Seq<char>, start: int, k: nat) -> nat
    decreases k,
{
    let d = find_dot(s, start);
    if k == 0 {
        segment_number(s.subrange(start, d))
    } else if d < s.len() {
        component_from(s, d + 1, (k - 1) as nat)
    } else {
        0
    }
}

/// The `k`-th numeric component of a version string.
pub open spec fn component(s: Seq<char>, k: nat) -> nat {
    component_from(s, 0, k)
}

/// Sign of `x - y`.
pub open spec fn sign_of_difference(x: nat, y: nat) -> int {
    if x > y {
        1
    } else if x < y {
        -1
    } else {
        0
    }
}

/// Three-component version order: 1 if `a` is newer, -1 if older, 0 if equal.
pub open spec fn version_order(a: Seq<char>, b: Seq<char>) -> int {
    if component(a, 0) != component(b, 0) {
        sign_of_difference(component(a, 0), component(b, 0))
    } else if component(a, 1) != component(b, 1) {
        sign_of_difference(component(a, 1), component(b, 1))
    } else {
        sign_of_difference(component(a, 2), component(b, 2))
    }
}

proof fn lemma_find_dot_bounds(s: Seq<char>, i: int)
    requires
        0 <= i <= s.len(),
    ensures
        i <= find_dot(s, i) <= s.len(),
        find_dot(s, i) < s.len() ==> s[find_dot(s, i)] == '.',
        forall|j: int| i <= j < find_dot(s, i) ==> s[j] != '.',
    decreases s.len() - i,
{
    if i < s.len() && s[i] != '.' {
        lemma_find_dot_bounds(s, i + 1);
    }
}

proof fn lemma_digits_value_grows(t: Seq<char>, j: int)
    requires
        0 <= j <= t.len(),
    ensures
        digits_value(t.subrange(0, j)) <= digits_value(t),
    decreases t.len() - j,
{
    if j < t.len() {
        assert(t.drop_last().subrange(0, j) =~= t.subrange(0, j));
        lemma_digits_value_grows(t.drop_last(), j);
    } else {
        assert(t.subrange(0, j) =~= t);
    }
}

/// Index of the first `.` at or after `from`, or the length of `s`.
fn find_dot_from(s: &str, from: usize) -> (r: usize)
    requires
        from <= s@.len(),
    ensures
        r == find_dot(s@, from as int),
        from <= r <= s@.len(),
{
    proof {
        lemma_find_dot_bounds(s@, from as int);
    }
    let n = s.unicode_len();
    let mut i = from;
    while i < n && s.get_char(i) != '.'
        invariant
            n == s@.len(),
            from <= i <= n,
            find_dot(s@, from as int) == find_dot(s@, i as int),
        decreases n - i,
    {
        i = i + 1;
    }
    i
}

/// The number of the segment `s[start..end]`, as [`segment_number`] states it.
fn segment_value(s: &str, start: usize, end: usize) -> (r: u64)
    requires
        start <= end <= s@.len(),
    ensures
        r == segment_number(s@.subrange(start as int, end as int)),
{
    let ghost t = s@.subrange(start as int, end as int);
    let mut i = start;
    if i < end && s.get_char(i) == '+' {
        i = i + 1;
    }
    let body_start = i;
    let ghost body = s@.subrange(body_start as int, end as int);
    assert(unsigned_body(t) =~= body);
    if i == end {
        return 0;
    }
    let mut v: u64 = 0;
    while i < end
        invariant
            start <= body_start <= i <= end,
            end <= s@.len(),
            body == s@.subrange(body_start as int, end as int),
            t == s@.subrange(start as int, end as int),
            unsigned_body(t) == body,
            body.len() > 0,
            body.subrange(0, i - body_start) =~= s@.subrange(body_start as int, i as int),
            all_digits(body.subrange(0, i - body_start)),
            v == digits_value(body.subrange(0, i - body_start)),
        decreases end - i,
    {
        let c = s.get_char(i);
        if c < '0' || c > '9' {
            assert(!is_digit(body[i - body_start]));
            return 0;
        }
        let ghost next = body.subrange(0, i + 1 - body_start);
        assert(next.drop_last() =~= body.subrange(0, i - body_start));
        let w: u128 = v as u128 * 10 + (c as u32 - '0' as u32) as u128;
        if w > u64::MAX as u128 {
            proof {
                if all_digits(body) {
                    lemma_digits_value_grows(body, i + 1 - body_start);
                }
            }
            return 0;
        }
        v = w as u64;
        i = i + 1;
    }
    assert(body.subrange(0, end - body_start) =~= body);
    v
}

/// The first three numeric components of a version string.
fn version_triple(s: &str) -> (r: (u64, u64, u64))
    ensures
        r.0 == component(s@, 0),
        r.1 == component(s@, 1),
        r.2 == component(s@, 2),
{
    proof {
        reveal_with_fuel(component_from, 3);
    }
    let n = s.unicode_len();
    let d0 = find_dot_from(s, 0);
    let major = segment_value(s, 0, d0);
    if d0 == n {
        return (major, 0, 0);
    }
    let d1 = find_dot_from(s, d0 + 1);
    let minor = segment_value(s, d0 + 1, d1);
    if d1 == n {
        return (major, minor, 0);
    }
    let d2 = find_dot_from(s, d1 + 1);
    let patch = segment_value(s, d1 + 1, d2);
    (major, minor, patch)
}

/// Compares two version strings by their first three numeric components,
/// treating missing or non-numeric segments as 0. Returns 1 if `a` is newer,
/// -1 if older, 0 if equal.
pub fn semver_compare(a: &str, b: &str) -> (r: i32)
    ensures
        r == version_order(a@, b@),
{
    let (ma, ia, pa) = version_triple(a);
    let (mb, ib, pb) = version_triple(b);
    if ma != mb {
        return if ma > mb {
            1
        } else {
            -1
        };
    }
    if ia != ib {
        return if ia > ib {
            1
        } else {
            -1
        };
    }
    if pa != pb {
        return if pa > pb {
            1
        } else {
            -1
        };
    }
    0
}

/// Message when a release description has no tag.
pub const NO_TAG_MESSAGE: &'static str = "No tag_name in response";

/// Message when a release description has no page URL.
pub const NO_PAGE_MESSAGE: &'static str = "No html_url in response";

/// Builds the update report from a release description: the release tag
/// without leading `v`s is the latest version, compared with `current`; the
/// asset URL is selected from the asset list when there is one.
pub fn update_report(
    current: &str,
    tag_name: Option<String>,
    html_url: Option<String>,
    assets: Option<Vec<ReleaseAsset>>,
    suffixes: &Vec<String>,
) -> (r: Result<UpdateInfo, String>)
    ensures
        tag_name is None ==> (r matches Err(e) && e@ == NO_TAG_MESSAGE@),
        tag_name is Some && html_url is None ==> (r matches Err(e) && e@ == NO_PAGE_MESSAGE@),
        tag_name is Some && html_url is Some ==> (r matches Ok(info) && info.current@ == current@
            && info.latest@ == strip_leading_char(tag_name->0@, 'v') && info.url == html_url->0
            && info.asset_url == match assets {
            Some(a) => picked_asset(a@, suffixes@),
            None => None,
        } && info.is_newer == (version_order(info.latest@, current@) > 0)),
{
    let tag = match tag_name {
        Some(t) => t,
        None => return Err(String::from_str(NO_TAG_MESSAGE)),
    };
    let latest = trim_start_char(tag.as_str(), 'v');
    let url = match html_url {
        Some(u) => u,
        None => return Err(String::from_str(NO_PAGE_MESSAGE)),
    };
    let asset_url = match &assets {
        Some(a) => pick_asset_url(a, suffixes),
        None => None,
    };
    let is_newer = semver_compare(latest, current) > 0;
    Ok(
        UpdateInfo {
            current: String::from_str(current),
            latest: String::from_str(latest),
            url,
            asset_url,
            is_newer,
        },
    )
}

/// The extension of a path as `std::path::Path::extension` gives it: the
/// part of the final file name after its last `.`, if any.
pub uninterp spec fn path_extension(path: Seq<char>) -> Option<Seq<char>>;

/// Relies on `std::path::Path::extension`: the extension of the path's file
/// name, a function of the path text alone.
#[verifier::external_body]
fn extension_of(path: &str) -> (r: Option<String>)
    ensures
        match r {
            Some(e) => path_extension(path@) == Some(e@),
            None => path_extension(path@) is None,
        },
{
    std::path::Path::new(path).extension().and_then(|e| e.to_str()).map(String::from)
}

/// Stem of the file name that a downloaded installer is saved under.
pub const DOWNLOAD_STEM: &'static str = "desktop-runtime-update.";

/// Extension used when the download URL has none.
pub const DEFAULT_EXTENSION: &'static str = "bin";

/// The file name that a download from `url` is saved under: the fixed stem
/// and the URL's extension, or `bin` when it has none.
pub fn download_file_name(url: &str) -> (r: String)
    ensures
        r@ == DOWNLOAD_STEM@ + match path_extension(url@) {
            Some(e) => e,
            None => DEFAULT_EXTENSION@,
        },
{
    let mut name = String::from_str(DOWNLOAD_STEM);
    match extension_of(url) {
        Some(e) => name.append(e.as_str()),
        None => name.append(DEFAULT_EXTENSION),
    }
    name
}

/// Whether an installer is an AppImage, which needs its execute permission
/// set before launch.
pub fn needs_exec_permission(path: &str) -> (r: bool)
    ensures
        r == (has_suffix(path@, ".AppImage"@) || has_suffix(path@, ".appimage"@)),
{
    ends_with(path, ".AppImage") || ends_with(path, ".appimage")
}

/// Address of the project's release list.
pub open spec fn releases_address(repo: Seq<char>) -> Seq<char> {
    "https://github.com/"@ + repo + "/releases"@
}

/// The releases page of `repo` (`owner/name`).
pub fn releases_url(repo: &str) -> (r: String)
    ensures
        r@ == releases_address(repo@),
{
    let mut url = String::from_str("https://github.com/");
    url.append(repo);
    url.append("/releases");
    url
}

/// Version order is antisymmetric, and every version equals itself.
pub proof fn lemma_version_order_antisymmetric(a: Seq<char>, b: Seq<char>)
    ensures
        version_order(a, b) == -version_order(b, a),
        version_order(a, a) == 0,
{
}

/// A version without a `.` has zero minor and patch components: missing
/// trailing segments count as 0.
pub proof fn lemma_missing_segments_are_zero(s: Seq<char>)
    requires
        forall|i: int| 0 <= i < s.len() ==> s[i] != '.',
    ensures
        component(s, 1) == 0,
        component(s, 2) == 0,
{
    lemma_find_dot_bounds(s, 0);
    if find_dot(s, 0) < s.len() {
        assert(s[find_dot(s, 0)] == '.');
    }
}

} // verus!
