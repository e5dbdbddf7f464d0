//! Published releases and their downloadable assets: the structured
//! filename classifier that assigns each asset a target platform, the
//! first-match asset selector, and the exact-tag release lookup.

use vstd::prelude::*;

use crate::config::{target_name, Target};
use crate::error::Error;
use crate::text::{matches_at, pattern_at};
use crate::version::{is_digit_char, Version};

verus! {

/// The platform classification of a release asset's filename.
///
/// `Other` means the filename does not follow the structured pattern at
/// all; such assets (checksums, changelogs) are ignored, not rejected.
#[derive(Clone, Copy, Debug, PartialEq, Eq, Structural)]
pub enum AssetType {
    Android,
    Ios,
    Macos,
    Linux,
    Win64,
    Other,
}

/// A separator between the version part and the platform token.
pub open spec fn is_sep(c: char) -> bool {
    c == '-' || c == '.'
}

/// One of the two engine prefixes, followed by `-`.
pub open spec fn engine_at(s: Seq<char>, i: int) -> bool {
    pattern_at(s, i, "love-"@) || pattern_at(s, i, "lovr-"@)
}

/// The greedy end of a version body (`digits ('.' digits)*`) whose first
/// digit sits just before `j`.
pub open spec fn ver_end(s: Seq<char>, j: int) -> int
    decreases s.len() - j,
{
    if j < s.len() && is_digit_char(s[j]) {
        ver_end(s, j + 1)
    } else if j + 1 < s.len() && s[j] == '.' && is_digit_char(s[j + 1]) {
        ver_end(s, j + 2)
    } else {
        j
    }
}

/// The platform token starting at `k`, with its length.  The tokens are
/// prefix-free, so at most one can occur at any position; every recognized
/// token maps to a platform.
pub open spec fn token_at(s: Seq<char>, k: int) -> Option<(AssetType, int)> {
    if pattern_at(s, k, "android"@) {
        Option::Some((AssetType::Android, 7int))
    } else if pattern_at(s, k, "ios"@) {
        Option::Some((AssetType::Ios, 3int))
    } else if pattern_at(s, k, "macos"@) {
        Option::Some((AssetType::Macos, 5int))
    } else if pattern_at(s, k, "win64"@) {
        Option::Some((AssetType::Win64, 5int))
    } else if pattern_at(s, k, "x86_64"@) {
        Option::Some((AssetType::Linux, 6int))
    } else if pattern_at(s, k, "apk"@) {
        Option::Some((AssetType::Android, 3int))
    } else if pattern_at(s, k, "app"@) {
        Option::Some((AssetType::Macos, 3int))
    } else {
        Option::None
    }
}

/// An extension part at `k`: one arbitrary character followed by `apk`,
/// `zip` or `AppImage`.
pub open spec fn ext_at(s: Seq<char>, k: int) -> bool {
    k < s.len() && (pattern_at(s, k + 1, "apk"@) || pattern_at(s, k + 1, "zip"@) || pattern_at(
        s,
        k + 1,
        "AppImage"@,
    ))
}

/// The platform matched by the full structured pattern
/// `{engine}-{version}{sep}{os-token}{ext}` at position `i`, if any.
pub open spec fn match_at(s: Seq<char>, i: int) -> Option<AssetType> {
    if engine_at(s, i) {
        let j0 = i + 5;
        let j1 = if j0 < s.len() && s[j0] == 'v' {
            j0 + 1
        } else {
            j0
        };
        if j1 < s.len() && is_digit_char(s[j1]) {
            let ve = ver_end(s, j1 + 1);
            if ve < s.len() && is_sep(s[ve]) {
                match token_at(s, ve + 1) {
                    Option::Some((ty, tl)) => if ext_at(s, ve + 1 + tl) {
                        Option::Some(ty)
                    } else {
                        Option::None
                    },
                    Option::None => Option::None,
                }
            } else {
                Option::None
            }
        } else {
            Option::None
        }
    } else {
        Option::None
    }
}

/// The classification of the leftmost match at or after `i`, or `Other`.
pub open spec fn classify_from(s: Seq<char>, i: int) -> AssetType
    decreases s.len() - i,
{
    if 0 <= i && i < s.len() {
        match match_at(s, i) {
            Option::Some(ty) => ty,
            Option::None => classify_from(s, i + 1),
        }
    } else {
        AssetType::Other
    }
}

/// The platform classification of an asset filename.
pub open spec fn classify_spec(s: Seq<char>) -> AssetType {
    classify_from(s, 0)
}

/// Checks the platform token at `k`.
fn token_at_exec(s: &str, k: usize) -> (r: Option<(AssetType, usize)>)
    requires
        k <= s@.len(),
    ensures
        match r {
            Option::Some(p) => token_at(s@, k as int) == Option::Some((p.0, p.1 as int)) && k
                + p.1 <= s@.len(),
            Option::None => token_at(s@, k as int) is None,
        },
{
    proof {
        reveal_strlit("android");
        reveal_strlit("ios");
        reveal_strlit("macos");
        reveal_strlit("win64");
        reveal_strlit("x86_64");
        reveal_strlit("apk");
        reveal_strlit("app");
    }
    if matches_at(s, k, "android") {
        Some((AssetType::Android, 7))
    } else if matches_at(s, k, "ios") {
        Some((AssetType::Ios, 3))
    } else if matches_at(s, k, "macos") {
        Some((AssetType::Macos, 5))
    } else if matches_at(s, k, "win64") {
        Some((AssetType::Win64, 5))
    } else if matches_at(s, k, "x86_64") {
        Some((AssetType::Linux, 6))
    } else if matches_at(s, k, "apk") {
        Some((AssetType::Android, 3))
    } else if matches_at(s, k, "app") {
        Some((AssetType::Macos, 3))
    } else {
        None
    }
}

/// Checks the full structured pattern at position `i`.
fn match_at_exec(s: &str, i: usize, n: usize) -> (r: Option<AssetType>)
    requires
        i < n,
        n == s@.len(),
    ensures
        r == match_at(s@, i as int),
{
    proof {
        reveal_strlit("love-");
        reveal_strlit("lovr-");
    }
    if !(matches_at(s, i, "love-") || matches_at(s, i, "lovr-")) {
        return None;
    }
    let j0 = i + 5;
    let j1: usize = if j0 < n && s.get_char(j0) == 'v' {
        j0 + 1
    } else {
        j0
    };
    if !(j1 < n) {
        return None;
    }
    let c1 = s.get_char(j1) as u32;
    if !(48 <= c1 && c1 <= 57) {
        return None;
    }
    let mut ve: usize = j1 + 1;
    loop
        invariant
            j1 + 1 <= ve <= n,
            n == s@.len(),
            ver_end(s@, j1 + 1 as int) == ver_end(s@, ve as int),
        ensures
            j1 + 1 <= ve <= n,
            ver_end(s@, j1 + 1 as int) == ve as int,
        decreases n - ve,
    {
        if ve < n {
            let c = s.get_char(ve) as u32;
            if 48 <= c && c <= 57 {
                ve = ve + 1;
                continue;
            }
            if ve + 1 < n && s.get_char(ve) == '.' {
                let c2 = s.get_char(ve + 1) as u32;
                if 48 <= c2 && c2 <= 57 {
                    ve = ve + 2;
                    continue;
                }
            }
        }
        break;
    }
    if !(ve < n) {
        return None;
    }
    let sep = s.get_char(ve);
    if !(sep == '-' || sep == '.') {
        return None;
    }
    match token_at_exec(s, ve + 1) {
        Some((ty, tl)) => {
            let k = ve + 1 + tl;
            if k < n && (matches_at(s, k + 1, "apk") || matches_at(s, k + 1, "zip") || matches_at(
                s,
                k + 1,
                "AppImage",
            )) {
                Some(ty)
            } else {
                None
            }
        },
        None => None,
    }
}

/// Classifies a release-asset filename into a target platform by the
/// leftmost occurrence of the structured pattern
/// `{engine}-{version}{sep}{os-token}{ext}`.  A filename that matches the
/// pattern nowhere is `Other`.
pub fn classify(s: &str) -> (r: AssetType)
    ensures
        r == classify_spec(s@),
{
    let n = s.unicode_len();
    let mut i: usize = 0;
    while i < n
        invariant
            0 <= i <= n,
            n == s@.len(),
            classify_from(s@, 0) == classify_from(s@, i as int),
        decreases n - i,
    {
        match match_at_exec(s, i, n) {
            Some(ty) => {
                return ty;
            },
            None => {},
        }
        i = i + 1;
    }
    AssetType::Other
}

/// A raw asset filename together with its derived platform classification.
#[derive(Debug, Clone)]
pub struct AssetName {
    pub name: String,
    pub ty: AssetType,
}

impl AssetName {
    /// Well-formed: the classification is the one derived from the name.
    pub open spec fn wf(&self) -> bool {
        self.ty == classify_spec(self.name@)
    }

    /// Builds an asset name, deriving its platform classification.
    pub fn new(name: String) -> (r: AssetName)
        ensures
            r.wf(),
            r.name == name,
    {
        let ty = classify(name.as_str());
        AssetName { name, ty }
    }
}

/// A single downloadable file attached to a release.
#[derive(Debug, Clone)]
pub struct Asset {
    pub browser_download_url: String,
    pub content_type: String,
    pub created_at: String,
    pub download_count: usize,
    pub id: usize,
    pub name: AssetName,
    pub node_id: String,
    pub size: usize,
    pub state: String,
    pub updated_at: String,
    pub url: String,
}

/// The author record attached to a release.
#[derive(Debug, Clone)]
pub struct Author {
    pub avatar_url: String,
    pub events_url: String,
    pub followers_url: String,
    pub following_url: String,
    pub gists_url: String,
    pub gravatar_id: String,
    pub html_url: String,
    pub id: usize,
    pub login: String,
    pub node_id: String,
    pub organizations_url: String,
    pub received_events_url: String,
    pub repos_url: String,
    pub site_admin: bool,
    pub starred_url: String,
    pub subscriptions_url: String,
    pub ty: String,
    pub url: String,
}

/// A published release, immutable once fetched.
#[derive(Debug, Clone)]
pub struct Release {
    pub id: usize,
    pub draft: bool,
    pub prerelease: bool,
    pub name: String,
    pub assets: Vec<Asset>,
    pub assets_url: String,
    pub author: Author,
    pub created_at: String,
    pub published_at: String,
    pub html_url: String,
    pub tag: Version,
    pub tarball_url: String,
    pub target_commitish: String,
    pub upload_url: String,
    pub url: String,
    pub zipball_url: String,
}

/// The asset classification a target expects.
pub open spec fn target_asset_type(t: Target) -> AssetType {
    match t {
        Target::Win64 => AssetType::Win64,
        Target::Macos => AssetType::Macos,
        Target::Linux => AssetType::Linux,
        Target::Ios => AssetType::Ios,
        Target::Android => AssetType::Android,
    }
}

/// Index of the first asset at or after `i` classified for `t`, or the
/// length if there is none.
pub open spec fn first_asset_from(assets: Seq<Asset>, t: Target, i: int) -> int
    decreases assets.len() - i,
{
    if 0 <= i && i < assets.len() {
        if assets[i].name.ty == target_asset_type(t) {
            i
        } else {
            first_asset_from(assets, t, i + 1)
        }
    } else {
        assets.len() as int
    }
}

impl Release {
    /// Returns the first asset whose classification matches the given host
    /// platform, or `None` when no asset does.
    pub fn get_platform_asset(&self, host: Target) -> (r: Option<&Asset>)
        ensures
            ({
                let k = first_asset_from(self.assets@, host, 0);
                if k < self.assets@.len() {
                    r is Some && r->0 == self.assets@[k]
                } else {
                    r is None
                }
            }),
    {
        let ty = match host {
            Target::Win64 => AssetType::Win64,
            Target::Macos => AssetType::Macos,
            Target::Linux => AssetType::Linux,
            Target::Ios => AssetType::Ios,
            Target::Android => AssetType::Android,
        };
        let n = self.assets.len();
        let mut i: usize = 0;
        while i < n
            invariant
                0 <= i <= n,
                n == self.assets@.len(),
                ty == target_asset_type(host),
                first_asset_from(self.assets@, host, 0) == first_asset_from(
                    self.assets@,
                    host,
                    i as int,
                ),
            decreases n - i,
        {
            if self.assets[i].name.ty == ty {
                return Some(&self.assets[i]);
            }
            i = i + 1;
        }
        None
    }
}

/// Index of the first release at or after `i` whose tag equals `tag`, or
/// the length if there is none.
pub open spec fn first_release_from(releases: Seq<Release>, tag: Version, i: int) -> int
    decreases releases.len() - i,
{
    if 0 <= i && i < releases.len() {
        if releases[i].tag == tag {
            i
        } else {
            first_release_from(releases, tag, i + 1)
        }
    } else {
        releases.len() as int
    }
}

/// Finds the release whose tag is exactly `tag` (not "closest" and not
/// "latest-compatible"); fails with [`Error::ReleaseNotFound`] when no
/// release carries that tag.
pub fn find_release<'a>(releases: &'a Vec<Release>, tag: &Version) -> (r: Result<
    &'a Release,
    Error,
>)
    ensures
        ({
            let k = first_release_from(releases@, *tag, 0);
            if k < releases@.len() {
                r is Ok && r->Ok_0 == releases@[k]
            } else {
                r is Err && r->Err_0 == Error::ReleaseNotFound
            }
        }),
{
    let n = releases.len();
    let mut i: usize = 0;
    while i < n
        invariant
            0 <= i <= n,
            n == releases@.len(),
            first_release_from(releases@, *tag, 0) == first_release_from(
                releases@,
                *tag,
                i as int,
            ),
        decreases n - i,
    {
        if releases[i].tag == *tag {
            return Ok(&releases[i]);
        }
        i = i + 1;
    }
    Err(Error::ReleaseNotFound)
}

/// A client for the release-list endpoint; it only carries the user agent
/// the unverified shell sends with each request.
#[derive(Debug)]
pub struct Client {
    pub user_agent: String,
}

impl Client {
    /// Builds a client that will identify itself with the given user agent.
    pub fn new(user_agent: &str) -> (r: Client)
        ensures
            r.user_agent@ == user_agent@,
    {
        Client { user_agent: String::from_str(user_agent) }
    }

    /// The releases-list endpoint for a repository:
    /// `https://api.github.com/repos/<owner>/<repo>/releases`.
    pub fn releases_url(&self, owner: &str, repo: &str) -> (r: String)
        ensures
            r@ == "https://api.github.com/repos/"@ + owner@ + seq!['/'] + repo@ + "/releases"@,
    {
        proof {
            reveal_strlit("/");
            assert("/"@ =~= seq!['/']);
        }
        let mut out = String::from_str("https://api.github.com/repos/");
        out.append(owner);
        out.append("/");
        out.append(repo);
        out.append("/releases");
        out
    }
}

} // verus!
