//! The install cache: deciding, from the observed on-disk state, what work
//! makes a framework release present and usable for the host platform.
//!
//! The shell around the library observes the cache (does the archive
//! directory exist, is the raw asset cached, what does the version marker
//! say), hands the observation in, and receives a plan: whether to create
//! the archive directory, whether to download, whether to unpack or rename,
//! and whether to (re)write the version marker.  The marker is written only
//! after the unpack or rename succeeded, so it never names a version whose
//! extracted tree is absent.

use vstd::prelude::*;

use crate::config::Target;
use crate::error::Error;
use crate::release::{first_asset_from, Asset, Release};
use crate::text::{ends_with_str, has_suffix};
use crate::version::Version;

verus! {

/// The observed state of the per-OS cache directory for one framework.
#[derive(Clone, Copy, Debug, PartialEq, Eq, Structural)]
pub struct CacheState {
    /// The `.archive` download directory exists.
    pub archive_dir_exists: bool,
    /// The raw asset file is already on disk in the archive directory.
    pub asset_cached: bool,
    /// The version the marker file names, or `None` when there is no
    /// marker file.
    pub marker: Option<Version>,
}

/// How the cached asset is turned into a usable install.
#[derive(Clone, Copy, Debug, PartialEq, Eq, Structural)]
pub enum InstallAction {
    /// A zip container: fully remove any extracted tree, recreate it, and
    /// extract every entry, flattened.
    Unpack,
    /// A single self-contained artifact: rename the cached file in place
    /// to its canonical name.
    RenameSingle,
    /// Nothing to unpack.
    NoAction,
}

/// The work that makes the cache correct for a requested version, in
/// order: create the archive directory, download the asset, perform the
/// action, then write the marker.
#[derive(Clone, Copy, Debug, PartialEq, Eq, Structural)]
pub struct InstallPlan {
    pub create_archive_dir: bool,
    pub download: bool,
    pub action: InstallAction,
    pub write_marker: bool,
}

/// The plan for an observed cache state: the cache is already correct —
/// nothing is unpacked and the marker stays untouched — exactly when the
/// asset is cached and the marker names the requested version; otherwise
/// the asset decides the action by its suffix and the marker is rewritten.
pub open spec fn plan_spec(asset_name: Seq<char>, s: CacheState, requested: Version) -> InstallPlan {
    let fresh = s.asset_cached && s.marker == Option::Some(requested);
    InstallPlan {
        create_archive_dir: !s.archive_dir_exists,
        download: !s.asset_cached,
        action: if fresh {
            InstallAction::NoAction
        } else if has_suffix(asset_name, ".zip"@) {
            InstallAction::Unpack
        } else if has_suffix(asset_name, ".AppImage"@) {
            InstallAction::RenameSingle
        } else {
            InstallAction::NoAction
        },
        write_marker: !fresh,
    }
}

/// Computes the install plan for one asset and one observed cache state.
pub fn plan_install(asset_name: &str, state: &CacheState, requested: &Version) -> (r: InstallPlan)
    ensures
        r == plan_spec(asset_name@, *state, *requested),
{
    let fresh = state.asset_cached && (match state.marker {
        Some(m) => m == *requested,
        None => false,
    });
    let action = if fresh {
        InstallAction::NoAction
    } else if ends_with_str(asset_name, ".zip") {
        InstallAction::Unpack
    } else if ends_with_str(asset_name, ".AppImage") {
        InstallAction::RenameSingle
    } else {
        InstallAction::NoAction
    };
    InstallPlan {
        create_archive_dir: !state.archive_dir_exists,
        download: !state.asset_cached,
        action,
        write_marker: !fresh,
    }
}

/// The cache state after a plan ran to completion for the requested
/// version.
pub open spec fn apply_plan(s: CacheState, p: InstallPlan, requested: Version) -> CacheState {
    CacheState {
        archive_dir_exists: s.archive_dir_exists || p.create_archive_dir,
        asset_cached: s.asset_cached || p.download,
        marker: if p.write_marker {
            Option::Some(requested)
        } else {
            s.marker
        },
    }
}

/// Running the installer twice in succession with an unchanged requested
/// version downloads at most once — exactly once when the asset was not
/// yet cached — and the second run is a complete no-op: no download, no
/// unpack, and the version marker left unchanged.
pub proof fn lemma_install_idempotent(asset_name: Seq<char>, s: CacheState, requested: Version)
    ensures
        ({
            let p1 = plan_spec(asset_name, s, requested);
            let s1 = apply_plan(s, p1, requested);
            let p2 = plan_spec(asset_name, s1, requested);
            &&& p1.download == !s.asset_cached
            &&& !p2.download
            &&& !p2.write_marker
            &&& p2.action is NoAction
            &&& apply_plan(s1, p2, requested) == s1
        }),
{
}

/// The on-disk layout of the cache for one framework on one OS.
pub struct CachePaths {
    /// `<cache-root>/<os>`
    pub base: String,
    /// `<base>/.archive` — raw downloads
    pub archive_dir: String,
    /// `<base>/.<framework>-version` — the version marker
    pub version_file: String,
    /// `<archive dir>/<asset filename>` — the cached raw asset
    pub asset_file: String,
    /// `<base>/<framework>` — the flattened extracted tree
    pub tree_dir: String,
}

/// Derives the cache layout for a framework name, an OS name, and an
/// asset filename under the given cache root.
pub fn cache_paths(root: &str, os: &str, name: &str, asset_name: &str) -> (r: CachePaths)
    ensures
        r.base@ == root@ + seq!['/'] + os@,
        r.archive_dir@ == r.base@ + "/.archive"@,
        r.version_file@ == r.base@ + "/."@ + name@ + "-version"@,
        r.asset_file@ == r.archive_dir@ + seq!['/'] + asset_name@,
        r.tree_dir@ == r.base@ + seq!['/'] + name@,
{
    proof {
        reveal_strlit("/");
        assert("/"@ =~= seq!['/']);
    }
    let mut base = String::from_str(root);
    base.append("/");
    base.append(os);

    let mut archive_dir = base.clone();
    archive_dir.append("/.archive");

    let mut version_file = base.clone();
    version_file.append("/.");
    version_file.append(name);
    version_file.append("-version");

    let mut asset_file = archive_dir.clone();
    asset_file.append("/");
    asset_file.append(asset_name);

    let mut tree_dir = base.clone();
    tree_dir.append("/");
    tree_dir.append(name);

    CachePaths { base, archive_dir, version_file, asset_file, tree_dir }
}

impl Release {
    /// Decides the install work for this release on the given host: fails
    /// with [`Error::AssetNotFound`] exactly when no asset matches the
    /// host platform, before any of the steps run; otherwise returns the
    /// selected asset and the plan for it against the observed cache.
    pub fn install_plan<'a>(&'a self, host: Target, state: &CacheState) -> (r: Result<
        (&'a Asset, InstallPlan),
        Error,
    >)
        ensures
            ({
                let k = first_asset_from(self.assets@, host, 0);
                if k < self.assets@.len() {
                    r is Ok && r->Ok_0.0 == self.assets@[k] && r->Ok_0.1 == plan_spec(
                        self.assets@[k].name.name@,
                        *state,
                        self.tag,
                    )
                } else {
                    r is Err && r->Err_0 == Error::AssetNotFound
                }
            }),
    {
        match self.get_platform_asset(host) {
            Some(asset) => {
                let plan = plan_install(asset.name.name.as_str(), state, &self.tag);
                Ok((asset, plan))
            },
            None => Err(Error::AssetNotFound),
        }
    }
}

} // verus!
