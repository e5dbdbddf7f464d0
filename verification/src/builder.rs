//! The executable fuser and the per-target build pipeline.
//!
//! A build fuses a compressed payload of the project source tree onto the
//! tail of a copied interpreter executable — payload bytes immediately
//! after the executable's last byte, with no separator and no padding —
//! and then packages the per-target output directory into the final
//! distributable archive.  The pipeline state machine records the
//! partial-failure policy: a failed stage is recorded and later stages of
//! the same target still run, except that a target whose output directory
//! could not be created is aborted; targets never affect one another.

use vstd::prelude::*;

use crate::archive::{
    archive_entries_of, has_bad_path, tree_view, tree_wf, write_dir, zip_bytes_of, FsEntry,
};
use crate::config::{framework_min_version, framework_name, target_name, Build, Config, Framework,
    Target};
use crate::error::Error;
use crate::install::{plan_spec, InstallPlan};
use crate::release::{first_asset_from, first_release_from, Asset, Release};
use crate::text::{has_suffix, str_eq};
use crate::version::version_lt;

verus! {

/// Fuses a payload onto the tail of an executable: the result is the
/// executable's bytes immediately followed by the payload's bytes, with
/// no separator and no padding.
pub fn fuse(exe: &Vec<u8>, payload: &Vec<u8>) -> (r: Vec<u8>)
    ensures
        r@ == exe@ + payload@,
{
    let mut out: Vec<u8> = Vec::new();
    let n = exe.len();
    let mut i: usize = 0;
    while i < n
        invariant
            0 <= i <= n,
            n == exe@.len(),
            out@ == exe@.subrange(0, i as int),
        decreases n - i,
    {
        out.push(exe[i]);
        proof {
            assert(exe@.subrange(0, i + 1 as int) =~= exe@.subrange(0, i as int).push(
                exe@[i as int],
            ));
        }
        i = i + 1;
    }
    proof {
        assert(out@ =~= exe@);
    }
    let m = payload.len();
    let mut j: usize = 0;
    while j < m
        invariant
            0 <= j <= m,
            m == payload@.len(),
            out@ == exe@ + payload@.subrange(0, j as int),
        decreases m - j,
    {
        out.push(payload[j]);
        proof {
            assert(exe@ + payload@.subrange(0, j + 1 as int) =~= (exe@ + payload@.subrange(
                0,
                j as int,
            )).push(payload@[j as int]));
        }
        j = j + 1;
    }
    proof {
        assert(out@ =~= exe@ + payload@);
    }
    out
}

/// The views of a list of strings.
pub open spec fn strs_view(v: Seq<String>) -> Seq<Seq<char>> {
    v.map_values(|s: String| s@)
}

/// The names that carry the dynamic-library suffix, in order.
pub open spec fn dll_filter(v: Seq<Seq<char>>) -> Seq<Seq<char>>
    decreases v.len(),
{
    if v.len() == 0 {
        Seq::<Seq<char>>::empty()
    } else {
        let rest = dll_filter(v.drop_last());
        if has_suffix(v.last(), ".dll"@) {
            rest.push(v.last())
        } else {
            rest
        }
    }
}

/// The stages of one target's pipeline, in order.
#[derive(Clone, Copy, Debug, PartialEq, Eq, Structural)]
pub enum Stage {
    Install,
    PrepareOutput,
    CopyLibraries,
    BuildExecutable,
    Package,
    Done,
}

/// The running state of one target's pipeline.
#[derive(Clone, Copy, Debug, PartialEq, Eq, Structural)]
pub struct PipelineState {
    /// The next stage to run.
    pub stage: Stage,
    /// Some stage has failed.
    pub failed: bool,
    /// The remaining stages were skipped because the output directory
    /// could not be created.
    pub aborted: bool,
}

pub open spec fn pipeline_spec_start() -> PipelineState {
    PipelineState { stage: Stage::Install, failed: false, aborted: false }
}

/// The state after the current stage reported `ok`: a failure is
/// recorded and the pipeline moves on, except that a failure to prepare
/// the output directory aborts the target's remaining stages.
pub open spec fn pipeline_next(st: PipelineState, ok: bool) -> PipelineState {
    match st.stage {
        Stage::Install => PipelineState {
            stage: Stage::PrepareOutput,
            failed: st.failed || !ok,
            aborted: st.aborted,
        },
        Stage::PrepareOutput => if ok {
            PipelineState { stage: Stage::CopyLibraries, failed: st.failed, aborted: st.aborted }
        } else {
            PipelineState { stage: Stage::Done, failed: true, aborted: true }
        },
        Stage::CopyLibraries => PipelineState {
            stage: Stage::BuildExecutable,
            failed: st.failed || !ok,
            aborted: st.aborted,
        },
        Stage::BuildExecutable => PipelineState {
            stage: Stage::Package,
            failed: st.failed || !ok,
            aborted: st.aborted,
        },
        Stage::Package => PipelineState {
            stage: Stage::Done,
            failed: st.failed || !ok,
            aborted: st.aborted,
        },
        Stage::Done => st,
    }
}

/// A fresh pipeline for one target.
pub fn pipeline_start() -> (r: PipelineState)
    ensures
        r == pipeline_spec_start(),
{
    PipelineState { stage: Stage::Install, failed: false, aborted: false }
}

/// Advances one target's pipeline by the outcome of its current stage.
pub fn pipeline_step(st: &PipelineState, ok: bool) -> (r: PipelineState)
    ensures
        r == pipeline_next(*st, ok),
{
    match st.stage {
        Stage::Install => PipelineState {
            stage: Stage::PrepareOutput,
            failed: st.failed || !ok,
            aborted: st.aborted,
        },
        Stage::PrepareOutput => if ok {
            PipelineState { stage: Stage::CopyLibraries, failed: st.failed, aborted: st.aborted }
        } else {
            PipelineState { stage: Stage::Done, failed: true, aborted: true }
        },
        Stage::CopyLibraries => PipelineState {
            stage: Stage::BuildExecutable,
            failed: st.failed || !ok,
            aborted: st.aborted,
        },
        Stage::BuildExecutable => PipelineState {
            stage: Stage::Package,
            failed: st.failed || !ok,
            aborted: st.aborted,
        },
        Stage::Package => PipelineState {
            stage: Stage::Done,
            failed: st.failed || !ok,
            aborted: st.aborted,
        },
        Stage::Done => *st,
    }
}

/// Whether a finished target counts as passed.
pub fn target_passed(st: &PipelineState) -> (r: bool)
    ensures
        r == (st.stage is Done && !st.failed),
{
    match st.stage {
        Stage::Done => !st.failed,
        _ => false,
    }
}

/// The partial-failure policy, end to end: running the five stages with
/// the given outcomes always reaches the end; the target fails exactly
/// when some stage failed; and only an output-directory failure aborts.
/// A target's outcome is a function of its own stage results alone, so a
/// failure in one target cannot affect any other.
pub proof fn lemma_pipeline_policy(a: bool, b: bool, c: bool, d: bool, e: bool)
    ensures
        ({
            let s = pipeline_next(
                pipeline_next(
                    pipeline_next(pipeline_next(pipeline_next(pipeline_spec_start(), a), b), c),
                    d,
                ),
                e,
            );
            &&& s.stage is Done
            &&& (s.failed <==> !(a && b && c && d && e))
            &&& (s.aborted <==> !b)
        }),
{
}

/// Builds the project for one framework, based on the framework's build
/// settings and the project configuration.
#[derive(Debug)]
pub struct Builder {
    /// The project root directory.
    pub root: String,
    /// The project name, used to name executables and archives.
    pub project_name: String,
    pub framework: Framework,
    pub build: Build,
}

/// What fusing the project source onto the interpreter produced.
#[derive(Debug)]
pub struct BuildArtifacts {
    /// `<project>.exe` — the fused executable's file name.
    pub exe_name: String,
    /// `<project>.<framework>` — the name for the compressed payload.
    pub payload_name: String,
    /// The fused executable: interpreter bytes, then payload bytes.
    pub fused: Vec<u8>,
}

/// The final distributable archive for one target.
#[derive(Debug)]
pub struct PackageOut {
    /// `<project>.zip` — the archive's file name.
    pub zip_name: String,
    /// The archive's bytes.
    pub bytes: Vec<u8>,
}

impl Builder {
    /// A builder for one framework's build entry, rooted at the project
    /// directory.
    pub fn new(framework: Framework, build: Build, config: &Config, root: &str) -> (r: Builder)
        ensures
            r.framework == framework,
            r.build == build,
            r.project_name@ == config.project.name@,
            r.root@ == root@,
    {
        Builder {
            root: String::from_str(root),
            project_name: config.project.name.clone(),
            framework,
            build,
        }
    }

    /// The targets this build covers: the declared list, or the host
    /// platform alone when the list is empty.
    pub fn effective_targets(&self, host: Target) -> (r: Vec<Target>)
        ensures
            self.build.targets@.len() > 0 ==> r@ == self.build.targets@,
            self.build.targets@.len() == 0 ==> r@ == seq![host],
    {
        if self.build.targets.len() > 0 {
            self.build.targets.clone()
        } else {
            let mut v: Vec<Target> = Vec::new();
            v.push(host);
            proof {
                assert(v@ =~= seq![host]);
            }
            v
        }
    }

    /// Fails with [`Error::Version`] exactly when the requested build
    /// version is below the framework minimum; runs before any network or
    /// file-system activity.
    pub fn gate(&self) -> (r: Result<(), Error>)
        ensures
            r is Ok <==> !version_lt(self.build.version, framework_min_version(self.framework)),
            r is Err ==> r->Err_0 == Error::Version,
    {
        let min = self.framework.min_version();
        crate::version::gate(&self.build.version, &min)
    }

    /// Decides the install work for this build against the fetched
    /// releases: the version gate first, then the exact-tag release
    /// lookup, then the host asset and its plan against the observed
    /// cache.  Each error names the first check that failed.
    pub fn ensure_framework_installed<'a>(
        &self,
        releases: &'a Vec<Release>,
        host: Target,
        state: &crate::install::CacheState,
    ) -> (r: Result<(&'a Asset, InstallPlan), Error>)
        ensures
            version_lt(self.build.version, framework_min_version(self.framework)) <==> (r is Err
                && r->Err_0 == Error::Version),
            !version_lt(self.build.version, framework_min_version(self.framework)) ==> ({
                let k = first_release_from(releases@, self.build.version, 0);
                if k < releases@.len() {
                    let rel = releases@[k];
                    let a = first_asset_from(rel.assets@, host, 0);
                    if a < rel.assets@.len() {
                        r is Ok && r->Ok_0.0 == rel.assets@[a] && r->Ok_0.1 == plan_spec(
                            rel.assets@[a].name.name@,
                            *state,
                            rel.tag,
                        )
                    } else {
                        r is Err && r->Err_0 == Error::AssetNotFound
                    }
                } else {
                    r is Err && r->Err_0 == Error::ReleaseNotFound
                }
            }),
    {
        match self.gate() {
            Ok(()) => {},
            Err(e) => {
                return Err(e);
            },
        }
        let release = match crate::release::find_release(releases, &self.build.version) {
            Ok(rel) => rel,
            Err(e) => {
                return Err(e);
            },
        };
        release.install_plan(host, state)
    }

    /// The per-target output directory:
    /// `<root>/build/<framework>/<target>`.  The shell removes and
    /// recreates it before the remaining stages run.
    pub fn output_dir(&self, target: Target) -> (r: String)
        ensures
            r@ == self.root@ + "/build/"@ + framework_name(self.framework) + seq!['/']
                + target_name(target),
    {
        proof {
            reveal_strlit("/");
            assert("/"@ =~= seq!['/']);
        }
        let mut out = self.root.clone();
        out.append("/build/");
        out.append(self.framework.name());
        out.append("/");
        out.append(target.name());
        out
    }

    /// Selects, from the names in the framework's install directory, the
    /// dynamic libraries to copy beside the executable, in order.
    pub fn copy_files(&self, names: &Vec<String>) -> (r: Vec<String>)
        ensures
            strs_view(r@) == dll_filter(strs_view(names@)),
    {
        let n = names.len();
        let mut out: Vec<String> = Vec::new();
        let mut i: usize = 0;
        while i < n
            invariant
                0 <= i <= n,
                n == names@.len(),
                strs_view(out@) =~= dll_filter(strs_view(names@.subrange(0, i as int))),
            decreases n - i,
        {
            proof {
                assert(strs_view(names@.subrange(0, i + 1 as int)).drop_last() =~= strs_view(
                    names@.subrange(0, i as int),
                ));
                assert(strs_view(names@.subrange(0, i + 1 as int)).last() == names@[i as int]@);
            }
            if crate::text::ends_with_str(names[i].as_str(), ".dll") {
                let name = names[i].clone();
                proof {
                    assert(strs_view(out@.push(name)) =~= strs_view(out@).push(name@));
                }
                out.push(name);
            }
            i = i + 1;
        }
        proof {
            assert(names@.subrange(0, n as int) =~= names@);
            assert(strs_view(names@.subrange(0, n as int)) =~= strs_view(names@));
        }
        out
    }

    /// Archives the project source tree into a compressed payload and
    /// fuses it onto the tail of the pristine interpreter executable.
    /// Only the primary target is implemented; every other target is an
    /// explicit unsupported-target error, never a silent no-op.  The
    /// payload is held in memory and fused directly, so no temporary
    /// payload file is left behind.
    pub fn build_executable(&self, target: Target, src_tree: &Vec<FsEntry>, exe: &Vec<u8>) -> (r:
        Result<BuildArtifacts, Error>)
        requires
            tree_wf(tree_view(src_tree@)),
        ensures
            !(target is Win64) <==> (r is Err && r->Err_0 == Error::UnsupportedTarget),
            target is Win64 ==> (has_bad_path(tree_view(src_tree@), Option::None, true) <==> (
            r is Err && r->Err_0 == Error::PathEncoding)),
            r is Ok ==> r->Ok_0.exe_name@ == self.project_name@ + ".exe"@,
            r is Ok ==> r->Ok_0.payload_name@ == self.project_name@ + seq!['.'] + framework_name(
                self.framework,
            ),
            r is Ok ==> r->Ok_0.fused@ == exe@ + zip_bytes_of(
                archive_entries_of(tree_view(src_tree@), Option::None, true),
            ),
            r is Err ==> r->Err_0 == Error::UnsupportedTarget || r->Err_0 == Error::PathEncoding
                || r->Err_0 == Error::Filesystem,
    {
        match target {
            Target::Win64 => {},
            _ => {
                return Err(Error::UnsupportedTarget);
            },
        }
        let payload = match write_dir(src_tree, None, true) {
            Ok(bytes) => bytes,
            Err(e) => {
                return Err(e);
            },
        };
        let fused = fuse(exe, &payload);
        let mut exe_name = self.project_name.clone();
        exe_name.append(".exe");
        let mut payload_name = self.project_name.clone();
        payload_name.append(".");
        proof {
            reveal_strlit(".");
            assert("."@ =~= seq!['.']);
        }
        payload_name.append(self.framework.name());
        Ok(BuildArtifacts { exe_name, payload_name, fused })
    }

    /// The per-target customization hook (icon embedding).  It is a no-op
    /// on the primary target and an explicit unsupported-target error
    /// everywhere else.
    pub fn apply_customizations(&self, target: Target) -> (r: Result<(), Error>)
        ensures
            r is Ok <==> target is Win64,
            r is Err ==> r->Err_0 == Error::UnsupportedTarget,
    {
        match target {
            Target::Win64 => Ok(()),
            _ => Err(Error::UnsupportedTarget),
        }
    }

    /// Packages the per-target output directory into the final
    /// distributable archive `<project>.zip`, walking the directory
    /// non-recursively and never including the archive being written.
    pub fn package(&self, target: Target, out_tree: &Vec<FsEntry>) -> (r: Result<
        PackageOut,
        Error,
    >)
        requires
            tree_wf(tree_view(out_tree@)),
        ensures
            !(target is Win64) <==> (r is Err && r->Err_0 == Error::UnsupportedTarget),
            r is Ok ==> r->Ok_0.zip_name@ == self.project_name@ + ".zip"@,
            r is Ok ==> r->Ok_0.bytes@ == zip_bytes_of(
                archive_entries_of(
                    tree_view(out_tree@),
                    Option::Some(self.project_name@ + ".zip"@),
                    false,
                ),
            ),
            target is Win64 ==> (has_bad_path(
                tree_view(out_tree@),
                Option::Some(self.project_name@ + ".zip"@),
                false,
            ) <==> (r is Err && r->Err_0 == Error::PathEncoding)),
            r is Err ==> r->Err_0 == Error::UnsupportedTarget || r->Err_0 == Error::PathEncoding
                || r->Err_0 == Error::Filesystem,
    {
        match target {
            Target::Win64 => {},
            _ => {
                return Err(Error::UnsupportedTarget);
            },
        }
        let mut zip_name = self.project_name.clone();
        zip_name.append(".zip");
        let bytes = match write_dir(out_tree, Some(zip_name.as_str()), false) {
            Ok(bytes) => bytes,
            Err(e) => {
                return Err(e);
            },
        };
        Ok(PackageOut { zip_name, bytes })
    }
}

/// Checks that a tree is well formed, so unverified callers can test the
/// encoder's precondition before asking for an archive.
pub fn check_tree(tree: &Vec<FsEntry>) -> (r: bool)
    ensures
        r == tree_wf(tree_view(tree@)),
{
    let n = tree.len();
    let mut i: usize = 0;
    while i < n
        invariant
            0 <= i <= n,
            n == tree@.len(),
            forall|k: int|
                0 <= k < i ==> safe_entry_holds(#[trigger] tree_view(tree@)[k]),
            forall|k: int, j: int|
                0 <= k < j < i ==> (#[trigger] tree_view(tree@)[k]).rel_path != (
                #[trigger] tree_view(tree@)[j]).rel_path,
        decreases n - i,
    {
        let e = &tree[i];
        proof {
            assert(tree_view(tree@)[i as int] == tree@[i as int]@);
        }
        if !entry_ok(e) {
            proof {
                assert(!safe_entry_holds(tree_view(tree@)[i as int]));
            }
            return false;
        }
        let mut j: usize = 0;
        while j < i
            invariant
                0 <= j <= i < n,
                n == tree@.len(),
                forall|k: int|
                    0 <= k < j ==> (#[trigger] tree_view(tree@)[k]).rel_path != tree_view(
                        tree@,
                    )[i as int].rel_path,
            decreases i - j,
        {
            proof {
                assert(tree_view(tree@)[j as int] == tree@[j as int]@);
                assert(tree_view(tree@)[i as int] == tree@[i as int]@);
            }
            if str_eq(tree[j].rel_path.as_str(), tree[i].rel_path.as_str()) {
                proof {
                    assert(tree_view(tree@)[j as int].rel_path == tree_view(
                        tree@,
                    )[i as int].rel_path);
                }
                return false;
            }
            j = j + 1;
        }
        i = i + 1;
    }
    proof {
        assert(tree_wf(tree_view(tree@)));
    }
    true
}

/// The per-entry half of [`tree_wf`].
pub open spec fn safe_entry_holds(e: crate::archive::FsEntryV) -> bool {
    crate::archive::safe_name(e.rel_path) && e.rel_path.last() != '/' && e.rel_path.last() != '\\'
        && (e.is_dir ==> e.data.len() == 0)
}

/// Checks the per-entry half of [`tree_wf`] for one entry.
fn entry_ok(e: &FsEntry) -> (r: bool)
    ensures
        r == safe_entry_holds(e@),
{
    let n = e.rel_path.as_str().unicode_len();
    if n == 0 {
        return false;
    }
    let last = e.rel_path.as_str().get_char(n - 1);
    if last == '/' || last == '\\' {
        return false;
    }
    if e.is_dir && e.data.len() > 0 {
        return false;
    }
    crate::archive::safe_name_check(e.rel_path.as_str())
}

} // verus!
