//! The build configuration model: the project, the supported frameworks,
//! the build targets and their settings, and the on-disk install locations
//! derived from them.
//!
//! The cache root is an explicit value handed in by the caller; nothing here
//! reads the process environment.

use vstd::prelude::*;

use crate::error::Error;
use crate::version::Version;

verus! {

/// An enumerated engine identity: exactly the set the tool supports.
#[derive(Clone, Copy, Debug, PartialEq, Eq, Structural)]
pub enum Framework {
    Love,
    Lovr,
}

/// An enumerated platform a build can be produced for.
#[derive(Clone, Copy, Debug, PartialEq, Eq, Structural)]
pub enum Target {
    Win64,
    Macos,
    Linux,
    Ios,
    Android,
}

/// The project section of a configuration.
#[derive(Debug, Clone)]
pub struct Project {
    /// Name of the project.
    ///
    /// This is used when naming final executables and directories.
    pub name: String,
    /// Icon to use when a more specific icon is not specified.
    pub icon: Option<String>,
}

/// The user-declared intent for one framework: which version to build with
/// and which targets to build for.
#[derive(Debug, Clone)]
pub struct Build {
    /// Version of the framework to use when building.
    pub version: Version,
    /// Optional list of targets to build for.
    ///
    /// When empty, only the host platform is built.
    pub targets: Vec<Target>,
}

/// Per-target build settings.
#[derive(Debug, Clone)]
pub struct Settings {
    /// Specific icon to use when building for this target.
    pub icon: Option<String>,
}

/// A parsed build configuration.
///
/// `build` and `target` associate at most one entry with each framework or
/// target; [`Config::wf`] states that invariant.
#[derive(Debug)]
pub struct Config {
    pub project: Project,
    pub build: Vec<(Framework, Build)>,
    pub target: Vec<(Target, Settings)>,
}

impl Config {
    /// Each framework and each target appears at most once.
    pub open spec fn wf(&self) -> bool {
        &&& forall|i: int, j: int|
            0 <= i < j < self.build@.len() ==> (#[trigger] self.build@[i]).0 != (
            #[trigger] self.build@[j]).0
        &&& forall|i: int, j: int|
            0 <= i < j < self.target@.len() ==> (#[trigger] self.target@[i]).0 != (
            #[trigger] self.target@[j]).0
    }

    /// A configuration with the given project name and no build entries.
    pub fn new(name: String) -> (r: Config)
        ensures
            r.wf(),
            r.project.name == name,
            r.project.icon is None,
            r.build@.len() == 0,
            r.target@.len() == 0,
    {
        Config { project: Project { name, icon: None }, build: Vec::new(), target: Vec::new() }
    }
}

/// The textual name of a target, as used in paths and asset lookups.
pub open spec fn target_name(t: Target) -> Seq<char> {
    match t {
        Target::Win64 => "windows"@,
        Target::Macos => "macos"@,
        Target::Linux => "linux"@,
        Target::Ios => "ios"@,
        Target::Android => "android"@,
    }
}

/// The textual name of a framework.
pub open spec fn framework_name(f: Framework) -> Seq<char> {
    match f {
        Framework::Love => "love"@,
        Framework::Lovr => "lovr"@,
    }
}

/// The GitHub owner of a framework's releases.
pub open spec fn framework_owner(f: Framework) -> Seq<char> {
    match f {
        Framework::Love => "love2d"@,
        Framework::Lovr => "bjornbytes"@,
    }
}

/// The minimum framework version a build may request.
pub open spec fn framework_min_version(f: Framework) -> Version {
    match f {
        Framework::Love => Version { major: 11, minor: 0, patch: Option::None },
        Framework::Lovr => Version { major: 0, minor: 15, patch: Option::Some(0usize) },
    }
}

/// The latest known release of a framework.
pub open spec fn framework_latest(f: Framework) -> Version {
    match f {
        Framework::Love => Version { major: 11, minor: 5, patch: Option::None },
        Framework::Lovr => Version { major: 0, minor: 17, patch: Option::Some(0usize) },
    }
}

/// The directory a framework release is installed to for a target:
/// `<data-root>/<target>/<framework>`.
pub open spec fn install_path(root: Seq<char>, f: Framework, t: Target) -> Seq<char> {
    root + seq!['/'] + target_name(t) + seq!['/'] + framework_name(f)
}

/// The interpreter executable inside an installed framework:
/// `<install path>/<framework>.exe`.
pub open spec fn exe_path(root: Seq<char>, f: Framework, t: Target) -> Seq<char> {
    install_path(root, f, t) + seq!['/'] + framework_name(f) + ".exe"@
}

impl Target {
    /// The textual name of the target.
    pub fn name(&self) -> (r: &'static str)
        ensures
            r@ == target_name(*self),
    {
        match self {
            Target::Win64 => "windows",
            Target::Macos => "macos",
            Target::Linux => "linux",
            Target::Ios => "ios",
            Target::Android => "android",
        }
    }

    /// The target whose name is `os`, if any; the host default is obtained
    /// by passing the host operating-system name.
    pub fn from_os_name(os: &str) -> (r: Option<Target>)
        ensures
            r is Some ==> os@ == target_name(r->0),
            r is None ==> forall|t: Target| os@ != target_name(t),
    {
        if crate::text::str_eq(os, "windows") {
            Some(Target::Win64)
        } else if crate::text::str_eq(os, "macos") {
            Some(Target::Macos)
        } else if crate::text::str_eq(os, "linux") {
            Some(Target::Linux)
        } else if crate::text::str_eq(os, "ios") {
            Some(Target::Ios)
        } else if crate::text::str_eq(os, "android") {
            Some(Target::Android)
        } else {
            proof {
                assert forall|t: Target| os@ != target_name(t) by {
                    match t {
                        Target::Win64 => {},
                        Target::Macos => {},
                        Target::Linux => {},
                        Target::Ios => {},
                        Target::Android => {},
                    }
                }
            }
            None
        }
    }
}

impl Framework {
    /// The textual name of the framework.
    pub fn name(&self) -> (r: &'static str)
        ensures
            r@ == framework_name(*self),
    {
        match self {
            Framework::Love => "love",
            Framework::Lovr => "lovr",
        }
    }

    /// The framework whose textual name is `s`, if any.
    pub fn from_name(s: &str) -> (r: Result<Framework, Error>)
        ensures
            r is Ok ==> s@ == framework_name(r->Ok_0),
            r is Err ==> r->Err_0 == Error::Parse && (forall|f: Framework|
                s@ != framework_name(f)),
    {
        if crate::text::str_eq(s, "love") {
            Ok(Framework::Love)
        } else if crate::text::str_eq(s, "lovr") {
            Ok(Framework::Lovr)
        } else {
            proof {
                assert forall|f: Framework| s@ != framework_name(f) by {
                    match f {
                        Framework::Love => {},
                        Framework::Lovr => {},
                    }
                }
            }
            Err(Error::Parse)
        }
    }

    /// The GitHub owner of the framework's repository.
    pub fn owner(&self) -> (r: &'static str)
        ensures
            r@ == framework_owner(*self),
    {
        match self {
            Framework::Love => "love2d",
            Framework::Lovr => "bjornbytes",
        }
    }

    /// The GitHub repository holding the framework's releases; it carries
    /// the framework's own name.
    pub fn repo(&self) -> (r: &'static str)
        ensures
            r@ == framework_name(*self),
    {
        match self {
            Framework::Love => "love",
            Framework::Lovr => "lovr",
        }
    }

    /// The minimum supported version of the framework.
    pub fn min_version(&self) -> (v: Version)
        ensures
            v == framework_min_version(*self),
    {
        match self {
            Framework::Love => Version::min_love_version(),
            Framework::Lovr => Version::min_lovr_version(),
        }
    }

    /// The latest known version of the framework.
    pub fn latest(&self) -> (v: Version)
        ensures
            v == framework_latest(*self),
    {
        match self {
            Framework::Love => Version::latest_love_version(),
            Framework::Lovr => Version::latest_lovr_version(),
        }
    }

    /// The on-disk install directory for this framework and target under
    /// the given data root.
    pub fn path(&self, data_root: &str, target: Target) -> (r: String)
        ensures
            r@ == install_path(data_root@, *self, target),
    {
        proof {
            reveal_strlit("/");
            assert("/"@ =~= seq!['/']);
        }
        let mut out = String::from_str(data_root);
        out.append("/");
        out.append(target.name());
        out.append("/");
        out.append(self.name());
        proof {
            assert(out@ =~= install_path(data_root@, *self, target));
        }
        out
    }

    /// The pristine cached interpreter executable for this framework and
    /// target under the given data root.
    pub fn exe(&self, data_root: &str, target: Target) -> (r: String)
        ensures
            r@ == exe_path(data_root@, *self, target),
    {
        proof {
            reveal_strlit("/");
            assert("/"@ =~= seq!['/']);
        }
        let mut out = self.path(data_root, target);
        out.append("/");
        out.append(self.name());
        out.append(".exe");
        proof {
            assert(out@ =~= exe_path(data_root@, *self, target));
        }
        out
    }
}

} // verus!
