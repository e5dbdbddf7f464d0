//! The error kinds a build pipeline can report.

use vstd::prelude::*;

verus! {

/// Everything that can go wrong while resolving, installing or packaging a
/// framework release.
///
/// - `Version`: the requested build version is below the framework minimum;
///   raised before any network or file-system activity.
/// - `ReleaseNotFound`: no published release matches the requested tag.
/// - `AssetNotFound`: no release asset matches the host platform.
/// - `Parse`: a textual version identifier could not be read.
/// - `Network`: a non-success HTTP status or a transport failure.
/// - `Filesystem`: an I/O failure creating, removing, reading or writing a
///   cache or output path, including a failure inside the archive backend.
/// - `PathEncoding`: a path segment cannot be represented as text when
///   naming an archive entry; aborts the archive operation in progress.
/// - `UnsupportedTarget`: a pipeline stage was invoked for a target it does
///   not yet implement; reported per target, never a process abort.
#[derive(Clone, Copy, Debug, PartialEq, Eq, Structural)]
pub enum Error {
    Version,
    ReleaseNotFound,
    AssetNotFound,
    Parse,
    Network,
    Filesystem,
    PathEncoding,
    UnsupportedTarget,
}

impl Error {
    /// A short, user-readable description of the error kind.
    pub fn message(&self) -> (r: &'static str)
        ensures
            *self is Version ==> r@ == "requested version is below the framework minimum"@,
            *self is ReleaseNotFound ==> r@ == "no release matches the requested version"@,
            *self is AssetNotFound ==> r@ == "no release asset matches the host platform"@,
            *self is Parse ==> r@ == "malformed version string"@,
            *self is Network ==> r@ == "network request failed"@,
            *self is Filesystem ==> r@ == "file system operation failed"@,
            *self is PathEncoding ==> r@ == "path is not representable as text"@,
            *self is UnsupportedTarget ==> r@ == "target is not supported yet"@,
    {
        match self {
            Error::Version => "requested version is below the framework minimum",
            Error::ReleaseNotFound => "no release matches the requested version",
            Error::AssetNotFound => "no release asset matches the host platform",
            Error::Parse => "malformed version string",
            Error::Network => "network request failed",
            Error::Filesystem => "file system operation failed",
            Error::PathEncoding => "path is not representable as text",
            Error::UnsupportedTarget => "target is not supported yet",
        }
    }
}

} // verus!
