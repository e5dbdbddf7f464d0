//! Packages a game project written against an embeddable runtime engine into
//! a distributable, self-contained executable.
//!
//! The verified core covers the semantic version resolver, the release-asset
//! classifier, the release catalog lookup, the install-cache planner, the
//! recursive archive codec, and the executable-fusion build pipeline.  All
//! file-system and network effects are decided here and carried out by a thin
//! unverified shell around this crate.

use vstd::prelude::*;

pub mod archive;
pub mod builder;
pub mod config;
pub mod error;
pub mod install;
pub mod release;
pub mod text;
pub mod version;

verus! {

/// A progress reporter invoked at named pipeline stages.  It is purely
/// observational: nothing in the library depends on what an implementation
/// does with the messages.
pub trait SpinnerPrint {
    fn print(&mut self, msg: String);
}

} // verus!
