//! The directories of a project in which profiles are kept.

use std::path::Path;
use vstd::prelude::*;

verus! {

/// The path that `Path::join` makes of a directory and a name below it.
pub uninterp spec fn joined_path(base: Seq<char>, name: Seq<char>) -> Seq<char>;

/// Calls `Path::join` on two paths given as text. The contract only gives the
/// joined path its name: it depends on the two texts alone, by the path rules
/// of the platform that this library is built for.
#[verifier::external_body]
fn join_path(base: &str, name: &str) -> (joined: String)
    ensures
        joined@ == joined_path(base@, name@),
{
    Path::new(base).join(name).to_string_lossy().into_owned()
}

/// The name of the directory that holds the profiles of instrumented builds.
pub open spec fn pgo_directory_name() -> Seq<char> {
    "pgo-profiles"@
}

/// The name of the directory that holds the profiles gathered for BOLT.
pub open spec fn bolt_directory_name() -> Seq<char> {
    "bolt-profiles"@
}

/// The output root of the project that is being built.
pub struct CargoContext {
    target_directory: String,
}

impl CargoContext {
    /// The output root, as cargo's metadata gave it.
    pub closed spec fn root(&self) -> Seq<char> {
        self.target_directory@
    }

    /// The context of a project whose output root is `target_directory`.
    pub fn new(target_directory: String) -> (ctx: CargoContext)
        ensures
            ctx.root() == target_directory@,
    {
        CargoContext { target_directory }
    }

    /// The output root.
    pub fn target_directory(&self) -> (root: &str)
        ensures
            root@ == self.root(),
    {
        self.target_directory.as_str()
    }

    /// The directory for the profiles of instrumented builds. The caller makes
    /// sure that it exists.
    pub fn get_pgo_directory(&self) -> (directory: String)
        ensures
            directory@ == joined_path(self.root(), pgo_directory_name()),
    {
        self.get_target_directory("pgo-profiles")
    }

    /// The directory for the profiles gathered for BOLT. The caller makes sure
    /// that it exists.
    pub fn get_bolt_directory(&self) -> (directory: String)
        ensures
            directory@ == joined_path(self.root(), bolt_directory_name()),
    {
        self.get_target_directory("bolt-profiles")
    }

    /// The directory `path` below the output root. The same name gives the
    /// same directory on every call.
    pub fn get_target_directory(&self, path: &str) -> (directory: String)
        ensures
            directory@ == joined_path(self.root(), path@),
    {
        join_path(self.target_directory.as_str(), path)
    }
}

} // verus!
