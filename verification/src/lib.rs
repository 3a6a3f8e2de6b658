//! Planning and event handling for profile-instrumented cargo builds.
//!
//! The library decides; its caller acts. It sanitizes the arguments meant for
//! cargo, composes the invocation to spawn, reads cargo's build events line by
//! line and says which artifacts to report, and derives the directories that
//! hold the profiles. Spawning processes and touching the file system is left
//! to the caller.

pub mod args;
pub mod environment;
pub mod error;
pub mod event;
pub mod invocation;
pub mod pgo;
pub mod session;
pub mod text;
pub mod workspace;

use crate::error::{BuildError, ErrorModel};
use crate::text::{field_value, find_field};
use vstd::prelude::*;

verus! {

/// The name under which `rustc -vV` reports the platform it runs on.
pub open spec fn host_field() -> Seq<char> {
    "host: "@
}

/// The default target that a toolchain reports in the output of `rustc -vV`.
pub open spec fn default_target(rustc_output: Seq<char>) -> Option<Seq<char>> {
    field_value(rustc_output, host_field())
}

/// Reads a field from the output of `rustc -vV`: what follows `field` on the
/// first line that begins with it, trimmed. Fails where no line does, with an
/// error that holds the field.
pub fn get_rustc_info(rustc_output: &str, field: &str) -> (info: Result<String, BuildError>)
    ensures
        match field_value(rustc_output@, field@) {
            Some(value) => info is Ok && info->Ok_0@ == value,
            None => info is Err && info->Err_0@ == ErrorModel::MissingRustcField(field@),
        },
{
    match find_field(rustc_output, field) {
        Some(value) => Ok(value),
        None => Err(BuildError::MissingRustcField(field.to_owned())),
    }
}

/// The platform of the toolchain that printed `rustc_output`, which serves as
/// the default target of a build. Fails where the output names no host.
pub fn get_default_target(rustc_output: &str) -> (target: Result<String, BuildError>)
    ensures
        match default_target(rustc_output@) {
            Some(value) => target is Ok && target->Ok_0@ == value,
            None => target is Err && target->Err_0@ == ErrorModel::MissingRustcField(host_field()),
        },
{
    get_rustc_info(rustc_output, "host: ")
}

} // verus!
