//! The ways in which a build request fails.

use vstd::prelude::*;

verus! {

/// A failure of a build request. None is recovered from: each one ends the
/// request.
#[derive(Debug, PartialEq, Eq)]
pub enum BuildError {
    /// The output of `rustc -vV` has no line for a field; the field is kept.
    MissingRustcField(String),
    /// No target was named and the toolchain's default target is unknown; the
    /// reason why it is unknown is kept.
    UnknownDefaultTarget(String),
    /// A line of cargo's output is not a build event.
    MalformedEvent,
    /// Cargo ended with a failure status.
    BuildFailed,
}

/// A `BuildError` as plain values.
pub enum ErrorModel {
    MissingRustcField(Seq<char>),
    UnknownDefaultTarget(Seq<char>),
    MalformedEvent,
    BuildFailed,
}

impl View for BuildError {
    type V = ErrorModel;

    open spec fn view(&self) -> ErrorModel {
        match self {
            BuildError::MissingRustcField(field) => ErrorModel::MissingRustcField(field@),
            BuildError::UnknownDefaultTarget(cause) => ErrorModel::UnknownDefaultTarget(cause@),
            BuildError::MalformedEvent => ErrorModel::MalformedEvent,
            BuildError::BuildFailed => ErrorModel::BuildFailed,
        }
    }
}

/// What is said of a field that the output of `rustc -vV` lacks: the field
/// stands in the text as it was asked for.
pub open spec fn missing_field_text(field: Seq<char>) -> Seq<char> {
    "Failed to parse field "@ + field + " from rustc output."@
}

/// What is said of a default target that could not be found: the text ends
/// with the reason.
pub open spec fn unknown_target_text(cause: Seq<char>) -> Seq<char> {
    "Unable to find default target triple for your platform: "@ + cause
}

impl ErrorModel {
    /// The text that describes this failure. It names what was missing.
    pub open spec fn description(&self) -> Seq<char> {
        match self {
            ErrorModel::MissingRustcField(field) => missing_field_text(*field),
            ErrorModel::UnknownDefaultTarget(cause) => unknown_target_text(*cause),
            ErrorModel::MalformedEvent => "Cargo printed a line that is not a build event."@,
            ErrorModel::BuildFailed => "Cargo finished with an error."@,
        }
    }
}

impl BuildError {
    /// A description for the user, naming what is missing or what went wrong.
    pub fn message(&self) -> (text: String)
        ensures
            text@ == self@.description(),
    {
        match self {
            BuildError::MissingRustcField(field) => {
                let mut text = "Failed to parse field ".to_owned();
                text.append(field.as_str());
                text.append(" from rustc output.");
                text
            },
            BuildError::UnknownDefaultTarget(cause) => {
                let mut text = "Unable to find default target triple for your platform: ".to_owned();
                text.append(cause.as_str());
                text
            },
            BuildError::MalformedEvent => "Cargo printed a line that is not a build event.".to_owned(),
            BuildError::BuildFailed => "Cargo finished with an error.".to_owned(),
        }
    }
}

/// The text on a missing field holds the field, whole, right after its first
/// words.
pub proof fn lemma_missing_field_is_named(field: Seq<char>)
    ensures
        ({
            let text = ErrorModel::MissingRustcField(field).description();
            let at = "Failed to parse field "@.len() as int;
            &&& at + field.len() <= text.len()
            &&& text.subrange(at, at + field.len()) == field
        }),
{
    let text = missing_field_text(field);
    let at = "Failed to parse field "@.len() as int;
    assert(text.subrange(at, at + field.len()) =~= field);
}

/// The text on an unknown default target ends with the reason, whole.
pub proof fn lemma_unknown_target_names_cause(cause: Seq<char>)
    ensures
        ({
            let text = ErrorModel::UnknownDefaultTarget(cause).description();
            &&& cause.len() <= text.len()
            &&& text.skip(text.len() - cause.len()) == cause
        }),
{
    let text = unknown_target_text(cause);
    assert(text.skip(text.len() - cause.len()) =~= cause);
}

} // verus!
