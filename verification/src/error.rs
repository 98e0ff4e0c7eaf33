//! Workspace-level error taxonomy.

use vstd::prelude::*;
use vstd::string::*;

verus! {

#[verifier::external_type_specification]
#[verifier::external_body]
pub struct ExIoError(std::io::Error);

/// The text of an I/O error (its `Display`, through `ToString::to_string`).
/// Nothing is stated of the text: the error value is opaque here.
#[verifier::external_body]
pub(crate) fn io_error_text(e: &std::io::Error) -> String {
    e.to_string()
}

/// Top-level error type for the Aloo platform.
#[derive(Debug)]
pub enum AlooError {
    /// Scan failed.
    Scan(String),
    /// Configuration invalid.
    Config(String),
    /// Storage / persistence error.
    Storage(String),
    /// Plugin error.
    Plugin(String),
    /// Reporting error.
    Report(String),
    /// I/O error.
    Io(std::io::Error),
    /// Internal / unexpected error.
    Internal(String),
}

/// The message of an error whose payload is the text `m`.
pub open spec fn aloo_message(e: AlooError) -> Seq<char> {
    match e {
        AlooError::Scan(m) => "Scan error: "@ + m@,
        AlooError::Config(m) => "Configuration error: "@ + m@,
        AlooError::Storage(m) => "Storage error: "@ + m@,
        AlooError::Plugin(m) => "Plugin error: "@ + m@,
        AlooError::Report(m) => "Report error: "@ + m@,
        AlooError::Io(_) => "I/O error: "@,
        AlooError::Internal(m) => "Internal error: "@ + m@,
    }
}

impl AlooError {
    /// Human-readable message, as the error is displayed. For an I/O error
    /// the fixed prefix is followed by the I/O error's own text.
    pub fn message(&self) -> (s: String)
        ensures
            !(*self is Io) ==> s@ == aloo_message(*self),
            *self is Io ==> aloo_message(*self).is_prefix_of(s@),
    {
        let (prefix, body) = match self {
            AlooError::Scan(m) => ("Scan error: ", m.clone()),
            AlooError::Config(m) => ("Configuration error: ", m.clone()),
            AlooError::Storage(m) => ("Storage error: ", m.clone()),
            AlooError::Plugin(m) => ("Plugin error: ", m.clone()),
            AlooError::Report(m) => ("Report error: ", m.clone()),
            AlooError::Io(e) => ("I/O error: ", io_error_text(e)),
            AlooError::Internal(m) => ("Internal error: ", m.clone()),
        };
        let mut out = String::from_str(prefix);
        out.append(body.as_str());
        proof {
            assert(aloo_message(*self).is_prefix_of(out@)) by {
                assert(out@.subrange(0, prefix@.len() as int) =~= prefix@);
            }
        }
        out
    }
}

impl From<std::io::Error> for AlooError {
    fn from(e: std::io::Error) -> (r: Self) {
        AlooError::Io(e)
    }
}

impl vstd::std_specs::convert::FromSpecImpl<std::io::Error> for AlooError {
    open spec fn obeys_from_spec() -> bool {
        true
    }

    open spec fn from_spec(v: std::io::Error) -> AlooError {
        AlooError::Io(v)
    }
}

} // verus!
