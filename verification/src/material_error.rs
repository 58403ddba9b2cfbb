//! Errors of the material runtime.

use vstd::prelude::*;
use crate::text::{push_chars, string_from_chars};

verus! {

/// Material runtime errors. Errors of the script engine and of file I/O
/// are carried as their messages.
#[derive(Debug, Clone, PartialEq, Eq)]
pub enum MaterialError {
    /// The script does not parse.
    Parse { id: String, message: String },
    /// A required function (`build`, `defaults`, `schema`) is missing.
    MissingFunction { id: String, function: String },
    /// The script failed while running.
    Evaluation { id: String, message: String },
    /// The script ran out of its operation budget.
    OperationsLimitExceeded { id: String },
    /// The script returned a value of the wrong type.
    InvalidReturnType { id: String, detail: String },
    /// An element has an unknown `type`.
    UnknownElementType { id: String, element_type: String },
    /// An element field is missing or malformed.
    ElementField { id: String, detail: String },
    /// No material with this id is registered.
    NotFound(String),
    /// A user material file could not be read.
    Io { name: String, message: String },
    /// The material directory could not be scanned.
    DirScan { dir: String, message: String },
}

/// The text of an error.
pub open spec fn material_error_text(e: MaterialError) -> Seq<char> {
    match e {
        MaterialError::Parse { id, message } => "material '"@ + id@ + "' parse error: "@ + message@,
        MaterialError::MissingFunction { id, function } => "material '"@ + id@ + "' missing required function: "@
            + function@,
        MaterialError::Evaluation { id, message } => "material '"@ + id@ + "' evaluation error: "@ + message@,
        MaterialError::OperationsLimitExceeded { id } => "material '"@ + id@ + "' exceeded operations limit"@,
        MaterialError::InvalidReturnType { id, detail } => "material '"@ + id@ + "' returned invalid type: "@
            + detail@,
        MaterialError::UnknownElementType { id, element_type } => "material '"@ + id@
            + "' returned unknown element type: "@ + element_type@,
        MaterialError::ElementField { id, detail } => "material '"@ + id@ + "' element field error: "@ + detail@,
        MaterialError::NotFound(id) => "material not found: "@ + id@,
        MaterialError::Io { name, message } => "io error loading material '"@ + name@ + "': "@ + message@,
        MaterialError::DirScan { dir, message } => "failed to scan material directory "@ + dir@ + ": "@
            + message@,
    }
}

fn join4(a: &str, b: &str, c: &str, d: &str) -> (s: String)
    ensures
        s@ == a@ + b@ + c@ + d@,
{
    let mut v: Vec<char> = Vec::new();
    push_chars(&mut v, a);
    push_chars(&mut v, b);
    push_chars(&mut v, c);
    push_chars(&mut v, d);
    proof {
        assert(v@ =~= a@ + b@ + c@ + d@);
    }
    string_from_chars(&v)
}

impl MaterialError {
    /// The error message, as the error's text representation reads.
    pub fn to_text(&self) -> (s: String)
        ensures
            s@ == material_error_text(*self),
    {
        proof {
            reveal_strlit("");
        }
        let s = match self {
            MaterialError::Parse { id, message } => join4("material '", id.as_str(), "' parse error: ", message.as_str()),
            MaterialError::MissingFunction { id, function } => join4(
                "material '",
                id.as_str(),
                "' missing required function: ",
                function.as_str(),
            ),
            MaterialError::Evaluation { id, message } => join4(
                "material '",
                id.as_str(),
                "' evaluation error: ",
                message.as_str(),
            ),
            MaterialError::OperationsLimitExceeded { id } => join4(
                "material '",
                id.as_str(),
                "' exceeded operations limit",
                "",
            ),
            MaterialError::InvalidReturnType { id, detail } => join4(
                "material '",
                id.as_str(),
                "' returned invalid type: ",
                detail.as_str(),
            ),
            MaterialError::UnknownElementType { id, element_type } => join4(
                "material '",
                id.as_str(),
                "' returned unknown element type: ",
                element_type.as_str(),
            ),
            MaterialError::ElementField { id, detail } => join4(
                "material '",
                id.as_str(),
                "' element field error: ",
                detail.as_str(),
            ),
            MaterialError::NotFound(id) => join4("material not found: ", id.as_str(), "", ""),
            MaterialError::Io { name, message } => join4(
                "io error loading material '",
                name.as_str(),
                "': ",
                message.as_str(),
            ),
            MaterialError::DirScan { dir, message } => join4(
                "failed to scan material directory ",
                dir.as_str(),
                ": ",
                message.as_str(),
            ),
        };
        proof {
            assert(s@ =~= material_error_text(*self));
        }
        s
    }
}

} // verus!
