//! The error taxonomy: a file-read failure or a configuration parse failure,
//! each with a human-readable, prefixed message.

use vstd::prelude::*;

verus! {

/// A failure while obtaining the schema: either the configuration file could
/// not be read, or its contents were not a valid schema document. Each
/// variant carries plain text: the attempted path (for `IoError`) and the
/// underlying cause.
#[derive(Debug)]
pub enum SharpError {
    IoError(String, String),
    YamlError(String),
}

/// The user-facing message of an error: `failed to read file '<path>':
/// <cause>` for a read failure, `invalid YAML schema: <cause>` for a parse
/// failure.
pub open spec fn spec_message(e: SharpError) -> Seq<char> {
    match e {
        SharpError::IoError(path, cause) => "failed to read file '"@ + path@ + "': "@ + cause@,
        SharpError::YamlError(cause) => "invalid YAML schema: "@ + cause@,
    }
}

impl SharpError {
    /// Renders the user-facing message of this error.
    pub fn message(&self) -> (r: String)
        ensures
            r@ == spec_message(*self),
    {
        match self {
            SharpError::IoError(path, cause) => {
                let mut s = "failed to read file '".to_owned();
                s.append(path.as_str());
                s.append("': ");
                s.append(cause.as_str());
                s
            },
            SharpError::YamlError(cause) => {
                let mut s = "invalid YAML schema: ".to_owned();
                s.append(cause.as_str());
                s
            },
        }
    }
}

} // verus!
