//! The error of the domain model.

use vstd::prelude::*;
use vstd::string::StringExecFns;

verus! {

/// Why raw input was refused. Each variant carries the input as it was given,
/// for diagnostics.
#[derive(Debug, PartialEq, Eq)]
pub enum ValidationError {
    /// The text is no acceptable subscriber name.
    InvalidName(String),
    /// The text is no acceptable email address.
    InvalidEmail(String),
}

impl Clone for ValidationError {
    fn clone(&self) -> (copy: ValidationError)
        ensures
            copy == *self,
    {
        match self {
            ValidationError::InvalidName(raw) => ValidationError::InvalidName(raw.clone()),
            ValidationError::InvalidEmail(raw) => ValidationError::InvalidEmail(raw.clone()),
        }
    }
}

impl ValidationError {
    /// The refused input.
    pub open spec fn input(self) -> Seq<char> {
        match self {
            ValidationError::InvalidName(raw) => raw@,
            ValidationError::InvalidEmail(raw) => raw@,
        }
    }

    /// What follows the refused input in [`ValidationError::message`].
    pub open spec fn complaint(self) -> Seq<char> {
        match self {
            ValidationError::InvalidName(_) => " is not a valid subscriber name."@,
            ValidationError::InvalidEmail(_) => " is not a valid subscriber email."@,
        }
    }

    /// The refused input, as it was given.
    pub fn rejected_input(&self) -> (raw: &str)
        ensures
            raw@ == self.input(),
    {
        match self {
            ValidationError::InvalidName(raw) => raw.as_str(),
            ValidationError::InvalidEmail(raw) => raw.as_str(),
        }
    }

    /// A sentence for logs: the refused input followed by the complaint.
    pub fn message(&self) -> (text: String)
        ensures
            text@ == self.input() + self.complaint(),
    {
        match self {
            ValidationError::InvalidName(raw) => raw.clone().concat(
                " is not a valid subscriber name.",
            ),
            ValidationError::InvalidEmail(raw) => raw.clone().concat(
                " is not a valid subscriber email.",
            ),
        }
    }
}

} // verus!
