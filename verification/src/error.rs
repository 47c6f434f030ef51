//! The named failures of the registry.

use vstd::prelude::*;

verus! {

/// Why an operation was refused. Every refusal leaves the registry untouched.
#[derive(Clone, Copy, Debug, PartialEq, Eq, Structural)]
pub enum PigeonError {
    /// The caller is not the admin recorded at initialization.
    Unauthorized,
    /// Counting one more user would exceed the counter's range.
    Overflow,
    /// Counting one user fewer would take the counter below zero.
    Underflow,
    /// The record to create is already there.
    AlreadyExists,
    /// No live record is stored under the given key.
    NotFound,
}

impl PigeonError {
    /// The text shown to a caller for this failure.
    pub fn message(&self) -> (text: &'static str)
        ensures
            text@ == match *self {
                PigeonError::Unauthorized => "Only the admin can perform this action"@,
                PigeonError::Overflow => "Arithmetic overflow"@,
                PigeonError::Underflow => "Arithmetic underflow"@,
                PigeonError::AlreadyExists => "Record already exists"@,
                PigeonError::NotFound => "Record not found"@,
            },
    {
        match self {
            PigeonError::Unauthorized => "Only the admin can perform this action",
            PigeonError::Overflow => "Arithmetic overflow",
            PigeonError::Underflow => "Arithmetic underflow",
            PigeonError::AlreadyExists => "Record already exists",
            PigeonError::NotFound => "Record not found",
        }
    }
}

} // verus!
