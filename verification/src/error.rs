//! The error that a command hands to the command layer.

use vstd::prelude::*;
use vstd::string::*;

verus! {

/// An error with the words that describe it.
#[derive(Debug)]
pub struct AppError {
    pub message: String,
}

impl AppError {
    /// An error that says `message`.
    pub fn new(message: String) -> (e: Self)
        ensures
            e.message == message,
    {
        AppError { message }
    }

    /// The words of the error.
    pub fn describe(&self) -> (s: String)
        ensures
            s@ == self.message@,
    {
        self.message.clone()
    }
}

} // verus!
