//! The error of building a pool with no workers.

use crate::decimal::{decimal, push_decimal};
use vstd::prelude::*;
use vstd::string::*;

verus! {

/// The message of a [`PoolCreationError`] that holds `size`.
pub open spec fn creation_message(size: nat) -> Seq<char> {
    "Error creating ThreadPool: Invalid size. Given size: "@ + decimal(size)
}

/// An invalid size was given for a new [`crate::pool::ThreadPool`].
#[derive(Debug)]
pub struct PoolCreationError {
    given_size: usize,
}

impl View for PoolCreationError {
    type V = nat;

    /// The size that was refused.
    closed spec fn view(&self) -> nat {
        self.given_size as nat
    }
}

impl PoolCreationError {
    /// The error for the refused size `given_size`.
    pub(crate) fn new(given_size: usize) -> (error: Self)
        ensures
            error@ == given_size,
    {
        PoolCreationError { given_size }
    }

    /// The size that was refused.
    pub fn given_size(&self) -> (size: usize)
        ensures
            size == self@,
    {
        self.given_size
    }

    /// The message for the user: a fixed sentence, then the refused size in
    /// decimal.
    pub fn message(&self) -> (text: String)
        ensures
            text@ == creation_message(self@),
    {
        let mut text = String::from_str("Error creating ThreadPool: Invalid size. Given size: ");
        push_decimal(&mut text, self.given_size);
        text
    }
}

} // verus!
