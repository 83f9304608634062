//! The errors that an operation on the clipboard reports to its caller.

use crate::text::{decimal, push_decimal};
use vstd::prelude::*;
use vstd::string::*;

verus! {

/// Why an operation on the clipboard was not carried out.
#[derive(Debug, Clone, Copy, PartialEq, Eq, Structural)]
pub enum ClipboardError {
    /// The history has no entry with this id.
    UnknownEntry { id: u64 },
    /// No data-control device is bound yet.
    NotBound,
}

impl ClipboardError {
    /// The message of this error, as a spec-level string.
    pub open spec fn text(self) -> Seq<char> {
        match self {
            ClipboardError::UnknownEntry { id } => "No clipboard item found with ID: "@ + decimal(
                id as nat,
            ),
            ClipboardError::NotBound => "Wayland clipboard objects not available yet"@,
        }
    }

    /// The message that the caller is given.
    pub fn message(&self) -> (r: String)
        ensures
            r@ == self.text(),
    {
        match self {
            ClipboardError::UnknownEntry { id } => {
                let mut out = String::from_str("No clipboard item found with ID: ");
                push_decimal(&mut out, *id);
                out
            },
            ClipboardError::NotBound => String::from_str(
                "Wayland clipboard objects not available yet",
            ),
        }
    }
}

} // verus!
