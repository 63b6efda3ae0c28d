//! The ways in which an operation on a research record can be refused.

use vstd::prelude::*;

verus! {

/// Why an operation left the record untouched.
#[derive(Clone, Copy, Debug, PartialEq, Eq, Structural)]
pub enum ResearchError {
    /// The record is switched off; funding and minting are closed.
    NotActive,
    /// A counter would leave the range of a 64-bit unsigned integer.
    Overflow,
    /// The caller is not the authority stored in the record.
    InvalidAuthority,
    /// The record cannot be placed: its slot is taken, or a field is longer
    /// than the room reserved for it.
    Allocation,
}

} // verus!
