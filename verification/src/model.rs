//! The mathematical model of a research record and of its four transitions.
//!
//! Each transition is a pair of pure functions: the outcome reported to the
//! caller, and the record that is left behind. A refused operation leaves the
//! record as it was.

use vstd::prelude::*;
use crate::error::ResearchError;
use crate::layout::{fields_fit, stored_size};

verus! {

/// A research record as a mathematical value.
pub struct RecordView {
    /// Identity that alone may switch the record on and off.
    pub authority: Seq<u8>,
    pub title: Seq<char>,
    pub authors: Seq<Seq<char>>,
    pub doi: Seq<char>,
    /// Bit pattern of the impact score, a 64-bit floating-point number.
    pub impact_score_bits: u64,
    /// Tokens issued so far.
    pub token_supply: nat,
    /// Amount that the project hopes to raise. It limits nothing.
    pub funding_goal: nat,
    /// Amount pledged so far.
    pub current_funding: nat,
    /// Whether funding and minting are open.
    pub is_active: bool,
}

impl RecordView {
    /// The record that creation leaves: switched on, nothing funded, nothing
    /// minted, owned by its creator.
    pub open spec fn created(
        creator: Seq<u8>,
        title: Seq<char>,
        authors: Seq<Seq<char>>,
        doi: Seq<char>,
        impact_score_bits: u64,
        funding_goal: nat,
    ) -> RecordView {
        RecordView {
            authority: creator,
            title,
            authors,
            doi,
            impact_score_bits,
            token_supply: 0,
            funding_goal,
            current_funding: 0,
            is_active: true,
        }
    }

    /// The record can be stored: its identity has 32 bytes, its texts are
    /// within their limits and its numbers within 64 bits.
    pub open spec fn wf(self) -> bool {
        &&& self.authority.len() == 32
        &&& fields_fit(self.title, self.authors, self.doi)
        &&& self.token_supply <= u64::MAX
        &&& self.funding_goal <= u64::MAX
        &&& self.current_funding <= u64::MAX
    }

    /// Bytes that the record takes when stored.
    pub open spec fn stored_size(self) -> nat {
        stored_size(self.title, self.authors, self.doi)
    }

    /// What a request to pledge `amount` reports.
    pub open spec fn fund_outcome(self, amount: nat) -> Result<(), ResearchError> {
        if !self.is_active {
            Err(ResearchError::NotActive)
        } else if self.current_funding + amount > u64::MAX {
            Err(ResearchError::Overflow)
        } else {
            Ok(())
        }
    }

    /// The record after a request to pledge `amount`.
    pub open spec fn after_fund(self, amount: nat) -> RecordView {
        if self.fund_outcome(amount) is Ok {
            RecordView { current_funding: self.current_funding + amount, ..self }
        } else {
            self
        }
    }

    /// What a request to issue `amount` tokens reports.
    pub open spec fn mint_outcome(self, amount: nat) -> Result<(), ResearchError> {
        if !self.is_active {
            Err(ResearchError::NotActive)
        } else if self.token_supply + amount > u64::MAX {
            Err(ResearchError::Overflow)
        } else {
            Ok(())
        }
    }

    /// The record after a request to issue `amount` tokens.
    pub open spec fn after_mint(self, amount: nat) -> RecordView {
        if self.mint_outcome(amount) is Ok {
            RecordView { token_supply: self.token_supply + amount, ..self }
        } else {
            self
        }
    }

    /// What a request by `caller` to switch the record on or off reports.
    pub open spec fn status_outcome(self, caller: Seq<u8>) -> Result<(), ResearchError> {
        if caller == self.authority {
            Ok(())
        } else {
            Err(ResearchError::InvalidAuthority)
        }
    }

    /// The record after a request by `caller` to set its switch to `is_active`.
    pub open spec fn after_status(self, caller: Seq<u8>, is_active: bool) -> RecordView {
        if self.status_outcome(caller) is Ok {
            RecordView { is_active, ..self }
        } else {
            self
        }
    }
}

/// What a request to create a record in `slot` reports: the slot must be
/// empty and the variable-length fields within their limits.
pub open spec fn creation_outcome(
    slot: Option<RecordView>,
    title: Seq<char>,
    authors: Seq<Seq<char>>,
    doi: Seq<char>,
) -> Result<(), ResearchError> {
    if slot is None && fields_fit(title, authors, doi) {
        Ok(())
    } else {
        Err(ResearchError::Allocation)
    }
}

/// The slot after a request to create a record in it.
pub open spec fn after_creation(
    slot: Option<RecordView>,
    creator: Seq<u8>,
    title: Seq<char>,
    authors: Seq<Seq<char>>,
    doi: Seq<char>,
    impact_score_bits: u64,
    funding_goal: nat,
) -> Option<RecordView> {
    if creation_outcome(slot, title, authors, doi) is Ok {
        Some(RecordView::created(creator, title, authors, doi, impact_score_bits, funding_goal))
    } else {
        slot
    }
}

} // verus!
