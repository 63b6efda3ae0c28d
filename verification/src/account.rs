//! The research record as it is held in memory, and the accounts that each
//! operation is given.

use vstd::prelude::*;
use crate::model::RecordView;

verus! {

/// A 32-byte identity: of an authority, a funder or a token account.
pub type Identity = [u8; 32];

/// One research project's funding and tokenization state.
#[derive(Clone, Debug)]
pub struct ResearchAccount {
    /// Identity that alone may switch the record on and off. Set at creation.
    pub authority: Identity,
    pub title: String,
    pub authors: Vec<String>,
    pub doi: String,
    /// Bit pattern of the impact score, a 64-bit floating-point number.
    pub impact_score_bits: u64,
    /// Tokens issued so far.
    pub token_supply: u64,
    /// Amount that the project hopes to raise. It limits nothing.
    pub funding_goal: u64,
    /// Amount pledged so far.
    pub current_funding: u64,
    /// Whether funding and minting are open.
    pub is_active: bool,
}

impl View for ResearchAccount {
    type V = RecordView;

    open spec fn view(&self) -> RecordView {
        RecordView {
            authority: self.authority@,
            title: self.title@,
            authors: self.authors.deep_view(),
            doi: self.doi@,
            impact_score_bits: self.impact_score_bits,
            token_supply: self.token_supply as nat,
            funding_goal: self.funding_goal as nat,
            current_funding: self.current_funding as nat,
            is_active: self.is_active,
        }
    }
}

impl ResearchAccount {
    /// Bytes reserved for the fields of a stored record.
    pub const LEN: usize = crate::layout::RECORD_BYTES;

    /// The record can be stored: its texts are within their limits.
    pub open spec fn wf(&self) -> bool {
        self@.wf()
    }
}

/// The model of a slot that holds a record or nothing.
pub open spec fn slot_view(slot: Option<ResearchAccount>) -> Option<RecordView> {
    match slot {
        Some(record) => Some(record@),
        None => None,
    }
}

/// Accounts of a creation: the slot for the new record and its creator.
#[derive(Debug)]
pub struct InitializeResearch {
    /// Empty before the record is created, the record afterwards.
    pub research: Option<ResearchAccount>,
    /// The creator, who becomes the record's authority.
    pub authority: Identity,
}

/// Accounts of a pledge: the record and whoever pledges.
#[derive(Debug)]
pub struct FundResearch {
    pub research: ResearchAccount,
    pub funder: Identity,
}

/// Accounts of a token issue: the record, where the tokens go, and who asks.
#[derive(Debug)]
pub struct MintTokens {
    pub research: ResearchAccount,
    /// Destination of the tokens. It is handed on as given.
    pub token_account: Identity,
    pub authority: Identity,
}

/// Accounts of a status change: the record and whoever asks for the change.
#[derive(Debug)]
pub struct UpdateResearchStatus {
    pub research: ResearchAccount,
    /// The caller, who must be the record's authority.
    pub authority: Identity,
}

/// Whether two identities are the same, byte for byte.
pub fn same_identity(a: &Identity, b: &Identity) -> (same: bool)
    ensures
        same == (a@ == b@),
{
    let mut i: usize = 0;
    while i < 32
        invariant
            i <= 32,
            forall|j: int| 0 <= j < i ==> a@[j] == b@[j],
        decreases 32 - i,
    {
        if a[i] != b[i] {
            return false;
        }
        i = i + 1;
    }
    assert(a@ =~= b@);
    true
}

} // verus!
