//! What holds of every record and every sequence of operations on it.
//!
//! The laws are stated over the model of a record. The contract of each
//! operation says that the operation does to a record in memory what the
//! model does to its view, so each law holds of the operations as well.

use vstd::prelude::*;
use crate::error::ResearchError;
use crate::layout::{fields_fit, lemma_fitting_fields_fit_space, SPACE};
use crate::model::{after_creation, creation_outcome, RecordView};

verus! {

/// Creation in an empty slot, with fields within their limits, succeeds. The
/// new record is switched on, has nothing funded and nothing minted, belongs
/// to its creator, and can be stored.
pub proof fn law_creation(
    creator: Seq<u8>,
    title: Seq<char>,
    authors: Seq<Seq<char>>,
    doi: Seq<char>,
    impact_score_bits: u64,
    funding_goal: u64,
)
    requires
        creator.len() == 32,
        fields_fit(title, authors, doi),
    ensures
        creation_outcome(None, title, authors, doi) is Ok,
        after_creation(
            None,
            creator,
            title,
            authors,
            doi,
            impact_score_bits,
            funding_goal as nat,
        ) matches Some(record) && {
            &&& record.is_active
            &&& record.current_funding == 0
            &&& record.token_supply == 0
            &&& record.authority == creator
            &&& record.title == title
            &&& record.authors == authors
            &&& record.doi == doi
            &&& record.impact_score_bits == impact_score_bits
            &&& record.funding_goal == funding_goal
            &&& record.wf()
        },
{
}

/// Creation is refused with `Allocation`, and the slot left as it was, when
/// the slot is taken or a field exceeds its limit, and only then.
pub proof fn law_creation_refused(
    slot: Option<RecordView>,
    creator: Seq<u8>,
    title: Seq<char>,
    authors: Seq<Seq<char>>,
    doi: Seq<char>,
    impact_score_bits: u64,
    funding_goal: u64,
)
    ensures
        creation_outcome(slot, title, authors, doi) is Err <==> slot is Some || !fields_fit(
            title,
            authors,
            doi,
        ),
        creation_outcome(slot, title, authors, doi) is Err ==> {
            &&& creation_outcome(slot, title, authors, doi) == Err::<(), ResearchError>(
                ResearchError::Allocation,
            )
            &&& after_creation(
                slot,
                creator,
                title,
                authors,
                doi,
                impact_score_bits,
                funding_goal as nat,
            ) == slot
        },
{
}

/// Two pledges in a row add up. From a switched-on record whose funding can
/// take `a`, pledging `a` and then `b` leaves the old funding plus `a + b`
/// when that fits in 64 bits. When it does not, the second pledge is refused
/// with `Overflow` and the record stays as the first pledge left it.
pub proof fn law_funding_accumulates(record: RecordView, a: u64, b: u64)
    requires
        record.is_active,
        record.current_funding + a <= u64::MAX,
    ensures
        record.fund_outcome(a as nat) is Ok,
        record.after_fund(a as nat).current_funding == record.current_funding + a,
        record.current_funding + a + b <= u64::MAX ==> {
            &&& record.after_fund(a as nat).fund_outcome(b as nat) is Ok
            &&& record.after_fund(a as nat).after_fund(b as nat).current_funding
                == record.current_funding + a + b
        },
        record.current_funding + a + b > u64::MAX ==> {
            &&& record.after_fund(a as nat).fund_outcome(b as nat) == Err::<(), ResearchError>(
                ResearchError::Overflow,
            )
            &&& record.after_fund(a as nat).after_fund(b as nat) == record.after_fund(a as nat)
        },
{
}

/// On a record that has just been created, pledging `a` and then `b` leaves
/// exactly `a + b` funded when the sum fits in 64 bits. When it does not, the
/// second pledge is refused with `Overflow` and the funding stays at `a`.
pub proof fn law_fund_twice_after_creation(
    creator: Seq<u8>,
    title: Seq<char>,
    authors: Seq<Seq<char>>,
    doi: Seq<char>,
    impact_score_bits: u64,
    funding_goal: u64,
    a: u64,
    b: u64,
)
    ensures
        ({
            let fresh = RecordView::created(
                creator,
                title,
                authors,
                doi,
                impact_score_bits,
                funding_goal as nat,
            );
            let once = fresh.after_fund(a as nat);
            let twice = once.after_fund(b as nat);
            &&& fresh.fund_outcome(a as nat) is Ok
            &&& once.current_funding == a
            &&& a + b <= u64::MAX ==> once.fund_outcome(b as nat) is Ok && twice.current_funding
                == a + b
            &&& a + b > u64::MAX ==> once.fund_outcome(b as nat) == Err::<(), ResearchError>(
                ResearchError::Overflow,
            ) && twice.current_funding == a
        }),
{
    let fresh = RecordView::created(
        creator,
        title,
        authors,
        doi,
        impact_score_bits,
        funding_goal as nat,
    );
    law_funding_accumulates(fresh, a, b);
}

/// A switched-off record refuses every pledge and every token issue with
/// `NotActive`, whatever the amount, and stays as it is.
pub proof fn law_inactive_refuses(record: RecordView, amount: u64)
    requires
        !record.is_active,
    ensures
        record.fund_outcome(amount as nat) == Err::<(), ResearchError>(ResearchError::NotActive),
        record.mint_outcome(amount as nat) == Err::<(), ResearchError>(ResearchError::NotActive),
        record.after_fund(amount as nat) == record,
        record.after_mint(amount as nat) == record,
{
}

/// A status change succeeds exactly when the caller is the record's
/// authority. Any other caller is refused with `InvalidAuthority`, and the
/// switch stays where it was.
pub proof fn law_status_needs_authority(record: RecordView, caller: Seq<u8>, is_active: bool)
    ensures
        record.status_outcome(caller) is Ok <==> caller == record.authority,
        caller == record.authority ==> record.after_status(caller, is_active) == (RecordView {
            is_active,
            ..record
        }),
        caller != record.authority ==> {
            &&& record.status_outcome(caller) == Err::<(), ResearchError>(
                ResearchError::InvalidAuthority,
            )
            &&& record.after_status(caller, is_active) == record
        },
{
}

/// Setting the switch twice to the same position is the same as setting it
/// once: both requests by the authority succeed, and the switch is in that
/// position after each. In particular a record switched off twice is off
/// both times.
pub proof fn law_status_idempotent(record: RecordView, is_active: bool)
    ensures
        ({
            let once = record.after_status(record.authority, is_active);
            let twice = once.after_status(record.authority, is_active);
            &&& record.status_outcome(record.authority) is Ok
            &&& once.status_outcome(record.authority) is Ok
            &&& once.is_active == is_active
            &&& twice.is_active == is_active
            &&& twice == once
        }),
{
}

/// The funding goal is no cap: whether a pledge is accepted, and what is
/// funded afterwards, does not depend on the goal.
pub proof fn law_goal_limits_nothing(record: RecordView, goal: nat, amount: u64)
    ensures
        ({
            let other = RecordView { funding_goal: goal, ..record };
            &&& other.fund_outcome(amount as nat) == record.fund_outcome(amount as nat)
            &&& other.after_fund(amount as nat).current_funding == record.after_fund(
                amount as nat,
            ).current_funding
        }),
        record.is_active && record.current_funding + amount <= u64::MAX ==> record.fund_outcome(
            amount as nat,
        ) is Ok,
{
}

/// A token issue examines neither the caller nor the destination: on a
/// switched-on record it succeeds exactly when the new supply fits in 64 bits.
pub proof fn law_mint_accumulates(record: RecordView, amount: u64)
    requires
        record.is_active,
    ensures
        record.mint_outcome(amount as nat) is Ok <==> record.token_supply + amount <= u64::MAX,
        record.mint_outcome(amount as nat) is Ok ==> record.after_mint(amount as nat).token_supply
            == record.token_supply + amount,
        record.mint_outcome(amount as nat) is Err ==> {
            &&& record.mint_outcome(amount as nat) == Err::<(), ResearchError>(
                ResearchError::Overflow,
            )
            &&& record.after_mint(amount as nat) == record
        },
{
}

/// What no operation changes, and what none decreases. After a pledge, a
/// token issue or a status change the record has the authority, the texts,
/// the impact score and the funding goal it had; neither counter is smaller
/// than before; and a record that could be stored still can.
pub proof fn law_operations_preserve(
    record: RecordView,
    amount: u64,
    caller: Seq<u8>,
    is_active: bool,
)
    ensures
        unchanged_since_creation(record, record.after_fund(amount as nat)),
        unchanged_since_creation(record, record.after_mint(amount as nat)),
        unchanged_since_creation(record, record.after_status(caller, is_active)),
        counters_not_smaller(record, record.after_fund(amount as nat)),
        counters_not_smaller(record, record.after_mint(amount as nat)),
        counters_not_smaller(record, record.after_status(caller, is_active)),
        record.wf() ==> record.after_fund(amount as nat).wf(),
        record.wf() ==> record.after_mint(amount as nat).wf(),
        record.wf() ==> record.after_status(caller, is_active).wf(),
{
}

/// A record that can be stored never outgrows the space reserved for it at
/// creation, whatever is done to it afterwards.
pub proof fn law_record_fits_reserved_space(
    record: RecordView,
    amount: u64,
    caller: Seq<u8>,
    is_active: bool,
)
    requires
        record.wf(),
    ensures
        record.stored_size() <= SPACE,
        record.after_fund(amount as nat).stored_size() <= SPACE,
        record.after_mint(amount as nat).stored_size() <= SPACE,
        record.after_status(caller, is_active).stored_size() <= SPACE,
{
    lemma_fitting_fields_fit_space(record.title, record.authors, record.doi);
}

/// The fields that are set once, at creation, are the same in both records.
pub open spec fn unchanged_since_creation(before: RecordView, after: RecordView) -> bool {
    &&& after.authority == before.authority
    &&& after.title == before.title
    &&& after.authors == before.authors
    &&& after.doi == before.doi
    &&& after.impact_score_bits == before.impact_score_bits
    &&& after.funding_goal == before.funding_goal
}

/// Neither counter is smaller in `after` than in `before`.
pub open spec fn counters_not_smaller(before: RecordView, after: RecordView) -> bool {
    &&& after.current_funding >= before.current_funding
    &&& after.token_supply >= before.token_supply
}

} // verus!
