//! The four operations on a research record.
//!
//! Each checks before it writes: an operation that reports an error has
//! changed nothing.

use vstd::prelude::*;
use crate::account::{
    same_identity, slot_view, FundResearch, InitializeResearch, MintTokens, ResearchAccount,
    UpdateResearchStatus,
};
use crate::error::ResearchError;
use crate::layout::check_fields;
use crate::model::{after_creation, creation_outcome};

verus! {

/// Creates the record in the empty slot of `ctx`, owned by `ctx.authority`,
/// switched on, with nothing funded and nothing minted.
///
/// Reports `Allocation`, and leaves the slot as it was, when the slot is
/// taken or a variable-length field exceeds its limit.
pub fn initialize_research(
    ctx: &mut InitializeResearch,
    title: String,
    authors: Vec<String>,
    doi: String,
    impact_score_bits: u64,
    funding_goal: u64,
) -> (res: Result<(), ResearchError>)
    ensures
        res == creation_outcome(
            slot_view(old(ctx).research),
            title@,
            authors.deep_view(),
            doi@,
        ),
        slot_view(final(ctx).research) == after_creation(
            slot_view(old(ctx).research),
            old(ctx).authority@,
            title@,
            authors.deep_view(),
            doi@,
            impact_score_bits,
            funding_goal as nat,
        ),
        final(ctx).authority == old(ctx).authority,
        res is Err ==> *final(ctx) == *old(ctx),
        res is Ok ==> final(ctx).research == Some(
            ResearchAccount {
                authority: old(ctx).authority,
                title,
                authors,
                doi,
                impact_score_bits,
                token_supply: 0,
                funding_goal,
                current_funding: 0,
                is_active: true,
            },
        ),
        res is Ok ==> final(ctx).research->0.wf(),
{
    if ctx.research.is_some() || !check_fields(&title, &authors, &doi) {
        return Err(ResearchError::Allocation);
    }
    ctx.research = Some(
        ResearchAccount {
            authority: ctx.authority,
            title,
            authors,
            doi,
            impact_score_bits,
            token_supply: 0,
            funding_goal,
            current_funding: 0,
            is_active: true,
        },
    );
    Ok(())
}

/// Adds `amount` to the amount pledged to the record of `ctx`.
///
/// Reports `NotActive` when the record is switched off, else `Overflow` when
/// the sum leaves 64 bits. The funding goal plays no part.
pub fn fund_research(ctx: &mut FundResearch, amount: u64) -> (res: Result<(), ResearchError>)
    ensures
        res == old(ctx).research@.fund_outcome(amount as nat),
        final(ctx).research@ == old(ctx).research@.after_fund(amount as nat),
        *final(ctx) == (FundResearch {
            research: ResearchAccount {
                current_funding: final(ctx).research.current_funding,
                ..old(ctx).research
            },
            ..*old(ctx)
        }),
        res is Err ==> *final(ctx) == *old(ctx),
        old(ctx).research.wf() ==> final(ctx).research.wf(),
{
    if !ctx.research.is_active {
        return Err(ResearchError::NotActive);
    }
    match ctx.research.current_funding.checked_add(amount) {
        Some(total) => {
            ctx.research.current_funding = total;
            Ok(())
        },
        None => Err(ResearchError::Overflow),
    }
}

/// Adds `amount` to the token supply of the record of `ctx`.
///
/// Reports `NotActive` when the record is switched off, else `Overflow` when
/// the sum leaves 64 bits. Neither the token account nor the identity that
/// asks is examined.
pub fn mint_tokens(ctx: &mut MintTokens, amount: u64) -> (res: Result<(), ResearchError>)
    ensures
        res == old(ctx).research@.mint_outcome(amount as nat),
        final(ctx).research@ == old(ctx).research@.after_mint(amount as nat),
        *final(ctx) == (MintTokens {
            research: ResearchAccount {
                token_supply: final(ctx).research.token_supply,
                ..old(ctx).research
            },
            ..*old(ctx)
        }),
        res is Err ==> *final(ctx) == *old(ctx),
        old(ctx).research.wf() ==> final(ctx).research.wf(),
{
    if !ctx.research.is_active {
        return Err(ResearchError::NotActive);
    }
    match ctx.research.token_supply.checked_add(amount) {
        Some(total) => {
            ctx.research.token_supply = total;
            Ok(())
        },
        None => Err(ResearchError::Overflow),
    }
}

/// Sets the switch of the record of `ctx` to `is_active`.
///
/// Reports `InvalidAuthority` when `ctx.authority` is not the authority
/// stored in the record.
pub fn update_research_status(ctx: &mut UpdateResearchStatus, is_active: bool) -> (res: Result<
    (),
    ResearchError,
>)
    ensures
        res == old(ctx).research@.status_outcome(old(ctx).authority@),
        final(ctx).research@ == old(ctx).research@.after_status(old(ctx).authority@, is_active),
        *final(ctx) == (UpdateResearchStatus {
            research: ResearchAccount {
                is_active: final(ctx).research.is_active,
                ..old(ctx).research
            },
            ..*old(ctx)
        }),
        res is Err ==> *final(ctx) == *old(ctx),
        old(ctx).research.wf() ==> final(ctx).research.wf(),
{
    if !same_identity(&ctx.authority, &ctx.research.authority) {
        return Err(ResearchError::InvalidAuthority);
    }
    ctx.research.is_active = is_active;
    Ok(())
}

} // verus!
