//! State machine of a research funding record: one record per project, created
//! once by its authority, then funded, tokenized and switched on or off.
//!
//! Every transition is stated twice: as a pure function on [`RecordView`], the
//! mathematical model of a record, and as an executable function whose contract
//! ties it to that model.

pub mod account;
pub mod error;
pub mod instructions;
pub mod laws;
pub mod layout;
pub mod model;

pub use account::{
    same_identity, FundResearch, Identity, InitializeResearch, MintTokens, ResearchAccount,
    UpdateResearchStatus,
};
pub use error::ResearchError;
pub use instructions::{fund_research, initialize_research, mint_tokens, update_research_status};
pub use model::RecordView;
