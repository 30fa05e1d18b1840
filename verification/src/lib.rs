//! A governance engine for a DAO: members submit proposals, cast weighted
//! votes on them, and each proposal moves through a fixed lifecycle from
//! `Open` to `Succeeded` or `Failed`.
//!
//! The host supplies the policy (who is a member, what executing a proposal
//! means) by implementing [`DaoCustomFn`], and the current time as a plain
//! timestamp.

pub mod dao;
pub mod identity;
pub mod laws;
pub mod lifecycle;
pub mod store;
pub mod types;
pub mod voting;

pub use dao::{DaoBasic, DaoCustomFn};
pub use store::{ProposalStore, StoreView};
pub use types::{
    ChangeProposalStateArg, DaoError, Equities, Proposal, ProposalArg, ProposalState,
    ProposalStateView, ProposalView, Votes, VotesArg,
};
pub use voting::Tally;
