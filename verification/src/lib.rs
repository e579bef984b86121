//! A keyed record store for governance proposals.
//!
//! The store maps a 64-bit key to a proposal record and applies the
//! access-control and lifecycle rules on top of it: only the owner may
//! edit or close a record, votes are accepted only while a record is
//! active, and each caller identity may vote at most once per record.

pub mod ident;
pub mod index;
pub mod laws;
pub mod record;
pub mod store;
pub mod transitions;

pub use ident::CallerId;
pub use ident::MAX_ID_BYTES;
pub use record::Choice;
pub use record::CreateProposal;
pub use record::Proposal;
pub use record::VoteError;
pub use store::ProposalStore;
