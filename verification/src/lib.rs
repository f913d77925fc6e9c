//! The decisions of a coordinator of shared model inference.
//!
//! Consumers hand in jobs, nodes lease them and hand in results, and the coordinator
//! reserves, settles and audits what that costs, in whole microquota. It also tests the
//! models of its nodes with hidden challenges, prepares routes to trusted hardware, and
//! tells the network what it may know of itself.
//!
//! Every function here is a decision on plain values: what the database holds goes in,
//! and what is to be written or answered comes out. Nothing here reads or writes. What
//! other services conclude (what a settlement rule deducts, what a verifier makes of
//! evidence, what a payload asks for) comes in as an argument, so that the decision is
//! stated for each of their answers.
//!
//! Moments are nanoseconds since the Unix epoch, amounts are microquota, and every
//! refusal is an [`error::ApiError`]. The public proof functions state what holds of
//! several functions together.
use vstd::prelude::*;

pub mod api_keys;
pub mod arithmetic;
pub mod attestation;
pub mod auth;
pub mod billing;
pub mod bindings;
pub mod canaries;
pub mod challenges;
pub mod chat;
pub mod clock;
pub mod crypto;
pub mod definitions;
pub mod error;
pub mod evaluations;
pub mod gateway;
pub mod governance;
pub mod health;
pub mod honor;
pub mod ids;
pub mod jobs;
pub mod json;
pub mod nodes;
pub mod policy;
pub mod quota;
pub mod regulated;
pub mod reserve;
pub mod routing;
pub mod selection;
pub mod settlement;
pub mod standard_data;
pub mod streams;
pub mod text;
pub mod web_auth;

verus! {

} // verus!
