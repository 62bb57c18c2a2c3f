//! Coordination core for protected swap transactions: deterministic
//! identifiers, the protection registry, route selection and execution
//! receipts, transaction batching, proof-of-route records and ephemeral
//! execution sessions.

pub mod batch;
pub mod ident;
pub mod route_proof;
pub mod registry;
pub mod rollup;
pub mod route;
