//! A listing registry and atomic settlement engine for single-unit
//! non-fungible assets held in custody by the marketplace itself.
//!
//! A seller deposits exactly one non-fungible unit into the marketplace's
//! custody and registers an ask price; a buyer later pays that price exactly,
//! which removes the listing and yields a settlement plan that splits the
//! payment into a platform fee, a creator royalty, and seller proceeds.
//!
//! The host environment (the asset-custody ledger, the caller-identity
//! mechanism and the logical clock) is an external collaborator: its readings
//! enter the library as plain values, and the transfers the library decides on
//! leave it as a settlement plan for the host to execute.

pub mod custody;
pub mod listing;
pub mod marketplace;
pub mod registry;
pub mod settlement;
