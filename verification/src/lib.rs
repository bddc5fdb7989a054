//! Proofs that travel with values.
//!
//! A function that has checked a fact about a value hands back a [`proofs::Proof`] of
//! that fact; a function that depends on the fact asks for the proof as a parameter.
//! A proof is a value of no size, so the cost of carrying it is paid by the type
//! checker alone. [`named`] ties a proof to the one value it speaks of, and [`prop`]
//! gives the rules by which proofs are combined.

pub mod named;
pub mod proofs;
pub mod prop;
