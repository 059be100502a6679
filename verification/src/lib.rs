//! Orchestration core of a zero-knowledge middlebox pipeline.
//!
//! The pipeline compiles a circuit into an arithmetic constraint system,
//! optimizes it under a chosen proof mode, lowers it to a Rank-1
//! Constraint System, and drives a three-phase proving protocol:
//! one-time setup (Generate), proof production (Prove) and proof
//! verification (Verify).  This crate holds the verified pieces of that
//! layer: the mode-indexed selection of rewrite passes, the binary
//! framing protocol for the artifacts the stages exchange, and the
//! staged driver logic each phase follows.  The circuit compiler and the
//! SNARK backend themselves are external collaborators that the
//! surrounding program supplies.

pub mod codec;
pub mod driver;
pub mod input;
pub mod plan;
