//! Core of a differential-testing harness for an authorization-policy engine:
//! scenario model, assembly order, outcome classification and trial records.
pub mod assemble;
pub mod harness;
pub mod hint;
pub mod ids;
pub mod record;
pub mod roundtrip;
pub mod runner;
pub mod scenario;
pub mod settings;
pub mod text;
