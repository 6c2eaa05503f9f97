//! Derivation of builder types from record declarations.
//!
//! A record declaration is described by a [`schema::RecordSchema`]: its name and its
//! fields, each with a declared type and its annotations. [`synth::derive`] classifies
//! every field and produces a [`synth::BuilderSchema`], the abstract description of the
//! companion builder: its storage, its mutators, its initial state and its assembly
//! rules. [`assemble::Builder`] gives that description its meaning: it holds builder
//! storage, applies mutators and assembles records. [`laws`] states, over sequences of
//! mutator calls, what every builder so described does.

pub mod schema;
pub mod synth;
pub mod assemble;
pub mod laws;
