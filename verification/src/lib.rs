//! Launch-configuration compiler for the dsda-doom engine.
//!
//! The library turns a typed launch configuration ([`dsda_doom::DsdaArgs`])
//! into the exact ordered sequence of command-line tokens the engine
//! executable expects. Compilation is a pure, total function over the
//! configuration; the ordering and encoding rules are stated as contracts
//! and proved.

pub mod dsda_doom;
