//! Speculative live-preview decision engine for citation-style configuration.
//!
//! The crate holds the decisions that sit between a reference catalog, a
//! style-rendering engine and a decision oracle: which catalog entries are
//! sampled, how a candidate choice is overlaid on a configuration, which slot a
//! rendered citation belongs to, and in which order previews are requested and
//! stored. Rendering itself is done by the caller.

pub mod catalog;
pub mod config;
pub mod json;
pub mod laws;
pub mod merge;
pub mod orchestrator;
pub mod preview;
pub mod sample;
