//! Tells which compiler produced an on-chain script.
//!
//! A script is known by its hash and by its decoded program. The [`registry`]
//! holds the rules: one reserved hash with a label of its own, and the
//! compiler families in priority order, each with a list of known hashes and
//! a list of markers. A script is labelled by the first rule that applies;
//! where none does, its provenance is unknown, which is a result and no
//! error.
//!
//! The way of one record through the crate:
//!
//! - [`record::RecordLayout::split`] cuts an input line into hash and payload;
//! - the caller has the payload decoded and pretty-printed;
//! - [`program::normalize`] flattens the printed program, so that markers are
//!   found however the printer broke the lines;
//! - [`registry::Registry::classify`] gives the label, and
//!   [`registry::Registry::classify_script`] does both steps for a record and
//!   hands a decoding failure on as an error;
//! - [`emit::Emitter`] writes the results out as one aggregate, piece by
//!   piece.
//!
//! [`tables`] holds the built-in rules, and [`consistency`] shows that the
//! reserved hash is on none of their lists.

pub mod consistency;
pub mod emit;
pub mod program;
pub mod record;
pub mod registry;
pub mod tables;
pub mod text;
