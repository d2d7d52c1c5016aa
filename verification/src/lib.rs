//! Reconstruction of an ontology from a stream of RDF triples.
//!
//! The triples of one construct may arrive in any order and between those of
//! other constructs. Recognizers ("acceptors") are offered the triples one at
//! a time, claim those that belong to them, and are finalized into typed
//! axioms once the stream has ended.
//!
//! - [`term`]: terms and triples.
//! - [`vocab`]: the IRIs that the recognizers look for.
//! - [`model`] and [`ontology`]: identifiers, axioms, and the ontology.
//! - [`acceptor`]: the protocol, the declaration recognizer and the ontology
//!   recognizer.
//! - [`reader`]: the driver that feeds a recognizer and finalizes it.
//! - [`laws`]: what holds of every read.

pub mod acceptor;
pub mod error;
pub mod laws;
pub mod model;
pub mod ontology;
pub mod reader;
pub mod term;
pub mod vocab;
