//! Decoder for the stone binary package container: big-endian primitives,
//! metadata records with their tag and kind registries, and the container
//! framing of payload sections.
pub mod error;
pub mod reader;
pub mod meta;
pub mod container;
pub mod wire;
pub mod listing;
