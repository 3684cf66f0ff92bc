//! Codec for the HEADER section of a CAD drawing-exchange file.
//!
//! The wire format is a flat sequence of code pairs: an integer tag followed
//! by a typed value.  The HEADER section maps named variables (prefixed `$`)
//! onto a fixed-schema record.  A variable's accepted tag can change between
//! format versions, some variables span several consecutive pairs (points),
//! some are bit-flag integers exposed through boolean accessors, and some
//! must be omitted entirely outside certain version bands.
//!
//! Every public operation carries a contract: `Header::read` and
//! `Header::write` are specified against a functional model of the pair
//! stream, and `laws` states the properties that relate them.

pub mod double;
pub mod enums;
pub mod error;
pub mod header;
pub mod laws;
pub mod model;
pub mod pair;
pub mod policy;
pub mod source;
pub mod version;
