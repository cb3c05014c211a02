//! Encodes the fields of a JSON message as VSA hypervectors and plans the
//! key-value writes that persist them.

pub mod codec;
pub mod fields;
pub mod persist;
pub mod retrieval;
pub mod vector;
