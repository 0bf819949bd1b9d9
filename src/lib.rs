//! Connection-string parsing, error taxonomy and Arrow stream decoding for a
//! Spark Connect client.

pub mod text;
pub mod headers;
pub mod io;
pub mod error;
pub mod builder;
