//! Bindings for a tabular remote data API.
//!
//! A remote operation is called with named parameters and answers with a
//! table: a list of column names and a list of item arrays. A descriptor
//! says what an operation is called with and what its records look like.
//! From descriptors this crate builds the request to send, and decodes the
//! item arrays of the reply into records, field by field and position by
//! position.
//!
//! - `definition`, `parser`: annotated type definitions and the descriptors
//!   that are derived from them.
//! - `descriptor`: endpoint and response descriptors.
//! - `value`, `envelope`: the values on the wire and the table of a reply.
//! - `decode`: the positional decoder.
//! - `request`, `binding`: what is sent for a call, and what is made of the reply.
//! - `typed`: request types and record types. A type gives its annotated
//!   definition, and its descriptor is what the parser derives from it.
//! - `endpoint`, `model`, `fuse`: the request and record types of the catalog.
//! - `collect`, `text`: helpers on sequences and texts.
//!
//! Nothing here reaches the network: a caller sends the request that a
//! binding gives and hands back the reply.

pub mod binding;
pub mod collect;
pub mod decode;
pub mod definition;
pub mod descriptor;
pub mod endpoint;
pub mod envelope;
pub mod fuse;
pub mod model;
pub mod parser;
pub mod request;
pub mod text;
pub mod typed;
pub mod value;
