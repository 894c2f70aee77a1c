//! A layered configuration-resolution engine.
//!
//! Configuration is assembled from an ordered list of partial sources
//! (defaults, literal code, files, URLs, environment variables).  Each
//! source is parsed into a partial representation, partials are merged
//! in precedence order under per-field merge policies, `extends` chains
//! pull in further sources, and the result is finalized and validated,
//! with byte-accurate error locations pointing back at the source text.

pub mod codegen;
pub mod error;
pub mod parser;
pub mod parsers;
pub mod partial;
pub mod resolver;
pub mod schema;
pub mod settings;
pub mod source;
pub mod span;
pub mod strutil;
pub mod validate;

pub use span::create_span;
pub use span::Span;
