//! Rendering of code-search results and repository listings as plain text.
//!
//! The crate turns the structured answers of a Zoekt search service into the
//! text reports that a tool caller reads: matching lines with context, the
//! list of matching files, per-file match counts, and the list of indexed
//! repositories. Every function is verified against a specification stated
//! over sequences of characters.

pub mod content;
pub mod decode;
pub mod dispatch;
pub mod model;
pub mod repos;
pub mod summary;
pub mod text;

pub use content::format_content;
pub use decode::decode_b64;
pub use repos::format_repos;
pub use summary::{format_count, format_files};
