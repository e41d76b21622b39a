//! Type/length/value codec for the parameters carried inside SCTP chunks.
pub mod buffer;
pub mod chunk_type;
pub mod error;
pub mod param_chunk_list;
pub mod param_header;
pub mod param_type;
