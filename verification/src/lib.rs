//! Decoder for a photo-library metadata catalog.
//!
//! The catalog arrives as a generic self-describing tree of dictionaries,
//! sequences and scalars ([`value::Value`]). This crate turns such a tree
//! into a strongly typed [`records::Library`] record: albums, master-image
//! records, epoch-relative timestamps and sanitized display names.

pub mod decode;
pub mod error;
pub mod name;
pub mod records;
pub mod time;
pub mod value;
