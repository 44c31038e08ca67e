//! The core of a personal engineering knowledge base: the content-addressed
//! attachment store, the content index over attachments, and device
//! synchronization through a version-control client.
pub mod bundle;
pub mod content;
pub mod git;
pub mod hashing;
pub mod index;
pub mod records;
pub mod summary;
pub mod sync;
pub mod text;
