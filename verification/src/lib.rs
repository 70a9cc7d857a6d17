//! A minimal version-control storage core: a content-addressable object
//! store plus a single mutable HEAD pointer tracking the current commit.
//!
//! Storage is modeled as explicit state held by [`file::FileService`]:
//! an object map keyed by sharded digest paths, a ref map keyed by ref
//! paths, and the HEAD record. Every operation's effect on that state is
//! stated in its contract and verified.

pub mod commit;
pub mod digest;
pub mod error;
pub mod file;
pub mod types;
