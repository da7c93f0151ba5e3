//! The last pull request of a repository, and the assignment of its author.
//!
//! The library builds the request documents, decodes the answers, reads the
//! pull request out of the decoded tree and decides what follows. Sending a
//! document and showing a result are left to the caller.

pub mod decode;
pub mod diagnostics;
pub mod document;
pub mod error;
pub mod extract;
pub mod ident;
pub mod json;
pub mod repo;
pub mod response;
pub mod text;
pub mod workflow;
