//! Decision logic of a small tool that lists a GitHub user's repositories,
//! resolves each repository's dominant language, and plans per-language
//! clone directories. Everything that computes or decides lives here with
//! a contract; the HTTP calls, the filesystem and the subprocess live in
//! the surrounding binary.

pub mod api;
pub mod lang;
pub mod plan;
pub mod repo;
