//! The rules of the Project Sunrise launcher: what it makes of DepotDownloader's output, of
//! GitHub's answers, of Sunrise's settings and of what it finds in an installation folder.
//!
//! Nothing here reads or writes files or talks to the network. The caller does, and hands in what
//! it found.
pub mod depot_errors;
pub mod digest;
pub mod error;
pub mod github;
pub mod json;
pub mod laws;
pub mod missions;
pub mod models;
pub mod paths;
pub mod pe;
pub mod runtime;
pub mod settings;
pub mod storage;
pub mod text;
