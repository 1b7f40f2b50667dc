//! Recognition of software running on a remote asset, from the data it
//! returns: the technologies that can be recognised, the HTTP requests
//! that reveal each of them, and the checkers that turn responses into
//! findings with their evidence.

pub mod checkers;
pub mod models;
