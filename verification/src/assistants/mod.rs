//! The assistants API surface: plain data for assistants, their files,
//! messages, runs, threads and vector stores. The HTTP calls that move
//! these values live outside this library.

pub mod assistants;
pub mod files;
pub mod messages;
pub mod runs;
pub mod threads;
pub mod vector_stores;
