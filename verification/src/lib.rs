//! The decision core of an embedding service.
//!
//! Many callers ask one worker for text embeddings. The worker owns every
//! loaded model, takes one request at a time and answers each request once.
//! This crate holds what the worker and its callers decide: which model a
//! configuration stands for, what the worker does next, and what a caller is
//! told. Loading a model, running it and moving messages between threads are
//! left to the program around it, which reports their outcomes back.

pub mod embedding;
pub mod guarantees;
pub mod registry;
pub mod server_config;
pub mod worker;
