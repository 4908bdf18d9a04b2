//! Backend library for a desktop tool that keeps projects, their chat
//! conversations and the messages within them in a local SQLite store, and
//! turns conversation history plus the outcome of a call to a local Ollama
//! inference endpoint into the next persisted assistant reply.
//!
//! The store operations are verified against a model of the three tables as
//! sequences of rows in insertion order; the SQLite calls themselves stand
//! behind trusted wrappers. The HTTP round trips to the inference endpoint
//! are performed by the surrounding application, which hands their outcomes
//! to the verified decision functions in [`ollama`] and [`chat`].

pub mod chat;
pub mod models;
pub mod ollama;
pub mod order;
pub mod store;
