//! Model lifecycle and token streaming for an on-device language model.
pub mod agent;
pub mod manager;
pub mod models;
pub mod safety;
pub mod stream;
mod text;
pub mod tools;
