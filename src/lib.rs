//! An ordered task list with validated commands to add and remove tasks.
//!
//! The store keeps tasks in insertion order, and a task's position is its only
//! identity. The command layer turns tokenized input into validated store
//! operations. Reading and writing the list as a JSON document is left to the
//! program that embeds the library.

pub mod store;
pub mod command;
pub mod laws;
