//! Finds disposable build and dependency directories under a root, and drives
//! the list in which an operator picks which of them to remove.
pub mod classify;
pub mod configuration;
pub mod keys;
pub mod list;
pub mod session;
