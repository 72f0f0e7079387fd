//! Recursive substring search over directory entry names, and the modal
//! navigator that lets a user pick a match and act on it.
pub mod command;
pub mod flags;
pub mod matcher;
pub mod navigator;
pub mod walker;
