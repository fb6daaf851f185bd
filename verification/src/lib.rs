//! Verified models of the prompt-token and prompt-marketplace contracts.
pub mod address;
pub mod keymap;
pub mod laws;
pub mod marketplace;
pub mod private_access;
pub mod token;
