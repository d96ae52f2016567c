//! Reusable parts of the console's pages.
pub mod connection_form;
