//! Asking the user which repository to export.

pub mod menu;
