//! The password-vault plugin: searches the vault through its command-line
//! tool and copies credentials to the clipboard.

pub mod items;
pub mod laws;
pub mod model;
pub mod plugin;
pub mod tool;
