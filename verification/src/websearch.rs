//! The web-search plugin: queries a search service over HTTP and opens or
//! copies the addresses it finds.

pub mod items;
pub mod laws;
pub mod model;
pub mod plugin;
