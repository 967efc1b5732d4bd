//! A small registry of named playlist URLs, kept in a JSON file, and the
//! decisions that drive an external downloader over its entries.

pub mod error;
pub mod registry;
pub mod url_check;
pub mod playlist;
pub mod store;
pub mod download;
