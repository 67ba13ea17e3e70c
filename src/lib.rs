pub mod archive;
pub mod download;
pub mod error;
pub mod headers;
pub mod listing;
pub mod text;
