pub mod error;
pub mod config;
pub mod paths;
pub mod discovery;
pub mod download;
pub mod store;
pub mod select;
pub mod player;
pub mod eq;
