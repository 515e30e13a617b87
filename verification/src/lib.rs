pub mod agents;
pub mod cargo_toml;
pub mod commands;
pub mod error;
pub mod opt;
pub mod package_json;
pub mod parser;
pub mod strutil;
pub mod utils;
