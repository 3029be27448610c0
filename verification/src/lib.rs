//! Node.js-compatible command translation for the Bun runtime.

pub mod text;
pub mod error;
pub mod builtins;
pub mod options;
pub mod node_options;
pub mod env_file;
pub mod parser;
pub mod argv;
pub mod js;
pub mod executor;
pub mod base64;
pub mod naming;
pub mod data_url;
pub mod common_js_preload;
pub mod version;
pub mod paths;
pub mod bun;
pub mod bun_runner;
pub mod help;
pub mod cli;
pub mod preload;
