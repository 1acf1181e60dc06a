pub mod text;
pub mod types;
pub mod ds_parser;
pub mod analyzer;
pub mod config;
pub mod zhihu;
pub mod logger;
pub mod settings;
pub mod server;
