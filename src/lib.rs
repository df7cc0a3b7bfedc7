pub mod catalog;
pub mod config;
pub mod connection;
pub mod decimal;
pub mod environment;
pub mod json;
pub mod port;
pub mod select;
