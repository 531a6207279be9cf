pub mod command;
pub mod error;
pub mod label;
pub mod platform;
pub mod release;
pub mod resolver;
