pub mod addr;
pub mod frame;
pub mod subnet;
pub mod cache;
pub mod error;
pub mod interface;
pub mod scanner;
pub mod report;
pub mod command;
pub mod config;
