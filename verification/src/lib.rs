pub mod cli;
pub mod consts;
pub mod service;
pub mod utils;
