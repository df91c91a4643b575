//! Session lifecycle and credential checks of an upload board, with the plain
//! data records that its request handlers exchange.

pub mod backend_api;
pub mod cli;
pub mod config;
pub mod db_api;
pub mod file_api;
pub mod frontend;
pub mod js_api;
pub mod security;
mod text;
