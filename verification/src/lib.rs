pub mod commands;
pub mod db;
pub mod json;
pub mod services;
pub mod text;
pub mod utils;
