pub mod clipboard;
pub mod config;
pub mod dialog;
pub mod recognition;
