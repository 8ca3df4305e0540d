//! Settings, parsing and text layout of a live system-information dashboard.
pub mod text;
pub mod color;
pub mod theme;
pub mod config;
pub mod history;
pub mod format;
pub mod cli;
pub mod system;
