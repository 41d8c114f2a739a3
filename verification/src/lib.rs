//! Rich, panel-based help output for command-line programs.

pub mod cli;
pub mod commands;
pub mod config;
pub mod doc;
pub mod env;
pub mod helptext;
pub mod json;
pub mod laws;
pub mod model;
pub mod option_help;
pub mod option_table;
pub mod order;
pub mod page;
pub mod panels;
pub mod render;
pub mod table;
pub mod text;
pub mod theme;
