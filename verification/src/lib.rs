pub mod casing;
pub mod cli;
pub mod common;
pub mod component;
pub mod db;
pub mod endpoint;
pub mod error;
pub mod fields;
pub mod model;
pub mod new;
pub mod page;
pub mod parse;
pub mod render;
pub mod strutil;
pub mod watch;
