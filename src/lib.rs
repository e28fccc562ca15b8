//! Installs a script as a named command by generating a launcher that
//! replays a fixed command line.

pub mod text;
pub mod name;
pub mod error;
pub mod module_url;
pub mod root;
pub mod args;
pub mod script;
pub mod install;
