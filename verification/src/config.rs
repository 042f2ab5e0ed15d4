//! Configuration: the option enums with their textual forms, the options
//! of each operation, and the precedence rules that build the global
//! configuration from the command line, the configuration file and the
//! built-in defaults.

pub mod types;
pub mod global;
pub mod options;
