//! The options of each operation, as the command line gives them.

use vstd::prelude::*;

use crate::aur::client::Aur;
use crate::aur::pkg::By;
use crate::config::global::GlobalConfig;
use crate::config::types::{Color, Output, Shell};
use crate::log::LogLevel;

verus! {

/// Options of `sync`.
#[derive(Debug, Clone)]
pub struct SyncOptions {
    /// Upgrade packages
    pub upgrade: bool,
    /// Install packages after build (needs root)
    pub install: bool,
    /// Extra arguments for makepkg
    pub build_args: Vec<String>,
    pub packages: Vec<String>,
}

/// Options of `remove`.
#[derive(Debug, Clone)]
pub struct RemoveOptions {
    /// Uninstall packages after remove (needs root)
    pub uninstall: bool,
    pub packages: Vec<String>,
}

/// Options of `build` (there are none).
#[derive(Debug, Clone, Copy)]
pub struct BuildOptions {}

/// Options of `query`.
#[derive(Debug, Clone)]
pub struct QueryOptions {
    /// Display additional information on results
    pub info: bool,
    /// Query AUR packages by
    pub by: By,
    /// Output format
    pub output: Output,
    pub keywords: Vec<String>,
}

/// Options of `completions`.
#[derive(Debug, Clone, Copy)]
pub struct CompletionOptions {
    /// Specify shell to generate completions for
    pub shell: Option<Shell>,
}

/// Options of `runtime`.
#[derive(Debug, Clone, Copy)]
pub struct RuntimeOptions {
    /// List all available runtimes
    pub list: bool,
}

/// The operation that zeus is asked to carry out, with its options.
#[derive(Debug, Clone)]
pub enum Operation {
    /// Sync packages
    Sync(SyncOptions),
    /// Remove packages
    Remove(RemoveOptions),
    /// Build/Update builder
    Build(BuildOptions),
    /// Query the AUR
    Query(QueryOptions),
    /// Generate shell completions
    Completions(CompletionOptions),
    /// Various runtime operations
    Runtime(RuntimeOptions),
}

/// What an operation needs before it runs.
#[derive(Debug, Clone, Copy, PartialEq, Eq, Structural)]
pub struct OperationNeeds {
    /// The lock on the package database.
    pub lock: bool,
    /// A loaded and initialized runtime.
    pub runtime: bool,
}

impl Operation {
    /// What the operation needs: syncing, removing and building take the
    /// database lock and a runtime; querying, completions and the runtime
    /// listing need neither.
    pub fn needs(&self) -> (r: OperationNeeds)
        ensures
            r == (match *self {
                Operation::Sync(_) | Operation::Remove(_) | Operation::Build(_) => OperationNeeds {
                    lock: true,
                    runtime: true,
                },
                _ => OperationNeeds { lock: false, runtime: false },
            }),
    {
        match self {
            Operation::Sync(_) | Operation::Remove(_) | Operation::Build(_) => OperationNeeds {
                lock: true,
                runtime: true,
            },
            _ => OperationNeeds { lock: false, runtime: false },
        }
    }
}

/// The global options given with an operation: the builder machine, the
/// output, the build directory, the AUR client and the runtime.
#[derive(Debug)]
pub struct GlobalOptions {
    /// Builder machine name
    pub machine_name: String,
    /// Builder machine image
    pub machine_image: String,
    /// Colorize the output
    pub color: Color,
    /// Set log level
    pub log_level: LogLevel,
    /// Package build directory
    pub build_dir: String,
    /// Instance to communicate with the AUR RPC interface
    pub aur: Aur,
    /// Name of the runtime to load
    pub runtime: String,
    /// Directory to search for runtimes
    pub runtime_dir: String,
}

/// A whole command line: the global options and the operation.
#[derive(Debug)]
pub struct Config {
    pub global_opts: GlobalOptions,
    pub operation: Operation,
}

/// The loaded configuration: global settings and the operation.
#[derive(Debug, Clone)]
pub struct AppConfig {
    pub global: GlobalConfig,
    pub operation: Operation,
}

} // verus!
