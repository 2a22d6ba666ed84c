//! Process configuration: the command-line surface and the settings the
//! server starts with. Parsing the actual command line is transport work
//! and stays outside the library; these are the plain values it produces.

use vstd::prelude::*;

verus! {

/// Everything the server needs to run.
#[derive(Clone, Debug)]
pub struct Settings {
    /// Interface to bind.
    pub host: String,
    /// Port to bind.
    pub port: u16,
    /// Log filter directive.
    pub log_level: String,
    /// Origin allowed to call the HTTP surface.
    pub cors_allow_origin: String,
    /// Directory holding the per-robot geometry/limits records.
    pub robot_config_dir: String,
}

/// The subcommands the process accepts.
#[derive(Clone, Debug)]
pub enum Commands {
    /// Start the server with the given settings.
    Start(Settings),
}

/// The parsed command line.
#[derive(Clone, Debug)]
pub struct Arguments {
    pub command: Commands,
}

} // verus!
