//! The commands of the command line.

use vstd::prelude::*;

verus! {

/// The port that `run` listens on where none is given.
pub const DEFAULT_PORT: u16 = 8080;

/// `init`: start a new project.
#[derive(Debug, Clone, Copy, PartialEq, Eq)]
pub struct InitOpts {}

/// `build`: bundle the project.
#[derive(Debug, Clone, Copy, PartialEq, Eq)]
pub struct BuildOpts {}

/// `run`: serve the project.
#[derive(Debug, Clone, Copy, PartialEq, Eq)]
pub struct RunOpts {
    pub port: u16,
}

/// The command that was given.
#[derive(Debug, Clone, Copy, PartialEq, Eq)]
pub enum Subcommand {
    Init(InitOpts),
    Build(BuildOpts),
    Run(RunOpts),
}

/// The command line.
#[derive(Debug, Clone, Copy, PartialEq, Eq)]
pub struct Opts {
    pub cmd: Subcommand,
}

impl RunOpts {
    /// `run` on `port`, or on the default port where none is given.
    pub fn new(port: Option<u16>) -> (opts: RunOpts)
        ensures
            opts.port == match port {
                Some(p) => p,
                None => DEFAULT_PORT,
            },
    {
        match port {
            Some(p) => RunOpts { port: p },
            None => RunOpts { port: DEFAULT_PORT },
        }
    }
}

impl Default for RunOpts {
    fn default() -> (opts: RunOpts)
        ensures
            opts.port == DEFAULT_PORT,
    {
        RunOpts { port: DEFAULT_PORT }
    }
}

} // verus!
