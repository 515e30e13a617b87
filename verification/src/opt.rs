use vstd::prelude::*;

verus! {

/// The command-line options the dispatcher runs from.
#[derive(Debug, Clone)]
pub struct Opt {
    pub cmd: Option<SubCommand>,
    pub frozen: bool,
    /// Debug mode will not run the command
    pub debug: bool,
    pub global: bool,
}

/// The short subcommands, each an alias for a longer invocation.
#[derive(Debug, Clone)]
pub enum SubCommand {
    /// Uninstall package
    Un { package_name: Vec<String> },
    /// Run script
    R { run_name: Option<String> },
    /// Special for `run dev`
    Rd,
    /// Remove node_modules
    Rm,
    /// Remove lockfile
    Rl,
    /// Git clone
    Cl { src: Option<String> },
    /// Git pull
    Pl,
    /// Git push
    Ps,
    /// Git log
    Log,
    /// Get package info
    Info,
    /// Open the package repository page
    Repo,
    /// Anything else is handed to the agent's add command
    Other(Vec<String>),
}

} // verus!
