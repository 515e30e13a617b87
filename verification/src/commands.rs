use vstd::prelude::*;

verus! {

/// The full set of actions the dispatcher can be asked to perform: the
/// agent-mapped commands (install, run, add, ...) plus the git shortcuts
/// and the local housekeeping commands.
#[derive(Debug, Clone, Copy, PartialEq, Eq, Structural)]
pub enum Command {
    Agent,
    Run,
    Install,
    Frozen,
    Global,
    Add,
    Upgrade,
    UpgradeInteractive,
    Execute,
    Uninstall,
    GlobalUninstall,
    IgnoredCommand,
    GitClone,
    GitPull,
    GitPush,
    GitLog,
    RemoveNodeModules,
    RemoveLockFile,
    PkgInfo,
    PkgRepo,
}

} // verus!
