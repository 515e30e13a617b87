use vstd::prelude::*;
use vstd::string::*;

use crate::commands::Command;
use crate::strutil::{before_first, before_seq, contains_str, str_eq};

verus! {

/// A JavaScript package manager, or `Unknown` when no known one applies.
#[derive(Debug, PartialEq, Eq, Clone, Copy, Structural)]
pub enum Agent {
    Bun,
    Pnpm,
    Npm,
    Yarn,
    Unknown,
}

/// The display name of an agent.
pub open spec fn agent_name(a: Agent) -> Seq<char> {
    match a {
        Agent::Npm => "npm"@,
        Agent::Pnpm => "pnpm"@,
        Agent::Yarn => "yarn"@,
        Agent::Bun => "bun"@,
        Agent::Unknown => "Not Found"@,
    }
}

/// The agent that a (lower-case) name denotes.
pub open spec fn agent_of_name(s: Seq<char>) -> Agent {
    if s == "npm"@ {
        Agent::Npm
    } else if s == "yarn"@ {
        Agent::Yarn
    } else if s == "bun"@ {
        Agent::Bun
    } else if s == "pnpm"@ {
        Agent::Pnpm
    } else {
        Agent::Unknown
    }
}

impl Agent {
    /// The display name of this agent.
    pub fn name(&self) -> (r: String)
        ensures
            r@ == agent_name(*self),
    {
        match self {
            Agent::Npm => String::from_str("npm"),
            Agent::Pnpm => String::from_str("pnpm"),
            Agent::Yarn => String::from_str("yarn"),
            Agent::Bun => String::from_str("bun"),
            Agent::Unknown => String::from_str("Not Found"),
        }
    }

    /// The agent denoted by `s`.
    pub fn from_name(s: &str) -> (r: Agent)
        ensures
            r == agent_of_name(s@),
    {
        if str_eq(s, "npm") {
            Agent::Npm
        } else if str_eq(s, "yarn") {
            Agent::Yarn
        } else if str_eq(s, "bun") {
            Agent::Bun
        } else if str_eq(s, "pnpm") {
            Agent::Pnpm
        } else {
            Agent::Unknown
        }
    }
}

/// Naming an agent and reading the name back yields the same agent;
/// in particular `Unknown`'s display name (`Not Found`) is no known
/// agent's name.
pub proof fn lemma_agent_name_round_trip(a: Agent)
    ensures
        agent_of_name(agent_name(a)) == a,
{
    reveal_strlit("npm");
    reveal_strlit("pnpm");
    reveal_strlit("yarn");
    reveal_strlit("bun");
    reveal_strlit("Not Found");
    match a {
        Agent::Bun => {
            assert("bun"@ != "npm"@) by {
                assert("bun"@[0] != "npm"@[0]);
            }
            assert("bun"@ != "yarn"@) by {
                assert("bun"@.len() != "yarn"@.len());
            }
        },
        Agent::Pnpm => {
            assert("pnpm"@ != "npm"@) by {
                assert("pnpm"@.len() != "npm"@.len());
            }
            assert("pnpm"@ != "yarn"@) by {
                assert("pnpm"@[0] != "yarn"@[0]);
            }
            assert("pnpm"@ != "bun"@) by {
                assert("pnpm"@.len() != "bun"@.len());
            }
        },
        Agent::Unknown => {
            assert("Not Found"@ != "npm"@ && "Not Found"@ != "yarn"@ && "Not Found"@ != "bun"@
                && "Not Found"@ != "pnpm"@) by {
                assert("Not Found"@.len() == 9);
                assert("npm"@.len() == 3 && "yarn"@.len() == 4 && "bun"@.len() == 3
                    && "pnpm"@.len() == 4);
            }
        },
        _ => {},
    }
}

impl From<String> for Agent {
    fn from(agent: String) -> (r: Self) {
        Agent::from_name(agent.as_str())
    }
}

impl vstd::std_specs::convert::FromSpecImpl<String> for Agent {
    open spec fn obeys_from_spec() -> bool {
        true
    }

    open spec fn from_spec(v: String) -> Agent {
        agent_of_name(v@)
    }
}

/// The commands the per-agent table maps, in table order.
pub open spec fn command_order() -> Seq<Command> {
    seq![
        Command::Agent,
        Command::Run,
        Command::Install,
        Command::Frozen,
        Command::Global,
        Command::Add,
        Command::Upgrade,
        Command::UpgradeInteractive,
        Command::Execute,
        Command::Uninstall,
        Command::GlobalUninstall,
    ]
}

/// A command is one of those the per-agent table maps.
pub open spec fn is_agent_command(c: Command) -> bool {
    command_order().contains(c)
}

/// The command-line template an agent uses for a command: `$0` stands
/// for the arguments, and `None` means the agent has no such command.
/// Commands outside the table have no template either.
pub open spec fn agent_template(a: Agent, c: Command) -> Option<Seq<char>> {
    match a {
        Agent::Npm | Agent::Unknown => match c {
            Command::Agent => Some("npm $0"@),
            Command::Run => Some("npm run $0"@),
            Command::Install => Some("npm i $0"@),
            Command::Frozen => Some("npm ci"@),
            Command::Global => Some("npm i -g $0"@),
            Command::Add => Some("npm i $0"@),
            Command::Upgrade => Some("npm update $0"@),
            Command::UpgradeInteractive => None,
            Command::Execute => Some("npx $0"@),
            Command::Uninstall => Some("npm uninstall $0"@),
            Command::GlobalUninstall => Some("npm uninstall -g $0"@),
            _ => None,
        },
        Agent::Bun => match c {
            Command::Agent => Some("bun $0"@),
            Command::Run => Some("bun run $0"@),
            Command::Install => Some("bun install $0"@),
            Command::Frozen => Some("bun install --no-save"@),
            Command::Global => Some("bun add -g $0"@),
            Command::Add => Some("bun add $0"@),
            Command::Upgrade => None,
            Command::UpgradeInteractive => None,
            Command::Execute => None,
            Command::Uninstall => Some("bun remove $0"@),
            Command::GlobalUninstall => Some("npm remove -g $0"@),
            _ => None,
        },
        Agent::Yarn => match c {
            Command::Agent => Some("yarn $0"@),
            Command::Run => Some("yarn run $0"@),
            Command::Install => Some("yarn install $0"@),
            Command::Frozen => Some("yarn install --frozen-lockfile"@),
            Command::Global => Some("yarn global add $0"@),
            Command::Add => Some("yarn add $0"@),
            Command::Upgrade => Some("yarn upgrade $0"@),
            Command::UpgradeInteractive => Some("yarn upgrade-interactive $0"@),
            Command::Execute => Some("yarn dlx $0"@),
            Command::Uninstall => Some("yarn remove $0"@),
            Command::GlobalUninstall => Some("yarn global remove $0"@),
            _ => None,
        },
        Agent::Pnpm => match c {
            Command::Agent => Some("pnpm $0"@),
            Command::Run => Some("pnpm run $0"@),
            Command::Install => Some("pnpm i $0"@),
            Command::Frozen => Some("pnpm i --frozen-lockfile"@),
            Command::Global => Some("pnpm add -g $0"@),
            Command::Add => Some("pnpm add $0"@),
            Command::Upgrade => Some("pnpm update $0"@),
            Command::UpgradeInteractive => Some("pnpm update -i $0"@),
            Command::Execute => Some("pnpm dlx $0"@),
            Command::Uninstall => Some("pnpm remove $0"@),
            Command::GlobalUninstall => Some("pnpm remove --global $0"@),
            _ => None,
        },
    }
}

impl Agent {
    /// The table mapping each command to the template this agent uses
    /// for it, in `command_order()` order.
    pub fn get_agent_hash_map(agent: Agent) -> (r: Vec<(Command, Option<String>)>)
        ensures
            r@.len() == command_order().len(),
            forall|i: int| 0 <= i < r@.len() ==> (#[trigger] r@[i]).0 == command_order()[i],
            forall|i: int|
                0 <= i < r@.len() ==> (#[trigger] r@[i]).1.deep_view() == agent_template(
                    agent,
                    r@[i].0,
                ),
    {
        let mut v: Vec<(Command, Option<String>)> = Vec::new();
        match agent {
            Agent::Npm | Agent::Unknown => {
                v.push((Command::Agent, Some(String::from_str("npm $0"))));
                v.push((Command::Run, Some(String::from_str("npm run $0"))));
                v.push((Command::Install, Some(String::from_str("npm i $0"))));
                v.push((Command::Frozen, Some(String::from_str("npm ci"))));
                v.push((Command::Global, Some(String::from_str("npm i -g $0"))));
                v.push((Command::Add, Some(String::from_str("npm i $0"))));
                v.push((Command::Upgrade, Some(String::from_str("npm update $0"))));
                v.push((Command::UpgradeInteractive, None));
                v.push((Command::Execute, Some(String::from_str("npx $0"))));
                v.push((Command::Uninstall, Some(String::from_str("npm uninstall $0"))));
                v.push((Command::GlobalUninstall, Some(String::from_str("npm uninstall -g $0"))));
            },
            Agent::Bun => {
                v.push((Command::Agent, Some(String::from_str("bun $0"))));
                v.push((Command::Run, Some(String::from_str("bun run $0"))));
                v.push((Command::Install, Some(String::from_str("bun install $0"))));
                v.push((Command::Frozen, Some(String::from_str("bun install --no-save"))));
                v.push((Command::Global, Some(String::from_str("bun add -g $0"))));
                v.push((Command::Add, Some(String::from_str("bun add $0"))));
                v.push((Command::Upgrade, None));
                v.push((Command::UpgradeInteractive, None));
                v.push((Command::Execute, None));
                v.push((Command::Uninstall, Some(String::from_str("bun remove $0"))));
                v.push((Command::GlobalUninstall, Some(String::from_str("npm remove -g $0"))));
            },
            Agent::Yarn => {
                v.push((Command::Agent, Some(String::from_str("yarn $0"))));
                v.push((Command::Run, Some(String::from_str("yarn run $0"))));
                v.push((Command::Install, Some(String::from_str("yarn install $0"))));
                v.push((Command::Frozen, Some(String::from_str("yarn install --frozen-lockfile"))));
                v.push((Command::Global, Some(String::from_str("yarn global add $0"))));
                v.push((Command::Add, Some(String::from_str("yarn add $0"))));
                v.push((Command::Upgrade, Some(String::from_str("yarn upgrade $0"))));
                v.push(
                    (Command::UpgradeInteractive, Some(String::from_str("yarn upgrade-interactive $0"))),
                );
                v.push((Command::Execute, Some(String::from_str("yarn dlx $0"))));
                v.push((Command::Uninstall, Some(String::from_str("yarn remove $0"))));
                v.push((Command::GlobalUninstall, Some(String::from_str("yarn global remove $0"))));
            },
            Agent::Pnpm => {
                v.push((Command::Agent, Some(String::from_str("pnpm $0"))));
                v.push((Command::Run, Some(String::from_str("pnpm run $0"))));
                v.push((Command::Install, Some(String::from_str("pnpm i $0"))));
                v.push((Command::Frozen, Some(String::from_str("pnpm i --frozen-lockfile"))));
                v.push((Command::Global, Some(String::from_str("pnpm add -g $0"))));
                v.push((Command::Add, Some(String::from_str("pnpm add $0"))));
                v.push((Command::Upgrade, Some(String::from_str("pnpm update $0"))));
                v.push((Command::UpgradeInteractive, Some(String::from_str("pnpm update -i $0"))));
                v.push((Command::Execute, Some(String::from_str("pnpm dlx $0"))));
                v.push((Command::Uninstall, Some(String::from_str("pnpm remove $0"))));
                v.push((Command::GlobalUninstall, Some(String::from_str("pnpm remove --global $0"))));
            },
        }
        v
    }
}

/// The lockfile names that identify an agent, with the agent each one
/// belongs to, in detection order.
pub open spec fn lock_entries() -> Seq<(Seq<char>, Agent)> {
    seq![
        ("bun.lockb"@, Agent::Bun),
        ("pnpm-lock.yaml"@, Agent::Pnpm),
        ("yarn.lock"@, Agent::Yarn),
        ("package-lock.json"@, Agent::Npm),
        ("npm-shrinkwrap.json"@, Agent::Npm),
    ]
}

/// The mapping from lockfile names to the agents they identify.
pub struct Agents {
    pub lock_map: Vec<(String, Agent)>,
}

impl Agents {
    /// The lockfile table, in `lock_entries()` order.
    pub fn new() -> (r: Agents)
        ensures
            r.lock_map@.len() == lock_entries().len(),
            forall|i: int|
                0 <= i < r.lock_map@.len() ==> ((#[trigger] r.lock_map@[i]).0@,
                r.lock_map@[i].1) == lock_entries()[i],
    {
        let mut v: Vec<(String, Agent)> = Vec::new();
        v.push((String::from_str("bun.lockb"), Agent::Bun));
        v.push((String::from_str("pnpm-lock.yaml"), Agent::Pnpm));
        v.push((String::from_str("yarn.lock"), Agent::Yarn));
        v.push((String::from_str("package-lock.json"), Agent::Npm));
        v.push((String::from_str("npm-shrinkwrap.json"), Agent::Npm));
        Agents { lock_map: v }
    }
}

/// The agent identified by the lockfile names in `present`: the first
/// entry of `lock_entries()` whose name occurs there.
pub open spec fn detect_spec(present: Seq<Seq<char>>) -> Option<Agent> {
    if present.contains("bun.lockb"@) {
        Some(Agent::Bun)
    } else if present.contains("pnpm-lock.yaml"@) {
        Some(Agent::Pnpm)
    } else if present.contains("yarn.lock"@) {
        Some(Agent::Yarn)
    } else if present.contains("package-lock.json"@) {
        Some(Agent::Npm)
    } else if present.contains("npm-shrinkwrap.json"@) {
        Some(Agent::Npm)
    } else {
        None
    }
}

/// The agent a project uses, judged from the lockfile names that exist
/// in it.
pub fn detect_agent(present_files: &Vec<String>) -> (r: Option<Agent>)
    ensures
        r == detect_spec(present_files.deep_view()),
{
    if contains_str(present_files, "bun.lockb") {
        Some(Agent::Bun)
    } else if contains_str(present_files, "pnpm-lock.yaml") {
        Some(Agent::Pnpm)
    } else if contains_str(present_files, "yarn.lock") {
        Some(Agent::Yarn)
    } else if contains_str(present_files, "package-lock.json") {
        Some(Agent::Npm)
    } else if contains_str(present_files, "npm-shrinkwrap.json") {
        Some(Agent::Npm)
    } else {
        None
    }
}

/// The lower-case form of a string, a function of its characters alone.
pub uninterp spec fn lower_of(s: Seq<char>) -> Seq<char>;

/// Relies on str::to_lowercase: it returns the lower-case form of the
/// string, which depends on its characters alone.
#[verifier::external_body]
fn lowercase(s: &str) -> (r: String)
    ensures
        r@ == lower_of(s@),
{
    s.to_lowercase()
}

/// The agent named by a package.json `packageManager` value: the text
/// before the first `@` of its lower-case form.
pub fn agent_from_package_manager(manager: &str) -> (r: Agent)
    ensures
        r == agent_of_name(before_seq(lower_of(manager@), "@"@)),
{
    let lowered = lowercase(manager);
    proof {
        reveal_strlit("@");
    }
    let prefix = before_first(lowered.as_str(), "@");
    Agent::from_name(prefix.as_str())
}

} // verus!
