use vstd::prelude::*;
use vstd::string::*;

use crate::agents::{agent_template, command_order, is_agent_command, Agent};
use crate::commands::Command;
use crate::error::CommonError;
use crate::opt::{Opt, SubCommand};
use crate::package_json::{table_get, table_lookup, PackageJson, PkgRepo};
use crate::strutil::{
    clone_strings, contains_seq, contains_str, contains_sub, ends_with_seq, join_spaces,
    join_with, replace_all, replace_seq, starts_with_seq, str_ends_with, str_starts_with, trim,
    trim_seq,
};
use crate::utils::{exclude, exclude_seq, is_a_git_clone_url, is_git_clone_url_spec};

verus! {

/// The resolved action: a command together with its arguments.
#[derive(Debug)]
pub struct Parser {
    pub command: Command,
    pub args: Option<Vec<String>>,
}

/// An option form whose resolution needs outside input first: a run
/// with no script name (one must be chosen interactively) or a clone
/// with no source (the URL comes from the clipboard).
pub open spec fn opt_needs_input(o: Opt) -> bool {
    !o.frozen && match o.cmd {
        Some(SubCommand::R { run_name }) => run_name is None,
        Some(SubCommand::Cl { src }) => src is None,
        _ => false,
    }
}

/// The resolution of a free-form argument list: `-g` selects a global
/// install and is dropped from the arguments; anything else is handed
/// to the agent's add command.
pub open spec fn plan_of_other(args: Seq<Seq<char>>) -> (Command, Option<Seq<Seq<char>>>) {
    if args.contains("-g"@) {
        (Command::Global, Some(exclude_seq(args, "-g"@)))
    } else {
        (Command::Add, Some(args))
    }
}

/// The command and arguments an option form resolves to, for the forms
/// that need no outside input.
pub open spec fn plan_of_opt(o: Opt) -> (Command, Option<Seq<Seq<char>>>)
    recommends
        !opt_needs_input(o),
{
    if o.frozen {
        (Command::Frozen, None)
    } else {
        match o.cmd {
            None => (Command::Install, None),
            Some(sc) => match sc {
                SubCommand::Un { package_name } => if o.global {
                    (Command::GlobalUninstall, Some(package_name.deep_view()))
                } else {
                    (Command::Uninstall, Some(package_name.deep_view()))
                },
                SubCommand::Rm => (Command::RemoveNodeModules, None),
                SubCommand::Rl => (Command::RemoveLockFile, None),
                SubCommand::Info => (Command::PkgInfo, None),
                SubCommand::Repo => (Command::PkgRepo, None),
                SubCommand::R { run_name } => match run_name {
                    Some(name) => (Command::Run, Some(seq![name@])),
                    None => (Command::Run, None),
                },
                SubCommand::Cl { src } => match src {
                    Some(s) => (Command::GitClone, Some(seq![s@])),
                    None => (Command::GitClone, None),
                },
                SubCommand::Pl => (Command::GitPull, None),
                SubCommand::Ps => (Command::GitPush, None),
                SubCommand::Log => (Command::GitLog, None),
                SubCommand::Rd => (Command::Run, Some(seq!["dev"@])),
                SubCommand::Other(v) => plan_of_other(v.deep_view()),
            },
        }
    }
}

impl Parser {
    /// Resolve the options into a command and arguments. Forms that
    /// need a prompt or the clipboard first are resolved by
    /// `parser_with_script` and `parser_from_clipboard` instead.
    pub fn parser_opt(opt: &Opt) -> (r: Result<Parser, CommonError>)
        requires
            !opt_needs_input(*opt),
        ensures
            r matches Ok(p) && p.command == plan_of_opt(*opt).0 && p.args.deep_view()
                == plan_of_opt(*opt).1,
    {
        if opt.frozen {
            return Ok(Parser { command: Command::Frozen, args: None });
        }
        Parser::parse_cmd(opt)
    }

    fn parse_cmd(opt: &Opt) -> (r: Result<Parser, CommonError>)
        requires
            !opt_needs_input(*opt),
            !opt.frozen,
        ensures
            r matches Ok(p) && p.command == plan_of_opt(*opt).0 && p.args.deep_view()
                == plan_of_opt(*opt).1,
    {
        match &opt.cmd {
            None => Ok(Parser { command: Command::Install, args: None }),
            Some(sub_command) => match sub_command {
                SubCommand::Un { package_name } => {
                    let cloned = clone_strings(package_name);
                    proof {
                        assert(cloned.deep_view() =~= package_name.deep_view());
                    }
                    if opt.global {
                        Ok(Parser { command: Command::GlobalUninstall, args: Some(cloned) })
                    } else {
                        Ok(Parser { command: Command::Uninstall, args: Some(cloned) })
                    }
                },
                SubCommand::Rm => Ok(Parser { command: Command::RemoveNodeModules, args: None }),
                SubCommand::Rl => Ok(Parser { command: Command::RemoveLockFile, args: None }),
                SubCommand::Info => Ok(Parser { command: Command::PkgInfo, args: None }),
                SubCommand::Repo => Ok(Parser { command: Command::PkgRepo, args: None }),
                SubCommand::R { run_name } => match run_name {
                    Some(name) => {
                        let mut args: Vec<String> = Vec::new();
                        args.push(name.clone());
                        proof {
                            assert(args.deep_view() =~= seq![name@]);
                        }
                        Ok(Parser { command: Command::Run, args: Some(args) })
                    },
                    None => unreached(),
                },
                SubCommand::Cl { src } => match src {
                    Some(s) => {
                        let mut args: Vec<String> = Vec::new();
                        args.push(s.clone());
                        proof {
                            assert(args.deep_view() =~= seq![s@]);
                        }
                        Ok(Parser { command: Command::GitClone, args: Some(args) })
                    },
                    None => unreached(),
                },
                SubCommand::Pl => Ok(Parser { command: Command::GitPull, args: None }),
                SubCommand::Ps => Ok(Parser { command: Command::GitPush, args: None }),
                SubCommand::Log => Ok(Parser { command: Command::GitLog, args: None }),
                SubCommand::Rd => {
                    let mut args: Vec<String> = Vec::new();
                    args.push(String::from_str("dev"));
                    proof {
                        assert(args.deep_view() =~= seq!["dev"@]);
                    }
                    Ok(Parser { command: Command::Run, args: Some(args) })
                },
                SubCommand::Other(v) => {
                    let cloned = clone_strings(v);
                    proof {
                        assert(cloned.deep_view() =~= v.deep_view());
                    }
                    Ok(Parser::parser_other_args(cloned))
                },
            },
        }
    }

    /// Resolve a free-form argument list: `-g` means a global install.
    pub fn parser_other_args(args: Vec<String>) -> (r: Parser)
        ensures
            r.command == plan_of_other(args.deep_view()).0,
            r.args.deep_view() == plan_of_other(args.deep_view()).1,
    {
        if contains_str(&args, "-g") {
            let filtered = exclude(args, "-g");
            Parser { command: Command::Global, args: Some(filtered) }
        } else {
            Parser { command: Command::Add, args: Some(args) }
        }
    }

    /// The resolution of a run with no script name, once a script has
    /// been chosen.
    pub fn parser_with_script(script: String) -> (r: Parser)
        ensures
            r.command == Command::Run,
            r.args matches Some(v) && v.deep_view() == seq![script@],
    {
        let mut args: Vec<String> = Vec::new();
        args.push(script);
        proof {
            assert(args.deep_view() =~= seq![args@[0]@]);
        }
        Parser { command: Command::Run, args: Some(args) }
    }

    /// The resolution of a clone with no source, from clipboard text:
    /// the text is used only when it is a git clone URL.
    pub fn parser_from_clipboard(content: String) -> (r: Parser)
        ensures
            r.command == Command::GitClone,
            is_git_clone_url_spec(content@) ==> (r.args matches Some(v) && v.deep_view()
                == seq![content@]),
            !is_git_clone_url_spec(content@) ==> (r.args matches Some(v) && v.deep_view()
                == Seq::<Seq<char>>::empty()),
    {
        let mut args: Vec<String> = Vec::new();
        let ghost content_view = content@;
        if is_a_git_clone_url(content.as_str()) {
            args.push(content);
            proof {
                assert(args.deep_view() =~= seq![content_view]);
            }
        } else {
            proof {
                assert(args.deep_view() =~= Seq::<Seq<char>>::empty());
            }
        }
        Parser { command: Command::GitClone, args: Some(args) }
    }
}

/// The `key - value` lines offered when a script must be chosen.
pub open spec fn script_lines(s: Seq<(String, String)>) -> Seq<Seq<char>> {
    Seq::new(s.len(), |i: int| s[i].0@ + " - "@ + s[i].1@)
}

/// The choices offered for a run with no script name, from the
/// manifest's scripts; an absent or empty scripts field is an error.
pub fn run_script_choices(pkg: &PackageJson) -> (r: Result<Vec<String>, CommonError>)
    ensures
        pkg.scripts is None ==> (r matches Err(CommonError::NotFound(m)) && m@
            == "package.json scripts field not found!"@),
        pkg.scripts matches Some(s) ==> (s@.len() == 0 ==> (r matches Err(
            CommonError::JsonParseError(m),
        ) && m@ == "package.json scripts field is empty!"@)),
        pkg.scripts matches Some(s) ==> (s@.len() > 0 ==> (r matches Ok(v) && v.deep_view()
            == script_lines(s@))),
{
    match &pkg.scripts {
        None => Err(
            CommonError::NotFound(String::from_str("package.json scripts field not found!")),
        ),
        Some(s) => {
            if s.len() == 0 {
                Err(
                    CommonError::JsonParseError(
                        String::from_str("package.json scripts field is empty!"),
                    ),
                )
            } else {
                let mut out: Vec<String> = Vec::new();
                let mut i: usize = 0;
                while i < s.len()
                    invariant
                        i <= s@.len(),
                        out.deep_view().len() == i,
                        forall|j: int| 0 <= j < i ==> out.deep_view()[j] == script_lines(s@)[j],
                    decreases s@.len() - i,
                {
                    let mut line = s[i].0.clone();
                    line.append(" - ");
                    line.append(s[i].1.as_str());
                    let ghost line_view = line@;
                    let ghost old_dv = out.deep_view();
                    out.push(line);
                    proof {
                        assert(line_view == s@[i as int].0@ + " - "@ + s@[i as int].1@);
                        assert forall|j: int| 0 <= j < i + 1 implies out.deep_view()[j]
                            == script_lines(s@)[j] by {
                            if j < i {
                                assert(out.deep_view()[j] == old_dv[j]);
                            } else {
                                assert(out@[j]@ == line_view);
                            }
                        }
                    }
                    i += 1;
                }
                proof {
                    assert(out.deep_view() =~= script_lines(s@));
                }
                Ok(out)
            }
        },
    }
}

/// The command that should actually run: yarn and pnpm use `add`
/// rather than `install` when packages are named.
pub open spec fn effective_command(agent: Agent, c: Command, has_args: bool) -> Command {
    if (agent == Agent::Yarn || agent == Agent::Pnpm) && c == Command::Install && has_args {
        Command::Add
    } else {
        c
    }
}

/// The command line an agent template yields for the given arguments:
/// `$0` is replaced by the space-joined arguments, or removed (and the
/// line trimmed) when there are none; a missing template yields the
/// empty line.
pub open spec fn rendered_command(
    agent: Agent,
    c: Command,
    args: Option<Seq<Seq<char>>>,
) -> Seq<char> {
    match agent_template(agent, c) {
        Some(t) => if contains_seq(t, "$0"@) {
            match args {
                None => trim_seq(replace_seq(t, "$0"@, Seq::empty())),
                Some(a) => replace_seq(t, "$0"@, join_with(a, " "@)),
            }
        } else {
            t
        },
        None => Seq::empty(),
    }
}

impl Parser {
    /// The agent command line for this action; under yarn and pnpm an
    /// `install` with named packages becomes an `add`, and the command
    /// field is updated accordingly.
    pub fn gene_agent_command(&mut self, agent: Agent) -> (r: String)
        requires
            is_agent_command(old(self).command),
        ensures
            final(self).command == effective_command(
                agent,
                old(self).command,
                old(self).args is Some,
            ),
            final(self).args == old(self).args,
            r@ == rendered_command(agent, final(self).command, final(self).args.deep_view()),
    {
        match agent {
            Agent::Yarn | Agent::Pnpm => {
                if self.command == Command::Install && self.args.is_some() {
                    self.command = Command::Add;
                }
            },
            _ => {},
        }
        let hash_map = Agent::get_agent_hash_map(agent);
        let mut idx: usize = 0;
        while idx < hash_map.len()
            invariant
                idx <= hash_map@.len(),
                hash_map@.len() == command_order().len(),
                forall|j: int| 0 <= j < hash_map@.len() ==> (#[trigger] hash_map@[j]).0
                    == command_order()[j],
                forall|j: int|
                    0 <= j < hash_map@.len() ==> (#[trigger] hash_map@[j]).1.deep_view()
                        == agent_template(agent, hash_map@[j].0),
                forall|j: int| 0 <= j < idx ==> (#[trigger] hash_map@[j]).0 != self.command,
                is_agent_command(self.command),
                self.command == effective_command(
                    agent,
                    old(self).command,
                    old(self).args is Some,
                ),
                self.args == old(self).args,
            decreases hash_map@.len() - idx,
        {
            let hit = hash_map[idx].0 == self.command;
            if hit {
                proof {
                    reveal_strlit("$0");
                    reveal_strlit("");
                    reveal_strlit(" ");
                    assert(""@ =~= Seq::<char>::empty());
                }
                let r = match &hash_map[idx].1 {
                    Some(cmd_str) => {
                        if contains_sub(cmd_str.as_str(), "$0") {
                            match &self.args {
                                None => trim(replace_all(cmd_str.as_str(), "$0", "").as_str()),
                                Some(arg) => {
                                    let joined = join_spaces(arg);
                                    replace_all(cmd_str.as_str(), "$0", joined.as_str())
                                },
                            }
                        } else {
                            cmd_str.clone()
                        }
                    },
                    None => String::new(),
                };
                return r;
            }
            idx += 1;
        }
        proof {
            let c = self.command;
            assert(command_order().contains(c));
            let k = choose|k: int|
                0 <= k < command_order().len() && command_order()[k] == c;
            assert(hash_map@[k].0 == command_order()[k]);
            assert(false);
        }
        unreached()
    }
}

/// A command resolved without consulting any agent: the git shortcuts
/// and the ignored command.
pub open spec fn is_direct_command(c: Command) -> bool {
    c == Command::IgnoredCommand || c == Command::GitClone || c == Command::GitPull || c
        == Command::GitPush || c == Command::GitLog
}

impl Parser {
    /// The command line for the actions that need no agent.
    pub fn gene_direct_command(&self) -> (r: Result<String, CommonError>)
        requires
            is_direct_command(self.command),
            self.command == Command::GitClone ==> self.args is Some,
        ensures
            self.command == Command::IgnoredCommand ==> (r matches Ok(s) && s@
                == Seq::<char>::empty()),
            self.command == Command::GitPull ==> (r matches Ok(s) && s@ == "git pull"@),
            self.command == Command::GitPush ==> (r matches Ok(s) && s@ == "git push"@),
            self.command == Command::GitLog ==> (r matches Ok(s) && s@
                == "git log --graph --oneline --decorate"@),
            self.command == Command::GitClone ==> (self.args matches Some(a) ==> (a@.len() == 0
                ==> (r matches Err(CommonError::NotFound(m)) && m@
                == "repository url not found"@))),
            self.command == Command::GitClone ==> (self.args matches Some(a) ==> (a@.len() > 0
                ==> (r matches Ok(s) && s@ == "git clone "@ + a@[0]@))),
    {
        match self.command {
            Command::IgnoredCommand => Ok(String::new()),
            Command::GitClone => match &self.args {
                Some(src) => {
                    if src.len() == 0 {
                        Err(CommonError::NotFound(String::from_str("repository url not found")))
                    } else {
                        let mut out = String::from_str("git clone ");
                        out.append(src[0].as_str());
                        Ok(out)
                    }
                },
                None => unreached(),
            },
            Command::GitPull => Ok(String::from_str("git pull")),
            Command::GitPush => Ok(String::from_str("git push")),
            Command::GitLog => Ok(String::from_str("git log --graph --oneline --decorate")),
            _ => unreached(),
        }
    }
}

/// The repository URL readied for the browser: a trailing `.git` and
/// then a leading `git+` are stripped.
pub open spec fn repo_page_url(s: Seq<char>) -> Seq<char> {
    let a = if ends_with_seq(s, ".git"@) {
        replace_seq(s, ".git"@, Seq::empty())
    } else {
        s
    };
    if starts_with_seq(a, "git+"@) {
        replace_seq(a, "git+"@, Seq::empty())
    } else {
        a
    }
}

/// The browser-opening command for the package's repository page,
/// from the manifest's `repository` field.
pub fn repo_command(pkg: &PackageJson) -> (r: Result<String, CommonError>)
    ensures
        pkg.repository is None ==> (r matches Err(CommonError::NotFound(m)) && m@
            == "package.json repository field not found!"@),
        pkg.repository matches Some(PkgRepo::Str(u)) ==> (r matches Ok(s) && s@ == "start "@
            + repo_page_url(u@)),
        pkg.repository matches Some(PkgRepo::Table(t)) ==> match table_get(t@, "url"@) {
            Some(u) => r matches Ok(s) && s@ == "start "@ + repo_page_url(u),
            None => r matches Err(CommonError::NotFound(m)) && m@
                == "package.json repository url field not found!"@,
        },
{
    match &pkg.repository {
        Some(repository) => {
            let url: Option<String> = match repository {
                PkgRepo::Str(u) => Some(u.clone()),
                PkgRepo::Table(t) => table_lookup(t, "url"),
            };
            match url {
                Some(url) => {
                    proof {
                        reveal_strlit(".git");
                        reveal_strlit("git+");
                        reveal_strlit("");
                        assert(""@ =~= Seq::<char>::empty());
                    }
                    let a = if str_ends_with(url.as_str(), ".git") {
                        replace_all(url.as_str(), ".git", "")
                    } else {
                        url
                    };
                    let b = if str_starts_with(a.as_str(), "git+") {
                        replace_all(a.as_str(), "git+", "")
                    } else {
                        a
                    };
                    let mut out = String::from_str("start ");
                    out.append(b.as_str());
                    Ok(out)
                },
                None => Err(
                    CommonError::NotFound(
                        String::from_str("package.json repository url field not found!"),
                    ),
                ),
            }
        },
        None => Err(
            CommonError::NotFound(String::from_str("package.json repository field not found!")),
        ),
    }
}

/// The information line shown for the package: its name and version,
/// with `None` standing in for a missing field.
pub fn info_text(pkg: &PackageJson) -> (r: String)
    ensures
        r@ == (match pkg.name {
            Some(n) => n@,
            None => "None"@,
        }) + " v"@ + (match pkg.version {
            Some(v) => v@,
            None => "None"@,
        }),
{
    let mut out = match &pkg.name {
        Some(n) => n.clone(),
        None => String::from_str("None"),
    };
    out.append(" v");
    match &pkg.version {
        Some(v) => out.append(v.as_str()),
        None => out.append("None"),
    }
    out
}

} // verus!
