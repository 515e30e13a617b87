use ri::agents::Agent;
use ri::commands::Command;
use ri::error::CommonError;
use ri::opt::{Opt, SubCommand};
use ri::package_json::{PackageJson, PkgRepo};
use ri::parser::{info_text, repo_command, run_script_choices, Parser};

fn opt_with(cmd: Option<SubCommand>) -> Opt {
    Opt { cmd, frozen: false, debug: false, global: false }
}

fn empty_package_json() -> PackageJson {
    PackageJson { name: None, version: None, repository: None, scripts: None, package_manager: None }
}

#[test]
fn parser_opt_frozen() {
    let mut opt = opt_with(None);
    opt.frozen = true;
    let parser = Parser::parser_opt(&opt).unwrap();
    assert_eq!(parser.command, Command::Frozen);
    assert_eq!(parser.args, None);
}

#[test]
fn parser_opt_default_install() {
    let parser = Parser::parser_opt(&opt_with(None)).unwrap();
    assert_eq!(parser.command, Command::Install);
    assert_eq!(parser.args, None);
}

#[test]
fn parser_opt_uninstall() {
    let opt = opt_with(Some(SubCommand::Un { package_name: vec![String::from("vue")] }));
    let parser = Parser::parser_opt(&opt).unwrap();
    assert_eq!(parser.command, Command::Uninstall);
    assert_eq!(parser.args, Some(vec![String::from("vue")]));
}

#[test]
fn parser_opt_global_uninstall() {
    let mut opt = opt_with(Some(SubCommand::Un { package_name: vec![String::from("vue")] }));
    opt.global = true;
    let parser = Parser::parser_opt(&opt).unwrap();
    assert_eq!(parser.command, Command::GlobalUninstall);
    assert_eq!(parser.args, Some(vec![String::from("vue")]));
}

#[test]
fn parser_opt_simple_subcommands() {
    let cases = [
        (SubCommand::Rm, Command::RemoveNodeModules),
        (SubCommand::Rl, Command::RemoveLockFile),
        (SubCommand::Info, Command::PkgInfo),
        (SubCommand::Repo, Command::PkgRepo),
        (SubCommand::Pl, Command::GitPull),
        (SubCommand::Ps, Command::GitPush),
        (SubCommand::Log, Command::GitLog),
    ];
    for (sub, expected) in cases {
        let parser = Parser::parser_opt(&opt_with(Some(sub))).unwrap();
        assert_eq!(parser.command, expected);
        assert_eq!(parser.args, None);
    }
}

#[test]
fn parser_opt_run_named() {
    let opt = opt_with(Some(SubCommand::R { run_name: Some(String::from("build")) }));
    let parser = Parser::parser_opt(&opt).unwrap();
    assert_eq!(parser.command, Command::Run);
    assert_eq!(parser.args, Some(vec![String::from("build")]));
}

#[test]
fn parser_opt_run_dev() {
    let parser = Parser::parser_opt(&opt_with(Some(SubCommand::Rd))).unwrap();
    assert_eq!(parser.command, Command::Run);
    assert_eq!(parser.args, Some(vec![String::from("dev")]));
}

#[test]
fn parser_opt_clone_with_source() {
    let opt = opt_with(Some(SubCommand::Cl { src: Some(String::from("git@host/repo.git")) }));
    let parser = Parser::parser_opt(&opt).unwrap();
    assert_eq!(parser.command, Command::GitClone);
    assert_eq!(parser.args, Some(vec![String::from("git@host/repo.git")]));
}

#[test]
fn parser_other_args_add() {
    let parser = Parser::parser_other_args(vec![String::from("vue"), String::from("react")]);
    assert_eq!(parser.command, Command::Add);
    assert_eq!(parser.args, Some(vec![String::from("vue"), String::from("react")]));
}

#[test]
fn parser_other_args_global() {
    let parser = Parser::parser_other_args(vec![String::from("-g"), String::from("vite")]);
    assert_eq!(parser.command, Command::Global);
    assert_eq!(parser.args, Some(vec![String::from("vite")]));
}

#[test]
fn parser_with_chosen_script() {
    let parser = Parser::parser_with_script(String::from("dev"));
    assert_eq!(parser.command, Command::Run);
    assert_eq!(parser.args, Some(vec![String::from("dev")]));
}

#[test]
fn parser_from_clipboard_url() {
    let parser = Parser::parser_from_clipboard(String::from("https://host/repo.git"));
    assert_eq!(parser.command, Command::GitClone);
    assert_eq!(parser.args, Some(vec![String::from("https://host/repo.git")]));
}

#[test]
fn parser_from_clipboard_not_url() {
    let parser = Parser::parser_from_clipboard(String::from("some text"));
    assert_eq!(parser.command, Command::GitClone);
    assert_eq!(parser.args, Some(vec![]));
}

#[test]
fn script_choices() {
    let mut pkg = empty_package_json();
    pkg.scripts = Some(vec![
        (String::from("dev"), String::from("vite")),
        (String::from("build"), String::from("vite build")),
    ]);
    let choices = run_script_choices(&pkg).unwrap();
    assert_eq!(choices, vec![String::from("dev - vite"), String::from("build - vite build")]);
}

#[test]
fn script_choices_missing() {
    let pkg = empty_package_json();
    assert_eq!(
        run_script_choices(&pkg),
        Err(CommonError::NotFound(String::from("package.json scripts field not found!")))
    );
}

#[test]
fn script_choices_empty() {
    let mut pkg = empty_package_json();
    pkg.scripts = Some(vec![]);
    assert_eq!(
        run_script_choices(&pkg),
        Err(CommonError::JsonParseError(String::from("package.json scripts field is empty!")))
    );
}

#[test]
fn gene_install_no_args() {
    let mut parser = Parser { command: Command::Install, args: None };
    assert_eq!(parser.gene_agent_command(Agent::Npm), "npm i");
    assert_eq!(parser.command, Command::Install);
}

#[test]
fn gene_install_with_args_yarn_becomes_add() {
    let mut parser = Parser { command: Command::Install, args: Some(vec![String::from("vue")]) };
    assert_eq!(parser.gene_agent_command(Agent::Yarn), "yarn add vue");
    assert_eq!(parser.command, Command::Add);
}

#[test]
fn gene_install_with_args_pnpm_becomes_add() {
    let mut parser = Parser { command: Command::Install, args: Some(vec![String::from("vue")]) };
    assert_eq!(parser.gene_agent_command(Agent::Pnpm), "pnpm add vue");
    assert_eq!(parser.command, Command::Add);
}

#[test]
fn gene_install_with_args_npm_stays_install() {
    let mut parser = Parser { command: Command::Install, args: Some(vec![String::from("vue")]) };
    assert_eq!(parser.gene_agent_command(Agent::Npm), "npm i vue");
    assert_eq!(parser.command, Command::Install);
}

#[test]
fn gene_frozen() {
    let mut parser = Parser { command: Command::Frozen, args: None };
    assert_eq!(parser.gene_agent_command(Agent::Npm), "npm ci");
    let mut parser = Parser { command: Command::Frozen, args: None };
    assert_eq!(parser.gene_agent_command(Agent::Yarn), "yarn install --frozen-lockfile");
}

#[test]
fn gene_missing_template_is_empty() {
    let mut parser = Parser { command: Command::Upgrade, args: None };
    assert_eq!(parser.gene_agent_command(Agent::Bun), "");
    let mut parser = Parser { command: Command::UpgradeInteractive, args: None };
    assert_eq!(parser.gene_agent_command(Agent::Npm), "");
}

#[test]
fn gene_global_and_uninstall() {
    let mut parser = Parser { command: Command::Global, args: Some(vec![String::from("vite")]) };
    assert_eq!(parser.gene_agent_command(Agent::Npm), "npm i -g vite");
    let mut parser = Parser {
        command: Command::GlobalUninstall,
        args: Some(vec![String::from("vite")]),
    };
    assert_eq!(parser.gene_agent_command(Agent::Pnpm), "pnpm remove --global vite");
}

#[test]
fn gene_multiple_args_joined() {
    let mut parser = Parser {
        command: Command::Add,
        args: Some(vec![String::from("vue"), String::from("react")]),
    };
    assert_eq!(parser.gene_agent_command(Agent::Yarn), "yarn add vue react");
}

#[test]
fn gene_direct_git_commands() {
    let parser = Parser { command: Command::GitPull, args: None };
    assert_eq!(parser.gene_direct_command(), Ok(String::from("git pull")));
    let parser = Parser { command: Command::GitPush, args: None };
    assert_eq!(parser.gene_direct_command(), Ok(String::from("git push")));
    let parser = Parser { command: Command::GitLog, args: None };
    assert_eq!(
        parser.gene_direct_command(),
        Ok(String::from("git log --graph --oneline --decorate"))
    );
    let parser = Parser { command: Command::IgnoredCommand, args: None };
    assert_eq!(parser.gene_direct_command(), Ok(String::from("")));
}

#[test]
fn gene_git_clone() {
    let parser = Parser {
        command: Command::GitClone,
        args: Some(vec![String::from("https://host/repo.git")]),
    };
    assert_eq!(
        parser.gene_direct_command(),
        Ok(String::from("git clone https://host/repo.git"))
    );
}

#[test]
fn gene_git_clone_without_url() {
    let parser = Parser { command: Command::GitClone, args: Some(vec![]) };
    assert_eq!(
        parser.gene_direct_command(),
        Err(CommonError::NotFound(String::from("repository url not found")))
    );
}

#[test]
fn repo_command_from_table() {
    let mut pkg = empty_package_json();
    pkg.repository = Some(PkgRepo::Table(vec![
        (String::from("type"), String::from("git")),
        (String::from("url"), String::from("git+https://host/repo.git")),
    ]));
    assert_eq!(repo_command(&pkg), Ok(String::from("start https://host/repo")));
}

#[test]
fn repo_command_from_string() {
    let mut pkg = empty_package_json();
    pkg.repository = Some(PkgRepo::Str(String::from("https://host/repo")));
    assert_eq!(repo_command(&pkg), Ok(String::from("start https://host/repo")));
}

#[test]
fn repo_command_missing_fields() {
    let pkg = empty_package_json();
    assert_eq!(
        repo_command(&pkg),
        Err(CommonError::NotFound(String::from("package.json repository field not found!")))
    );
    let mut pkg = empty_package_json();
    pkg.repository = Some(PkgRepo::Table(vec![(String::from("type"), String::from("git"))]));
    assert_eq!(
        repo_command(&pkg),
        Err(CommonError::NotFound(String::from("package.json repository url field not found!")))
    );
}

#[test]
fn info_line() {
    let mut pkg = empty_package_json();
    pkg.name = Some(String::from("demo"));
    pkg.version = Some(String::from("1.2.3"));
    assert_eq!(info_text(&pkg), "demo v1.2.3");
    let pkg = empty_package_json();
    assert_eq!(info_text(&pkg), "None vNone");
}
