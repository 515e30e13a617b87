use ri::cargo_toml::{CargoToml, Package};
use ri::error::CommonError;
use ri::package_json::{parse_url, PackageJson, PkgRepo};
use ri::utils::{choice_key, exclude, is_a_git_clone_url};

#[test]
fn cargo_toml_homepage_first() {
    let cargo_toml = CargoToml {
        package: Some(Package {
            homepage: Some(String::from("https://github.com/JiatLn/ri")),
            repository: Some(String::from("https://github.com/JiatLn/ri.git")),
        }),
    };
    assert_eq!(cargo_toml.get_url(), Ok(String::from("https://github.com/JiatLn/ri")));
}

#[test]
fn cargo_toml_repository_fallback() {
    let cargo_toml = CargoToml {
        package: Some(Package {
            homepage: None,
            repository: Some(String::from("https://github.com/JiatLn/ri.git")),
        }),
    };
    assert_eq!(cargo_toml.get_url(), Ok(String::from("https://github.com/JiatLn/ri.git")));
}

#[test]
fn cargo_toml_missing_fields() {
    let cargo_toml = CargoToml { package: Some(Package { homepage: None, repository: None }) };
    assert_eq!(
        cargo_toml.get_url(),
        Err(CommonError::NotFound(String::from(
            "cargo.toml [package] homepage or repository field not found!"
        )))
    );
    let cargo_toml = CargoToml { package: None };
    assert_eq!(
        cargo_toml.get_url(),
        Err(CommonError::NotFound(String::from("cargo.toml [package] field not found!")))
    );
}

#[test]
fn parse_url_strips_wrappers() {
    assert_eq!(
        parse_url("git+https://host/repo.git"),
        Ok(String::from("https://host/repo"))
    );
    assert_eq!(parse_url("https://host/repo.git"), Ok(String::from("https://host/repo")));
    assert_eq!(parse_url("https://host/repo"), Ok(String::from("https://host/repo")));
}

#[test]
fn parse_url_empty_is_error() {
    assert_eq!(
        parse_url(""),
        Err(CommonError::NotFound(String::from(
            "package.json repository url field is empty!"
        )))
    );
    assert_eq!(
        parse_url("git+.git"),
        Err(CommonError::NotFound(String::from(
            "package.json repository url field is empty!"
        )))
    );
}

#[test]
fn package_json_url_from_string() {
    let pkg = PackageJson {
        name: None,
        version: None,
        repository: Some(PkgRepo::Str(String::from("git+https://host/repo.git"))),
        scripts: None,
        package_manager: None,
    };
    assert_eq!(pkg.get_url(), Ok(String::from("https://host/repo")));
}

#[test]
fn package_json_url_from_table() {
    let pkg = PackageJson {
        name: None,
        version: None,
        repository: Some(PkgRepo::Table(vec![
            (String::from("type"), String::from("git")),
            (String::from("url"), String::from("https://host/repo.git")),
        ])),
        scripts: None,
        package_manager: None,
    };
    assert_eq!(pkg.get_url(), Ok(String::from("https://host/repo")));
}

#[test]
fn package_json_url_missing() {
    let pkg = PackageJson {
        name: None,
        version: None,
        repository: None,
        scripts: None,
        package_manager: None,
    };
    assert_eq!(
        pkg.get_url(),
        Err(CommonError::NotFound(String::from("package.json repository field not found!")))
    );
    let pkg = PackageJson {
        name: None,
        version: None,
        repository: Some(PkgRepo::Table(vec![(String::from("type"), String::from("git"))])),
        scripts: None,
        package_manager: None,
    };
    assert_eq!(
        pkg.get_url(),
        Err(CommonError::NotFound(String::from(
            "package.json repository url field not found!"
        )))
    );
}

#[test]
fn exclude_removes_every_match() {
    let args = vec![String::from("-g"), String::from("vue"), String::from("-g")];
    assert_eq!(exclude(args, "-g"), vec![String::from("vue")]);
    let args = vec![String::from("vue")];
    assert_eq!(exclude(args, "-g"), vec![String::from("vue")]);
}

#[test]
fn git_clone_url_judgement() {
    assert!(is_a_git_clone_url("git@host/user/repo.git"));
    assert!(is_a_git_clone_url("https://host/user/repo.git"));
    assert!(is_a_git_clone_url("http://host/user/repo.git"));
    assert!(!is_a_git_clone_url("https://host/user/repo"));
    assert!(!is_a_git_clone_url("ssh://host/user/repo.git"));
    assert!(!is_a_git_clone_url(""));
}

#[test]
fn choice_key_takes_text_before_separator() {
    assert_eq!(choice_key("dev - vite"), "dev");
    assert_eq!(choice_key("build - vite build - extra"), "build");
    assert_eq!(choice_key("plain"), "plain");
}

#[test]
fn error_message_text() {
    let err = CommonError::NotFound(String::from("missing"));
    assert_eq!(err.message(), "missing");
    let err = CommonError::JsonParseError(String::from("bad"));
    assert_eq!(err.message(), "bad");
}
