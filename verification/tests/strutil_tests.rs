use ri::strutil::{
    before_first, clone_strings, contains_str, contains_sub, join_spaces, replace_all, str_ends_with,
    str_eq, str_starts_with, trim,
};

#[test]
fn string_equality() {
    assert!(str_eq("abc", "abc"));
    assert!(!str_eq("abc", "abd"));
    assert!(!str_eq("abc", "ab"));
    assert!(str_eq("", ""));
}

#[test]
fn prefixes_and_suffixes() {
    assert!(str_starts_with("git+https://x", "git+"));
    assert!(!str_starts_with("https://x", "git+"));
    assert!(str_starts_with("x", ""));
    assert!(str_ends_with("repo.git", ".git"));
    assert!(!str_ends_with("repo.gitx", ".git"));
    assert!(!str_ends_with("it", ".git"));
}

#[test]
fn substring_search() {
    assert!(contains_sub("npm i $0", "$0"));
    assert!(!contains_sub("npm ci", "$0"));
    assert!(contains_sub("abc", ""));
    assert!(!contains_sub("ab", "abc"));
}

#[test]
fn replacement() {
    assert_eq!(replace_all("npm i $0", "$0", "vue"), "npm i vue");
    assert_eq!(replace_all("a.gitb.git", ".git", ""), "ab");
    assert_eq!(replace_all("$0 $0", "$0", "x"), "x x");
    assert_eq!(replace_all("npm ci", "$0", "x"), "npm ci");
}

#[test]
fn trimming() {
    assert_eq!(trim("  npm i  "), "npm i");
    assert_eq!(trim("npm i"), "npm i");
    assert_eq!(trim(" \t\r\n "), "");
    assert_eq!(trim(""), "");
}

#[test]
fn joining() {
    assert_eq!(join_spaces(&vec![]), "");
    assert_eq!(join_spaces(&vec![String::from("vue")]), "vue");
    assert_eq!(
        join_spaces(&vec![String::from("vue"), String::from("react")]),
        "vue react"
    );
}

#[test]
fn prefix_before_pattern() {
    assert_eq!(before_first("dev - vite", " - "), "dev");
    assert_eq!(before_first("no separator", " - "), "no separator");
    assert_eq!(before_first(" - x", " - "), "");
    assert_eq!(before_first("npm@8.1", "@"), "npm");
}

#[test]
fn vector_helpers() {
    let v = vec![String::from("a"), String::from("-g")];
    assert!(contains_str(&v, "-g"));
    assert!(!contains_str(&v, "g"));
    assert_eq!(clone_strings(&v), v);
}
