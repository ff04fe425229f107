use repofetch::remote_url::repo_from_remote;

#[test]
fn http() {
    const URL: &str = "http://github.com/o/r.git";

    let captures = repo_from_remote(URL).expect("no captures");

    assert_eq!(Some("o"), Some(captures.0.as_str()));
    assert_eq!(Some("r"), Some(captures.1.as_str()));
}

#[test]
fn https() {
    const URL: &str = "https://github.com/o/r.git";

    let captures = repo_from_remote(URL).expect("no captures");

    assert_eq!(Some("o"), Some(captures.0.as_str()));
    assert_eq!(Some("r"), Some(captures.1.as_str()));
}

#[test]
fn ssh() {
    const URL: &str = "git@github.com:o/r.git";

    let captures = repo_from_remote(URL).expect("no captures");

    assert_eq!(Some("o"), Some(captures.0.as_str()));
    assert_eq!(Some("r"), Some(captures.1.as_str()));
}

#[test]
fn weird_url() {
    const URL: &str = "https://github.com/us3r-nam3/r3p0-with.special.git";

    let captures = repo_from_remote(URL).expect("no captures");

    assert_eq!(Some("us3r-nam3"), Some(captures.0.as_str()));
    assert_eq!(Some("r3p0-with.special"), Some(captures.1.as_str()));
}

#[test]
fn ssh_full_names() {
    let (owner, repo) = repo_from_remote("git@github.com:owner/repo.git").unwrap();
    assert_eq!(owner, "owner");
    assert_eq!(repo, "repo");
}

#[test]
fn prefix_embedded_in_longer_text() {
    let (owner, repo) = repo_from_remote("remote: https://github.com/a/b.git fetched").unwrap();
    assert_eq!(owner, "a");
    assert_eq!(repo, "b");
}

#[test]
fn name_keeps_inner_git_dots() {
    let (owner, repo) = repo_from_remote("https://github.com/o/r.git.git").unwrap();
    assert_eq!(owner, "o");
    assert_eq!(repo, "r.git");
}

#[test]
fn other_host_is_no_match() {
    assert!(repo_from_remote("https://gitlab.com/o/r.git").is_none());
}

#[test]
fn missing_git_suffix_is_no_match() {
    assert!(repo_from_remote("https://github.com/o/r").is_none());
}

#[test]
fn empty_owner_is_no_match() {
    assert!(repo_from_remote("https://github.com//r.git").is_none());
}
