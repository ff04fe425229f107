use repofetch::config::Labels;
use repofetch::query::{
    decorate, standard_queries, ItemKind, ItemState, RepoIdentity, SearchQuery,
};

fn sample_identity() -> RepoIdentity {
    RepoIdentity { owner: String::from("o"), name: String::from("n") }
}

#[test]
fn identity_requires_both_parts() {
    assert!(RepoIdentity::new(String::from(""), String::from("n")).is_none());
    assert!(RepoIdentity::new(String::from("o"), String::from("")).is_none());
    let id = RepoIdentity::new(String::from("o"), String::from("n")).unwrap();
    assert_eq!(id.slug(), "o/n");
}

#[test]
fn query_serialization_composes_predicates() {
    let q = SearchQuery {
        repo: sample_identity(),
        kind: ItemKind::Issue,
        states: vec![ItemState::Open],
        no_assignee: true,
        label: Some(String::from("help wanted")),
    };
    assert_eq!(q.to_query_string(), "repo:o/n is:issue is:open no:assignee label:\"help wanted\"");
}

#[test]
fn query_label_always_quoted() {
    let q = SearchQuery {
        repo: sample_identity(),
        kind: ItemKind::Issue,
        states: vec![ItemState::Open],
        no_assignee: false,
        label: Some(String::from("spaced label text")),
    };
    assert_eq!(q.to_query_string(), "repo:o/n is:issue is:open label:\"spaced label text\"");
}

#[test]
fn the_eight_standard_queries_in_order() {
    let queries = standard_queries(&sample_identity(), &Labels::default());
    assert_eq!(
        queries,
        vec![
            "repo:o/n is:issue is:open",
            "repo:o/n is:issue is:closed",
            "repo:o/n is:pr is:open",
            "repo:o/n is:pr is:merged",
            "repo:o/n is:pr is:closed is:unmerged",
            "repo:o/n is:issue is:open no:assignee label:\"help wanted\"",
            "repo:o/n is:issue is:open no:assignee label:\"good first issue\"",
            "repo:o/n is:issue is:open no:assignee label:\"hacktoberfest\"",
        ],
    );
}

#[test]
fn decorate_attaches_a_credential() {
    let with = decorate(String::from("q"), Some(String::from("token")));
    assert_eq!(with.query, "q");
    assert_eq!(with.credential.as_deref(), Some("token"));
}

#[test]
fn decorate_without_credential_leaves_the_query_alone() {
    let without = decorate(String::from("q"), None);
    assert_eq!(without.query, "q");
    assert!(without.credential.is_none());
}
