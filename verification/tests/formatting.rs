use repofetch::numbers::{bool_to_string, u64_to_string};
use repofetch::outcome::FetchOutcome;
use repofetch::stats::{
    build_stats, count_or_placeholder, label_count_line, label_title, placeholder_string,
    size_value, stat_string, time_value, RepoMetadata, StatOutcomes,
};
use repofetch::config::{Emojis, Labels};
use repofetch::query::RepoIdentity;

fn sample_identity() -> RepoIdentity {
    RepoIdentity { owner: String::from("octocat"), name: String::from("hello") }
}

fn sample_metadata() -> RepoMetadata {
    RepoMetadata {
        clone_url: Some(String::from("https://github.com/octocat/hello.git")),
        stargazers: Some(7),
        subscribers: Some(3),
        forks: Some(2),
        size_kb: Some(2),
        created_at_secs: Some(1_000_000),
        updated_at_secs: Some(1_100_000),
        fork: Some(false),
    }
}

fn all_failed() -> StatOutcomes {
    StatOutcomes {
        open_issues: FetchOutcome::Failure,
        closed_issues: FetchOutcome::Failure,
        open_prs: FetchOutcome::Failure,
        merged_prs: FetchOutcome::Failure,
        closed_prs: FetchOutcome::Failure,
        help_wanted: FetchOutcome::Failure,
        good_first_issue: FetchOutcome::Failure,
        hacktoberfest: FetchOutcome::Failure,
    }
}

#[test]
fn decimal_rendering() {
    assert_eq!(u64_to_string(0), "0");
    assert_eq!(u64_to_string(7), "7");
    assert_eq!(u64_to_string(1234567890), "1234567890");
    assert_eq!(u64_to_string(u64::MAX), "18446744073709551615");
}

#[test]
fn boolean_rendering() {
    assert_eq!(bool_to_string(true), "true");
    assert_eq!(bool_to_string(false), "false");
}

#[test]
fn placeholder_token() {
    assert_eq!(placeholder_string(), "???");
}

#[test]
fn stat_line_shape() {
    assert_eq!(stat_string("stargazers", "⭐", "7"), "⭐stargazers: 7");
}

#[test]
fn count_placeholder_substitution() {
    assert_eq!(count_or_placeholder(&FetchOutcome::Success(12)), "12");
    assert_eq!(count_or_placeholder(&FetchOutcome::Failure), "???");
}

#[test]
fn ratio_partial_failure() {
    let mut outcomes = all_failed();
    outcomes.open_issues = FetchOutcome::Success(12);
    let stats = build_stats(
        &sample_identity(),
        &sample_metadata(),
        &outcomes,
        &Emojis::default(),
        &Labels::default(),
        1_100_000,
    );
    assert_eq!(stats[5], "❗open/closed issues: 12/???");
}

#[test]
fn ratio_full_failure() {
    let stats = build_stats(
        &sample_identity(),
        &sample_metadata(),
        &all_failed(),
        &Emojis::default(),
        &Labels::default(),
        1_100_000,
    );
    assert_eq!(stats[5], "❗open/closed issues: ???/???");
    assert_eq!(stats[6], "🔀open/merged/closed PRs: ???/???/???");
}

#[test]
fn label_count_zero_is_suppressed() {
    let title = label_title("help wanted");
    assert_eq!(title, "available \"help wanted\" issues");
    assert!(label_count_line(&FetchOutcome::Success(0), "🙇", title.as_str()).is_none());
}

#[test]
fn label_count_failure_is_suppressed() {
    let title = label_title("help wanted");
    assert!(label_count_line(&FetchOutcome::Failure, "🙇", title.as_str()).is_none());
}

#[test]
fn label_count_one_shows_one_line() {
    let title = label_title("help wanted");
    let line = label_count_line(&FetchOutcome::Success(1), "🙇", title.as_str()).unwrap();
    assert_eq!(line, "🙇available \"help wanted\" issues: 1");
}

#[test]
fn two_kilobytes_render_in_binary_units() {
    assert_eq!(size_value(&Some(2)), "1.95 KiB");
}

#[test]
fn size_transform_is_deterministic() {
    assert_eq!(size_value(&Some(2)), size_value(&Some(2)));
}

#[test]
fn absent_size_renders_as_zero_bytes() {
    assert_eq!(size_value(&None), "0 B");
}

#[test]
fn time_offset_is_humanized() {
    let now: i64 = 1_000_000_000;
    assert_eq!(time_value(&Some(now - 172_800), now), "2 days ago");
    assert_eq!(time_value(&None, now), "???");
}

#[test]
fn base_lines_survive_total_optional_failure() {
    let stats = build_stats(
        &sample_identity(),
        &sample_metadata(),
        &all_failed(),
        &Emojis::default(),
        &Labels::default(),
        1_100_000,
    );
    assert_eq!(stats.len(), 11);
    assert_eq!(stats[0], "octocat/hello:");
    assert_eq!(stats[1], "🌐URL: https://github.com/octocat/hello.git");
    assert_eq!(stats[2], "⭐stargazers: 7");
    assert_eq!(stats[3], "👀subscribers: 3");
    assert_eq!(stats[4], "🔱forks: 2");
    assert_eq!(stats[9], "💽size: 1.95 KiB");
    assert_eq!(stats[10], "🥄original: true");
}

#[test]
fn shown_label_categories_add_lines() {
    let mut outcomes = all_failed();
    outcomes.help_wanted = FetchOutcome::Success(4);
    outcomes.good_first_issue = FetchOutcome::Success(0);
    outcomes.hacktoberfest = FetchOutcome::Success(2);
    let stats = build_stats(
        &sample_identity(),
        &sample_metadata(),
        &outcomes,
        &Emojis::default(),
        &Labels::default(),
        1_100_000,
    );
    assert_eq!(stats.len(), 13);
    assert_eq!(stats[11], "🙇available \"help wanted\" issues: 4");
    assert_eq!(stats[12], "🎃available hacktoberfest issues: 2");
}

#[test]
fn absent_metadata_fields_show_defaults() {
    let metadata = RepoMetadata {
        clone_url: None,
        stargazers: None,
        subscribers: None,
        forks: None,
        size_kb: None,
        created_at_secs: None,
        updated_at_secs: None,
        fork: None,
    };
    let stats = build_stats(
        &sample_identity(),
        &metadata,
        &all_failed(),
        &Emojis::default(),
        &Labels::default(),
        0,
    );
    assert_eq!(stats[1], "🌐URL: ???");
    assert_eq!(stats[2], "⭐stargazers: 0");
    assert_eq!(stats[7], "🐣created: ???");
    assert_eq!(stats[10], "🥄original: true");
}
