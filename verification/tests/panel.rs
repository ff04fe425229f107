use repofetch::config::{Emojis, Labels, RepofetchConfig};
use repofetch::outcome::FetchOutcome;
use repofetch::render::{render_panel, render_report, split_lines, PanelError};
use repofetch::query::RepoIdentity;
use repofetch::stats::{RepoMetadata, StatOutcomes};
use unicode_width::UnicodeWidthStr;

fn lines(v: &[&str]) -> Vec<String> {
    v.iter().map(|s| String::from(*s)).collect()
}

fn sample_metadata() -> RepoMetadata {
    RepoMetadata {
        clone_url: Some(String::from("https://github.com/o/n.git")),
        stargazers: Some(1),
        subscribers: Some(1),
        forks: Some(0),
        size_kb: Some(1),
        created_at_secs: Some(0),
        updated_at_secs: Some(0),
        fork: Some(true),
    }
}

fn all_failed() -> StatOutcomes {
    StatOutcomes {
        open_issues: FetchOutcome::Failure,
        closed_issues: FetchOutcome::Failure,
        open_prs: FetchOutcome::Failure,
        merged_prs: FetchOutcome::Failure,
        closed_prs: FetchOutcome::Failure,
        help_wanted: FetchOutcome::Failure,
        good_first_issue: FetchOutcome::Failure,
        hacktoberfest: FetchOutcome::Failure,
    }
}

fn config() -> RepofetchConfig {
    RepofetchConfig {
        emojis: Emojis::default(),
        labels: Labels::default(),
        github_token: None,
    }
}

#[test]
fn split_lines_plain() {
    assert_eq!(split_lines("a\nbb\nccc"), lines(&["a", "bb", "ccc"]));
}

#[test]
fn split_lines_final_terminator_adds_no_line() {
    assert_eq!(split_lines("a\nb\n"), lines(&["a", "b"]));
}

#[test]
fn split_lines_crlf() {
    assert_eq!(split_lines("a\r\nb\r\n"), lines(&["a", "b"]));
}

#[test]
fn split_lines_empty_middle_line() {
    assert_eq!(split_lines("a\n\nb"), lines(&["a", "", "b"]));
}

#[test]
fn split_lines_lone_carriage_return_stays() {
    assert_eq!(split_lines("x\r"), lines(&["x\r"]));
}

#[test]
fn panel_alignment_five_art_three_stats() {
    let art = lines(&["aaaa", "bb", "cccccc", "d", ""]);
    let stats = lines(&["s1", "s2", "s3"]);
    let rows = render_panel(&art, &stats, 6).unwrap();
    assert_eq!(rows.len(), 5);
    assert_eq!(rows[0], "aaaa       s1");
    assert_eq!(rows[1], "bb         s2");
    assert_eq!(rows[2], "cccccc     s3");
    assert_eq!(rows[3], "d");
    assert_eq!(rows[4], "");
    for row in rows.iter().take(3) {
        let stat_start = row.len() - 2;
        assert_eq!(UnicodeWidthStr::width(&row[..stat_start]), 11);
    }
}

#[test]
fn panel_pads_by_display_width_not_char_count() {
    let art = lines(&["🎃🎃", "ab"]);
    let stats = lines(&["s1", "s2"]);
    let rows = render_panel(&art, &stats, 4).unwrap();
    assert_eq!(rows[0], "🎃🎃     s1");
    assert_eq!(rows[1], "ab       s2");
    let first_art: &str = &rows[0][..rows[0].len() - 2];
    let second_art: &str = &rows[1][..rows[1].len() - 2];
    assert_eq!(UnicodeWidthStr::width(first_art), UnicodeWidthStr::width(second_art));
}

#[test]
fn wide_art_line_is_never_truncated() {
    let art = lines(&["0123456789"]);
    let stats = lines(&["s"]);
    let rows = render_panel(&art, &stats, 2).unwrap();
    assert_eq!(rows[0], "0123456789s");
}

#[test]
fn more_stats_than_art_is_a_distinct_fatal_error() {
    let art = lines(&["a", "b"]);
    let stats = lines(&["s1", "s2", "s3"]);
    let err = render_panel(&art, &stats, 6).unwrap_err();
    assert!(matches!(err, PanelError::TooManyStatLines));
    assert_eq!(err.message(), "more stat lines than art lines");
    assert_ne!(err.message(), PanelError::MetadataFetchFailed.message());
}

#[test]
fn metadata_failure_is_fatal() {
    let repo = RepoIdentity { owner: String::from("o"), name: String::from("n") };
    let art = "a\nb\nc\n";
    let err = render_report(
        &repo,
        &FetchOutcome::Failure,
        &all_failed(),
        &config(),
        0,
        art,
        40,
    )
    .unwrap_err();
    assert!(matches!(err, PanelError::MetadataFetchFailed));
    assert_eq!(err.message(), "couldn't fetch remote repository metadata");
}

#[test]
fn optional_failures_still_render_a_full_panel() {
    let repo = RepoIdentity { owner: String::from("o"), name: String::from("n") };
    let art: String = vec!["~~~"; 14].join("\n");
    let rows = render_report(
        &repo,
        &FetchOutcome::Success(sample_metadata()),
        &all_failed(),
        &config(),
        0,
        art.as_str(),
        3,
    )
    .unwrap();
    assert_eq!(rows.len(), 14);
    assert_eq!(rows[0], "~~~     o/n:");
    assert_eq!(rows[11], "~~~");
    assert!(rows[5].contains("???/???"));
}

#[test]
fn full_report_fits_fourteen_art_lines_exactly() {
    let repo = RepoIdentity { owner: String::from("o"), name: String::from("n") };
    let mut outcomes = all_failed();
    outcomes.help_wanted = FetchOutcome::Success(1);
    outcomes.good_first_issue = FetchOutcome::Success(2);
    outcomes.hacktoberfest = FetchOutcome::Success(3);
    let art14: String = vec!["#"; 14].join("\n");
    let rows = render_report(
        &repo,
        &FetchOutcome::Success(sample_metadata()),
        &outcomes,
        &config(),
        0,
        art14.as_str(),
        1,
    )
    .unwrap();
    assert_eq!(rows.len(), 14);
    assert!(rows[13].ends_with("available hacktoberfest issues: 3"));

    let art13: String = vec!["#"; 13].join("\n");
    let err = render_report(
        &repo,
        &FetchOutcome::Success(sample_metadata()),
        &outcomes,
        &config(),
        0,
        art13.as_str(),
        1,
    )
    .unwrap_err();
    assert!(matches!(err, PanelError::TooManyStatLines));
}

#[test]
fn short_art_with_many_stats_fails_the_render() {
    let repo = RepoIdentity { owner: String::from("o"), name: String::from("n") };
    let err = render_report(
        &repo,
        &FetchOutcome::Success(sample_metadata()),
        &all_failed(),
        &config(),
        0,
        "one\ntwo\n",
        3,
    )
    .unwrap_err();
    assert!(matches!(err, PanelError::TooManyStatLines));
}
