use repofetch::config::Emojis;
use unicode_width::UnicodeWidthStr;

#[test]
fn empty() {
    assert_eq!(UnicodeWidthStr::width(repofetch::config::default_empty().as_str()), 2);
}

#[test]
fn url_size() {
    assert_eq!(UnicodeWidthStr::width(repofetch::config::default_url().as_str()), 2);
}

#[test]
fn star_size() {
    assert_eq!(UnicodeWidthStr::width(repofetch::config::default_star().as_str()), 2);
}

#[test]
fn watcher_size() {
    assert_eq!(UnicodeWidthStr::width(repofetch::config::default_watcher().as_str()), 2);
}

#[test]
fn fork_size() {
    assert_eq!(UnicodeWidthStr::width(repofetch::config::default_fork().as_str()), 2);
}

#[test]
fn issue_size() {
    assert_eq!(UnicodeWidthStr::width(repofetch::config::default_issue().as_str()), 2);
}

#[test]
fn pull_request_size() {
    assert_eq!(UnicodeWidthStr::width(repofetch::config::default_pr().as_str()), 2);
}

#[test]
fn created_size() {
    assert_eq!(UnicodeWidthStr::width(repofetch::config::default_created().as_str()), 2);
}

#[test]
fn updated_size() {
    assert_eq!(UnicodeWidthStr::width(repofetch::config::default_updated().as_str()), 2);
}

#[test]
fn size_size() {
    assert_eq!(UnicodeWidthStr::width(repofetch::config::default_size().as_str()), 2);
}

#[test]
fn not_fork_size() {
    assert_eq!(UnicodeWidthStr::width(repofetch::config::default_spoon().as_str()), 2);
}

#[test]
fn help_wanted_size() {
    assert_eq!(UnicodeWidthStr::width(repofetch::config::default_help_wanted().as_str()), 2);
}

#[test]
fn good_first_issue_size() {
    assert_eq!(UnicodeWidthStr::width(repofetch::config::default_first_issue().as_str()), 2);
}

#[test]
fn hacktoberfest_size() {
    assert_eq!(UnicodeWidthStr::width(repofetch::config::default_hacktoberfest().as_str()), 2);
}

#[test]
fn default_icons_pass_the_two_column_check() {
    assert!(Emojis::default().icons_two_columns());
}

#[test]
fn one_column_icon_fails_the_two_column_check() {
    let mut emojis = Emojis::default();
    emojis.star = String::from("*");
    assert_eq!(UnicodeWidthStr::width(emojis.star.as_str()), 1);
    assert!(!emojis.icons_two_columns());
}

#[test]
fn default_labels() {
    let labels = repofetch::config::Labels::default();
    assert_eq!(labels.help_wanted, "help wanted");
    assert_eq!(labels.good_first_issue, "good first issue");
}
