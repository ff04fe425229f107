//! Configuration injected into the report: one icon per stat category, the
//! two configurable label texts, and an optional credential.

use vstd::prelude::*;
use crate::width::display_width_of;
use crate::width::is_two_columns;

verus! {

/// One icon per stat category. Every icon is expected to occupy two
/// terminal columns, so that the text after it starts at the same column
/// on every line; [`Emojis::icons_two_columns`] checks that.
pub struct Emojis {
    pub url: String,
    pub star: String,
    pub subscriber: String,
    pub fork: String,
    pub issue: String,
    pub pull_request: String,
    pub created: String,
    pub updated: String,
    pub size: String,
    pub original: String,
    pub help_wanted: String,
    pub good_first_issue: String,
    pub hacktoberfest: String,
    pub placeholder: String,
}

/// The label texts of the two configurable "opportunity" searches, as they
/// appear on the remote service.
pub struct Labels {
    pub help_wanted: String,
    pub good_first_issue: String,
}

/// Everything one invocation is configured with.
pub struct RepofetchConfig {
    pub emojis: Emojis,
    pub labels: Labels,
    pub github_token: Option<String>,
}

/// Default icon for the clone URL.
pub fn default_url() -> (r: String)
    ensures
        r@ == "🌐"@,
{
    String::from_str("🌐")
}

/// Default icon for the stargazer count.
pub fn default_star() -> (r: String)
    ensures
        r@ == "⭐"@,
{
    String::from_str("⭐")
}

/// Default icon for the subscriber count.
pub fn default_watcher() -> (r: String)
    ensures
        r@ == "👀"@,
{
    String::from_str("👀")
}

/// Default icon for the fork count.
pub fn default_fork() -> (r: String)
    ensures
        r@ == "🔱"@,
{
    String::from_str("🔱")
}

/// Default icon for the issue counts.
pub fn default_issue() -> (r: String)
    ensures
        r@ == "❗"@,
{
    String::from_str("❗")
}

/// Default icon for the pull-request counts.
pub fn default_pr() -> (r: String)
    ensures
        r@ == "🔀"@,
{
    String::from_str("🔀")
}

/// Default icon for the creation time.
pub fn default_created() -> (r: String)
    ensures
        r@ == "🐣"@,
{
    String::from_str("🐣")
}

/// Default icon for the last-update time.
pub fn default_updated() -> (r: String)
    ensures
        r@ == "📤"@,
{
    String::from_str("📤")
}

/// Default icon for the repository size.
pub fn default_size() -> (r: String)
    ensures
        r@ == "💽"@,
{
    String::from_str("💽")
}

/// Default icon for the originality flag.
pub fn default_spoon() -> (r: String)
    ensures
        r@ == "🥄"@,
{
    String::from_str("🥄")
}

/// Default icon for the help-wanted count.
pub fn default_help_wanted() -> (r: String)
    ensures
        r@ == "🙇"@,
{
    String::from_str("🙇")
}

/// Default icon for the good-first-issue count.
pub fn default_first_issue() -> (r: String)
    ensures
        r@ == "🔰"@,
{
    String::from_str("🔰")
}

/// Default icon for the hacktoberfest count.
pub fn default_hacktoberfest() -> (r: String)
    ensures
        r@ == "🎃"@,
{
    String::from_str("🎃")
}

/// Default two-column blank icon.
pub fn default_empty() -> (r: String)
    ensures
        r@ == "  "@,
{
    String::from_str("  ")
}

/// Default text of the help-wanted label.
pub fn help_wanted_label() -> (r: String)
    ensures
        r@ == "help wanted"@,
{
    String::from_str("help wanted")
}

/// Default text of the good-first-issue label.
pub fn good_first_issue_label() -> (r: String)
    ensures
        r@ == "good first issue"@,
{
    String::from_str("good first issue")
}

impl Default for Emojis {
    fn default() -> (r: Emojis)
        ensures
            r.url@ == "🌐"@,
            r.star@ == "⭐"@,
            r.subscriber@ == "👀"@,
            r.fork@ == "🔱"@,
            r.issue@ == "❗"@,
            r.pull_request@ == "🔀"@,
            r.created@ == "🐣"@,
            r.updated@ == "📤"@,
            r.size@ == "💽"@,
            r.original@ == "🥄"@,
            r.help_wanted@ == "🙇"@,
            r.good_first_issue@ == "🔰"@,
            r.hacktoberfest@ == "🎃"@,
            r.placeholder@ == "  "@,
    {
        Emojis {
            url: default_url(),
            star: default_star(),
            subscriber: default_watcher(),
            fork: default_fork(),
            issue: default_issue(),
            pull_request: default_pr(),
            created: default_created(),
            updated: default_updated(),
            size: default_size(),
            original: default_spoon(),
            help_wanted: default_help_wanted(),
            good_first_issue: default_first_issue(),
            hacktoberfest: default_hacktoberfest(),
            placeholder: default_empty(),
        }
    }
}

impl Default for Labels {
    fn default() -> (r: Labels)
        ensures
            r.help_wanted@ == "help wanted"@,
            r.good_first_issue@ == "good first issue"@,
    {
        Labels {
            help_wanted: help_wanted_label(),
            good_first_issue: good_first_issue_label(),
        }
    }
}

impl Default for RepofetchConfig {
    fn default() -> (r: RepofetchConfig)
        ensures
            r.emojis.url@ == "🌐"@,
            r.labels.help_wanted@ == "help wanted"@,
            r.labels.good_first_issue@ == "good first issue"@,
            r.github_token is None,
    {
        RepofetchConfig {
            emojis: Emojis::default(),
            labels: Labels::default(),
            github_token: None,
        }
    }
}

impl Emojis {
    /// Whether every configured icon, the blank placeholder included,
    /// occupies exactly two terminal columns.
    pub fn icons_two_columns(&self) -> (r: bool)
        ensures
            r == (display_width_of(self.url@) == 2 && display_width_of(self.star@) == 2
                && display_width_of(self.subscriber@) == 2 && display_width_of(self.fork@) == 2
                && display_width_of(self.issue@) == 2 && display_width_of(self.pull_request@) == 2
                && display_width_of(self.created@) == 2 && display_width_of(self.updated@) == 2
                && display_width_of(self.size@) == 2 && display_width_of(self.original@) == 2
                && display_width_of(self.help_wanted@) == 2
                && display_width_of(self.good_first_issue@) == 2
                && display_width_of(self.hacktoberfest@) == 2
                && display_width_of(self.placeholder@) == 2),
    {
        is_two_columns(self.url.as_str()) && is_two_columns(self.star.as_str())
            && is_two_columns(self.subscriber.as_str()) && is_two_columns(self.fork.as_str())
            && is_two_columns(self.issue.as_str()) && is_two_columns(self.pull_request.as_str())
            && is_two_columns(self.created.as_str()) && is_two_columns(self.updated.as_str())
            && is_two_columns(self.size.as_str()) && is_two_columns(self.original.as_str())
            && is_two_columns(self.help_wanted.as_str())
            && is_two_columns(self.good_first_issue.as_str())
            && is_two_columns(self.hacktoberfest.as_str())
            && is_two_columns(self.placeholder.as_str())
    }
}

} // verus!
