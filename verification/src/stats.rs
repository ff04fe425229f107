//! Stat formatting: maps each fetched value, or its absence, into one
//! display line of the form `<icon><label>: <value>`.
//!
//! Core repository stats are always worth showing, so a failed fetch shows
//! the placeholder `???` instead of dropping the line. The three
//! label-count stats are noise when zero or unavailable, so a failed or
//! zero-valued fetch omits the whole line.

use vstd::prelude::*;
use crate::config::Emojis;
use crate::config::Labels;
use crate::numbers::bool_seq;
use crate::numbers::bool_to_string;
use crate::numbers::dec_digits;
use crate::numbers::u64_to_string;
use crate::outcome::FetchOutcome;
use crate::query::RepoIdentity;

verus! {

/// The repository metadata the load-bearing fetch decodes. Each field the
/// remote service may omit is optional; timestamps are Unix seconds and
/// the size is in kilobytes, as the service reports it.
pub struct RepoMetadata {
    pub clone_url: Option<String>,
    pub stargazers: Option<u64>,
    pub subscribers: Option<u64>,
    pub forks: Option<u64>,
    pub size_kb: Option<u64>,
    pub created_at_secs: Option<i64>,
    pub updated_at_secs: Option<i64>,
    pub fork: Option<bool>,
}

/// The eight independent search outcomes, positionally: fetch `i` aligns
/// with request `i` of the standard plan, and no failure discards a
/// sibling's result.
pub struct StatOutcomes {
    pub open_issues: FetchOutcome<u64>,
    pub closed_issues: FetchOutcome<u64>,
    pub open_prs: FetchOutcome<u64>,
    pub merged_prs: FetchOutcome<u64>,
    pub closed_prs: FetchOutcome<u64>,
    pub help_wanted: FetchOutcome<u64>,
    pub good_first_issue: FetchOutcome<u64>,
    pub hacktoberfest: FetchOutcome<u64>,
}

/// The fixed token shown where a value could not be fetched.
pub open spec fn placeholder_seq() -> Seq<char> {
    "???"@
}

/// The placeholder as a value.
pub fn placeholder_string() -> (r: String)
    ensures
        r@ == placeholder_seq(),
{
    String::from_str("???")
}

/// One display line: `<icon><title>: <value>`.
pub open spec fn stat_line_seq(emoji: Seq<char>, title: Seq<char>, value: Seq<char>) -> Seq<char> {
    emoji + title + ": "@ + value
}

/// Formats one display line from its icon, title and rendered value.
pub fn stat_string(title: &str, emoji: &str, data: &str) -> (r: String)
    ensures
        r@ == stat_line_seq(emoji@, title@, data@),
{
    let mut s = String::from_str(emoji);
    s.append(title);
    s.append(": ");
    s.append(data);
    proof {
        assert(s@ =~= stat_line_seq(emoji@, title@, data@));
    }
    s
}

/// A fetched count, or the placeholder where the fetch failed.
pub open spec fn count_value_seq(o: FetchOutcome<u64>) -> Seq<char> {
    match o {
        FetchOutcome::Success(n) => dec_digits(n as nat),
        FetchOutcome::Failure => placeholder_seq(),
    }
}

/// Renders a fetched count, substituting the placeholder on failure.
pub fn count_or_placeholder(o: &FetchOutcome<u64>) -> (r: String)
    ensures
        r@ == count_value_seq(*o),
{
    match o {
        FetchOutcome::Success(n) => u64_to_string(*n),
        FetchOutcome::Failure => placeholder_string(),
    }
}

/// A count the metadata fetch may have omitted; an absent count shows as
/// zero.
pub open spec fn opt_count_seq(c: Option<u64>) -> Seq<char> {
    dec_digits(
        (match c {
            Some(n) => n,
            None => 0,
        }) as nat,
    )
}

/// Renders an optional metadata count, an absent one as zero.
pub fn opt_count_string(c: &Option<u64>) -> (r: String)
    ensures
        r@ == opt_count_seq(*c),
{
    match c {
        Some(n) => u64_to_string(*n),
        None => u64_to_string(0),
    }
}

/// What a size of `bytes` renders as in human-readable binary units
/// (KiB, MiB, ...). The exact text takes pages to state; it depends on the
/// byte count alone.
pub uninterp spec fn binary_size_of(bytes: u64) -> Seq<char>;

/// Relies on `humansize::format_size` with the `BINARY` options: renders a
/// byte count in binary units, a pure function of the count.
#[verifier::external_body]
fn format_binary_size(bytes: u64) -> (r: String)
    ensures
        r@ == binary_size_of(bytes),
{
    humansize::format_size(bytes, humansize::BINARY)
}

/// The size line's value: the reported kilobyte count times 1000, rendered
/// in binary units; the placeholder if that byte count does not fit a
/// machine word (defensive — the remote never reports such a size).
/// An absent size renders as zero bytes.
pub open spec fn size_value_seq(kb: Option<u64>) -> Seq<char> {
    let k = match kb {
        Some(n) => n,
        None => 0u64,
    };
    if k * 1000 <= u64::MAX {
        binary_size_of((k * 1000) as u64)
    } else {
        placeholder_seq()
    }
}

/// Renders the repository size: kilobytes reported by the service, times
/// 1000 to get bytes, in human-readable binary units.
pub fn size_value(kb: &Option<u64>) -> (r: String)
    ensures
        r@ == size_value_seq(*kb),
{
    let k: u64 = match kb {
        Some(n) => *n,
        None => 0,
    };
    if k <= u64::MAX / 1000 {
        format_binary_size(k * 1000)
    } else {
        placeholder_string()
    }
}

/// The widest offset, in whole seconds, the humanizer accepts either way.
pub const MAX_HUMANIZE_SECS: i64 = 9_223_372_036_854_775;

/// What an offset of `secs` seconds from the present renders as in rough
/// human terms ("2 days ago", "in a month"). The exact text takes pages to
/// state; it depends on the offset alone.
pub uninterp spec fn humanized_of(secs: i64) -> Seq<char>;

/// Relies on `chrono_humanize::HumanTime` over `chrono::TimeDelta::seconds`:
/// renders a signed offset from the present in rough human terms, a pure
/// function of the offset. `TimeDelta::seconds` panics outside
/// `±i64::MAX / 1000` seconds, so those offsets are excluded.
#[verifier::external_body]
fn humanize_offset(secs: i64) -> (r: String)
    requires
        -MAX_HUMANIZE_SECS <= secs <= MAX_HUMANIZE_SECS,
    ensures
        r@ == humanized_of(secs),
{
    chrono_humanize::HumanTime::from(chrono::Duration::seconds(secs)).to_string()
}

/// A timestamp's display: the offset from `now_secs`, humanized; the
/// placeholder where the timestamp is absent or the offset is too wide for
/// the humanizer (defensive — real timestamps are nowhere near the bound).
pub open spec fn time_value_seq(t: Option<i64>, now_secs: i64) -> Seq<char> {
    match t {
        None => placeholder_seq(),
        Some(ts) => {
            let d = ts - now_secs;
            if -MAX_HUMANIZE_SECS <= d <= MAX_HUMANIZE_SECS {
                humanized_of(d as i64)
            } else {
                placeholder_seq()
            }
        },
    }
}

/// Renders an optional timestamp as a humanized offset from `now_secs`.
pub fn time_value(t: &Option<i64>, now_secs: i64) -> (r: String)
    ensures
        r@ == time_value_seq(*t, now_secs),
{
    match t {
        None => placeholder_string(),
        Some(ts) => {
            let d: i128 = *ts as i128 - now_secs as i128;
            if -(MAX_HUMANIZE_SECS as i128) <= d && d <= MAX_HUMANIZE_SECS as i128 {
                humanize_offset(d as i64)
            } else {
                placeholder_string()
            }
        },
    }
}

/// Whether a label-count category earns a line: only a successful fetch of
/// a positive count does; zero and unknown are indistinguishable noise.
pub open spec fn label_shown(o: FetchOutcome<u64>) -> bool {
    match o {
        FetchOutcome::Success(n) => n > 0,
        FetchOutcome::Failure => false,
    }
}

/// A label-count line, or nothing where the category is suppressed.
pub open spec fn label_line_seq(o: FetchOutcome<u64>, emoji: Seq<char>, title: Seq<char>) -> Option<
    Seq<char>,
> {
    match o {
        FetchOutcome::Success(n) => if n > 0 {
            Some(stat_line_seq(emoji, title, dec_digits(n as nat)))
        } else {
            None
        },
        FetchOutcome::Failure => None,
    }
}

/// Renders a label-count line, or nothing for a failed or zero-valued
/// fetch.
pub fn label_count_line(o: &FetchOutcome<u64>, emoji: &str, title: &str) -> (r: Option<String>)
    ensures
        match r {
            Some(line) => label_line_seq(*o, emoji@, title@) == Some(line@),
            None => label_line_seq(*o, emoji@, title@) is None,
        },
{
    match o {
        FetchOutcome::Success(n) => {
            if *n > 0 {
                let v = u64_to_string(*n);
                Some(stat_string(title, emoji, v.as_str()))
            } else {
                None
            }
        },
        FetchOutcome::Failure => None,
    }
}

/// The suppression rule: a label-count category whose fetch failed or
/// returned zero produces no line at all, while a successful count of one
/// produces exactly one line whose value is the single digit one.
pub proof fn lemma_label_suppression(emoji: Seq<char>, title: Seq<char>)
    ensures
        label_line_seq(FetchOutcome::Success(0u64), emoji, title) is None,
        label_line_seq(FetchOutcome::Failure, emoji, title) is None,
        label_line_seq(FetchOutcome::Success(1u64), emoji, title) == Some(
            stat_line_seq(emoji, title, seq!['1']),
        ),
{
    assert(dec_digits(1) =~= seq!['1']);
}

/// The title of a configurable label-count line: `available "<label>" issues`.
pub open spec fn label_title_seq(label: Seq<char>) -> Seq<char> {
    "available \""@ + label + "\" issues"@
}

/// Renders the title of a configurable label-count line.
pub fn label_title(label: &str) -> (r: String)
    ensures
        r@ == label_title_seq(label@),
{
    let mut s = String::from_str("available \"");
    s.append(label);
    s.append("\" issues");
    proof {
        assert(s@ =~= label_title_seq(label@));
    }
    s
}

/// The URL line's value: the clone URL, or the placeholder where the
/// service omitted it.
pub open spec fn url_value_seq(u: Option<String>) -> Seq<char> {
    match u {
        Some(url) => url@,
        None => placeholder_seq(),
    }
}

/// The originality flag: a repository is original when it is not a fork;
/// an absent flag counts as not a fork.
pub open spec fn original_seq(fork: Option<bool>) -> Seq<char> {
    bool_seq(
        !(match fork {
            Some(b) => b,
            None => false,
        }),
    )
}

/// The eleven lines every report shows: the `owner/name:` header, then the
/// URL, stargazer, subscriber, fork, issue-ratio, PR-ratio, created,
/// updated, size and originality lines, in that order.
pub open spec fn base_stats_seq(
    repo: &RepoIdentity,
    m: &RepoMetadata,
    o: &StatOutcomes,
    e: &Emojis,
    now_secs: i64,
) -> Seq<Seq<char>> {
    seq![
        repo.slug_seq() + ":"@,
        stat_line_seq(e.url@, "URL"@, url_value_seq(m.clone_url)),
        stat_line_seq(e.star@, "stargazers"@, opt_count_seq(m.stargazers)),
        stat_line_seq(e.subscriber@, "subscribers"@, opt_count_seq(m.subscribers)),
        stat_line_seq(e.fork@, "forks"@, opt_count_seq(m.forks)),
        stat_line_seq(
            e.issue@,
            "open/closed issues"@,
            count_value_seq(o.open_issues) + "/"@ + count_value_seq(o.closed_issues),
        ),
        stat_line_seq(
            e.pull_request@,
            "open/merged/closed PRs"@,
            count_value_seq(o.open_prs) + "/"@ + count_value_seq(o.merged_prs) + "/"@
                + count_value_seq(o.closed_prs),
        ),
        stat_line_seq(e.created@, "created"@, time_value_seq(m.created_at_secs, now_secs)),
        stat_line_seq(e.updated@, "updated"@, time_value_seq(m.updated_at_secs, now_secs)),
        stat_line_seq(e.size@, "size"@, size_value_seq(m.size_kb)),
        stat_line_seq(e.original@, "original"@, original_seq(m.fork)),
    ]
}

/// Appends a label-count line where the category earns one.
pub open spec fn push_label_line(
    lines: Seq<Seq<char>>,
    o: FetchOutcome<u64>,
    emoji: Seq<char>,
    title: Seq<char>,
) -> Seq<Seq<char>> {
    match label_line_seq(o, emoji, title) {
        Some(line) => lines.push(line),
        None => lines,
    }
}

/// Every line of one report, in display order: the eleven base lines, then
/// the help-wanted, good-first-issue and hacktoberfest lines, each present
/// exactly when its fetch succeeded with a positive count.
pub open spec fn stats_seq(
    repo: &RepoIdentity,
    m: &RepoMetadata,
    o: &StatOutcomes,
    e: &Emojis,
    l: &Labels,
    now_secs: i64,
) -> Seq<Seq<char>> {
    let base = base_stats_seq(repo, m, o, e, now_secs);
    let with_hw = push_label_line(base, o.help_wanted, e.help_wanted@, label_title_seq(
        l.help_wanted@,
    ));
    let with_gfi = push_label_line(with_hw, o.good_first_issue, e.good_first_issue@,
        label_title_seq(l.good_first_issue@),
    );
    push_label_line(with_gfi, o.hacktoberfest, e.hacktoberfest@,
        "available hacktoberfest issues"@,
    )
}

/// How many lines a report has: the eleven base lines plus one per shown
/// label-count category.
pub open spec fn stats_len(o: &StatOutcomes) -> int {
    11 + (if label_shown(o.help_wanted) {
        1int
    } else {
        0int
    }) + (if label_shown(o.good_first_issue) {
        1int
    } else {
        0int
    }) + (if label_shown(o.hacktoberfest) {
        1int
    } else {
        0int
    })
}

/// A report's line count is its base plus its shown label categories, so
/// isolated failures of the eight optional fetches only ever shorten the
/// list, never break it: whatever subset fails, the list keeps between
/// eleven and fourteen lines.
pub proof fn lemma_stats_len(
    repo: &RepoIdentity,
    m: &RepoMetadata,
    o: &StatOutcomes,
    e: &Emojis,
    l: &Labels,
    now_secs: i64,
)
    ensures
        stats_seq(repo, m, o, e, l, now_secs).len() == stats_len(o),
        11 <= stats_seq(repo, m, o, e, l, now_secs).len() <= 14,
{
}

/// Builds every display line of one report from the metadata and the eight
/// search outcomes.
pub fn build_stats(
    repo: &RepoIdentity,
    m: &RepoMetadata,
    o: &StatOutcomes,
    e: &Emojis,
    l: &Labels,
    now_secs: i64,
) -> (r: Vec<String>)
    ensures
        r.deep_view() == stats_seq(repo, m, o, e, l, now_secs),
        r@.len() == stats_len(o),
{
    let mut v: Vec<String> = Vec::new();
    let mut header = repo.slug();
    header.append(":");
    v.push(header);

    let url_val = match &m.clone_url {
        Some(u) => u.clone(),
        None => placeholder_string(),
    };
    v.push(stat_string("URL", e.url.as_str(), url_val.as_str()));

    let star_val = opt_count_string(&m.stargazers);
    v.push(stat_string("stargazers", e.star.as_str(), star_val.as_str()));
    let sub_val = opt_count_string(&m.subscribers);
    v.push(stat_string("subscribers", e.subscriber.as_str(), sub_val.as_str()));
    let fork_val = opt_count_string(&m.forks);
    v.push(stat_string("forks", e.fork.as_str(), fork_val.as_str()));

    let mut issues_val = count_or_placeholder(&o.open_issues);
    issues_val.append("/");
    let closed_val = count_or_placeholder(&o.closed_issues);
    issues_val.append(closed_val.as_str());
    v.push(stat_string("open/closed issues", e.issue.as_str(), issues_val.as_str()));

    let mut prs_val = count_or_placeholder(&o.open_prs);
    prs_val.append("/");
    let merged_val = count_or_placeholder(&o.merged_prs);
    prs_val.append(merged_val.as_str());
    prs_val.append("/");
    let closed_prs_val = count_or_placeholder(&o.closed_prs);
    prs_val.append(closed_prs_val.as_str());
    v.push(stat_string("open/merged/closed PRs", e.pull_request.as_str(), prs_val.as_str()));

    let created_val = time_value(&m.created_at_secs, now_secs);
    v.push(stat_string("created", e.created.as_str(), created_val.as_str()));
    let updated_val = time_value(&m.updated_at_secs, now_secs);
    v.push(stat_string("updated", e.updated.as_str(), updated_val.as_str()));

    let size_val = size_value(&m.size_kb);
    v.push(stat_string("size", e.size.as_str(), size_val.as_str()));

    let original_val = bool_to_string(
        !(match &m.fork {
            Some(b) => *b,
            None => false,
        }),
    );
    v.push(stat_string("original", e.original.as_str(), original_val.as_str()));

    proof {
        assert(v.deep_view() =~~= base_stats_seq(repo, m, o, e, now_secs));
    }

    let hw_title = label_title(l.help_wanted.as_str());
    match label_count_line(&o.help_wanted, e.help_wanted.as_str(), hw_title.as_str()) {
        Some(line) => v.push(line),
        None => {},
    }
    proof {
        assert(v.deep_view() =~~= push_label_line(
            base_stats_seq(repo, m, o, e, now_secs),
            o.help_wanted,
            e.help_wanted@,
            label_title_seq(l.help_wanted@),
        ));
    }

    let gfi_title = label_title(l.good_first_issue.as_str());
    match label_count_line(&o.good_first_issue, e.good_first_issue.as_str(), gfi_title.as_str()) {
        Some(line) => v.push(line),
        None => {},
    }

    match label_count_line(&o.hacktoberfest, e.hacktoberfest.as_str(),
        "available hacktoberfest issues",
    ) {
        Some(line) => v.push(line),
        None => {},
    }

    proof {
        assert(v.deep_view() =~~= stats_seq(repo, m, o, e, l, now_secs));
    }
    v
}

} // verus!
