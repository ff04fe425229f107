//! Panel rendering: merges the ordered stat lines with the fixed-width art
//! block, walking both in lockstep and padding every art line that has a
//! stat beside it to a constant column width.
//!
//! Padding counts terminal columns, not characters: column alignment must
//! survive text whose display width differs from its character count.

use vstd::prelude::*;
use crate::config::RepofetchConfig;
use crate::outcome::FetchOutcome;
use crate::query::RepoIdentity;
use crate::stats::RepoMetadata;
use crate::stats::StatOutcomes;
use crate::stats::build_stats;
use crate::stats::lemma_stats_len;
use crate::stats::stats_len;
use crate::stats::stats_seq;
use crate::width::display_width;
use crate::width::display_width_of;

verus! {

/// The fixed gutter between the art block's declared width and the stats.
pub const GUTTER: usize = 5;

/// `n` spaces.
pub open spec fn spaces_seq(n: nat) -> Seq<char> {
    Seq::new(n, |i: int| ' ')
}

/// Builds a run of `n` spaces.
pub fn spaces(n: usize) -> (r: String)
    ensures
        r@ == spaces_seq(n as nat),
{
    let mut s = String::new();
    let mut i: usize = 0;
    while i < n
        invariant
            i <= n,
            s@ == spaces_seq(i as nat),
        decreases n - i,
    {
        s.append(" ");
        proof {
            reveal_strlit(" ");
            assert(spaces_seq(i as nat) + " "@ =~= spaces_seq((i + 1) as nat));
        }
        i = i + 1;
    }
    s
}

/// Where the first line ends: the index of the first newline, or the whole
/// length where there is none.
pub open spec fn first_nl(s: Seq<char>) -> nat
    decreases s.len(),
{
    if s.len() == 0 {
        0
    } else if s[0] == '\n' {
        0
    } else {
        1 + first_nl(s.drop_first())
    }
}

/// `first_nl` points at the first newline: everything before it is not a
/// newline, and it is a newline unless the text ends first.
pub proof fn lemma_first_nl(s: Seq<char>)
    ensures
        first_nl(s) <= s.len(),
        forall|k: int| 0 <= k < first_nl(s) ==> s[k] != '\n',
        first_nl(s) < s.len() ==> s[first_nl(s) as int] == '\n',
    decreases s.len(),
{
    if s.len() > 0 && s[0] != '\n' {
        lemma_first_nl(s.drop_first());
        assert forall|k: int| 0 <= k < first_nl(s) implies s[k] != '\n' by {
            if k > 0 {
                assert(s.drop_first()[k - 1] == s[k]);
            }
        }
    }
}

/// A line with a trailing carriage return stripped: the `\r` of a `\r\n`
/// ending belongs to the terminator, not to the line.
pub open spec fn strip_cr(l: Seq<char>) -> Seq<char> {
    if l.len() > 0 && l.last() == '\r' {
        l.drop_last()
    } else {
        l
    }
}

/// The lines of a text, split at `\n` or `\r\n` terminators, terminators
/// excluded; a final terminator adds no empty last line.
pub open spec fn lines_seq(s: Seq<char>) -> Seq<Seq<char>>
    decreases s.len(),
{
    if s.len() == 0 {
        Seq::empty()
    } else {
        let i = first_nl(s);
        if i >= s.len() {
            seq![s]
        } else {
            seq![strip_cr(s.subrange(0, i as int))] + lines_seq(
                s.subrange(i as int + 1, s.len() as int),
            )
        }
    }
}

/// Splits a text into its lines.
pub fn split_lines(s: &str) -> (r: Vec<String>)
    ensures
        r.deep_view() == lines_seq(s@),
{
    let n = s.unicode_len();
    let mut r: Vec<String> = Vec::new();
    let mut start: usize = 0;
    proof {
        assert(s@.subrange(0, n as int) =~= s@);
        assert(r.deep_view() + lines_seq(s@) =~= lines_seq(s@));
    }
    while start < n
        invariant
            start <= n,
            n == s@.len(),
            lines_seq(s@) == r.deep_view() + lines_seq(s@.subrange(start as int, n as int)),
        decreases n - start,
    {
        let ghost rest = s@.subrange(start as int, n as int);
        let ghost pre = r.deep_view();
        let mut j: usize = start;
        while j < n && s.get_char(j) != '\n'
            invariant
                start <= j <= n,
                n == s@.len(),
                forall|k: int| start <= k < j ==> s@[k] != '\n',
            decreases n - j,
        {
            j = j + 1;
        }
        proof {
            lemma_first_nl(rest);
            assert forall|k: int| 0 <= k < j - start implies rest[k] != '\n' by {
                assert(rest[k] == s@[start + k]);
            }
            if j < n {
                assert(rest[j - start] == s@[j as int]);
            }
            assert(first_nl(rest) == j - start);
        }
        let line_end = if j < n && j > start && s.get_char(j - 1) == '\r' {
            j - 1
        } else {
            j
        };
        let line = s.substring_char(start, line_end);
        r.push(String::from_str(line));
        proof {
            assert(r.deep_view() =~= pre.push(line@));
        }
        proof {
            let i = first_nl(rest);
            if j < n {
                assert(rest.subrange(0, i as int) =~= s@.subrange(start as int, j as int));
                assert(strip_cr(s@.subrange(start as int, j as int)) =~= s@.subrange(
                    start as int,
                    line_end as int,
                ));
                assert(rest.subrange(i as int + 1, rest.len() as int) =~= s@.subrange(
                    j as int + 1,
                    n as int,
                ));
                assert(lines_seq(rest) == seq![line@] + lines_seq(
                    s@.subrange(j as int + 1, n as int),
                ));
            } else {
                assert(line@ =~= rest);
                assert(lines_seq(rest) == seq![line@]);
            }
        }
        if j < n {
            start = j + 1;
        } else {
            start = n;
        }
        proof {
            if start == n {
                assert(s@.subrange(n as int, n as int) =~= Seq::<char>::empty());
            }
            assert(lines_seq(s@) =~~= r.deep_view() + lines_seq(
                s@.subrange(start as int, n as int),
            ));
        }
    }
    proof {
        assert(s@.subrange(n as int, n as int) =~= Seq::<char>::empty());
        assert(lines_seq(s@) =~~= r.deep_view());
    }
    r
}

/// What aborts a whole invocation. Every other failure is absorbed into a
/// placeholder or an omitted line before rendering starts.
#[derive(Debug)]
pub enum PanelError {
    /// The load-bearing repository-metadata fetch failed; every stat line
    /// keys off it, so there is nothing worth rendering.
    MetadataFetchFailed,
    /// More stat lines than art lines: an error in the art asset's
    /// configuration, not a runtime condition to recover from.
    TooManyStatLines,
}

impl PanelError {
    /// A descriptive cause for the caller to surface.
    pub fn message(&self) -> (r: String)
        ensures
            r@ == match self {
                PanelError::MetadataFetchFailed => "couldn't fetch remote repository metadata"@,
                PanelError::TooManyStatLines => "more stat lines than art lines"@,
            },
    {
        match self {
            PanelError::MetadataFetchFailed => String::from_str(
                "couldn't fetch remote repository metadata",
            ),
            PanelError::TooManyStatLines => String::from_str("more stat lines than art lines"),
        }
    }
}

/// An art line padded with spaces up to `target` display columns; a line
/// already that wide or wider is kept whole, never truncated.
pub open spec fn padded_seq(art: Seq<char>, target: nat) -> Seq<char> {
    art + spaces_seq(
        if display_width_of(art) < target {
            (target - display_width_of(art)) as nat
        } else {
            0
        },
    )
}

/// Pads a line with spaces up to `target` display columns.
pub fn pad_to(line: &str, target: usize) -> (r: String)
    ensures
        r@ == padded_seq(line@, target as nat),
{
    let w = display_width(line);
    let pad = if w < target {
        target - w
    } else {
        0
    };
    let mut s = String::from_str(line);
    let sp = spaces(pad);
    s.append(sp.as_str());
    s
}

/// The merged panel: art and stats walked in lockstep. Where both exist at
/// a position, the art line is padded to `target` columns and the stat
/// line follows; a trailing art line without a stat is emitted bare.
pub open spec fn rows_seq(art: Seq<Seq<char>>, stats: Seq<Seq<char>>, target: nat) -> Seq<
    Seq<char>,
>
    recommends
        stats.len() <= art.len(),
{
    Seq::new(
        art.len(),
        |i: int|
            if i < stats.len() {
                padded_seq(art[i], target) + stats[i]
            } else {
                art[i]
            },
    )
}

/// Merges the art lines with the stat lines. The art's declared maximum
/// width plus the fixed gutter gives the column the stats start at. A stat
/// line that would remain after the art is exhausted is a configuration
/// error in the art asset and fails the render distinctly.
pub fn render_panel(art_lines: &Vec<String>, stat_lines: &Vec<String>, declared_width: usize) -> (r:
    Result<Vec<String>, PanelError>)
    requires
        declared_width + GUTTER <= usize::MAX,
    ensures
        match r {
            Ok(rows) => stat_lines@.len() <= art_lines@.len() && rows.deep_view() == rows_seq(
                art_lines.deep_view(),
                stat_lines.deep_view(),
                (declared_width + GUTTER) as nat,
            ),
            Err(e) => e is TooManyStatLines && stat_lines@.len() > art_lines@.len(),
        },
{
    if stat_lines.len() > art_lines.len() {
        return Err(PanelError::TooManyStatLines);
    }
    let target = declared_width + GUTTER;
    let ghost goal = rows_seq(
        art_lines.deep_view(),
        stat_lines.deep_view(),
        (declared_width + GUTTER) as nat,
    );
    let mut rows: Vec<String> = Vec::new();
    let mut i: usize = 0;
    while i < art_lines.len()
        invariant
            i <= art_lines@.len(),
            stat_lines@.len() <= art_lines@.len(),
            target == declared_width + GUTTER,
            goal == rows_seq(
                art_lines.deep_view(),
                stat_lines.deep_view(),
                (declared_width + GUTTER) as nat,
            ),
            rows.deep_view() =~= goal.take(i as int),
        decreases art_lines@.len() - i,
    {
        let ghost pre = rows.deep_view();
        if i < stat_lines.len() {
            let mut row = pad_to(art_lines[i].as_str(), target);
            row.append(stat_lines[i].as_str());
            proof {
                assert(art_lines.deep_view()[i as int] == art_lines@[i as int]@);
                assert(stat_lines.deep_view()[i as int] == stat_lines@[i as int]@);
                assert(row@ == goal[i as int]);
            }
            rows.push(row);
        } else {
            proof {
                assert(art_lines.deep_view()[i as int] == art_lines@[i as int]@);
            }
            rows.push(art_lines[i].clone());
        }
        proof {
            assert(rows.deep_view() =~= pre.push(goal[i as int]));
            assert(rows.deep_view() =~= goal.take(i + 1));
        }
        i = i + 1;
    }
    proof {
        assert(goal.take(art_lines@.len() as int) =~= goal);
    }
    Ok(rows)
}

/// Renders one whole report: fails distinctly where the load-bearing
/// metadata fetch failed or where the stat lines outnumber the art lines;
/// otherwise the panel rows, each optional fetch's failure absorbed into
/// its own line only.
pub fn render_report(
    repo: &RepoIdentity,
    meta: &FetchOutcome<RepoMetadata>,
    outcomes: &StatOutcomes,
    config: &RepofetchConfig,
    now_secs: i64,
    art: &str,
    declared_width: usize,
) -> (r: Result<Vec<String>, PanelError>)
    requires
        declared_width + GUTTER <= usize::MAX,
    ensures
        match r {
            Ok(rows) => meta is Success && stats_seq(
                repo,
                &meta.value(),
                outcomes,
                &config.emojis,
                &config.labels,
                now_secs,
            ).len() <= lines_seq(art@).len() && rows.deep_view() == rows_seq(
                lines_seq(art@),
                stats_seq(
                    repo,
                    &meta.value(),
                    outcomes,
                    &config.emojis,
                    &config.labels,
                    now_secs,
                ),
                (declared_width + GUTTER) as nat,
            ),
            Err(e) => match e {
                PanelError::MetadataFetchFailed => meta is Failure,
                PanelError::TooManyStatLines => meta is Success && stats_seq(
                    repo,
                    &meta.value(),
                    outcomes,
                    &config.emojis,
                    &config.labels,
                    now_secs,
                ).len() > lines_seq(art@).len(),
            },
        },
{
    let m = match meta {
        FetchOutcome::Success(m) => m,
        FetchOutcome::Failure => {
            return Err(PanelError::MetadataFetchFailed);
        },
    };
    let stat_lines = build_stats(repo, m, outcomes, &config.emojis, &config.labels, now_secs);
    let art_lines = split_lines(art);
    render_panel(&art_lines, &stat_lines, declared_width)
}

/// Isolated failures of the eight optional fetches are absorbed, never
/// fatal: whatever subset of them fails, the report keeps exactly its
/// eleven base lines plus one per shown label category — at most fourteen —
/// so an art block of at least fourteen lines always renders.
pub proof fn lemma_optional_failures_absorbed(
    repo: &RepoIdentity,
    m: &RepoMetadata,
    o: &StatOutcomes,
    config: &RepofetchConfig,
    now_secs: i64,
    art: Seq<Seq<char>>,
)
    requires
        art.len() >= 14,
    ensures
        stats_seq(repo, m, o, &config.emojis, &config.labels, now_secs).len() == stats_len(o),
        stats_seq(repo, m, o, &config.emojis, &config.labels, now_secs).len() <= art.len(),
{
    lemma_stats_len(repo, m, o, &config.emojis, &config.labels, now_secs);
}

} // verus!
