//! Extraction of an `owner/name` pair from a git remote URL.
//!
//! A remote names this service when, at some position, one of the prefixes
//! `git@github.com:`, `http://github.com/` or `https://github.com/` is
//! followed by a non-empty run of word characters (the owner), a slash,
//! and a non-empty repository name whose `.git` suffix closes the match.
//! The leftmost position that completes a match wins, and within a match
//! the name extends to the last `.git` occurrence inside its word run.

use vstd::prelude::*;

verus! {

/// A character that may appear in an owner or repository name: ASCII
/// letters, digits, underscore, dot and dash.
pub open spec fn is_word_char(c: char) -> bool {
    ('a' <= c && c <= 'z') || ('A' <= c && c <= 'Z') || ('0' <= c && c <= '9') || c == '_' || c
        == '.' || c == '-'
}

/// Tests a word character.
fn is_word_char_exec(c: char) -> (r: bool)
    ensures
        r == is_word_char(c),
{
    ('a' <= c && c <= 'z') || ('A' <= c && c <= 'Z') || ('0' <= c && c <= '9') || c == '_' || c
        == '.' || c == '-'
}

/// Whether `lit` occurs in `s` starting at position `p`.
pub open spec fn matches_at(s: Seq<char>, p: int, lit: Seq<char>) -> bool {
    0 <= p && p + lit.len() <= s.len() && s.subrange(p, p + lit.len()) == lit
}

/// Compares `lit` against `s` at position `p`.
fn matches_lit_at(s: &str, n: usize, p: usize, lit: &str) -> (r: bool)
    requires
        n == s@.len(),
        p <= n,
    ensures
        r == matches_at(s@, p as int, lit@),
{
    let m = lit.unicode_len();
    if m > n - p {
        return false;
    }
    let mut k: usize = 0;
    while k < m
        invariant
            k <= m,
            n == s@.len(),
            m == lit@.len(),
            p + m <= n,
            forall|t: int| 0 <= t < k ==> s@[p + t] == lit@[t],
        decreases m - k,
    {
        if s.get_char(p + k) != lit.get_char(k) {
            proof {
                assert(s@.subrange(p as int, p + lit@.len())[k as int] == s@[p + k]);
            }
            return false;
        }
        k = k + 1;
    }
    proof {
        assert(s@.subrange(p as int, p + lit@.len()) =~= lit@);
    }
    true
}

/// Where the service prefix at position `p` ends, if one of the three
/// accepted prefixes occurs there.
pub open spec fn prefix_end_at(s: Seq<char>, p: int) -> Option<int> {
    if matches_at(s, p, "git@github.com:"@) {
        Some(p + "git@github.com:"@.len())
    } else if matches_at(s, p, "https://github.com/"@) {
        Some(p + "https://github.com/"@.len())
    } else if matches_at(s, p, "http://github.com/"@) {
        Some(p + "http://github.com/"@.len())
    } else {
        None
    }
}

/// Looks for a service prefix at position `p`.
fn prefix_end_at_exec(s: &str, n: usize, p: usize) -> (r: Option<usize>)
    requires
        n == s@.len(),
        p <= n,
    ensures
        match r {
            Some(e) => prefix_end_at(s@, p as int) == Some(e as int) && p < e <= n,
            None => prefix_end_at(s@, p as int) is None,
        },
{
    let ssh = "git@github.com:";
    let https = "https://github.com/";
    let http = "http://github.com/";
    proof {
        reveal_strlit("git@github.com:");
        reveal_strlit("https://github.com/");
        reveal_strlit("http://github.com/");
    }
    if matches_lit_at(s, n, p, ssh) {
        Some(p + ssh.unicode_len())
    } else if matches_lit_at(s, n, p, https) {
        Some(p + https.unicode_len())
    } else if matches_lit_at(s, n, p, http) {
        Some(p + http.unicode_len())
    } else {
        None
    }
}

/// The end of the word-character run that starts at `i`: the first
/// position at or after `i` holding no word character.
pub open spec fn word_run_end(s: Seq<char>, i: int) -> int
    decreases s.len() - i,
{
    if i < 0 || i >= s.len() {
        i
    } else if !is_word_char(s[i]) {
        i
    } else {
        word_run_end(s, i + 1)
    }
}

/// Scans to the end of the word run that starts at `i`.
fn word_run_end_exec(s: &str, n: usize, i: usize) -> (r: usize)
    requires
        n == s@.len(),
        i <= n,
    ensures
        r == word_run_end(s@, i as int),
        i <= r <= n,
{
    let mut j: usize = i;
    while j < n && is_word_char_exec(s.get_char(j))
        invariant
            i <= j <= n,
            n == s@.len(),
            word_run_end(s@, i as int) == word_run_end(s@, j as int),
        decreases n - j,
    {
        j = j + 1;
    }
    j
}

/// The last position `k` in `(lo, hi]` where `.git` occurs, scanning down
/// from `hi`.
pub open spec fn find_git_down(s: Seq<char>, lo: int, k: int) -> Option<int>
    decreases k - lo,
{
    if k <= lo {
        None
    } else if matches_at(s, k, ".git"@) {
        Some(k)
    } else {
        find_git_down(s, lo, k - 1)
    }
}

/// Scans down from `hi` for the last `.git` occurrence after `lo`.
fn find_git_down_exec(s: &str, n: usize, lo: usize, hi: usize) -> (r: Option<usize>)
    requires
        n == s@.len(),
        hi <= n,
    ensures
        match r {
            Some(k) => find_git_down(s@, lo as int, hi as int) == Some(k as int) && lo < k <= hi,
            None => find_git_down(s@, lo as int, hi as int) is None,
        },
{
    let mut k: usize = hi;
    while k > lo
        invariant
            k <= hi <= n,
            n == s@.len(),
            find_git_down(s@, lo as int, hi as int) == find_git_down(s@, lo as int, k as int),
        decreases k,
    {
        if matches_lit_at(s, n, k, ".git") {
            return Some(k);
        }
        k = k - 1;
    }
    None
}

/// The owner and name extracted by a full match at position `p`: the
/// prefix, then a non-empty owner run up to a slash, then a name run that
/// carries a `.git` occurrence; the name ends at the last one.
pub open spec fn match_at(s: Seq<char>, p: int) -> Option<(Seq<char>, Seq<char>)> {
    match prefix_end_at(s, p) {
        None => None,
        Some(o0) => {
            let oe = word_run_end(s, o0);
            if oe <= o0 || oe >= s.len() || s[oe] != '/' {
                None
            } else {
                let r0 = oe + 1;
                let re = word_run_end(s, r0);
                match find_git_down(s, r0, re - 4) {
                    None => None,
                    Some(k) => Some((s.subrange(o0, oe), s.subrange(r0, k))),
                }
            }
        },
    }
}

/// Tries a full match at position `p`; returns the owner and name bounds.
fn match_at_exec(s: &str, n: usize, p: usize) -> (r: Option<(usize, usize, usize, usize)>)
    requires
        n == s@.len(),
        p <= n,
    ensures
        match r {
            Some(b) => {
                &&& match_at(s@, p as int) == Some(
                    (s@.subrange(b.0 as int, b.1 as int), s@.subrange(b.2 as int, b.3 as int)),
                )
                &&& b.0 <= b.1 <= n
                &&& b.2 <= b.3 <= n
            },
            None => match_at(s@, p as int) is None,
        },
{
    let o0 = match prefix_end_at_exec(s, n, p) {
        Some(e) => e,
        None => {
            return None;
        },
    };
    let oe = word_run_end_exec(s, n, o0);
    if oe <= o0 || oe >= n {
        return None;
    }
    if s.get_char(oe) != '/' {
        return None;
    }
    let r0 = oe + 1;
    let re = word_run_end_exec(s, n, r0);
    if re < 4 {
        return None;
    }
    match find_git_down_exec(s, n, r0, re - 4) {
        Some(k) => Some((o0, oe, r0, k)),
        None => None,
    }
}

/// The leftmost full match in `s`, scanning from position `p`.
pub open spec fn parse_from(s: Seq<char>, p: int) -> Option<(Seq<char>, Seq<char>)>
    decreases s.len() - p,
{
    if p < 0 || p >= s.len() {
        None
    } else {
        match match_at(s, p) {
            Some(r) => Some(r),
            None => parse_from(s, p + 1),
        }
    }
}

/// The owner and name a remote URL carries, from its leftmost full match.
pub open spec fn parse_remote(s: Seq<char>) -> Option<(Seq<char>, Seq<char>)> {
    parse_from(s, 0)
}

/// A word run neither starts before its origin nor leaves the text.
proof fn lemma_word_run_end_bounds(s: Seq<char>, i: int)
    requires
        0 <= i <= s.len(),
    ensures
        i <= word_run_end(s, i) <= s.len(),
    decreases s.len() - i,
{
    if i < s.len() && is_word_char(s[i]) {
        lemma_word_run_end_bounds(s, i + 1);
    }
}

/// A found `.git` occurrence lies strictly inside the scanned range.
proof fn lemma_find_git_down_bounds(s: Seq<char>, lo: int, k: int)
    ensures
        match find_git_down(s, lo, k) {
            Some(g) => lo < g <= k,
            None => true,
        },
    decreases k - lo,
{
    if k <= lo {
    } else if matches_at(s, k, ".git"@) {
    } else {
        lemma_find_git_down_bounds(s, lo, k - 1);
    }
}

/// A full match never yields an empty owner or an empty name.
proof fn lemma_match_at_nonempty(s: Seq<char>, p: int)
    ensures
        match match_at(s, p) {
            Some(pair) => pair.0.len() > 0 && pair.1.len() > 0,
            None => true,
        },
{
    if match_at(s, p) is Some {
        let pair = match_at(s, p)->Some_0;
        let o0 = prefix_end_at(s, p)->Some_0;
        assert(0 <= o0 <= s.len());
        let oe = word_run_end(s, o0);
        lemma_word_run_end_bounds(s, o0);
        assert(o0 < oe < s.len() && s[oe] == '/');
        assert(pair.0 == s.subrange(o0, oe));
        let r0 = oe + 1;
        let re = word_run_end(s, r0);
        lemma_word_run_end_bounds(s, r0);
        lemma_find_git_down_bounds(s, r0, re - 4);
        let k = find_git_down(s, r0, re - 4)->Some_0;
        assert(pair.1 == s.subrange(r0, k));
        assert(r0 < k <= s.len());
    }
}

/// What the scan from any position extracts is never empty on either side.
proof fn lemma_parse_from_nonempty(s: Seq<char>, p: int)
    ensures
        match parse_from(s, p) {
            Some(pair) => pair.0.len() > 0 && pair.1.len() > 0,
            None => true,
        },
    decreases s.len() - p,
{
    if 0 <= p < s.len() {
        lemma_match_at_nonempty(s, p);
        if match_at(s, p) is None {
            lemma_parse_from_nonempty(s, p + 1);
        }
    }
}

/// A remote URL that parses yields a valid repository identity: both the
/// owner and the name are non-empty.
pub proof fn lemma_parse_remote_nonempty(s: Seq<char>)
    ensures
        match parse_remote(s) {
            Some(pair) => pair.0.len() > 0 && pair.1.len() > 0,
            None => true,
        },
{
    lemma_parse_from_nonempty(s, 0);
}

/// Word runs are exactly delimited: where every character from `i` up to
/// `j` is a word character and `j` ends the run, the run ends at `j`.
proof fn lemma_word_run_end_exact(s: Seq<char>, i: int, j: int)
    requires
        0 <= i <= j <= s.len(),
        forall|k: int| i <= k < j ==> is_word_char(s[k]),
        j == s.len() || !is_word_char(s[j]),
    ensures
        word_run_end(s, i) == j,
    decreases j - i,
{
    if i < j {
        lemma_word_run_end_exact(s, i + 1, j);
    }
}

/// The round trip from an identity through its canonical clone URL: for
/// any non-empty owner and name made of word characters, parsing
/// `https://github.com/<owner>/<name>.git` yields exactly that owner and
/// name back — even where the name itself contains or ends in `.git`.
pub proof fn lemma_clone_url_round_trip(owner: Seq<char>, name: Seq<char>)
    requires
        owner.len() > 0,
        name.len() > 0,
        forall|k: int| 0 <= k < owner.len() ==> is_word_char(owner[k]),
        forall|k: int| 0 <= k < name.len() ==> is_word_char(name[k]),
    ensures
        parse_remote("https://github.com/"@ + owner + "/"@ + name + ".git"@) == Some(
            (owner, name),
        ),
{
    reveal_strlit("https://github.com/");
    reveal_strlit("http://github.com/");
    reveal_strlit("git@github.com:");
    reveal_strlit("/");
    reveal_strlit(".git");
    let s = "https://github.com/"@ + owner + "/"@ + name + ".git"@;
    let o0 = 19int;
    let oe = o0 + owner.len() as int;
    let r0 = oe + 1;
    let re = r0 + name.len() as int + 4;

    assert(s.len() == re);
    assert(!matches_at(s, 0, "git@github.com:"@)) by {
        if matches_at(s, 0, "git@github.com:"@) {
            assert(s.subrange(0, 15)[0] == 'g');
        }
    }
    assert(matches_at(s, 0, "https://github.com/"@)) by {
        assert(s.subrange(0, 19) =~= "https://github.com/"@);
    }
    assert(prefix_end_at(s, 0) == Some(o0));

    assert forall|k: int| o0 <= k < oe implies is_word_char(s[k]) by {
        assert(s[k] == owner[k - o0]);
    }
    assert(s[oe] == '/');
    assert(!is_word_char('/'));
    lemma_word_run_end_exact(s, o0, oe);

    assert forall|k: int| r0 <= k < re implies is_word_char(s[k]) by {
        if k < r0 + name.len() {
            assert(s[k] == name[k - r0]);
        } else {
            assert(s[k] == ".git"@[k - r0 - name.len()]);
        }
    }
    lemma_word_run_end_exact(s, r0, re);

    assert(matches_at(s, re - 4, ".git"@)) by {
        assert(s.subrange(re - 4, re) =~= ".git"@);
    }
    assert(find_git_down(s, r0, re - 4) == Some(re - 4));

    assert(match_at(s, 0) == Some((s.subrange(o0, oe), s.subrange(r0, re - 4))));
    assert(s.subrange(o0, oe) =~= owner);
    assert(s.subrange(r0, re - 4) =~= name);
}

/// Creates an `owner/name` pair from a remote URL of this service, or
/// nothing where the URL matches no accepted form.
pub fn repo_from_remote(remote: &str) -> (r: Option<(String, String)>)
    ensures
        match r {
            Some(pair) => parse_remote(remote@) == Some((pair.0@, pair.1@)),
            None => parse_remote(remote@) is None,
        },
{
    let n = remote.unicode_len();
    let mut p: usize = 0;
    while p < n
        invariant
            p <= n,
            n == remote@.len(),
            parse_remote(remote@) == parse_from(remote@, p as int),
        decreases n - p,
    {
        match match_at_exec(remote, n, p) {
            Some(b) => {
                let owner = String::from_str(remote.substring_char(b.0, b.1));
                let name = String::from_str(remote.substring_char(b.2, b.3));
                return Some((owner, name));
            },
            None => {},
        }
        p = p + 1;
    }
    None
}

} // verus!
