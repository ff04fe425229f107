//! Search-query construction: typed predicates serialized into the query
//! language the remote service understands, and the optional credential
//! decoration.

use vstd::prelude::*;
use crate::config::Labels;

verus! {

/// The repository every query of one invocation is scoped to.
/// Owner and name are validated non-empty.
pub struct RepoIdentity {
    pub owner: String,
    pub name: String,
}

impl RepoIdentity {
    /// Both parts are present.
    pub open spec fn wf(&self) -> bool {
        self.owner@.len() > 0 && self.name@.len() > 0
    }

    /// The `owner/name` form the identity serializes to.
    pub open spec fn slug_seq(&self) -> Seq<char> {
        self.owner@ + "/"@ + self.name@
    }

    /// Builds a validated identity; rejects an empty owner or name.
    pub fn new(owner: String, name: String) -> (r: Option<RepoIdentity>)
        ensures
            match r {
                Some(id) => id.wf() && id.owner@ == owner@ && id.name@ == name@,
                None => owner@.len() == 0 || name@.len() == 0,
            },
    {
        if owner.as_str().unicode_len() == 0 || name.as_str().unicode_len() == 0 {
            None
        } else {
            Some(RepoIdentity { owner, name })
        }
    }

    /// Renders `owner/name`.
    pub fn slug(&self) -> (r: String)
        ensures
            r@ == self.slug_seq(),
    {
        let mut s = self.owner.clone();
        s.append("/");
        s.append(self.name.as_str());
        s
    }
}

/// What kind of item a search asks for.
pub enum ItemKind {
    Issue,
    Pr,
}

/// A state predicate a search may carry.
pub enum ItemState {
    Open,
    Closed,
    Merged,
    Unmerged,
}

/// The serialized form of an item kind.
pub open spec fn kind_seq(k: ItemKind) -> Seq<char> {
    match k {
        ItemKind::Issue => "issue"@,
        ItemKind::Pr => "pr"@,
    }
}

/// The serialized form of a state predicate.
pub open spec fn state_seq(s: ItemState) -> Seq<char> {
    match s {
        ItemState::Open => "open"@,
        ItemState::Closed => "closed"@,
        ItemState::Merged => "merged"@,
        ItemState::Unmerged => "unmerged"@,
    }
}

/// The serialized form of a list of state predicates, each as a
/// ` is:<state>` term in order.
pub open spec fn states_seq(ss: Seq<ItemState>) -> Seq<char>
    decreases ss.len(),
{
    if ss.len() == 0 {
        Seq::empty()
    } else {
        states_seq(ss.drop_last()) + " is:"@ + state_seq(ss.last())
    }
}

/// A single state serializes to one ` is:<state>` term.
pub proof fn lemma_states_seq_one(s: ItemState)
    ensures
        states_seq(seq![s]) == " is:"@ + state_seq(s),
{
    reveal_with_fuel(states_seq, 2);
    assert(seq![s].drop_last() =~= Seq::<ItemState>::empty());
    assert(states_seq(Seq::<ItemState>::empty()) + " is:"@ + state_seq(s) =~= " is:"@ + state_seq(
        s,
    ));
}

/// Two states serialize to their two ` is:<state>` terms in order.
pub proof fn lemma_states_seq_two(a: ItemState, b: ItemState)
    ensures
        states_seq(seq![a, b]) == " is:"@ + state_seq(a) + " is:"@ + state_seq(b),
{
    assert(seq![a, b].drop_last() =~= seq![a]);
    lemma_states_seq_one(a);
}

/// An ordered set of search predicates. The repository scope is always
/// present and the kind exactly once; states, assignee absence and a label
/// are optional. Immutable once built; consumed by exactly one fetch.
pub struct SearchQuery {
    pub repo: RepoIdentity,
    pub kind: ItemKind,
    pub states: Vec<ItemState>,
    pub no_assignee: bool,
    pub label: Option<String>,
}

impl SearchQuery {
    /// The query-language string these predicates serialize to:
    /// `repo:owner/name is:<kind>` then one ` is:<state>` per state, then
    /// ` no:assignee` if asked, then ` label:"<label>"` if one is set. The
    /// label is always wrapped in literal quotes, so that spaces inside it
    /// survive; the composition is not validated against the remote
    /// schema — a malformed label surfaces as an ordinary fetch failure.
    pub open spec fn query_seq(&self) -> Seq<char> {
        "repo:"@ + self.repo.slug_seq() + " is:"@ + kind_seq(self.kind) + states_seq(
            self.states@,
        ) + (if self.no_assignee {
            " no:assignee"@
        } else {
            Seq::<char>::empty()
        }) + (match self.label {
            Some(l) => " label:\""@ + l@ + "\""@,
            None => Seq::<char>::empty(),
        })
    }

    /// Serializes the predicates; pure string composition with no failure
    /// mode of its own.
    pub fn to_query_string(&self) -> (r: String)
        ensures
            r@ == self.query_seq(),
    {
        let mut s = String::from_str("repo:");
        s.append(self.repo.owner.as_str());
        s.append("/");
        s.append(self.repo.name.as_str());
        s.append(" is:");
        match self.kind {
            ItemKind::Issue => s.append("issue"),
            ItemKind::Pr => s.append("pr"),
        }
        let mut i: usize = 0;
        while i < self.states.len()
            invariant
                i <= self.states.len(),
                s@ == "repo:"@ + self.repo.slug_seq() + " is:"@ + kind_seq(self.kind)
                    + states_seq(self.states@.take(i as int)),
            decreases self.states.len() - i,
        {
            s.append(" is:");
            match self.states[i] {
                ItemState::Open => s.append("open"),
                ItemState::Closed => s.append("closed"),
                ItemState::Merged => s.append("merged"),
                ItemState::Unmerged => s.append("unmerged"),
            }
            proof {
                assert(self.states@.take(i + 1 as int).drop_last() =~= self.states@.take(
                    i as int,
                ));
                assert(self.states@.take(i + 1 as int).last() == self.states@[i as int]);
            }
            i = i + 1;
        }
        proof {
            assert(self.states@.take(self.states@.len() as int) =~= self.states@);
        }
        if self.no_assignee {
            s.append(" no:assignee");
        }
        match &self.label {
            Some(l) => {
                s.append(" label:\"");
                s.append(l.as_str());
                s.append("\"");
            },
            None => {},
        }
        proof {
            assert(s@ =~= self.query_seq());
        }
        s
    }
}

/// The order of the eight search categories; every consumer indexes the
/// outcomes positionally by it.
pub open spec fn standard_query_seqs(repo: &RepoIdentity, labels: &Labels) -> Seq<Seq<char>> {
    let scope = "repo:"@ + repo.slug_seq();
    seq![
        scope + " is:issue is:open"@,
        scope + " is:issue is:closed"@,
        scope + " is:pr is:open"@,
        scope + " is:pr is:merged"@,
        scope + " is:pr is:closed is:unmerged"@,
        scope + " is:issue is:open no:assignee label:\""@ + labels.help_wanted@ + "\""@,
        scope + " is:issue is:open no:assignee label:\""@ + labels.good_first_issue@ + "\""@,
        scope + " is:issue is:open no:assignee label:\"hacktoberfest\""@,
    ]
}

/// Builds the eight standard searches of one invocation, in the fixed
/// positional order: open issues, closed issues, open PRs, merged PRs,
/// closed-and-unmerged PRs, then the three open-unassigned label counts
/// (help wanted, good first issue, hacktoberfest).
pub fn standard_queries(repo: &RepoIdentity, labels: &Labels) -> (r: Vec<String>)
    ensures
        r.deep_view() == standard_query_seqs(repo, labels),
{
    proof {
        reveal_strlit(" is:");
        reveal_strlit("issue");
        reveal_strlit("pr");
        reveal_strlit("open");
        reveal_strlit("closed");
        reveal_strlit("merged");
        reveal_strlit("unmerged");
        reveal_strlit(" is:issue is:open");
        reveal_strlit(" is:issue is:closed");
        reveal_strlit(" is:pr is:open");
        reveal_strlit(" is:pr is:merged");
        reveal_strlit(" is:pr is:closed is:unmerged");
        reveal_strlit(" no:assignee");
        reveal_strlit(" label:\"");
        reveal_strlit("\"");
        reveal_strlit("hacktoberfest");
        reveal_strlit(" is:issue is:open no:assignee label:\"");
        reveal_strlit(" is:issue is:open no:assignee label:\"hacktoberfest\"");
    }
    let open_issues = SearchQuery {
        repo: RepoIdentity { owner: repo.owner.clone(), name: repo.name.clone() },
        kind: ItemKind::Issue,
        states: one_state(ItemState::Open),
        no_assignee: false,
        label: None,
    };
    let closed_issues = SearchQuery {
        repo: RepoIdentity { owner: repo.owner.clone(), name: repo.name.clone() },
        kind: ItemKind::Issue,
        states: one_state(ItemState::Closed),
        no_assignee: false,
        label: None,
    };
    let open_prs = SearchQuery {
        repo: RepoIdentity { owner: repo.owner.clone(), name: repo.name.clone() },
        kind: ItemKind::Pr,
        states: one_state(ItemState::Open),
        no_assignee: false,
        label: None,
    };
    let merged_prs = SearchQuery {
        repo: RepoIdentity { owner: repo.owner.clone(), name: repo.name.clone() },
        kind: ItemKind::Pr,
        states: one_state(ItemState::Merged),
        no_assignee: false,
        label: None,
    };
    let closed_prs = SearchQuery {
        repo: RepoIdentity { owner: repo.owner.clone(), name: repo.name.clone() },
        kind: ItemKind::Pr,
        states: two_states(ItemState::Closed, ItemState::Unmerged),
        no_assignee: false,
        label: None,
    };
    let help_wanted = SearchQuery {
        repo: RepoIdentity { owner: repo.owner.clone(), name: repo.name.clone() },
        kind: ItemKind::Issue,
        states: one_state(ItemState::Open),
        no_assignee: true,
        label: Some(labels.help_wanted.clone()),
    };
    let good_first_issue = SearchQuery {
        repo: RepoIdentity { owner: repo.owner.clone(), name: repo.name.clone() },
        kind: ItemKind::Issue,
        states: one_state(ItemState::Open),
        no_assignee: true,
        label: Some(labels.good_first_issue.clone()),
    };
    let hacktoberfest = SearchQuery {
        repo: RepoIdentity { owner: repo.owner.clone(), name: repo.name.clone() },
        kind: ItemKind::Issue,
        states: one_state(ItemState::Open),
        no_assignee: true,
        label: Some(String::from_str("hacktoberfest")),
    };
    let mut r: Vec<String> = Vec::new();
    r.push(open_issues.to_query_string());
    r.push(closed_issues.to_query_string());
    r.push(open_prs.to_query_string());
    r.push(merged_prs.to_query_string());
    r.push(closed_prs.to_query_string());
    r.push(help_wanted.to_query_string());
    r.push(good_first_issue.to_query_string());
    r.push(hacktoberfest.to_query_string());
    proof {
        lemma_states_seq_one(ItemState::Open);
        lemma_states_seq_one(ItemState::Closed);
        lemma_states_seq_one(ItemState::Merged);
        lemma_states_seq_two(ItemState::Closed, ItemState::Unmerged);
        let target = standard_query_seqs(repo, labels);
        assert(r.deep_view().len() == 8);
        assert(r.deep_view()[0] =~= target[0]);
        assert(r.deep_view()[1] =~= target[1]);
        assert(r.deep_view()[2] =~= target[2]);
        assert(r.deep_view()[3] =~= target[3]);
        assert(r.deep_view()[4] =~= target[4]);
        assert(r.deep_view()[5] =~= target[5]);
        assert(r.deep_view()[6] =~= target[6]);
        assert(r.deep_view()[7] =~= target[7]);
        assert(r.deep_view() =~~= target);
    }
    r
}

/// A singleton state list.
fn one_state(s: ItemState) -> (r: Vec<ItemState>)
    ensures
        r@ == seq![s],
{
    let mut v: Vec<ItemState> = Vec::new();
    v.push(s);
    v
}

/// A two-element state list.
fn two_states(a: ItemState, b: ItemState) -> (r: Vec<ItemState>)
    ensures
        r@ == seq![a, b],
{
    let mut v: Vec<ItemState> = Vec::new();
    v.push(a);
    v.push(b);
    proof {
        assert(v@ =~= seq![a, b]);
    }
    v
}

/// A serialized query together with the credential the fetch should
/// present, if one is configured.
pub struct AuthedQuery {
    pub query: String,
    pub credential: Option<String>,
}

/// Attaches a credential to a query if one is configured; returns the
/// query untouched otherwise. Pure and total — absence of a credential is
/// a legitimate, common case.
pub fn decorate(query: String, credential: Option<String>) -> (r: AuthedQuery)
    ensures
        r.query@ == query@,
        match (r.credential, credential) {
            (Some(rc), Some(c)) => rc@ == c@,
            (None, None) => true,
            _ => false,
        },
{
    AuthedQuery { query, credential }
}

} // verus!
