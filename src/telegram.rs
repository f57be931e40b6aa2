use vstd::prelude::*;

use crate::config::RouteConfig;
use crate::github::{event_key_of, GitHubEvent};
use crate::text::{prefix_of, str_eq};

verus! {

/// `s` with every trailing `*` removed.
pub open spec fn trim_end_stars(s: Seq<char>) -> Seq<char>
    decreases s.len(),
{
    if s.len() > 0 && s.last() == '*' {
        trim_end_stars(s.drop_last())
    } else {
        s
    }
}

/// Repository pattern semantics: `*` matches every name, a pattern ending in
/// `*` matches by the prefix before its trailing stars, any other pattern
/// matches only the identical name.
pub open spec fn repo_matches(pattern: Seq<char>, repo: Seq<char>) -> bool {
    if pattern == seq!['*'] {
        true
    } else if pattern.len() > 0 && pattern.last() == '*' {
        trim_end_stars(pattern).is_prefix_of(repo)
    } else {
        repo == pattern
    }
}

/// A subscription list matches when it holds `*`, the composite key, or the
/// bare event kind.
pub open spec fn event_matches(subscribed: Seq<String>, key: Seq<char>, kind: Seq<char>) -> bool {
    exists|i: int|
        0 <= i < subscribed.len() && (subscribed[i]@ == seq!['*'] || subscribed[i]@ == key
            || subscribed[i]@ == kind)
}

/// Whether a rule is eligible for an event.
pub open spec fn route_applies(route: RouteConfig, event: GitHubEvent) -> bool {
    repo_matches(route.repo_pattern@, event.repo.full_name@) && event_matches(
        route.events@,
        event_key_of(event),
        event.event_type@,
    )
}

/// Destinations of the eligible rules, in rule order.
pub open spec fn targets_of(routes: Seq<RouteConfig>, event: GitHubEvent) -> Seq<i64>
    decreases routes.len(),
{
    if routes.len() == 0 {
        Seq::empty()
    } else {
        let rest = targets_of(routes.drop_last(), event);
        if route_applies(routes.last(), event) {
            rest.push(routes.last().chat_id)
        } else {
            rest
        }
    }
}

/// Length of `s` once its trailing `*` are removed.
fn trimmed_star_len(s: &str) -> (n: usize)
    ensures
        n <= s@.len(),
        s@.subrange(0, n as int) == trim_end_stars(s@),
{
    let mut n = s.unicode_len();
    assert(s@.subrange(0, n as int) =~= s@);
    while n > 0 && s.get_char(n - 1) == '*'
        invariant
            n <= s@.len(),
            trim_end_stars(s@.subrange(0, n as int)) == trim_end_stars(s@),
        decreases n,
    {
        assert(s@.subrange(0, n as int).drop_last() =~= s@.subrange(0, n - 1));
        n = n - 1;
    }
    n
}

/// Whether a repository pattern matches a repository full name.
pub fn matches_repo(pattern: &str, repo_name: &str) -> (r: bool)
    ensures
        r == repo_matches(pattern@, repo_name@),
{
    if str_eq(pattern, "*") {
        proof {
            reveal_strlit("*");
            assert("*"@ =~= seq!['*']);
        }
        return true;
    }
    proof {
        reveal_strlit("*");
        assert("*"@ =~= seq!['*']);
    }
    let len = pattern.unicode_len();
    if len > 0 && pattern.get_char(len - 1) == '*' {
        let n = trimmed_star_len(pattern);
        prefix_of(pattern, n, repo_name)
    } else {
        str_eq(repo_name, pattern)
    }
}

/// Whether a subscription list admits an event with the given composite key
/// and kind.
pub fn matches_event(subscribed: &[String], event_key: &str, event_type: &str) -> (r: bool)
    ensures
        r == event_matches(subscribed@, event_key@, event_type@),
{
    proof {
        reveal_strlit("*");
        assert("*"@ =~= seq!['*']);
    }
    let mut i: usize = 0;
    while i < subscribed.len()
        invariant
            i <= subscribed@.len(),
            "*"@ == seq!['*'],
            forall|j: int|
                0 <= j < i ==> !(subscribed@[j]@ == seq!['*'] || subscribed@[j]@ == event_key@
                    || subscribed@[j]@ == event_type@),
        decreases subscribed@.len() - i,
    {
        let s = subscribed[i].as_str();
        assert(s@ == subscribed@[i as int]@);
        if str_eq(s, "*") || str_eq(s, event_key) || str_eq(s, event_type) {
            assert(0 <= i < subscribed@.len() && (subscribed@[i as int]@ == seq!['*']
                || subscribed@[i as int]@ == event_key@ || subscribed@[i as int]@ == event_type@));
            return true;
        }
        i = i + 1;
    }
    false
}

/// Destinations that an event is delivered to: the chat of every rule whose
/// repository pattern and kind filter both match, in rule order.
pub fn route_targets(routes: &[RouteConfig], event: &GitHubEvent) -> (r: Vec<i64>)
    ensures
        r@ == targets_of(routes@, *event),
{
    let key = event.event_key();
    let mut out: Vec<i64> = Vec::new();
    let mut i: usize = 0;
    while i < routes.len()
        invariant
            i <= routes@.len(),
            key@ == event_key_of(*event),
            out@ == targets_of(routes@.subrange(0, i as int), *event),
        decreases routes@.len() - i,
    {
        let route = &routes[i];
        assert(routes@.subrange(0, i + 1).drop_last() =~= routes@.subrange(0, i as int));
        if matches_repo(route.repo_pattern.as_str(), event.repo.full_name.as_str())
            && matches_event(route.events.as_slice(), key.as_str(), event.event_type.as_str()) {
            out.push(route.chat_id);
        }
        i = i + 1;
    }
    assert(routes@.subrange(0, routes@.len() as int) =~= routes@);
    out
}

/// Whether a notification as a whole failed: at least one delivery was
/// attempted and every attempt failed.
pub fn notification_failed(outcomes: &[bool]) -> (r: bool)
    ensures
        r == (outcomes@.len() > 0 && forall|i: int| 0 <= i < outcomes@.len() ==> !outcomes@[i]),
{
    let mut i: usize = 0;
    while i < outcomes.len()
        invariant
            i <= outcomes@.len(),
            forall|j: int| 0 <= j < i ==> !outcomes@[j],
        decreases outcomes@.len() - i,
    {
        if outcomes[i] {
            return false;
        }
        i = i + 1;
    }
    outcomes.len() > 0
}

/// Fan-out: of two rules where only the first applies to an event, exactly
/// the first rule's destination is chosen, whichever order they stand in.
pub proof fn lemma_fan_out(a: RouteConfig, b: RouteConfig, e: GitHubEvent)
    requires
        route_applies(a, e),
        !route_applies(b, e),
    ensures
        targets_of(seq![a, b], e) == seq![a.chat_id],
        targets_of(seq![b, a], e) == seq![a.chat_id],
{
    reveal_with_fuel(targets_of, 3);
    assert(seq![a, b].drop_last() =~= seq![a]);
    assert(seq![a, b].last() == b);
    assert(seq![b, a].last() == a);
    assert(seq![a].last() == a);
    assert(seq![b].last() == b);
    assert(seq![b, a].drop_last() =~= seq![b]);
    assert(seq![a].drop_last() =~= Seq::<RouteConfig>::empty());
    assert(seq![b].drop_last() =~= Seq::<RouteConfig>::empty());
    assert(Seq::<i64>::empty().push(a.chat_id) =~= seq![a.chat_id]);
}

/// Repository patterns: `acme/*` admits `acme/widgets` and not
/// `other/widgets`; `*` admits every name; `acme/widgets` admits only itself.
pub proof fn lemma_repo_patterns(repo: Seq<char>)
    ensures
        repo_matches("acme/*"@, "acme/widgets"@),
        !repo_matches("acme/*"@, "other/widgets"@),
        repo_matches("*"@, repo),
        repo_matches("acme/widgets"@, repo) <==> repo == "acme/widgets"@,
{
    reveal_strlit("acme/*");
    reveal_strlit("acme/widgets");
    reveal_strlit("other/widgets");
    reveal_strlit("*");
    assert("*"@ =~= seq!['*']);
    let p = "acme/*"@;
    assert(p.drop_last() =~= seq!['a', 'c', 'm', 'e', '/']);
    assert(trim_end_stars(p) == trim_end_stars(p.drop_last()));
    assert(trim_end_stars(p) =~= seq!['a', 'c', 'm', 'e', '/']);
    assert("acme/widgets"@.subrange(0, 5) =~= seq!['a', 'c', 'm', 'e', '/']);
    assert("other/widgets"@[0] != 'a');
    assert("acme/widgets"@ != seq!['*']);
}

/// A subscription to `*` admits every event.
pub proof fn lemma_wildcard_kind(subscribed: Seq<String>, e: GitHubEvent)
    requires
        subscribed.len() == 1,
        subscribed[0]@ == "*"@,
    ensures
        event_matches(subscribed, event_key_of(e), e.event_type@),
{
    reveal_strlit("*");
    assert("*"@ =~= seq!['*']);
    assert(subscribed[0]@ == seq!['*']);
}

/// A subscription to a bare kind admits every action of that kind.
pub proof fn lemma_bare_kind(subscribed: Seq<String>, e: GitHubEvent)
    requires
        subscribed.len() == 1,
        subscribed[0]@ == e.event_type@,
    ensures
        event_matches(subscribed, event_key_of(e), e.event_type@),
{
    assert(subscribed[0]@ == e.event_type@);
}

/// A subscription to `pull_request.opened` admits a pull-request event
/// exactly when its action is `opened`.
pub proof fn lemma_qualified_kind(subscribed: Seq<String>, e: GitHubEvent)
    requires
        subscribed.len() == 1,
        subscribed[0]@ == "pull_request.opened"@,
        e.event_type@ == "pull_request"@,
    ensures
        event_matches(subscribed, event_key_of(e), e.event_type@) <==> (e.action matches Some(a)
            && a@ == "opened"@),
{
    reveal_strlit("pull_request.opened");
    reveal_strlit("pull_request");
    reveal_strlit("opened");
    reveal_strlit("*");
    let q = "pull_request.opened"@;
    assert(q.len() == 19);
    assert("pull_request"@.len() == 12);
    assert("*"@.len() == 1);
    assert(q != "pull_request"@);
    assert(q != "*"@);
    match e.action {
        Some(a) => {
            let key = event_key_of(e);
            if a@ == "opened"@ {
                assert(key =~= q);
                assert(subscribed[0]@ == key);
            } else {
                if key == q {
                    assert(key.subrange(13, key.len() as int) =~= a@);
                    assert(q.subrange(13, 19) =~= "opened"@);
                }
                assert(key != q);
            }
        },
        None => {},
    }
}

} // verus!
