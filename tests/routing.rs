use gh_telegram_forwarder::config::RouteConfig;
use gh_telegram_forwarder::github::GitHubEvent;
use gh_telegram_forwarder::telegram::{matches_event, matches_repo, notification_failed, route_targets};

fn route(pattern: &str, chat_id: i64, events: &[&str]) -> RouteConfig {
    RouteConfig {
        repo_pattern: pattern.to_string(),
        chat_id,
        events: events.iter().map(|s| s.to_string()).collect(),
    }
}

fn pr_opened_event() -> GitHubEvent {
    let body = br#"{"action":"opened","repository":{"full_name":"acme/widgets","html_url":"https://github.com/acme/widgets"},"sender":{"login":"alice","html_url":"https://github.com/alice"}}"#;
    GitHubEvent::parse("pull_request", body).unwrap()
}

#[test]
fn prefix_pattern_matches_owner() {
    assert!(matches_repo("acme/*", "acme/widgets"));
    assert!(!matches_repo("acme/*", "other/widgets"));
}

#[test]
fn wildcard_pattern_matches_all() {
    assert!(matches_repo("*", "acme/widgets"));
    assert!(matches_repo("*", "x/y"));
    assert!(matches_repo("*", ""));
}

#[test]
fn exact_pattern_matches_only_itself() {
    assert!(matches_repo("acme/widgets", "acme/widgets"));
    assert!(!matches_repo("acme/widgets", "acme/widgets2"));
    assert!(!matches_repo("acme/widgets", "acme/widget"));
}

#[test]
fn several_trailing_stars_strip_to_prefix() {
    assert!(matches_repo("acme/**", "acme/widgets"));
    assert!(!matches_repo("acme/**", "acm"));
}

#[test]
fn inner_star_is_literal() {
    assert!(!matches_repo("ac*e/widgets", "acme/widgets"));
    assert!(matches_repo("ac*e/widgets", "ac*e/widgets"));
}

#[test]
fn bare_kind_matches_any_action() {
    let subs = vec!["pull_request".to_string()];
    assert!(matches_event(&subs, "pull_request.opened", "pull_request"));
    assert!(matches_event(&subs, "pull_request.closed", "pull_request"));
    assert!(matches_event(&subs, "pull_request", "pull_request"));
    assert!(!matches_event(&subs, "issues.opened", "issues"));
}

#[test]
fn qualified_kind_matches_one_action() {
    let subs = vec!["pull_request.opened".to_string()];
    assert!(matches_event(&subs, "pull_request.opened", "pull_request"));
    assert!(!matches_event(&subs, "pull_request.closed", "pull_request"));
    assert!(!matches_event(&subs, "pull_request", "pull_request"));
}

#[test]
fn star_kind_matches_everything() {
    let subs = vec!["*".to_string()];
    assert!(matches_event(&subs, "push", "push"));
    assert!(matches_event(&subs, "release.published", "release"));
    assert!(!matches_event(&[], "push", "push"));
}

#[test]
fn fan_out_to_matching_rule_only() {
    let event = pr_opened_event();
    let rules = vec![route("acme/*", 1, &["pull_request"]), route("other/*", 2, &["*"])];
    assert_eq!(route_targets(&rules, &event), vec![1]);
    let rules = vec![route("*", 3, &["issues"]), route("acme/widgets", 4, &["pull_request.opened"])];
    assert_eq!(route_targets(&rules, &event), vec![4]);
}

#[test]
fn two_matching_rules_both_targeted_in_order() {
    let event = pr_opened_event();
    let rules = vec![
        route("acme/widgets", 10, &["pull_request"]),
        route("nobody/*", 11, &["*"]),
        route("*", 20, &["*"]),
    ];
    let targets = route_targets(&rules, &event);
    assert_eq!(targets, vec![10, 20]);
    // the first delivery fails and the second succeeds: the request is not failed
    let outcomes: Vec<bool> = vec![false, true];
    assert_eq!(outcomes.len(), targets.len());
    assert!(!notification_failed(&outcomes));
}

#[test]
fn all_deliveries_failing_fails_notification() {
    assert!(notification_failed(&[false, false]));
    assert!(!notification_failed(&[]));
    assert!(!notification_failed(&[true]));
}
