use gh_telegram_forwarder::github::{
    BaseRef, EventPayload, GitHubEvent, PullRequestPayload, Repository, User,
};
use gh_telegram_forwarder::json::{parse_request_body, Json, ParseError};

const PR_OPENED: &str = r#"{"action":"opened","repository":{"full_name":"acme/widgets","html_url":"https://github.com/acme/widgets"},"sender":{"login":"alice","html_url":"https://github.com/alice"},"pull_request":{"number":42,"title":"Fix bug","html_url":"https://github.com/acme/widgets/pull/42","state":"open","merged":null,"base":{"ref":"main"}}}"#;

const PR_MERGED: &str = r#"{"action":"closed","repository":{"full_name":"acme/widgets","html_url":"https://github.com/acme/widgets"},"sender":{"login":"alice","html_url":"https://github.com/alice"},"pull_request":{"number":42,"title":"Fix bug","html_url":"https://github.com/acme/widgets/pull/42","state":"closed","merged":true,"base":{"ref":"main"}}}"#;

fn percent_encode(s: &str) -> String {
    let mut out = String::new();
    for b in s.bytes() {
        if b.is_ascii_alphanumeric() {
            out.push(b as char);
        } else {
            out.push_str(&format!("%{:02X}", b));
        }
    }
    out
}

#[test]
fn pull_request_opened_scenario() {
    let event = GitHubEvent::parse("pull_request", PR_OPENED.as_bytes()).unwrap();
    assert_eq!(event.event_type, "pull_request");
    assert_eq!(event.action.as_deref(), Some("opened"));
    assert_eq!(event.repo.full_name, "acme/widgets");
    assert_eq!(event.sender.login, "alice");
    match &event.payload {
        EventPayload::PullRequest(pr) => {
            assert_eq!(pr.number, 42);
            assert_eq!(pr.merged, None);
            assert_eq!(pr.base.ref_name, "main");
        }
        other => panic!("unexpected payload {:?}", other),
    }
    let msg = event.format_message();
    assert_eq!(
        msg,
        "🆕 *Pull Request opened* [#42](https://github.com/acme/widgets/pull/42)\n`main` → Fix bug\n_by [alice](https://github.com/alice)_"
    );
    assert!(msg.starts_with("🆕"));
    assert!(msg.contains("[#42]"));
}

#[test]
fn pull_request_merged_scenario() {
    let event = GitHubEvent::parse("pull_request", PR_MERGED.as_bytes()).unwrap();
    let msg = event.format_message();
    assert!(msg.starts_with("🔀 *Pull Request closed*"));
    assert!(!msg.starts_with("❌"));
}

#[test]
fn pull_request_closed_unmerged() {
    let body = PR_MERGED.replace("\"merged\":true", "\"merged\":false");
    let event = GitHubEvent::parse("pull_request", body.as_bytes()).unwrap();
    assert!(event.format_message().starts_with("❌ *Pull Request closed*"));
}

#[test]
fn unknown_kind_falls_back() {
    let event = GitHubEvent::parse("discussion", PR_OPENED.as_bytes()).unwrap();
    assert!(matches!(event.payload, EventPayload::Unknown));
    assert_eq!(
        event.format_message(),
        "📡 *discussion* on `acme/widgets`\n_by [alice](https://github.com/alice)_"
    );
}

#[test]
fn malformed_nested_payload_degrades() {
    let event = GitHubEvent::parse("issues", PR_OPENED.as_bytes()).unwrap();
    assert!(matches!(event.payload, EventPayload::Unknown));
    let body = PR_OPENED.replace("\"number\":42", "\"number\":\"42\"");
    let event = GitHubEvent::parse("pull_request", body.as_bytes()).unwrap();
    assert!(matches!(event.payload, EventPayload::Unknown));
}

#[test]
fn missing_repository_and_sender_use_fallbacks() {
    let event = GitHubEvent::parse("ping", b"{}").unwrap();
    assert_eq!(event.action, None);
    assert_eq!(event.repo.full_name, "unknown/repository");
    assert_eq!(event.repo.html_url, "https://github.com");
    assert_eq!(event.sender.login, "unknown");
    assert_eq!(event.sender.html_url, "https://github.com");
    let event = GitHubEvent::parse(
        "ping",
        br#"{"repository":{"full_name":"","html_url":"https://x"},"sender":{"login":"bob"}}"#,
    )
    .unwrap();
    assert_eq!(event.repo.full_name, "unknown/repository");
    assert_eq!(event.repo.html_url, "https://x");
    assert_eq!(event.sender.login, "bob");
    assert_eq!(event.sender.html_url, "https://github.com");
}

#[test]
fn repository_name_kept_without_url() {
    let event = GitHubEvent::parse("ping", br#"{"repository":{"full_name":"acme/widgets"},"sender":"nobody"}"#).unwrap();
    assert_eq!(event.repo.full_name, "acme/widgets");
    assert_eq!(event.repo.html_url, "https://github.com");
    assert_eq!(event.sender.login, "unknown");
}

#[test]
fn non_string_action_is_absent() {
    let event = GitHubEvent::parse("ping", br#"{"action":3}"#).unwrap();
    assert_eq!(event.action, None);
}

#[test]
fn form_path_matches_direct_parse() {
    let body = format!("other=1&payload={}", percent_encode(PR_MERGED));
    let via_form = GitHubEvent::parse("pull_request", body.as_bytes()).unwrap();
    let direct = GitHubEvent::parse("pull_request", PR_MERGED.as_bytes()).unwrap();
    assert_eq!(via_form.action, direct.action);
    assert_eq!(via_form.repo.full_name, direct.repo.full_name);
    assert_eq!(via_form.sender.login, direct.sender.login);
    assert_eq!(via_form.format_message(), direct.format_message());
}

#[test]
fn request_body_reads_document() {
    match parse_request_body(br#"{"a":[1,true,null,"x"]}"#).unwrap() {
        Json::Object(fields) => {
            assert_eq!(fields.len(), 1);
            assert_eq!(fields[0].0, "a");
            match &fields[0].1 {
                Json::Array(items) => {
                    assert!(matches!(items[0], Json::Number(Some(1))));
                    assert!(matches!(items[1], Json::Bool(true)));
                    assert!(matches!(items[2], Json::Null));
                    assert!(matches!(&items[3], Json::Str(s) if s == "x"));
                }
                other => panic!("unexpected {:?}", other),
            }
        }
        other => panic!("unexpected {:?}", other),
    }
    let form = format!("payload={}", percent_encode("[-1]"));
    match parse_request_body(form.as_bytes()).unwrap() {
        Json::Array(items) => assert!(matches!(items[0], Json::Number(None))),
        other => panic!("unexpected {:?}", other),
    }
    assert!(matches!(parse_request_body(b"x=1"), Err(ParseError::MissingPayload)));
}

#[test]
fn push_with_malformed_commit_is_unknown() {
    let body = r#"{"ref":"refs/heads/main","compare":"c","commits":[{"id":"1"}]}"#;
    let event = GitHubEvent::parse("push", body.as_bytes()).unwrap();
    assert!(matches!(event.payload, EventPayload::Unknown));
}

#[test]
fn form_body_with_payload_is_read() {
    let body = format!("payload={}", percent_encode(PR_OPENED));
    let event = GitHubEvent::parse("pull_request", body.as_bytes()).unwrap();
    assert!(matches!(event.payload, EventPayload::PullRequest(_)));
    assert_eq!(event.repo.full_name, "acme/widgets");
}

#[test]
fn form_body_without_payload_is_rejected() {
    let err = GitHubEvent::parse("push", b"other=1&x=2").unwrap_err();
    assert_eq!(err, ParseError::MissingPayload);
}

#[test]
fn form_payload_that_is_not_json_is_rejected() {
    let err = GitHubEvent::parse("push", b"payload=not%20json").unwrap_err();
    assert_eq!(err, ParseError::InvalidPayload);
}

#[test]
fn empty_body_is_rejected() {
    assert!(GitHubEvent::parse("push", b"").is_err());
}

#[test]
fn issue_event_formats() {
    let body = r#"{"action":"closed","repository":{"full_name":"acme/widgets","html_url":"u"},"sender":{"login":"bob","html_url":"https://github.com/bob"},"issue":{"number":7,"title":"Crash","html_url":"https://i/7","state":"closed"}}"#;
    let event = GitHubEvent::parse("issues", body.as_bytes()).unwrap();
    assert_eq!(
        event.format_message(),
        "✅ *Issue closed* [#7](https://i/7)\nCrash\n_by [bob](https://github.com/bob)_"
    );
}

#[test]
fn push_event_formats() {
    let body = r#"{"ref":"refs/heads/feature/x","compare":"https://c","commits":[{"id":"1","message":"m","url":"u","author":{"name":"a"}},{"id":"2","message":"m","url":"u","author":{"name":"a"}}],"repository":{"full_name":"acme/widgets","html_url":"u"},"sender":{"login":"bob","html_url":"https://github.com/bob"}}"#;
    let event = GitHubEvent::parse("push", body.as_bytes()).unwrap();
    assert_eq!(event.event_key(), "push");
    assert_eq!(
        event.format_message(),
        "⬆️ *Push* to `feature/x`\n[Compare](https://c) • 2 commit(s)\n_by [bob](https://github.com/bob)_"
    );
}

#[test]
fn workflow_run_formats() {
    let body = r#"{"action":"completed","workflow_run":{"id":9,"name":"CI","status":"completed","conclusion":"failure","html_url":"https://r/9","head_branch":"main"}}"#;
    let event = GitHubEvent::parse("workflow_run", body.as_bytes()).unwrap();
    assert_eq!(
        event.format_message(),
        "❌ *Workflow* `CI`\nBranch: `main` • Status: failure\n[View Run](https://r/9)"
    );
    let body = body.replace("\"conclusion\":\"failure\"", "\"conclusion\":null").replace("\"status\":\"completed\"", "\"status\":\"queued\"");
    let event = GitHubEvent::parse("workflow_run", body.as_bytes()).unwrap();
    assert_eq!(
        event.format_message(),
        "⏳ *Workflow* `CI`\nBranch: `main` • Status: queued\n[View Run](https://r/9)"
    );
}

#[test]
fn release_formats() {
    let body = r#"{"action":"published","release":{"tag_name":"v1.0","name":null,"html_url":"https://rel","draft":false,"prerelease":true},"sender":{"login":"bob","html_url":"https://github.com/bob"}}"#;
    let event = GitHubEvent::parse("release", body.as_bytes()).unwrap();
    assert_eq!(event.event_key(), "release.published");
    assert_eq!(
        event.format_message(),
        "🧪 *Release* `v1.0`\nv1.0\n[View Release](https://rel)\n_by [bob](https://github.com/bob)_"
    );
}

#[test]
fn format_is_deterministic() {
    let event = GitHubEvent::parse("pull_request", PR_OPENED.as_bytes()).unwrap();
    assert_eq!(event.format_message(), event.format_message());
    assert_eq!(event.clone().format_message(), event.format_message());
}

#[test]
fn built_event_formats_large_number() {
    let event = GitHubEvent {
        event_type: "pull_request".to_string(),
        action: None,
        repo: Repository { full_name: "a/b".to_string(), html_url: "u".to_string() },
        sender: User { login: "c".to_string(), html_url: "v".to_string() },
        payload: EventPayload::PullRequest(PullRequestPayload {
            number: u64::MAX,
            title: "t".to_string(),
            html_url: "p".to_string(),
            state: "open".to_string(),
            merged: None,
            base: BaseRef { ref_name: "dev".to_string() },
        }),
    };
    assert_eq!(event.event_key(), "pull_request");
    assert_eq!(
        event.format_message(),
        "📝 *Pull Request updated* [#18446744073709551615](p)\n`dev` → t\n_by [c](v)_"
    );
}
