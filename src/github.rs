use vstd::prelude::*;

use crate::json::{body_document, member, member_of, parse_request_body, Json, ParseError};
use crate::text::str_eq;

verus! {

/// A normalised webhook event.
#[derive(Debug, Clone)]
pub struct GitHubEvent {
    pub event_type: String,
    pub action: Option<String>,
    pub repo: Repository,
    pub sender: User,
    pub payload: EventPayload,
}

/// Origin repository of an event.
#[derive(Debug, Clone)]
pub struct Repository {
    pub full_name: String,
    pub html_url: String,
}

/// Account that triggered an event.
#[derive(Debug, Clone)]
pub struct User {
    pub login: String,
    pub html_url: String,
}

/// Kind-specific part of an event.
#[derive(Debug, Clone)]
pub enum EventPayload {
    PullRequest(PullRequestPayload),
    Issue(IssuePayload),
    Push(PushPayload),
    WorkflowRun(WorkflowRunPayload),
    Release(ReleasePayload),
    Unknown,
}

#[derive(Debug, Clone)]
pub struct PullRequestPayload {
    pub number: u64,
    pub title: String,
    pub html_url: String,
    pub state: String,
    pub merged: Option<bool>,
    pub base: BaseRef,
}

/// Branch that a pull request targets.
#[derive(Debug, Clone)]
pub struct BaseRef {
    pub ref_name: String,
}

#[derive(Debug, Clone)]
pub struct IssuePayload {
    pub number: u64,
    pub title: String,
    pub html_url: String,
    pub state: String,
}

#[derive(Debug, Clone)]
pub struct PushPayload {
    pub ref_name: String,
    pub compare: String,
    pub commits: Vec<Commit>,
}

#[derive(Debug, Clone)]
pub struct Commit {
    pub id: String,
    pub message: String,
    pub url: String,
    pub author: CommitAuthor,
}

#[derive(Debug, Clone)]
pub struct CommitAuthor {
    pub name: String,
}

#[derive(Debug, Clone)]
pub struct WorkflowRunPayload {
    pub id: u64,
    pub name: String,
    pub status: String,
    pub conclusion: Option<String>,
    pub html_url: String,
    pub head_branch: String,
}

#[derive(Debug, Clone)]
pub struct ReleasePayload {
    pub tag_name: String,
    pub name: Option<String>,
    pub html_url: String,
    pub draft: bool,
    pub prerelease: bool,
}

/// Composite routing key: the kind alone, or `kind.action`.
pub open spec fn event_key_of(e: GitHubEvent) -> Seq<char> {
    match e.action {
        Some(a) => e.event_type@ + seq!['.'] + a@,
        None => e.event_type@,
    }
}

/// `s`, or `fallback` when `s` is empty.
pub open spec fn non_empty_or(s: Seq<char>, fallback: Seq<char>) -> Seq<char> {
    if s.len() == 0 {
        fallback
    } else {
        s
    }
}

/// The payload variant agrees with the event kind: each recognised kind has
/// its own variant, and every other kind yields `Unknown`.
pub open spec fn payload_fits(kind: Seq<char>, payload: EventPayload) -> bool {
    match payload {
        EventPayload::PullRequest(_) => kind == "pull_request"@,
        EventPayload::Issue(_) => kind == "issues"@,
        EventPayload::Push(_) => kind == "push"@,
        EventPayload::WorkflowRun(_) => kind == "workflow_run"@,
        EventPayload::Release(_) => kind == "release"@,
        EventPayload::Unknown => true,
    }
}

/// Invariant of a normalised event: origin and actor are never empty, and the
/// payload agrees with the kind.
pub open spec fn normalized(e: GitHubEvent) -> bool {
    e.repo.full_name@.len() > 0 && e.repo.html_url@.len() > 0 && e.sender.login@.len() > 0
        && e.sender.html_url@.len() > 0 && payload_fits(e.event_type@, e.payload)
}

/// Decimal digits of `n`.
pub open spec fn decimal(n: nat) -> Seq<char>
    decreases n,
{
    let d = "0123456789"@.subrange((n % 10) as int, (n % 10) as int + 1);
    if n < 10 {
        d
    } else {
        decimal(n / 10) + d
    }
}

/// Branch name with every leading `refs/heads/` removed.
pub open spec fn strip_heads(s: Seq<char>) -> Seq<char>
    decreases s.len(),
{
    let p = "refs/heads/"@;
    if p.len() > 0 && p.is_prefix_of(s) {
        strip_heads(s.subrange(p.len() as int, s.len() as int))
    } else {
        s
    }
}

/// The action word shown in a message; `updated` when the event has none.
pub open spec fn action_word(e: GitHubEvent) -> Seq<char> {
    match e.action {
        Some(a) => a@,
        None => "updated"@,
    }
}

/// Closing credit line naming the sender.
pub open spec fn credit_line(u: User) -> Seq<char> {
    "\n_by ["@ + u.login@ + "]("@ + u.html_url@ + ")_"@
}

pub open spec fn pull_request_glyph(action: Seq<char>, merged: Option<bool>) -> Seq<char> {
    if action == "opened"@ {
        "🆕"@
    } else if action == "closed"@ && merged == Some(true) {
        "🔀"@
    } else if action == "closed"@ {
        "❌"@
    } else if action == "reopened"@ {
        "🔄"@
    } else if action == "synchronize"@ {
        "📦"@
    } else {
        "📝"@
    }
}

pub open spec fn issue_glyph(action: Seq<char>) -> Seq<char> {
    if action == "opened"@ {
        "🐛"@
    } else if action == "closed"@ {
        "✅"@
    } else if action == "reopened"@ {
        "🔄"@
    } else {
        "📋"@
    }
}

pub open spec fn workflow_glyph(conclusion: Option<String>) -> Seq<char> {
    match conclusion {
        Some(c) => if c@ == "success"@ {
            "✅"@
        } else if c@ == "failure"@ {
            "❌"@
        } else if c@ == "cancelled"@ {
            "🚫"@
        } else {
            "⏳"@
        },
        None => "⏳"@,
    }
}

pub open spec fn release_glyph(draft: bool, prerelease: bool) -> Seq<char> {
    if draft {
        "📝"@
    } else if prerelease {
        "🧪"@
    } else {
        "🏷️"@
    }
}

/// The notification text of an event.
pub open spec fn message_of(e: GitHubEvent) -> Seq<char> {
    match e.payload {
        EventPayload::PullRequest(pr) => pull_request_glyph(action_word(e), pr.merged)
            + " *Pull Request "@ + action_word(e) + "* [#"@ + decimal(pr.number as nat) + "]("@
            + pr.html_url@ + ")\n`"@ + pr.base.ref_name@ + "` → "@ + pr.title@ + credit_line(
            e.sender,
        ),
        EventPayload::Issue(issue) => issue_glyph(action_word(e)) + " *Issue "@ + action_word(e)
            + "* [#"@ + decimal(issue.number as nat) + "]("@ + issue.html_url@ + ")\n"@
            + issue.title@ + credit_line(e.sender),
        EventPayload::Push(push) => "⬆️ *Push* to `"@ + strip_heads(push.ref_name@)
            + "`\n[Compare]("@ + push.compare@ + ") • "@ + decimal(push.commits@.len())
            + " commit(s)"@ + credit_line(e.sender),
        EventPayload::WorkflowRun(w) => workflow_glyph(w.conclusion) + " *Workflow* `"@ + w.name@
            + "`\nBranch: `"@ + w.head_branch@ + "` • Status: "@ + match w.conclusion {
            Some(c) => c@,
            None => w.status@,
        } + "\n[View Run]("@ + w.html_url@ + ")"@,
        EventPayload::Release(r) => release_glyph(r.draft, r.prerelease) + " *Release* `"@
            + r.tag_name@ + "`\n"@ + match r.name {
            Some(n) => n@,
            None => r.tag_name@,
        } + "\n[View Release]("@ + r.html_url@ + ")"@ + credit_line(e.sender),
        EventPayload::Unknown => "📡 *"@ + e.event_type@ + "* on `"@ + e.repo.full_name@ + "`"@
            + credit_line(e.sender),
    }
}

/// Appends the decimal digits of `n`.
fn push_decimal(out: &mut String, n: u64)
    ensures
        final(out)@ == old(out)@ + decimal(n as nat),
    decreases n,
{
    let digits = "0123456789";
    proof {
        reveal_strlit("0123456789");
    }
    if n >= 10 {
        push_decimal(out, n / 10);
    }
    let d = (n % 10) as usize;
    out.append(digits.substring_char(d, d + 1));
}

/// Appends `s` with every leading `refs/heads/` removed.
fn push_branch(out: &mut String, s: &str)
    ensures
        final(out)@ == old(out)@ + strip_heads(s@),
{
    let p = "refs/heads/";
    proof {
        reveal_strlit("refs/heads/");
    }
    let plen = p.unicode_len();
    let len = s.unicode_len();
    let mut start: usize = 0;
    assert(s@.subrange(0, len as int) =~= s@);
    while plen <= len - start && crate::text::prefix_of(
        p,
        plen,
        s.substring_char(start, len),
    )
        invariant
            start <= len,
            len == s@.len(),
            p@ == "refs/heads/"@,
            plen == p@.len(),
            plen > 0,
            strip_heads(s@.subrange(start as int, len as int)) == strip_heads(s@),
        decreases len - start,
    {
        let ghost rest = s@.subrange(start as int, len as int);
        assert(p@.subrange(0, plen as int) =~= p@);
        assert(rest.subrange(plen as int, rest.len() as int) =~= s@.subrange(
            start + plen,
            len as int,
        ));
        assert(strip_heads(rest) == strip_heads(rest.subrange(plen as int, rest.len() as int)));
        start = start + plen;
    }
    proof {
        let rest = s@.subrange(start as int, len as int);
        assert(p@.subrange(0, plen as int) =~= p@);
        if p@.is_prefix_of(rest) {
            assert(plen <= len - start);
        }
    }
    out.append(s.substring_char(start, len));
}

/// Appends the credit line of `u`.
fn push_credit(out: &mut String, u: &User)
    ensures
        final(out)@ == old(out)@ + credit_line(*u),
{
    out.append("\n_by [");
    out.append(u.login.as_str());
    out.append("](");
    out.append(u.html_url.as_str());
    out.append(")_");
    assert(out@ =~= old(out)@ + credit_line(*u));
}

fn pull_request_glyph_str(action: &str, merged: Option<bool>) -> (r: &'static str)
    ensures
        r@ == pull_request_glyph(action@, merged),
{
    if str_eq(action, "opened") {
        "🆕"
    } else if str_eq(action, "closed") && merged == Some(true) {
        "🔀"
    } else if str_eq(action, "closed") {
        "❌"
    } else if str_eq(action, "reopened") {
        "🔄"
    } else if str_eq(action, "synchronize") {
        "📦"
    } else {
        "📝"
    }
}

fn issue_glyph_str(action: &str) -> (r: &'static str)
    ensures
        r@ == issue_glyph(action@),
{
    if str_eq(action, "opened") {
        "🐛"
    } else if str_eq(action, "closed") {
        "✅"
    } else if str_eq(action, "reopened") {
        "🔄"
    } else {
        "📋"
    }
}

fn workflow_glyph_str(conclusion: &Option<String>) -> (r: &'static str)
    ensures
        r@ == workflow_glyph(*conclusion),
{
    match conclusion {
        Some(c) => if str_eq(c.as_str(), "success") {
            "✅"
        } else if str_eq(c.as_str(), "failure") {
            "❌"
        } else if str_eq(c.as_str(), "cancelled") {
            "🚫"
        } else {
            "⏳"
        },
        None => "⏳",
    }
}

fn release_glyph_str(draft: bool, prerelease: bool) -> (r: &'static str)
    ensures
        r@ == release_glyph(draft, prerelease),
{
    if draft {
        "📝"
    } else if prerelease {
        "🧪"
    } else {
        "🏷️"
    }
}

impl GitHubEvent {
    /// Composite routing key of the event.
    pub fn event_key(&self) -> (r: String)
        ensures
            r@ == event_key_of(*self),
    {
        match &self.action {
            Some(action) => {
                let mut key = String::from_str(self.event_type.as_str());
                key.append(".");
                key.append(action.as_str());
                proof {
                    reveal_strlit(".");
                }
                key
            },
            None => self.event_type.clone(),
        }
    }
    /// Notification text of the event; total over every payload variant.
    pub fn format_message(&self) -> (r: String)
        ensures
            r@ == message_of(*self),
    {
        let mut out = String::new();
        let action: &str = match &self.action {
            Some(a) => a.as_str(),
            None => "updated",
        };
        assert(action@ == action_word(*self));
        match &self.payload {
            EventPayload::PullRequest(pr) => {
                out.append(pull_request_glyph_str(action, pr.merged));
                out.append(" *Pull Request ");
                out.append(action);
                out.append("* [#");
                push_decimal(&mut out, pr.number);
                out.append("](");
                out.append(pr.html_url.as_str());
                out.append(")\n`");
                out.append(pr.base.ref_name.as_str());
                out.append("` → ");
                out.append(pr.title.as_str());
                push_credit(&mut out, &self.sender);
            },
            EventPayload::Issue(issue) => {
                out.append(issue_glyph_str(action));
                out.append(" *Issue ");
                out.append(action);
                out.append("* [#");
                push_decimal(&mut out, issue.number);
                out.append("](");
                out.append(issue.html_url.as_str());
                out.append(")\n");
                out.append(issue.title.as_str());
                push_credit(&mut out, &self.sender);
            },
            EventPayload::Push(push) => {
                out.append("⬆️ *Push* to `");
                push_branch(&mut out, push.ref_name.as_str());
                out.append("`\n[Compare](");
                out.append(push.compare.as_str());
                out.append(") • ");
                push_decimal(&mut out, push.commits.len() as u64);
                out.append(" commit(s)");
                push_credit(&mut out, &self.sender);
            },
            EventPayload::WorkflowRun(w) => {
                out.append(workflow_glyph_str(&w.conclusion));
                out.append(" *Workflow* `");
                out.append(w.name.as_str());
                out.append("`\nBranch: `");
                out.append(w.head_branch.as_str());
                out.append("` • Status: ");
                match &w.conclusion {
                    Some(c) => out.append(c.as_str()),
                    None => out.append(w.status.as_str()),
                }
                out.append("\n[View Run](");
                out.append(w.html_url.as_str());
                out.append(")");
            },
            EventPayload::Release(rel) => {
                out.append(release_glyph_str(rel.draft, rel.prerelease));
                out.append(" *Release* `");
                out.append(rel.tag_name.as_str());
                out.append("`\n");
                match &rel.name {
                    Some(n) => out.append(n.as_str()),
                    None => out.append(rel.tag_name.as_str()),
                }
                out.append("\n[View Release](");
                out.append(rel.html_url.as_str());
                out.append(")");
                push_credit(&mut out, &self.sender);
            },
            EventPayload::Unknown => {
                out.append("📡 *");
                out.append(self.event_type.as_str());
                out.append("* on `");
                out.append(self.repo.full_name.as_str());
                out.append("`");
                push_credit(&mut out, &self.sender);
            },
        }
        assert(out@ =~= message_of(*self));
        out
    }
}


/// A string member's text.
pub open spec fn text_member(v: Json, k: Seq<char>) -> Option<Seq<char>> {
    match member_of(v, k) {
        Some(Json::Str(s)) => Some(s@),
        _ => None,
    }
}

/// A member that is a non-negative integer fitting in `u64`.
pub open spec fn number_member(v: Json, k: Seq<char>) -> Option<u64> {
    match member_of(v, k) {
        Some(Json::Number(Some(n))) => Some(n),
        _ => None,
    }
}

/// A boolean member.
pub open spec fn flag_member(v: Json, k: Seq<char>) -> Option<bool> {
    match member_of(v, k) {
        Some(Json::Bool(b)) => Some(b),
        _ => None,
    }
}

/// An optional string member: absent or null reads as `Some(None)`, a string
/// as `Some(Some(text))`, anything else does not read.
pub open spec fn optional_text_member(v: Json, k: Seq<char>) -> Option<Option<Seq<char>>> {
    match member_of(v, k) {
        None => Some(None),
        Some(Json::Null) => Some(None),
        Some(Json::Str(s)) => Some(Some(s@)),
        _ => None,
    }
}

/// An optional boolean member, read as `optional_text_member` reads strings.
pub open spec fn optional_flag_member(v: Json, k: Seq<char>) -> Option<Option<bool>> {
    match member_of(v, k) {
        None => Some(None),
        Some(Json::Null) => Some(None),
        Some(Json::Bool(b)) => Some(Some(b)),
        _ => None,
    }
}

pub open spec fn opt_text(o: Option<String>) -> Option<Seq<char>> {
    match o {
        Some(s) => Some(s@),
        None => None,
    }
}

/// Text of member `field` of the object under `obj`; empty when either is
/// missing or not of the expected type.
pub open spec fn object_text(doc: Json, obj: Seq<char>, field: Seq<char>) -> Seq<char> {
    match member_of(doc, obj) {
        Some(o) => match text_member(o, field) {
            Some(s) => s,
            None => Seq::empty(),
        },
        None => Seq::empty(),
    }
}

pub open spec fn pull_request_readable(v: Json) -> bool {
    number_member(v, "number"@) is Some && text_member(v, "title"@) is Some && text_member(
        v,
        "html_url"@,
    ) is Some && text_member(v, "state"@) is Some && optional_flag_member(v, "merged"@) is Some
        && match member_of(v, "base"@) {
        Some(b) => text_member(b, "ref"@) is Some,
        None => false,
    }
}

/// `pr` holds the pull-request fields of `v`.
pub open spec fn reads_pull_request(v: Json, pr: PullRequestPayload) -> bool {
    number_member(v, "number"@) == Some(pr.number) && text_member(v, "title"@) == Some(pr.title@)
        && text_member(v, "html_url"@) == Some(pr.html_url@) && text_member(v, "state"@) == Some(
        pr.state@,
    ) && optional_flag_member(v, "merged"@) == Some(pr.merged) && match member_of(v, "base"@) {
        Some(b) => text_member(b, "ref"@) == Some(pr.base.ref_name@),
        None => false,
    }
}

pub open spec fn issue_readable(v: Json) -> bool {
    number_member(v, "number"@) is Some && text_member(v, "title"@) is Some && text_member(
        v,
        "html_url"@,
    ) is Some && text_member(v, "state"@) is Some
}

/// `issue` holds the issue fields of `v`.
pub open spec fn reads_issue(v: Json, issue: IssuePayload) -> bool {
    number_member(v, "number"@) == Some(issue.number) && text_member(v, "title"@) == Some(
        issue.title@,
    ) && text_member(v, "html_url"@) == Some(issue.html_url@) && text_member(v, "state"@) == Some(
        issue.state@,
    )
}

pub open spec fn commit_readable(v: Json) -> bool {
    text_member(v, "id"@) is Some && text_member(v, "message"@) is Some && text_member(v, "url"@)
        is Some && match member_of(v, "author"@) {
        Some(a) => text_member(a, "name"@) is Some,
        None => false,
    }
}

/// `c` holds the commit fields of `v`.
pub open spec fn reads_commit(v: Json, c: Commit) -> bool {
    text_member(v, "id"@) == Some(c.id@) && text_member(v, "message"@) == Some(c.message@)
        && text_member(v, "url"@) == Some(c.url@) && match member_of(v, "author"@) {
        Some(a) => text_member(a, "name"@) == Some(c.author.name@),
        None => false,
    }
}

pub open spec fn push_readable(v: Json) -> bool {
    text_member(v, "ref"@) is Some && text_member(v, "compare"@) is Some && match member_of(
        v,
        "commits"@,
    ) {
        Some(Json::Array(items)) => forall|i: int|
            0 <= i < items@.len() ==> commit_readable(#[trigger] items@[i]),
        _ => false,
    }
}

/// `p` holds the push fields of `v`, every commit in order.
pub open spec fn reads_push(v: Json, p: PushPayload) -> bool {
    text_member(v, "ref"@) == Some(p.ref_name@) && text_member(v, "compare"@) == Some(p.compare@)
        && match member_of(v, "commits"@) {
        Some(Json::Array(items)) => p.commits@.len() == items@.len() && forall|i: int|
            0 <= i < items@.len() ==> reads_commit(#[trigger] items@[i], p.commits@[i]),
        _ => false,
    }
}

pub open spec fn workflow_run_readable(v: Json) -> bool {
    number_member(v, "id"@) is Some && text_member(v, "name"@) is Some && text_member(v, "status"@)
        is Some && optional_text_member(v, "conclusion"@) is Some && text_member(v, "html_url"@)
        is Some && text_member(v, "head_branch"@) is Some
}

/// `w` holds the workflow-run fields of `v`.
pub open spec fn reads_workflow_run(v: Json, w: WorkflowRunPayload) -> bool {
    number_member(v, "id"@) == Some(w.id) && text_member(v, "name"@) == Some(w.name@)
        && text_member(v, "status"@) == Some(w.status@) && optional_text_member(v, "conclusion"@)
        == Some(opt_text(w.conclusion)) && text_member(v, "html_url"@) == Some(w.html_url@)
        && text_member(v, "head_branch"@) == Some(w.head_branch@)
}

pub open spec fn release_readable(v: Json) -> bool {
    text_member(v, "tag_name"@) is Some && optional_text_member(v, "name"@) is Some && text_member(
        v,
        "html_url"@,
    ) is Some && flag_member(v, "draft"@) is Some && flag_member(v, "prerelease"@) is Some
}

/// `r` holds the release fields of `v`.
pub open spec fn reads_release(v: Json, r: ReleasePayload) -> bool {
    text_member(v, "tag_name"@) == Some(r.tag_name@) && optional_text_member(v, "name"@) == Some(
        opt_text(r.name),
    ) && text_member(v, "html_url"@) == Some(r.html_url@) && flag_member(v, "draft"@) == Some(
        r.draft,
    ) && flag_member(v, "prerelease"@) == Some(r.prerelease)
}

/// The payload of a document of kind `kind`. Pull-request, issue,
/// workflow-run and release fields are read from the member `pull_request`,
/// `issue`, `workflow_run` and `release`; push fields from the top level. A
/// missing or malformed part, or any other kind, gives `Unknown`.
pub open spec fn payload_read(kind: Seq<char>, doc: Json, p: EventPayload) -> bool {
    if kind == "pull_request"@ {
        match member_of(doc, "pull_request"@) {
            Some(v) => if pull_request_readable(v) {
                p matches EventPayload::PullRequest(pr) && reads_pull_request(v, pr)
            } else {
                p is Unknown
            },
            None => p is Unknown,
        }
    } else if kind == "issues"@ {
        match member_of(doc, "issue"@) {
            Some(v) => if issue_readable(v) {
                p matches EventPayload::Issue(i) && reads_issue(v, i)
            } else {
                p is Unknown
            },
            None => p is Unknown,
        }
    } else if kind == "push"@ {
        if push_readable(doc) {
            p matches EventPayload::Push(push) && reads_push(doc, push)
        } else {
            p is Unknown
        }
    } else if kind == "workflow_run"@ {
        match member_of(doc, "workflow_run"@) {
            Some(v) => if workflow_run_readable(v) {
                p matches EventPayload::WorkflowRun(w) && reads_workflow_run(v, w)
            } else {
                p is Unknown
            },
            None => p is Unknown,
        }
    } else if kind == "release"@ {
        match member_of(doc, "release"@) {
            Some(v) => if release_readable(v) {
                p matches EventPayload::Release(r) && reads_release(v, r)
            } else {
                p is Unknown
            },
            None => p is Unknown,
        }
    } else {
        p is Unknown
    }
}

/// `e` is the event of kind `kind` that document `doc` normalises to: the
/// string member `action`, the `repository` and `sender` objects read field
/// by field with their fallbacks, and the payload of the kind.
pub open spec fn event_read(kind: Seq<char>, doc: Json, e: GitHubEvent) -> bool {
    e.event_type@ == kind && opt_text(e.action) == text_member(doc, "action"@) && e.repo.full_name@
        == non_empty_or(object_text(doc, "repository"@, "full_name"@), "unknown/repository"@)
        && e.repo.html_url@ == non_empty_or(
        object_text(doc, "repository"@, "html_url"@),
        "https://github.com"@,
    ) && e.sender.login@ == non_empty_or(object_text(doc, "sender"@, "login"@), "unknown"@)
        && e.sender.html_url@ == non_empty_or(
        object_text(doc, "sender"@, "html_url"@),
        "https://github.com"@,
    ) && payload_read(kind, doc, e.payload)
}

/// A string member of an object.
fn text_field(v: &Json, key: &str) -> (r: Option<String>)
    ensures
        opt_text(r) == text_member(*v, key@),
{
    match member(v, key) {
        Some(Json::Str(s)) => Some(s.clone()),
        _ => None,
    }
}

/// A non-negative integer member of an object.
fn number_field(v: &Json, key: &str) -> (r: Option<u64>)
    ensures
        r == number_member(*v, key@),
{
    match member(v, key) {
        Some(Json::Number(n)) => *n,
        _ => None,
    }
}

/// A boolean member of an object.
fn flag_field(v: &Json, key: &str) -> (r: Option<bool>)
    ensures
        r == flag_member(*v, key@),
{
    match member(v, key) {
        Some(Json::Bool(b)) => Some(*b),
        _ => None,
    }
}

/// An optional string member.
fn optional_text_field(v: &Json, key: &str) -> (r: Option<Option<String>>)
    ensures
        match r {
            Some(o) => optional_text_member(*v, key@) == Some(opt_text(o)),
            None => optional_text_member(*v, key@) is None,
        },
{
    match member(v, key) {
        None => Some(None),
        Some(Json::Null) => Some(None),
        Some(Json::Str(s)) => Some(Some(s.clone())),
        _ => None,
    }
}

/// An optional boolean member.
fn optional_flag_field(v: &Json, key: &str) -> (r: Option<Option<bool>>)
    ensures
        r == optional_flag_member(*v, key@),
{
    match member(v, key) {
        None => Some(None),
        Some(Json::Null) => Some(None),
        Some(Json::Bool(b)) => Some(Some(*b)),
        _ => None,
    }
}

/// Text of member `field` of the object under `obj`, empty when missing.
fn object_text_field(doc: &Json, obj: &str, field: &str) -> (r: String)
    ensures
        r@ == object_text(*doc, obj@, field@),
{
    match member(doc, obj) {
        Some(o) => match text_field(o, field) {
            Some(s) => s,
            None => String::new(),
        },
        None => String::new(),
    }
}

/// `s`, or `fallback` when `s` is empty.
fn non_empty_or_else(s: String, fallback: &str) -> (r: String)
    ensures
        r@ == non_empty_or(s@, fallback@),
{
    if s.as_str().unicode_len() == 0 {
        String::from_str(fallback)
    } else {
        s
    }
}

fn pull_request_from(v: &Json) -> (r: Option<PullRequestPayload>)
    ensures
        match r {
            Some(pr) => reads_pull_request(*v, pr),
            None => !pull_request_readable(*v),
        },
{
    let number = number_field(v, "number")?;
    let title = text_field(v, "title")?;
    let html_url = text_field(v, "html_url")?;
    let state = text_field(v, "state")?;
    let merged = optional_flag_field(v, "merged")?;
    let base = member(v, "base")?;
    let ref_name = text_field(base, "ref")?;
    Some(PullRequestPayload { number, title, html_url, state, merged, base: BaseRef { ref_name } })
}

fn issue_from(v: &Json) -> (r: Option<IssuePayload>)
    ensures
        match r {
            Some(i) => reads_issue(*v, i),
            None => !issue_readable(*v),
        },
{
    let number = number_field(v, "number")?;
    let title = text_field(v, "title")?;
    let html_url = text_field(v, "html_url")?;
    let state = text_field(v, "state")?;
    Some(IssuePayload { number, title, html_url, state })
}

fn commit_from(v: &Json) -> (r: Option<Commit>)
    ensures
        match r {
            Some(c) => reads_commit(*v, c),
            None => !commit_readable(*v),
        },
{
    let id = text_field(v, "id")?;
    let message = text_field(v, "message")?;
    let url = text_field(v, "url")?;
    let author = member(v, "author")?;
    let name = text_field(author, "name")?;
    Some(Commit { id, message, url, author: CommitAuthor { name } })
}

fn push_from(v: &Json) -> (r: Option<PushPayload>)
    ensures
        match r {
            Some(p) => reads_push(*v, p),
            None => !push_readable(*v),
        },
{
    let ref_name = text_field(v, "ref")?;
    let compare = text_field(v, "compare")?;
    let items = match member(v, "commits") {
        Some(Json::Array(items)) => items,
        _ => return None,
    };
    let mut commits: Vec<Commit> = Vec::new();
    let mut i: usize = 0;
    while i < items.len()
        invariant
            member_of(*v, "commits"@) == Some(Json::Array(*items)),
            text_member(*v, "ref"@) == Some(ref_name@),
            text_member(*v, "compare"@) == Some(compare@),
            i <= items@.len(),
            commits@.len() == i,
            forall|j: int| 0 <= j < i ==> reads_commit(#[trigger] items@[j], commits@[j]),
        decreases items@.len() - i,
    {
        let c = match commit_from(&items[i]) {
            Some(c) => c,
            None => {
                assert(!commit_readable(items@[i as int]));
                assert(!(forall|j: int|
                    0 <= j < items@.len() ==> commit_readable(#[trigger] items@[j])));
                let ghost m = member_of(*v, "commits"@);
                assert(m == Some(Json::Array(*items)));
                assert(m->0->Array_0@ == items@);
                assert(!push_readable(*v));
                return None;
            },
        };
        commits.push(c);
        i = i + 1;
    }
    Some(PushPayload { ref_name, compare, commits })
}

fn workflow_run_from(v: &Json) -> (r: Option<WorkflowRunPayload>)
    ensures
        match r {
            Some(w) => reads_workflow_run(*v, w),
            None => !workflow_run_readable(*v),
        },
{
    let id = number_field(v, "id")?;
    let name = text_field(v, "name")?;
    let status = text_field(v, "status")?;
    let conclusion = optional_text_field(v, "conclusion")?;
    let html_url = text_field(v, "html_url")?;
    let head_branch = text_field(v, "head_branch")?;
    Some(WorkflowRunPayload { id, name, status, conclusion, html_url, head_branch })
}

fn release_from(v: &Json) -> (r: Option<ReleasePayload>)
    ensures
        match r {
            Some(rel) => reads_release(*v, rel),
            None => !release_readable(*v),
        },
{
    let tag_name = text_field(v, "tag_name")?;
    let name = optional_text_field(v, "name")?;
    let html_url = text_field(v, "html_url")?;
    let draft = flag_field(v, "draft")?;
    let prerelease = flag_field(v, "prerelease")?;
    Some(ReleasePayload { tag_name, name, html_url, draft, prerelease })
}

/// The object that a kind's fields are read from: the member under `field`,
/// or the document itself.
fn parse_nested<'a>(value: &'a Json, field: Option<&str>) -> (r: Option<&'a Json>)
    ensures
        match field {
            Some(k) => match r {
                Some(x) => member_of(*value, k@) == Some(*x),
                None => member_of(*value, k@) is None,
            },
            None => r matches Some(x) && *x == *value,
        },
{
    match field {
        Some(key) => member(value, key),
        None => Some(value),
    }
}

impl GitHubEvent {
    /// Normalises a request body into an event of the given kind. Fails only
    /// when the body holds no structured document; a kind-specific part that
    /// is missing or malformed gives the `Unknown` payload.
    pub fn parse(event_type: &str, body: &[u8]) -> (r: Result<GitHubEvent, ParseError>)
        ensures
            match body_document(body@) {
                Err(e) => r == Err::<GitHubEvent, ParseError>(e),
                Ok(doc) => r matches Ok(ev) && event_read(event_type@, doc, ev) && normalized(ev),
            },
    {
        proof {
            reveal_strlit("unknown/repository");
            reveal_strlit("https://github.com");
            reveal_strlit("unknown");
        }
        let value = match parse_request_body(body) {
            Ok(v) => v,
            Err(e) => return Err(e),
        };
        let action = text_field(&value, "action");
        let repo = Repository {
            full_name: non_empty_or_else(
                object_text_field(&value, "repository", "full_name"),
                "unknown/repository",
            ),
            html_url: non_empty_or_else(
                object_text_field(&value, "repository", "html_url"),
                "https://github.com",
            ),
        };
        let sender = User {
            login: non_empty_or_else(object_text_field(&value, "sender", "login"), "unknown"),
            html_url: non_empty_or_else(
                object_text_field(&value, "sender", "html_url"),
                "https://github.com",
            ),
        };
        let payload = Self::parse_payload(event_type, &value);
        Ok(GitHubEvent { event_type: event_type.to_owned(), action, repo, sender, payload })
    }

    /// Kind-specific part of a document, as `payload_read` describes.
    fn parse_payload(event_type: &str, value: &Json) -> (r: EventPayload)
        ensures
            payload_read(event_type@, *value, r),
            payload_fits(event_type@, r),
    {
        if str_eq(event_type, "pull_request") {
            match parse_nested(value, Some("pull_request")) {
                Some(v) => match pull_request_from(v) {
                    Some(pr) => EventPayload::PullRequest(pr),
                    None => EventPayload::Unknown,
                },
                None => EventPayload::Unknown,
            }
        } else if str_eq(event_type, "issues") {
            match parse_nested(value, Some("issue")) {
                Some(v) => match issue_from(v) {
                    Some(issue) => EventPayload::Issue(issue),
                    None => EventPayload::Unknown,
                },
                None => EventPayload::Unknown,
            }
        } else if str_eq(event_type, "push") {
            match parse_nested(value, None) {
                Some(v) => match push_from(v) {
                    Some(push) => EventPayload::Push(push),
                    None => EventPayload::Unknown,
                },
                None => EventPayload::Unknown,
            }
        } else if str_eq(event_type, "workflow_run") {
            match parse_nested(value, Some("workflow_run")) {
                Some(v) => match workflow_run_from(v) {
                    Some(w) => EventPayload::WorkflowRun(w),
                    None => EventPayload::Unknown,
                },
                None => EventPayload::Unknown,
            }
        } else if str_eq(event_type, "release") {
            match parse_nested(value, Some("release")) {
                Some(v) => match release_from(v) {
                    Some(rel) => EventPayload::Release(rel),
                    None => EventPayload::Unknown,
                },
                None => EventPayload::Unknown,
            }
        } else {
            EventPayload::Unknown
        }
    }
}

/// Formatting is a function of the event: equal events give equal messages.
pub proof fn lemma_format_deterministic(a: GitHubEvent, b: GitHubEvent)
    requires
        a == b,
    ensures
        message_of(a) == message_of(b),
{
}

} // verus!
