//! The summarize pipeline: extract commit messages from activity events,
//! build the upstream request, and classify upstream outcomes under a
//! bounded retry policy with exponential backoff.

use vstd::prelude::*;
use vstd::string::*;
use crate::config::{resolve_override, resolved, Config};
use crate::error::AppError;
use crate::jsonval::{
    completion_text, completion_text_of, embeddings_data, embeddings_data_of, json_parses,
};
use crate::models::{Activity, SummarizeRequest, SummarizeResponse};
use crate::textops::{dec_digits, joined, str_views, trimmed_end, u64_to_dec};
use crate::textops::{join_with, trim_trailing};

verus! {

/// The commit messages one activity contributes: only push events count,
/// and a missing commit list contributes nothing.
pub open spec fn activity_messages(a: Activity) -> Seq<Seq<char>> {
    if a.kind@ == "PushEvent"@ {
        match a.payload {
            Some(p) => match p.commits {
                Some(cs) => Seq::new(cs@.len(), |i: int| cs@[i].message@),
                None => Seq::<Seq<char>>::empty(),
            },
            None => Seq::<Seq<char>>::empty(),
        }
    } else {
        Seq::<Seq<char>>::empty()
    }
}

/// All commit messages of the activities, flattened in encounter order.
pub open spec fn commit_messages(acts: Seq<Activity>) -> Seq<Seq<char>>
    decreases acts.len(),
{
    if acts.len() == 0 {
        Seq::<Seq<char>>::empty()
    } else {
        activity_messages(acts[0]) + commit_messages(acts.drop_first())
    }
}

proof fn lemma_commit_messages_push(acts: Seq<Activity>, a: Activity)
    ensures
        commit_messages(acts.push(a)) == commit_messages(acts) + activity_messages(a),
    decreases acts.len(),
{
    if acts.len() == 0 {
        let p = acts.push(a);
        assert(p[0] == a);
        assert(p.drop_first() =~= Seq::<Activity>::empty());
        assert(commit_messages(p.drop_first()).len() == 0);
        assert(commit_messages(p) =~= activity_messages(a) + commit_messages(p.drop_first()));
        assert(activity_messages(a) + commit_messages(p.drop_first()) =~= activity_messages(a));
        assert(commit_messages(acts) + activity_messages(a) =~= activity_messages(a));
    } else {
        lemma_commit_messages_push(acts.drop_first(), a);
        assert(acts.push(a).drop_first() =~= acts.drop_first().push(a));
        assert(acts.push(a)[0] == acts[0]);
        assert(activity_messages(acts[0]) + (commit_messages(acts.drop_first())
            + activity_messages(a)) =~= (activity_messages(acts[0]) + commit_messages(
            acts.drop_first(),
        )) + activity_messages(a));
    }
}

/// The text the pipeline summarizes: all commit messages joined with the
/// fixed separator.
pub open spec fn commit_text(acts: Seq<Activity>) -> Seq<char> {
    joined(commit_messages(acts), "\n---\n"@)
}

/// Law: activities among which no push event carries a commit — no push
/// events at all, or push events whose commit lists are empty or absent —
/// produce no commit text, so the pipeline plan is the fixed no-op result
/// and no upstream call is owed.
pub proof fn lemma_no_commits_no_call(acts: Seq<Activity>)
    requires
        forall|i: int| 0 <= i < acts.len() ==> activity_messages(#[trigger] acts[i]).len() == 0,
    ensures
        commit_messages(acts).len() == 0,
        commit_text(acts).len() == 0,
    decreases acts.len(),
{
    if acts.len() == 0 {
        assert(commit_messages(acts).len() == 0);
    } else {
        assert(activity_messages(acts[0]).len() == 0);
        assert forall|i: int| 0 <= i < acts.drop_first().len() implies activity_messages(
            #[trigger] acts.drop_first()[i],
        ).len() == 0 by {
            assert(acts.drop_first()[i] == acts[i + 1]);
        }
        lemma_no_commits_no_call(acts.drop_first());
        assert(commit_messages(acts).len() == 0);
    }
}

/// Append the messages of one commit list to the collected messages.
fn append_messages(msgs: &mut Vec<String>, cs: &Vec<crate::models::Commit>)
    ensures
        str_views(final(msgs)@) == str_views(old(msgs)@) + Seq::new(
            cs@.len(),
            |k: int| cs@[k].message@,
        ),
{
    let mut j: usize = 0;
    proof {
        assert(str_views(msgs@) =~= str_views(msgs@) + Seq::new(0, |k: int| cs@[k].message@));
    }
    while j < cs.len()
        invariant
            j <= cs@.len(),
            str_views(msgs@) == str_views(old(msgs)@) + Seq::new(
                j as nat,
                |k: int| cs@[k].message@,
            ),
        decreases cs@.len() - j,
    {
        let ghost prev = msgs@;
        msgs.push(cs[j].message.clone());
        proof {
            let target = str_views(old(msgs)@) + Seq::new((j + 1) as nat, |k: int| cs@[k].message@);
            assert(str_views(prev).len() == prev.len());
            assert(str_views(prev).len() == (str_views(old(msgs)@) + Seq::new(
                j as nat,
                |k: int| cs@[k].message@,
            )).len());
            assert(prev.len() == old(msgs)@.len() + j);
            assert(msgs@ == prev.push(cs@[j as int].message));
            assert(msgs@.len() == prev.len() + 1);
            assert(str_views(msgs@).len() == target.len());
            assert forall|x: int| 0 <= x < target.len() implies str_views(msgs@)[x] == target[x] by {
                if x < prev.len() {
                    assert(str_views(prev)[x] == (str_views(old(msgs)@) + Seq::new(
                        j as nat,
                        |k: int| cs@[k].message@,
                    ))[x]);
                    assert(msgs@[x] == prev[x]);
                } else {
                    assert(msgs@[x] == cs@[j as int].message);
                }
            }
            assert(str_views(msgs@) =~= target);
        }
        j = j + 1;
    }
}

/// Extract the commit messages of all push events, in encounter order,
/// joined with the fixed separator; empty when there is nothing to keep.
pub fn extract_commit_text(activities: &Vec<Activity>) -> (r: String)
    ensures
        r@ == commit_text(activities@),
{
    let mut msgs: Vec<String> = Vec::new();
    let push_kind = String::from_str("PushEvent");
    let mut i: usize = 0;
    proof {
        assert(str_views(msgs@) =~= commit_messages(activities@.take(0)));
    }
    while i < activities.len()
        invariant
            i <= activities@.len(),
            push_kind@ == "PushEvent"@,
            str_views(msgs@) == commit_messages(activities@.take(i as int)),
        decreases activities@.len() - i,
    {
        let act = &activities[i];
        if act.kind == push_kind {
            match &act.payload {
                Some(p) => match &p.commits {
                    Some(cs) => {
                        append_messages(&mut msgs, cs);
                    },
                    None => {
                        proof {
                            assert(str_views(msgs@) =~= str_views(msgs@) + activity_messages(
                                activities@[i as int],
                            ));
                        }
                    },
                },
                None => {
                    proof {
                        assert(str_views(msgs@) =~= str_views(msgs@) + activity_messages(
                            activities@[i as int],
                        ));
                    }
                },
            }
        } else {
            proof {
                assert(str_views(msgs@) =~= str_views(msgs@) + activity_messages(
                    activities@[i as int],
                ));
            }
        }
        proof {
            lemma_commit_messages_push(activities@.take(i as int), activities@[i as int]);
            assert(activities@.take(i as int + 1) =~= activities@.take(i as int).push(
                activities@[i as int],
            ));
        }
        i = i + 1;
    }
    proof {
        assert(activities@.take(activities@.len() as int) =~= activities@);
    }
    join_with(&msgs, "\n---\n")
}

/// The target URL: the base URL with trailing slashes stripped, then the
/// fixed version path, then the endpoint kind.
pub open spec fn target_url(base: Seq<char>, endpoint: Seq<char>) -> Seq<char> {
    trimmed_end(base, '/') + "/v1/"@ + endpoint
}

/// Build the URL of the upstream endpoint.
pub fn build_url(base: &String, endpoint: &String) -> (r: String)
    ensures
        r@ == target_url(base@, endpoint@),
{
    let trimmed = trim_trailing(base.as_str(), '/');
    String::from_str(trimmed).concat("/v1/").concat(endpoint.as_str())
}

/// Whether this endpoint kind selects the embeddings request shape; every
/// other value selects the completion shape.
fn is_embeddings_kind(endpoint: &String) -> (b: bool)
    ensures
        b == (endpoint@ == "embeddings"@),
{
    let e = String::from_str("embeddings");
    *endpoint == e
}

/// The body of the upstream request: the completion shape carries the
/// text under `prompt`, the embeddings shape under `input`.
pub enum RequestBody {
    Prompt { model: String, prompt: String },
    Embeddings { model: String, input: String },
}

/// The request shape owed for an endpoint kind: `{model, input}` for
/// embeddings, `{model, prompt}` for every other kind.
pub open spec fn body_for(b: RequestBody, endpoint: Seq<char>, model: Seq<char>, text: Seq<char>) -> bool {
    if endpoint == "embeddings"@ {
        b matches RequestBody::Embeddings { model: m, input: i } && m@ == model && i@ == text
    } else {
        b matches RequestBody::Prompt { model: m, prompt: p } && m@ == model && p@ == text
    }
}

/// Build the upstream request body for the resolved endpoint kind.
pub fn build_body(endpoint: &String, model: &String, text: &String) -> (r: RequestBody)
    ensures
        body_for(r, endpoint@, model@, text@),
{
    if is_embeddings_kind(endpoint) {
        RequestBody::Embeddings { model: model.clone(), input: text.clone() }
    } else {
        RequestBody::Prompt { model: model.clone(), prompt: text.clone() }
    }
}

/// One pending upstream call: where to send which body, and how many
/// attempts were already made.
pub struct UpstreamCall {
    pub url: String,
    pub endpoint: String,
    pub body: RequestBody,
    pub attempt: u8,
}

/// What the summarize pipeline decides before any outbound call: either
/// it is already done (no commit text), or one upstream call is owed.
pub enum SummarizePlan {
    Done(SummarizeResponse),
    Call(UpstreamCall),
}

/// What one attempted upstream exchange came back with.
pub enum CallOutcome {
    /// The upstream answered with a status code and a raw body text.
    Reply { status: u16, body: String },
    /// The request never completed; the transport error message.
    Transport { message: String },
}

/// What to do after one attempt: finish with a result, fail terminally,
/// or wait and retry.
pub enum SummarizeStep {
    Success(SummarizeResponse),
    Failure(AppError),
    RetryAfter { delay_secs: u64, next: UpstreamCall },
}

/// Plan the summarize pipeline: with no commit text it finishes at once
/// with the fixed no-op result and no upstream call; otherwise it owes
/// one upstream call built from the request overrides and the configured
/// defaults (request value wins).
pub fn summarize_plan(req: SummarizeRequest, config: &Config) -> (r: SummarizePlan)
    ensures
        ({
            let text = commit_text(req.activities@);
            let endpoint = resolved(req.endpoint_type, config.default_endpoint@);
            let model = resolved(req.model, config.default_model@);
            let base = resolved(req.openapi_base_url, config.openapi_base_url@);
            &&& text.len() == 0 ==> (r matches SummarizePlan::Done(resp) && resp.summary@
                == "No new commits to summarize."@ && resp.endpoint_used@ == "none"@)
            &&& text.len() > 0 ==> (r matches SummarizePlan::Call(c) && c.endpoint@ == endpoint
                && c.url@ == target_url(base, endpoint) && body_for(c.body, endpoint, model, text)
                && c.attempt == 0)
        }),
{
    let text = extract_commit_text(&req.activities);
    if text.as_str().is_empty() {
        return SummarizePlan::Done(
            SummarizeResponse {
                summary: String::from_str("No new commits to summarize."),
                endpoint_used: String::from_str("none"),
            },
        );
    }
    let base = resolve_override(req.openapi_base_url, &config.openapi_base_url);
    let model = resolve_override(req.model, &config.default_model);
    let endpoint = resolve_override(req.endpoint_type, &config.default_endpoint);
    let url = build_url(&base, &endpoint);
    let body = build_body(&endpoint, &model, &text);
    SummarizePlan::Call(UpstreamCall { url, endpoint, body, attempt: 0 })
}

/// Whether a reply status counts as success.
pub open spec fn is_success_status(status: u16) -> bool {
    200 <= status && status < 300
}

/// Whether an outcome counts as a failed attempt: a non-success status or
/// a transport failure.
pub open spec fn attempt_failed(outcome: CallOutcome) -> bool {
    match outcome {
        CallOutcome::Reply { status, .. } => !is_success_status(status),
        CallOutcome::Transport { .. } => true,
    }
}

/// The error detail recorded for a failed attempt.
pub open spec fn attempt_error_message(outcome: CallOutcome) -> Seq<char> {
    match outcome {
        CallOutcome::Reply { status, .. } => "Upstream API error: "@ + dec_digits(status as nat),
        CallOutcome::Transport { message } => "Request failed: "@ + message@,
    }
}

/// Two to the power `n`.
pub open spec fn pow2(n: nat) -> nat
    decreases n,
{
    if n == 0 {
        1
    } else {
        2 * pow2((n - 1) as nat)
    }
}

/// The retry bound: at most this many attempts per request.
pub const MAX_ATTEMPTS: u8 = 2;

/// Decode the body of a successful upstream reply. For the completion
/// shape the summary is the first choice's text, with the empty string
/// where that field is absent — never an error; for the embeddings shape
/// it is the JSON rendering of the `data` field. A body that is not
/// valid JSON is an API error carrying the parse detail.
pub fn decode_success(is_embeddings: bool, body: &str) -> (r: Result<String, AppError>)
    ensures
        !json_parses(body@) ==> (r matches Err(e) && e matches AppError::Api(_)),
        (json_parses(body@) && !is_embeddings) ==> (r matches Ok(s) && s@ == completion_text_of(
            body@,
        )),
        (json_parses(body@) && is_embeddings) ==> (r matches Ok(s) && s@ == embeddings_data_of(
            body@,
        )),
{
    if is_embeddings {
        match embeddings_data(body) {
            Ok(s) => Ok(s),
            Err(e) => Err(AppError::Api(String::from_str("Parse error: ").concat(e.as_str()))),
        }
    } else {
        match completion_text(body) {
            Ok(s) => Ok(s),
            Err(e) => Err(AppError::Api(String::from_str("Parse error: ").concat(e.as_str()))),
        }
    }
}

/// After a failed attempt: retry when attempts remain, after a backoff of
/// two to the number of the attempt that failed, in seconds; fail with an
/// API error carrying the recorded detail when they are exhausted.
fn fail_or_retry(call: UpstreamCall, message: String) -> (r: SummarizeStep)
    requires
        call.attempt < MAX_ATTEMPTS,
    ensures
        call.attempt + 1 < MAX_ATTEMPTS ==> (r matches SummarizeStep::RetryAfter {
            delay_secs,
            next,
        } && delay_secs == pow2(call.attempt as nat) && next.url == call.url && next.endpoint
            == call.endpoint && next.body == call.body && next.attempt == call.attempt + 1),
        call.attempt + 1 == MAX_ATTEMPTS ==> (r matches SummarizeStep::Failure(e) && e matches
            AppError::Api(m) && m@ == message@),
{
    if call.attempt + 1 < MAX_ATTEMPTS {
        proof {
            assert(pow2(call.attempt as nat) == 1);
        }
        SummarizeStep::RetryAfter {
            delay_secs: 1,
            next: UpstreamCall {
                url: call.url,
                endpoint: call.endpoint,
                body: call.body,
                attempt: call.attempt + 1,
            },
        }
    } else {
        SummarizeStep::Failure(AppError::Api(message))
    }
}

/// Classify the outcome of one upstream attempt. A success reply is
/// decoded and ends the pipeline, the summary read from the reply body by
/// the shape of the endpoint kind; a failed attempt retries with
/// exponential backoff while attempts remain, and otherwise fails with an
/// API error carrying the last attempt's detail.
/// The retry policy deliberately treats every non-success status alike:
/// no status is terminal on its own, only exhausting the attempts is.
pub fn summarize_step(call: UpstreamCall, outcome: CallOutcome) -> (r: SummarizeStep)
    requires
        call.attempt < MAX_ATTEMPTS,
    ensures
        outcome matches CallOutcome::Reply { status, body } ==> is_success_status(status) ==> ({
            let emb = call.endpoint@ == "embeddings"@;
            &&& !json_parses(body@) ==> (r matches SummarizeStep::Failure(e) && e matches
                AppError::Api(_))
            &&& (json_parses(body@) && !emb) ==> (r matches SummarizeStep::Success(resp)
                && resp.endpoint_used == call.endpoint && resp.summary@ == completion_text_of(
                body@,
            ))
            &&& (json_parses(body@) && emb) ==> (r matches SummarizeStep::Success(resp)
                && resp.endpoint_used == call.endpoint && resp.summary@ == embeddings_data_of(
                body@,
            ))
        }),
        (attempt_failed(outcome) && call.attempt + 1 < MAX_ATTEMPTS) ==> (r matches
            SummarizeStep::RetryAfter { delay_secs, next } && delay_secs == pow2(
            call.attempt as nat,
        ) && next.url == call.url && next.endpoint == call.endpoint && next.body == call.body
            && next.attempt == call.attempt + 1),
        (attempt_failed(outcome) && call.attempt + 1 == MAX_ATTEMPTS) ==> (r matches
            SummarizeStep::Failure(e) && e matches AppError::Api(m) && m@ == attempt_error_message(
            outcome,
        )),
{
    let is_emb = is_embeddings_kind(&call.endpoint);
    match outcome {
        CallOutcome::Reply { status, body } => {
            if 200 <= status && status < 300 {
                match decode_success(is_emb, body.as_str()) {
                    Ok(text) => SummarizeStep::Success(
                        SummarizeResponse { summary: text, endpoint_used: call.endpoint },
                    ),
                    Err(e) => SummarizeStep::Failure(e),
                }
            } else {
                let m = String::from_str("Upstream API error: ").concat(
                    u64_to_dec(status as u64).as_str(),
                );
                fail_or_retry(call, m)
            }
        },
        CallOutcome::Transport { message } => {
            let m = String::from_str("Request failed: ").concat(message.as_str());
            fail_or_retry(call, m)
        },
    }
}

} // verus!
