//! What goes back to the client: a status and a document. A request that
//! succeeded is answered with its result, one that failed with the report of
//! the failure, and one whose task died with the report of an internal
//! failure that says nothing of the cause.
use vstd::prelude::*;
use crate::entities::{PlainListItem, PlainListItemView};
use crate::error::{ApiError, ApiErrorView, Failure, FailureView};
use crate::gateway::{Response, ResponseView};
use crate::json::{Json, JsonValue};
use crate::resource::entries;
use crate::server::{ServerListItem, ServerListItemView};

verus! {

/// A listing of servers as a document: the list of its entries.
pub open spec fn servers_json(items: Seq<ServerListItemView>) -> JsonValue {
    JsonValue::Array(Seq::new(items.len(), |i: int| items[i].json()))
}

/// A listing of resources of which nothing more is known as a document: the
/// list of its entries.
pub open spec fn plain_json(items: Seq<PlainListItemView>) -> JsonValue {
    JsonValue::Array(Seq::new(items.len(), |i: int| items[i].json()))
}

fn servers_to_json(items: &Vec<ServerListItem>) -> (j: Json)
    ensures
        j@ == servers_json(entries(items@)),
{
    let mut out: Vec<Json> = Vec::new();
    let mut i: usize = 0;
    while i < items.len()
        invariant
            i <= items.len(),
            out@.len() == i,
            forall|k: int| 0 <= k < i ==> (#[trigger] out@[k]).model() == items@[k]@.json(),
        decreases items.len() - i,
    {
        out.push(items[i].to_json());
        i += 1;
    }
    let j = Json::Array(out);
    assert(j@->Array_0 =~= servers_json(entries(items@))->Array_0);
    j
}

fn plain_to_json(items: &Vec<PlainListItem>) -> (j: Json)
    ensures
        j@ == plain_json(entries(items@)),
{
    let mut out: Vec<Json> = Vec::new();
    let mut i: usize = 0;
    while i < items.len()
        invariant
            i <= items.len(),
            out@.len() == i,
            forall|k: int| 0 <= k < i ==> (#[trigger] out@[k]).model() == items@[k]@.json(),
        decreases items.len() - i,
    {
        out.push(items[i].to_json());
        i += 1;
    }
    let j = Json::Array(out);
    assert(j@->Array_0 =~= plain_json(entries(items@))->Array_0);
    j
}

impl ResponseView {
    /// The response as a document: a resource as itself, a listing as the
    /// list of its entries, what an agent sent as it came, a new login secret
    /// as its key and the secret, and a bare success as `null`.
    pub open spec fn json(self) -> JsonValue {
        match self {
            ResponseView::Server(r) => r.json(),
            ResponseView::Servers(items) => servers_json(items),
            ResponseView::Deployment(r) => r.json(),
            ResponseView::Deployments(items) => plain_json(items),
            ResponseView::Build(r) => r.json(),
            ResponseView::Builds(items) => plain_json(items),
            ResponseView::Builder(r) => r.json(),
            ResponseView::Builders(items) => plain_json(items),
            ResponseView::Repo(r) => r.json(),
            ResponseView::Repos(items) => plain_json(items),
            ResponseView::Agent(body) => body,
            ResponseView::Secret { key, secret } => JsonValue::empty().with(
                "key"@,
                JsonValue::Str(key),
            ).with("secret"@, JsonValue::Str(secret)),
            ResponseView::Done => JsonValue::Null,
        }
    }
}

impl Response {
    /// The response as a document.
    pub fn into_json(self) -> (j: Json)
        ensures
            j@ == self@.json(),
    {
        match self {
            Response::Server(r) => r.to_json(),
            Response::Servers(items) => servers_to_json(&items),
            Response::Deployment(r) => r.to_json(),
            Response::Deployments(items) => plain_to_json(&items),
            Response::Build(r) => r.to_json(),
            Response::Builds(items) => plain_to_json(&items),
            Response::Builder(r) => r.to_json(),
            Response::Builders(items) => plain_to_json(&items),
            Response::Repo(r) => r.to_json(),
            Response::Repos(items) => plain_to_json(&items),
            Response::Agent(body) => body,
            Response::Secret { key, secret } => Json::empty_object().with("key", Json::Str(key)).with(
                "secret",
                Json::Str(secret),
            ),
            Response::Done => Json::Null,
        }
    }
}

/// How the task that handled a request ended.
#[derive(Debug, PartialEq, Eq)]
pub enum TaskOutcome {
    /// The request succeeded.
    Answered(Response),
    /// The request failed.
    Failed(ApiError),
    /// The task died before it had an answer.
    Panicked,
}

/// A [`TaskOutcome`] as plain values.
pub enum TaskOutcomeView {
    Answered(ResponseView),
    Failed(ApiErrorView),
    Panicked,
}

impl View for TaskOutcome {
    type V = TaskOutcomeView;

    open spec fn view(&self) -> TaskOutcomeView {
        match self {
            TaskOutcome::Answered(response) => TaskOutcomeView::Answered(response@),
            TaskOutcome::Failed(e) => TaskOutcomeView::Failed(e@),
            TaskOutcome::Panicked => TaskOutcomeView::Panicked,
        }
    }
}

/// What goes back to the client. The body is always a document.
#[derive(Debug, PartialEq, Eq)]
pub struct Reply {
    pub status: u16,
    pub body: Json,
}

/// A [`Reply`] as plain values.
pub struct ReplyView {
    pub status: u16,
    pub body: JsonValue,
}

impl View for Reply {
    type V = ReplyView;

    open spec fn view(&self) -> ReplyView {
        ReplyView { status: self.status, body: self.body@ }
    }
}

/// The reply to a request whose task ended with `outcome`: the result with
/// status 200; or the report of the failure with the status of its kind; or,
/// for a task that died, the report of an internal failure with status 500.
pub open spec fn reply_to(outcome: TaskOutcomeView) -> ReplyView {
    match outcome {
        TaskOutcomeView::Answered(response) => ReplyView { status: 200, body: response.json() },
        TaskOutcomeView::Failed(e) => ReplyView {
            status: e.failure.kind().status() as u16,
            body: e.envelope(),
        },
        TaskOutcomeView::Panicked => ReplyView {
            status: 500,
            body: ApiErrorView::plain(FailureView::Internal).envelope(),
        },
    }
}

/// Makes the reply to a request from the way its task ended.
pub fn respond(outcome: TaskOutcome) -> (reply: Reply)
    ensures
        reply@ == reply_to(outcome@),
{
    match outcome {
        TaskOutcome::Answered(response) => Reply { status: 200, body: response.into_json() },
        TaskOutcome::Failed(e) => Reply { status: e.status_code(), body: e.envelope() },
        TaskOutcome::Panicked => {
            let e = ApiError::new(Failure::Internal);
            Reply { status: e.status_code(), body: e.envelope() }
        },
    }
}

/// A reply is a success exactly where the request succeeded, and otherwise
/// its status is that of the kind of the failure: 401 for a caller who is
/// not let in, 403 for one who may not, 404 for what does not exist, 409 for
/// a name that is taken, 502 for an agent that failed, and 500 for the rest.
pub proof fn status_follows_the_kind(outcome: TaskOutcomeView)
    ensures
        (reply_to(outcome).status == 200) == (outcome is Answered),
        outcome is Panicked ==> reply_to(outcome).status == 500,
        outcome is Failed ==> reply_to(outcome).status == outcome->Failed_0.failure.kind().status(),
        outcome is Failed ==> reply_to(outcome).status >= 400,
{
}

} // verus!
