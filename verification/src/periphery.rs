//! The calls that the core makes to the agent on a server. A function here
//! says what is to be sent; sending it is the caller's part, and
//! [`PeripheryClient::interpret`] says what the outcome means.
//!
//! Every call goes to one server, carries the shared passkey, and is made
//! once: nothing is kept between calls and nothing is tried again.
use vstd::prelude::*;
use crate::entities::Deployment;
use crate::error::{ApiError, ApiErrorView, Failure, FailureView};
use crate::json::{Json, JsonValue};
use crate::server::{Server, ServerView};
use crate::text::{decimal, text, write_decimal};

verus! {

/// How a call is made: reading is a `Get`, anything that changes the host is
/// a `Post` with a document.
#[derive(Clone, Copy, Debug, PartialEq, Eq, Structural, Hash)]
pub enum Method {
    Get,
    Post,
}

/// One call to an agent.
#[derive(Debug, PartialEq, Eq)]
pub struct PeripheryRequest {
    /// The name of the server that is called.
    pub server: String,
    pub method: Method,
    /// The address of the agent followed by the path of the call.
    pub url: String,
    /// The secret that the agent expects with every call.
    pub passkey: String,
    /// How long the agent has to answer, in seconds. A call that takes
    /// longer has failed.
    pub timeout_seconds: u64,
    /// The document that a `Post` carries.
    pub body: Option<Json>,
}

/// A [`PeripheryRequest`] as plain values.
pub struct PeripheryRequestView {
    pub server: Seq<char>,
    pub method: Method,
    pub url: Seq<char>,
    pub passkey: Seq<char>,
    pub timeout_seconds: u64,
    pub body: Option<JsonValue>,
}

impl View for PeripheryRequest {
    type V = PeripheryRequestView;

    open spec fn view(&self) -> PeripheryRequestView {
        PeripheryRequestView {
            server: self.server@,
            method: self.method,
            url: self.url@,
            passkey: self.passkey@,
            timeout_seconds: self.timeout_seconds,
            body: match self.body {
                Some(body) => Some(body@),
                None => None,
            },
        }
    }
}

/// A [`PeripheryClient`] as plain values.
pub struct PeripheryClientView {
    pub passkey: Seq<char>,
    pub timeout_seconds: u64,
}

/// The reading call to `path` on `server`.
pub open spec fn get_request(client: PeripheryClientView, server: ServerView, path: Seq<char>) -> PeripheryRequestView {
    PeripheryRequestView {
        server: server.name,
        method: Method::Get,
        url: server.config.address + path,
        passkey: client.passkey,
        timeout_seconds: client.timeout_seconds,
        body: None,
    }
}

/// The call to `path` on `server` that carries `body`.
pub open spec fn post_request(
    client: PeripheryClientView,
    server: ServerView,
    path: Seq<char>,
    body: JsonValue,
) -> PeripheryRequestView {
    PeripheryRequestView {
        server: server.name,
        method: Method::Post,
        url: server.config.address + path,
        passkey: client.passkey,
        timeout_seconds: client.timeout_seconds,
        body: Some(body),
    }
}

/// The document that names one container.
pub open spec fn container_named(container_name: Seq<char>) -> JsonValue {
    JsonValue::empty().with("name"@, JsonValue::Str(container_name))
}

/// What came of a call.
#[derive(Debug, PartialEq, Eq)]
pub enum AgentOutcome {
    /// No answer came: the agent could not be reached, or it took too long.
    Failed { cause: String },
    /// The agent answered with this status; `body` is the document it sent,
    /// or `None` where what it sent is no document.
    Replied { status: u16, body: Option<Json> },
}

/// An [`AgentOutcome`] as plain values.
pub enum AgentOutcomeView {
    Failed { cause: Seq<char> },
    Replied { status: u16, body: Option<JsonValue> },
}

impl View for AgentOutcome {
    type V = AgentOutcomeView;

    open spec fn view(&self) -> AgentOutcomeView {
        match self {
            AgentOutcome::Failed { cause } => AgentOutcomeView::Failed { cause: cause@ },
            AgentOutcome::Replied { status, body } => AgentOutcomeView::Replied {
                status: *status,
                body: match body {
                    Some(body) => Some(body@),
                    None => None,
                },
            },
        }
    }
}

/// Whether a status says that the call succeeded.
pub open spec fn is_success(status: u16) -> bool {
    200 <= status <= 299
}

/// The failure of a call to the agent of `server`: it carries the name of
/// the server and the cause, and the cause is what its trace ends with.
pub open spec fn agent_failed(server: Seq<char>, cause: Seq<char>) -> ApiErrorView {
    ApiErrorView { failure: FailureView::UpstreamAgentError { server, cause }, trace: seq![cause] }
}

/// What the outcome of a call to the agent of `server` means: the document
/// that the agent sent, where it answered with success and a document, and
/// otherwise a failure that carries the name of the server and the cause.
pub open spec fn reply_of(server: Seq<char>, outcome: AgentOutcomeView) -> Result<
    JsonValue,
    ApiErrorView,
> {
    match outcome {
        AgentOutcomeView::Failed { cause } => Err(agent_failed(server, cause)),
        AgentOutcomeView::Replied { status, body } => if !is_success(status) {
            Err(agent_failed(server, "status "@ + decimal(status as nat)))
        } else {
            match body {
                Some(body) => Ok(body),
                None => Err(agent_failed(server, "malformed response"@)),
            }
        },
    }
}

/// A call either gives a document or fails as a whole, and a failure always
/// names the server, is of the kind `UpstreamAgentError`, and has its cause in
/// its trace.
pub proof fn reply_is_all_or_nothing(server: Seq<char>, outcome: AgentOutcomeView)
    ensures
        reply_of(server, outcome) is Ok <==> outcome is Replied && is_success(outcome->status)
            && outcome->body is Some,
        reply_of(server, outcome) is Ok ==> reply_of(server, outcome)->Ok_0 == outcome->body->Some_0,
        reply_of(server, outcome) is Err ==> reply_of(server, outcome)->Err_0.failure
            is UpstreamAgentError && reply_of(server, outcome)->Err_0.failure->server == server
            && reply_of(server, outcome)->Err_0.trace == seq![
            reply_of(server, outcome)->Err_0.failure->cause,
        ],
{
}

/// What speaks to the agents: it holds the passkey that they expect, and
/// how long it waits for each of them.
#[derive(Debug, PartialEq, Eq)]
pub struct PeripheryClient {
    pub passkey: String,
    pub timeout_seconds: u64,
}

impl View for PeripheryClient {
    type V = PeripheryClientView;

    open spec fn view(&self) -> PeripheryClientView {
        PeripheryClientView { passkey: self.passkey@, timeout_seconds: self.timeout_seconds }
    }
}

impl PeripheryClient {
    /// A client that presents `passkey` and gives every call
    /// `timeout_seconds` to be answered.
    pub fn new(passkey: String, timeout_seconds: u64) -> (client: PeripheryClient)
        ensures
            client@ == (PeripheryClientView { passkey: passkey@, timeout_seconds }),
    {
        PeripheryClient { passkey, timeout_seconds }
    }

    /// The reading call to `path` on `server`.
    pub fn get_json(&self, server: &Server, path: &str) -> (request: PeripheryRequest)
        ensures
            request@ == get_request(self@, server@, path@),
    {
        let mut url = server.config.address.clone();
        url.append(path);
        PeripheryRequest {
            server: server.name.clone(),
            method: Method::Get,
            url,
            passkey: self.passkey.clone(),
            timeout_seconds: self.timeout_seconds,
            body: None,
        }
    }

    /// The call to `path` on `server` that carries `body`.
    pub fn post_json(&self, server: &Server, path: &str, body: Json) -> (request: PeripheryRequest)
        ensures
            request@ == post_request(self@, server@, path@, body@),
    {
        let mut url = server.config.address.clone();
        url.append(path);
        PeripheryRequest {
            server: server.name.clone(),
            method: Method::Post,
            url,
            passkey: self.passkey.clone(),
            timeout_seconds: self.timeout_seconds,
            body: Some(body),
        }
    }

    /// Asks for the containers on `server`.
    pub fn container_list(&self, server: &Server) -> (request: PeripheryRequest)
        ensures
            request@ == get_request(self@, server@, "/container/list"@),
    {
        self.get_json(server, "/container/list")
    }

    /// Has the container named `container_name` started.
    pub fn container_start(&self, server: &Server, container_name: &str) -> (request:
        PeripheryRequest)
        ensures
            request@ == post_request(
                self@,
                server@,
                "/container/start"@,
                container_named(container_name@),
            ),
    {
        self.post_json(
            server,
            "/container/start",
            Json::empty_object().with("name", Json::text(container_name)),
        )
    }

    /// Has the container named `container_name` stopped.
    pub fn container_stop(&self, server: &Server, container_name: &str) -> (request:
        PeripheryRequest)
        ensures
            request@ == post_request(
                self@,
                server@,
                "/container/stop"@,
                container_named(container_name@),
            ),
    {
        self.post_json(
            server,
            "/container/stop",
            Json::empty_object().with("name", Json::text(container_name)),
        )
    }

    /// Has the container named `container_name` removed.
    pub fn container_remove(&self, server: &Server, container_name: &str) -> (request:
        PeripheryRequest)
        ensures
            request@ == post_request(
                self@,
                server@,
                "/container/remove"@,
                container_named(container_name@),
            ),
    {
        self.post_json(
            server,
            "/container/remove",
            Json::empty_object().with("name", Json::text(container_name)),
        )
    }

    /// Has `deployment` brought up on `server`; the call carries the
    /// deployment as a document.
    pub fn deploy(&self, server: &Server, deployment: &Deployment) -> (request: PeripheryRequest)
        ensures
            request@ == post_request(
                self@,
                server@,
                "/container/deploy"@,
                deployment@.json(),
            ),
    {
        self.post_json(server, "/container/deploy", deployment.to_json())
    }

    /// Has the containers that no longer run removed.
    pub fn container_prune(&self, server: &Server) -> (request: PeripheryRequest)
        ensures
            request@ == post_request(
                self@,
                server@,
                "/container/prune"@,
                JsonValue::empty(),
            ),
    {
        self.post_json(server, "/container/prune", Json::empty_object())
    }

    /// Asks for the resource use of the container named `container_name`.
    pub fn container_stats(&self, server: &Server, container_name: &str) -> (request:
        PeripheryRequest)
        ensures
            request@ == get_request(
                self@,
                server@,
                "/container/stats/"@ + container_name@,
            ),
    {
        let mut path = text("/container/stats/");
        path.append(container_name);
        self.get_json(server, path.as_str())
    }

    /// Asks for the resource use of every container on `server`.
    pub fn container_stats_list(&self, server: &Server) -> (request: PeripheryRequest)
        ensures
            request@ == get_request(self@, server@, "/container/stats/list"@),
    {
        self.get_json(server, "/container/stats/list")
    }

    /// What the outcome of a call to the agent of the server named `server`
    /// means.
    pub fn interpret(server: &String, outcome: AgentOutcome) -> (r: Result<Json, ApiError>)
        ensures
            match r {
                Ok(body) => reply_of(server@, outcome@) == Ok::<JsonValue, ApiErrorView>(body@),
                Err(e) => reply_of(server@, outcome@) == Err::<JsonValue, ApiErrorView>(e@),
            },
    {
        match outcome {
            AgentOutcome::Failed { cause } => Err(agent_failure(server, cause)),
            AgentOutcome::Replied { status, body } => {
                if status < 200 || status > 299 {
                    let mut cause = text("status ");
                    write_decimal(status as u64, &mut cause);
                    Err(agent_failure(server, cause))
                } else {
                    match body {
                        Some(body) => Ok(body),
                        None => Err(agent_failure(server, text("malformed response"))),
                    }
                }
            },
        }
    }
}

fn agent_failure(server: &String, cause: String) -> (e: ApiError)
    ensures
        e@ == agent_failed(server@, cause@),
{
    let e = ApiError::new(Failure::UpstreamAgentError { server: server.clone(), cause: cause.clone() })
        .context(cause);
    assert(e@.trace =~= seq![cause@]);
    e
}

} // verus!
