//! What can go wrong with a request, and how a failure is reported: a kind,
//! a message, and a trace of the contexts it passed through.
use vstd::prelude::*;
use crate::json::{Json, JsonValue};
use crate::permission::{PermissionLevel, ResourceType};
use crate::text::{text, texts};

verus! {

/// The kinds of failure.
#[derive(Clone, Copy, Debug, PartialEq, Eq, Structural, Hash)]
pub enum ErrorKind {
    /// The credential is missing, invalid or expired.
    Unauthenticated,
    /// The principal is known but may not do this to the resource it named.
    PermissionDenied,
    /// Nothing goes by the id or name that was given.
    NotFound,
    /// The name is taken.
    Conflict,
    /// The call to the agent of a server failed.
    UpstreamAgentError,
    /// Anything that was not foreseen.
    Internal,
}

impl ErrorKind {
    /// The HTTP status that answers a failure of this kind.
    pub open spec fn status(self) -> nat {
        match self {
            ErrorKind::Unauthenticated => 401,
            ErrorKind::PermissionDenied => 403,
            ErrorKind::NotFound => 404,
            ErrorKind::Conflict => 409,
            ErrorKind::UpstreamAgentError => 502,
            ErrorKind::Internal => 500,
        }
    }

    /// The HTTP status that answers a failure of this kind.
    pub fn status_code(self) -> (code: u16)
        ensures
            code == self.status(),
    {
        match self {
            ErrorKind::Unauthenticated => 401,
            ErrorKind::PermissionDenied => 403,
            ErrorKind::NotFound => 404,
            ErrorKind::Conflict => 409,
            ErrorKind::UpstreamAgentError => 502,
            ErrorKind::Internal => 500,
        }
    }
}

/// What a failure can be about.
#[derive(Clone, Copy, Debug, PartialEq, Eq, Structural, Hash)]
pub enum Entity {
    Server,
    Deployment,
    Build,
    Builder,
    Repo,
    User,
    LoginSecret,
}

impl Entity {
    /// The entity that a resource of family `t` is.
    pub open spec fn resource(t: ResourceType) -> Entity {
        match t {
            ResourceType::Server => Entity::Server,
            ResourceType::Deployment => Entity::Deployment,
            ResourceType::Build => Entity::Build,
            ResourceType::Builder => Entity::Builder,
            ResourceType::Repo => Entity::Repo,
        }
    }

    /// The entity that a resource of family `t` is.
    pub fn of(t: ResourceType) -> (e: Entity)
        ensures
            e == Entity::resource(t),
    {
        match t {
            ResourceType::Server => Entity::Server,
            ResourceType::Deployment => Entity::Deployment,
            ResourceType::Build => Entity::Build,
            ResourceType::Builder => Entity::Builder,
            ResourceType::Repo => Entity::Repo,
        }
    }

    /// How messages call the entity.
    pub open spec fn noun_text(self) -> Seq<char> {
        match self {
            Entity::Server => "server"@,
            Entity::Deployment => "deployment"@,
            Entity::Build => "build"@,
            Entity::Builder => "builder"@,
            Entity::Repo => "repo"@,
            Entity::User => "user"@,
            Entity::LoginSecret => "login secret"@,
        }
    }

    /// How messages call the entity.
    pub fn noun(self) -> (s: &'static str)
        ensures
            s@ == self.noun_text(),
    {
        match self {
            Entity::Server => "server",
            Entity::Deployment => "deployment",
            Entity::Build => "build",
            Entity::Builder => "builder",
            Entity::Repo => "repo",
            Entity::User => "user",
            Entity::LoginSecret => "login secret",
        }
    }
}

/// What an operation asks of the caller.
#[derive(Clone, Copy, Debug, PartialEq, Eq, Structural, Hash)]
pub enum Requirement {
    /// At least this level on the resource that the request names.
    Level(PermissionLevel),
    /// Being an administrator; no level on any resource is enough.
    Admin,
}

impl Requirement {
    /// How messages call the requirement.
    pub open spec fn name_text(self) -> Seq<char> {
        match self {
            Requirement::Level(level) => level.name_text(),
            Requirement::Admin => "Admin"@,
        }
    }

    /// How messages call the requirement.
    pub fn name(self) -> (s: &'static str)
        ensures
            s@ == self.name_text(),
    {
        match self {
            Requirement::Level(level) => level.name(),
            Requirement::Admin => "Admin",
        }
    }
}

/// One failure, with what it is about.
#[derive(Debug, PartialEq, Eq)]
pub enum Failure {
    Unauthenticated { reason: String },
    PermissionDenied { entity: Entity, reference: String, required: Requirement },
    NotFound { entity: Entity, reference: String },
    Conflict { entity: Entity, reference: String },
    UpstreamAgentError { server: String, cause: String },
    Internal,
}

/// A [`Failure`] as plain values.
pub enum FailureView {
    Unauthenticated { reason: Seq<char> },
    PermissionDenied { entity: Entity, reference: Seq<char>, required: Requirement },
    NotFound { entity: Entity, reference: Seq<char> },
    Conflict { entity: Entity, reference: Seq<char> },
    UpstreamAgentError { server: Seq<char>, cause: Seq<char> },
    Internal,
}

impl View for Failure {
    type V = FailureView;

    open spec fn view(&self) -> FailureView {
        match self {
            Failure::Unauthenticated { reason } => FailureView::Unauthenticated { reason: reason@ },
            Failure::PermissionDenied { entity, reference, required } => FailureView::PermissionDenied {
                entity: *entity,
                reference: reference@,
                required: *required,
            },
            Failure::NotFound { entity, reference } => FailureView::NotFound {
                entity: *entity,
                reference: reference@,
            },
            Failure::Conflict { entity, reference } => FailureView::Conflict {
                entity: *entity,
                reference: reference@,
            },
            Failure::UpstreamAgentError { server, cause } => FailureView::UpstreamAgentError {
                server: server@,
                cause: cause@,
            },
            Failure::Internal => FailureView::Internal,
        }
    }
}

impl FailureView {
    /// The kind of the failure.
    pub open spec fn kind(self) -> ErrorKind {
        match self {
            FailureView::Unauthenticated { .. } => ErrorKind::Unauthenticated,
            FailureView::PermissionDenied { .. } => ErrorKind::PermissionDenied,
            FailureView::NotFound { .. } => ErrorKind::NotFound,
            FailureView::Conflict { .. } => ErrorKind::Conflict,
            FailureView::UpstreamAgentError { .. } => ErrorKind::UpstreamAgentError,
            FailureView::Internal => ErrorKind::Internal,
        }
    }

    /// The message that reports the failure. An internal failure has one
    /// message, whatever caused it.
    pub open spec fn message(self) -> Seq<char> {
        match self {
            FailureView::Unauthenticated { reason } => "unauthenticated: "@ + reason,
            FailureView::PermissionDenied { entity, reference, required } => "permission denied: "@
                + required.name_text() + " required on "@ + entity.noun_text() + " "@ + reference,
            FailureView::NotFound { entity, reference } => "no "@ + entity.noun_text()
                + " found for "@ + reference,
            FailureView::Conflict { entity, reference } => entity.noun_text() + " "@ + reference
                + " already exists"@,
            FailureView::UpstreamAgentError { server, cause } => "agent of server "@ + server
                + " failed: "@ + cause,
            FailureView::Internal => "internal error"@,
        }
    }
}

impl Failure {
    /// The kind of the failure.
    pub fn kind(&self) -> (k: ErrorKind)
        ensures
            k == self@.kind(),
    {
        match self {
            Failure::Unauthenticated { .. } => ErrorKind::Unauthenticated,
            Failure::PermissionDenied { .. } => ErrorKind::PermissionDenied,
            Failure::NotFound { .. } => ErrorKind::NotFound,
            Failure::Conflict { .. } => ErrorKind::Conflict,
            Failure::UpstreamAgentError { .. } => ErrorKind::UpstreamAgentError,
            Failure::Internal => ErrorKind::Internal,
        }
    }

    /// The message that reports the failure.
    pub fn message(&self) -> (m: String)
        ensures
            m@ == self@.message(),
    {
        match self {
            Failure::Unauthenticated { reason } => {
                let mut m = text("unauthenticated: ");
                m.append(reason.as_str());
                m
            },
            Failure::PermissionDenied { entity, reference, required } => {
                let mut m = text("permission denied: ");
                m.append(required.name());
                m.append(" required on ");
                m.append(entity.noun());
                m.append(" ");
                m.append(reference.as_str());
                m
            },
            Failure::NotFound { entity, reference } => {
                let mut m = text("no ");
                m.append(entity.noun());
                m.append(" found for ");
                m.append(reference.as_str());
                m
            },
            Failure::Conflict { entity, reference } => {
                let mut m = text(entity.noun());
                m.append(" ");
                m.append(reference.as_str());
                m.append(" already exists");
                m
            },
            Failure::UpstreamAgentError { server, cause } => {
                let mut m = text("agent of server ");
                m.append(server.as_str());
                m.append(" failed: ");
                m.append(cause.as_str());
                m
            },
            Failure::Internal => text("internal error"),
        }
    }
}

/// A failure on its way to the caller: what failed, and the contexts that
/// the failure passed through, outermost first.
#[derive(Debug, PartialEq, Eq)]
pub struct ApiError {
    pub failure: Failure,
    pub trace: Vec<String>,
}

/// An [`ApiError`] as plain values.
pub struct ApiErrorView {
    pub failure: FailureView,
    pub trace: Seq<Seq<char>>,
}

impl View for ApiError {
    type V = ApiErrorView;

    open spec fn view(&self) -> ApiErrorView {
        ApiErrorView { failure: self.failure@, trace: texts(self.trace@) }
    }
}

impl ApiErrorView {
    /// A failure that has passed through no context yet.
    pub open spec fn plain(failure: FailureView) -> ApiErrorView {
        ApiErrorView { failure, trace: Seq::empty() }
    }

    /// The error after it has passed through `context`: the context comes
    /// first in the trace, the failure stays as it was.
    pub open spec fn within(self, context: Seq<char>) -> ApiErrorView {
        ApiErrorView { failure: self.failure, trace: seq![context] + self.trace }
    }

    /// The document that reports the error to the caller: the message under
    /// `error`, the trace under `trace`.
    pub open spec fn envelope(self) -> JsonValue {
        JsonValue::Object(
            seq![
                ("error"@, JsonValue::Str(self.failure.message())),
                ("trace"@, JsonValue::Array(Seq::new(self.trace.len(), |i: int| JsonValue::Str(self.trace[i])))),
            ],
        )
    }
}

impl ApiError {
    /// A failure that has passed through no context yet.
    pub fn new(failure: Failure) -> (e: ApiError)
        ensures
            e@ == ApiErrorView::plain(failure@),
    {
        let e = ApiError { failure, trace: Vec::new() };
        assert(e@.trace =~= Seq::empty());
        e
    }

    /// The error after it has passed through `context`.
    pub fn context(self, context: String) -> (e: ApiError)
        ensures
            e@ == self@.within(context@),
    {
        let ApiError { failure, mut trace } = self;
        trace.insert(0, context);
        let e = ApiError { failure, trace };
        assert(e@.trace =~= seq![context@] + self@.trace);
        e
    }

    /// The kind of the failure.
    pub fn kind(&self) -> (k: ErrorKind)
        ensures
            k == self@.failure.kind(),
    {
        self.failure.kind()
    }

    /// The HTTP status that answers the error.
    pub fn status_code(&self) -> (code: u16)
        ensures
            code == self@.failure.kind().status(),
    {
        self.failure.kind().status_code()
    }

    /// The document that reports the error to the caller.
    pub fn envelope(&self) -> (j: Json)
        ensures
            j@ == self@.envelope(),
    {
        let mut lines: Vec<Json> = Vec::new();
        let mut i: usize = 0;
        while i < self.trace.len()
            invariant
                i <= self.trace.len(),
                lines@.len() == i,
                forall|k: int|
                    0 <= k < i ==> #[trigger] lines@[k].model() == JsonValue::Str(self.trace@[k]@),
            decreases self.trace.len() - i,
        {
            lines.push(Json::Str(self.trace[i].clone()));
            i += 1;
        }
        let trace = Json::Array(lines);
        assert(trace@->Array_0.len() == self@.trace.len());
        assert forall|k: int| 0 <= k < self@.trace.len() implies trace@->Array_0[k]
            == JsonValue::Str(self@.trace[k]) by {
            assert(lines@[k].model() == JsonValue::Str(self.trace@[k]@));
            assert(self@.trace[k] == self.trace@[k]@);
        }
        assert(trace@->Array_0 =~= Seq::new(
            self@.trace.len(),
            |i: int| JsonValue::Str(self@.trace[i]),
        ));
        let j = Json::empty_object().with("error", Json::Str(self.failure.message())).with(
            "trace",
            trace,
        );
        assert(j@->Object_0 =~= self@.envelope()->Object_0);
        j
    }
}

} // verus!
