use monitor_core::entities::PlainListItem;
use monitor_core::error::{ApiError, Entity, ErrorKind, Failure, Requirement};
use monitor_core::gateway::Response;
use monitor_core::json::Json;
use monitor_core::permission::{PermissionLevel, Permissions, ResourceType};
use monitor_core::reply::{respond, Reply, TaskOutcome};
use monitor_core::resource::{Resource, ResourceListItem};
use monitor_core::server::{ServerConfig, ServerListItemInfo, ServerStatus};

fn s(text: &str) -> String {
    text.to_string()
}

fn field(key: &str, value: Json) -> (String, Json) {
    (key.to_string(), value)
}

fn envelope(error: &str, trace: &[&str]) -> Json {
    Json::Object(vec![
        field("error", Json::Str(s(error))),
        field("trace", Json::Array(trace.iter().map(|t| Json::Str(s(t))).collect())),
    ])
}

#[test]
fn the_status_of_each_kind_of_failure() {
    assert_eq!(ErrorKind::Unauthenticated.status_code(), 401);
    assert_eq!(ErrorKind::PermissionDenied.status_code(), 403);
    assert_eq!(ErrorKind::NotFound.status_code(), 404);
    assert_eq!(ErrorKind::Conflict.status_code(), 409);
    assert_eq!(ErrorKind::UpstreamAgentError.status_code(), 502);
    assert_eq!(ErrorKind::Internal.status_code(), 500);
}

#[test]
fn the_message_of_each_failure() {
    let denied = Failure::PermissionDenied {
        entity: Entity::Deployment,
        reference: s("66113df3abe32960b87018dd"),
        required: Requirement::Level(PermissionLevel::Read),
    };
    assert_eq!(
        denied.message(),
        "permission denied: Read required on deployment 66113df3abe32960b87018dd"
    );
    assert_eq!(denied.kind(), ErrorKind::PermissionDenied);
    let admin = Failure::PermissionDenied {
        entity: Entity::User,
        reference: s("ann"),
        required: Requirement::Admin,
    };
    assert_eq!(admin.message(), "permission denied: Admin required on user ann");
    assert_eq!(
        Failure::Unauthenticated { reason: s("token expired") }.message(),
        "unauthenticated: token expired"
    );
    assert_eq!(
        Failure::NotFound { entity: Entity::Server, reference: s("prod-9") }.message(),
        "no server found for prod-9"
    );
    assert_eq!(
        Failure::Conflict { entity: Entity::LoginSecret, reference: s("ci") }.message(),
        "login secret ci already exists"
    );
    assert_eq!(
        Failure::UpstreamAgentError { server: s("prod-1"), cause: s("status 503") }.message(),
        "agent of server prod-1 failed: status 503"
    );
    assert_eq!(Failure::Internal.message(), "internal error");
    assert_eq!(Failure::Internal.kind(), ErrorKind::Internal);
}

#[test]
fn how_entities_and_requirements_are_called() {
    assert_eq!(Entity::of(ResourceType::Server), Entity::Server);
    assert_eq!(Entity::of(ResourceType::Deployment), Entity::Deployment);
    assert_eq!(Entity::of(ResourceType::Build), Entity::Build);
    assert_eq!(Entity::of(ResourceType::Builder), Entity::Builder);
    assert_eq!(Entity::of(ResourceType::Repo), Entity::Repo);
    assert_eq!(Entity::Builder.noun(), "builder");
    assert_eq!(Entity::Build.noun(), "build");
    assert_eq!(Entity::Repo.noun(), "repo");
    assert_eq!(Requirement::Level(PermissionLevel::Execute).name(), "Execute");
    assert_eq!(Requirement::Level(PermissionLevel::NoAccess).name(), "None");
}

#[test]
fn a_context_goes_first_in_the_trace_and_the_message_stays() {
    let e = ApiError::new(Failure::UpstreamAgentError { server: s("prod-1"), cause: s("timed out") });
    assert!(e.trace.is_empty());
    let e = e.context(s("StartContainer")).context(s("request 17"));
    assert_eq!(e.trace, vec![s("request 17"), s("StartContainer")]);
    assert_eq!(e.failure.message(), "agent of server prod-1 failed: timed out");
    assert_eq!(
        e.envelope(),
        envelope("agent of server prod-1 failed: timed out", &["request 17", "StartContainer"])
    );
}

#[test]
fn a_failure_is_answered_with_its_report() {
    let e = ApiError::new(Failure::NotFound { entity: Entity::Repo, reference: s("site") });
    assert_eq!(
        respond(TaskOutcome::Failed(e)),
        Reply { status: 404, body: envelope("no repo found for site", &[]) }
    );
    let e = ApiError::new(Failure::Unauthenticated { reason: s("no credential") });
    assert_eq!(respond(TaskOutcome::Failed(e)).status, 401);
}

#[test]
fn a_task_that_died_is_an_internal_failure_without_detail() {
    assert_eq!(
        respond(TaskOutcome::Panicked),
        Reply { status: 500, body: envelope("internal error", &[]) }
    );
}

#[test]
fn a_success_is_answered_with_its_result() {
    assert_eq!(
        respond(TaskOutcome::Answered(Response::Done)),
        Reply { status: 200, body: Json::Null }
    );
    assert_eq!(
        respond(TaskOutcome::Answered(Response::Agent(Json::Int(3)))),
        Reply { status: 200, body: Json::Int(3) }
    );
    let item: PlainListItem = ResourceListItem { id: s("0000000000000000"), name: s("web"), info: () };
    let entry = Json::Object(vec![
        field("id", Json::Str(s("0000000000000000"))),
        field("name", Json::Str(s("web"))),
        field("info", Json::Null),
    ]);
    assert_eq!(
        respond(TaskOutcome::Answered(Response::Deployments(vec![item]))),
        Reply { status: 200, body: Json::Array(vec![entry]) }
    );
    assert_eq!(Response::Repos(vec![]).into_json(), Json::Array(vec![]));
    assert_eq!(
        Response::Secret { key: s("K1"), secret: s("plain") }.into_json(),
        Json::Object(vec![field("key", Json::Str(s("K1"))), field("secret", Json::Str(s("plain")))])
    );
}

#[test]
fn a_server_as_a_document() {
    let config = ServerConfig { address: s("http://h:1"), region: s("eu"), ..ServerConfig::defaults() };
    let info = ServerListItemInfo::derive(&config, ServerStatus::Okay);
    let mut permissions = Permissions::new();
    permissions.set_level(s("ann"), PermissionLevel::Write);
    let server = Resource { id: s("000000000000000a"), name: s("prod-1"), config, info, permissions };
    let document = Response::Server(server).into_json();
    assert_eq!(document.get("id"), Some(&Json::Str(s("000000000000000a"))));
    assert_eq!(document.get("name"), Some(&Json::Str(s("prod-1"))));
    let config = document.get("config").expect("settings");
    assert_eq!(config.get("address"), Some(&Json::Str(s("http://h:1"))));
    assert_eq!(config.get("enabled"), Some(&Json::Bool(true)));
    assert_eq!(config.get("cpu_warning"), Some(&Json::Int(9000)));
    assert_eq!(config.get("disk_critical"), Some(&Json::Int(9500)));
    let info = document.get("info").expect("what is known");
    assert_eq!(info.get("status"), Some(&Json::Str(s("Ok"))));
    assert_eq!(info.get("region"), Some(&Json::Str(s("eu"))));
    assert_eq!(
        document.get("permissions"),
        Some(&Json::Array(vec![Json::Object(vec![
            field("user_id", Json::Str(s("ann"))),
            field("level", Json::Str(s("Write"))),
        ])]))
    );
}

#[test]
fn documents_are_read_by_key() {
    let document = Json::Object(vec![
        field("a", Json::Int(1)),
        field("b", Json::Str(s("two"))),
        field("a", Json::Int(3)),
        field("c", Json::Bool(false)),
    ]);
    assert_eq!(document.get("a"), Some(&Json::Int(1)));
    assert_eq!(document.get("d"), None);
    assert_eq!(Json::Int(1).get("a"), None);
    assert_eq!(document.get("b").and_then(|j| j.as_text()), Some(&s("two")));
    assert_eq!(document.get("c").and_then(|j| j.as_bool()), Some(false));
    assert_eq!(document.get("a").and_then(|j| j.as_int()), Some(1));
    assert_eq!(document.get("a").and_then(|j| j.as_text()), None);
    assert_eq!(Json::Null.as_bool(), None);
    assert_eq!(Json::Null.as_int(), None);
}

#[test]
fn documents_are_built_field_by_field() {
    let document = Json::empty_object()
        .with("a", Json::text("x"))
        .with_opt("b", None)
        .with_opt("c", Some(Json::Int(2)));
    assert_eq!(
        document,
        Json::Object(vec![field("a", Json::Str(s("x"))), field("c", Json::Int(2))])
    );
    assert_eq!(Json::Int(1).with("a", Json::Null), Json::Int(1));
}
