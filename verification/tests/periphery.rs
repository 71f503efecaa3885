use monitor_core::entities::{Deployment, DeploymentConfig};
use monitor_core::error::{ErrorKind, Failure};
use monitor_core::json::Json;
use monitor_core::periphery::{AgentOutcome, Method, PeripheryClient, PeripheryRequest};
use monitor_core::permission::Permissions;
use monitor_core::resource::Resource;
use monitor_core::server::{Server, ServerConfig, ServerListItemInfo, ServerStatus};

fn client() -> PeripheryClient {
    PeripheryClient::new("s3cret".to_string(), 7)
}

fn server() -> Server {
    let config =
        ServerConfig { address: "http://10.0.0.5:8120".to_string(), ..ServerConfig::defaults() };
    let info = ServerListItemInfo::derive(&config, ServerStatus::Okay);
    Resource {
        id: "0000000000000000".to_string(),
        name: "prod-1".to_string(),
        config,
        info,
        permissions: Permissions::new(),
    }
}

fn get(path: &str) -> PeripheryRequest {
    PeripheryRequest {
        server: "prod-1".to_string(),
        method: Method::Get,
        url: format!("http://10.0.0.5:8120{path}"),
        passkey: "s3cret".to_string(),
        timeout_seconds: 7,
        body: None,
    }
}

fn post(path: &str, body: Json) -> PeripheryRequest {
    PeripheryRequest {
        server: "prod-1".to_string(),
        method: Method::Post,
        url: format!("http://10.0.0.5:8120{path}"),
        passkey: "s3cret".to_string(),
        timeout_seconds: 7,
        body: Some(body),
    }
}

fn named(name: &str) -> Json {
    Json::Object(vec![("name".to_string(), Json::Str(name.to_string()))])
}

#[test]
fn listing_containers_is_a_get() {
    assert_eq!(client().container_list(&server()), get("/container/list"));
}

#[test]
fn starting_a_container_posts_its_name() {
    assert_eq!(
        client().container_start(&server(), "web"),
        post("/container/start", named("web"))
    );
}

#[test]
fn stopping_a_container_posts_its_name() {
    assert_eq!(client().container_stop(&server(), "web"), post("/container/stop", named("web")));
}

#[test]
fn removing_a_container_posts_its_name() {
    assert_eq!(
        client().container_remove(&server(), "web"),
        post("/container/remove", named("web"))
    );
}

#[test]
fn deploying_posts_the_deployment() {
    let deployment: Deployment = Resource {
        id: "0000000000000003".to_string(),
        name: "web".to_string(),
        config: DeploymentConfig {
            server_id: "0000000000000000".to_string(),
            image: "nginx".to_string(),
        },
        info: (),
        permissions: Permissions::new(),
    };
    let body = Json::Object(vec![
        ("id".to_string(), Json::Str("0000000000000003".to_string())),
        ("name".to_string(), Json::Str("web".to_string())),
        (
            "config".to_string(),
            Json::Object(vec![
                ("server_id".to_string(), Json::Str("0000000000000000".to_string())),
                ("image".to_string(), Json::Str("nginx".to_string())),
            ]),
        ),
        ("info".to_string(), Json::Null),
        ("permissions".to_string(), Json::Array(vec![])),
    ]);
    assert_eq!(client().deploy(&server(), &deployment), post("/container/deploy", body));
}

#[test]
fn pruning_containers_posts_an_empty_document() {
    assert_eq!(client().container_prune(&server()), post("/container/prune", Json::Object(vec![])));
}

#[test]
fn the_stats_of_a_container_are_asked_for_by_name() {
    assert_eq!(client().container_stats(&server(), "web"), get("/container/stats/web"));
    assert_eq!(client().container_stats_list(&server()), get("/container/stats/list"));
}

#[test]
fn any_path_can_be_read_or_posted_to() {
    assert_eq!(client().get_json(&server(), "/version"), get("/version"));
    assert_eq!(client().post_json(&server(), "/build", Json::Null), post("/build", Json::Null));
}

#[test]
fn a_success_with_a_document_is_the_document() {
    let name = "prod-1".to_string();
    for status in [200, 201, 204, 299] {
        let outcome = AgentOutcome::Replied { status, body: Some(named("web")) };
        assert_eq!(PeripheryClient::interpret(&name, outcome), Ok(named("web")));
    }
}

#[test]
fn any_other_status_is_a_failure_that_names_it() {
    let name = "prod-1".to_string();
    for (status, cause) in [(199, "status 199"), (300, "status 300"), (404, "status 404"), (503, "status 503"), (0, "status 0")] {
        let outcome = AgentOutcome::Replied { status, body: Some(named("web")) };
        let e = PeripheryClient::interpret(&name, outcome).unwrap_err();
        assert_eq!(e.kind(), ErrorKind::UpstreamAgentError);
        assert_eq!(
            e.failure,
            Failure::UpstreamAgentError { server: "prod-1".to_string(), cause: cause.to_string() }
        );
        assert_eq!(e.trace, vec![cause.to_string()]);
    }
}

#[test]
fn a_success_without_a_document_is_malformed() {
    let name = "prod-1".to_string();
    let outcome = AgentOutcome::Replied { status: 200, body: None };
    assert_eq!(
        PeripheryClient::interpret(&name, outcome).unwrap_err().failure,
        Failure::UpstreamAgentError {
            server: "prod-1".to_string(),
            cause: "malformed response".to_string()
        }
    );
}

#[test]
fn a_call_that_got_no_answer_carries_its_cause() {
    let name = "prod-1".to_string();
    let outcome = AgentOutcome::Failed { cause: "timed out".to_string() };
    let e = PeripheryClient::interpret(&name, outcome).unwrap_err();
    assert_eq!(
        e.failure,
        Failure::UpstreamAgentError { server: "prod-1".to_string(), cause: "timed out".to_string() }
    );
    assert_eq!(e.trace, vec!["timed out".to_string()]);
    assert_eq!(
        e.envelope(),
        Json::Object(vec![
            (
                "error".to_string(),
                Json::Str("agent of server prod-1 failed: timed out".to_string())
            ),
            ("trace".to_string(), Json::Array(vec![Json::Str("timed out".to_string())])),
        ])
    );
}
