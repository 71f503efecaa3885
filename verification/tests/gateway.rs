use monitor_core::entities::{
    PartialBuildConfig, PartialBuilderConfig, PartialDeploymentConfig, PartialRepoConfig,
};
use monitor_core::error::{ApiError, Entity, ErrorKind, Failure, Requirement};
use monitor_core::gateway::{complete, Response, State, Step};
use monitor_core::json::Json;
use monitor_core::periphery::{AgentOutcome, Method};
use monitor_core::permission::{PermissionLevel, RequestUser, ResourceType};
use monitor_core::request::{ApiRequest, Operation};
use monitor_core::server::{
    PartialServerConfig, Server, ServerConfig, ServerQuerySpecifics, ServerStatus,
};
use monitor_core::auth::UserRecord;
use monitor_core::channel::Topic;

fn admin() -> RequestUser {
    RequestUser { id: "root".to_string(), is_admin: true, enabled: true }
}

fn ann() -> RequestUser {
    RequestUser { id: "ann".to_string(), is_admin: false, enabled: true }
}

fn state() -> State {
    let mut state = State::new("passkey".to_string(), 10);
    assert!(state.add_user(UserRecord { id: "root".to_string(), is_admin: true, enabled: true }));
    assert!(state.add_user(UserRecord { id: "ann".to_string(), is_admin: false, enabled: true }));
    state
}

fn create_server(name: &str, address: &str) -> ApiRequest {
    ApiRequest::CreateServer {
        name: name.to_string(),
        config: PartialServerConfig {
            address: Some(address.to_string()),
            ..PartialServerConfig::default()
        },
    }
}

fn made_server(state: &mut State, name: &str) -> Server {
    match state.resolve(create_server(name, "http://10.0.0.5:8120"), &admin()) {
        Ok(Step::Done(Response::Server(server))) => server,
        other => panic!("no server was made: {other:?}"),
    }
}

fn made_deployment(state: &mut State, name: &str, server_id: &str) -> String {
    let request = ApiRequest::CreateDeployment {
        name: name.to_string(),
        config: PartialDeploymentConfig {
            server_id: Some(server_id.to_string()),
            image: Some("nginx".to_string()),
        },
    };
    match state.resolve(request, &admin()) {
        Ok(Step::Done(Response::Deployment(d))) => d.id,
        other => panic!("no deployment was made: {other:?}"),
    }
}

fn grant(state: &mut State, family: ResourceType, target: &str, level: PermissionLevel) {
    let request = ApiRequest::UpdateUserPermissionsOnTarget {
        user_id: "ann".to_string(),
        target_type: family,
        target: target.to_string(),
        permission: level,
    };
    assert_eq!(state.resolve(request, &admin()), Ok(Step::Done(Response::Done)));
}

fn failure(r: Result<Step, ApiError>) -> Failure {
    match r {
        Err(e) => {
            assert!(e.trace.is_empty());
            e.failure
        },
        Ok(step) => panic!("the request went through: {step:?}"),
    }
}

#[test]
fn a_created_server_is_not_ok_until_a_probe_succeeds() {
    let mut state = state();
    let server = made_server(&mut state, "prod-1");
    assert_eq!(server.name, "prod-1");
    assert_eq!(server.id, "0000000000000000");
    assert_eq!(server.info.status, ServerStatus::NotOk);
    assert_eq!(
        server.config,
        ServerConfig { address: "http://10.0.0.5:8120".to_string(), ..ServerConfig::defaults() }
    );
    assert_eq!(server.permissions.len(), 0);

    assert!(state.record_probe(&"prod-1".to_string(), false));
    assert_eq!(state.servers().get(0).info.status, ServerStatus::NotOk);
    assert!(state.record_probe(&"prod-1".to_string(), true));
    assert_eq!(state.servers().get(0).info.status, ServerStatus::Okay);
    assert!(state.record_probe(&server.id, false));
    assert_eq!(state.servers().get(0).info.status, ServerStatus::NotOk);
    assert!(!state.record_probe(&"prod-2".to_string(), true));
}

#[test]
fn a_server_that_is_made_disabled_is_disabled() {
    let mut state = state();
    let request = ApiRequest::CreateServer {
        name: "spare".to_string(),
        config: PartialServerConfig { enabled: Some(false), ..PartialServerConfig::default() },
    };
    match state.resolve(request, &admin()) {
        Ok(Step::Done(Response::Server(server))) => {
            assert_eq!(server.info.status, ServerStatus::Disabled)
        },
        other => panic!("no server was made: {other:?}"),
    }
    assert!(state.record_probe(&"spare".to_string(), true));
    assert_eq!(state.servers().get(0).info.status, ServerStatus::Disabled);

    let enable = ApiRequest::UpdateServer {
        server: "spare".to_string(),
        config: PartialServerConfig { enabled: Some(true), ..PartialServerConfig::default() },
    };
    match state.resolve(enable, &admin()) {
        Ok(Step::Done(Response::Server(server))) => {
            assert_eq!(server.info.status, ServerStatus::NotOk)
        },
        other => panic!("the server was not updated: {other:?}"),
    }
}

#[test]
fn creating_with_a_taken_name_is_a_conflict() {
    let mut state = state();
    made_server(&mut state, "prod-1");
    let again = state.resolve(create_server("prod-1", "http://10.0.0.6:8120"), &admin());
    assert_eq!(
        failure(again),
        Failure::Conflict { entity: Entity::Server, reference: "prod-1".to_string() }
    );
    assert_eq!(state.servers().len(), 1);
    assert_eq!(state.servers().get(0).config.address, "http://10.0.0.5:8120");
}

#[test]
fn what_was_created_is_retrievable_by_id_and_by_name() {
    let mut state = state();
    let server = made_server(&mut state, "prod-1");
    let by_id = state.resolve(ApiRequest::GetServer { server: server.id.clone() }, &admin());
    let by_name = state.resolve(ApiRequest::GetServer { server: "prod-1".to_string() }, &admin());
    let by_id = match by_id {
        Ok(Step::Done(Response::Server(found))) => found,
        other => panic!("not found by id: {other:?}"),
    };
    assert_eq!(by_id, server);
    assert_eq!(by_name, Ok(Step::Done(Response::Server(by_id))));
}

#[test]
fn every_family_refuses_a_taken_name_and_takes_a_free_one() {
    let mut state = state();
    let deployment = |name: &str| ApiRequest::CreateDeployment {
        name: name.to_string(),
        config: PartialDeploymentConfig { server_id: None, image: None },
    };
    let build = |name: &str| ApiRequest::CreateBuild {
        name: name.to_string(),
        config: PartialBuildConfig { builder_id: None, repo: None },
    };
    let builder = |name: &str| ApiRequest::CreateBuilder {
        name: name.to_string(),
        config: PartialBuilderConfig { server_id: None },
    };
    let repo = |name: &str| ApiRequest::CreateRepo {
        name: name.to_string(),
        config: PartialRepoConfig { server_id: None, repo: None },
    };
    assert!(matches!(
        state.resolve(deployment("x"), &admin()),
        Ok(Step::Done(Response::Deployment(_)))
    ));
    assert!(matches!(state.resolve(build("x"), &admin()), Ok(Step::Done(Response::Build(_)))));
    assert!(matches!(state.resolve(builder("x"), &admin()), Ok(Step::Done(Response::Builder(_)))));
    assert!(matches!(state.resolve(repo("x"), &admin()), Ok(Step::Done(Response::Repo(_)))));
    assert_eq!(state.resolve(deployment("x"), &admin()).unwrap_err().kind(), ErrorKind::Conflict);
    assert_eq!(state.resolve(build("x"), &admin()).unwrap_err().kind(), ErrorKind::Conflict);
    assert_eq!(state.resolve(builder("x"), &admin()).unwrap_err().kind(), ErrorKind::Conflict);
    assert_eq!(state.resolve(repo("x"), &admin()).unwrap_err().kind(), ErrorKind::Conflict);
    assert!(matches!(
        state.resolve(ApiRequest::GetRepo { repo: "x".to_string() }, &admin()),
        Ok(Step::Done(Response::Repo(_)))
    ));
    assert!(matches!(
        state.resolve(ApiRequest::GetBuild { build: "0000000000000000".to_string() }, &admin()),
        Ok(Step::Done(Response::Build(_)))
    ));
}

#[test]
fn a_deployment_without_a_grant_is_denied_by_the_name_it_was_asked_for() {
    let mut state = state();
    made_deployment(&mut state, "66113df3abe32960b87018dd", "nowhere");
    let request = ApiRequest::GetDeployment { deployment: "66113df3abe32960b87018dd".to_string() };
    let e = state.resolve(request, &ann()).unwrap_err();
    assert_eq!(e.kind(), ErrorKind::PermissionDenied);
    assert_eq!(e.status_code(), 403);
    assert_eq!(
        e.failure,
        Failure::PermissionDenied {
            entity: Entity::Deployment,
            reference: "66113df3abe32960b87018dd".to_string(),
            required: Requirement::Level(PermissionLevel::Read),
        }
    );
    assert!(e.failure.message().contains("66113df3abe32960b87018dd"));
}

#[test]
fn a_deployment_without_a_grant_is_denied_by_its_id() {
    let mut state = state();
    let id = made_deployment(&mut state, "web", "nowhere");
    let e = state.resolve(ApiRequest::GetDeployment { deployment: id.clone() }, &ann()).unwrap_err();
    assert_eq!(
        e.failure,
        Failure::PermissionDenied {
            entity: Entity::Deployment,
            reference: id,
            required: Requirement::Level(PermissionLevel::Read),
        }
    );
}

#[test]
fn what_does_not_exist_is_not_found() {
    let mut state = state();
    let request = ApiRequest::GetDeployment { deployment: "66113df3abe32960b87018dd".to_string() };
    assert_eq!(
        failure(state.resolve(request, &ann())),
        Failure::NotFound {
            entity: Entity::Deployment,
            reference: "66113df3abe32960b87018dd".to_string()
        }
    );
    let request = ApiRequest::DeleteServer { server: "gone".to_string() };
    assert_eq!(state.resolve(request, &admin()).unwrap_err().status_code(), 404);
}

#[test]
fn raising_the_level_lets_the_same_request_through() {
    let mut state = state();
    made_server(&mut state, "prod-1");
    let read = || ApiRequest::GetServer { server: "prod-1".to_string() };
    let write = || ApiRequest::RenameServer { server: "prod-1".to_string(), name: "prod-1".to_string() };
    let execute = || ApiRequest::PruneImages { server: "prod-1".to_string() };

    for request in [read(), write(), execute()] {
        assert_eq!(state.resolve(request, &ann()).unwrap_err().kind(), ErrorKind::PermissionDenied);
    }
    grant(&mut state, ResourceType::Server, "prod-1", PermissionLevel::Read);
    assert!(state.resolve(read(), &ann()).is_ok());
    assert_eq!(
        failure(state.resolve(write(), &ann())),
        Failure::PermissionDenied {
            entity: Entity::Server,
            reference: "prod-1".to_string(),
            required: Requirement::Level(PermissionLevel::Write),
        }
    );
    grant(&mut state, ResourceType::Server, "prod-1", PermissionLevel::Write);
    assert!(state.resolve(read(), &ann()).is_ok());
    assert!(state.resolve(write(), &ann()).is_ok());
    assert_eq!(
        failure(state.resolve(execute(), &ann())),
        Failure::PermissionDenied {
            entity: Entity::Server,
            reference: "prod-1".to_string(),
            required: Requirement::Level(PermissionLevel::Execute),
        }
    );
    grant(&mut state, ResourceType::Server, "prod-1", PermissionLevel::Execute);
    assert!(state.resolve(read(), &ann()).is_ok());
    assert!(state.resolve(write(), &ann()).is_ok());
    assert!(state.resolve(execute(), &ann()).is_ok());
}

#[test]
fn a_grant_on_one_resource_opens_no_other() {
    let mut state = state();
    made_server(&mut state, "prod-1");
    made_server(&mut state, "prod-2");
    grant(&mut state, ResourceType::Server, "prod-1", PermissionLevel::Execute);
    let request = ApiRequest::GetServer { server: "prod-2".to_string() };
    assert_eq!(state.resolve(request, &ann()).unwrap_err().kind(), ErrorKind::PermissionDenied);
}

#[test]
fn only_administrators_make_resources() {
    let mut state = state();
    let e = state.resolve(create_server("mine", "http://10.0.0.9:8120"), &ann()).unwrap_err();
    assert_eq!(
        e.failure,
        Failure::PermissionDenied {
            entity: Entity::Server,
            reference: "mine".to_string(),
            required: Requirement::Level(PermissionLevel::Write),
        }
    );
    assert_eq!(state.servers().len(), 0);
}

#[test]
fn listings_are_never_denied_and_show_what_may_be_read() {
    let mut state = state();
    made_server(&mut state, "a");
    made_server(&mut state, "b");
    made_server(&mut state, "c");
    let list = || ApiRequest::ListServers { query: ServerQuerySpecifics {} };
    assert_eq!(state.resolve(list(), &ann()), Ok(Step::Done(Response::Servers(vec![]))));
    grant(&mut state, ResourceType::Server, "b", PermissionLevel::Read);
    grant(&mut state, ResourceType::Server, "c", PermissionLevel::Execute);
    match state.resolve(list(), &ann()) {
        Ok(Step::Done(Response::Servers(items))) => {
            let names: Vec<&str> = items.iter().map(|item| item.name.as_str()).collect();
            assert_eq!(names, vec!["b", "c"]);
            assert_eq!(items[0].id, "0000000000000001");
            assert_eq!(items[0].info.status, ServerStatus::NotOk);
        },
        other => panic!("no listing: {other:?}"),
    }
    match state.resolve(list(), &admin()) {
        Ok(Step::Done(Response::Servers(items))) => assert_eq!(items.len(), 3),
        other => panic!("no listing: {other:?}"),
    }
    assert_eq!(
        state.resolve(ApiRequest::ListDeployments, &ann()),
        Ok(Step::Done(Response::Deployments(vec![])))
    );
    assert_eq!(state.resolve(ApiRequest::ListBuilds, &ann()), Ok(Step::Done(Response::Builds(vec![]))));
    assert_eq!(
        state.resolve(ApiRequest::ListBuilders, &ann()),
        Ok(Step::Done(Response::Builders(vec![])))
    );
    assert_eq!(state.resolve(ApiRequest::ListRepos, &ann()), Ok(Step::Done(Response::Repos(vec![]))));
}

#[test]
fn pruning_twice_is_answered_twice() {
    let mut state = state();
    made_server(&mut state, "prod-1");
    for request in [
        || ApiRequest::PruneContainers { server: "prod-1".to_string() },
        || ApiRequest::PruneImages { server: "prod-1".to_string() },
        || ApiRequest::PruneNetworks { server: "prod-1".to_string() },
    ] {
        let first = state.resolve(request(), &admin());
        let second = state.resolve(request(), &admin());
        assert_eq!(first, second);
        let (operation, call) = match first {
            Ok(Step::Agent { operation, request }) => (operation, request),
            other => panic!("no call to the agent: {other:?}"),
        };
        assert_eq!(call.method, Method::Post);
        assert_eq!(call.body, Some(Json::Object(vec![])));
        for _ in 0..2 {
            let nothing_pruned = AgentOutcome::Replied { status: 200, body: Some(Json::Object(vec![])) };
            assert_eq!(
                complete(operation, &call.server, nothing_pruned),
                Ok(Response::Agent(Json::Object(vec![])))
            );
        }
    }
    assert_eq!(state.servers().len(), 1);
}

#[test]
fn the_paths_of_the_prune_calls() {
    let mut state = state();
    made_server(&mut state, "prod-1");
    let url = |state: &mut State, request: ApiRequest| match state.resolve(request, &admin()) {
        Ok(Step::Agent { request, .. }) => request.url,
        other => panic!("no call to the agent: {other:?}"),
    };
    let server = || "prod-1".to_string();
    assert_eq!(
        url(&mut state, ApiRequest::PruneContainers { server: server() }),
        "http://10.0.0.5:8120/container/prune"
    );
    assert_eq!(
        url(&mut state, ApiRequest::PruneImages { server: server() }),
        "http://10.0.0.5:8120/image/prune"
    );
    assert_eq!(
        url(&mut state, ApiRequest::PruneNetworks { server: server() }),
        "http://10.0.0.5:8120/network/prune"
    );
    assert_eq!(
        url(&mut state, ApiRequest::GetDockerContainers { server: server() }),
        "http://10.0.0.5:8120/container/list"
    );
    assert_eq!(
        url(&mut state, ApiRequest::GetPeripheryVersion { server: server() }),
        "http://10.0.0.5:8120/version"
    );
}

#[test]
fn an_unreachable_agent_is_reported_and_the_gateway_goes_on() {
    let mut state = state();
    let server = made_server(&mut state, "prod-1");
    made_deployment(&mut state, "web", &server.id);
    let step = state.resolve(ApiRequest::StartContainer { deployment: "web".to_string() }, &admin());
    let (operation, call) = match step {
        Ok(Step::Agent { operation, request }) => (operation, request),
        other => panic!("no call to the agent: {other:?}"),
    };
    assert_eq!(operation, Operation::StartContainer);
    assert_eq!(call.server, "prod-1");
    assert_eq!(call.method, Method::Post);
    assert_eq!(call.url, "http://10.0.0.5:8120/container/start");
    assert_eq!(call.passkey, "passkey");
    assert_eq!(
        call.body,
        Some(Json::Object(vec![("name".to_string(), Json::Str("web".to_string()))]))
    );

    let outcome = AgentOutcome::Failed { cause: "connection refused".to_string() };
    let e = complete(operation, &call.server, outcome).unwrap_err();
    assert_eq!(e.kind(), ErrorKind::UpstreamAgentError);
    assert_eq!(e.status_code(), 502);
    assert_eq!(
        e.failure,
        Failure::UpstreamAgentError {
            server: "prod-1".to_string(),
            cause: "connection refused".to_string()
        }
    );
    assert_eq!(e.trace, vec!["StartContainer".to_string(), "connection refused".to_string()]);
    assert_eq!(call.timeout_seconds, 10);
    assert_eq!(e.failure.message(), "agent of server prod-1 failed: connection refused");

    assert!(matches!(
        state.resolve(ApiRequest::ListServers { query: ServerQuerySpecifics {} }, &admin()),
        Ok(Step::Done(Response::Servers(_)))
    ));
    assert!(state.resolve(ApiRequest::GetServer { server: "prod-1".to_string() }, &admin()).is_ok());
}

#[test]
fn a_deployment_on_a_server_that_is_gone_cannot_act() {
    let mut state = state();
    made_deployment(&mut state, "web", "0000000000000007");
    let step = state.resolve(ApiRequest::Deploy { deployment: "web".to_string() }, &admin());
    assert_eq!(
        failure(step),
        Failure::NotFound { entity: Entity::Server, reference: "0000000000000007".to_string() }
    );
}

#[test]
fn deploying_sends_the_deployment() {
    let mut state = state();
    let server = made_server(&mut state, "prod-1");
    made_deployment(&mut state, "web", &server.id);
    match state.resolve(ApiRequest::Deploy { deployment: "web".to_string() }, &admin()) {
        Ok(Step::Agent { operation, request }) => {
            assert_eq!(operation, Operation::Deploy);
            assert_eq!(request.url, "http://10.0.0.5:8120/container/deploy");
            let body = request.body.expect("a deployment is sent");
            assert_eq!(body.get("name"), Some(&Json::Str("web".to_string())));
            let config = body.get("config").expect("with its settings");
            assert_eq!(config.get("image"), Some(&Json::Str("nginx".to_string())));
            assert_eq!(config.get("server_id"), Some(&Json::Str(server.id.clone())));
        },
        other => panic!("no call to the agent: {other:?}"),
    }
}

#[test]
fn permissions_are_for_administrators() {
    let mut state = state();
    made_server(&mut state, "prod-1");
    let request = ApiRequest::UpdateUserPermissionsOnTarget {
        user_id: "ann".to_string(),
        target_type: ResourceType::Server,
        target: "prod-1".to_string(),
        permission: PermissionLevel::Execute,
    };
    let e = state.resolve(request, &ann()).unwrap_err();
    assert_eq!(
        e.failure,
        Failure::PermissionDenied {
            entity: Entity::Server,
            reference: "prod-1".to_string(),
            required: Requirement::Admin,
        }
    );
    assert_eq!(state.servers().get(0).permissions.len(), 0);
    assert_eq!(
        state.resolve(ApiRequest::GetServer { server: "prod-1".to_string() }, &ann()).unwrap_err().kind(),
        ErrorKind::PermissionDenied
    );

    let request = ApiRequest::UpdateUserPermissions { user_id: "root".to_string(), enabled: Some(false) };
    let e = state.resolve(request, &ann()).unwrap_err();
    assert_eq!(
        e.failure,
        Failure::PermissionDenied {
            entity: Entity::User,
            reference: "root".to_string(),
            required: Requirement::Admin,
        }
    );
}

#[test]
fn a_non_administrator_is_refused_before_the_target_is_looked_up() {
    let mut state = state();
    let request = ApiRequest::UpdateUserPermissionsOnTarget {
        user_id: "ann".to_string(),
        target_type: ResourceType::Repo,
        target: "no such repo".to_string(),
        permission: PermissionLevel::Read,
    };
    assert_eq!(state.resolve(request, &ann()).unwrap_err().kind(), ErrorKind::PermissionDenied);
}

#[test]
fn a_grant_needs_a_user_and_a_target() {
    let mut state = state();
    made_server(&mut state, "prod-1");
    let request = ApiRequest::UpdateUserPermissionsOnTarget {
        user_id: "nobody".to_string(),
        target_type: ResourceType::Server,
        target: "prod-1".to_string(),
        permission: PermissionLevel::Read,
    };
    assert_eq!(
        failure(state.resolve(request, &admin())),
        Failure::NotFound { entity: Entity::User, reference: "nobody".to_string() }
    );
    let request = ApiRequest::UpdateUserPermissionsOnTarget {
        user_id: "ann".to_string(),
        target_type: ResourceType::Server,
        target: "prod-9".to_string(),
        permission: PermissionLevel::Read,
    };
    assert_eq!(
        failure(state.resolve(request, &admin())),
        Failure::NotFound { entity: Entity::Server, reference: "prod-9".to_string() }
    );
}

#[test]
fn renaming_to_a_taken_name_is_a_conflict() {
    let mut state = state();
    made_server(&mut state, "a");
    made_server(&mut state, "b");
    let request = ApiRequest::RenameServer { server: "a".to_string(), name: "b".to_string() };
    assert_eq!(
        failure(state.resolve(request, &admin())),
        Failure::Conflict { entity: Entity::Server, reference: "b".to_string() }
    );
    let request = ApiRequest::RenameServer { server: "a".to_string(), name: "c".to_string() };
    match state.resolve(request, &admin()) {
        Ok(Step::Done(Response::Server(server))) => {
            assert_eq!(server.name, "c");
            assert_eq!(server.id, "0000000000000000");
        },
        other => panic!("not renamed: {other:?}"),
    }
}

#[test]
fn updating_keeps_what_the_patch_leaves_out() {
    let mut state = state();
    made_server(&mut state, "a");
    let request = ApiRequest::UpdateServer {
        server: "a".to_string(),
        config: PartialServerConfig {
            region: Some("eu".to_string()),
            cpu_warning: Some(8000),
            ..PartialServerConfig::default()
        },
    };
    match state.resolve(request, &admin()) {
        Ok(Step::Done(Response::Server(server))) => {
            assert_eq!(
                server.config,
                ServerConfig {
                    address: "http://10.0.0.5:8120".to_string(),
                    region: "eu".to_string(),
                    cpu_warning: 8000,
                    ..ServerConfig::defaults()
                }
            );
            assert_eq!(server.info.region, "eu");
        },
        other => panic!("not updated: {other:?}"),
    }
}

#[test]
fn deleting_answers_with_what_was_deleted() {
    let mut state = state();
    let server = made_server(&mut state, "a");
    let request = ApiRequest::DeleteServer { server: "a".to_string() };
    assert_eq!(state.resolve(request, &admin()), Ok(Step::Done(Response::Server(server))));
    assert_eq!(state.servers().len(), 0);
    let again = made_server(&mut state, "a");
    assert_eq!(again.id, "0000000000000001");
}

#[test]
fn login_secrets_belong_to_the_caller() {
    let mut state = state();
    let create = || ApiRequest::CreateLoginSecret { name: "ci".to_string(), expires: Some(1700000000) };
    assert_eq!(
        state.resolve(create(), &ann()),
        Ok(Step::IssueSecret {
            user_id: "ann".to_string(),
            name: "ci".to_string(),
            expires: Some(1700000000)
        })
    );
    let secret = monitor_core::auth::LoginSecret {
        user_id: "ann".to_string(),
        name: "ci".to_string(),
        key: "K1".to_string(),
        hash: vec![1, 2, 3],
        expires_at: Some(1700000000),
    };
    assert_eq!(
        state.store_secret(secret, "plain".to_string()),
        Ok(Response::Secret { key: "K1".to_string(), secret: "plain".to_string() })
    );
    assert_eq!(
        failure(state.resolve(create(), &ann())),
        Failure::Conflict { entity: Entity::LoginSecret, reference: "ci".to_string() }
    );
    assert!(matches!(state.resolve(create(), &admin()), Ok(Step::IssueSecret { .. })));
    let delete = || ApiRequest::DeleteLoginSecret { name: "ci".to_string() };
    assert_eq!(
        failure(state.resolve(delete(), &admin())),
        Failure::NotFound { entity: Entity::LoginSecret, reference: "ci".to_string() }
    );
    assert_eq!(state.resolve(delete(), &ann()), Ok(Step::Done(Response::Done)));
    assert_eq!(state.resolve(delete(), &ann()).unwrap_err().kind(), ErrorKind::NotFound);
}

#[test]
fn a_stored_secret_needs_a_new_key_and_name() {
    let mut state = state();
    let secret = |name: &str, key: &str| monitor_core::auth::LoginSecret {
        user_id: "ann".to_string(),
        name: name.to_string(),
        key: key.to_string(),
        hash: vec![],
        expires_at: None,
    };
    let plain = || "plain".to_string();
    assert!(state.store_secret(secret("ci", "K1"), plain()).is_ok());
    assert_eq!(
        state.store_secret(secret("ci", "K2"), plain()).unwrap_err().kind(),
        ErrorKind::Conflict
    );
    assert_eq!(
        state.store_secret(secret("cd", "K1"), plain()).unwrap_err().kind(),
        ErrorKind::Conflict
    );
    assert_eq!(
        state.store_secret(secret("cd", "K2"), plain()),
        Ok(Response::Secret { key: "K2".to_string(), secret: plain() })
    );
}

#[test]
fn an_administrator_disables_a_user() {
    let mut state = state();
    let request = ApiRequest::UpdateUserPermissions { user_id: "ann".to_string(), enabled: Some(false) };
    assert_eq!(state.resolve(request, &admin()), Ok(Step::Done(Response::Done)));
    let request = ApiRequest::UpdateUserPermissions { user_id: "zed".to_string(), enabled: Some(false) };
    assert_eq!(
        failure(state.resolve(request, &admin())),
        Failure::NotFound { entity: Entity::User, reference: "zed".to_string() }
    );
}

#[test]
fn a_build_runs_on_the_server_of_its_builder() {
    let mut state = state();
    let server = made_server(&mut state, "prod-1");
    let builder = ApiRequest::CreateBuilder {
        name: "bldr".to_string(),
        config: PartialBuilderConfig { server_id: Some(server.id.clone()) },
    };
    assert!(state.resolve(builder, &admin()).is_ok());
    let build = ApiRequest::CreateBuild {
        name: "app".to_string(),
        config: PartialBuildConfig {
            builder_id: Some("bldr".to_string()),
            repo: Some("git@host:app".to_string()),
        },
    };
    assert!(state.resolve(build, &admin()).is_ok());
    match state.resolve(ApiRequest::RunBuild { build: "app".to_string() }, &admin()) {
        Ok(Step::Agent { operation, request }) => {
            assert_eq!(operation, Operation::RunBuild);
            assert_eq!(request.server, "prod-1");
            assert_eq!(request.url, "http://10.0.0.5:8120/build");
        },
        other => panic!("no call to the agent: {other:?}"),
    }
    let orphan = ApiRequest::CreateBuild {
        name: "lost".to_string(),
        config: PartialBuildConfig { builder_id: Some("none".to_string()), repo: None },
    };
    assert!(state.resolve(orphan, &admin()).is_ok());
    assert_eq!(
        failure(state.resolve(ApiRequest::RunBuild { build: "lost".to_string() }, &admin())),
        Failure::NotFound { entity: Entity::Builder, reference: "none".to_string() }
    );
}

#[test]
fn a_repo_is_cloned_and_pulled_on_its_server() {
    let mut state = state();
    let server = made_server(&mut state, "prod-1");
    let repo = ApiRequest::CreateRepo {
        name: "site".to_string(),
        config: PartialRepoConfig {
            server_id: Some(server.id.clone()),
            repo: Some("git@host:site".to_string()),
        },
    };
    assert!(state.resolve(repo, &admin()).is_ok());
    let url = |state: &mut State, request: ApiRequest| match state.resolve(request, &admin()) {
        Ok(Step::Agent { request, .. }) => request.url,
        other => panic!("no call to the agent: {other:?}"),
    };
    assert_eq!(
        url(&mut state, ApiRequest::CloneRepo { repo: "site".to_string() }),
        "http://10.0.0.5:8120/git/clone"
    );
    assert_eq!(
        url(&mut state, ApiRequest::PullRepo { repo: "site".to_string() }),
        "http://10.0.0.5:8120/git/pull"
    );
}

#[test]
fn authorize_finds_the_place_of_what_is_named() {
    let mut state = state();
    made_server(&mut state, "a");
    made_server(&mut state, "b");
    let request = ApiRequest::GetServer { server: "b".to_string() };
    assert_eq!(state.authorize(&request, &admin()), Ok(1));
    assert_eq!(state.authorize(&request, &ann()).unwrap_err().kind(), ErrorKind::PermissionDenied);
    assert_eq!(state.authorize(&ApiRequest::ListRepos, &ann()), Ok(0));
}

#[test]
fn disabled_servers_are_left_out_of_polling() {
    let mut state = state();
    made_server(&mut state, "a");
    let request = ApiRequest::CreateServer {
        name: "b".to_string(),
        config: PartialServerConfig {
            address: Some("http://b".to_string()),
            enabled: Some(false),
            ..PartialServerConfig::default()
        },
    };
    assert!(state.resolve(request, &admin()).is_ok());
    made_server(&mut state, "c");
    let probes = state.probes();
    assert_eq!(probes.len(), 2);
    assert_eq!(probes[0].server_id, "0000000000000000");
    assert_eq!(probes[0].request.server, "a");
    assert_eq!(probes[0].request.method, Method::Get);
    assert_eq!(probes[0].request.url, "http://10.0.0.5:8120/stats/basic");
    assert_eq!(probes[0].request.passkey, "passkey");
    assert_eq!(probes[0].request.timeout_seconds, 10);
    assert_eq!(probes[1].server_id, "0000000000000002");
}

#[test]
fn listening_takes_the_right_to_read() {
    let mut state = state();
    made_server(&mut state, "a");
    let a = "a".to_string();
    let topic = Topic { family: ResourceType::Server, resource: "0000000000000000".to_string() };
    assert_eq!(state.topic_for(&admin(), ResourceType::Server, &a), Some(topic));
    assert_eq!(state.topic_for(&ann(), ResourceType::Server, &a), None);
    assert_eq!(state.topic_for(&admin(), ResourceType::Server, &"b".to_string()), None);
    assert_eq!(state.topic_for(&admin(), ResourceType::Repo, &a), None);
    grant(&mut state, ResourceType::Server, "a", PermissionLevel::Read);
    assert!(state.topic_for(&ann(), ResourceType::Server, &a).is_some());
    assert!(state
        .topic_for(&ann(), ResourceType::Server, &"0000000000000000".to_string())
        .is_some());
}

#[test]
fn the_check_of_one_level_on_one_resource() {
    let mut state = state();
    made_server(&mut state, "a");
    let a = "a".to_string();
    assert_eq!(state.check(&admin(), ResourceType::Server, &a, PermissionLevel::Execute), Ok(()));
    assert_eq!(
        state.check(&ann(), ResourceType::Server, &a, PermissionLevel::Read).unwrap_err().failure,
        Failure::PermissionDenied {
            entity: Entity::Server,
            reference: "a".to_string(),
            required: Requirement::Level(PermissionLevel::Read),
        }
    );
    assert_eq!(state.check(&ann(), ResourceType::Server, &a, PermissionLevel::NoAccess), Ok(()));
    grant(&mut state, ResourceType::Server, "a", PermissionLevel::Write);
    assert_eq!(state.check(&ann(), ResourceType::Server, &a, PermissionLevel::Read), Ok(()));
    assert_eq!(state.check(&ann(), ResourceType::Server, &a, PermissionLevel::Write), Ok(()));
    assert_eq!(
        state.check(&ann(), ResourceType::Server, &a, PermissionLevel::Execute).unwrap_err().kind(),
        ErrorKind::PermissionDenied
    );
    assert_eq!(
        state.check(&admin(), ResourceType::Deployment, &a, PermissionLevel::Read).unwrap_err().failure,
        Failure::NotFound { entity: Entity::Deployment, reference: "a".to_string() }
    );
}
