use monitor_core::entities::{
    PartialBuildConfig, PartialBuilderConfig, PartialDeploymentConfig, PartialRepoConfig,
};
use monitor_core::json::Json;
use monitor_core::permission::{PermissionLevel, ResourceType};
use monitor_core::request::{ApiRequest, Operation, OperationClass};
use monitor_core::error::Requirement;
use monitor_core::server::{PartialServerConfig, ServerQuerySpecifics};

fn s(text: &str) -> String {
    text.to_string()
}

fn field(key: &str, value: Json) -> (String, Json) {
    (key.to_string(), value)
}

fn full_patch() -> PartialServerConfig {
    PartialServerConfig {
        address: Some(s("http://10.0.0.5:8120")),
        enabled: Some(false),
        auto_prune: Some(true),
        send_unreachable_alerts: Some(false),
        send_cpu_alerts: Some(true),
        send_mem_alerts: Some(false),
        send_disk_alerts: Some(true),
        send_temp_alerts: Some(false),
        region: Some(s("eu")),
        cpu_warning: Some(1),
        cpu_critical: Some(2),
        mem_warning: Some(3),
        mem_critical: Some(4),
        disk_warning: Some(5),
        disk_critical: Some(u32::MAX),
    }
}

fn every_request() -> Vec<ApiRequest> {
    let deployment = || PartialDeploymentConfig { server_id: Some(s("srv")), image: None };
    let build = || PartialBuildConfig { builder_id: None, repo: Some(s("git@host:app")) };
    let builder = || PartialBuilderConfig { server_id: Some(s("srv")) };
    let repo = || PartialRepoConfig { server_id: Some(s("srv")), repo: Some(s("git@host:app")) };
    vec![
        ApiRequest::CreateLoginSecret { name: s("ci"), expires: Some(-5) },
        ApiRequest::CreateLoginSecret { name: s("ci"), expires: None },
        ApiRequest::DeleteLoginSecret { name: s("ci") },
        ApiRequest::UpdateUserPermissions { user_id: s("ann"), enabled: Some(true) },
        ApiRequest::UpdateUserPermissions { user_id: s("ann"), enabled: None },
        ApiRequest::UpdateUserPermissionsOnTarget {
            user_id: s("ann"),
            target_type: ResourceType::Builder,
            target: s("b"),
            permission: PermissionLevel::NoAccess,
        },
        ApiRequest::UpdateUserPermissionsOnTarget {
            user_id: s("ann"),
            target_type: ResourceType::Build,
            target: s("b"),
            permission: PermissionLevel::Execute,
        },
        ApiRequest::GetPeripheryVersion { server: s("x") },
        ApiRequest::GetSystemInformation { server: s("x") },
        ApiRequest::GetDockerContainers { server: s("x") },
        ApiRequest::GetDockerImages { server: s("x") },
        ApiRequest::GetDockerNetworks { server: s("x") },
        ApiRequest::GetServer { server: s("x") },
        ApiRequest::ListServers { query: ServerQuerySpecifics {} },
        ApiRequest::CreateServer { name: s("n"), config: full_patch() },
        ApiRequest::CreateServer { name: s("n"), config: PartialServerConfig::default() },
        ApiRequest::DeleteServer { server: s("x") },
        ApiRequest::UpdateServer { server: s("x"), config: full_patch() },
        ApiRequest::RenameServer { server: s("x"), name: s("n") },
        ApiRequest::GetAllSystemStats { server: s("x") },
        ApiRequest::GetBasicSystemStats { server: s("x") },
        ApiRequest::GetCpuUsage { server: s("x") },
        ApiRequest::GetDiskUsage { server: s("x") },
        ApiRequest::GetNetworkUsage { server: s("x") },
        ApiRequest::GetSystemProcesses { server: s("x") },
        ApiRequest::GetSystemComponents { server: s("x") },
        ApiRequest::PruneContainers { server: s("x") },
        ApiRequest::PruneImages { server: s("x") },
        ApiRequest::PruneNetworks { server: s("x") },
        ApiRequest::GetDeployment { deployment: s("66113df3abe32960b87018dd") },
        ApiRequest::ListDeployments,
        ApiRequest::CreateDeployment { name: s("n"), config: deployment() },
        ApiRequest::DeleteDeployment { deployment: s("x") },
        ApiRequest::UpdateDeployment { deployment: s("x"), config: deployment() },
        ApiRequest::RenameDeployment { deployment: s("x"), name: s("n") },
        ApiRequest::Deploy { deployment: s("x") },
        ApiRequest::StartContainer { deployment: s("x") },
        ApiRequest::StopContainer { deployment: s("x") },
        ApiRequest::RemoveContainer { deployment: s("x") },
        ApiRequest::GetBuild { build: s("x") },
        ApiRequest::ListBuilds,
        ApiRequest::CreateBuild { name: s("n"), config: build() },
        ApiRequest::DeleteBuild { build: s("x") },
        ApiRequest::UpdateBuild { build: s("x"), config: build() },
        ApiRequest::RunBuild { build: s("x") },
        ApiRequest::GetBuilder { builder: s("x") },
        ApiRequest::ListBuilders,
        ApiRequest::CreateBuilder { name: s("n"), config: builder() },
        ApiRequest::DeleteBuilder { builder: s("x") },
        ApiRequest::UpdateBuilder { builder: s("x"), config: builder() },
        ApiRequest::GetRepo { repo: s("x") },
        ApiRequest::ListRepos,
        ApiRequest::CreateRepo { name: s("n"), config: repo() },
        ApiRequest::UpdateRepo { repo: s("x"), config: repo() },
        ApiRequest::DeleteRepo { repo: s("x") },
        ApiRequest::CloneRepo { repo: s("x") },
        ApiRequest::PullRepo { repo: s("x") },
    ]
}

#[test]
fn every_request_survives_the_wire() {
    let requests = every_request();
    assert!(requests.len() >= 53);
    for request in requests {
        let document = request.to_json();
        assert_eq!(ApiRequest::from_json(&document), Some(request));
    }
}

#[test]
fn every_operation_is_the_operation_of_its_name() {
    let mut names = Vec::new();
    for request in every_request() {
        let operation = request.operation();
        assert_eq!(Operation::from_name(&operation.name().to_string()), Some(operation));
        if !names.contains(&operation.name()) {
            names.push(operation.name());
        }
    }
    assert_eq!(names.len(), 53);
    assert_eq!(Operation::from_name(&s("UpdateUserPerimissions")), None);
    assert_eq!(Operation::from_name(&s("getserver")), None);
    assert_eq!(Operation::from_name(&s("")), None);
}

#[test]
fn the_wire_form_of_get_deployment() {
    let request = ApiRequest::GetDeployment { deployment: s("66113df3abe32960b87018dd") };
    let document = Json::Object(vec![
        field("type", Json::Str(s("GetDeployment"))),
        field(
            "params",
            Json::Object(vec![field("deployment", Json::Str(s("66113df3abe32960b87018dd")))]),
        ),
    ]);
    assert_eq!(request.to_json(), document);
    assert_eq!(ApiRequest::from_json(&document), Some(request));
}

#[test]
fn the_wire_form_of_create_server() {
    let request = ApiRequest::CreateServer {
        name: s("prod-1"),
        config: PartialServerConfig {
            address: Some(s("http://10.0.0.5:8120")),
            ..PartialServerConfig::default()
        },
    };
    let document = Json::Object(vec![
        field("type", Json::Str(s("CreateServer"))),
        field(
            "params",
            Json::Object(vec![
                field("name", Json::Str(s("prod-1"))),
                field(
                    "config",
                    Json::Object(vec![field("address", Json::Str(s("http://10.0.0.5:8120")))]),
                ),
            ]),
        ),
    ]);
    assert_eq!(request.to_json(), document);
    assert_eq!(ApiRequest::from_json(&document), Some(request));
}

#[test]
fn settings_that_are_left_out_are_not_written() {
    assert_eq!(PartialServerConfig::default().to_json(), Json::Object(vec![]));
    let patch = PartialServerConfig {
        enabled: Some(false),
        cpu_warning: Some(8550),
        ..PartialServerConfig::default()
    };
    assert_eq!(
        patch.to_json(),
        Json::Object(vec![field("enabled", Json::Bool(false)), field("cpu_warning", Json::Int(8550))])
    );
    assert_eq!(full_patch().to_json().get("disk_critical"), Some(&Json::Int(4294967295)));
}

#[test]
fn settings_are_read_whatever_their_order() {
    let document = Json::Object(vec![
        field("region", Json::Str(s("eu"))),
        field("unknown", Json::Int(1)),
        field("address", Json::Null),
        field("enabled", Json::Bool(true)),
    ]);
    assert_eq!(
        PartialServerConfig::from_json(&document),
        Some(PartialServerConfig {
            region: Some(s("eu")),
            enabled: Some(true),
            ..PartialServerConfig::default()
        })
    );
}

#[test]
fn settings_of_the_wrong_sort_are_refused() {
    let bad = |key: &str, value: Json| {
        PartialServerConfig::from_json(&Json::Object(vec![field(key, value)]))
    };
    assert_eq!(bad("address", Json::Int(1)), None);
    assert_eq!(bad("enabled", Json::Str(s("yes"))), None);
    assert_eq!(bad("cpu_warning", Json::Int(-1)), None);
    assert_eq!(bad("cpu_warning", Json::Int(4294967296)), None);
    assert_eq!(bad("mem_critical", Json::Bool(true)), None);
    assert_eq!(PartialServerConfig::from_json(&Json::Array(vec![])), None);
    assert_eq!(PartialDeploymentConfig::from_json(&Json::Null), None);
    assert_eq!(
        PartialBuilderConfig::from_json(&Json::Object(vec![field("server_id", Json::Bool(true))])),
        None
    );
}

#[test]
fn a_document_that_is_no_request_is_refused() {
    let typed = |name: &str, params: Json| {
        Json::Object(vec![field("type", Json::Str(s(name))), field("params", params)])
    };
    assert_eq!(ApiRequest::from_json(&Json::Null), None);
    assert_eq!(ApiRequest::from_json(&Json::Object(vec![])), None);
    assert_eq!(ApiRequest::from_json(&typed("Reboot", Json::Object(vec![]))), None);
    assert_eq!(ApiRequest::from_json(&typed("GetServer", Json::Object(vec![]))), None);
    assert_eq!(
        ApiRequest::from_json(&typed(
            "GetServer",
            Json::Object(vec![field("server", Json::Int(3))])
        )),
        None
    );
    assert_eq!(
        ApiRequest::from_json(&Json::Object(vec![field("type", Json::Int(1))])),
        None
    );
    let grant = |level: &str, family: &str| {
        typed(
            "UpdateUserPermissionsOnTarget",
            Json::Object(vec![
                field("user_id", Json::Str(s("ann"))),
                field("target_type", Json::Str(s(family))),
                field("target", Json::Str(s("x"))),
                field("permission", Json::Str(s(level))),
            ]),
        )
    };
    assert!(ApiRequest::from_json(&grant("Read", "Repo")).is_some());
    assert_eq!(ApiRequest::from_json(&grant("Admin", "Repo")), None);
    assert_eq!(ApiRequest::from_json(&grant("Read", "User")), None);
}

#[test]
fn parameters_may_be_missing_where_none_are_needed() {
    let document = Json::Object(vec![field("type", Json::Str(s("ListRepos")))]);
    assert_eq!(ApiRequest::from_json(&document), Some(ApiRequest::ListRepos));
    let document = Json::Object(vec![
        field("type", Json::Str(s("CreateBuilder"))),
        field("params", Json::Object(vec![field("name", Json::Str(s("b")))])),
    ]);
    assert_eq!(
        ApiRequest::from_json(&document),
        Some(ApiRequest::CreateBuilder {
            name: s("b"),
            config: PartialBuilderConfig { server_id: None }
        })
    );
}

#[test]
fn what_each_class_of_operation_asks_for() {
    assert_eq!(Operation::GetServer.required(), Requirement::Level(PermissionLevel::Read));
    assert_eq!(Operation::ListBuilds.required(), Requirement::Level(PermissionLevel::Read));
    assert_eq!(Operation::GetCpuUsage.required(), Requirement::Level(PermissionLevel::Read));
    assert_eq!(Operation::CreateRepo.required(), Requirement::Level(PermissionLevel::Write));
    assert_eq!(Operation::UpdateBuild.required(), Requirement::Level(PermissionLevel::Write));
    assert_eq!(Operation::RenameServer.required(), Requirement::Level(PermissionLevel::Write));
    assert_eq!(Operation::DeleteBuilder.required(), Requirement::Level(PermissionLevel::Write));
    assert_eq!(Operation::Deploy.required(), Requirement::Level(PermissionLevel::Execute));
    assert_eq!(Operation::RunBuild.required(), Requirement::Level(PermissionLevel::Execute));
    assert_eq!(Operation::StartContainer.required(), Requirement::Level(PermissionLevel::Execute));
    assert_eq!(Operation::StopContainer.required(), Requirement::Level(PermissionLevel::Execute));
    assert_eq!(Operation::RemoveContainer.required(), Requirement::Level(PermissionLevel::Execute));
    assert_eq!(Operation::PruneNetworks.required(), Requirement::Level(PermissionLevel::Execute));
    assert_eq!(Operation::PullRepo.required(), Requirement::Level(PermissionLevel::Execute));
    assert_eq!(Operation::UpdateUserPermissions.required(), Requirement::Admin);
    assert_eq!(Operation::UpdateUserPermissionsOnTarget.required(), Requirement::Admin);
    assert_eq!(
        Operation::CreateLoginSecret.required(),
        Requirement::Level(PermissionLevel::NoAccess)
    );
    assert_eq!(Operation::PruneImages.kind(), OperationClass::Action);
    assert_eq!(Operation::GetDockerImages.kind(), OperationClass::AgentRead);
    assert_eq!(Operation::GetDockerImages.resource_type(), Some(ResourceType::Server));
    assert_eq!(Operation::DeleteLoginSecret.resource_type(), None);
}

#[test]
fn what_a_request_is_about() {
    let request = ApiRequest::RenameDeployment { deployment: s("web"), name: s("site") };
    assert_eq!(request.operation(), Operation::RenameDeployment);
    assert_eq!(request.subject(), Some((ResourceType::Deployment, &s("web"))));
    assert_eq!(request.new_name(), Some(&s("site")));
    let request = ApiRequest::CreateRepo {
        name: s("site"),
        config: PartialRepoConfig { server_id: None, repo: None },
    };
    assert_eq!(request.subject(), None);
    assert_eq!(request.new_name(), Some(&s("site")));
    assert_eq!(ApiRequest::ListBuilders.subject(), None);
    assert_eq!(ApiRequest::ListBuilders.new_name(), None);
}
