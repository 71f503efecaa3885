//! The requests that the gateway takes: one operation each, with exactly the
//! parameters that the operation needs.
use vstd::prelude::*;
use crate::entities::{
    PartialBuildConfig, PartialBuildConfigView, PartialBuilderConfig, PartialBuilderConfigView,
    PartialDeploymentConfig, PartialDeploymentConfigView, PartialRepoConfig,
    PartialRepoConfigView,
};
use crate::error::Requirement;
use crate::permission::{PermissionLevel, ResourceType};
use crate::server::{PartialServerConfig, PartialServerConfigView, ServerQuerySpecifics};

verus! {

/// The operations, without their parameters.
#[derive(Clone, Copy, Debug, PartialEq, Eq, Structural, Hash)]
pub enum Operation {
    // Login secrets
    CreateLoginSecret,
    DeleteLoginSecret,
    // Permissions
    UpdateUserPermissions,
    UpdateUserPermissionsOnTarget,
    // Servers
    GetPeripheryVersion,
    GetSystemInformation,
    GetDockerContainers,
    GetDockerImages,
    GetDockerNetworks,
    GetServer,
    ListServers,
    CreateServer,
    DeleteServer,
    UpdateServer,
    RenameServer,
    GetAllSystemStats,
    GetBasicSystemStats,
    GetCpuUsage,
    GetDiskUsage,
    GetNetworkUsage,
    GetSystemProcesses,
    GetSystemComponents,
    PruneContainers,
    PruneImages,
    PruneNetworks,
    // Deployments
    GetDeployment,
    ListDeployments,
    CreateDeployment,
    DeleteDeployment,
    UpdateDeployment,
    RenameDeployment,
    Deploy,
    StartContainer,
    StopContainer,
    RemoveContainer,
    // Builds
    GetBuild,
    ListBuilds,
    CreateBuild,
    DeleteBuild,
    UpdateBuild,
    RunBuild,
    // Builders
    GetBuilder,
    ListBuilders,
    CreateBuilder,
    DeleteBuilder,
    UpdateBuilder,
    // Repos
    GetRepo,
    ListRepos,
    CreateRepo,
    UpdateRepo,
    DeleteRepo,
    CloneRepo,
    PullRepo,
}

/// What an operation does, apart from the family of resources it does it to.
#[derive(Clone, Copy, Debug, PartialEq, Eq, Structural, Hash)]
pub enum OperationClass {
    /// Manages the login secrets of the caller.
    Secret,
    /// Changes what a principal may do.
    Permission,
    /// Returns one resource.
    Get,
    /// Returns the resources that the caller may read.
    List,
    /// Makes a resource.
    Create,
    /// Changes the settings of a resource.
    Update,
    /// Changes the name of a resource.
    Rename,
    /// Removes a resource.
    Delete,
    /// Asks the agent of a server for something, and changes nothing.
    AgentRead,
    /// Has the agent of a server do something.
    Action,
}

impl Operation {
    /// The name of the operation on the wire.
    pub open spec fn name_text(self) -> Seq<char> {
        match self {
            Operation::CreateLoginSecret => "CreateLoginSecret"@,
            Operation::DeleteLoginSecret => "DeleteLoginSecret"@,
            Operation::UpdateUserPermissions => "UpdateUserPermissions"@,
            Operation::UpdateUserPermissionsOnTarget => "UpdateUserPermissionsOnTarget"@,
            Operation::GetPeripheryVersion => "GetPeripheryVersion"@,
            Operation::GetSystemInformation => "GetSystemInformation"@,
            Operation::GetDockerContainers => "GetDockerContainers"@,
            Operation::GetDockerImages => "GetDockerImages"@,
            Operation::GetDockerNetworks => "GetDockerNetworks"@,
            Operation::GetServer => "GetServer"@,
            Operation::ListServers => "ListServers"@,
            Operation::CreateServer => "CreateServer"@,
            Operation::DeleteServer => "DeleteServer"@,
            Operation::UpdateServer => "UpdateServer"@,
            Operation::RenameServer => "RenameServer"@,
            Operation::GetAllSystemStats => "GetAllSystemStats"@,
            Operation::GetBasicSystemStats => "GetBasicSystemStats"@,
            Operation::GetCpuUsage => "GetCpuUsage"@,
            Operation::GetDiskUsage => "GetDiskUsage"@,
            Operation::GetNetworkUsage => "GetNetworkUsage"@,
            Operation::GetSystemProcesses => "GetSystemProcesses"@,
            Operation::GetSystemComponents => "GetSystemComponents"@,
            Operation::PruneContainers => "PruneContainers"@,
            Operation::PruneImages => "PruneImages"@,
            Operation::PruneNetworks => "PruneNetworks"@,
            Operation::GetDeployment => "GetDeployment"@,
            Operation::ListDeployments => "ListDeployments"@,
            Operation::CreateDeployment => "CreateDeployment"@,
            Operation::DeleteDeployment => "DeleteDeployment"@,
            Operation::UpdateDeployment => "UpdateDeployment"@,
            Operation::RenameDeployment => "RenameDeployment"@,
            Operation::Deploy => "Deploy"@,
            Operation::StartContainer => "StartContainer"@,
            Operation::StopContainer => "StopContainer"@,
            Operation::RemoveContainer => "RemoveContainer"@,
            Operation::GetBuild => "GetBuild"@,
            Operation::ListBuilds => "ListBuilds"@,
            Operation::CreateBuild => "CreateBuild"@,
            Operation::DeleteBuild => "DeleteBuild"@,
            Operation::UpdateBuild => "UpdateBuild"@,
            Operation::RunBuild => "RunBuild"@,
            Operation::GetBuilder => "GetBuilder"@,
            Operation::ListBuilders => "ListBuilders"@,
            Operation::CreateBuilder => "CreateBuilder"@,
            Operation::DeleteBuilder => "DeleteBuilder"@,
            Operation::UpdateBuilder => "UpdateBuilder"@,
            Operation::GetRepo => "GetRepo"@,
            Operation::ListRepos => "ListRepos"@,
            Operation::CreateRepo => "CreateRepo"@,
            Operation::UpdateRepo => "UpdateRepo"@,
            Operation::DeleteRepo => "DeleteRepo"@,
            Operation::CloneRepo => "CloneRepo"@,
            Operation::PullRepo => "PullRepo"@,
        }
    }

    /// The name of the operation on the wire.
    pub fn name(self) -> (s: &'static str)
        ensures
            s@ == self.name_text(),
    {
        match self {
            Operation::CreateLoginSecret => "CreateLoginSecret",
            Operation::DeleteLoginSecret => "DeleteLoginSecret",
            Operation::UpdateUserPermissions => "UpdateUserPermissions",
            Operation::UpdateUserPermissionsOnTarget => "UpdateUserPermissionsOnTarget",
            Operation::GetPeripheryVersion => "GetPeripheryVersion",
            Operation::GetSystemInformation => "GetSystemInformation",
            Operation::GetDockerContainers => "GetDockerContainers",
            Operation::GetDockerImages => "GetDockerImages",
            Operation::GetDockerNetworks => "GetDockerNetworks",
            Operation::GetServer => "GetServer",
            Operation::ListServers => "ListServers",
            Operation::CreateServer => "CreateServer",
            Operation::DeleteServer => "DeleteServer",
            Operation::UpdateServer => "UpdateServer",
            Operation::RenameServer => "RenameServer",
            Operation::GetAllSystemStats => "GetAllSystemStats",
            Operation::GetBasicSystemStats => "GetBasicSystemStats",
            Operation::GetCpuUsage => "GetCpuUsage",
            Operation::GetDiskUsage => "GetDiskUsage",
            Operation::GetNetworkUsage => "GetNetworkUsage",
            Operation::GetSystemProcesses => "GetSystemProcesses",
            Operation::GetSystemComponents => "GetSystemComponents",
            Operation::PruneContainers => "PruneContainers",
            Operation::PruneImages => "PruneImages",
            Operation::PruneNetworks => "PruneNetworks",
            Operation::GetDeployment => "GetDeployment",
            Operation::ListDeployments => "ListDeployments",
            Operation::CreateDeployment => "CreateDeployment",
            Operation::DeleteDeployment => "DeleteDeployment",
            Operation::UpdateDeployment => "UpdateDeployment",
            Operation::RenameDeployment => "RenameDeployment",
            Operation::Deploy => "Deploy",
            Operation::StartContainer => "StartContainer",
            Operation::StopContainer => "StopContainer",
            Operation::RemoveContainer => "RemoveContainer",
            Operation::GetBuild => "GetBuild",
            Operation::ListBuilds => "ListBuilds",
            Operation::CreateBuild => "CreateBuild",
            Operation::DeleteBuild => "DeleteBuild",
            Operation::UpdateBuild => "UpdateBuild",
            Operation::RunBuild => "RunBuild",
            Operation::GetBuilder => "GetBuilder",
            Operation::ListBuilders => "ListBuilders",
            Operation::CreateBuilder => "CreateBuilder",
            Operation::DeleteBuilder => "DeleteBuilder",
            Operation::UpdateBuilder => "UpdateBuilder",
            Operation::GetRepo => "GetRepo",
            Operation::ListRepos => "ListRepos",
            Operation::CreateRepo => "CreateRepo",
            Operation::UpdateRepo => "UpdateRepo",
            Operation::DeleteRepo => "DeleteRepo",
            Operation::CloneRepo => "CloneRepo",
            Operation::PullRepo => "PullRepo",
        }
    }

    /// What the operation does.
    pub open spec fn class(self) -> OperationClass {
        match self {
            Operation::CreateLoginSecret
            | Operation::DeleteLoginSecret => OperationClass::Secret,
            Operation::UpdateUserPermissions
            | Operation::UpdateUserPermissionsOnTarget => OperationClass::Permission,
            Operation::GetServer
            | Operation::GetDeployment
            | Operation::GetBuild
            | Operation::GetBuilder
            | Operation::GetRepo => OperationClass::Get,
            Operation::ListServers
            | Operation::ListDeployments
            | Operation::ListBuilds
            | Operation::ListBuilders
            | Operation::ListRepos => OperationClass::List,
            Operation::CreateServer
            | Operation::CreateDeployment
            | Operation::CreateBuild
            | Operation::CreateBuilder
            | Operation::CreateRepo => OperationClass::Create,
            Operation::UpdateServer
            | Operation::UpdateDeployment
            | Operation::UpdateBuild
            | Operation::UpdateBuilder
            | Operation::UpdateRepo => OperationClass::Update,
            Operation::RenameServer
            | Operation::RenameDeployment => OperationClass::Rename,
            Operation::DeleteServer
            | Operation::DeleteDeployment
            | Operation::DeleteBuild
            | Operation::DeleteBuilder
            | Operation::DeleteRepo => OperationClass::Delete,
            Operation::GetPeripheryVersion
            | Operation::GetSystemInformation
            | Operation::GetDockerContainers
            | Operation::GetDockerImages
            | Operation::GetDockerNetworks
            | Operation::GetAllSystemStats
            | Operation::GetBasicSystemStats
            | Operation::GetCpuUsage
            | Operation::GetDiskUsage
            | Operation::GetNetworkUsage
            | Operation::GetSystemProcesses
            | Operation::GetSystemComponents => OperationClass::AgentRead,
            Operation::PruneContainers
            | Operation::PruneImages
            | Operation::PruneNetworks
            | Operation::Deploy
            | Operation::StartContainer
            | Operation::StopContainer
            | Operation::RemoveContainer
            | Operation::RunBuild
            | Operation::CloneRepo
            | Operation::PullRepo => OperationClass::Action,
        }
    }

    /// The family of resources that the operation is about, where it is
    /// about one.
    pub open spec fn family(self) -> Option<ResourceType> {
        match self {
            Operation::CreateLoginSecret
            | Operation::DeleteLoginSecret
            | Operation::UpdateUserPermissions
            | Operation::UpdateUserPermissionsOnTarget => None,
            Operation::GetPeripheryVersion
            | Operation::GetSystemInformation
            | Operation::GetDockerContainers
            | Operation::GetDockerImages
            | Operation::GetDockerNetworks
            | Operation::GetServer
            | Operation::ListServers
            | Operation::CreateServer
            | Operation::DeleteServer
            | Operation::UpdateServer
            | Operation::RenameServer
            | Operation::GetAllSystemStats
            | Operation::GetBasicSystemStats
            | Operation::GetCpuUsage
            | Operation::GetDiskUsage
            | Operation::GetNetworkUsage
            | Operation::GetSystemProcesses
            | Operation::GetSystemComponents
            | Operation::PruneContainers
            | Operation::PruneImages
            | Operation::PruneNetworks => Some(ResourceType::Server),
            Operation::GetDeployment
            | Operation::ListDeployments
            | Operation::CreateDeployment
            | Operation::DeleteDeployment
            | Operation::UpdateDeployment
            | Operation::RenameDeployment
            | Operation::Deploy
            | Operation::StartContainer
            | Operation::StopContainer
            | Operation::RemoveContainer => Some(ResourceType::Deployment),
            Operation::GetBuild
            | Operation::ListBuilds
            | Operation::CreateBuild
            | Operation::DeleteBuild
            | Operation::UpdateBuild
            | Operation::RunBuild => Some(ResourceType::Build),
            Operation::GetBuilder
            | Operation::ListBuilders
            | Operation::CreateBuilder
            | Operation::DeleteBuilder
            | Operation::UpdateBuilder => Some(ResourceType::Builder),
            Operation::GetRepo
            | Operation::ListRepos
            | Operation::CreateRepo
            | Operation::UpdateRepo
            | Operation::DeleteRepo
            | Operation::CloneRepo
            | Operation::PullRepo => Some(ResourceType::Repo),
        }
    }

    /// What the operation asks of the caller: reading asks for `Read`,
    /// writing for `Write`, and whatever acts on a host for `Execute`. The
    /// operations on permissions ask for an administrator, and those on the
    /// caller's own login secrets ask for nothing.
    pub open spec fn requirement(self) -> Requirement {
        match self.class() {
            OperationClass::Secret => Requirement::Level(PermissionLevel::NoAccess),
            OperationClass::Permission => Requirement::Admin,
            OperationClass::Get | OperationClass::List | OperationClass::AgentRead => Requirement::Level(
                PermissionLevel::Read,
            ),
            OperationClass::Create
            | OperationClass::Update
            | OperationClass::Rename
            | OperationClass::Delete => Requirement::Level(PermissionLevel::Write),
            OperationClass::Action => Requirement::Level(PermissionLevel::Execute),
        }
    }

    /// What the operation does.
    pub fn kind(self) -> (c: OperationClass)
        ensures
            c == self.class(),
    {
        match self {
            Operation::CreateLoginSecret
            | Operation::DeleteLoginSecret => OperationClass::Secret,
            Operation::UpdateUserPermissions
            | Operation::UpdateUserPermissionsOnTarget => OperationClass::Permission,
            Operation::GetServer
            | Operation::GetDeployment
            | Operation::GetBuild
            | Operation::GetBuilder
            | Operation::GetRepo => OperationClass::Get,
            Operation::ListServers
            | Operation::ListDeployments
            | Operation::ListBuilds
            | Operation::ListBuilders
            | Operation::ListRepos => OperationClass::List,
            Operation::CreateServer
            | Operation::CreateDeployment
            | Operation::CreateBuild
            | Operation::CreateBuilder
            | Operation::CreateRepo => OperationClass::Create,
            Operation::UpdateServer
            | Operation::UpdateDeployment
            | Operation::UpdateBuild
            | Operation::UpdateBuilder
            | Operation::UpdateRepo => OperationClass::Update,
            Operation::RenameServer
            | Operation::RenameDeployment => OperationClass::Rename,
            Operation::DeleteServer
            | Operation::DeleteDeployment
            | Operation::DeleteBuild
            | Operation::DeleteBuilder
            | Operation::DeleteRepo => OperationClass::Delete,
            Operation::GetPeripheryVersion
            | Operation::GetSystemInformation
            | Operation::GetDockerContainers
            | Operation::GetDockerImages
            | Operation::GetDockerNetworks
            | Operation::GetAllSystemStats
            | Operation::GetBasicSystemStats
            | Operation::GetCpuUsage
            | Operation::GetDiskUsage
            | Operation::GetNetworkUsage
            | Operation::GetSystemProcesses
            | Operation::GetSystemComponents => OperationClass::AgentRead,
            Operation::PruneContainers
            | Operation::PruneImages
            | Operation::PruneNetworks
            | Operation::Deploy
            | Operation::StartContainer
            | Operation::StopContainer
            | Operation::RemoveContainer
            | Operation::RunBuild
            | Operation::CloneRepo
            | Operation::PullRepo => OperationClass::Action,
        }
    }

    /// The family of resources that the operation is about.
    pub fn resource_type(self) -> (t: Option<ResourceType>)
        ensures
            t == self.family(),
    {
        match self {
            Operation::CreateLoginSecret
            | Operation::DeleteLoginSecret
            | Operation::UpdateUserPermissions
            | Operation::UpdateUserPermissionsOnTarget => None,
            Operation::GetPeripheryVersion
            | Operation::GetSystemInformation
            | Operation::GetDockerContainers
            | Operation::GetDockerImages
            | Operation::GetDockerNetworks
            | Operation::GetServer
            | Operation::ListServers
            | Operation::CreateServer
            | Operation::DeleteServer
            | Operation::UpdateServer
            | Operation::RenameServer
            | Operation::GetAllSystemStats
            | Operation::GetBasicSystemStats
            | Operation::GetCpuUsage
            | Operation::GetDiskUsage
            | Operation::GetNetworkUsage
            | Operation::GetSystemProcesses
            | Operation::GetSystemComponents
            | Operation::PruneContainers
            | Operation::PruneImages
            | Operation::PruneNetworks => Some(ResourceType::Server),
            Operation::GetDeployment
            | Operation::ListDeployments
            | Operation::CreateDeployment
            | Operation::DeleteDeployment
            | Operation::UpdateDeployment
            | Operation::RenameDeployment
            | Operation::Deploy
            | Operation::StartContainer
            | Operation::StopContainer
            | Operation::RemoveContainer => Some(ResourceType::Deployment),
            Operation::GetBuild
            | Operation::ListBuilds
            | Operation::CreateBuild
            | Operation::DeleteBuild
            | Operation::UpdateBuild
            | Operation::RunBuild => Some(ResourceType::Build),
            Operation::GetBuilder
            | Operation::ListBuilders
            | Operation::CreateBuilder
            | Operation::DeleteBuilder
            | Operation::UpdateBuilder => Some(ResourceType::Builder),
            Operation::GetRepo
            | Operation::ListRepos
            | Operation::CreateRepo
            | Operation::UpdateRepo
            | Operation::DeleteRepo
            | Operation::CloneRepo
            | Operation::PullRepo => Some(ResourceType::Repo),
        }
    }

    /// What the operation asks of the caller.
    pub fn required(self) -> (r: Requirement)
        ensures
            r == self.requirement(),
    {
        match self.kind() {
            OperationClass::Secret => Requirement::Level(PermissionLevel::NoAccess),
            OperationClass::Permission => Requirement::Admin,
            OperationClass::Get | OperationClass::List | OperationClass::AgentRead => Requirement::Level(
                PermissionLevel::Read,
            ),
            OperationClass::Create
            | OperationClass::Update
            | OperationClass::Rename
            | OperationClass::Delete => Requirement::Level(PermissionLevel::Write),
            OperationClass::Action => Requirement::Level(PermissionLevel::Execute),
        }
    }
}

/// A request: one operation with its parameters. A resource is referred to
/// by its id or by its name.
#[allow(inconsistent_fields)]
#[derive(Debug, PartialEq, Eq)]
pub enum ApiRequest {
    // Login secrets
    CreateLoginSecret { name: String, expires: Option<i64> },
    DeleteLoginSecret { name: String },
    // Permissions
    UpdateUserPermissions { user_id: String, enabled: Option<bool> },
    UpdateUserPermissionsOnTarget { user_id: String, target_type: ResourceType, target: String, permission: PermissionLevel },
    // Servers
    GetPeripheryVersion { server: String },
    GetSystemInformation { server: String },
    GetDockerContainers { server: String },
    GetDockerImages { server: String },
    GetDockerNetworks { server: String },
    GetServer { server: String },
    ListServers { query: ServerQuerySpecifics },
    CreateServer { name: String, config: PartialServerConfig },
    DeleteServer { server: String },
    UpdateServer { server: String, config: PartialServerConfig },
    RenameServer { server: String, name: String },
    GetAllSystemStats { server: String },
    GetBasicSystemStats { server: String },
    GetCpuUsage { server: String },
    GetDiskUsage { server: String },
    GetNetworkUsage { server: String },
    GetSystemProcesses { server: String },
    GetSystemComponents { server: String },
    PruneContainers { server: String },
    PruneImages { server: String },
    PruneNetworks { server: String },
    // Deployments
    GetDeployment { deployment: String },
    ListDeployments,
    CreateDeployment { name: String, config: PartialDeploymentConfig },
    DeleteDeployment { deployment: String },
    UpdateDeployment { deployment: String, config: PartialDeploymentConfig },
    RenameDeployment { deployment: String, name: String },
    Deploy { deployment: String },
    StartContainer { deployment: String },
    StopContainer { deployment: String },
    RemoveContainer { deployment: String },
    // Builds
    GetBuild { build: String },
    ListBuilds,
    CreateBuild { name: String, config: PartialBuildConfig },
    DeleteBuild { build: String },
    UpdateBuild { build: String, config: PartialBuildConfig },
    RunBuild { build: String },
    // Builders
    GetBuilder { builder: String },
    ListBuilders,
    CreateBuilder { name: String, config: PartialBuilderConfig },
    DeleteBuilder { builder: String },
    UpdateBuilder { builder: String, config: PartialBuilderConfig },
    // Repos
    GetRepo { repo: String },
    ListRepos,
    CreateRepo { name: String, config: PartialRepoConfig },
    UpdateRepo { repo: String, config: PartialRepoConfig },
    DeleteRepo { repo: String },
    CloneRepo { repo: String },
    PullRepo { repo: String },
}

/// An [`ApiRequest`] as plain values.
#[allow(inconsistent_fields)]
pub enum ApiRequestView {
    CreateLoginSecret { name: Seq<char>, expires: Option<i64> },
    DeleteLoginSecret { name: Seq<char> },
    UpdateUserPermissions { user_id: Seq<char>, enabled: Option<bool> },
    UpdateUserPermissionsOnTarget { user_id: Seq<char>, target_type: ResourceType, target: Seq<char>, permission: PermissionLevel },
    GetPeripheryVersion { server: Seq<char> },
    GetSystemInformation { server: Seq<char> },
    GetDockerContainers { server: Seq<char> },
    GetDockerImages { server: Seq<char> },
    GetDockerNetworks { server: Seq<char> },
    GetServer { server: Seq<char> },
    ListServers { query: ServerQuerySpecifics },
    CreateServer { name: Seq<char>, config: PartialServerConfigView },
    DeleteServer { server: Seq<char> },
    UpdateServer { server: Seq<char>, config: PartialServerConfigView },
    RenameServer { server: Seq<char>, name: Seq<char> },
    GetAllSystemStats { server: Seq<char> },
    GetBasicSystemStats { server: Seq<char> },
    GetCpuUsage { server: Seq<char> },
    GetDiskUsage { server: Seq<char> },
    GetNetworkUsage { server: Seq<char> },
    GetSystemProcesses { server: Seq<char> },
    GetSystemComponents { server: Seq<char> },
    PruneContainers { server: Seq<char> },
    PruneImages { server: Seq<char> },
    PruneNetworks { server: Seq<char> },
    GetDeployment { deployment: Seq<char> },
    ListDeployments,
    CreateDeployment { name: Seq<char>, config: PartialDeploymentConfigView },
    DeleteDeployment { deployment: Seq<char> },
    UpdateDeployment { deployment: Seq<char>, config: PartialDeploymentConfigView },
    RenameDeployment { deployment: Seq<char>, name: Seq<char> },
    Deploy { deployment: Seq<char> },
    StartContainer { deployment: Seq<char> },
    StopContainer { deployment: Seq<char> },
    RemoveContainer { deployment: Seq<char> },
    GetBuild { build: Seq<char> },
    ListBuilds,
    CreateBuild { name: Seq<char>, config: PartialBuildConfigView },
    DeleteBuild { build: Seq<char> },
    UpdateBuild { build: Seq<char>, config: PartialBuildConfigView },
    RunBuild { build: Seq<char> },
    GetBuilder { builder: Seq<char> },
    ListBuilders,
    CreateBuilder { name: Seq<char>, config: PartialBuilderConfigView },
    DeleteBuilder { builder: Seq<char> },
    UpdateBuilder { builder: Seq<char>, config: PartialBuilderConfigView },
    GetRepo { repo: Seq<char> },
    ListRepos,
    CreateRepo { name: Seq<char>, config: PartialRepoConfigView },
    UpdateRepo { repo: Seq<char>, config: PartialRepoConfigView },
    DeleteRepo { repo: Seq<char> },
    CloneRepo { repo: Seq<char> },
    PullRepo { repo: Seq<char> },
}

impl View for ApiRequest {
    type V = ApiRequestView;

    open spec fn view(&self) -> ApiRequestView {
        match self {
            ApiRequest::CreateLoginSecret { name, expires } => ApiRequestView::CreateLoginSecret {
                name: name@,
                expires: *expires,
            },
            ApiRequest::DeleteLoginSecret { name } => ApiRequestView::DeleteLoginSecret {
                name: name@,
            },
            ApiRequest::UpdateUserPermissions { user_id, enabled } => ApiRequestView::UpdateUserPermissions {
                user_id: user_id@,
                enabled: *enabled,
            },
            ApiRequest::UpdateUserPermissionsOnTarget { user_id, target_type, target, permission } => ApiRequestView::UpdateUserPermissionsOnTarget {
                user_id: user_id@,
                target_type: *target_type,
                target: target@,
                permission: *permission,
            },
            ApiRequest::GetPeripheryVersion { server } => ApiRequestView::GetPeripheryVersion {
                server: server@,
            },
            ApiRequest::GetSystemInformation { server } => ApiRequestView::GetSystemInformation {
                server: server@,
            },
            ApiRequest::GetDockerContainers { server } => ApiRequestView::GetDockerContainers {
                server: server@,
            },
            ApiRequest::GetDockerImages { server } => ApiRequestView::GetDockerImages {
                server: server@,
            },
            ApiRequest::GetDockerNetworks { server } => ApiRequestView::GetDockerNetworks {
                server: server@,
            },
            ApiRequest::GetServer { server } => ApiRequestView::GetServer {
                server: server@,
            },
            ApiRequest::ListServers { query } => ApiRequestView::ListServers {
                query: *query,
            },
            ApiRequest::CreateServer { name, config } => ApiRequestView::CreateServer {
                name: name@,
                config: config@,
            },
            ApiRequest::DeleteServer { server } => ApiRequestView::DeleteServer {
                server: server@,
            },
            ApiRequest::UpdateServer { server, config } => ApiRequestView::UpdateServer {
                server: server@,
                config: config@,
            },
            ApiRequest::RenameServer { server, name } => ApiRequestView::RenameServer {
                server: server@,
                name: name@,
            },
            ApiRequest::GetAllSystemStats { server } => ApiRequestView::GetAllSystemStats {
                server: server@,
            },
            ApiRequest::GetBasicSystemStats { server } => ApiRequestView::GetBasicSystemStats {
                server: server@,
            },
            ApiRequest::GetCpuUsage { server } => ApiRequestView::GetCpuUsage {
                server: server@,
            },
            ApiRequest::GetDiskUsage { server } => ApiRequestView::GetDiskUsage {
                server: server@,
            },
            ApiRequest::GetNetworkUsage { server } => ApiRequestView::GetNetworkUsage {
                server: server@,
            },
            ApiRequest::GetSystemProcesses { server } => ApiRequestView::GetSystemProcesses {
                server: server@,
            },
            ApiRequest::GetSystemComponents { server } => ApiRequestView::GetSystemComponents {
                server: server@,
            },
            ApiRequest::PruneContainers { server } => ApiRequestView::PruneContainers {
                server: server@,
            },
            ApiRequest::PruneImages { server } => ApiRequestView::PruneImages {
                server: server@,
            },
            ApiRequest::PruneNetworks { server } => ApiRequestView::PruneNetworks {
                server: server@,
            },
            ApiRequest::GetDeployment { deployment } => ApiRequestView::GetDeployment {
                deployment: deployment@,
            },
            ApiRequest::ListDeployments => ApiRequestView::ListDeployments,
            ApiRequest::CreateDeployment { name, config } => ApiRequestView::CreateDeployment {
                name: name@,
                config: config@,
            },
            ApiRequest::DeleteDeployment { deployment } => ApiRequestView::DeleteDeployment {
                deployment: deployment@,
            },
            ApiRequest::UpdateDeployment { deployment, config } => ApiRequestView::UpdateDeployment {
                deployment: deployment@,
                config: config@,
            },
            ApiRequest::RenameDeployment { deployment, name } => ApiRequestView::RenameDeployment {
                deployment: deployment@,
                name: name@,
            },
            ApiRequest::Deploy { deployment } => ApiRequestView::Deploy {
                deployment: deployment@,
            },
            ApiRequest::StartContainer { deployment } => ApiRequestView::StartContainer {
                deployment: deployment@,
            },
            ApiRequest::StopContainer { deployment } => ApiRequestView::StopContainer {
                deployment: deployment@,
            },
            ApiRequest::RemoveContainer { deployment } => ApiRequestView::RemoveContainer {
                deployment: deployment@,
            },
            ApiRequest::GetBuild { build } => ApiRequestView::GetBuild {
                build: build@,
            },
            ApiRequest::ListBuilds => ApiRequestView::ListBuilds,
            ApiRequest::CreateBuild { name, config } => ApiRequestView::CreateBuild {
                name: name@,
                config: config@,
            },
            ApiRequest::DeleteBuild { build } => ApiRequestView::DeleteBuild {
                build: build@,
            },
            ApiRequest::UpdateBuild { build, config } => ApiRequestView::UpdateBuild {
                build: build@,
                config: config@,
            },
            ApiRequest::RunBuild { build } => ApiRequestView::RunBuild {
                build: build@,
            },
            ApiRequest::GetBuilder { builder } => ApiRequestView::GetBuilder {
                builder: builder@,
            },
            ApiRequest::ListBuilders => ApiRequestView::ListBuilders,
            ApiRequest::CreateBuilder { name, config } => ApiRequestView::CreateBuilder {
                name: name@,
                config: config@,
            },
            ApiRequest::DeleteBuilder { builder } => ApiRequestView::DeleteBuilder {
                builder: builder@,
            },
            ApiRequest::UpdateBuilder { builder, config } => ApiRequestView::UpdateBuilder {
                builder: builder@,
                config: config@,
            },
            ApiRequest::GetRepo { repo } => ApiRequestView::GetRepo {
                repo: repo@,
            },
            ApiRequest::ListRepos => ApiRequestView::ListRepos,
            ApiRequest::CreateRepo { name, config } => ApiRequestView::CreateRepo {
                name: name@,
                config: config@,
            },
            ApiRequest::UpdateRepo { repo, config } => ApiRequestView::UpdateRepo {
                repo: repo@,
                config: config@,
            },
            ApiRequest::DeleteRepo { repo } => ApiRequestView::DeleteRepo {
                repo: repo@,
            },
            ApiRequest::CloneRepo { repo } => ApiRequestView::CloneRepo {
                repo: repo@,
            },
            ApiRequest::PullRepo { repo } => ApiRequestView::PullRepo {
                repo: repo@,
            },
        }
    }
}

impl ApiRequestView {
    /// The operation that is asked for.
    pub open spec fn operation(self) -> Operation {
        match self {
            ApiRequestView::CreateLoginSecret { .. } => Operation::CreateLoginSecret,
            ApiRequestView::DeleteLoginSecret { .. } => Operation::DeleteLoginSecret,
            ApiRequestView::UpdateUserPermissions { .. } => Operation::UpdateUserPermissions,
            ApiRequestView::UpdateUserPermissionsOnTarget { .. } => Operation::UpdateUserPermissionsOnTarget,
            ApiRequestView::GetPeripheryVersion { .. } => Operation::GetPeripheryVersion,
            ApiRequestView::GetSystemInformation { .. } => Operation::GetSystemInformation,
            ApiRequestView::GetDockerContainers { .. } => Operation::GetDockerContainers,
            ApiRequestView::GetDockerImages { .. } => Operation::GetDockerImages,
            ApiRequestView::GetDockerNetworks { .. } => Operation::GetDockerNetworks,
            ApiRequestView::GetServer { .. } => Operation::GetServer,
            ApiRequestView::ListServers { .. } => Operation::ListServers,
            ApiRequestView::CreateServer { .. } => Operation::CreateServer,
            ApiRequestView::DeleteServer { .. } => Operation::DeleteServer,
            ApiRequestView::UpdateServer { .. } => Operation::UpdateServer,
            ApiRequestView::RenameServer { .. } => Operation::RenameServer,
            ApiRequestView::GetAllSystemStats { .. } => Operation::GetAllSystemStats,
            ApiRequestView::GetBasicSystemStats { .. } => Operation::GetBasicSystemStats,
            ApiRequestView::GetCpuUsage { .. } => Operation::GetCpuUsage,
            ApiRequestView::GetDiskUsage { .. } => Operation::GetDiskUsage,
            ApiRequestView::GetNetworkUsage { .. } => Operation::GetNetworkUsage,
            ApiRequestView::GetSystemProcesses { .. } => Operation::GetSystemProcesses,
            ApiRequestView::GetSystemComponents { .. } => Operation::GetSystemComponents,
            ApiRequestView::PruneContainers { .. } => Operation::PruneContainers,
            ApiRequestView::PruneImages { .. } => Operation::PruneImages,
            ApiRequestView::PruneNetworks { .. } => Operation::PruneNetworks,
            ApiRequestView::GetDeployment { .. } => Operation::GetDeployment,
            ApiRequestView::ListDeployments => Operation::ListDeployments,
            ApiRequestView::CreateDeployment { .. } => Operation::CreateDeployment,
            ApiRequestView::DeleteDeployment { .. } => Operation::DeleteDeployment,
            ApiRequestView::UpdateDeployment { .. } => Operation::UpdateDeployment,
            ApiRequestView::RenameDeployment { .. } => Operation::RenameDeployment,
            ApiRequestView::Deploy { .. } => Operation::Deploy,
            ApiRequestView::StartContainer { .. } => Operation::StartContainer,
            ApiRequestView::StopContainer { .. } => Operation::StopContainer,
            ApiRequestView::RemoveContainer { .. } => Operation::RemoveContainer,
            ApiRequestView::GetBuild { .. } => Operation::GetBuild,
            ApiRequestView::ListBuilds => Operation::ListBuilds,
            ApiRequestView::CreateBuild { .. } => Operation::CreateBuild,
            ApiRequestView::DeleteBuild { .. } => Operation::DeleteBuild,
            ApiRequestView::UpdateBuild { .. } => Operation::UpdateBuild,
            ApiRequestView::RunBuild { .. } => Operation::RunBuild,
            ApiRequestView::GetBuilder { .. } => Operation::GetBuilder,
            ApiRequestView::ListBuilders => Operation::ListBuilders,
            ApiRequestView::CreateBuilder { .. } => Operation::CreateBuilder,
            ApiRequestView::DeleteBuilder { .. } => Operation::DeleteBuilder,
            ApiRequestView::UpdateBuilder { .. } => Operation::UpdateBuilder,
            ApiRequestView::GetRepo { .. } => Operation::GetRepo,
            ApiRequestView::ListRepos => Operation::ListRepos,
            ApiRequestView::CreateRepo { .. } => Operation::CreateRepo,
            ApiRequestView::UpdateRepo { .. } => Operation::UpdateRepo,
            ApiRequestView::DeleteRepo { .. } => Operation::DeleteRepo,
            ApiRequestView::CloneRepo { .. } => Operation::CloneRepo,
            ApiRequestView::PullRepo { .. } => Operation::PullRepo,
        }
    }

    /// The resource that the request is about, where it is about one that
    /// exists: its family and what the request calls it.
    pub open spec fn subject(self) -> Option<(ResourceType, Seq<char>)> {
        match self {
            ApiRequestView::GetPeripheryVersion { server, .. } => Some((ResourceType::Server, server)),
            ApiRequestView::GetSystemInformation { server, .. } => Some((ResourceType::Server, server)),
            ApiRequestView::GetDockerContainers { server, .. } => Some((ResourceType::Server, server)),
            ApiRequestView::GetDockerImages { server, .. } => Some((ResourceType::Server, server)),
            ApiRequestView::GetDockerNetworks { server, .. } => Some((ResourceType::Server, server)),
            ApiRequestView::GetServer { server, .. } => Some((ResourceType::Server, server)),
            ApiRequestView::DeleteServer { server, .. } => Some((ResourceType::Server, server)),
            ApiRequestView::UpdateServer { server, .. } => Some((ResourceType::Server, server)),
            ApiRequestView::RenameServer { server, .. } => Some((ResourceType::Server, server)),
            ApiRequestView::GetAllSystemStats { server, .. } => Some((ResourceType::Server, server)),
            ApiRequestView::GetBasicSystemStats { server, .. } => Some((ResourceType::Server, server)),
            ApiRequestView::GetCpuUsage { server, .. } => Some((ResourceType::Server, server)),
            ApiRequestView::GetDiskUsage { server, .. } => Some((ResourceType::Server, server)),
            ApiRequestView::GetNetworkUsage { server, .. } => Some((ResourceType::Server, server)),
            ApiRequestView::GetSystemProcesses { server, .. } => Some((ResourceType::Server, server)),
            ApiRequestView::GetSystemComponents { server, .. } => Some((ResourceType::Server, server)),
            ApiRequestView::PruneContainers { server, .. } => Some((ResourceType::Server, server)),
            ApiRequestView::PruneImages { server, .. } => Some((ResourceType::Server, server)),
            ApiRequestView::PruneNetworks { server, .. } => Some((ResourceType::Server, server)),
            ApiRequestView::GetDeployment { deployment, .. } => Some((ResourceType::Deployment, deployment)),
            ApiRequestView::DeleteDeployment { deployment, .. } => Some((ResourceType::Deployment, deployment)),
            ApiRequestView::UpdateDeployment { deployment, .. } => Some((ResourceType::Deployment, deployment)),
            ApiRequestView::RenameDeployment { deployment, .. } => Some((ResourceType::Deployment, deployment)),
            ApiRequestView::Deploy { deployment, .. } => Some((ResourceType::Deployment, deployment)),
            ApiRequestView::StartContainer { deployment, .. } => Some((ResourceType::Deployment, deployment)),
            ApiRequestView::StopContainer { deployment, .. } => Some((ResourceType::Deployment, deployment)),
            ApiRequestView::RemoveContainer { deployment, .. } => Some((ResourceType::Deployment, deployment)),
            ApiRequestView::GetBuild { build, .. } => Some((ResourceType::Build, build)),
            ApiRequestView::DeleteBuild { build, .. } => Some((ResourceType::Build, build)),
            ApiRequestView::UpdateBuild { build, .. } => Some((ResourceType::Build, build)),
            ApiRequestView::RunBuild { build, .. } => Some((ResourceType::Build, build)),
            ApiRequestView::GetBuilder { builder, .. } => Some((ResourceType::Builder, builder)),
            ApiRequestView::DeleteBuilder { builder, .. } => Some((ResourceType::Builder, builder)),
            ApiRequestView::UpdateBuilder { builder, .. } => Some((ResourceType::Builder, builder)),
            ApiRequestView::GetRepo { repo, .. } => Some((ResourceType::Repo, repo)),
            ApiRequestView::UpdateRepo { repo, .. } => Some((ResourceType::Repo, repo)),
            ApiRequestView::DeleteRepo { repo, .. } => Some((ResourceType::Repo, repo)),
            ApiRequestView::CloneRepo { repo, .. } => Some((ResourceType::Repo, repo)),
            ApiRequestView::PullRepo { repo, .. } => Some((ResourceType::Repo, repo)),
            ApiRequestView::UpdateUserPermissionsOnTarget { target_type, target, .. } => Some(
                (target_type, target),
            ),
            _ => None,
        }
    }

    /// The name that the request gives to a resource: the name of the one it
    /// makes, or the new name of the one it renames.
    pub open spec fn new_name(self) -> Option<Seq<char>> {
        match self {
            ApiRequestView::CreateServer { name, .. } => Some(name),
            ApiRequestView::RenameServer { name, .. } => Some(name),
            ApiRequestView::CreateDeployment { name, .. } => Some(name),
            ApiRequestView::RenameDeployment { name, .. } => Some(name),
            ApiRequestView::CreateBuild { name, .. } => Some(name),
            ApiRequestView::CreateBuilder { name, .. } => Some(name),
            ApiRequestView::CreateRepo { name, .. } => Some(name),
            _ => None,
        }
    }
}

impl ApiRequest {
    /// The operation that is asked for.
    pub fn operation(&self) -> (op: Operation)
        ensures
            op == self@.operation(),
    {
        match self {
            ApiRequest::CreateLoginSecret { .. } => Operation::CreateLoginSecret,
            ApiRequest::DeleteLoginSecret { .. } => Operation::DeleteLoginSecret,
            ApiRequest::UpdateUserPermissions { .. } => Operation::UpdateUserPermissions,
            ApiRequest::UpdateUserPermissionsOnTarget { .. } => Operation::UpdateUserPermissionsOnTarget,
            ApiRequest::GetPeripheryVersion { .. } => Operation::GetPeripheryVersion,
            ApiRequest::GetSystemInformation { .. } => Operation::GetSystemInformation,
            ApiRequest::GetDockerContainers { .. } => Operation::GetDockerContainers,
            ApiRequest::GetDockerImages { .. } => Operation::GetDockerImages,
            ApiRequest::GetDockerNetworks { .. } => Operation::GetDockerNetworks,
            ApiRequest::GetServer { .. } => Operation::GetServer,
            ApiRequest::ListServers { .. } => Operation::ListServers,
            ApiRequest::CreateServer { .. } => Operation::CreateServer,
            ApiRequest::DeleteServer { .. } => Operation::DeleteServer,
            ApiRequest::UpdateServer { .. } => Operation::UpdateServer,
            ApiRequest::RenameServer { .. } => Operation::RenameServer,
            ApiRequest::GetAllSystemStats { .. } => Operation::GetAllSystemStats,
            ApiRequest::GetBasicSystemStats { .. } => Operation::GetBasicSystemStats,
            ApiRequest::GetCpuUsage { .. } => Operation::GetCpuUsage,
            ApiRequest::GetDiskUsage { .. } => Operation::GetDiskUsage,
            ApiRequest::GetNetworkUsage { .. } => Operation::GetNetworkUsage,
            ApiRequest::GetSystemProcesses { .. } => Operation::GetSystemProcesses,
            ApiRequest::GetSystemComponents { .. } => Operation::GetSystemComponents,
            ApiRequest::PruneContainers { .. } => Operation::PruneContainers,
            ApiRequest::PruneImages { .. } => Operation::PruneImages,
            ApiRequest::PruneNetworks { .. } => Operation::PruneNetworks,
            ApiRequest::GetDeployment { .. } => Operation::GetDeployment,
            ApiRequest::ListDeployments => Operation::ListDeployments,
            ApiRequest::CreateDeployment { .. } => Operation::CreateDeployment,
            ApiRequest::DeleteDeployment { .. } => Operation::DeleteDeployment,
            ApiRequest::UpdateDeployment { .. } => Operation::UpdateDeployment,
            ApiRequest::RenameDeployment { .. } => Operation::RenameDeployment,
            ApiRequest::Deploy { .. } => Operation::Deploy,
            ApiRequest::StartContainer { .. } => Operation::StartContainer,
            ApiRequest::StopContainer { .. } => Operation::StopContainer,
            ApiRequest::RemoveContainer { .. } => Operation::RemoveContainer,
            ApiRequest::GetBuild { .. } => Operation::GetBuild,
            ApiRequest::ListBuilds => Operation::ListBuilds,
            ApiRequest::CreateBuild { .. } => Operation::CreateBuild,
            ApiRequest::DeleteBuild { .. } => Operation::DeleteBuild,
            ApiRequest::UpdateBuild { .. } => Operation::UpdateBuild,
            ApiRequest::RunBuild { .. } => Operation::RunBuild,
            ApiRequest::GetBuilder { .. } => Operation::GetBuilder,
            ApiRequest::ListBuilders => Operation::ListBuilders,
            ApiRequest::CreateBuilder { .. } => Operation::CreateBuilder,
            ApiRequest::DeleteBuilder { .. } => Operation::DeleteBuilder,
            ApiRequest::UpdateBuilder { .. } => Operation::UpdateBuilder,
            ApiRequest::GetRepo { .. } => Operation::GetRepo,
            ApiRequest::ListRepos => Operation::ListRepos,
            ApiRequest::CreateRepo { .. } => Operation::CreateRepo,
            ApiRequest::UpdateRepo { .. } => Operation::UpdateRepo,
            ApiRequest::DeleteRepo { .. } => Operation::DeleteRepo,
            ApiRequest::CloneRepo { .. } => Operation::CloneRepo,
            ApiRequest::PullRepo { .. } => Operation::PullRepo,
        }
    }

    /// The resource that the request is about, where it is about one that
    /// exists.
    pub fn subject(&self) -> (s: Option<(ResourceType, &String)>)
        ensures
            match s {
                Some((t, reference)) => self@.subject() == Some((t, reference@)),
                None => self@.subject() is None,
            },
    {
        match self {
            ApiRequest::GetPeripheryVersion { server, .. } => Some((ResourceType::Server, server)),
            ApiRequest::GetSystemInformation { server, .. } => Some((ResourceType::Server, server)),
            ApiRequest::GetDockerContainers { server, .. } => Some((ResourceType::Server, server)),
            ApiRequest::GetDockerImages { server, .. } => Some((ResourceType::Server, server)),
            ApiRequest::GetDockerNetworks { server, .. } => Some((ResourceType::Server, server)),
            ApiRequest::GetServer { server, .. } => Some((ResourceType::Server, server)),
            ApiRequest::DeleteServer { server, .. } => Some((ResourceType::Server, server)),
            ApiRequest::UpdateServer { server, .. } => Some((ResourceType::Server, server)),
            ApiRequest::RenameServer { server, .. } => Some((ResourceType::Server, server)),
            ApiRequest::GetAllSystemStats { server, .. } => Some((ResourceType::Server, server)),
            ApiRequest::GetBasicSystemStats { server, .. } => Some((ResourceType::Server, server)),
            ApiRequest::GetCpuUsage { server, .. } => Some((ResourceType::Server, server)),
            ApiRequest::GetDiskUsage { server, .. } => Some((ResourceType::Server, server)),
            ApiRequest::GetNetworkUsage { server, .. } => Some((ResourceType::Server, server)),
            ApiRequest::GetSystemProcesses { server, .. } => Some((ResourceType::Server, server)),
            ApiRequest::GetSystemComponents { server, .. } => Some((ResourceType::Server, server)),
            ApiRequest::PruneContainers { server, .. } => Some((ResourceType::Server, server)),
            ApiRequest::PruneImages { server, .. } => Some((ResourceType::Server, server)),
            ApiRequest::PruneNetworks { server, .. } => Some((ResourceType::Server, server)),
            ApiRequest::GetDeployment { deployment, .. } => Some((ResourceType::Deployment, deployment)),
            ApiRequest::DeleteDeployment { deployment, .. } => Some((ResourceType::Deployment, deployment)),
            ApiRequest::UpdateDeployment { deployment, .. } => Some((ResourceType::Deployment, deployment)),
            ApiRequest::RenameDeployment { deployment, .. } => Some((ResourceType::Deployment, deployment)),
            ApiRequest::Deploy { deployment, .. } => Some((ResourceType::Deployment, deployment)),
            ApiRequest::StartContainer { deployment, .. } => Some((ResourceType::Deployment, deployment)),
            ApiRequest::StopContainer { deployment, .. } => Some((ResourceType::Deployment, deployment)),
            ApiRequest::RemoveContainer { deployment, .. } => Some((ResourceType::Deployment, deployment)),
            ApiRequest::GetBuild { build, .. } => Some((ResourceType::Build, build)),
            ApiRequest::DeleteBuild { build, .. } => Some((ResourceType::Build, build)),
            ApiRequest::UpdateBuild { build, .. } => Some((ResourceType::Build, build)),
            ApiRequest::RunBuild { build, .. } => Some((ResourceType::Build, build)),
            ApiRequest::GetBuilder { builder, .. } => Some((ResourceType::Builder, builder)),
            ApiRequest::DeleteBuilder { builder, .. } => Some((ResourceType::Builder, builder)),
            ApiRequest::UpdateBuilder { builder, .. } => Some((ResourceType::Builder, builder)),
            ApiRequest::GetRepo { repo, .. } => Some((ResourceType::Repo, repo)),
            ApiRequest::UpdateRepo { repo, .. } => Some((ResourceType::Repo, repo)),
            ApiRequest::DeleteRepo { repo, .. } => Some((ResourceType::Repo, repo)),
            ApiRequest::CloneRepo { repo, .. } => Some((ResourceType::Repo, repo)),
            ApiRequest::PullRepo { repo, .. } => Some((ResourceType::Repo, repo)),
            ApiRequest::UpdateUserPermissionsOnTarget { target_type, target, .. } => Some(
                (*target_type, target),
            ),
            _ => None,
        }
    }

    /// The name that the request gives to a resource.
    pub fn new_name(&self) -> (n: Option<&String>)
        ensures
            match n {
                Some(name) => self@.new_name() == Some(name@),
                None => self@.new_name() is None,
            },
    {
        match self {
            ApiRequest::CreateServer { name, .. } => Some(name),
            ApiRequest::RenameServer { name, .. } => Some(name),
            ApiRequest::CreateDeployment { name, .. } => Some(name),
            ApiRequest::RenameDeployment { name, .. } => Some(name),
            ApiRequest::CreateBuild { name, .. } => Some(name),
            ApiRequest::CreateBuilder { name, .. } => Some(name),
            ApiRequest::CreateRepo { name, .. } => Some(name),
            _ => None,
        }
    }
}

/// Every operation that is about a resource that exists names it, and the
/// operations that make or list resources name none.
pub proof fn subject_follows_the_class(request: ApiRequestView)
    ensures
        match request.operation().class() {
            OperationClass::Get
            | OperationClass::Update
            | OperationClass::Rename
            | OperationClass::Delete
            | OperationClass::AgentRead
            | OperationClass::Action => request.subject() is Some && request.operation().family()
                == Some(request.subject().unwrap().0),
            OperationClass::Create => request.subject() is None && request.new_name() is Some,
            OperationClass::List | OperationClass::Secret => request.subject() is None,
            OperationClass::Permission => true,
        },
{
}

} // verus!
