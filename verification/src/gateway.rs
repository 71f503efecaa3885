//! The gateway: one request in, one answer out.
//!
//! A request is first authorized and then performed. Authorizing finds the
//! resource that the request names and asks whether the caller may do to it
//! what the operation does; performing reads or changes the state, or says
//! which call is to be made to the agent of a server. The caller makes that
//! call and hands the outcome to [`complete`].
use vstd::prelude::*;
use crate::auth::{Directory, DirectoryView, LoginSecret, LoginSecretView, UserRecord};
use crate::channel::{Topic, TopicView};
use crate::entities::{
    Build, BuildConfig, BuildConfigView, BuildView, Builder, BuilderConfig, BuilderConfigView,
    BuilderView, Deployment, DeploymentConfig, DeploymentConfigView, DeploymentView,
    PlainListItem, PlainListItemView, Repo, RepoConfig, RepoConfigView, RepoView,
};
use crate::error::{ApiError, ApiErrorView, Entity, Failure, FailureView, Requirement};
use crate::json::{Json, JsonValue};
use crate::periphery::{
    container_named, get_request, post_request, reply_of, AgentOutcome, AgentOutcomeView,
    PeripheryClient, PeripheryClientView, PeripheryRequest, PeripheryRequestView,
};
use crate::permission::{
    permits, GrantView, PermissionLevel, RequestUser, RequestUserView, ResourceType,
};
use crate::request::{ApiRequest, ApiRequestView, Operation, OperationClass};
use crate::resource::{
    entries, grants_in, listing, visible, Collection, CollectionView, Duplicate, ResourceView,
};
use crate::server::{
    Server, ServerConfig, ServerConfigView, ServerListItem, ServerListItemInfo,
    ServerListItemInfoView, ServerListItemView, ServerStatus, ServerView,
};

verus! {

/// What a request is answered with when it succeeds.
#[derive(Debug, PartialEq, Eq)]
pub enum Response {
    Server(Server),
    Servers(Vec<ServerListItem>),
    Deployment(Deployment),
    Deployments(Vec<PlainListItem>),
    Build(Build),
    Builds(Vec<PlainListItem>),
    Builder(Builder),
    Builders(Vec<PlainListItem>),
    Repo(Repo),
    Repos(Vec<PlainListItem>),
    /// The document that the agent of a server sent.
    Agent(Json),
    /// A login secret that was just made: its key, and the secret itself,
    /// which is shown this once.
    Secret { key: String, secret: String },
    /// Nothing but the success.
    Done,
}

/// A [`Response`] as plain values.
pub enum ResponseView {
    Server(ServerView),
    Servers(Seq<ServerListItemView>),
    Deployment(DeploymentView),
    Deployments(Seq<PlainListItemView>),
    Build(BuildView),
    Builds(Seq<PlainListItemView>),
    Builder(BuilderView),
    Builders(Seq<PlainListItemView>),
    Repo(RepoView),
    Repos(Seq<PlainListItemView>),
    Agent(JsonValue),
    Secret { key: Seq<char>, secret: Seq<char> },
    Done,
}

impl View for Response {
    type V = ResponseView;

    open spec fn view(&self) -> ResponseView {
        match self {
            Response::Server(r) => ResponseView::Server(r@),
            Response::Servers(items) => ResponseView::Servers(entries(items@)),
            Response::Deployment(r) => ResponseView::Deployment(r@),
            Response::Deployments(items) => ResponseView::Deployments(entries(items@)),
            Response::Build(r) => ResponseView::Build(r@),
            Response::Builds(items) => ResponseView::Builds(entries(items@)),
            Response::Builder(r) => ResponseView::Builder(r@),
            Response::Builders(items) => ResponseView::Builders(entries(items@)),
            Response::Repo(r) => ResponseView::Repo(r@),
            Response::Repos(items) => ResponseView::Repos(entries(items@)),
            Response::Agent(body) => ResponseView::Agent(body@),
            Response::Secret { key, secret } => ResponseView::Secret { key: key@, secret: secret@ },
            Response::Done => ResponseView::Done,
        }
    }
}

/// What the gateway has done with a request that it let through: answered
/// it, or left the caller something to do first.
#[derive(Debug, PartialEq, Eq)]
pub enum Step {
    /// The request is answered.
    Done(Response),
    /// `request` is to be sent to the agent; [`complete`] makes the answer
    /// from what comes back.
    Agent { operation: Operation, request: PeripheryRequest },
    /// A login secret of this name is to be made for the user and handed to
    /// [`State::store_secret`].
    IssueSecret { user_id: String, name: String, expires: Option<i64> },
}

/// A [`Step`] as plain values.
pub enum StepView {
    Done(ResponseView),
    Agent { operation: Operation, request: PeripheryRequestView },
    IssueSecret { user_id: Seq<char>, name: Seq<char>, expires: Option<i64> },
}

impl View for Step {
    type V = StepView;

    open spec fn view(&self) -> StepView {
        match self {
            Step::Done(response) => StepView::Done(response@),
            Step::Agent { operation, request } => StepView::Agent {
                operation: *operation,
                request: request@,
            },
            Step::IssueSecret { user_id, name, expires } => StepView::IssueSecret {
                user_id: user_id@,
                name: name@,
                expires: *expires,
            },
        }
    }
}

/// A step or a failure as plain values.
pub open spec fn step_view(r: Result<Step, ApiError>) -> Result<StepView, ApiErrorView> {
    match r {
        Ok(step) => Ok(step@),
        Err(e) => Err(e@),
    }
}

/// A response or a failure as plain values.
pub open spec fn response_view(r: Result<Response, ApiError>) -> Result<ResponseView, ApiErrorView> {
    match r {
        Ok(response) => Ok(response@),
        Err(e) => Err(e@),
    }
}

/// Everything that the core knows: the resources of each family, the
/// directory of users, and the client that speaks to the agents.
#[derive(Debug, PartialEq, Eq)]
pub struct State {
    servers: Collection<ServerConfig, ServerListItemInfo>,
    deployments: Collection<DeploymentConfig, ()>,
    builds: Collection<BuildConfig, ()>,
    builders: Collection<BuilderConfig, ()>,
    repos: Collection<RepoConfig, ()>,
    directory: Directory,
    periphery: PeripheryClient,
}

/// A [`State`] as plain values.
pub struct StateView {
    pub servers: CollectionView<ServerConfigView, ServerListItemInfoView>,
    pub deployments: CollectionView<DeploymentConfigView, ()>,
    pub builds: CollectionView<BuildConfigView, ()>,
    pub builders: CollectionView<BuilderConfigView, ()>,
    pub repos: CollectionView<RepoConfigView, ()>,
    pub directory: DirectoryView,
    /// The client that speaks to the agents.
    pub periphery: PeripheryClientView,
}

impl View for State {
    type V = StateView;

    closed spec fn view(&self) -> StateView {
        StateView {
            servers: self.servers@,
            deployments: self.deployments@,
            builds: self.builds@,
            builders: self.builders@,
            repos: self.repos@,
            directory: self.directory@,
            periphery: self.periphery@,
        }
    }
}

/// A resource that a request names, as far as authorizing looks at it.
pub struct TargetView {
    pub place: int,
    pub id: Seq<char>,
    pub permissions: Seq<GrantView>,
}

/// The resource of `c` that `reference` stands for.
pub open spec fn target_in<C, I>(c: CollectionView<C, I>, reference: Seq<char>) -> Option<TargetView> {
    match c.find(reference) {
        Some(place) => Some(
            TargetView { place, id: c.items[place].id, permissions: c.items[place].permissions },
        ),
        None => None,
    }
}

impl StateView {
    /// What holds of the state at all times: every collection is well
    /// formed, and what is known of a server follows from its settings, with
    /// the status `Disabled` exactly where the server is not enabled.
    pub open spec fn wf(self) -> bool {
        &&& self.servers.wf()
        &&& self.deployments.wf()
        &&& self.builds.wf()
        &&& self.builders.wf()
        &&& self.repos.wf()
        &&& forall|i: int|
            0 <= i < self.servers.items.len() ==> server_is_consistent(#[trigger] self.servers.items[i])
    }

    /// How many resources of a family there are.
    pub open spec fn count(self, family: ResourceType) -> nat {
        match family {
            ResourceType::Server => self.servers.items.len(),
            ResourceType::Deployment => self.deployments.items.len(),
            ResourceType::Build => self.builds.items.len(),
            ResourceType::Builder => self.builders.items.len(),
            ResourceType::Repo => self.repos.items.len(),
        }
    }

    /// The resource of a family that `reference` stands for.
    pub open spec fn target(self, family: ResourceType, reference: Seq<char>) -> Option<TargetView> {
        match family {
            ResourceType::Server => target_in(self.servers, reference),
            ResourceType::Deployment => target_in(self.deployments, reference),
            ResourceType::Build => target_in(self.builds, reference),
            ResourceType::Builder => target_in(self.builders, reference),
            ResourceType::Repo => target_in(self.repos, reference),
        }
    }

    /// The grants of the resource of a family at `place`.
    pub open spec fn grants_at(self, family: ResourceType, place: int) -> Seq<GrantView> {
        match family {
            ResourceType::Server => self.servers.items[place].permissions,
            ResourceType::Deployment => self.deployments.items[place].permissions,
            ResourceType::Build => self.builds.items[place].permissions,
            ResourceType::Builder => self.builders.items[place].permissions,
            ResourceType::Repo => self.repos.items[place].permissions,
        }
    }

    /// The grants of the resource of a family with this id, where there is
    /// one.
    pub open spec fn grants_of(self, family: ResourceType, id: Seq<char>) -> Option<Seq<GrantView>> {
        match family {
            ResourceType::Server => grants_in(self.servers, id),
            ResourceType::Deployment => grants_in(self.deployments, id),
            ResourceType::Build => grants_in(self.builds, id),
            ResourceType::Builder => grants_in(self.builders, id),
            ResourceType::Repo => grants_in(self.repos, id),
        }
    }

    /// The state with `level` recorded for `user_id` on the resource of a
    /// family at `place`.
    pub open spec fn granted(
        self,
        family: ResourceType,
        place: int,
        user_id: Seq<char>,
        level: PermissionLevel,
    ) -> StateView {
        match family {
            ResourceType::Server => StateView {
                servers: self.servers.granted(place, user_id, level),
                ..self
            },
            ResourceType::Deployment => StateView {
                deployments: self.deployments.granted(place, user_id, level),
                ..self
            },
            ResourceType::Build => StateView {
                builds: self.builds.granted(place, user_id, level),
                ..self
            },
            ResourceType::Builder => StateView {
                builders: self.builders.granted(place, user_id, level),
                ..self
            },
            ResourceType::Repo => StateView {
                repos: self.repos.granted(place, user_id, level),
                ..self
            },
        }
    }

    /// The state after a probe found the agent of the server that
    /// `reference` stands for `reachable` or not; unchanged where there is
    /// no such server.
    pub open spec fn probed(self, reference: Seq<char>, reachable: bool) -> StateView {
        match self.servers.find(reference) {
            None => self,
            Some(place) => {
                let held = self.servers.items[place];
                StateView {
                    servers: self.servers.configured(
                        place,
                        held.config,
                        ServerListItemInfoView {
                            status: held.info.status.with_probe(reachable),
                            ..held.info
                        },
                    ),
                    ..self
                }
            },
        }
    }

    /// The state with one more login secret, and the answer to the request
    /// that asked for it, which shows the key and `plain`, the secret that
    /// was hashed. A secret that cannot be added changes nothing.
    pub open spec fn secret_stored(self, secret: LoginSecretView, plain: Seq<char>) -> (
        StateView,
        Result<ResponseView, ApiErrorView>,
    ) {
        if self.directory.can_add_secret(secret) {
            (
                StateView { directory: self.directory.with_secret(secret), ..self },
                Ok(ResponseView::Secret { key: secret.key, secret: plain }),
            )
        } else {
            (self, Err(conflict(Entity::LoginSecret, secret.name)))
        }
    }

    /// The topic that `user` listens to by asking for the resource of a
    /// family that `reference` stands for: the resource under its id, where
    /// there is one and `user` may read it, and otherwise none.
    pub open spec fn topic_for(
        self,
        user: RequestUserView,
        family: ResourceType,
        reference: Seq<char>,
    ) -> Option<TopicView> {
        match self.target(family, reference) {
            Some(target) => if permits(user, target.permissions, PermissionLevel::Read) {
                Some(TopicView { family, resource: target.id })
            } else {
                None
            },
            None => None,
        }
    }
}

/// A call that asks the agent of a server how the host is doing.
#[derive(Debug, PartialEq, Eq)]
pub struct Probe {
    /// The id of the server.
    pub server_id: String,
    pub request: PeripheryRequest,
}

/// A [`Probe`] as plain values.
pub struct ProbeView {
    pub server_id: Seq<char>,
    pub request: PeripheryRequestView,
}

impl View for Probe {
    type V = ProbeView;

    open spec fn view(&self) -> ProbeView {
        ProbeView { server_id: self.server_id@, request: self.request@ }
    }
}

/// The probes of a round of polling: one for each server that is not
/// disabled, in the order of the servers.
pub open spec fn probes_of(servers: Seq<ServerView>, client: PeripheryClientView) -> Seq<ProbeView>
    decreases servers.len(),
{
    if servers.len() == 0 {
        Seq::empty()
    } else {
        let rest = probes_of(servers.drop_last(), client);
        let server = servers.last();
        if server.info.status == ServerStatus::Disabled {
            rest
        } else {
            rest.push(
                ProbeView {
                    server_id: server.id,
                    request: get_request(
                        client,
                        server,
                        agent_path(Operation::GetBasicSystemStats),
                    ),
                },
            )
        }
    }
}

/// Whether what is known of a server follows from its settings.
pub open spec fn server_is_consistent(server: ServerView) -> bool {
    &&& server.info == ServerListItemInfoView::derived(server.config, server.info.status)
    &&& (server.info.status == ServerStatus::Disabled) == !server.config.enabled
}

/// The path of the call that an operation makes to an agent; empty for an
/// operation that makes none.
pub open spec fn agent_path(operation: Operation) -> Seq<char> {
    match operation {
        Operation::GetPeripheryVersion => "/version"@,
        Operation::GetSystemInformation => "/system/information"@,
        Operation::GetDockerContainers => "/container/list"@,
        Operation::GetDockerImages => "/image/list"@,
        Operation::GetDockerNetworks => "/network/list"@,
        Operation::GetAllSystemStats => "/stats/all"@,
        Operation::GetBasicSystemStats => "/stats/basic"@,
        Operation::GetCpuUsage => "/stats/cpu"@,
        Operation::GetDiskUsage => "/stats/disk"@,
        Operation::GetNetworkUsage => "/stats/network"@,
        Operation::GetSystemProcesses => "/stats/processes"@,
        Operation::GetSystemComponents => "/stats/components"@,
        Operation::PruneContainers => "/container/prune"@,
        Operation::PruneImages => "/image/prune"@,
        Operation::PruneNetworks => "/network/prune"@,
        Operation::Deploy => "/container/deploy"@,
        Operation::StartContainer => "/container/start"@,
        Operation::StopContainer => "/container/stop"@,
        Operation::RemoveContainer => "/container/remove"@,
        Operation::RunBuild => "/build"@,
        Operation::CloneRepo => "/git/clone"@,
        Operation::PullRepo => "/git/pull"@,
        _ => ""@,
    }
}

/// The path of the call that an operation makes to an agent.
pub fn agent_path_of(operation: Operation) -> (path: &'static str)
    ensures
        path@ == agent_path(operation),
{
    match operation {
        Operation::GetPeripheryVersion => "/version",
        Operation::GetSystemInformation => "/system/information",
        Operation::GetDockerContainers => "/container/list",
        Operation::GetDockerImages => "/image/list",
        Operation::GetDockerNetworks => "/network/list",
        Operation::GetAllSystemStats => "/stats/all",
        Operation::GetBasicSystemStats => "/stats/basic",
        Operation::GetCpuUsage => "/stats/cpu",
        Operation::GetDiskUsage => "/stats/disk",
        Operation::GetNetworkUsage => "/stats/network",
        Operation::GetSystemProcesses => "/stats/processes",
        Operation::GetSystemComponents => "/stats/components",
        Operation::PruneContainers => "/container/prune",
        Operation::PruneImages => "/image/prune",
        Operation::PruneNetworks => "/network/prune",
        Operation::Deploy => "/container/deploy",
        Operation::StartContainer => "/container/start",
        Operation::StopContainer => "/container/stop",
        Operation::RemoveContainer => "/container/remove",
        Operation::RunBuild => "/build",
        Operation::CloneRepo => "/git/clone",
        Operation::PullRepo => "/git/pull",
        _ => "",
    }
}

/// The failure of a caller who may not do what it asked.
pub open spec fn denied(entity: Entity, reference: Seq<char>, required: Requirement) -> ApiErrorView {
    ApiErrorView::plain(FailureView::PermissionDenied { entity, reference, required })
}

/// The failure of a request that names what does not exist.
pub open spec fn not_found(entity: Entity, reference: Seq<char>) -> ApiErrorView {
    ApiErrorView::plain(FailureView::NotFound { entity, reference })
}

/// The failure of a request that asks for a name that is taken.
pub open spec fn conflict(entity: Entity, reference: Seq<char>) -> ApiErrorView {
    ApiErrorView::plain(FailureView::Conflict { entity, reference })
}

/// The failure that was not foreseen.
pub open spec fn internal() -> ApiErrorView {
    ApiErrorView::plain(FailureView::Internal)
}

fn fail(failure: Failure) -> (e: ApiError)
    ensures
        e@ == ApiErrorView::plain(failure@),
{
    ApiError::new(failure)
}

/// What a request is about, for the report of a refusal: the resource it
/// names, or the name of the one it makes, or the user or login secret it
/// speaks of.
pub open spec fn concerns(request: ApiRequestView) -> (Entity, Seq<char>) {
    match request {
        ApiRequestView::CreateLoginSecret { name, .. } | ApiRequestView::DeleteLoginSecret { name } => (
            Entity::LoginSecret,
            name,
        ),
        ApiRequestView::UpdateUserPermissions { user_id, .. } => (Entity::User, user_id),
        _ => match request.subject() {
            Some((family, reference)) => (Entity::resource(family), reference),
            None => match (request.operation().family(), request.new_name()) {
                (Some(family), Some(name)) => (Entity::resource(family), name),
                (Some(family), None) => (Entity::resource(family), Seq::empty()),
                _ => (Entity::User, Seq::empty()),
            },
        },
    }
}

/// Whether `user` may act at `required` on the resource of a family that
/// `reference` stands for. An administrator always may. Anyone else may
/// exactly where the level recorded for that very resource covers `required`;
/// where it does not, the refusal names the resource as it was asked for and
/// the level that was required. Where nothing goes by that id or name, the
/// failure is `NotFound`.
pub open spec fn checked(
    state: StateView,
    user: RequestUserView,
    family: ResourceType,
    reference: Seq<char>,
    required: PermissionLevel,
) -> Result<(), ApiErrorView> {
    match state.target(family, reference) {
        None => Err(not_found(Entity::resource(family), reference)),
        Some(target) => if permits(user, target.permissions, required) {
            Ok(())
        } else {
            Err(denied(Entity::resource(family), reference, Requirement::Level(required)))
        },
    }
}

/// Whether `user` is let through with `request`, and where the resource
/// stands that the request names (0 where it names none).
///
/// An operation that asks for an administrator is refused to anyone else
/// before anything is looked up. An operation that makes a resource names
/// none that exists, so nobody holds a level on it: it is open to
/// administrators only. Any other operation that names a resource is
/// [`checked`] against the level that the operation asks for. Listings and
/// the operations on the caller's own login secrets are open to all.
pub open spec fn authorized(state: StateView, request: ApiRequestView, user: RequestUserView) -> Result<
    int,
    ApiErrorView,
> {
    let operation = request.operation();
    match operation.requirement() {
        Requirement::Admin => if !user.is_admin {
            Err(denied(concerns(request).0, concerns(request).1, Requirement::Admin))
        } else {
            match request.subject() {
                None => Ok(0),
                Some((family, reference)) => match state.target(family, reference) {
                    None => Err(not_found(Entity::resource(family), reference)),
                    Some(target) => Ok(target.place),
                },
            }
        },
        Requirement::Level(level) => if operation.class() == OperationClass::Create {
            if user.is_admin {
                Ok(0)
            } else {
                Err(denied(concerns(request).0, concerns(request).1, Requirement::Level(level)))
            }
        } else {
            match request.subject() {
                None => Ok(0),
                Some((family, reference)) => match checked(state, user, family, reference, level) {
                    Err(e) => Err(e),
                    Ok(()) => Ok(state.target(family, reference)->Some_0.place),
                },
            }
        },
    }
}


/// What an operation on servers does once the caller is let through: the
/// state it leaves and what it answers. `place` is where the server that the
/// request names stands.
pub open spec fn performed_server(
    state: StateView,
    request: ApiRequestView,
    user: RequestUserView,
    place: int,
) -> (StateView, Result<StepView, ApiErrorView>) {
    let held = state.servers.items[place];
    match request {
        ApiRequestView::GetServer { .. } => (state, Ok(StepView::Done(ResponseView::Server(held)))),
        ApiRequestView::ListServers { .. } => (
            state,
            Ok(StepView::Done(ResponseView::Servers(listing(visible(state.servers.items, user))))),
        ),
        ApiRequestView::CreateServer { name, config } => {
            let settings = ServerConfigView::defaults().merged(config);
            let info = ServerListItemInfoView::derived(
                settings,
                ServerStatus::NotOk.with_enabled(settings.enabled),
            );
            if state.servers.has_name(name) {
                (state, Err(conflict(Entity::Server, name)))
            } else if state.servers.issued >= u64::MAX {
                (state, Err(internal()))
            } else {
                (
                    StateView { servers: state.servers.created(name, settings, info), ..state },
                    Ok(StepView::Done(ResponseView::Server(state.servers.fresh(name, settings, info)))),
                )
            }
        },
        ApiRequestView::DeleteServer { .. } => (
            StateView { servers: state.servers.removed(place), ..state },
            Ok(StepView::Done(ResponseView::Server(held))),
        ),
        ApiRequestView::UpdateServer { config, .. } => {
            let settings = held.config.merged(config);
            let info = ServerListItemInfoView::derived(
                settings,
                held.info.status.with_enabled(settings.enabled),
            );
            (
                StateView { servers: state.servers.configured(place, settings, info), ..state },
                Ok(StepView::Done(ResponseView::Server(ResourceView { config: settings, info, ..held }))),
            )
        },
        ApiRequestView::RenameServer { name, .. } => if !state.servers.can_rename(place, name) {
            (state, Err(conflict(Entity::Server, name)))
        } else {
            (
                StateView { servers: state.servers.renamed(place, name), ..state },
                Ok(StepView::Done(ResponseView::Server(ResourceView { name, ..held }))),
            )
        },
        ApiRequestView::GetPeripheryVersion { .. }
        | ApiRequestView::GetSystemInformation { .. }
        | ApiRequestView::GetDockerContainers { .. }
        | ApiRequestView::GetDockerImages { .. }
        | ApiRequestView::GetDockerNetworks { .. }
        | ApiRequestView::GetAllSystemStats { .. }
        | ApiRequestView::GetBasicSystemStats { .. }
        | ApiRequestView::GetCpuUsage { .. }
        | ApiRequestView::GetDiskUsage { .. }
        | ApiRequestView::GetNetworkUsage { .. }
        | ApiRequestView::GetSystemProcesses { .. }
        | ApiRequestView::GetSystemComponents { .. } => (
            state,
            Ok(
                StepView::Agent {
                    operation: request.operation(),
                    request: get_request(state.periphery, held, agent_path(request.operation())),
                },
            ),
        ),
        ApiRequestView::PruneContainers { .. }
        | ApiRequestView::PruneImages { .. }
        | ApiRequestView::PruneNetworks { .. } => (
            state,
            Ok(
                StepView::Agent {
                    operation: request.operation(),
                    request: post_request(
                        state.periphery,
                        held,
                        agent_path(request.operation()),
                        JsonValue::empty(),
                    ),
                },
            ),
        ),
        _ => (state, Err(internal())),
    }
}

/// What an operation on deployments does once the caller is let through: the
/// state it leaves and what it answers. `place` is where the deployment that the
/// request names stands.
pub open spec fn performed_deployment(
    state: StateView,
    request: ApiRequestView,
    user: RequestUserView,
    place: int,
) -> (StateView, Result<StepView, ApiErrorView>) {
    let held = state.deployments.items[place];
    match request {
        ApiRequestView::GetDeployment { .. } => (state, Ok(StepView::Done(ResponseView::Deployment(held)))),
        ApiRequestView::ListDeployments => (
            state,
            Ok(StepView::Done(ResponseView::Deployments(listing(visible(state.deployments.items, user))))),
        ),
        ApiRequestView::CreateDeployment { name, config } => {
            let settings = DeploymentConfigView::defaults().merged(config);
            let info = ();
            if state.deployments.has_name(name) {
                (state, Err(conflict(Entity::Deployment, name)))
            } else if state.deployments.issued >= u64::MAX {
                (state, Err(internal()))
            } else {
                (
                    StateView { deployments: state.deployments.created(name, settings, info), ..state },
                    Ok(StepView::Done(ResponseView::Deployment(state.deployments.fresh(name, settings, info)))),
                )
            }
        },
        ApiRequestView::DeleteDeployment { .. } => (
            StateView { deployments: state.deployments.removed(place), ..state },
            Ok(StepView::Done(ResponseView::Deployment(held))),
        ),
        ApiRequestView::UpdateDeployment { config, .. } => {
            let settings = held.config.merged(config);
            let info = ();
            (
                StateView { deployments: state.deployments.configured(place, settings, info), ..state },
                Ok(StepView::Done(ResponseView::Deployment(ResourceView { config: settings, info, ..held }))),
            )
        },
        ApiRequestView::RenameDeployment { name, .. } => if !state.deployments.can_rename(place, name) {
            (state, Err(conflict(Entity::Deployment, name)))
        } else {
            (
                StateView { deployments: state.deployments.renamed(place, name), ..state },
                Ok(StepView::Done(ResponseView::Deployment(ResourceView { name, ..held }))),
            )
        },
        ApiRequestView::Deploy { .. }
        | ApiRequestView::StartContainer { .. }
        | ApiRequestView::StopContainer { .. }
        | ApiRequestView::RemoveContainer { .. } => match state.servers.find(held.config.server_id) {
            None => (state, Err(not_found(Entity::Server, held.config.server_id))),
            Some(host) => (
                state,
                Ok(
                    StepView::Agent {
                        operation: request.operation(),
                        request: post_request(
                            state.periphery,
                            state.servers.items[host],
                            agent_path(request.operation()),
                            if request is Deploy {
                                held.json()
                            } else {
                                container_named(held.name)
                            },
                        ),
                    },
                ),
            ),
        },
        _ => (state, Err(internal())),
    }
}

/// What an operation on builds does once the caller is let through: the
/// state it leaves and what it answers. `place` is where the build that the
/// request names stands.
pub open spec fn performed_build(
    state: StateView,
    request: ApiRequestView,
    user: RequestUserView,
    place: int,
) -> (StateView, Result<StepView, ApiErrorView>) {
    let held = state.builds.items[place];
    match request {
        ApiRequestView::GetBuild { .. } => (state, Ok(StepView::Done(ResponseView::Build(held)))),
        ApiRequestView::ListBuilds => (
            state,
            Ok(StepView::Done(ResponseView::Builds(listing(visible(state.builds.items, user))))),
        ),
        ApiRequestView::CreateBuild { name, config } => {
            let settings = BuildConfigView::defaults().merged(config);
            let info = ();
            if state.builds.has_name(name) {
                (state, Err(conflict(Entity::Build, name)))
            } else if state.builds.issued >= u64::MAX {
                (state, Err(internal()))
            } else {
                (
                    StateView { builds: state.builds.created(name, settings, info), ..state },
                    Ok(StepView::Done(ResponseView::Build(state.builds.fresh(name, settings, info)))),
                )
            }
        },
        ApiRequestView::DeleteBuild { .. } => (
            StateView { builds: state.builds.removed(place), ..state },
            Ok(StepView::Done(ResponseView::Build(held))),
        ),
        ApiRequestView::UpdateBuild { config, .. } => {
            let settings = held.config.merged(config);
            let info = ();
            (
                StateView { builds: state.builds.configured(place, settings, info), ..state },
                Ok(StepView::Done(ResponseView::Build(ResourceView { config: settings, info, ..held }))),
            )
        },
        ApiRequestView::RunBuild { .. } => match state.builders.find(held.config.builder_id) {
            None => (state, Err(not_found(Entity::Builder, held.config.builder_id))),
            Some(builder) => match state.servers.find(state.builders.items[builder].config.server_id) {
                None => (
                    state,
                    Err(not_found(Entity::Server, state.builders.items[builder].config.server_id)),
                ),
                Some(host) => (
                    state,
                    Ok(
                        StepView::Agent {
                            operation: request.operation(),
                            request: post_request(
                                state.periphery,
                                state.servers.items[host],
                                agent_path(request.operation()),
                                held.json(),
                            ),
                        },
                    ),
                ),
            },
        },
        _ => (state, Err(internal())),
    }
}

/// What an operation on builders does once the caller is let through: the
/// state it leaves and what it answers. `place` is where the builder that the
/// request names stands.
pub open spec fn performed_builder(
    state: StateView,
    request: ApiRequestView,
    user: RequestUserView,
    place: int,
) -> (StateView, Result<StepView, ApiErrorView>) {
    let held = state.builders.items[place];
    match request {
        ApiRequestView::GetBuilder { .. } => (state, Ok(StepView::Done(ResponseView::Builder(held)))),
        ApiRequestView::ListBuilders => (
            state,
            Ok(StepView::Done(ResponseView::Builders(listing(visible(state.builders.items, user))))),
        ),
        ApiRequestView::CreateBuilder { name, config } => {
            let settings = BuilderConfigView::defaults().merged(config);
            let info = ();
            if state.builders.has_name(name) {
                (state, Err(conflict(Entity::Builder, name)))
            } else if state.builders.issued >= u64::MAX {
                (state, Err(internal()))
            } else {
                (
                    StateView { builders: state.builders.created(name, settings, info), ..state },
                    Ok(StepView::Done(ResponseView::Builder(state.builders.fresh(name, settings, info)))),
                )
            }
        },
        ApiRequestView::DeleteBuilder { .. } => (
            StateView { builders: state.builders.removed(place), ..state },
            Ok(StepView::Done(ResponseView::Builder(held))),
        ),
        ApiRequestView::UpdateBuilder { config, .. } => {
            let settings = held.config.merged(config);
            let info = ();
            (
                StateView { builders: state.builders.configured(place, settings, info), ..state },
                Ok(StepView::Done(ResponseView::Builder(ResourceView { config: settings, info, ..held }))),
            )
        },
        _ => (state, Err(internal())),
    }
}

/// What an operation on repos does once the caller is let through: the
/// state it leaves and what it answers. `place` is where the repo that the
/// request names stands.
pub open spec fn performed_repo(
    state: StateView,
    request: ApiRequestView,
    user: RequestUserView,
    place: int,
) -> (StateView, Result<StepView, ApiErrorView>) {
    let held = state.repos.items[place];
    match request {
        ApiRequestView::GetRepo { .. } => (state, Ok(StepView::Done(ResponseView::Repo(held)))),
        ApiRequestView::ListRepos => (
            state,
            Ok(StepView::Done(ResponseView::Repos(listing(visible(state.repos.items, user))))),
        ),
        ApiRequestView::CreateRepo { name, config } => {
            let settings = RepoConfigView::defaults().merged(config);
            let info = ();
            if state.repos.has_name(name) {
                (state, Err(conflict(Entity::Repo, name)))
            } else if state.repos.issued >= u64::MAX {
                (state, Err(internal()))
            } else {
                (
                    StateView { repos: state.repos.created(name, settings, info), ..state },
                    Ok(StepView::Done(ResponseView::Repo(state.repos.fresh(name, settings, info)))),
                )
            }
        },
        ApiRequestView::DeleteRepo { .. } => (
            StateView { repos: state.repos.removed(place), ..state },
            Ok(StepView::Done(ResponseView::Repo(held))),
        ),
        ApiRequestView::UpdateRepo { config, .. } => {
            let settings = held.config.merged(config);
            let info = ();
            (
                StateView { repos: state.repos.configured(place, settings, info), ..state },
                Ok(StepView::Done(ResponseView::Repo(ResourceView { config: settings, info, ..held }))),
            )
        },
        ApiRequestView::CloneRepo { .. } | ApiRequestView::PullRepo { .. } => match state.servers.find(
            held.config.server_id,
        ) {
            None => (state, Err(not_found(Entity::Server, held.config.server_id))),
            Some(host) => (
                state,
                Ok(
                    StepView::Agent {
                        operation: request.operation(),
                        request: post_request(
                            state.periphery,
                            state.servers.items[host],
                            agent_path(request.operation()),
                            held.json(),
                        ),
                    },
                ),
            ),
        },
        _ => (state, Err(internal())),
    }
}

/// What an operation on login secrets or on permissions does once the caller
/// is let through. `place` is where the resource stands that the request
/// names, for the one operation of these that names one.
pub open spec fn performed_admin(
    state: StateView,
    request: ApiRequestView,
    user: RequestUserView,
    place: int,
) -> (StateView, Result<StepView, ApiErrorView>) {
    match request {
        ApiRequestView::CreateLoginSecret { name, expires } => if state.directory.has_secret(
            user.id,
            name,
        ) {
            (state, Err(conflict(Entity::LoginSecret, name)))
        } else {
            (state, Ok(StepView::IssueSecret { user_id: user.id, name, expires }))
        },
        ApiRequestView::DeleteLoginSecret { name } => if !state.directory.has_secret(user.id, name) {
            (state, Err(not_found(Entity::LoginSecret, name)))
        } else {
            (
                StateView { directory: state.directory.without_secret(user.id, name), ..state },
                Ok(StepView::Done(ResponseView::Done)),
            )
        },
        ApiRequestView::UpdateUserPermissions { user_id, enabled } => if state.directory.user(user_id)
            is None {
            (state, Err(not_found(Entity::User, user_id)))
        } else {
            (
                match enabled {
                    Some(enabled) => StateView {
                        directory: state.directory.with_enabled(user_id, enabled),
                        ..state
                    },
                    None => state,
                },
                Ok(StepView::Done(ResponseView::Done)),
            )
        },
        ApiRequestView::UpdateUserPermissionsOnTarget { user_id, target_type, permission, .. } => if state.directory.user(
            user_id,
        ) is None {
            (state, Err(not_found(Entity::User, user_id)))
        } else {
            (
                state.granted(target_type, place, user_id, permission),
                Ok(StepView::Done(ResponseView::Done)),
            )
        },
        _ => (state, Err(internal())),
    }
}

/// What a request does once the caller is let through.
pub open spec fn performed(
    state: StateView,
    request: ApiRequestView,
    user: RequestUserView,
    place: int,
) -> (StateView, Result<StepView, ApiErrorView>) {
    match request.operation().family() {
        None => performed_admin(state, request, user, place),
        Some(ResourceType::Server) => performed_server(state, request, user, place),
        Some(ResourceType::Deployment) => performed_deployment(state, request, user, place),
        Some(ResourceType::Build) => performed_build(state, request, user, place),
        Some(ResourceType::Builder) => performed_builder(state, request, user, place),
        Some(ResourceType::Repo) => performed_repo(state, request, user, place),
    }
}

/// What the gateway makes of a request: the state it leaves and what it
/// answers. A request that is not let through changes nothing.
pub open spec fn resolved(state: StateView, request: ApiRequestView, user: RequestUserView) -> (
    StateView,
    Result<StepView, ApiErrorView>,
) {
    match authorized(state, request, user) {
        Err(e) => (state, Err(e)),
        Ok(place) => performed(state, request, user, place),
    }
}

/// What the answer to a request is once the agent was called: the document
/// that the agent sent, or the failure of the call, with the name of the
/// operation put before its trace.
pub open spec fn completed(operation: Operation, server: Seq<char>, outcome: AgentOutcomeView) -> Result<
    ResponseView,
    ApiErrorView,
> {
    match reply_of(server, outcome) {
        Ok(body) => Ok(ResponseView::Agent(body)),
        Err(e) => Err(e.within(operation.name_text())),
    }
}

/// Makes the answer to a request from the outcome of the call to the agent
/// of the server named `server`.
pub fn complete(operation: Operation, server: &String, outcome: AgentOutcome) -> (r: Result<
    Response,
    ApiError,
>)
    ensures
        response_view(r) == completed(operation, server@, outcome@),
{
    match PeripheryClient::interpret(server, outcome) {
        Ok(body) => Ok(Response::Agent(body)),
        Err(e) => Err(e.context(crate::text::text(operation.name()))),
    }
}

impl State {
    /// A state without resources and users, whose client presents `passkey`
    /// to the agents and gives each of them `timeout_seconds` to answer.
    pub fn new(passkey: String, timeout_seconds: u64) -> (state: State)
        ensures
            state@.wf(),
            state@.periphery == (PeripheryClientView { passkey: passkey@, timeout_seconds }),
            state@.servers.items.len() == 0,
            state@.deployments.items.len() == 0,
            state@.builds.items.len() == 0,
            state@.builders.items.len() == 0,
            state@.repos.items.len() == 0,
            state@.directory.users.len() == 0,
            state@.directory.sessions.len() == 0,
            state@.directory.secrets.len() == 0,
            state@.servers.issued == 0,
            state@.deployments.issued == 0,
            state@.builds.issued == 0,
            state@.builders.issued == 0,
            state@.repos.issued == 0,
    {
        let state = State {
            servers: Collection::new(),
            deployments: Collection::new(),
            builds: Collection::new(),
            builders: Collection::new(),
            repos: Collection::new(),
            directory: Directory::new(),
            periphery: PeripheryClient::new(passkey, timeout_seconds),
        };
        state.servers.well_formedness();
        state.deployments.well_formedness();
        state.builds.well_formedness();
        state.builders.well_formedness();
        state.repos.well_formedness();
        state
    }

    /// The servers.
    pub fn servers(&self) -> (c: &Collection<ServerConfig, ServerListItemInfo>)
        ensures
            c@ == self@.servers,
    {
        &self.servers
    }

    /// The deployments.
    pub fn deployments(&self) -> (c: &Collection<DeploymentConfig, ()>)
        ensures
            c@ == self@.deployments,
    {
        &self.deployments
    }

    /// The builds.
    pub fn builds(&self) -> (c: &Collection<BuildConfig, ()>)
        ensures
            c@ == self@.builds,
    {
        &self.builds
    }

    /// The builders.
    pub fn builders(&self) -> (c: &Collection<BuilderConfig, ()>)
        ensures
            c@ == self@.builders,
    {
        &self.builders
    }

    /// The repos.
    pub fn repos(&self) -> (c: &Collection<RepoConfig, ()>)
        ensures
            c@ == self@.repos,
    {
        &self.repos
    }

    /// The directory of users.
    pub fn directory(&self) -> (d: &Directory)
        ensures
            d@ == self@.directory,
    {
        &self.directory
    }

    /// The client that speaks to the agents.
    pub fn periphery(&self) -> (client: &PeripheryClient)
        ensures
            client@ == self@.periphery,
    {
        &self.periphery
    }

    /// Adds a user to the directory, and says whether it did.
    pub fn add_user(&mut self, user: UserRecord) -> (added: bool)
        ensures
            added == (old(self)@.directory.user(user@.id) is None),
            final(self)@ == (StateView {
                directory: old(self)@.directory.with_user(user@),
                ..old(self)@
            }),
    {
        self.directory.add_user(user)
    }

    /// Opens a session for a user, and says whether it did.
    pub fn open_session(&mut self, id: String, user_id: String) -> (opened: bool)
        ensures
            opened == (old(self)@.directory.session(id@) is None),
            final(self)@ == (StateView {
                directory: old(self)@.directory.with_session(id@, user_id@),
                ..old(self)@
            }),
    {
        self.directory.open_session(id, user_id)
    }

    /// Revokes a session, and says whether there was one.
    pub fn revoke_session(&mut self, id: &String) -> (found: bool)
        ensures
            found == (old(self)@.directory.session(id@) is Some),
            final(self)@ == (StateView {
                directory: old(self)@.directory.with_revoked(id@),
                ..old(self)@
            }),
    {
        self.directory.revoke_session(id)
    }

    /// Stores the login secret that was made for a request, and answers the
    /// request with the key and with `plain`, the secret that was hashed.
    pub fn store_secret(&mut self, secret: LoginSecret, plain: String) -> (r: Result<
        Response,
        ApiError,
    >)
        ensures
            (final(self)@, response_view(r)) == old(self)@.secret_stored(secret@, plain@),
    {
        let name = secret.name.clone();
        let key = secret.key.clone();
        if self.directory.add_secret(secret) {
            Ok(Response::Secret { key, secret: plain })
        } else {
            Err(fail(Failure::Conflict { entity: Entity::LoginSecret, reference: name }))
        }
    }

    /// The topic that `user` listens to by asking for the resource of a
    /// family that `reference` stands for.
    pub fn topic_for(&self, user: &RequestUser, family: ResourceType, reference: &String) -> (r: Option<
        Topic,
    >)
        ensures
            match r {
                Some(topic) => self@.topic_for(user@, family, reference@) == Some(topic@),
                None => self@.topic_for(user@, family, reference@) is None,
            },
    {
        match self.place_of(family, reference) {
            Some(place) => {
                if self.permits_at(family, place, user, PermissionLevel::Read) {
                    let resource = match family {
                        ResourceType::Server => self.servers.get(place).id.clone(),
                        ResourceType::Deployment => self.deployments.get(place).id.clone(),
                        ResourceType::Build => self.builds.get(place).id.clone(),
                        ResourceType::Builder => self.builders.get(place).id.clone(),
                        ResourceType::Repo => self.repos.get(place).id.clone(),
                    };
                    Some(Topic { family, resource })
                } else {
                    None
                }
            },
            None => None,
        }
    }

    /// The probes of a round of polling: one for each server that is not
    /// disabled.
    pub fn probes(&self) -> (calls: Vec<Probe>)
        ensures
            Seq::new(calls@.len(), |i: int| calls@[i]@) == probes_of(
                self@.servers.items,
                self@.periphery,
            ),
    {
        let mut calls: Vec<Probe> = Vec::new();
        let mut i: usize = 0;
        let ghost servers = self@.servers.items;
        assert(servers.take(0) =~= Seq::empty());
        assert(Seq::new(calls@.len(), |k: int| calls@[k]@) =~= Seq::empty());
        while i < self.servers.len()
            invariant
                i <= servers.len(),
                servers == self@.servers.items,
                Seq::new(calls@.len(), |k: int| calls@[k]@) == probes_of(
                    servers.take(i as int),
                    self@.periphery,
                ),
            decreases servers.len() - i,
        {
            let ghost made = Seq::new(calls@.len(), |k: int| calls@[k]@);
            assert(servers.take(i as int + 1).drop_last() =~= servers.take(i as int));
            assert(servers.take(i as int + 1).last() == servers[i as int]);
            let server = self.servers.get(i);
            match server.info.status {
                ServerStatus::Disabled => {},
                _ => {
                    let probe = Probe {
                        server_id: server.id.clone(),
                        request: self.periphery.get_json(
                            server,
                            agent_path_of(Operation::GetBasicSystemStats),
                        ),
                    };
                    calls.push(probe);
                    assert(Seq::new(calls@.len(), |k: int| calls@[k]@) =~= made.push(probe@));
                },
            }
            i += 1;
        }
        assert(servers.take(i as int) =~= servers);
        calls
    }

    /// Records what a probe found of the agent of the server that
    /// `reference` stands for, and says whether there is such a server.
    pub fn record_probe(&mut self, reference: &String, reachable: bool) -> (found: bool)
        ensures
            found == (old(self)@.servers.find(reference@) is Some),
            final(self)@ == old(self)@.probed(reference@, reachable),
    {
        match self.servers.find(reference) {
            None => false,
            Some(place) => {
                let held = self.servers.get(place);
                let config = held.config.duplicate();
                let mut info = held.info.duplicate();
                info.status = info.status.after_probe(reachable);
                self.servers.configure(place, config, info);
                true
            },
        }
    }

    fn place_of(&self, family: ResourceType, reference: &String) -> (r: Option<usize>)
        ensures
            match r {
                Some(place) => place < self@.count(family) && self@.target(family, reference@)
                    is Some && self@.target(family, reference@)->Some_0.place == place
                    && self@.target(family, reference@)->Some_0.permissions == self@.grants_at(
                    family,
                    place as int,
                ),
                None => self@.target(family, reference@) is None,
            },
    {
        match family {
            ResourceType::Server => self.servers.find(reference),
            ResourceType::Deployment => self.deployments.find(reference),
            ResourceType::Build => self.builds.find(reference),
            ResourceType::Builder => self.builders.find(reference),
            ResourceType::Repo => self.repos.find(reference),
        }
    }

    fn permits_at(
        &self,
        family: ResourceType,
        place: usize,
        user: &RequestUser,
        required: PermissionLevel,
    ) -> (ok: bool)
        requires
            place < self@.count(family),
        ensures
            ok == permits(user@, self@.grants_at(family, place as int), required),
    {
        match family {
            ResourceType::Server => self.servers.permits(place, user, required),
            ResourceType::Deployment => self.deployments.permits(place, user, required),
            ResourceType::Build => self.builds.permits(place, user, required),
            ResourceType::Builder => self.builders.permits(place, user, required),
            ResourceType::Repo => self.repos.permits(place, user, required),
        }
    }

    /// Checks whether `user` may act at `required` on the resource of a
    /// family that `reference` stands for.
    pub fn check(
        &self,
        user: &RequestUser,
        family: ResourceType,
        reference: &String,
        required: PermissionLevel,
    ) -> (r: Result<(), ApiError>)
        ensures
            match r {
                Ok(()) => checked(self@, user@, family, reference@, required) is Ok,
                Err(e) => checked(self@, user@, family, reference@, required) == Err::<
                    (),
                    ApiErrorView,
                >(e@),
            },
    {
        match self.place_of(family, reference) {
            None => Err(
                fail(Failure::NotFound { entity: Entity::of(family), reference: reference.clone() }),
            ),
            Some(place) => {
                if self.permits_at(family, place, user, required) {
                    Ok(())
                } else {
                    Err(
                        fail(
                            Failure::PermissionDenied {
                                entity: Entity::of(family),
                                reference: reference.clone(),
                                required: Requirement::Level(required),
                            },
                        ),
                    )
                }
            },
        }
    }

    /// Decides whether `user` is let through with `request`, and finds the
    /// resource that the request names.
    pub fn authorize(&self, request: &ApiRequest, user: &RequestUser) -> (r: Result<usize, ApiError>)
        ensures
            match r {
                Ok(place) => authorized(self@, request@, user@) == Ok::<int, ApiErrorView>(
                    place as int,
                ) && (request@.subject() is Some ==> place < self@.count(
                    request@.subject()->Some_0.0,
                )),
                Err(e) => authorized(self@, request@, user@) == Err::<int, ApiErrorView>(e@),
            },
    {
        let operation = request.operation();
        let required = operation.required();
        let is_create = match operation.kind() {
            OperationClass::Create => true,
            _ => false,
        };
        let open_to_caller = match required {
            Requirement::Admin => user.is_admin,
            Requirement::Level(_) => !is_create || user.is_admin,
        };
        if !open_to_caller {
            let (entity, reference) = concerned(request);
            return Err(fail(Failure::PermissionDenied { entity, reference, required }));
        }
        if is_create {
            return Ok(0);
        }
        match request.subject() {
            None => Ok(0),
            Some((family, reference)) => match self.place_of(family, reference) {
                None => Err(
                    fail(
                        Failure::NotFound { entity: Entity::of(family), reference: reference.clone() },
                    ),
                ),
                Some(place) => match required {
                    Requirement::Admin => Ok(place),
                    Requirement::Level(level) => {
                        if self.permits_at(family, place, user, level) {
                            Ok(place)
                        } else {
                            Err(
                                fail(
                                    Failure::PermissionDenied {
                                        entity: Entity::of(family),
                                        reference: reference.clone(),
                                        required,
                                    },
                                ),
                            )
                        }
                    },
                },
            },
        }
    }


    fn perform_server(&mut self, request: ApiRequest, user: &RequestUser, place: usize) -> (r: Result<
        Step,
        ApiError,
    >)
        requires
            request@.operation().family() == Some(ResourceType::Server),
            request@.subject() is Some ==> place < old(self)@.servers.items.len(),
        ensures
            (final(self)@, step_view(r)) == performed_server(
                old(self)@,
                request@,
                user@,
                place as int,
            ),
    {
        let operation = request.operation();
        match request {
            ApiRequest::GetServer { .. } => Ok(Step::Done(Response::Server(self.servers.copy_of(place)))),
            ApiRequest::ListServers { .. } => Ok(Step::Done(Response::Servers(self.servers.list(user)))),
            ApiRequest::CreateServer { name, config } => {
                let settings = ServerConfig::from_partial(config);
                let info = ServerListItemInfo::derive(
                    &settings,
                    ServerStatus::NotOk.after_config(settings.enabled),
                );
                if self.servers.has_name(&name) {
                    Err(fail(Failure::Conflict { entity: Entity::Server, reference: name }))
                } else {
                    let ghost fresh = self.servers@.fresh(name@, settings@, info@);
                    match self.servers.create(name, settings, info) {
                        Some(made) => {
                            assert(self.servers@.items[made as int] == fresh);
                            Ok(Step::Done(Response::Server(self.servers.copy_of(made))))
                        },
                        None => Err(fail(Failure::Internal)),
                    }
                }
            },
            ApiRequest::DeleteServer { .. } => Ok(Step::Done(Response::Server(self.servers.remove(place)))),
            ApiRequest::UpdateServer { config, .. } => {
                let held = self.servers.get(place);
                let settings = ServerConfig::apply_partial(held.config.duplicate(), config);
                let info = ServerListItemInfo::derive(
                    &settings,
                    held.info.status.after_config(settings.enabled),
                );
                self.servers.configure(place, settings, info);
                Ok(Step::Done(Response::Server(self.servers.copy_of(place))))
            },
            ApiRequest::RenameServer { name, .. } => {
                if !self.servers.can_rename(place, &name) {
                    Err(fail(Failure::Conflict { entity: Entity::Server, reference: name }))
                } else {
                    self.servers.rename(place, name);
                    Ok(Step::Done(Response::Server(self.servers.copy_of(place))))
                }
            },
            ApiRequest::GetPeripheryVersion { .. }
            | ApiRequest::GetSystemInformation { .. }
            | ApiRequest::GetDockerContainers { .. }
            | ApiRequest::GetDockerImages { .. }
            | ApiRequest::GetDockerNetworks { .. }
            | ApiRequest::GetAllSystemStats { .. }
            | ApiRequest::GetBasicSystemStats { .. }
            | ApiRequest::GetCpuUsage { .. }
            | ApiRequest::GetDiskUsage { .. }
            | ApiRequest::GetNetworkUsage { .. }
            | ApiRequest::GetSystemProcesses { .. }
            | ApiRequest::GetSystemComponents { .. } => {
                let request = self.periphery.get_json(self.servers.get(place), agent_path_of(operation));
                Ok(Step::Agent { operation, request })
            },
            ApiRequest::PruneContainers { .. }
            | ApiRequest::PruneImages { .. }
            | ApiRequest::PruneNetworks { .. } => {
                let request = self.periphery.post_json(
                    self.servers.get(place),
                    agent_path_of(operation),
                    Json::empty_object(),
                );
                Ok(Step::Agent { operation, request })
            },
            _ => Err(fail(Failure::Internal)),
        }
    }

    fn perform_deployment(&mut self, request: ApiRequest, user: &RequestUser, place: usize) -> (r: Result<
        Step,
        ApiError,
    >)
        requires
            request@.operation().family() == Some(ResourceType::Deployment),
            request@.subject() is Some ==> place < old(self)@.deployments.items.len(),
        ensures
            (final(self)@, step_view(r)) == performed_deployment(
                old(self)@,
                request@,
                user@,
                place as int,
            ),
    {
        let operation = request.operation();
        match request {
            ApiRequest::GetDeployment { .. } => Ok(Step::Done(Response::Deployment(self.deployments.copy_of(place)))),
            ApiRequest::ListDeployments => Ok(Step::Done(Response::Deployments(self.deployments.list(user)))),
            ApiRequest::CreateDeployment { name, config } => {
                let settings = DeploymentConfig::from_partial(config);
                let info = ();
                if self.deployments.has_name(&name) {
                    Err(fail(Failure::Conflict { entity: Entity::Deployment, reference: name }))
                } else {
                    let ghost fresh = self.deployments@.fresh(name@, settings@, info@);
                    match self.deployments.create(name, settings, info) {
                        Some(made) => {
                            assert(self.deployments@.items[made as int] == fresh);
                            Ok(Step::Done(Response::Deployment(self.deployments.copy_of(made))))
                        },
                        None => Err(fail(Failure::Internal)),
                    }
                }
            },
            ApiRequest::DeleteDeployment { .. } => Ok(Step::Done(Response::Deployment(self.deployments.remove(place)))),
            ApiRequest::UpdateDeployment { config, .. } => {
                let held = self.deployments.get(place);
                let settings = DeploymentConfig::apply_partial(held.config.duplicate(), config);
                let info = ();
                self.deployments.configure(place, settings, info);
                Ok(Step::Done(Response::Deployment(self.deployments.copy_of(place))))
            },
            ApiRequest::RenameDeployment { name, .. } => {
                if !self.deployments.can_rename(place, &name) {
                    Err(fail(Failure::Conflict { entity: Entity::Deployment, reference: name }))
                } else {
                    self.deployments.rename(place, name);
                    Ok(Step::Done(Response::Deployment(self.deployments.copy_of(place))))
                }
            },
            ApiRequest::Deploy { .. } => {
                let held = self.deployments.get(place);
                match self.servers.find(&held.config.server_id) {
                    None => Err(
                        fail(
                            Failure::NotFound {
                                entity: Entity::Server,
                                reference: held.config.server_id.clone(),
                            },
                        ),
                    ),
                    Some(host) => {
                        let request = self.periphery.deploy(self.servers.get(host), held);
                        Ok(Step::Agent { operation, request })
                    },
                }
            },
            ApiRequest::StartContainer { .. }
            | ApiRequest::StopContainer { .. }
            | ApiRequest::RemoveContainer { .. } => {
                let held = self.deployments.get(place);
                match self.servers.find(&held.config.server_id) {
                    None => Err(
                        fail(
                            Failure::NotFound {
                                entity: Entity::Server,
                                reference: held.config.server_id.clone(),
                            },
                        ),
                    ),
                    Some(host) => {
                        let server = self.servers.get(host);
                        let request = match operation {
                            Operation::StartContainer => self.periphery.container_start(
                                server,
                                held.name.as_str(),
                            ),
                            Operation::StopContainer => self.periphery.container_stop(
                                server,
                                held.name.as_str(),
                            ),
                            _ => self.periphery.container_remove(server, held.name.as_str()),
                        };
                        Ok(Step::Agent { operation, request })
                    },
                }
            },
            _ => Err(fail(Failure::Internal)),
        }
    }

    fn perform_build(&mut self, request: ApiRequest, user: &RequestUser, place: usize) -> (r: Result<
        Step,
        ApiError,
    >)
        requires
            request@.operation().family() == Some(ResourceType::Build),
            request@.subject() is Some ==> place < old(self)@.builds.items.len(),
        ensures
            (final(self)@, step_view(r)) == performed_build(
                old(self)@,
                request@,
                user@,
                place as int,
            ),
    {
        let operation = request.operation();
        match request {
            ApiRequest::GetBuild { .. } => Ok(Step::Done(Response::Build(self.builds.copy_of(place)))),
            ApiRequest::ListBuilds => Ok(Step::Done(Response::Builds(self.builds.list(user)))),
            ApiRequest::CreateBuild { name, config } => {
                let settings = BuildConfig::from_partial(config);
                let info = ();
                if self.builds.has_name(&name) {
                    Err(fail(Failure::Conflict { entity: Entity::Build, reference: name }))
                } else {
                    let ghost fresh = self.builds@.fresh(name@, settings@, info@);
                    match self.builds.create(name, settings, info) {
                        Some(made) => {
                            assert(self.builds@.items[made as int] == fresh);
                            Ok(Step::Done(Response::Build(self.builds.copy_of(made))))
                        },
                        None => Err(fail(Failure::Internal)),
                    }
                }
            },
            ApiRequest::DeleteBuild { .. } => Ok(Step::Done(Response::Build(self.builds.remove(place)))),
            ApiRequest::UpdateBuild { config, .. } => {
                let held = self.builds.get(place);
                let settings = BuildConfig::apply_partial(held.config.duplicate(), config);
                let info = ();
                self.builds.configure(place, settings, info);
                Ok(Step::Done(Response::Build(self.builds.copy_of(place))))
            },
            ApiRequest::RunBuild { .. } => {
                let held = self.builds.get(place);
                match self.builders.find(&held.config.builder_id) {
                    None => Err(
                        fail(
                            Failure::NotFound {
                                entity: Entity::Builder,
                                reference: held.config.builder_id.clone(),
                            },
                        ),
                    ),
                    Some(builder) => {
                        let server_id = &self.builders.get(builder).config.server_id;
                        match self.servers.find(server_id) {
                            None => Err(
                                fail(
                                    Failure::NotFound {
                                        entity: Entity::Server,
                                        reference: server_id.clone(),
                                    },
                                ),
                            ),
                            Some(host) => {
                                let request = self.periphery.post_json(
                                    self.servers.get(host),
                                    agent_path_of(operation),
                                    held.to_json(),
                                );
                                Ok(Step::Agent { operation, request })
                            },
                        }
                    },
                }
            },
            _ => Err(fail(Failure::Internal)),
        }
    }

    fn perform_builder(&mut self, request: ApiRequest, user: &RequestUser, place: usize) -> (r: Result<
        Step,
        ApiError,
    >)
        requires
            request@.operation().family() == Some(ResourceType::Builder),
            request@.subject() is Some ==> place < old(self)@.builders.items.len(),
        ensures
            (final(self)@, step_view(r)) == performed_builder(
                old(self)@,
                request@,
                user@,
                place as int,
            ),
    {
        let operation = request.operation();
        match request {
            ApiRequest::GetBuilder { .. } => Ok(Step::Done(Response::Builder(self.builders.copy_of(place)))),
            ApiRequest::ListBuilders => Ok(Step::Done(Response::Builders(self.builders.list(user)))),
            ApiRequest::CreateBuilder { name, config } => {
                let settings = BuilderConfig::from_partial(config);
                let info = ();
                if self.builders.has_name(&name) {
                    Err(fail(Failure::Conflict { entity: Entity::Builder, reference: name }))
                } else {
                    let ghost fresh = self.builders@.fresh(name@, settings@, info@);
                    match self.builders.create(name, settings, info) {
                        Some(made) => {
                            assert(self.builders@.items[made as int] == fresh);
                            Ok(Step::Done(Response::Builder(self.builders.copy_of(made))))
                        },
                        None => Err(fail(Failure::Internal)),
                    }
                }
            },
            ApiRequest::DeleteBuilder { .. } => Ok(Step::Done(Response::Builder(self.builders.remove(place)))),
            ApiRequest::UpdateBuilder { config, .. } => {
                let held = self.builders.get(place);
                let settings = BuilderConfig::apply_partial(held.config.duplicate(), config);
                let info = ();
                self.builders.configure(place, settings, info);
                Ok(Step::Done(Response::Builder(self.builders.copy_of(place))))
            },
            _ => Err(fail(Failure::Internal)),
        }
    }

    fn perform_repo(&mut self, request: ApiRequest, user: &RequestUser, place: usize) -> (r: Result<
        Step,
        ApiError,
    >)
        requires
            request@.operation().family() == Some(ResourceType::Repo),
            request@.subject() is Some ==> place < old(self)@.repos.items.len(),
        ensures
            (final(self)@, step_view(r)) == performed_repo(
                old(self)@,
                request@,
                user@,
                place as int,
            ),
    {
        let operation = request.operation();
        match request {
            ApiRequest::GetRepo { .. } => Ok(Step::Done(Response::Repo(self.repos.copy_of(place)))),
            ApiRequest::ListRepos => Ok(Step::Done(Response::Repos(self.repos.list(user)))),
            ApiRequest::CreateRepo { name, config } => {
                let settings = RepoConfig::from_partial(config);
                let info = ();
                if self.repos.has_name(&name) {
                    Err(fail(Failure::Conflict { entity: Entity::Repo, reference: name }))
                } else {
                    let ghost fresh = self.repos@.fresh(name@, settings@, info@);
                    match self.repos.create(name, settings, info) {
                        Some(made) => {
                            assert(self.repos@.items[made as int] == fresh);
                            Ok(Step::Done(Response::Repo(self.repos.copy_of(made))))
                        },
                        None => Err(fail(Failure::Internal)),
                    }
                }
            },
            ApiRequest::DeleteRepo { .. } => Ok(Step::Done(Response::Repo(self.repos.remove(place)))),
            ApiRequest::UpdateRepo { config, .. } => {
                let held = self.repos.get(place);
                let settings = RepoConfig::apply_partial(held.config.duplicate(), config);
                let info = ();
                self.repos.configure(place, settings, info);
                Ok(Step::Done(Response::Repo(self.repos.copy_of(place))))
            },
            ApiRequest::CloneRepo { .. } | ApiRequest::PullRepo { .. } => {
                let held = self.repos.get(place);
                match self.servers.find(&held.config.server_id) {
                    None => Err(
                        fail(
                            Failure::NotFound {
                                entity: Entity::Server,
                                reference: held.config.server_id.clone(),
                            },
                        ),
                    ),
                    Some(host) => {
                        let request = self.periphery.post_json(
                            self.servers.get(host),
                            agent_path_of(operation),
                            held.to_json(),
                        );
                        Ok(Step::Agent { operation, request })
                    },
                }
            },
            _ => Err(fail(Failure::Internal)),
        }
    }

    fn perform_admin(&mut self, request: ApiRequest, user: &RequestUser, place: usize) -> (r: Result<
        Step,
        ApiError,
    >)
        requires
            request@.operation().family() is None,
            request@.subject() is Some ==> place < old(self)@.count(request@.subject()->Some_0.0),
        ensures
            (final(self)@, step_view(r)) == performed_admin(
                old(self)@,
                request@,
                user@,
                place as int,
            ),
    {
        match request {
            ApiRequest::CreateLoginSecret { name, expires } => {
                if self.directory.has_secret(&user.id, &name) {
                    Err(fail(Failure::Conflict { entity: Entity::LoginSecret, reference: name }))
                } else {
                    Ok(Step::IssueSecret { user_id: user.id.clone(), name, expires })
                }
            },
            ApiRequest::DeleteLoginSecret { name } => {
                if self.directory.remove_secret(&user.id, &name) {
                    Ok(Step::Done(Response::Done))
                } else {
                    Err(fail(Failure::NotFound { entity: Entity::LoginSecret, reference: name }))
                }
            },
            ApiRequest::UpdateUserPermissions { user_id, enabled } => {
                if !self.directory.knows(&user_id) {
                    Err(fail(Failure::NotFound { entity: Entity::User, reference: user_id }))
                } else {
                    match enabled {
                        Some(enabled) => {
                            self.directory.set_enabled(&user_id, enabled);
                        },
                        None => {},
                    }
                    Ok(Step::Done(Response::Done))
                }
            },
            ApiRequest::UpdateUserPermissionsOnTarget { user_id, target_type, permission, .. } => {
                if !self.directory.knows(&user_id) {
                    Err(fail(Failure::NotFound { entity: Entity::User, reference: user_id }))
                } else {
                    match target_type {
                        ResourceType::Server => self.servers.grant(place, user_id, permission),
                        ResourceType::Deployment => self.deployments.grant(
                            place,
                            user_id,
                            permission,
                        ),
                        ResourceType::Build => self.builds.grant(place, user_id, permission),
                        ResourceType::Builder => self.builders.grant(place, user_id, permission),
                        ResourceType::Repo => self.repos.grant(place, user_id, permission),
                    }
                    Ok(Step::Done(Response::Done))
                }
            },
            _ => Err(fail(Failure::Internal)),
        }
    }

    /// Takes one request of `user` through the gateway: authorizes it, and
    /// performs it where the caller is let through.
    pub fn resolve(&mut self, request: ApiRequest, user: &RequestUser) -> (r: Result<Step, ApiError>)
        ensures
            (final(self)@, step_view(r)) == resolved(old(self)@, request@, user@),
    {
        match self.authorize(&request, user) {
            Err(e) => Err(e),
            Ok(place) => {
                proof {
                    crate::request::subject_follows_the_class(request@);
                }
                match request.operation().resource_type() {
                    None => self.perform_admin(request, user, place),
                    Some(ResourceType::Server) => self.perform_server(request, user, place),
                    Some(ResourceType::Deployment) => self.perform_deployment(request, user, place),
                    Some(ResourceType::Build) => self.perform_build(request, user, place),
                    Some(ResourceType::Builder) => self.perform_builder(request, user, place),
                    Some(ResourceType::Repo) => self.perform_repo(request, user, place),
                }
            },
        }
    }
}

/// What a request is about, for the report of a refusal.
fn concerned(request: &ApiRequest) -> (r: (Entity, String))
    ensures
        r.0 == concerns(request@).0,
        r.1@ == concerns(request@).1,
{
    match request {
        ApiRequest::CreateLoginSecret { name, .. } => (Entity::LoginSecret, name.clone()),
        ApiRequest::DeleteLoginSecret { name } => (Entity::LoginSecret, name.clone()),
        ApiRequest::UpdateUserPermissions { user_id, .. } => (Entity::User, user_id.clone()),
        _ => match request.subject() {
            Some((family, reference)) => (Entity::of(family), reference.clone()),
            None => match request.operation().resource_type() {
                Some(family) => match request.new_name() {
                    Some(name) => (Entity::of(family), name.clone()),
                    None => (Entity::of(family), String::new()),
                },
                None => (Entity::User, String::new()),
            },
        },
    }
}

} // verus!
