//! What holds of the gateway whatever the state, the request and the caller.
use vstd::prelude::*;
use crate::entities::{
    BuildConfigView, BuilderConfigView, DeploymentConfigView, PartialBuildConfigView,
    PartialBuilderConfigView, PartialDeploymentConfigView, PartialRepoConfigView, RepoConfigView,
};
use crate::error::{ApiErrorView, Entity, Requirement};
use crate::gateway::{
    authorized, completed, concerns, conflict, denied, internal, performed, resolved,
    server_is_consistent, ResponseView, StateView, StepView,
};
use crate::json::JsonValue;
use crate::periphery::{is_success, AgentOutcomeView, Method};
use crate::permission::{
    recorded_level, with_level_sets_one, GrantView, PermissionLevel, RequestUserView, ResourceType,
};
use crate::request::{ApiRequestView, Operation, OperationClass};
use crate::resource::{
    find_by_id_or_name, grants_stay_with_their_resource, listing, operations_keep_wf, visible,
    CollectionView,
};
use crate::server::{
    PartialServerConfigView, ServerConfigView, ServerListItemInfoView, ServerStatus,
};

verus! {


/// Making a server, as an administrator. Where the name is taken the request
/// fails with `Conflict` and nothing changes. Where it is free (and a serial
/// number is left) the request answers with the new server, which has the
/// settings that the request gives and the defaults for the rest; asking for
/// it by its id right away gives the same answer, and so does asking for it
/// by its name, unless that name is also the id of a server.
pub proof fn creating_a_server(
    state: StateView,
    name: Seq<char>,
    config: PartialServerConfigView,
    user: RequestUserView,
)
    requires
        state.wf(),
        user.is_admin,
    ensures
        ({
            let settings = ServerConfigView::defaults().merged(config);
            let info = ServerListItemInfoView::derived(
        settings,
        ServerStatus::NotOk.with_enabled(settings.enabled),
    );
            let made = state.servers.fresh(name, settings, info);
            let outcome = resolved(state, ApiRequestView::CreateServer { name, config }, user);
            let after = outcome.0;
            if state.servers.has_name(name) {
                outcome == (state, Err::<StepView, ApiErrorView>(conflict(Entity::Server, name)))
            } else if state.servers.issued < u64::MAX {
                &&& outcome.1 == Ok::<StepView, ApiErrorView>(
                    StepView::Done(ResponseView::Server(made)),
                )
                &&& after.wf()
                &&& after.servers.items == state.servers.items.push(made)
                &&& resolved(after, ApiRequestView::GetServer { server: made.id }, user) == (
                    after,
                    outcome.1,
                )
                &&& !after.servers.has_id(name) ==> resolved(
                    after,
                    ApiRequestView::GetServer { server: name },
                    user,
                ) == (after, outcome.1)
            } else {
                outcome == (state, Err::<StepView, ApiErrorView>(internal()))
            }
        }),
{
    let settings = ServerConfigView::defaults().merged(config);
    let info = ServerListItemInfoView::derived(
        settings,
        ServerStatus::NotOk.with_enabled(settings.enabled),
    );
    if !state.servers.has_name(name) && state.servers.issued < u64::MAX {
        let after = state.servers.created(name, settings, info);
        operations_keep_wf(
            state.servers,
            0,
            name,
            settings,
            info,
            Seq::empty(),
            PermissionLevel::NoAccess,
        );
        find_by_id_or_name(after, state.servers.items.len() as int);
        assert(after.items[state.servers.items.len() as int] == state.servers.fresh(name, settings, info));
        assert forall|i: int| 0 <= i < after.items.len() implies server_is_consistent(
            #[trigger] after.items[i],
        ) by {
            if i < state.servers.items.len() {
                assert(after.items[i] == state.servers.items[i]);
            }
        }
    }
}

/// Making a deployment, as an administrator. Where the name is taken the request
/// fails with `Conflict` and nothing changes. Where it is free (and a serial
/// number is left) the request answers with the new deployment, which has the
/// settings that the request gives and the defaults for the rest; asking for
/// it by its id right away gives the same answer, and so does asking for it
/// by its name, unless that name is also the id of a deployment.
pub proof fn creating_a_deployment(
    state: StateView,
    name: Seq<char>,
    config: PartialDeploymentConfigView,
    user: RequestUserView,
)
    requires
        state.wf(),
        user.is_admin,
    ensures
        ({
            let settings = DeploymentConfigView::defaults().merged(config);
            let info = ();
            let made = state.deployments.fresh(name, settings, info);
            let outcome = resolved(state, ApiRequestView::CreateDeployment { name, config }, user);
            let after = outcome.0;
            if state.deployments.has_name(name) {
                outcome == (state, Err::<StepView, ApiErrorView>(conflict(Entity::Deployment, name)))
            } else if state.deployments.issued < u64::MAX {
                &&& outcome.1 == Ok::<StepView, ApiErrorView>(
                    StepView::Done(ResponseView::Deployment(made)),
                )
                &&& after.wf()
                &&& after.deployments.items == state.deployments.items.push(made)
                &&& resolved(after, ApiRequestView::GetDeployment { deployment: made.id }, user) == (
                    after,
                    outcome.1,
                )
                &&& !after.deployments.has_id(name) ==> resolved(
                    after,
                    ApiRequestView::GetDeployment { deployment: name },
                    user,
                ) == (after, outcome.1)
            } else {
                outcome == (state, Err::<StepView, ApiErrorView>(internal()))
            }
        }),
{
    let settings = DeploymentConfigView::defaults().merged(config);
    let info = ();
    if !state.deployments.has_name(name) && state.deployments.issued < u64::MAX {
        let after = state.deployments.created(name, settings, info);
        operations_keep_wf(
            state.deployments,
            0,
            name,
            settings,
            info,
            Seq::empty(),
            PermissionLevel::NoAccess,
        );
        find_by_id_or_name(after, state.deployments.items.len() as int);
        assert(after.items[state.deployments.items.len() as int] == state.deployments.fresh(name, settings, info));
    }
}

/// Making a build, as an administrator. Where the name is taken the request
/// fails with `Conflict` and nothing changes. Where it is free (and a serial
/// number is left) the request answers with the new build, which has the
/// settings that the request gives and the defaults for the rest; asking for
/// it by its id right away gives the same answer, and so does asking for it
/// by its name, unless that name is also the id of a build.
pub proof fn creating_a_build(
    state: StateView,
    name: Seq<char>,
    config: PartialBuildConfigView,
    user: RequestUserView,
)
    requires
        state.wf(),
        user.is_admin,
    ensures
        ({
            let settings = BuildConfigView::defaults().merged(config);
            let info = ();
            let made = state.builds.fresh(name, settings, info);
            let outcome = resolved(state, ApiRequestView::CreateBuild { name, config }, user);
            let after = outcome.0;
            if state.builds.has_name(name) {
                outcome == (state, Err::<StepView, ApiErrorView>(conflict(Entity::Build, name)))
            } else if state.builds.issued < u64::MAX {
                &&& outcome.1 == Ok::<StepView, ApiErrorView>(
                    StepView::Done(ResponseView::Build(made)),
                )
                &&& after.wf()
                &&& after.builds.items == state.builds.items.push(made)
                &&& resolved(after, ApiRequestView::GetBuild { build: made.id }, user) == (
                    after,
                    outcome.1,
                )
                &&& !after.builds.has_id(name) ==> resolved(
                    after,
                    ApiRequestView::GetBuild { build: name },
                    user,
                ) == (after, outcome.1)
            } else {
                outcome == (state, Err::<StepView, ApiErrorView>(internal()))
            }
        }),
{
    let settings = BuildConfigView::defaults().merged(config);
    let info = ();
    if !state.builds.has_name(name) && state.builds.issued < u64::MAX {
        let after = state.builds.created(name, settings, info);
        operations_keep_wf(
            state.builds,
            0,
            name,
            settings,
            info,
            Seq::empty(),
            PermissionLevel::NoAccess,
        );
        find_by_id_or_name(after, state.builds.items.len() as int);
        assert(after.items[state.builds.items.len() as int] == state.builds.fresh(name, settings, info));
    }
}

/// Making a builder, as an administrator. Where the name is taken the request
/// fails with `Conflict` and nothing changes. Where it is free (and a serial
/// number is left) the request answers with the new builder, which has the
/// settings that the request gives and the defaults for the rest; asking for
/// it by its id right away gives the same answer, and so does asking for it
/// by its name, unless that name is also the id of a builder.
pub proof fn creating_a_builder(
    state: StateView,
    name: Seq<char>,
    config: PartialBuilderConfigView,
    user: RequestUserView,
)
    requires
        state.wf(),
        user.is_admin,
    ensures
        ({
            let settings = BuilderConfigView::defaults().merged(config);
            let info = ();
            let made = state.builders.fresh(name, settings, info);
            let outcome = resolved(state, ApiRequestView::CreateBuilder { name, config }, user);
            let after = outcome.0;
            if state.builders.has_name(name) {
                outcome == (state, Err::<StepView, ApiErrorView>(conflict(Entity::Builder, name)))
            } else if state.builders.issued < u64::MAX {
                &&& outcome.1 == Ok::<StepView, ApiErrorView>(
                    StepView::Done(ResponseView::Builder(made)),
                )
                &&& after.wf()
                &&& after.builders.items == state.builders.items.push(made)
                &&& resolved(after, ApiRequestView::GetBuilder { builder: made.id }, user) == (
                    after,
                    outcome.1,
                )
                &&& !after.builders.has_id(name) ==> resolved(
                    after,
                    ApiRequestView::GetBuilder { builder: name },
                    user,
                ) == (after, outcome.1)
            } else {
                outcome == (state, Err::<StepView, ApiErrorView>(internal()))
            }
        }),
{
    let settings = BuilderConfigView::defaults().merged(config);
    let info = ();
    if !state.builders.has_name(name) && state.builders.issued < u64::MAX {
        let after = state.builders.created(name, settings, info);
        operations_keep_wf(
            state.builders,
            0,
            name,
            settings,
            info,
            Seq::empty(),
            PermissionLevel::NoAccess,
        );
        find_by_id_or_name(after, state.builders.items.len() as int);
        assert(after.items[state.builders.items.len() as int] == state.builders.fresh(name, settings, info));
    }
}

/// Making a repo, as an administrator. Where the name is taken the request
/// fails with `Conflict` and nothing changes. Where it is free (and a serial
/// number is left) the request answers with the new repo, which has the
/// settings that the request gives and the defaults for the rest; asking for
/// it by its id right away gives the same answer, and so does asking for it
/// by its name, unless that name is also the id of a repo.
pub proof fn creating_a_repo(
    state: StateView,
    name: Seq<char>,
    config: PartialRepoConfigView,
    user: RequestUserView,
)
    requires
        state.wf(),
        user.is_admin,
    ensures
        ({
            let settings = RepoConfigView::defaults().merged(config);
            let info = ();
            let made = state.repos.fresh(name, settings, info);
            let outcome = resolved(state, ApiRequestView::CreateRepo { name, config }, user);
            let after = outcome.0;
            if state.repos.has_name(name) {
                outcome == (state, Err::<StepView, ApiErrorView>(conflict(Entity::Repo, name)))
            } else if state.repos.issued < u64::MAX {
                &&& outcome.1 == Ok::<StepView, ApiErrorView>(
                    StepView::Done(ResponseView::Repo(made)),
                )
                &&& after.wf()
                &&& after.repos.items == state.repos.items.push(made)
                &&& resolved(after, ApiRequestView::GetRepo { repo: made.id }, user) == (
                    after,
                    outcome.1,
                )
                &&& !after.repos.has_id(name) ==> resolved(
                    after,
                    ApiRequestView::GetRepo { repo: name },
                    user,
                ) == (after, outcome.1)
            } else {
                outcome == (state, Err::<StepView, ApiErrorView>(internal()))
            }
        }),
{
    let settings = RepoConfigView::defaults().merged(config);
    let info = ();
    if !state.repos.has_name(name) && state.repos.issued < u64::MAX {
        let after = state.repos.created(name, settings, info);
        operations_keep_wf(
            state.repos,
            0,
            name,
            settings,
            info,
            Seq::empty(),
            PermissionLevel::NoAccess,
        );
        find_by_id_or_name(after, state.repos.items.len() as int);
        assert(after.items[state.repos.items.len() as int] == state.repos.fresh(name, settings, info));
    }
}

/// An operation on servers keeps the state well formed.
proof fn performed_server_keeps_wf(
    state: StateView,
    request: ApiRequestView,
    user: RequestUserView,
    place: int,
)
    requires
        state.wf(),
        request.operation().family() == Some(ResourceType::Server),
        request.subject() is Some ==> 0 <= place < state.servers.items.len(),
    ensures
        crate::gateway::performed_server(state, request, user, place).0.wf(),
{
    let after = crate::gateway::performed_server(state, request, user, place).0;
    match request {
        ApiRequestView::CreateServer { name, config } => {
            let settings = ServerConfigView::defaults().merged(config);
            let info = ServerListItemInfoView::derived(
                settings,
                ServerStatus::NotOk.with_enabled(settings.enabled),
            );
            operations_keep_wf(
                state.servers,
                0,
                name,
                settings,
                info,
                Seq::empty(),
                PermissionLevel::NoAccess,
            );
            if !state.servers.has_name(name) && state.servers.issued < u64::MAX {
                assert forall|i: int| 0 <= i < after.servers.items.len() implies server_is_consistent(
                    #[trigger] after.servers.items[i],
                ) by {
                    if i < state.servers.items.len() {
                        assert(after.servers.items[i] == state.servers.items[i]);
                    }
                }
            }
        },
        ApiRequestView::DeleteServer { .. } => {
            operations_keep_wf(
                state.servers,
                place,
                Seq::empty(),
                state.servers.items[place].config,
                state.servers.items[place].info,
                Seq::empty(),
                PermissionLevel::NoAccess,
            );
            assert forall|i: int| 0 <= i < after.servers.items.len() implies server_is_consistent(
                #[trigger] after.servers.items[i],
            ) by {
                let k = if i < place {
                    i
                } else {
                    i + 1
                };
                assert(after.servers.items[i] == state.servers.items[k]);
            }
        },
        ApiRequestView::UpdateServer { config, .. } => {
            let settings = state.servers.items[place].config.merged(config);
            let info = ServerListItemInfoView::derived(
                settings,
                state.servers.items[place].info.status.with_enabled(settings.enabled),
            );
            operations_keep_wf(
                state.servers,
                place,
                Seq::empty(),
                settings,
                info,
                Seq::empty(),
                PermissionLevel::NoAccess,
            );
            assert forall|i: int| 0 <= i < after.servers.items.len() implies server_is_consistent(
                #[trigger] after.servers.items[i],
            ) by {
                if i != place {
                    assert(after.servers.items[i] == state.servers.items[i]);
                }
            }
        },
        ApiRequestView::RenameServer { name, .. } => {
            operations_keep_wf(
                state.servers,
                place,
                name,
                state.servers.items[place].config,
                state.servers.items[place].info,
                Seq::empty(),
                PermissionLevel::NoAccess,
            );
            if state.servers.can_rename(place, name) {
                assert forall|i: int| 0 <= i < after.servers.items.len() implies server_is_consistent(
                    #[trigger] after.servers.items[i],
                ) by {
                    assert(after.servers.items[i].config == state.servers.items[i].config);
                    assert(after.servers.items[i].info == state.servers.items[i].info);
                }
            }
        },
    _ => {},
}
}

/// An operation on deployments keeps the state well formed.
proof fn performed_deployment_keeps_wf(
state: StateView,
request: ApiRequestView,
user: RequestUserView,
place: int,
)
requires
    state.wf(),
    request.operation().family() == Some(ResourceType::Deployment),
    request.subject() is Some ==> 0 <= place < state.deployments.items.len(),
ensures
    crate::gateway::performed_deployment(state, request, user, place).0.wf(),
{
let after = crate::gateway::performed_deployment(state, request, user, place).0;
match request {
        ApiRequestView::CreateDeployment { name, config } => {
            let settings = DeploymentConfigView::defaults().merged(config);
            let info = ();
            operations_keep_wf(
                state.deployments,
                0,
                name,
                settings,
                info,
                Seq::empty(),
                PermissionLevel::NoAccess,
            );
        },
        ApiRequestView::DeleteDeployment { .. } => {
            operations_keep_wf(
                state.deployments,
                place,
                Seq::empty(),
                state.deployments.items[place].config,
                state.deployments.items[place].info,
                Seq::empty(),
                PermissionLevel::NoAccess,
            );
        },
        ApiRequestView::UpdateDeployment { config, .. } => {
            let settings = state.deployments.items[place].config.merged(config);
            let info = ();
            operations_keep_wf(
                state.deployments,
                place,
                Seq::empty(),
                settings,
                info,
                Seq::empty(),
                PermissionLevel::NoAccess,
            );
        },
        ApiRequestView::RenameDeployment { name, .. } => {
            operations_keep_wf(
                state.deployments,
                place,
                name,
                state.deployments.items[place].config,
                state.deployments.items[place].info,
                Seq::empty(),
                PermissionLevel::NoAccess,
            );
        },
    _ => {},
}
}

/// An operation on builds keeps the state well formed.
proof fn performed_build_keeps_wf(
state: StateView,
request: ApiRequestView,
user: RequestUserView,
place: int,
)
requires
    state.wf(),
    request.operation().family() == Some(ResourceType::Build),
    request.subject() is Some ==> 0 <= place < state.builds.items.len(),
ensures
    crate::gateway::performed_build(state, request, user, place).0.wf(),
{
let after = crate::gateway::performed_build(state, request, user, place).0;
match request {
        ApiRequestView::CreateBuild { name, config } => {
            let settings = BuildConfigView::defaults().merged(config);
            let info = ();
            operations_keep_wf(
                state.builds,
                0,
                name,
                settings,
                info,
                Seq::empty(),
                PermissionLevel::NoAccess,
            );
        },
        ApiRequestView::DeleteBuild { .. } => {
            operations_keep_wf(
                state.builds,
                place,
                Seq::empty(),
                state.builds.items[place].config,
                state.builds.items[place].info,
                Seq::empty(),
                PermissionLevel::NoAccess,
            );
        },
        ApiRequestView::UpdateBuild { config, .. } => {
            let settings = state.builds.items[place].config.merged(config);
            let info = ();
            operations_keep_wf(
                state.builds,
                place,
                Seq::empty(),
                settings,
                info,
                Seq::empty(),
                PermissionLevel::NoAccess,
            );
        },
    _ => {},
}
}

/// An operation on builders keeps the state well formed.
proof fn performed_builder_keeps_wf(
state: StateView,
request: ApiRequestView,
user: RequestUserView,
place: int,
)
requires
    state.wf(),
    request.operation().family() == Some(ResourceType::Builder),
    request.subject() is Some ==> 0 <= place < state.builders.items.len(),
ensures
    crate::gateway::performed_builder(state, request, user, place).0.wf(),
{
let after = crate::gateway::performed_builder(state, request, user, place).0;
match request {
        ApiRequestView::CreateBuilder { name, config } => {
            let settings = BuilderConfigView::defaults().merged(config);
            let info = ();
            operations_keep_wf(
                state.builders,
                0,
                name,
                settings,
                info,
                Seq::empty(),
                PermissionLevel::NoAccess,
            );
        },
        ApiRequestView::DeleteBuilder { .. } => {
            operations_keep_wf(
                state.builders,
                place,
                Seq::empty(),
                state.builders.items[place].config,
                state.builders.items[place].info,
                Seq::empty(),
                PermissionLevel::NoAccess,
            );
        },
        ApiRequestView::UpdateBuilder { config, .. } => {
            let settings = state.builders.items[place].config.merged(config);
            let info = ();
            operations_keep_wf(
                state.builders,
                place,
                Seq::empty(),
                settings,
                info,
                Seq::empty(),
                PermissionLevel::NoAccess,
            );
        },
    _ => {},
}
}

/// An operation on repos keeps the state well formed.
proof fn performed_repo_keeps_wf(
state: StateView,
request: ApiRequestView,
user: RequestUserView,
place: int,
)
requires
    state.wf(),
    request.operation().family() == Some(ResourceType::Repo),
    request.subject() is Some ==> 0 <= place < state.repos.items.len(),
ensures
    crate::gateway::performed_repo(state, request, user, place).0.wf(),
{
let after = crate::gateway::performed_repo(state, request, user, place).0;
match request {
        ApiRequestView::CreateRepo { name, config } => {
            let settings = RepoConfigView::defaults().merged(config);
            let info = ();
            operations_keep_wf(
                state.repos,
                0,
                name,
                settings,
                info,
                Seq::empty(),
                PermissionLevel::NoAccess,
            );
        },
        ApiRequestView::DeleteRepo { .. } => {
            operations_keep_wf(
                state.repos,
                place,
                Seq::empty(),
                state.repos.items[place].config,
                state.repos.items[place].info,
                Seq::empty(),
                PermissionLevel::NoAccess,
            );
        },
        ApiRequestView::UpdateRepo { config, .. } => {
            let settings = state.repos.items[place].config.merged(config);
            let info = ();
            operations_keep_wf(
                state.repos,
                place,
                Seq::empty(),
                settings,
                info,
                Seq::empty(),
                PermissionLevel::NoAccess,
            );
        },
    _ => {},
}
}

/// An operation on login secrets or permissions keeps the state well
/// formed.
proof fn performed_admin_keeps_wf(
state: StateView,
request: ApiRequestView,
user: RequestUserView,
place: int,
)
requires
    state.wf(),
    request.operation().family() is None,
    request.subject() is Some ==> 0 <= place < state.count(request.subject()->Some_0.0),
ensures
    crate::gateway::performed_admin(state, request, user, place).0.wf(),
{
let after = crate::gateway::performed_admin(state, request, user, place).0;
match request {
        ApiRequestView::UpdateUserPermissionsOnTarget { user_id, target_type, permission, .. } => {
            match target_type {
                ResourceType::Server => {
                    operations_keep_wf(
                        state.servers,
                        place,
                        Seq::empty(),
                        state.servers.items[place].config,
                        state.servers.items[place].info,
                        user_id,
                        permission,
                    );
                    if state.directory.user(user_id) is Some {
                        assert forall|i: int|
                            0 <= i < after.servers.items.len() implies server_is_consistent(
                            #[trigger] after.servers.items[i],
                        ) by {
                            assert(after.servers.items[i].config == state.servers.items[i].config);
                            assert(after.servers.items[i].info == state.servers.items[i].info);
                        }
                    }
                },
                ResourceType::Deployment => {
                    operations_keep_wf(
                        state.deployments,
                        place,
                        Seq::empty(),
                        state.deployments.items[place].config,
                        state.deployments.items[place].info,
                        user_id,
                        permission,
                    );
                },
                ResourceType::Build => {
                    operations_keep_wf(
                        state.builds,
                        place,
                        Seq::empty(),
                        state.builds.items[place].config,
                        state.builds.items[place].info,
                        user_id,
                        permission,
                    );
                },
                ResourceType::Builder => {
                    operations_keep_wf(
                        state.builders,
                        place,
                        Seq::empty(),
                        state.builders.items[place].config,
                        state.builders.items[place].info,
                        user_id,
                        permission,
                    );
                },
                ResourceType::Repo => {
                    operations_keep_wf(
                        state.repos,
                        place,
                        Seq::empty(),
                        state.repos.items[place].config,
                        state.repos.items[place].info,
                        user_id,
                        permission,
                    );
                },
            }
        },
        _ => {},
    }
}

/// Whatever is asked, by whomever, the state stays well formed: names and
/// ids stay distinct within each family, no id is given out twice, and what
/// is known of a server keeps following from its settings.
pub proof fn resolved_keeps_wf(state: StateView, request: ApiRequestView, user: RequestUserView)
    requires
        state.wf(),
    ensures
        resolved(state, request, user).0.wf(),
{
    if let Ok(place) = authorized(state, request, user) {
        crate::request::subject_follows_the_class(request);
        match request.operation().family() {
            None => performed_admin_keeps_wf(state, request, user, place),
            Some(ResourceType::Server) => performed_server_keeps_wf(state, request, user, place),
            Some(ResourceType::Deployment) => performed_deployment_keeps_wf(
                state,
                request,
                user,
                place,
            ),
            Some(ResourceType::Build) => performed_build_keeps_wf(state, request, user, place),
            Some(ResourceType::Builder) => performed_builder_keeps_wf(state, request, user, place),
            Some(ResourceType::Repo) => performed_repo_keeps_wf(state, request, user, place),
        }
    }
}

/// Recording a probe keeps the state well formed: a probe moves a server
/// between `NotOk` and `Okay` and leaves a disabled server disabled.
pub proof fn probed_keeps_wf(state: StateView, reference: Seq<char>, reachable: bool)
    requires
        state.wf(),
    ensures
        state.probed(reference, reachable).wf(),
        state.servers.find(reference) is Some ==> ({
            let place = state.servers.find(reference)->Some_0;
            let before = state.servers.items[place].info.status;
            let after = state.probed(reference, reachable).servers.items[place].info.status;
            &&& 0 <= place < state.servers.items.len()
            &&& after == before.with_probe(reachable)
            &&& (after == ServerStatus::Disabled) == (before == ServerStatus::Disabled)
        }),
{
    if let Some(place) = state.servers.find(reference) {
        let after = state.probed(reference, reachable);
        let held = state.servers.items[place];
        operations_keep_wf(
            state.servers,
            place,
            Seq::empty(),
            held.config,
            ServerListItemInfoView { status: held.info.status.with_probe(reachable), ..held.info },
            Seq::empty(),
            PermissionLevel::NoAccess,
        );
        assert forall|i: int| 0 <= i < after.servers.items.len() implies server_is_consistent(
            #[trigger] after.servers.items[i],
        ) by {
            if i != place {
                assert(after.servers.items[i] == state.servers.items[i]);
            }
        }
    }
}

/// An operation on servers leaves the grants of every resource as they were.
proof fn performed_server_keeps_grants(
    state: StateView,
    request: ApiRequestView,
    user: RequestUserView,
    place: int,
    family: ResourceType,
    id: Seq<char>,
)
    requires
        state.wf(),
        request.operation().family() == Some(ResourceType::Server),
        request.subject() is Some ==> 0 <= place < state.servers.items.len(),
    ensures
        grants_kept(
            state.grants_of(family, id),
            crate::gateway::performed_server(state, request, user, place).0.grants_of(family, id),
        ),
        crate::gateway::performed_server(state, request, user, place).0.directory == state.directory,
{
    match request {
        ApiRequestView::CreateServer { name, config } => {
            let settings = ServerConfigView::defaults().merged(config);
            let info = ServerListItemInfoView::derived(
                settings,
                ServerStatus::NotOk.with_enabled(settings.enabled),
            );
            grants_stay_with_their_resource(state.servers, 0, name, settings, info, id);
        },
        ApiRequestView::DeleteServer { .. } => {
            grants_stay_with_their_resource(
                state.servers,
                place,
                Seq::empty(),
                state.servers.items[place].config,
                state.servers.items[place].info,
                id,
            );
        },
        ApiRequestView::UpdateServer { config, .. } => {
            let settings = state.servers.items[place].config.merged(config);
            let info = ServerListItemInfoView::derived(
                settings,
                state.servers.items[place].info.status.with_enabled(settings.enabled),
            );
            grants_stay_with_their_resource(state.servers, place, Seq::empty(), settings, info, id);
        },
        ApiRequestView::RenameServer { name, .. } => {
            grants_stay_with_their_resource(
                state.servers,
                place,
                name,
                state.servers.items[place].config,
                state.servers.items[place].info,
                id,
            );
        },
        _ => {},
    }
}

/// An operation on deployments leaves the grants of every resource as they were.
proof fn performed_deployment_keeps_grants(
    state: StateView,
    request: ApiRequestView,
    user: RequestUserView,
    place: int,
    family: ResourceType,
    id: Seq<char>,
)
    requires
        state.wf(),
        request.operation().family() == Some(ResourceType::Deployment),
        request.subject() is Some ==> 0 <= place < state.deployments.items.len(),
    ensures
        grants_kept(
            state.grants_of(family, id),
            crate::gateway::performed_deployment(state, request, user, place).0.grants_of(family, id),
        ),
        crate::gateway::performed_deployment(state, request, user, place).0.directory == state.directory,
{
    match request {
        ApiRequestView::CreateDeployment { name, config } => {
            let settings = DeploymentConfigView::defaults().merged(config);
            let info = ();
            grants_stay_with_their_resource(state.deployments, 0, name, settings, info, id);
        },
        ApiRequestView::DeleteDeployment { .. } => {
            grants_stay_with_their_resource(
                state.deployments,
                place,
                Seq::empty(),
                state.deployments.items[place].config,
                state.deployments.items[place].info,
                id,
            );
        },
        ApiRequestView::UpdateDeployment { config, .. } => {
            let settings = state.deployments.items[place].config.merged(config);
            let info = ();
            grants_stay_with_their_resource(state.deployments, place, Seq::empty(), settings, info, id);
        },
        ApiRequestView::RenameDeployment { name, .. } => {
            grants_stay_with_their_resource(
                state.deployments,
                place,
                name,
                state.deployments.items[place].config,
                state.deployments.items[place].info,
                id,
            );
        },
        _ => {},
    }
}

/// An operation on builds leaves the grants of every resource as they were.
proof fn performed_build_keeps_grants(
    state: StateView,
    request: ApiRequestView,
    user: RequestUserView,
    place: int,
    family: ResourceType,
    id: Seq<char>,
)
    requires
        state.wf(),
        request.operation().family() == Some(ResourceType::Build),
        request.subject() is Some ==> 0 <= place < state.builds.items.len(),
    ensures
        grants_kept(
            state.grants_of(family, id),
            crate::gateway::performed_build(state, request, user, place).0.grants_of(family, id),
        ),
        crate::gateway::performed_build(state, request, user, place).0.directory == state.directory,
{
    match request {
        ApiRequestView::CreateBuild { name, config } => {
            let settings = BuildConfigView::defaults().merged(config);
            let info = ();
            grants_stay_with_their_resource(state.builds, 0, name, settings, info, id);
        },
        ApiRequestView::DeleteBuild { .. } => {
            grants_stay_with_their_resource(
                state.builds,
                place,
                Seq::empty(),
                state.builds.items[place].config,
                state.builds.items[place].info,
                id,
            );
        },
        ApiRequestView::UpdateBuild { config, .. } => {
            let settings = state.builds.items[place].config.merged(config);
            let info = ();
            grants_stay_with_their_resource(state.builds, place, Seq::empty(), settings, info, id);
        },
        _ => {},
    }
}

/// An operation on builders leaves the grants of every resource as they were.
proof fn performed_builder_keeps_grants(
    state: StateView,
    request: ApiRequestView,
    user: RequestUserView,
    place: int,
    family: ResourceType,
    id: Seq<char>,
)
    requires
        state.wf(),
        request.operation().family() == Some(ResourceType::Builder),
        request.subject() is Some ==> 0 <= place < state.builders.items.len(),
    ensures
        grants_kept(
            state.grants_of(family, id),
            crate::gateway::performed_builder(state, request, user, place).0.grants_of(family, id),
        ),
        crate::gateway::performed_builder(state, request, user, place).0.directory == state.directory,
{
    match request {
        ApiRequestView::CreateBuilder { name, config } => {
            let settings = BuilderConfigView::defaults().merged(config);
            let info = ();
            grants_stay_with_their_resource(state.builders, 0, name, settings, info, id);
        },
        ApiRequestView::DeleteBuilder { .. } => {
            grants_stay_with_their_resource(
                state.builders,
                place,
                Seq::empty(),
                state.builders.items[place].config,
                state.builders.items[place].info,
                id,
            );
        },
        ApiRequestView::UpdateBuilder { config, .. } => {
            let settings = state.builders.items[place].config.merged(config);
            let info = ();
            grants_stay_with_their_resource(state.builders, place, Seq::empty(), settings, info, id);
        },
        _ => {},
    }
}

/// An operation on repos leaves the grants of every resource as they were.
proof fn performed_repo_keeps_grants(
    state: StateView,
    request: ApiRequestView,
    user: RequestUserView,
    place: int,
    family: ResourceType,
    id: Seq<char>,
)
    requires
        state.wf(),
        request.operation().family() == Some(ResourceType::Repo),
        request.subject() is Some ==> 0 <= place < state.repos.items.len(),
    ensures
        grants_kept(
            state.grants_of(family, id),
            crate::gateway::performed_repo(state, request, user, place).0.grants_of(family, id),
        ),
        crate::gateway::performed_repo(state, request, user, place).0.directory == state.directory,
{
    match request {
        ApiRequestView::CreateRepo { name, config } => {
            let settings = RepoConfigView::defaults().merged(config);
            let info = ();
            grants_stay_with_their_resource(state.repos, 0, name, settings, info, id);
        },
        ApiRequestView::DeleteRepo { .. } => {
            grants_stay_with_their_resource(
                state.repos,
                place,
                Seq::empty(),
                state.repos.items[place].config,
                state.repos.items[place].info,
                id,
            );
        },
        ApiRequestView::UpdateRepo { config, .. } => {
            let settings = state.repos.items[place].config.merged(config);
            let info = ();
            grants_stay_with_their_resource(state.repos, place, Seq::empty(), settings, info, id);
        },
        _ => {},
    }
}

/// What it means that the grants of a resource were left alone: where the
/// resource is there before and after, its grants are the same; and where it
/// was just made, it has none.
pub open spec fn grants_kept(before: Option<Seq<GrantView>>, after: Option<Seq<GrantView>>) -> bool {
    match (before, after) {
        (Some(b), Some(a)) => a == b,
        (None, Some(a)) => a.len() == 0,
        _ => true,
    }
}

/// What principals may do changes through the two operations on permissions
/// and through nothing else. Any other request leaves the grants of every
/// resource as they were, and any request but `UpdateUserPermissions` leaves
/// the users as they were.
pub proof fn only_permission_operations_change_permissions(
    state: StateView,
    request: ApiRequestView,
    user: RequestUserView,
    family: ResourceType,
    id: Seq<char>,
)
    requires
        state.wf(),
    ensures
        !(request is UpdateUserPermissionsOnTarget) ==> grants_kept(
            state.grants_of(family, id),
            resolved(state, request, user).0.grants_of(family, id),
        ),
        !(request is UpdateUserPermissions) ==> resolved(state, request, user).0.directory.users
            == state.directory.users,
{
    if let Ok(place) = authorized(state, request, user) {
        crate::request::subject_follows_the_class(request);
        match request.operation().family() {
            None => {},
            Some(ResourceType::Server) => performed_server_keeps_grants(
                state,
                request,
                user,
                place,
                family,
                id,
            ),
            Some(ResourceType::Deployment) => performed_deployment_keeps_grants(
                state,
                request,
                user,
                place,
                family,
                id,
            ),
            Some(ResourceType::Build) => performed_build_keeps_grants(
                state,
                request,
                user,
                place,
                family,
                id,
            ),
            Some(ResourceType::Builder) => performed_builder_keeps_grants(
                state,
                request,
                user,
                place,
                family,
                id,
            ),
            Some(ResourceType::Repo) => performed_repo_keeps_grants(
                state,
                request,
                user,
                place,
                family,
                id,
            ),
        }
    }
}

/// A caller who is no administrator and whose level on the resource that a
/// request names is below what the operation asks for is refused with
/// `PermissionDenied`, which names the resource as the request names it and
/// the level asked for, and nothing changes. Once a level that covers what the
/// operation asks for is recorded for the caller on that resource, the same
/// request is let through.
pub proof fn level_decides(
    state: StateView,
    request: ApiRequestView,
    user: RequestUserView,
    raised: PermissionLevel,
)
    requires
        state.wf(),
        !user.is_admin,
        request.operation().requirement() is Level,
        request.operation().class() != OperationClass::Create,
        request.subject() is Some,
        state.target(request.subject()->Some_0.0, request.subject()->Some_0.1) is Some,
    ensures
        ({
            let family = request.subject()->Some_0.0;
            let target = state.target(family, request.subject()->Some_0.1)->Some_0;
            let required = request.operation().requirement()->Level_0;
            let held = recorded_level(target.permissions, user.id);
            let after = state.granted(family, target.place, user.id, raised);
            &&& !held.covers(required) ==> resolved(state, request, user) == (
                state,
                Err::<StepView, ApiErrorView>(
                    denied(
                        Entity::resource(family),
                        request.subject()->Some_0.1,
                        Requirement::Level(required),
                    ),
                ),
            )
            &&& held.covers(required) ==> authorized(state, request, user) == Ok::<
                int,
                ApiErrorView,
            >(target.place)
            &&& raised.covers(required) ==> authorized(after, request, user) == Ok::<
                int,
                ApiErrorView,
            >(target.place) && resolved(after, request, user) == performed(
                after,
                request,
                user,
                target.place,
            )
        }),
{
    let family = request.subject()->Some_0.0;
    let reference = request.subject()->Some_0.1;
    let target = state.target(family, reference)->Some_0;
    let after = state.granted(family, target.place, user.id, raised);
    with_level_sets_one(target.permissions, user.id, raised, user.id);
    match family {
        ResourceType::Server => {
            granting_keeps_places(state.servers, target.place, user.id, raised, reference);
        },
        ResourceType::Deployment => {
            granting_keeps_places(state.deployments, target.place, user.id, raised, reference);
        },
        ResourceType::Build => {
            granting_keeps_places(state.builds, target.place, user.id, raised, reference);
        },
        ResourceType::Builder => {
            granting_keeps_places(state.builders, target.place, user.id, raised, reference);
        },
        ResourceType::Repo => {
            granting_keeps_places(state.repos, target.place, user.id, raised, reference);
        },
    }
}

/// Recording a level on a resource moves nothing: every id and name stands
/// for the resource at the same place as before.
pub proof fn granting_keeps_places<C, I>(
    c: CollectionView<C, I>,
    place: int,
    user_id: Seq<char>,
    level: PermissionLevel,
    reference: Seq<char>,
)
    requires
        c.wf(),
        0 <= place < c.items.len(),
    ensures
        c.granted(place, user_id, level).find(reference) == c.find(reference),
        c.granted(place, user_id, level).items.len() == c.items.len(),
{
    let after = c.granted(place, user_id, level);
    assert forall|i: int| 0 <= i < c.items.len() implies (#[trigger] after.items[i]).id
        == c.items[i].id && after.items[i].name == c.items[i].name by {}
    if c.has_id(reference) {
        let i = c.index_of_id(reference);
        assert(after.items[i].id == reference);
        let k = after.index_of_id(reference);
        assert(c.items[k].id == after.items[k].id);
    }
    if after.has_id(reference) {
        let k = after.index_of_id(reference);
        assert(c.items[k].id == reference);
    }
    if c.has_name(reference) {
        let i = c.index_of_name(reference);
        assert(after.items[i].name == reference);
        let k = after.index_of_name(reference);
        assert(c.items[k].name == after.items[k].name);
    }
    if after.has_name(reference) {
        let k = after.index_of_name(reference);
        assert(c.items[k].name == reference);
    }
}

/// A listing is never refused: whoever asks gets the resources that the
/// caller may read, all of them and no others, and the state stays as it is.
pub proof fn listings_are_never_refused(state: StateView, user: RequestUserView, request: ApiRequestView)
    requires
        request.operation().class() == OperationClass::List,
    ensures
        resolved(state, request, user).0 == state,
        resolved(state, request, user).1 == Ok::<StepView, ApiErrorView>(
            StepView::Done(
                match request.operation().family() {
                    Some(ResourceType::Server) => ResponseView::Servers(
                        listing(visible(state.servers.items, user)),
                    ),
                    Some(ResourceType::Deployment) => ResponseView::Deployments(
                        listing(visible(state.deployments.items, user)),
                    ),
                    Some(ResourceType::Build) => ResponseView::Builds(
                        listing(visible(state.builds.items, user)),
                    ),
                    Some(ResourceType::Builder) => ResponseView::Builders(
                        listing(visible(state.builders.items, user)),
                    ),
                    _ => ResponseView::Repos(listing(visible(state.repos.items, user))),
                },
            ),
        ),
{
}

/// An operation that reads, lists, or calls an agent leaves the state as it
/// is. So does any request that fails.
pub proof fn only_writes_change_the_state(state: StateView, request: ApiRequestView, user: RequestUserView)
    ensures
        request.operation().class() == OperationClass::Get || request.operation().class()
            == OperationClass::List || request.operation().class() == OperationClass::AgentRead
            || request.operation().class() == OperationClass::Action ==> resolved(
            state,
            request,
            user,
        ).0 == state,
        resolved(state, request, user).1 is Err ==> resolved(state, request, user).0 == state,
{
}

/// Pruning can be asked for again and again: the request changes nothing,
/// so a second one is answered as the first was.
pub proof fn pruning_again_is_fine(state: StateView, request: ApiRequestView, user: RequestUserView)
    requires
        request is PruneContainers || request is PruneImages || request is PruneNetworks,
    ensures
        resolved(state, request, user).0 == state,
        resolved(resolved(state, request, user).0, request, user) == resolved(state, request, user),
{
    only_writes_change_the_state(state, request, user);
}

/// Whatever the agent reports with a success status is the answer to a
/// request, an empty report of nothing pruned included: there is no failure
/// for "nothing to do".
pub proof fn any_report_is_an_answer(
    operation: Operation,
    server: Seq<char>,
    status: u16,
    report: JsonValue,
)
    requires
        is_success(status),
    ensures
        completed(operation, server, AgentOutcomeView::Replied { status, body: Some(report) })
            == Ok::<ResponseView, ApiErrorView>(ResponseView::Agent(report)),
{
}

/// The operations on permissions are for administrators: anyone else is
/// refused before anything is looked up, and nothing changes.
pub proof fn permissions_are_for_administrators(
    state: StateView,
    request: ApiRequestView,
    user: RequestUserView,
)
    requires
        request.operation().class() == OperationClass::Permission,
        !user.is_admin,
    ensures
        resolved(state, request, user) == (
            state,
            Err::<StepView, ApiErrorView>(
                denied(concerns(request).0, concerns(request).1, Requirement::Admin),
            ),
        ),
{
}

/// When the agent cannot be reached the request fails with
/// `UpstreamAgentError`, which carries the name of the server and the cause.
/// Its trace is the name of the operation and then the cause.
pub proof fn unreachable_agents_are_reported(operation: Operation, server: Seq<char>, cause: Seq<char>)
    ensures
        completed(operation, server, AgentOutcomeView::Failed { cause }) == Err::<
            ResponseView,
            ApiErrorView,
        >(
            ApiErrorView {
                failure: crate::error::FailureView::UpstreamAgentError { server, cause },
                trace: seq![operation.name_text(), cause],
            },
        ),
{
    assert(seq![operation.name_text()] + seq![cause] =~= seq![operation.name_text(), cause]);
}

/// A call to an agent is made for the operation that was asked for, with
/// the passkey and the time limit of the client. What only reads is a `Get`
/// without a document, and what acts on the host is a `Post` with one.
pub proof fn agent_calls_follow_the_class(state: StateView, request: ApiRequestView, user: RequestUserView)
    ensures
        match resolved(state, request, user).1 {
            Ok(StepView::Agent { operation, request: call }) => {
                &&& operation == request.operation()
                &&& call.passkey == state.periphery.passkey
                &&& call.timeout_seconds == state.periphery.timeout_seconds
                &&& operation.class() == OperationClass::AgentRead ==> call.method == Method::Get
                    && call.body is None
                &&& operation.class() == OperationClass::Action ==> call.method == Method::Post
                    && call.body is Some
                &&& operation.class() == OperationClass::AgentRead || operation.class()
                    == OperationClass::Action
            },
            _ => true,
        },
{
}

} // verus!
