//! How settings, resources and listings are written as documents.
use vstd::prelude::*;
use crate::entities::{
    BuildConfig, BuildConfigView, BuilderConfig, BuilderConfigView, DeploymentConfig,
    DeploymentConfigView, RepoConfig, RepoConfigView,
};
use crate::json::{Json, JsonValue};
use crate::permission::{GrantView, Permissions};
use crate::resource::{Resource, ResourceListItem, ResourceListItemView, ResourceView};
use crate::server::{
    ServerConfig, ServerConfigView, ServerListItemInfo, ServerListItemInfoView,
};

verus! {

/// The grants of a resource as a document: a list with, for each grant, the
/// principal under `user_id` and the name of the level under `level`.
pub open spec fn grants_json(grants: Seq<GrantView>) -> JsonValue {
    JsonValue::Array(
        Seq::new(
            grants.len(),
            |i: int|
                JsonValue::empty().with("user_id"@, JsonValue::Str(grants[i].user_id)).with(
                    "level"@,
                    JsonValue::Str(grants[i].level.name_text()),
                ),
        ),
    )
}

impl Permissions {
    /// The grants as a document.
    pub fn to_json(&self) -> (j: Json)
        ensures
            j@ == grants_json(self@),
    {
        let mut items: Vec<Json> = Vec::new();
        let mut i: usize = 0;
        while i < self.len()
            invariant
                i <= self@.len(),
                items@.len() == i,
                forall|k: int|
                    0 <= k < i ==> (#[trigger] items@[k]).model() == JsonValue::empty().with(
                        "user_id"@,
                        JsonValue::Str(self@[k].user_id),
                    ).with("level"@, JsonValue::Str(self@[k].level.name_text())),
            decreases self@.len() - i,
        {
            let grant = self.get(i);
            items.push(
                Json::empty_object().with("user_id", Json::Str(grant.user_id.clone())).with(
                    "level",
                    Json::text(grant.level.name()),
                ),
            );
            i += 1;
        }
        let j = Json::Array(items);
        assert(j@->Array_0 =~= grants_json(self@)->Array_0);
        j
    }
}

impl ServerConfigView {
    /// The settings as a document, one field for each.
    pub open spec fn json(self) -> JsonValue {
        JsonValue::empty().with("address"@, JsonValue::Str(self.address)).with(
            "enabled"@,
            JsonValue::Bool(self.enabled),
        ).with("auto_prune"@, JsonValue::Bool(self.auto_prune)).with(
            "send_unreachable_alerts"@,
            JsonValue::Bool(self.send_unreachable_alerts),
        ).with("send_cpu_alerts"@, JsonValue::Bool(self.send_cpu_alerts)).with(
            "send_mem_alerts"@,
            JsonValue::Bool(self.send_mem_alerts),
        ).with("send_disk_alerts"@, JsonValue::Bool(self.send_disk_alerts)).with(
            "send_temp_alerts"@,
            JsonValue::Bool(self.send_temp_alerts),
        ).with("region"@, JsonValue::Str(self.region)).with(
            "cpu_warning"@,
            JsonValue::Int(self.cpu_warning as int),
        ).with("cpu_critical"@, JsonValue::Int(self.cpu_critical as int)).with(
            "mem_warning"@,
            JsonValue::Int(self.mem_warning as int),
        ).with("mem_critical"@, JsonValue::Int(self.mem_critical as int)).with(
            "disk_warning"@,
            JsonValue::Int(self.disk_warning as int),
        ).with("disk_critical"@, JsonValue::Int(self.disk_critical as int))
    }
}

impl ServerConfig {
    /// The settings as a document.
    pub fn to_json(&self) -> (j: Json)
        ensures
            j@ == self@.json(),
    {
        Json::empty_object().with("address", Json::Str(self.address.clone())).with(
            "enabled",
            Json::Bool(self.enabled),
        ).with("auto_prune", Json::Bool(self.auto_prune)).with(
            "send_unreachable_alerts",
            Json::Bool(self.send_unreachable_alerts),
        ).with("send_cpu_alerts", Json::Bool(self.send_cpu_alerts)).with(
            "send_mem_alerts",
            Json::Bool(self.send_mem_alerts),
        ).with("send_disk_alerts", Json::Bool(self.send_disk_alerts)).with(
            "send_temp_alerts",
            Json::Bool(self.send_temp_alerts),
        ).with("region", Json::Str(self.region.clone())).with(
            "cpu_warning",
            Json::Int(self.cpu_warning as i64),
        ).with("cpu_critical", Json::Int(self.cpu_critical as i64)).with(
            "mem_warning",
            Json::Int(self.mem_warning as i64),
        ).with("mem_critical", Json::Int(self.mem_critical as i64)).with(
            "disk_warning",
            Json::Int(self.disk_warning as i64),
        ).with("disk_critical", Json::Int(self.disk_critical as i64))
    }
}

impl ServerListItemInfoView {
    /// What a listing shows of a server, as a document.
    pub open spec fn json(self) -> JsonValue {
        JsonValue::empty().with("status"@, JsonValue::Str(self.status.name_text())).with(
            "region"@,
            JsonValue::Str(self.region),
        ).with("send_unreachable_alerts"@, JsonValue::Bool(self.send_unreachable_alerts)).with(
            "send_cpu_alerts"@,
            JsonValue::Bool(self.send_cpu_alerts),
        ).with("send_mem_alerts"@, JsonValue::Bool(self.send_mem_alerts)).with(
            "send_disk_alerts"@,
            JsonValue::Bool(self.send_disk_alerts),
        ).with("send_temp_alerts"@, JsonValue::Bool(self.send_temp_alerts))
    }
}

impl ServerListItemInfo {
    /// What a listing shows of a server, as a document.
    pub fn to_json(&self) -> (j: Json)
        ensures
            j@ == self@.json(),
    {
        Json::empty_object().with("status", Json::text(self.status.name())).with(
            "region",
            Json::Str(self.region.clone()),
        ).with("send_unreachable_alerts", Json::Bool(self.send_unreachable_alerts)).with(
            "send_cpu_alerts",
            Json::Bool(self.send_cpu_alerts),
        ).with("send_mem_alerts", Json::Bool(self.send_mem_alerts)).with(
            "send_disk_alerts",
            Json::Bool(self.send_disk_alerts),
        ).with("send_temp_alerts", Json::Bool(self.send_temp_alerts))
    }
}

impl DeploymentConfigView {
    /// The settings as a document, one field for each.
    pub open spec fn json(self) -> JsonValue {
        JsonValue::empty().with("server_id"@, JsonValue::Str(self.server_id)).with(
            "image"@,
            JsonValue::Str(self.image),
        )
    }
}

impl DeploymentConfig {
    /// The settings as a document.
    pub fn to_json(&self) -> (j: Json)
        ensures
            j@ == self@.json(),
    {
        Json::empty_object().with("server_id", Json::Str(self.server_id.clone())).with(
            "image",
            Json::Str(self.image.clone()),
        )
    }
}

impl BuildConfigView {
    /// The settings as a document, one field for each.
    pub open spec fn json(self) -> JsonValue {
        JsonValue::empty().with("builder_id"@, JsonValue::Str(self.builder_id)).with(
            "repo"@,
            JsonValue::Str(self.repo),
        )
    }
}

impl BuildConfig {
    /// The settings as a document.
    pub fn to_json(&self) -> (j: Json)
        ensures
            j@ == self@.json(),
    {
        Json::empty_object().with("builder_id", Json::Str(self.builder_id.clone())).with(
            "repo",
            Json::Str(self.repo.clone()),
        )
    }
}

impl BuilderConfigView {
    /// The settings as a document, one field for each.
    pub open spec fn json(self) -> JsonValue {
        JsonValue::empty().with("server_id"@, JsonValue::Str(self.server_id))
    }
}

impl BuilderConfig {
    /// The settings as a document.
    pub fn to_json(&self) -> (j: Json)
        ensures
            j@ == self@.json(),
    {
        Json::empty_object().with("server_id", Json::Str(self.server_id.clone()))
    }
}

impl RepoConfigView {
    /// The settings as a document, one field for each.
    pub open spec fn json(self) -> JsonValue {
        JsonValue::empty().with("server_id"@, JsonValue::Str(self.server_id)).with(
            "repo"@,
            JsonValue::Str(self.repo),
        )
    }
}

impl RepoConfig {
    /// The settings as a document.
    pub fn to_json(&self) -> (j: Json)
        ensures
            j@ == self@.json(),
    {
        Json::empty_object().with("server_id", Json::Str(self.server_id.clone())).with(
            "repo",
            Json::Str(self.repo.clone()),
        )
    }
}

impl<C, I> ResourceView<C, I> {
    /// The resource as a document, given its settings and what is known of
    /// it as documents.
    pub open spec fn document(self, config: JsonValue, info: JsonValue) -> JsonValue {
        JsonValue::empty().with("id"@, JsonValue::Str(self.id)).with(
            "name"@,
            JsonValue::Str(self.name),
        ).with("config"@, config).with("info"@, info).with(
            "permissions"@,
            grants_json(self.permissions),
        )
    }
}

impl<C: View, I: View> Resource<C, I> {
    /// The resource as a document, given its settings and what is known of
    /// it as documents.
    pub fn document(&self, config: Json, info: Json) -> (j: Json)
        ensures
            j@ == self@.document(config@, info@),
    {
        Json::empty_object().with("id", Json::Str(self.id.clone())).with(
            "name",
            Json::Str(self.name.clone()),
        ).with("config", config).with("info", info).with("permissions", self.permissions.to_json())
    }
}

impl<I> ResourceListItemView<I> {
    /// The entry of a listing as a document, given what is known of the
    /// resource as a document.
    pub open spec fn document(self, info: JsonValue) -> JsonValue {
        JsonValue::empty().with("id"@, JsonValue::Str(self.id)).with(
            "name"@,
            JsonValue::Str(self.name),
        ).with("info"@, info)
    }
}

impl<I: View> ResourceListItem<I> {
    /// The entry of a listing as a document.
    pub fn document(&self, info: Json) -> (j: Json)
        ensures
            j@ == self@.document(info@),
    {
        Json::empty_object().with("id", Json::Str(self.id.clone())).with(
            "name",
            Json::Str(self.name.clone()),
        ).with("info", info)
    }
}


impl ResourceView<ServerConfigView, ServerListItemInfoView> {
    /// The server as a document.
    pub open spec fn json(self) -> JsonValue {
        self.document(self.config.json(), self.info.json())
    }
}

impl Resource<ServerConfig, ServerListItemInfo> {
    /// The server as a document.
    pub fn to_json(&self) -> (j: Json)
        ensures
            j@ == self@.json(),
    {
        self.document(self.config.to_json(), self.info.to_json())
    }
}

impl ResourceView<DeploymentConfigView, ()> {
    /// The deployment as a document.
    pub open spec fn json(self) -> JsonValue {
        self.document(self.config.json(), JsonValue::Null)
    }
}

impl Resource<DeploymentConfig, ()> {
    /// The deployment as a document.
    pub fn to_json(&self) -> (j: Json)
        ensures
            j@ == self@.json(),
    {
        self.document(self.config.to_json(), Json::Null)
    }
}

impl ResourceView<BuildConfigView, ()> {
    /// The build as a document.
    pub open spec fn json(self) -> JsonValue {
        self.document(self.config.json(), JsonValue::Null)
    }
}

impl Resource<BuildConfig, ()> {
    /// The build as a document.
    pub fn to_json(&self) -> (j: Json)
        ensures
            j@ == self@.json(),
    {
        self.document(self.config.to_json(), Json::Null)
    }
}

impl ResourceView<BuilderConfigView, ()> {
    /// The builder as a document.
    pub open spec fn json(self) -> JsonValue {
        self.document(self.config.json(), JsonValue::Null)
    }
}

impl Resource<BuilderConfig, ()> {
    /// The builder as a document.
    pub fn to_json(&self) -> (j: Json)
        ensures
            j@ == self@.json(),
    {
        self.document(self.config.to_json(), Json::Null)
    }
}

impl ResourceView<RepoConfigView, ()> {
    /// The repo as a document.
    pub open spec fn json(self) -> JsonValue {
        self.document(self.config.json(), JsonValue::Null)
    }
}

impl Resource<RepoConfig, ()> {
    /// The repo as a document.
    pub fn to_json(&self) -> (j: Json)
        ensures
            j@ == self@.json(),
    {
        self.document(self.config.to_json(), Json::Null)
    }
}

impl ResourceListItemView<ServerListItemInfoView> {
    /// The entry as a document.
    pub open spec fn json(self) -> JsonValue {
        self.document(self.info.json())
    }
}

impl ResourceListItem<ServerListItemInfo> {
    /// The entry as a document.
    pub fn to_json(&self) -> (j: Json)
        ensures
            j@ == self@.json(),
    {
        self.document(self.info.to_json())
    }
}

impl ResourceListItemView<()> {
    /// The entry as a document.
    pub open spec fn json(self) -> JsonValue {
        self.document(JsonValue::Null)
    }
}

impl ResourceListItem<()> {
    /// The entry as a document.
    pub fn to_json(&self) -> (j: Json)
        ensures
            j@ == self@.json(),
    {
        self.document(Json::Null)
    }
}

} // verus!
