//! Requests as documents. A request travels as an object with the name of
//! its operation under `type` and its parameters under `params`; reading the
//! document back gives the request that was written.
use vstd::prelude::*;
use crate::entities::{
    PartialBuildConfig, PartialBuildConfigView, PartialBuilderConfig, PartialBuilderConfigView,
    PartialDeploymentConfig, PartialDeploymentConfigView, PartialRepoConfig,
    PartialRepoConfigView,
};
use crate::json::{record, record_field, Json, JsonValue};
use crate::permission::{PermissionLevel, ResourceType};
use crate::request::{ApiRequest, ApiRequestView, Operation};
use crate::server::{PartialServerConfig, PartialServerConfigView, ServerQuerySpecifics};
use crate::text::{mark, reads_as};

verus! {

/// What a lookup finds in an object that got one more field: what it found
/// before, or else the new field where the key is its name.
pub broadcast proof fn field_of_with(
    object: JsonValue,
    key: Seq<char>,
    value: JsonValue,
    wanted: Seq<char>,
)
    requires
        object is Object,
    ensures
        object.with(key, value) is Object,
        #[trigger] object.with(key, value).field(wanted) == if object.field(wanted) is Some {
            object.field(wanted)
        } else if wanted == key {
            Some(value)
        } else {
            None
        },
{
    crate::json::field_after_with(object, key, value, wanted);
}

/// What a lookup finds in an object that got a field or none.
pub broadcast proof fn field_of_with_opt(
    object: JsonValue,
    key: Seq<char>,
    value: Option<JsonValue>,
    wanted: Seq<char>,
)
    requires
        object is Object,
    ensures
        object.with_opt(key, value) is Object,
        #[trigger] object.with_opt(key, value).field(wanted) == if object.field(wanted) is Some {
            object.field(wanted)
        } else if wanted == key {
            value
        } else {
            None
        },
{
    if let Some(v) = value {
        crate::json::field_after_with(object, key, v, wanted);
    }
}

/// A text that may be absent, as the field of a document.
pub open spec fn text_json(value: Option<Seq<char>>) -> Option<JsonValue> {
    match value {
        Some(s) => Some(JsonValue::Str(s)),
        None => None,
    }
}

/// A flag that may be absent, as the field of a document.
pub open spec fn flag_json(value: Option<bool>) -> Option<JsonValue> {
    match value {
        Some(b) => Some(JsonValue::Bool(b)),
        None => None,
    }
}

/// A threshold that may be absent, as the field of a document.
pub open spec fn number_json(value: Option<u32>) -> Option<JsonValue> {
    match value {
        Some(n) => Some(JsonValue::Int(n as int)),
        None => None,
    }
}

/// A time that may be absent, as the field of a document.
pub open spec fn time_json(value: Option<i64>) -> Option<JsonValue> {
    match value {
        Some(n) => Some(JsonValue::Int(n as int)),
        None => None,
    }
}

/// The text under `key`, which must be there.
pub open spec fn req_text(j: JsonValue, key: Seq<char>) -> Option<Seq<char>> {
    match j.field(key) {
        Some(JsonValue::Str(s)) => Some(s),
        _ => None,
    }
}

/// The text under `key`, which may be missing or `null`; none where what is
/// there is no text.
pub open spec fn opt_text(j: JsonValue, key: Seq<char>) -> Option<Option<Seq<char>>> {
    match j.field(key) {
        None | Some(JsonValue::Null) => Some(None),
        Some(JsonValue::Str(s)) => Some(Some(s)),
        _ => None,
    }
}

/// The flag under `key`, which may be missing or `null`.
pub open spec fn opt_flag(j: JsonValue, key: Seq<char>) -> Option<Option<bool>> {
    match j.field(key) {
        None | Some(JsonValue::Null) => Some(None),
        Some(JsonValue::Bool(b)) => Some(Some(b)),
        _ => None,
    }
}

/// The threshold under `key`, which may be missing or `null`.
pub open spec fn opt_number(j: JsonValue, key: Seq<char>) -> Option<Option<u32>> {
    match j.field(key) {
        None | Some(JsonValue::Null) => Some(None),
        Some(JsonValue::Int(n)) => if 0 <= n <= u32::MAX {
            Some(Some(n as u32))
        } else {
            None
        },
        _ => None,
    }
}

/// The time under `key`, which may be missing or `null`.
pub open spec fn opt_time(j: JsonValue, key: Seq<char>) -> Option<Option<i64>> {
    match j.field(key) {
        None | Some(JsonValue::Null) => Some(None),
        Some(JsonValue::Int(n)) => if i64::MIN <= n <= i64::MAX {
            Some(Some(n as i64))
        } else {
            None
        },
        _ => None,
    }
}

/// A text that was written under `key` is read back from there.
proof fn read_text(j: JsonValue, key: Seq<char>, value: Option<Seq<char>>)
    requires
        j.field(key) == text_json(value),
    ensures
        opt_text(j, key) == Some(value),
{
}

/// A flag that was written under `key` is read back from there.
proof fn read_flag(j: JsonValue, key: Seq<char>, value: Option<bool>)
    requires
        j.field(key) == flag_json(value),
    ensures
        opt_flag(j, key) == Some(value),
{
}

/// A threshold that was written under `key` is read back from there.
proof fn read_number(j: JsonValue, key: Seq<char>, value: Option<u32>)
    requires
        j.field(key) == number_json(value),
    ensures
        opt_number(j, key) == Some(value),
{
}

/// The time under `key`, which must be there.
pub open spec fn req_time(j: JsonValue, key: Seq<char>) -> Option<i64> {
    match j.field(key) {
        Some(JsonValue::Int(n)) => if i64::MIN <= n <= i64::MAX {
            Some(n as i64)
        } else {
            None
        },
        _ => None,
    }
}

/// The level of this name.
pub open spec fn level_named(name: Seq<char>) -> Option<PermissionLevel> {
    if name == "None"@ {
        Some(PermissionLevel::NoAccess)
    } else if name == "Read"@ {
        Some(PermissionLevel::Read)
    } else if name == "Write"@ {
        Some(PermissionLevel::Write)
    } else if name == "Execute"@ {
        Some(PermissionLevel::Execute)
    } else {
        None
    }
}

/// The family of this name.
pub open spec fn family_named(name: Seq<char>) -> Option<ResourceType> {
    if name == "Server"@ {
        Some(ResourceType::Server)
    } else if name == "Deployment"@ {
        Some(ResourceType::Deployment)
    } else if name == "Build"@ {
        Some(ResourceType::Build)
    } else if name == "Builder"@ {
        Some(ResourceType::Builder)
    } else if name == "Repo"@ {
        Some(ResourceType::Repo)
    } else {
        None
    }
}

/// Every level is the level of its name, and every family the family of its
/// name.
pub proof fn level_names_round_trip()
    ensures
        forall|level: PermissionLevel| #[trigger] level_named(level.name_text()) == Some(level),
        forall|family: ResourceType| #[trigger] family_named(family.name_text()) == Some(family),
{
    reveal_strlit("None");
    reveal_strlit("Read");
    reveal_strlit("Write");
    reveal_strlit("Execute");
    reveal_strlit("Server");
    reveal_strlit("Deployment");
    reveal_strlit("Build");
    reveal_strlit("Builder");
    reveal_strlit("Repo");
    assert(mark("None"@, 0, 0) == (4nat, 'N', 'N'));
    assert(mark("Read"@, 0, 0) == (4nat, 'R', 'R'));
    assert(mark("Write"@, 0, 0) == (5nat, 'W', 'W'));
    assert(mark("Execute"@, 0, 0) == (7nat, 'E', 'E'));
    assert(mark("Server"@, 0, 0) == (6nat, 'S', 'S'));
    assert(mark("Deployment"@, 0, 0) == (10nat, 'D', 'D'));
    assert(mark("Build"@, 0, 0) == (5nat, 'B', 'B'));
    assert(mark("Builder"@, 0, 0) == (7nat, 'B', 'B'));
    assert(mark("Repo"@, 0, 0) == (4nat, 'R', 'R'));
    assert forall|level: PermissionLevel| #[trigger]
        level_named(level.name_text()) == Some(level) by {}
    assert forall|family: ResourceType| #[trigger]
        family_named(family.name_text()) == Some(family) by {}
}

/// The level under `key`, which must be there.
pub open spec fn req_level(j: JsonValue, key: Seq<char>) -> Option<PermissionLevel> {
    match req_text(j, key) {
        Some(name) => level_named(name),
        None => None,
    }
}

/// The family under `key`, which must be there.
pub open spec fn req_family(j: JsonValue, key: Seq<char>) -> Option<ResourceType> {
    match req_text(j, key) {
        Some(name) => family_named(name),
        None => None,
    }
}

/// The parameters of a request document: what stands under `params`, or the
/// empty object where nothing does.
pub open spec fn params_of(j: JsonValue) -> JsonValue {
    match j.field("params"@) {
        Some(params) => params,
        None => JsonValue::empty(),
    }
}

/// The settings of a server that the parameters give under `config`:
/// nothing where there is no such field.
pub open spec fn parsed_server_config(params: JsonValue) -> Option<PartialServerConfigView> {
    match params.field("config"@) {
        Some(config) => PartialServerConfigView::parsed(config),
        None => Some(PartialServerConfigView::nothing()),
    }
}

/// The settings of a deployment that the parameters give under `config`.
pub open spec fn parsed_deployment_config(params: JsonValue) -> Option<PartialDeploymentConfigView> {
    match params.field("config"@) {
        Some(config) => PartialDeploymentConfigView::parsed(config),
        None => Some(PartialDeploymentConfigView { server_id: None, image: None }),
    }
}

/// The settings of a build that the parameters give under `config`.
pub open spec fn parsed_build_config(params: JsonValue) -> Option<PartialBuildConfigView> {
    match params.field("config"@) {
        Some(config) => PartialBuildConfigView::parsed(config),
        None => Some(PartialBuildConfigView { builder_id: None, repo: None }),
    }
}

/// The settings of a builder that the parameters give under `config`.
pub open spec fn parsed_builder_config(params: JsonValue) -> Option<PartialBuilderConfigView> {
    match params.field("config"@) {
        Some(config) => PartialBuilderConfigView::parsed(config),
        None => Some(PartialBuilderConfigView { server_id: None }),
    }
}

/// The settings of a repo that the parameters give under `config`.
pub open spec fn parsed_repo_config(params: JsonValue) -> Option<PartialRepoConfigView> {
    match params.field("config"@) {
        Some(config) => PartialRepoConfigView::parsed(config),
        None => Some(PartialRepoConfigView { server_id: None, repo: None }),
    }
}

fn text_to_json(value: &Option<String>) -> (j: Option<Json>)
    ensures
        match j {
            Some(j) => text_json(crate::server::text_of(*value)) == Some(j@),
            None => text_json(crate::server::text_of(*value)) is None,
        },
{
    match value {
        Some(s) => Some(Json::Str(s.clone())),
        None => None,
    }
}

fn flag_to_json(value: Option<bool>) -> (j: Option<Json>)
    ensures
        match j {
            Some(j) => flag_json(value) == Some(j@),
            None => flag_json(value) is None,
        },
{
    match value {
        Some(b) => Some(Json::Bool(b)),
        None => None,
    }
}

fn number_to_json(value: Option<u32>) -> (j: Option<Json>)
    ensures
        match j {
            Some(j) => number_json(value) == Some(j@),
            None => number_json(value) is None,
        },
{
    match value {
        Some(n) => Some(Json::Int(n as i64)),
        None => None,
    }
}

fn time_to_json(value: Option<i64>) -> (j: Option<Json>)
    ensures
        match j {
            Some(j) => time_json(value) == Some(j@),
            None => time_json(value) is None,
        },
{
    match value {
        Some(n) => Some(Json::Int(n)),
        None => None,
    }
}

/// The text under `key`, which must be there.
pub fn get_text(j: &Json, key: &str) -> (r: Option<String>)
    ensures
        match r {
            Some(s) => req_text(j@, key@) == Some(s@),
            None => req_text(j@, key@) is None,
        },
{
    match j.get(key) {
        Some(Json::Str(s)) => Some(s.clone()),
        _ => None,
    }
}

/// The text under `key`, which may be missing or `null`.
pub fn get_opt_text(j: &Json, key: &str) -> (r: Option<Option<String>>)
    ensures
        match r {
            Some(value) => opt_text(j@, key@) == Some(crate::server::text_of(value)),
            None => opt_text(j@, key@) is None,
        },
{
    match j.get(key) {
        None => Some(None),
        Some(Json::Null) => Some(None),
        Some(Json::Str(s)) => Some(Some(s.clone())),
        _ => None,
    }
}

/// The flag under `key`, which may be missing or `null`.
pub fn get_opt_flag(j: &Json, key: &str) -> (r: Option<Option<bool>>)
    ensures
        r == opt_flag(j@, key@),
{
    match j.get(key) {
        None => Some(None),
        Some(Json::Null) => Some(None),
        Some(Json::Bool(b)) => Some(Some(*b)),
        _ => None,
    }
}

/// The threshold under `key`, which may be missing or `null`.
pub fn get_opt_number(j: &Json, key: &str) -> (r: Option<Option<u32>>)
    ensures
        r == opt_number(j@, key@),
{
    match j.get(key) {
        None => Some(None),
        Some(Json::Null) => Some(None),
        Some(Json::Int(n)) => {
            if 0 <= *n && *n <= 4294967295 {
                Some(Some(*n as u32))
            } else {
                None
            }
        },
        _ => None,
    }
}

/// The time under `key`, which may be missing or `null`.
pub fn get_opt_time(j: &Json, key: &str) -> (r: Option<Option<i64>>)
    ensures
        r == opt_time(j@, key@),
{
    match j.get(key) {
        None => Some(None),
        Some(Json::Null) => Some(None),
        Some(Json::Int(n)) => Some(Some(*n)),
        _ => None,
    }
}

/// The time under `key`, which must be there.
pub fn get_time(j: &Json, key: &str) -> (r: Option<i64>)
    ensures
        r == req_time(j@, key@),
{
    match j.get(key) {
        Some(Json::Int(n)) => Some(*n),
        _ => None,
    }
}

/// The level under `key`, which must be there.
pub fn get_level(j: &Json, key: &str) -> (r: Option<PermissionLevel>)
    ensures
        r == req_level(j@, key@),
{
    match get_text(j, key) {
        Some(name) => {
            if reads_as(&name, "None") {
                Some(PermissionLevel::NoAccess)
            } else if reads_as(&name, "Read") {
                Some(PermissionLevel::Read)
            } else if reads_as(&name, "Write") {
                Some(PermissionLevel::Write)
            } else if reads_as(&name, "Execute") {
                Some(PermissionLevel::Execute)
            } else {
                None
            }
        },
        None => None,
    }
}

/// The family under `key`, which must be there.
pub fn get_family(j: &Json, key: &str) -> (r: Option<ResourceType>)
    ensures
        r == req_family(j@, key@),
{
    match get_text(j, key) {
        Some(name) => {
            if reads_as(&name, "Server") {
                Some(ResourceType::Server)
            } else if reads_as(&name, "Deployment") {
                Some(ResourceType::Deployment)
            } else if reads_as(&name, "Build") {
                Some(ResourceType::Build)
            } else if reads_as(&name, "Builder") {
                Some(ResourceType::Builder)
            } else if reads_as(&name, "Repo") {
                Some(ResourceType::Repo)
            } else {
                None
            }
        },
        None => None,
    }
}

fn get_server_config(params: &Json) -> (r: Option<PartialServerConfig>)
    ensures
        match r {
            Some(p) => parsed_server_config(params@) == Some(p@),
            None => parsed_server_config(params@) is None,
        },
{
    match params.get("config") {
        Some(config) => PartialServerConfig::from_json(config),
        None => Some(PartialServerConfig::default()),
    }
}

fn get_deployment_config(params: &Json) -> (r: Option<PartialDeploymentConfig>)
    ensures
        match r {
            Some(p) => parsed_deployment_config(params@) == Some(p@),
            None => parsed_deployment_config(params@) is None,
        },
{
    match params.get("config") {
        Some(config) => PartialDeploymentConfig::from_json(config),
        None => Some(PartialDeploymentConfig { server_id: None, image: None }),
    }
}

fn get_build_config(params: &Json) -> (r: Option<PartialBuildConfig>)
    ensures
        match r {
            Some(p) => parsed_build_config(params@) == Some(p@),
            None => parsed_build_config(params@) is None,
        },
{
    match params.get("config") {
        Some(config) => PartialBuildConfig::from_json(config),
        None => Some(PartialBuildConfig { builder_id: None, repo: None }),
    }
}

fn get_builder_config(params: &Json) -> (r: Option<PartialBuilderConfig>)
    ensures
        match r {
            Some(p) => parsed_builder_config(params@) == Some(p@),
            None => parsed_builder_config(params@) is None,
        },
{
    match params.get("config") {
        Some(config) => PartialBuilderConfig::from_json(config),
        None => Some(PartialBuilderConfig { server_id: None }),
    }
}

fn get_repo_config(params: &Json) -> (r: Option<PartialRepoConfig>)
    ensures
        match r {
            Some(p) => parsed_repo_config(params@) == Some(p@),
            None => parsed_repo_config(params@) is None,
        },
{
    match params.get("config") {
        Some(config) => PartialRepoConfig::from_json(config),
        None => Some(PartialRepoConfig { server_id: None, repo: None }),
    }
}


impl PartialServerConfigView {
    /// The settings with their names on the wire, in the order in which
    /// they are written.
    pub open spec fn fields(self) -> Seq<(Seq<char>, Option<JsonValue>)> {
        seq![
            ("address"@, text_json(self.address)),
            ("enabled"@, flag_json(self.enabled)),
            ("auto_prune"@, flag_json(self.auto_prune)),
            ("send_unreachable_alerts"@, flag_json(self.send_unreachable_alerts)),
            ("send_cpu_alerts"@, flag_json(self.send_cpu_alerts)),
            ("send_mem_alerts"@, flag_json(self.send_mem_alerts)),
            ("send_disk_alerts"@, flag_json(self.send_disk_alerts)),
            ("send_temp_alerts"@, flag_json(self.send_temp_alerts)),
            ("region"@, text_json(self.region)),
            ("cpu_warning"@, number_json(self.cpu_warning)),
            ("cpu_critical"@, number_json(self.cpu_critical)),
            ("mem_warning"@, number_json(self.mem_warning)),
            ("mem_critical"@, number_json(self.mem_critical)),
            ("disk_warning"@, number_json(self.disk_warning)),
            ("disk_critical"@, number_json(self.disk_critical)),
        ]
    }

    /// The settings as a document: a field for each one that is given,
    /// none for one that is left out.
    pub open spec fn json(self) -> JsonValue {
        record(self.fields())
    }

    /// The settings that a document gives: each field that is there and
    /// not `null`. A document that is no object, or has a field of the
    /// wrong sort, gives none.
    pub open spec fn parsed(j: JsonValue) -> Option<PartialServerConfigView> {
        if !(j is Object)
            || opt_text(j, "address"@) is None
            || opt_flag(j, "enabled"@) is None
            || opt_flag(j, "auto_prune"@) is None
            || opt_flag(j, "send_unreachable_alerts"@) is None
            || opt_flag(j, "send_cpu_alerts"@) is None
            || opt_flag(j, "send_mem_alerts"@) is None
            || opt_flag(j, "send_disk_alerts"@) is None
            || opt_flag(j, "send_temp_alerts"@) is None
            || opt_text(j, "region"@) is None
            || opt_number(j, "cpu_warning"@) is None
            || opt_number(j, "cpu_critical"@) is None
            || opt_number(j, "mem_warning"@) is None
            || opt_number(j, "mem_critical"@) is None
            || opt_number(j, "disk_warning"@) is None
            || opt_number(j, "disk_critical"@) is None {
            None
        } else {
            Some(
                PartialServerConfigView {
                    address: opt_text(j, "address"@)->Some_0,
                    enabled: opt_flag(j, "enabled"@)->Some_0,
                    auto_prune: opt_flag(j, "auto_prune"@)->Some_0,
                    send_unreachable_alerts: opt_flag(j, "send_unreachable_alerts"@)->Some_0,
                    send_cpu_alerts: opt_flag(j, "send_cpu_alerts"@)->Some_0,
                    send_mem_alerts: opt_flag(j, "send_mem_alerts"@)->Some_0,
                    send_disk_alerts: opt_flag(j, "send_disk_alerts"@)->Some_0,
                    send_temp_alerts: opt_flag(j, "send_temp_alerts"@)->Some_0,
                    region: opt_text(j, "region"@)->Some_0,
                    cpu_warning: opt_number(j, "cpu_warning"@)->Some_0,
                    cpu_critical: opt_number(j, "cpu_critical"@)->Some_0,
                    mem_warning: opt_number(j, "mem_warning"@)->Some_0,
                    mem_critical: opt_number(j, "mem_critical"@)->Some_0,
                    disk_warning: opt_number(j, "disk_warning"@)->Some_0,
                    disk_critical: opt_number(j, "disk_critical"@)->Some_0,
                },
            )
        }
    }
}

/// The document of the settings of a server is built field by field.
proof fn partial_server_config_is_built(p: PartialServerConfigView)
    ensures
        p.json() == JsonValue::empty()
            .with_opt("address"@, text_json(p.address))
            .with_opt("enabled"@, flag_json(p.enabled))
            .with_opt("auto_prune"@, flag_json(p.auto_prune))
            .with_opt("send_unreachable_alerts"@, flag_json(p.send_unreachable_alerts))
            .with_opt("send_cpu_alerts"@, flag_json(p.send_cpu_alerts))
            .with_opt("send_mem_alerts"@, flag_json(p.send_mem_alerts))
            .with_opt("send_disk_alerts"@, flag_json(p.send_disk_alerts))
            .with_opt("send_temp_alerts"@, flag_json(p.send_temp_alerts))
            .with_opt("region"@, text_json(p.region))
            .with_opt("cpu_warning"@, number_json(p.cpu_warning))
            .with_opt("cpu_critical"@, number_json(p.cpu_critical))
            .with_opt("mem_warning"@, number_json(p.mem_warning))
            .with_opt("mem_critical"@, number_json(p.mem_critical))
            .with_opt("disk_warning"@, number_json(p.disk_warning))
            .with_opt("disk_critical"@, number_json(p.disk_critical)),
{
    let s0 = Seq::<(Seq<char>, Option<JsonValue>)>::empty();
    let s1 = s0.push(("address"@, text_json(p.address)));
    let s2 = s1.push(("enabled"@, flag_json(p.enabled)));
    let s3 = s2.push(("auto_prune"@, flag_json(p.auto_prune)));
    let s4 = s3.push(("send_unreachable_alerts"@, flag_json(p.send_unreachable_alerts)));
    let s5 = s4.push(("send_cpu_alerts"@, flag_json(p.send_cpu_alerts)));
    let s6 = s5.push(("send_mem_alerts"@, flag_json(p.send_mem_alerts)));
    let s7 = s6.push(("send_disk_alerts"@, flag_json(p.send_disk_alerts)));
    let s8 = s7.push(("send_temp_alerts"@, flag_json(p.send_temp_alerts)));
    let s9 = s8.push(("region"@, text_json(p.region)));
    let s10 = s9.push(("cpu_warning"@, number_json(p.cpu_warning)));
    let s11 = s10.push(("cpu_critical"@, number_json(p.cpu_critical)));
    let s12 = s11.push(("mem_warning"@, number_json(p.mem_warning)));
    let s13 = s12.push(("mem_critical"@, number_json(p.mem_critical)));
    let s14 = s13.push(("disk_warning"@, number_json(p.disk_warning)));
    let s15 = s14.push(("disk_critical"@, number_json(p.disk_critical)));
    assert(s1.drop_last() =~= s0);
    assert(s2.drop_last() =~= s1);
    assert(s3.drop_last() =~= s2);
    assert(s4.drop_last() =~= s3);
    assert(s5.drop_last() =~= s4);
    assert(s6.drop_last() =~= s5);
    assert(s7.drop_last() =~= s6);
    assert(s8.drop_last() =~= s7);
    assert(s9.drop_last() =~= s8);
    assert(s10.drop_last() =~= s9);
    assert(s11.drop_last() =~= s10);
    assert(s12.drop_last() =~= s11);
    assert(s13.drop_last() =~= s12);
    assert(s14.drop_last() =~= s13);
    assert(s15.drop_last() =~= s14);
    assert(record(s1) == record(s0).with_opt(s1.last().0, s1.last().1));
    assert(record(s2) == record(s1).with_opt(s2.last().0, s2.last().1));
    assert(record(s3) == record(s2).with_opt(s3.last().0, s3.last().1));
    assert(record(s4) == record(s3).with_opt(s4.last().0, s4.last().1));
    assert(record(s5) == record(s4).with_opt(s5.last().0, s5.last().1));
    assert(record(s6) == record(s5).with_opt(s6.last().0, s6.last().1));
    assert(record(s7) == record(s6).with_opt(s7.last().0, s7.last().1));
    assert(record(s8) == record(s7).with_opt(s8.last().0, s8.last().1));
    assert(record(s9) == record(s8).with_opt(s9.last().0, s9.last().1));
    assert(record(s10) == record(s9).with_opt(s10.last().0, s10.last().1));
    assert(record(s11) == record(s10).with_opt(s11.last().0, s11.last().1));
    assert(record(s12) == record(s11).with_opt(s12.last().0, s12.last().1));
    assert(record(s13) == record(s12).with_opt(s13.last().0, s13.last().1));
    assert(record(s14) == record(s13).with_opt(s14.last().0, s14.last().1));
    assert(record(s15) == record(s14).with_opt(s15.last().0, s15.last().1));
    assert(p.fields() =~= s15);
}

impl PartialServerConfig {
    /// The settings as a document.
    pub fn to_json(&self) -> (j: Json)
        ensures
            j@ == self@.json(),
    {
        proof {
            partial_server_config_is_built(self@);
        }
        Json::empty_object()
            .with_opt("address", text_to_json(&self.address))
            .with_opt("enabled", flag_to_json(self.enabled))
            .with_opt("auto_prune", flag_to_json(self.auto_prune))
            .with_opt("send_unreachable_alerts", flag_to_json(self.send_unreachable_alerts))
            .with_opt("send_cpu_alerts", flag_to_json(self.send_cpu_alerts))
            .with_opt("send_mem_alerts", flag_to_json(self.send_mem_alerts))
            .with_opt("send_disk_alerts", flag_to_json(self.send_disk_alerts))
            .with_opt("send_temp_alerts", flag_to_json(self.send_temp_alerts))
            .with_opt("region", text_to_json(&self.region))
            .with_opt("cpu_warning", number_to_json(self.cpu_warning))
            .with_opt("cpu_critical", number_to_json(self.cpu_critical))
            .with_opt("mem_warning", number_to_json(self.mem_warning))
            .with_opt("mem_critical", number_to_json(self.mem_critical))
            .with_opt("disk_warning", number_to_json(self.disk_warning))
            .with_opt("disk_critical", number_to_json(self.disk_critical))
    }

    /// The settings that a document gives.
    pub fn from_json(j: &Json) -> (r: Option<PartialServerConfig>)
        ensures
            match r {
                Some(p) => PartialServerConfigView::parsed(j@) == Some(p@),
                None => PartialServerConfigView::parsed(j@) is None,
            },
    {
        match j {
            Json::Object(_) => {},
            _ => {
                return None;
            },
        }
        let address = match get_opt_text(j, "address") {
            Some(value) => value,
            None => {
                return None;
            },
        };
        let enabled = match get_opt_flag(j, "enabled") {
            Some(value) => value,
            None => {
                return None;
            },
        };
        let auto_prune = match get_opt_flag(j, "auto_prune") {
            Some(value) => value,
            None => {
                return None;
            },
        };
        let send_unreachable_alerts = match get_opt_flag(j, "send_unreachable_alerts") {
            Some(value) => value,
            None => {
                return None;
            },
        };
        let send_cpu_alerts = match get_opt_flag(j, "send_cpu_alerts") {
            Some(value) => value,
            None => {
                return None;
            },
        };
        let send_mem_alerts = match get_opt_flag(j, "send_mem_alerts") {
            Some(value) => value,
            None => {
                return None;
            },
        };
        let send_disk_alerts = match get_opt_flag(j, "send_disk_alerts") {
            Some(value) => value,
            None => {
                return None;
            },
        };
        let send_temp_alerts = match get_opt_flag(j, "send_temp_alerts") {
            Some(value) => value,
            None => {
                return None;
            },
        };
        let region = match get_opt_text(j, "region") {
            Some(value) => value,
            None => {
                return None;
            },
        };
        let cpu_warning = match get_opt_number(j, "cpu_warning") {
            Some(value) => value,
            None => {
                return None;
            },
        };
        let cpu_critical = match get_opt_number(j, "cpu_critical") {
            Some(value) => value,
            None => {
                return None;
            },
        };
        let mem_warning = match get_opt_number(j, "mem_warning") {
            Some(value) => value,
            None => {
                return None;
            },
        };
        let mem_critical = match get_opt_number(j, "mem_critical") {
            Some(value) => value,
            None => {
                return None;
            },
        };
        let disk_warning = match get_opt_number(j, "disk_warning") {
            Some(value) => value,
            None => {
                return None;
            },
        };
        let disk_critical = match get_opt_number(j, "disk_critical") {
            Some(value) => value,
            None => {
                return None;
            },
        };
        Some(PartialServerConfig { address, enabled, auto_prune, send_unreachable_alerts, send_cpu_alerts, send_mem_alerts, send_disk_alerts, send_temp_alerts, region, cpu_warning, cpu_critical, mem_warning, mem_critical, disk_warning, disk_critical })
    }
}

/// The settings of a server are written under names that differ.
proof fn partial_server_config_names_differ(p: PartialServerConfigView)
    ensures
        p.fields().len() == 15,
        forall|i: int, j: int|
            0 <= i < 15 && 0 <= j < 15 && i != j ==> (#[trigger] p.fields()[i]).0 != (
            #[trigger] p.fields()[j]).0,
{
    reveal_strlit("address");
    reveal_strlit("enabled");
    reveal_strlit("auto_prune");
    reveal_strlit("send_unreachable_alerts");
    reveal_strlit("send_cpu_alerts");
    reveal_strlit("send_mem_alerts");
    reveal_strlit("send_disk_alerts");
    reveal_strlit("send_temp_alerts");
    reveal_strlit("region");
    reveal_strlit("cpu_warning");
    reveal_strlit("cpu_critical");
    reveal_strlit("mem_warning");
    reveal_strlit("mem_critical");
    reveal_strlit("disk_warning");
    reveal_strlit("disk_critical");
    assert(mark("address"@, 0, 5) == (7nat, 'a', 's'));
    assert(mark("enabled"@, 0, 5) == (7nat, 'e', 'e'));
    assert(mark("auto_prune"@, 0, 5) == (10nat, 'a', 'p'));
    assert(mark("send_unreachable_alerts"@, 0, 5) == (23nat, 's', 'u'));
    assert(mark("send_cpu_alerts"@, 0, 5) == (15nat, 's', 'c'));
    assert(mark("send_mem_alerts"@, 0, 5) == (15nat, 's', 'm'));
    assert(mark("send_disk_alerts"@, 0, 5) == (16nat, 's', 'd'));
    assert(mark("send_temp_alerts"@, 0, 5) == (16nat, 's', 't'));
    assert(mark("region"@, 0, 5) == (6nat, 'r', 'n'));
    assert(mark("cpu_warning"@, 0, 5) == (11nat, 'c', 'a'));
    assert(mark("cpu_critical"@, 0, 5) == (12nat, 'c', 'r'));
    assert(mark("mem_warning"@, 0, 5) == (11nat, 'm', 'a'));
    assert(mark("mem_critical"@, 0, 5) == (12nat, 'm', 'r'));
    assert(mark("disk_warning"@, 0, 5) == (12nat, 'd', 'w'));
    assert(mark("disk_critical"@, 0, 5) == (13nat, 'd', 'c'));
}

/// Settings of a server that are written as a document and read back are
/// the same settings.
pub proof fn partial_server_config_round_trip(p: PartialServerConfigView)
    ensures
        PartialServerConfigView::parsed(p.json()) == Some(p),
{
    partial_server_config_names_differ(p);
    let fields = p.fields();
    let j = p.json();
    record_field(fields, 0);
    read_text(j, "address"@, p.address);
    record_field(fields, 1);
    read_flag(j, "enabled"@, p.enabled);
    record_field(fields, 2);
    read_flag(j, "auto_prune"@, p.auto_prune);
    record_field(fields, 3);
    read_flag(j, "send_unreachable_alerts"@, p.send_unreachable_alerts);
    record_field(fields, 4);
    read_flag(j, "send_cpu_alerts"@, p.send_cpu_alerts);
    record_field(fields, 5);
    read_flag(j, "send_mem_alerts"@, p.send_mem_alerts);
    record_field(fields, 6);
    read_flag(j, "send_disk_alerts"@, p.send_disk_alerts);
    record_field(fields, 7);
    read_flag(j, "send_temp_alerts"@, p.send_temp_alerts);
    record_field(fields, 8);
    read_text(j, "region"@, p.region);
    record_field(fields, 9);
    read_number(j, "cpu_warning"@, p.cpu_warning);
    record_field(fields, 10);
    read_number(j, "cpu_critical"@, p.cpu_critical);
    record_field(fields, 11);
    read_number(j, "mem_warning"@, p.mem_warning);
    record_field(fields, 12);
    read_number(j, "mem_critical"@, p.mem_critical);
    record_field(fields, 13);
    read_number(j, "disk_warning"@, p.disk_warning);
    record_field(fields, 14);
    read_number(j, "disk_critical"@, p.disk_critical);
}

impl PartialDeploymentConfigView {
    /// The settings with their names on the wire, in the order in which
    /// they are written.
    pub open spec fn fields(self) -> Seq<(Seq<char>, Option<JsonValue>)> {
        seq![
            ("server_id"@, text_json(self.server_id)),
            ("image"@, text_json(self.image)),
        ]
    }

    /// The settings as a document: a field for each one that is given,
    /// none for one that is left out.
    pub open spec fn json(self) -> JsonValue {
        record(self.fields())
    }

    /// The settings that a document gives: each field that is there and
    /// not `null`. A document that is no object, or has a field of the
    /// wrong sort, gives none.
    pub open spec fn parsed(j: JsonValue) -> Option<PartialDeploymentConfigView> {
        if !(j is Object)
            || opt_text(j, "server_id"@) is None
            || opt_text(j, "image"@) is None {
            None
        } else {
            Some(
                PartialDeploymentConfigView {
                    server_id: opt_text(j, "server_id"@)->Some_0,
                    image: opt_text(j, "image"@)->Some_0,
                },
            )
        }
    }
}

/// The document of the settings of a deployment is built field by field.
proof fn partial_deployment_config_is_built(p: PartialDeploymentConfigView)
    ensures
        p.json() == JsonValue::empty()
            .with_opt("server_id"@, text_json(p.server_id))
            .with_opt("image"@, text_json(p.image)),
{
    let s0 = Seq::<(Seq<char>, Option<JsonValue>)>::empty();
    let s1 = s0.push(("server_id"@, text_json(p.server_id)));
    let s2 = s1.push(("image"@, text_json(p.image)));
    assert(s1.drop_last() =~= s0);
    assert(s2.drop_last() =~= s1);
    assert(record(s1) == record(s0).with_opt(s1.last().0, s1.last().1));
    assert(record(s2) == record(s1).with_opt(s2.last().0, s2.last().1));
    assert(p.fields() =~= s2);
}

impl PartialDeploymentConfig {
    /// The settings as a document.
    pub fn to_json(&self) -> (j: Json)
        ensures
            j@ == self@.json(),
    {
        proof {
            partial_deployment_config_is_built(self@);
        }
        Json::empty_object()
            .with_opt("server_id", text_to_json(&self.server_id))
            .with_opt("image", text_to_json(&self.image))
    }

    /// The settings that a document gives.
    pub fn from_json(j: &Json) -> (r: Option<PartialDeploymentConfig>)
        ensures
            match r {
                Some(p) => PartialDeploymentConfigView::parsed(j@) == Some(p@),
                None => PartialDeploymentConfigView::parsed(j@) is None,
            },
    {
        match j {
            Json::Object(_) => {},
            _ => {
                return None;
            },
        }
        let server_id = match get_opt_text(j, "server_id") {
            Some(value) => value,
            None => {
                return None;
            },
        };
        let image = match get_opt_text(j, "image") {
            Some(value) => value,
            None => {
                return None;
            },
        };
        Some(PartialDeploymentConfig { server_id, image })
    }
}

/// The settings of a deployment are written under names that differ.
proof fn partial_deployment_config_names_differ(p: PartialDeploymentConfigView)
    ensures
        p.fields().len() == 2,
        forall|i: int, j: int|
            0 <= i < 2 && 0 <= j < 2 && i != j ==> (#[trigger] p.fields()[i]).0 != (
            #[trigger] p.fields()[j]).0,
{
    reveal_strlit("server_id");
    reveal_strlit("image");
    assert(mark("server_id"@, 0, 0) == (9nat, 's', 's'));
    assert(mark("image"@, 0, 0) == (5nat, 'i', 'i'));
}

/// Settings of a deployment that are written as a document and read back are
/// the same settings.
pub proof fn partial_deployment_config_round_trip(p: PartialDeploymentConfigView)
    ensures
        PartialDeploymentConfigView::parsed(p.json()) == Some(p),
{
    partial_deployment_config_names_differ(p);
    let fields = p.fields();
    let j = p.json();
    record_field(fields, 0);
    read_text(j, "server_id"@, p.server_id);
    record_field(fields, 1);
    read_text(j, "image"@, p.image);
}

impl PartialBuildConfigView {
    /// The settings with their names on the wire, in the order in which
    /// they are written.
    pub open spec fn fields(self) -> Seq<(Seq<char>, Option<JsonValue>)> {
        seq![
            ("builder_id"@, text_json(self.builder_id)),
            ("repo"@, text_json(self.repo)),
        ]
    }

    /// The settings as a document: a field for each one that is given,
    /// none for one that is left out.
    pub open spec fn json(self) -> JsonValue {
        record(self.fields())
    }

    /// The settings that a document gives: each field that is there and
    /// not `null`. A document that is no object, or has a field of the
    /// wrong sort, gives none.
    pub open spec fn parsed(j: JsonValue) -> Option<PartialBuildConfigView> {
        if !(j is Object)
            || opt_text(j, "builder_id"@) is None
            || opt_text(j, "repo"@) is None {
            None
        } else {
            Some(
                PartialBuildConfigView {
                    builder_id: opt_text(j, "builder_id"@)->Some_0,
                    repo: opt_text(j, "repo"@)->Some_0,
                },
            )
        }
    }
}

/// The document of the settings of a build is built field by field.
proof fn partial_build_config_is_built(p: PartialBuildConfigView)
    ensures
        p.json() == JsonValue::empty()
            .with_opt("builder_id"@, text_json(p.builder_id))
            .with_opt("repo"@, text_json(p.repo)),
{
    let s0 = Seq::<(Seq<char>, Option<JsonValue>)>::empty();
    let s1 = s0.push(("builder_id"@, text_json(p.builder_id)));
    let s2 = s1.push(("repo"@, text_json(p.repo)));
    assert(s1.drop_last() =~= s0);
    assert(s2.drop_last() =~= s1);
    assert(record(s1) == record(s0).with_opt(s1.last().0, s1.last().1));
    assert(record(s2) == record(s1).with_opt(s2.last().0, s2.last().1));
    assert(p.fields() =~= s2);
}

impl PartialBuildConfig {
    /// The settings as a document.
    pub fn to_json(&self) -> (j: Json)
        ensures
            j@ == self@.json(),
    {
        proof {
            partial_build_config_is_built(self@);
        }
        Json::empty_object()
            .with_opt("builder_id", text_to_json(&self.builder_id))
            .with_opt("repo", text_to_json(&self.repo))
    }

    /// The settings that a document gives.
    pub fn from_json(j: &Json) -> (r: Option<PartialBuildConfig>)
        ensures
            match r {
                Some(p) => PartialBuildConfigView::parsed(j@) == Some(p@),
                None => PartialBuildConfigView::parsed(j@) is None,
            },
    {
        match j {
            Json::Object(_) => {},
            _ => {
                return None;
            },
        }
        let builder_id = match get_opt_text(j, "builder_id") {
            Some(value) => value,
            None => {
                return None;
            },
        };
        let repo = match get_opt_text(j, "repo") {
            Some(value) => value,
            None => {
                return None;
            },
        };
        Some(PartialBuildConfig { builder_id, repo })
    }
}

/// The settings of a build are written under names that differ.
proof fn partial_build_config_names_differ(p: PartialBuildConfigView)
    ensures
        p.fields().len() == 2,
        forall|i: int, j: int|
            0 <= i < 2 && 0 <= j < 2 && i != j ==> (#[trigger] p.fields()[i]).0 != (
            #[trigger] p.fields()[j]).0,
{
    reveal_strlit("builder_id");
    reveal_strlit("repo");
    assert(mark("builder_id"@, 0, 0) == (10nat, 'b', 'b'));
    assert(mark("repo"@, 0, 0) == (4nat, 'r', 'r'));
}

/// Settings of a build that are written as a document and read back are
/// the same settings.
pub proof fn partial_build_config_round_trip(p: PartialBuildConfigView)
    ensures
        PartialBuildConfigView::parsed(p.json()) == Some(p),
{
    partial_build_config_names_differ(p);
    let fields = p.fields();
    let j = p.json();
    record_field(fields, 0);
    read_text(j, "builder_id"@, p.builder_id);
    record_field(fields, 1);
    read_text(j, "repo"@, p.repo);
}

impl PartialBuilderConfigView {
    /// The settings with their names on the wire, in the order in which
    /// they are written.
    pub open spec fn fields(self) -> Seq<(Seq<char>, Option<JsonValue>)> {
        seq![
            ("server_id"@, text_json(self.server_id)),
        ]
    }

    /// The settings as a document: a field for each one that is given,
    /// none for one that is left out.
    pub open spec fn json(self) -> JsonValue {
        record(self.fields())
    }

    /// The settings that a document gives: each field that is there and
    /// not `null`. A document that is no object, or has a field of the
    /// wrong sort, gives none.
    pub open spec fn parsed(j: JsonValue) -> Option<PartialBuilderConfigView> {
        if !(j is Object)
            || opt_text(j, "server_id"@) is None {
            None
        } else {
            Some(
                PartialBuilderConfigView {
                    server_id: opt_text(j, "server_id"@)->Some_0,
                },
            )
        }
    }
}

/// The document of the settings of a builder is built field by field.
proof fn partial_builder_config_is_built(p: PartialBuilderConfigView)
    ensures
        p.json() == JsonValue::empty()
            .with_opt("server_id"@, text_json(p.server_id)),
{
    let s0 = Seq::<(Seq<char>, Option<JsonValue>)>::empty();
    let s1 = s0.push(("server_id"@, text_json(p.server_id)));
    assert(s1.drop_last() =~= s0);
    assert(record(s1) == record(s0).with_opt(s1.last().0, s1.last().1));
    assert(p.fields() =~= s1);
}

impl PartialBuilderConfig {
    /// The settings as a document.
    pub fn to_json(&self) -> (j: Json)
        ensures
            j@ == self@.json(),
    {
        proof {
            partial_builder_config_is_built(self@);
        }
        Json::empty_object()
            .with_opt("server_id", text_to_json(&self.server_id))
    }

    /// The settings that a document gives.
    pub fn from_json(j: &Json) -> (r: Option<PartialBuilderConfig>)
        ensures
            match r {
                Some(p) => PartialBuilderConfigView::parsed(j@) == Some(p@),
                None => PartialBuilderConfigView::parsed(j@) is None,
            },
    {
        match j {
            Json::Object(_) => {},
            _ => {
                return None;
            },
        }
        let server_id = match get_opt_text(j, "server_id") {
            Some(value) => value,
            None => {
                return None;
            },
        };
        Some(PartialBuilderConfig { server_id })
    }
}

/// The settings of a builder are written under names that differ.
proof fn partial_builder_config_names_differ(p: PartialBuilderConfigView)
    ensures
        p.fields().len() == 1,
        forall|i: int, j: int|
            0 <= i < 1 && 0 <= j < 1 && i != j ==> (#[trigger] p.fields()[i]).0 != (
            #[trigger] p.fields()[j]).0,
{
    reveal_strlit("server_id");
    assert(mark("server_id"@, 0, 0) == (9nat, 's', 's'));
}

/// Settings of a builder that are written as a document and read back are
/// the same settings.
pub proof fn partial_builder_config_round_trip(p: PartialBuilderConfigView)
    ensures
        PartialBuilderConfigView::parsed(p.json()) == Some(p),
{
    partial_builder_config_names_differ(p);
    let fields = p.fields();
    let j = p.json();
    record_field(fields, 0);
    read_text(j, "server_id"@, p.server_id);
}

impl PartialRepoConfigView {
    /// The settings with their names on the wire, in the order in which
    /// they are written.
    pub open spec fn fields(self) -> Seq<(Seq<char>, Option<JsonValue>)> {
        seq![
            ("server_id"@, text_json(self.server_id)),
            ("repo"@, text_json(self.repo)),
        ]
    }

    /// The settings as a document: a field for each one that is given,
    /// none for one that is left out.
    pub open spec fn json(self) -> JsonValue {
        record(self.fields())
    }

    /// The settings that a document gives: each field that is there and
    /// not `null`. A document that is no object, or has a field of the
    /// wrong sort, gives none.
    pub open spec fn parsed(j: JsonValue) -> Option<PartialRepoConfigView> {
        if !(j is Object)
            || opt_text(j, "server_id"@) is None
            || opt_text(j, "repo"@) is None {
            None
        } else {
            Some(
                PartialRepoConfigView {
                    server_id: opt_text(j, "server_id"@)->Some_0,
                    repo: opt_text(j, "repo"@)->Some_0,
                },
            )
        }
    }
}

/// The document of the settings of a repo is built field by field.
proof fn partial_repo_config_is_built(p: PartialRepoConfigView)
    ensures
        p.json() == JsonValue::empty()
            .with_opt("server_id"@, text_json(p.server_id))
            .with_opt("repo"@, text_json(p.repo)),
{
    let s0 = Seq::<(Seq<char>, Option<JsonValue>)>::empty();
    let s1 = s0.push(("server_id"@, text_json(p.server_id)));
    let s2 = s1.push(("repo"@, text_json(p.repo)));
    assert(s1.drop_last() =~= s0);
    assert(s2.drop_last() =~= s1);
    assert(record(s1) == record(s0).with_opt(s1.last().0, s1.last().1));
    assert(record(s2) == record(s1).with_opt(s2.last().0, s2.last().1));
    assert(p.fields() =~= s2);
}

impl PartialRepoConfig {
    /// The settings as a document.
    pub fn to_json(&self) -> (j: Json)
        ensures
            j@ == self@.json(),
    {
        proof {
            partial_repo_config_is_built(self@);
        }
        Json::empty_object()
            .with_opt("server_id", text_to_json(&self.server_id))
            .with_opt("repo", text_to_json(&self.repo))
    }

    /// The settings that a document gives.
    pub fn from_json(j: &Json) -> (r: Option<PartialRepoConfig>)
        ensures
            match r {
                Some(p) => PartialRepoConfigView::parsed(j@) == Some(p@),
                None => PartialRepoConfigView::parsed(j@) is None,
            },
    {
        match j {
            Json::Object(_) => {},
            _ => {
                return None;
            },
        }
        let server_id = match get_opt_text(j, "server_id") {
            Some(value) => value,
            None => {
                return None;
            },
        };
        let repo = match get_opt_text(j, "repo") {
            Some(value) => value,
            None => {
                return None;
            },
        };
        Some(PartialRepoConfig { server_id, repo })
    }
}

/// The settings of a repo are written under names that differ.
proof fn partial_repo_config_names_differ(p: PartialRepoConfigView)
    ensures
        p.fields().len() == 2,
        forall|i: int, j: int|
            0 <= i < 2 && 0 <= j < 2 && i != j ==> (#[trigger] p.fields()[i]).0 != (
            #[trigger] p.fields()[j]).0,
{
    reveal_strlit("server_id");
    reveal_strlit("repo");
    assert(mark("server_id"@, 0, 0) == (9nat, 's', 's'));
    assert(mark("repo"@, 0, 0) == (4nat, 'r', 'r'));
}

/// Settings of a repo that are written as a document and read back are
/// the same settings.
pub proof fn partial_repo_config_round_trip(p: PartialRepoConfigView)
    ensures
        PartialRepoConfigView::parsed(p.json()) == Some(p),
{
    partial_repo_config_names_differ(p);
    let fields = p.fields();
    let j = p.json();
    record_field(fields, 0);
    read_text(j, "server_id"@, p.server_id);
    record_field(fields, 1);
    read_text(j, "repo"@, p.repo);
}

/// The operation of this name.
pub open spec fn operation_named(name: Seq<char>) -> Option<Operation> {
    if name == "CreateLoginSecret"@ {
        Some(Operation::CreateLoginSecret)
    } else if name == "DeleteLoginSecret"@ {
        Some(Operation::DeleteLoginSecret)
    } else if name == "UpdateUserPermissions"@ {
        Some(Operation::UpdateUserPermissions)
    } else if name == "UpdateUserPermissionsOnTarget"@ {
        Some(Operation::UpdateUserPermissionsOnTarget)
    } else if name == "GetPeripheryVersion"@ {
        Some(Operation::GetPeripheryVersion)
    } else if name == "GetSystemInformation"@ {
        Some(Operation::GetSystemInformation)
    } else if name == "GetDockerContainers"@ {
        Some(Operation::GetDockerContainers)
    } else if name == "GetDockerImages"@ {
        Some(Operation::GetDockerImages)
    } else if name == "GetDockerNetworks"@ {
        Some(Operation::GetDockerNetworks)
    } else if name == "GetServer"@ {
        Some(Operation::GetServer)
    } else if name == "ListServers"@ {
        Some(Operation::ListServers)
    } else if name == "CreateServer"@ {
        Some(Operation::CreateServer)
    } else if name == "DeleteServer"@ {
        Some(Operation::DeleteServer)
    } else if name == "UpdateServer"@ {
        Some(Operation::UpdateServer)
    } else if name == "RenameServer"@ {
        Some(Operation::RenameServer)
    } else if name == "GetAllSystemStats"@ {
        Some(Operation::GetAllSystemStats)
    } else if name == "GetBasicSystemStats"@ {
        Some(Operation::GetBasicSystemStats)
    } else if name == "GetCpuUsage"@ {
        Some(Operation::GetCpuUsage)
    } else if name == "GetDiskUsage"@ {
        Some(Operation::GetDiskUsage)
    } else if name == "GetNetworkUsage"@ {
        Some(Operation::GetNetworkUsage)
    } else if name == "GetSystemProcesses"@ {
        Some(Operation::GetSystemProcesses)
    } else if name == "GetSystemComponents"@ {
        Some(Operation::GetSystemComponents)
    } else if name == "PruneContainers"@ {
        Some(Operation::PruneContainers)
    } else if name == "PruneImages"@ {
        Some(Operation::PruneImages)
    } else if name == "PruneNetworks"@ {
        Some(Operation::PruneNetworks)
    } else if name == "GetDeployment"@ {
        Some(Operation::GetDeployment)
    } else if name == "ListDeployments"@ {
        Some(Operation::ListDeployments)
    } else if name == "CreateDeployment"@ {
        Some(Operation::CreateDeployment)
    } else if name == "DeleteDeployment"@ {
        Some(Operation::DeleteDeployment)
    } else if name == "UpdateDeployment"@ {
        Some(Operation::UpdateDeployment)
    } else if name == "RenameDeployment"@ {
        Some(Operation::RenameDeployment)
    } else if name == "Deploy"@ {
        Some(Operation::Deploy)
    } else if name == "StartContainer"@ {
        Some(Operation::StartContainer)
    } else if name == "StopContainer"@ {
        Some(Operation::StopContainer)
    } else if name == "RemoveContainer"@ {
        Some(Operation::RemoveContainer)
    } else if name == "GetBuild"@ {
        Some(Operation::GetBuild)
    } else if name == "ListBuilds"@ {
        Some(Operation::ListBuilds)
    } else if name == "CreateBuild"@ {
        Some(Operation::CreateBuild)
    } else if name == "DeleteBuild"@ {
        Some(Operation::DeleteBuild)
    } else if name == "UpdateBuild"@ {
        Some(Operation::UpdateBuild)
    } else if name == "RunBuild"@ {
        Some(Operation::RunBuild)
    } else if name == "GetBuilder"@ {
        Some(Operation::GetBuilder)
    } else if name == "ListBuilders"@ {
        Some(Operation::ListBuilders)
    } else if name == "CreateBuilder"@ {
        Some(Operation::CreateBuilder)
    } else if name == "DeleteBuilder"@ {
        Some(Operation::DeleteBuilder)
    } else if name == "UpdateBuilder"@ {
        Some(Operation::UpdateBuilder)
    } else if name == "GetRepo"@ {
        Some(Operation::GetRepo)
    } else if name == "ListRepos"@ {
        Some(Operation::ListRepos)
    } else if name == "CreateRepo"@ {
        Some(Operation::CreateRepo)
    } else if name == "UpdateRepo"@ {
        Some(Operation::UpdateRepo)
    } else if name == "DeleteRepo"@ {
        Some(Operation::DeleteRepo)
    } else if name == "CloneRepo"@ {
        Some(Operation::CloneRepo)
    } else if name == "PullRepo"@ {
        Some(Operation::PullRepo)
    } else {
        None
    }
}

impl Operation {
    /// The operation of this name.
    pub fn from_name(name: &String) -> (r: Option<Operation>)
        ensures
            r == operation_named(name@),
    {
        if reads_as(name, "CreateLoginSecret") {
            Some(Operation::CreateLoginSecret)
        } else if reads_as(name, "DeleteLoginSecret") {
            Some(Operation::DeleteLoginSecret)
        } else if reads_as(name, "UpdateUserPermissions") {
            Some(Operation::UpdateUserPermissions)
        } else if reads_as(name, "UpdateUserPermissionsOnTarget") {
            Some(Operation::UpdateUserPermissionsOnTarget)
        } else if reads_as(name, "GetPeripheryVersion") {
            Some(Operation::GetPeripheryVersion)
        } else if reads_as(name, "GetSystemInformation") {
            Some(Operation::GetSystemInformation)
        } else if reads_as(name, "GetDockerContainers") {
            Some(Operation::GetDockerContainers)
        } else if reads_as(name, "GetDockerImages") {
            Some(Operation::GetDockerImages)
        } else if reads_as(name, "GetDockerNetworks") {
            Some(Operation::GetDockerNetworks)
        } else if reads_as(name, "GetServer") {
            Some(Operation::GetServer)
        } else if reads_as(name, "ListServers") {
            Some(Operation::ListServers)
        } else if reads_as(name, "CreateServer") {
            Some(Operation::CreateServer)
        } else if reads_as(name, "DeleteServer") {
            Some(Operation::DeleteServer)
        } else if reads_as(name, "UpdateServer") {
            Some(Operation::UpdateServer)
        } else if reads_as(name, "RenameServer") {
            Some(Operation::RenameServer)
        } else if reads_as(name, "GetAllSystemStats") {
            Some(Operation::GetAllSystemStats)
        } else if reads_as(name, "GetBasicSystemStats") {
            Some(Operation::GetBasicSystemStats)
        } else if reads_as(name, "GetCpuUsage") {
            Some(Operation::GetCpuUsage)
        } else if reads_as(name, "GetDiskUsage") {
            Some(Operation::GetDiskUsage)
        } else if reads_as(name, "GetNetworkUsage") {
            Some(Operation::GetNetworkUsage)
        } else if reads_as(name, "GetSystemProcesses") {
            Some(Operation::GetSystemProcesses)
        } else if reads_as(name, "GetSystemComponents") {
            Some(Operation::GetSystemComponents)
        } else if reads_as(name, "PruneContainers") {
            Some(Operation::PruneContainers)
        } else if reads_as(name, "PruneImages") {
            Some(Operation::PruneImages)
        } else if reads_as(name, "PruneNetworks") {
            Some(Operation::PruneNetworks)
        } else if reads_as(name, "GetDeployment") {
            Some(Operation::GetDeployment)
        } else if reads_as(name, "ListDeployments") {
            Some(Operation::ListDeployments)
        } else if reads_as(name, "CreateDeployment") {
            Some(Operation::CreateDeployment)
        } else if reads_as(name, "DeleteDeployment") {
            Some(Operation::DeleteDeployment)
        } else if reads_as(name, "UpdateDeployment") {
            Some(Operation::UpdateDeployment)
        } else if reads_as(name, "RenameDeployment") {
            Some(Operation::RenameDeployment)
        } else if reads_as(name, "Deploy") {
            Some(Operation::Deploy)
        } else if reads_as(name, "StartContainer") {
            Some(Operation::StartContainer)
        } else if reads_as(name, "StopContainer") {
            Some(Operation::StopContainer)
        } else if reads_as(name, "RemoveContainer") {
            Some(Operation::RemoveContainer)
        } else if reads_as(name, "GetBuild") {
            Some(Operation::GetBuild)
        } else if reads_as(name, "ListBuilds") {
            Some(Operation::ListBuilds)
        } else if reads_as(name, "CreateBuild") {
            Some(Operation::CreateBuild)
        } else if reads_as(name, "DeleteBuild") {
            Some(Operation::DeleteBuild)
        } else if reads_as(name, "UpdateBuild") {
            Some(Operation::UpdateBuild)
        } else if reads_as(name, "RunBuild") {
            Some(Operation::RunBuild)
        } else if reads_as(name, "GetBuilder") {
            Some(Operation::GetBuilder)
        } else if reads_as(name, "ListBuilders") {
            Some(Operation::ListBuilders)
        } else if reads_as(name, "CreateBuilder") {
            Some(Operation::CreateBuilder)
        } else if reads_as(name, "DeleteBuilder") {
            Some(Operation::DeleteBuilder)
        } else if reads_as(name, "UpdateBuilder") {
            Some(Operation::UpdateBuilder)
        } else if reads_as(name, "GetRepo") {
            Some(Operation::GetRepo)
        } else if reads_as(name, "ListRepos") {
            Some(Operation::ListRepos)
        } else if reads_as(name, "CreateRepo") {
            Some(Operation::CreateRepo)
        } else if reads_as(name, "UpdateRepo") {
            Some(Operation::UpdateRepo)
        } else if reads_as(name, "DeleteRepo") {
            Some(Operation::DeleteRepo)
        } else if reads_as(name, "CloneRepo") {
            Some(Operation::CloneRepo)
        } else if reads_as(name, "PullRepo") {
            Some(Operation::PullRepo)
        } else {
            None
        }
    }
}

/// Every operation is the operation of its name: no two operations share
/// a name.
pub proof fn operations_are_named_apart(operation: Operation)
    ensures
        operation_named(operation.name_text()) == Some(operation),
{
    reveal_strlit("CreateLoginSecret");
    reveal_strlit("DeleteLoginSecret");
    reveal_strlit("UpdateUserPermissions");
    reveal_strlit("UpdateUserPermissionsOnTarget");
    reveal_strlit("GetPeripheryVersion");
    reveal_strlit("GetSystemInformation");
    reveal_strlit("GetDockerContainers");
    reveal_strlit("GetDockerImages");
    reveal_strlit("GetDockerNetworks");
    reveal_strlit("GetServer");
    reveal_strlit("ListServers");
    reveal_strlit("CreateServer");
    reveal_strlit("DeleteServer");
    reveal_strlit("UpdateServer");
    reveal_strlit("RenameServer");
    reveal_strlit("GetAllSystemStats");
    reveal_strlit("GetBasicSystemStats");
    reveal_strlit("GetCpuUsage");
    reveal_strlit("GetDiskUsage");
    reveal_strlit("GetNetworkUsage");
    reveal_strlit("GetSystemProcesses");
    reveal_strlit("GetSystemComponents");
    reveal_strlit("PruneContainers");
    reveal_strlit("PruneImages");
    reveal_strlit("PruneNetworks");
    reveal_strlit("GetDeployment");
    reveal_strlit("ListDeployments");
    reveal_strlit("CreateDeployment");
    reveal_strlit("DeleteDeployment");
    reveal_strlit("UpdateDeployment");
    reveal_strlit("RenameDeployment");
    reveal_strlit("Deploy");
    reveal_strlit("StartContainer");
    reveal_strlit("StopContainer");
    reveal_strlit("RemoveContainer");
    reveal_strlit("GetBuild");
    reveal_strlit("ListBuilds");
    reveal_strlit("CreateBuild");
    reveal_strlit("DeleteBuild");
    reveal_strlit("UpdateBuild");
    reveal_strlit("RunBuild");
    reveal_strlit("GetBuilder");
    reveal_strlit("ListBuilders");
    reveal_strlit("CreateBuilder");
    reveal_strlit("DeleteBuilder");
    reveal_strlit("UpdateBuilder");
    reveal_strlit("GetRepo");
    reveal_strlit("ListRepos");
    reveal_strlit("CreateRepo");
    reveal_strlit("UpdateRepo");
    reveal_strlit("DeleteRepo");
    reveal_strlit("CloneRepo");
    reveal_strlit("PullRepo");

    assert(mark("CreateLoginSecret"@, 0, 3) == (17nat, 'C', 'a'));
    assert(mark("DeleteLoginSecret"@, 0, 3) == (17nat, 'D', 'e'));
    assert(mark("UpdateUserPermissions"@, 0, 3) == (21nat, 'U', 'a'));
    assert(mark("UpdateUserPermissionsOnTarget"@, 0, 3) == (29nat, 'U', 'a'));
    assert(mark("GetPeripheryVersion"@, 0, 3) == (19nat, 'G', 'P'));
    assert(mark("GetSystemInformation"@, 0, 3) == (20nat, 'G', 'S'));
    assert(mark("GetDockerContainers"@, 0, 3) == (19nat, 'G', 'D'));
    assert(mark("GetDockerImages"@, 0, 3) == (15nat, 'G', 'D'));
    assert(mark("GetDockerNetworks"@, 0, 3) == (17nat, 'G', 'D'));
    assert(mark("GetServer"@, 0, 3) == (9nat, 'G', 'S'));
    assert(mark("ListServers"@, 0, 3) == (11nat, 'L', 't'));
    assert(mark("CreateServer"@, 0, 3) == (12nat, 'C', 'a'));
    assert(mark("DeleteServer"@, 0, 3) == (12nat, 'D', 'e'));
    assert(mark("UpdateServer"@, 0, 3) == (12nat, 'U', 'a'));
    assert(mark("RenameServer"@, 0, 3) == (12nat, 'R', 'a'));
    assert(mark("GetAllSystemStats"@, 0, 3) == (17nat, 'G', 'A'));
    assert(mark("GetBasicSystemStats"@, 0, 3) == (19nat, 'G', 'B'));
    assert(mark("GetCpuUsage"@, 0, 3) == (11nat, 'G', 'C'));
    assert(mark("GetDiskUsage"@, 0, 3) == (12nat, 'G', 'D'));
    assert(mark("GetNetworkUsage"@, 0, 3) == (15nat, 'G', 'N'));
    assert(mark("GetSystemProcesses"@, 0, 3) == (18nat, 'G', 'S'));
    assert(mark("GetSystemComponents"@, 0, 3) == (19nat, 'G', 'S'));
    assert(mark("PruneContainers"@, 0, 3) == (15nat, 'P', 'n'));
    assert(mark("PruneImages"@, 0, 3) == (11nat, 'P', 'n'));
    assert(mark("PruneNetworks"@, 0, 3) == (13nat, 'P', 'n'));
    assert(mark("GetDeployment"@, 0, 3) == (13nat, 'G', 'D'));
    assert(mark("ListDeployments"@, 0, 3) == (15nat, 'L', 't'));
    assert(mark("CreateDeployment"@, 0, 3) == (16nat, 'C', 'a'));
    assert(mark("DeleteDeployment"@, 0, 3) == (16nat, 'D', 'e'));
    assert(mark("UpdateDeployment"@, 0, 3) == (16nat, 'U', 'a'));
    assert(mark("RenameDeployment"@, 0, 3) == (16nat, 'R', 'a'));
    assert(mark("Deploy"@, 0, 3) == (6nat, 'D', 'l'));
    assert(mark("StartContainer"@, 0, 3) == (14nat, 'S', 'r'));
    assert(mark("StopContainer"@, 0, 3) == (13nat, 'S', 'p'));
    assert(mark("RemoveContainer"@, 0, 3) == (15nat, 'R', 'o'));
    assert(mark("GetBuild"@, 0, 3) == (8nat, 'G', 'B'));
    assert(mark("ListBuilds"@, 0, 3) == (10nat, 'L', 't'));
    assert(mark("CreateBuild"@, 0, 3) == (11nat, 'C', 'a'));
    assert(mark("DeleteBuild"@, 0, 3) == (11nat, 'D', 'e'));
    assert(mark("UpdateBuild"@, 0, 3) == (11nat, 'U', 'a'));
    assert(mark("RunBuild"@, 0, 3) == (8nat, 'R', 'B'));
    assert(mark("GetBuilder"@, 0, 3) == (10nat, 'G', 'B'));
    assert(mark("ListBuilders"@, 0, 3) == (12nat, 'L', 't'));
    assert(mark("CreateBuilder"@, 0, 3) == (13nat, 'C', 'a'));
    assert(mark("DeleteBuilder"@, 0, 3) == (13nat, 'D', 'e'));
    assert(mark("UpdateBuilder"@, 0, 3) == (13nat, 'U', 'a'));
    assert(mark("GetRepo"@, 0, 3) == (7nat, 'G', 'R'));
    assert(mark("ListRepos"@, 0, 3) == (9nat, 'L', 't'));
    assert(mark("CreateRepo"@, 0, 3) == (10nat, 'C', 'a'));
    assert(mark("UpdateRepo"@, 0, 3) == (10nat, 'U', 'a'));
    assert(mark("DeleteRepo"@, 0, 3) == (10nat, 'D', 'e'));
    assert(mark("CloneRepo"@, 0, 3) == (9nat, 'C', 'n'));
    assert(mark("PullRepo"@, 0, 3) == (8nat, 'P', 'l'));
}

impl ApiRequestView {
    /// The parameters of the request as a document, one field for each.
    pub open spec fn params(self) -> JsonValue {
        match self {
            ApiRequestView::CreateLoginSecret { name, expires } => JsonValue::empty()
                .with("name"@, JsonValue::Str(name))
                .with_opt("expires"@, time_json(expires)),
            ApiRequestView::DeleteLoginSecret { name } => JsonValue::empty()
                .with("name"@, JsonValue::Str(name)),
            ApiRequestView::UpdateUserPermissions { user_id, enabled } => JsonValue::empty()
                .with("user_id"@, JsonValue::Str(user_id))
                .with_opt("enabled"@, flag_json(enabled)),
            ApiRequestView::UpdateUserPermissionsOnTarget { user_id, target_type, target, permission } => JsonValue::empty()
                .with("user_id"@, JsonValue::Str(user_id))
                .with("target_type"@, JsonValue::Str(target_type.name_text()))
                .with("target"@, JsonValue::Str(target))
                .with("permission"@, JsonValue::Str(permission.name_text())),
            ApiRequestView::GetPeripheryVersion { server } => JsonValue::empty()
                .with("server"@, JsonValue::Str(server)),
            ApiRequestView::GetSystemInformation { server } => JsonValue::empty()
                .with("server"@, JsonValue::Str(server)),
            ApiRequestView::GetDockerContainers { server } => JsonValue::empty()
                .with("server"@, JsonValue::Str(server)),
            ApiRequestView::GetDockerImages { server } => JsonValue::empty()
                .with("server"@, JsonValue::Str(server)),
            ApiRequestView::GetDockerNetworks { server } => JsonValue::empty()
                .with("server"@, JsonValue::Str(server)),
            ApiRequestView::GetServer { server } => JsonValue::empty()
                .with("server"@, JsonValue::Str(server)),
            ApiRequestView::ListServers { query } => JsonValue::empty()
                .with("query"@, JsonValue::empty()),
            ApiRequestView::CreateServer { name, config } => JsonValue::empty()
                .with("name"@, JsonValue::Str(name))
                .with("config"@, config.json()),
            ApiRequestView::DeleteServer { server } => JsonValue::empty()
                .with("server"@, JsonValue::Str(server)),
            ApiRequestView::UpdateServer { server, config } => JsonValue::empty()
                .with("server"@, JsonValue::Str(server))
                .with("config"@, config.json()),
            ApiRequestView::RenameServer { server, name } => JsonValue::empty()
                .with("server"@, JsonValue::Str(server))
                .with("name"@, JsonValue::Str(name)),
            ApiRequestView::GetAllSystemStats { server } => JsonValue::empty()
                .with("server"@, JsonValue::Str(server)),
            ApiRequestView::GetBasicSystemStats { server } => JsonValue::empty()
                .with("server"@, JsonValue::Str(server)),
            ApiRequestView::GetCpuUsage { server } => JsonValue::empty()
                .with("server"@, JsonValue::Str(server)),
            ApiRequestView::GetDiskUsage { server } => JsonValue::empty()
                .with("server"@, JsonValue::Str(server)),
            ApiRequestView::GetNetworkUsage { server } => JsonValue::empty()
                .with("server"@, JsonValue::Str(server)),
            ApiRequestView::GetSystemProcesses { server } => JsonValue::empty()
                .with("server"@, JsonValue::Str(server)),
            ApiRequestView::GetSystemComponents { server } => JsonValue::empty()
                .with("server"@, JsonValue::Str(server)),
            ApiRequestView::PruneContainers { server } => JsonValue::empty()
                .with("server"@, JsonValue::Str(server)),
            ApiRequestView::PruneImages { server } => JsonValue::empty()
                .with("server"@, JsonValue::Str(server)),
            ApiRequestView::PruneNetworks { server } => JsonValue::empty()
                .with("server"@, JsonValue::Str(server)),
            ApiRequestView::GetDeployment { deployment } => JsonValue::empty()
                .with("deployment"@, JsonValue::Str(deployment)),
            ApiRequestView::ListDeployments => JsonValue::empty(),
            ApiRequestView::CreateDeployment { name, config } => JsonValue::empty()
                .with("name"@, JsonValue::Str(name))
                .with("config"@, config.json()),
            ApiRequestView::DeleteDeployment { deployment } => JsonValue::empty()
                .with("deployment"@, JsonValue::Str(deployment)),
            ApiRequestView::UpdateDeployment { deployment, config } => JsonValue::empty()
                .with("deployment"@, JsonValue::Str(deployment))
                .with("config"@, config.json()),
            ApiRequestView::RenameDeployment { deployment, name } => JsonValue::empty()
                .with("deployment"@, JsonValue::Str(deployment))
                .with("name"@, JsonValue::Str(name)),
            ApiRequestView::Deploy { deployment } => JsonValue::empty()
                .with("deployment"@, JsonValue::Str(deployment)),
            ApiRequestView::StartContainer { deployment } => JsonValue::empty()
                .with("deployment"@, JsonValue::Str(deployment)),
            ApiRequestView::StopContainer { deployment } => JsonValue::empty()
                .with("deployment"@, JsonValue::Str(deployment)),
            ApiRequestView::RemoveContainer { deployment } => JsonValue::empty()
                .with("deployment"@, JsonValue::Str(deployment)),
            ApiRequestView::GetBuild { build } => JsonValue::empty()
                .with("build"@, JsonValue::Str(build)),
            ApiRequestView::ListBuilds => JsonValue::empty(),
            ApiRequestView::CreateBuild { name, config } => JsonValue::empty()
                .with("name"@, JsonValue::Str(name))
                .with("config"@, config.json()),
            ApiRequestView::DeleteBuild { build } => JsonValue::empty()
                .with("build"@, JsonValue::Str(build)),
            ApiRequestView::UpdateBuild { build, config } => JsonValue::empty()
                .with("build"@, JsonValue::Str(build))
                .with("config"@, config.json()),
            ApiRequestView::RunBuild { build } => JsonValue::empty()
                .with("build"@, JsonValue::Str(build)),
            ApiRequestView::GetBuilder { builder } => JsonValue::empty()
                .with("builder"@, JsonValue::Str(builder)),
            ApiRequestView::ListBuilders => JsonValue::empty(),
            ApiRequestView::CreateBuilder { name, config } => JsonValue::empty()
                .with("name"@, JsonValue::Str(name))
                .with("config"@, config.json()),
            ApiRequestView::DeleteBuilder { builder } => JsonValue::empty()
                .with("builder"@, JsonValue::Str(builder)),
            ApiRequestView::UpdateBuilder { builder, config } => JsonValue::empty()
                .with("builder"@, JsonValue::Str(builder))
                .with("config"@, config.json()),
            ApiRequestView::GetRepo { repo } => JsonValue::empty()
                .with("repo"@, JsonValue::Str(repo)),
            ApiRequestView::ListRepos => JsonValue::empty(),
            ApiRequestView::CreateRepo { name, config } => JsonValue::empty()
                .with("name"@, JsonValue::Str(name))
                .with("config"@, config.json()),
            ApiRequestView::UpdateRepo { repo, config } => JsonValue::empty()
                .with("repo"@, JsonValue::Str(repo))
                .with("config"@, config.json()),
            ApiRequestView::DeleteRepo { repo } => JsonValue::empty()
                .with("repo"@, JsonValue::Str(repo)),
            ApiRequestView::CloneRepo { repo } => JsonValue::empty()
                .with("repo"@, JsonValue::Str(repo)),
            ApiRequestView::PullRepo { repo } => JsonValue::empty()
                .with("repo"@, JsonValue::Str(repo)),
        }
    }

    /// The request as it travels: the name of the operation under `type`,
    /// the parameters under `params`.
    pub open spec fn wire(self) -> JsonValue {
        JsonValue::empty().with("type"@, JsonValue::Str(self.operation().name_text())).with(
            "params"@,
            self.params(),
        )
    }

    /// The request of this operation that `params` gives; none where a
    /// parameter is missing or of the wrong sort. Parameters that the
    /// operation does not have are passed over.
    pub open spec fn with_params(operation: Operation, params: JsonValue) -> Option<ApiRequestView> {
        match operation {
            Operation::CreateLoginSecret => match (req_text(params, "name"@), opt_time(params, "expires"@)) {
                (Some(name), Some(expires)) => Some(ApiRequestView::CreateLoginSecret { name, expires }),
                _ => None,
            },
            Operation::DeleteLoginSecret => match req_text(params, "name"@) {
                Some(name) => Some(ApiRequestView::DeleteLoginSecret { name }),
                None => None,
            },
            Operation::UpdateUserPermissions => match (req_text(params, "user_id"@), opt_flag(params, "enabled"@)) {
                (Some(user_id), Some(enabled)) => Some(ApiRequestView::UpdateUserPermissions { user_id, enabled }),
                _ => None,
            },
            Operation::UpdateUserPermissionsOnTarget => match (req_text(params, "user_id"@), req_family(params, "target_type"@), req_text(params, "target"@), req_level(params, "permission"@)) {
                (Some(user_id), Some(target_type), Some(target), Some(permission)) => Some(ApiRequestView::UpdateUserPermissionsOnTarget { user_id, target_type, target, permission }),
                _ => None,
            },
            Operation::GetPeripheryVersion => match req_text(params, "server"@) {
                Some(server) => Some(ApiRequestView::GetPeripheryVersion { server }),
                None => None,
            },
            Operation::GetSystemInformation => match req_text(params, "server"@) {
                Some(server) => Some(ApiRequestView::GetSystemInformation { server }),
                None => None,
            },
            Operation::GetDockerContainers => match req_text(params, "server"@) {
                Some(server) => Some(ApiRequestView::GetDockerContainers { server }),
                None => None,
            },
            Operation::GetDockerImages => match req_text(params, "server"@) {
                Some(server) => Some(ApiRequestView::GetDockerImages { server }),
                None => None,
            },
            Operation::GetDockerNetworks => match req_text(params, "server"@) {
                Some(server) => Some(ApiRequestView::GetDockerNetworks { server }),
                None => None,
            },
            Operation::GetServer => match req_text(params, "server"@) {
                Some(server) => Some(ApiRequestView::GetServer { server }),
                None => None,
            },
            Operation::ListServers => Some(ApiRequestView::ListServers { query: ServerQuerySpecifics {  } }),
            Operation::CreateServer => match (req_text(params, "name"@), parsed_server_config(params)) {
                (Some(name), Some(config)) => Some(ApiRequestView::CreateServer { name, config }),
                _ => None,
            },
            Operation::DeleteServer => match req_text(params, "server"@) {
                Some(server) => Some(ApiRequestView::DeleteServer { server }),
                None => None,
            },
            Operation::UpdateServer => match (req_text(params, "server"@), parsed_server_config(params)) {
                (Some(server), Some(config)) => Some(ApiRequestView::UpdateServer { server, config }),
                _ => None,
            },
            Operation::RenameServer => match (req_text(params, "server"@), req_text(params, "name"@)) {
                (Some(server), Some(name)) => Some(ApiRequestView::RenameServer { server, name }),
                _ => None,
            },
            Operation::GetAllSystemStats => match req_text(params, "server"@) {
                Some(server) => Some(ApiRequestView::GetAllSystemStats { server }),
                None => None,
            },
            Operation::GetBasicSystemStats => match req_text(params, "server"@) {
                Some(server) => Some(ApiRequestView::GetBasicSystemStats { server }),
                None => None,
            },
            Operation::GetCpuUsage => match req_text(params, "server"@) {
                Some(server) => Some(ApiRequestView::GetCpuUsage { server }),
                None => None,
            },
            Operation::GetDiskUsage => match req_text(params, "server"@) {
                Some(server) => Some(ApiRequestView::GetDiskUsage { server }),
                None => None,
            },
            Operation::GetNetworkUsage => match req_text(params, "server"@) {
                Some(server) => Some(ApiRequestView::GetNetworkUsage { server }),
                None => None,
            },
            Operation::GetSystemProcesses => match req_text(params, "server"@) {
                Some(server) => Some(ApiRequestView::GetSystemProcesses { server }),
                None => None,
            },
            Operation::GetSystemComponents => match req_text(params, "server"@) {
                Some(server) => Some(ApiRequestView::GetSystemComponents { server }),
                None => None,
            },
            Operation::PruneContainers => match req_text(params, "server"@) {
                Some(server) => Some(ApiRequestView::PruneContainers { server }),
                None => None,
            },
            Operation::PruneImages => match req_text(params, "server"@) {
                Some(server) => Some(ApiRequestView::PruneImages { server }),
                None => None,
            },
            Operation::PruneNetworks => match req_text(params, "server"@) {
                Some(server) => Some(ApiRequestView::PruneNetworks { server }),
                None => None,
            },
            Operation::GetDeployment => match req_text(params, "deployment"@) {
                Some(deployment) => Some(ApiRequestView::GetDeployment { deployment }),
                None => None,
            },
            Operation::ListDeployments => Some(ApiRequestView::ListDeployments),
            Operation::CreateDeployment => match (req_text(params, "name"@), parsed_deployment_config(params)) {
                (Some(name), Some(config)) => Some(ApiRequestView::CreateDeployment { name, config }),
                _ => None,
            },
            Operation::DeleteDeployment => match req_text(params, "deployment"@) {
                Some(deployment) => Some(ApiRequestView::DeleteDeployment { deployment }),
                None => None,
            },
            Operation::UpdateDeployment => match (req_text(params, "deployment"@), parsed_deployment_config(params)) {
                (Some(deployment), Some(config)) => Some(ApiRequestView::UpdateDeployment { deployment, config }),
                _ => None,
            },
            Operation::RenameDeployment => match (req_text(params, "deployment"@), req_text(params, "name"@)) {
                (Some(deployment), Some(name)) => Some(ApiRequestView::RenameDeployment { deployment, name }),
                _ => None,
            },
            Operation::Deploy => match req_text(params, "deployment"@) {
                Some(deployment) => Some(ApiRequestView::Deploy { deployment }),
                None => None,
            },
            Operation::StartContainer => match req_text(params, "deployment"@) {
                Some(deployment) => Some(ApiRequestView::StartContainer { deployment }),
                None => None,
            },
            Operation::StopContainer => match req_text(params, "deployment"@) {
                Some(deployment) => Some(ApiRequestView::StopContainer { deployment }),
                None => None,
            },
            Operation::RemoveContainer => match req_text(params, "deployment"@) {
                Some(deployment) => Some(ApiRequestView::RemoveContainer { deployment }),
                None => None,
            },
            Operation::GetBuild => match req_text(params, "build"@) {
                Some(build) => Some(ApiRequestView::GetBuild { build }),
                None => None,
            },
            Operation::ListBuilds => Some(ApiRequestView::ListBuilds),
            Operation::CreateBuild => match (req_text(params, "name"@), parsed_build_config(params)) {
                (Some(name), Some(config)) => Some(ApiRequestView::CreateBuild { name, config }),
                _ => None,
            },
            Operation::DeleteBuild => match req_text(params, "build"@) {
                Some(build) => Some(ApiRequestView::DeleteBuild { build }),
                None => None,
            },
            Operation::UpdateBuild => match (req_text(params, "build"@), parsed_build_config(params)) {
                (Some(build), Some(config)) => Some(ApiRequestView::UpdateBuild { build, config }),
                _ => None,
            },
            Operation::RunBuild => match req_text(params, "build"@) {
                Some(build) => Some(ApiRequestView::RunBuild { build }),
                None => None,
            },
            Operation::GetBuilder => match req_text(params, "builder"@) {
                Some(builder) => Some(ApiRequestView::GetBuilder { builder }),
                None => None,
            },
            Operation::ListBuilders => Some(ApiRequestView::ListBuilders),
            Operation::CreateBuilder => match (req_text(params, "name"@), parsed_builder_config(params)) {
                (Some(name), Some(config)) => Some(ApiRequestView::CreateBuilder { name, config }),
                _ => None,
            },
            Operation::DeleteBuilder => match req_text(params, "builder"@) {
                Some(builder) => Some(ApiRequestView::DeleteBuilder { builder }),
                None => None,
            },
            Operation::UpdateBuilder => match (req_text(params, "builder"@), parsed_builder_config(params)) {
                (Some(builder), Some(config)) => Some(ApiRequestView::UpdateBuilder { builder, config }),
                _ => None,
            },
            Operation::GetRepo => match req_text(params, "repo"@) {
                Some(repo) => Some(ApiRequestView::GetRepo { repo }),
                None => None,
            },
            Operation::ListRepos => Some(ApiRequestView::ListRepos),
            Operation::CreateRepo => match (req_text(params, "name"@), parsed_repo_config(params)) {
                (Some(name), Some(config)) => Some(ApiRequestView::CreateRepo { name, config }),
                _ => None,
            },
            Operation::UpdateRepo => match (req_text(params, "repo"@), parsed_repo_config(params)) {
                (Some(repo), Some(config)) => Some(ApiRequestView::UpdateRepo { repo, config }),
                _ => None,
            },
            Operation::DeleteRepo => match req_text(params, "repo"@) {
                Some(repo) => Some(ApiRequestView::DeleteRepo { repo }),
                None => None,
            },
            Operation::CloneRepo => match req_text(params, "repo"@) {
                Some(repo) => Some(ApiRequestView::CloneRepo { repo }),
                None => None,
            },
            Operation::PullRepo => match req_text(params, "repo"@) {
                Some(repo) => Some(ApiRequestView::PullRepo { repo }),
                None => None,
            },
        }
    }

    /// The request that a document is: the operation that its `type` names,
    /// with the parameters that its `params` gives. A document without
    /// `params` stands for one whose `params` is empty.
    pub open spec fn parsed(j: JsonValue) -> Option<ApiRequestView> {
        match j.field("type"@) {
            Some(JsonValue::Str(name)) => match operation_named(name) {
                Some(operation) => ApiRequestView::with_params(operation, params_of(j)),
                None => None,
            },
            _ => None,
        }
    }
}

impl ApiRequest {
    /// The parameters of the request as a document.
    pub fn params(&self) -> (j: Json)
        ensures
            j@ == self@.params(),
    {
        match self {
            ApiRequest::CreateLoginSecret { name, expires } => Json::empty_object()
                .with("name", Json::Str(name.clone()))
                .with_opt("expires", time_to_json(*expires)),
            ApiRequest::DeleteLoginSecret { name } => Json::empty_object()
                .with("name", Json::Str(name.clone())),
            ApiRequest::UpdateUserPermissions { user_id, enabled } => Json::empty_object()
                .with("user_id", Json::Str(user_id.clone()))
                .with_opt("enabled", flag_to_json(*enabled)),
            ApiRequest::UpdateUserPermissionsOnTarget { user_id, target_type, target, permission } => Json::empty_object()
                .with("user_id", Json::Str(user_id.clone()))
                .with("target_type", Json::text(target_type.name()))
                .with("target", Json::Str(target.clone()))
                .with("permission", Json::text(permission.name())),
            ApiRequest::GetPeripheryVersion { server } => Json::empty_object()
                .with("server", Json::Str(server.clone())),
            ApiRequest::GetSystemInformation { server } => Json::empty_object()
                .with("server", Json::Str(server.clone())),
            ApiRequest::GetDockerContainers { server } => Json::empty_object()
                .with("server", Json::Str(server.clone())),
            ApiRequest::GetDockerImages { server } => Json::empty_object()
                .with("server", Json::Str(server.clone())),
            ApiRequest::GetDockerNetworks { server } => Json::empty_object()
                .with("server", Json::Str(server.clone())),
            ApiRequest::GetServer { server } => Json::empty_object()
                .with("server", Json::Str(server.clone())),
            ApiRequest::ListServers { query } => Json::empty_object()
                .with("query", Json::empty_object()),
            ApiRequest::CreateServer { name, config } => Json::empty_object()
                .with("name", Json::Str(name.clone()))
                .with("config", config.to_json()),
            ApiRequest::DeleteServer { server } => Json::empty_object()
                .with("server", Json::Str(server.clone())),
            ApiRequest::UpdateServer { server, config } => Json::empty_object()
                .with("server", Json::Str(server.clone()))
                .with("config", config.to_json()),
            ApiRequest::RenameServer { server, name } => Json::empty_object()
                .with("server", Json::Str(server.clone()))
                .with("name", Json::Str(name.clone())),
            ApiRequest::GetAllSystemStats { server } => Json::empty_object()
                .with("server", Json::Str(server.clone())),
            ApiRequest::GetBasicSystemStats { server } => Json::empty_object()
                .with("server", Json::Str(server.clone())),
            ApiRequest::GetCpuUsage { server } => Json::empty_object()
                .with("server", Json::Str(server.clone())),
            ApiRequest::GetDiskUsage { server } => Json::empty_object()
                .with("server", Json::Str(server.clone())),
            ApiRequest::GetNetworkUsage { server } => Json::empty_object()
                .with("server", Json::Str(server.clone())),
            ApiRequest::GetSystemProcesses { server } => Json::empty_object()
                .with("server", Json::Str(server.clone())),
            ApiRequest::GetSystemComponents { server } => Json::empty_object()
                .with("server", Json::Str(server.clone())),
            ApiRequest::PruneContainers { server } => Json::empty_object()
                .with("server", Json::Str(server.clone())),
            ApiRequest::PruneImages { server } => Json::empty_object()
                .with("server", Json::Str(server.clone())),
            ApiRequest::PruneNetworks { server } => Json::empty_object()
                .with("server", Json::Str(server.clone())),
            ApiRequest::GetDeployment { deployment } => Json::empty_object()
                .with("deployment", Json::Str(deployment.clone())),
            ApiRequest::ListDeployments => Json::empty_object(),
            ApiRequest::CreateDeployment { name, config } => Json::empty_object()
                .with("name", Json::Str(name.clone()))
                .with("config", config.to_json()),
            ApiRequest::DeleteDeployment { deployment } => Json::empty_object()
                .with("deployment", Json::Str(deployment.clone())),
            ApiRequest::UpdateDeployment { deployment, config } => Json::empty_object()
                .with("deployment", Json::Str(deployment.clone()))
                .with("config", config.to_json()),
            ApiRequest::RenameDeployment { deployment, name } => Json::empty_object()
                .with("deployment", Json::Str(deployment.clone()))
                .with("name", Json::Str(name.clone())),
            ApiRequest::Deploy { deployment } => Json::empty_object()
                .with("deployment", Json::Str(deployment.clone())),
            ApiRequest::StartContainer { deployment } => Json::empty_object()
                .with("deployment", Json::Str(deployment.clone())),
            ApiRequest::StopContainer { deployment } => Json::empty_object()
                .with("deployment", Json::Str(deployment.clone())),
            ApiRequest::RemoveContainer { deployment } => Json::empty_object()
                .with("deployment", Json::Str(deployment.clone())),
            ApiRequest::GetBuild { build } => Json::empty_object()
                .with("build", Json::Str(build.clone())),
            ApiRequest::ListBuilds => Json::empty_object(),
            ApiRequest::CreateBuild { name, config } => Json::empty_object()
                .with("name", Json::Str(name.clone()))
                .with("config", config.to_json()),
            ApiRequest::DeleteBuild { build } => Json::empty_object()
                .with("build", Json::Str(build.clone())),
            ApiRequest::UpdateBuild { build, config } => Json::empty_object()
                .with("build", Json::Str(build.clone()))
                .with("config", config.to_json()),
            ApiRequest::RunBuild { build } => Json::empty_object()
                .with("build", Json::Str(build.clone())),
            ApiRequest::GetBuilder { builder } => Json::empty_object()
                .with("builder", Json::Str(builder.clone())),
            ApiRequest::ListBuilders => Json::empty_object(),
            ApiRequest::CreateBuilder { name, config } => Json::empty_object()
                .with("name", Json::Str(name.clone()))
                .with("config", config.to_json()),
            ApiRequest::DeleteBuilder { builder } => Json::empty_object()
                .with("builder", Json::Str(builder.clone())),
            ApiRequest::UpdateBuilder { builder, config } => Json::empty_object()
                .with("builder", Json::Str(builder.clone()))
                .with("config", config.to_json()),
            ApiRequest::GetRepo { repo } => Json::empty_object()
                .with("repo", Json::Str(repo.clone())),
            ApiRequest::ListRepos => Json::empty_object(),
            ApiRequest::CreateRepo { name, config } => Json::empty_object()
                .with("name", Json::Str(name.clone()))
                .with("config", config.to_json()),
            ApiRequest::UpdateRepo { repo, config } => Json::empty_object()
                .with("repo", Json::Str(repo.clone()))
                .with("config", config.to_json()),
            ApiRequest::DeleteRepo { repo } => Json::empty_object()
                .with("repo", Json::Str(repo.clone())),
            ApiRequest::CloneRepo { repo } => Json::empty_object()
                .with("repo", Json::Str(repo.clone())),
            ApiRequest::PullRepo { repo } => Json::empty_object()
                .with("repo", Json::Str(repo.clone())),
        }
    }

    /// The request as it travels.
    pub fn to_json(&self) -> (j: Json)
        ensures
            j@ == self@.wire(),
    {
        Json::empty_object().with("type", Json::text(self.operation().name())).with(
            "params",
            self.params(),
        )
    }

    /// The request of this operation that `params` gives.
    pub fn with_params(operation: Operation, params: &Json) -> (r: Option<ApiRequest>)
        ensures
            match r {
                Some(request) => ApiRequestView::with_params(operation, params@) == Some(request@),
                None => ApiRequestView::with_params(operation, params@) is None,
            },
    {
        match operation {
            Operation::CreateLoginSecret => match (get_text(params, "name"), get_opt_time(params, "expires")) {
                (Some(name), Some(expires)) => Some(ApiRequest::CreateLoginSecret { name, expires }),
                _ => None,
            },
            Operation::DeleteLoginSecret => match get_text(params, "name") {
                Some(name) => Some(ApiRequest::DeleteLoginSecret { name }),
                None => None,
            },
            Operation::UpdateUserPermissions => match (get_text(params, "user_id"), get_opt_flag(params, "enabled")) {
                (Some(user_id), Some(enabled)) => Some(ApiRequest::UpdateUserPermissions { user_id, enabled }),
                _ => None,
            },
            Operation::UpdateUserPermissionsOnTarget => match (get_text(params, "user_id"), get_family(params, "target_type"), get_text(params, "target"), get_level(params, "permission")) {
                (Some(user_id), Some(target_type), Some(target), Some(permission)) => Some(ApiRequest::UpdateUserPermissionsOnTarget { user_id, target_type, target, permission }),
                _ => None,
            },
            Operation::GetPeripheryVersion => match get_text(params, "server") {
                Some(server) => Some(ApiRequest::GetPeripheryVersion { server }),
                None => None,
            },
            Operation::GetSystemInformation => match get_text(params, "server") {
                Some(server) => Some(ApiRequest::GetSystemInformation { server }),
                None => None,
            },
            Operation::GetDockerContainers => match get_text(params, "server") {
                Some(server) => Some(ApiRequest::GetDockerContainers { server }),
                None => None,
            },
            Operation::GetDockerImages => match get_text(params, "server") {
                Some(server) => Some(ApiRequest::GetDockerImages { server }),
                None => None,
            },
            Operation::GetDockerNetworks => match get_text(params, "server") {
                Some(server) => Some(ApiRequest::GetDockerNetworks { server }),
                None => None,
            },
            Operation::GetServer => match get_text(params, "server") {
                Some(server) => Some(ApiRequest::GetServer { server }),
                None => None,
            },
            Operation::ListServers => Some(ApiRequest::ListServers { query: ServerQuerySpecifics {  } }),
            Operation::CreateServer => match (get_text(params, "name"), get_server_config(params)) {
                (Some(name), Some(config)) => Some(ApiRequest::CreateServer { name, config }),
                _ => None,
            },
            Operation::DeleteServer => match get_text(params, "server") {
                Some(server) => Some(ApiRequest::DeleteServer { server }),
                None => None,
            },
            Operation::UpdateServer => match (get_text(params, "server"), get_server_config(params)) {
                (Some(server), Some(config)) => Some(ApiRequest::UpdateServer { server, config }),
                _ => None,
            },
            Operation::RenameServer => match (get_text(params, "server"), get_text(params, "name")) {
                (Some(server), Some(name)) => Some(ApiRequest::RenameServer { server, name }),
                _ => None,
            },
            Operation::GetAllSystemStats => match get_text(params, "server") {
                Some(server) => Some(ApiRequest::GetAllSystemStats { server }),
                None => None,
            },
            Operation::GetBasicSystemStats => match get_text(params, "server") {
                Some(server) => Some(ApiRequest::GetBasicSystemStats { server }),
                None => None,
            },
            Operation::GetCpuUsage => match get_text(params, "server") {
                Some(server) => Some(ApiRequest::GetCpuUsage { server }),
                None => None,
            },
            Operation::GetDiskUsage => match get_text(params, "server") {
                Some(server) => Some(ApiRequest::GetDiskUsage { server }),
                None => None,
            },
            Operation::GetNetworkUsage => match get_text(params, "server") {
                Some(server) => Some(ApiRequest::GetNetworkUsage { server }),
                None => None,
            },
            Operation::GetSystemProcesses => match get_text(params, "server") {
                Some(server) => Some(ApiRequest::GetSystemProcesses { server }),
                None => None,
            },
            Operation::GetSystemComponents => match get_text(params, "server") {
                Some(server) => Some(ApiRequest::GetSystemComponents { server }),
                None => None,
            },
            Operation::PruneContainers => match get_text(params, "server") {
                Some(server) => Some(ApiRequest::PruneContainers { server }),
                None => None,
            },
            Operation::PruneImages => match get_text(params, "server") {
                Some(server) => Some(ApiRequest::PruneImages { server }),
                None => None,
            },
            Operation::PruneNetworks => match get_text(params, "server") {
                Some(server) => Some(ApiRequest::PruneNetworks { server }),
                None => None,
            },
            Operation::GetDeployment => match get_text(params, "deployment") {
                Some(deployment) => Some(ApiRequest::GetDeployment { deployment }),
                None => None,
            },
            Operation::ListDeployments => Some(ApiRequest::ListDeployments),
            Operation::CreateDeployment => match (get_text(params, "name"), get_deployment_config(params)) {
                (Some(name), Some(config)) => Some(ApiRequest::CreateDeployment { name, config }),
                _ => None,
            },
            Operation::DeleteDeployment => match get_text(params, "deployment") {
                Some(deployment) => Some(ApiRequest::DeleteDeployment { deployment }),
                None => None,
            },
            Operation::UpdateDeployment => match (get_text(params, "deployment"), get_deployment_config(params)) {
                (Some(deployment), Some(config)) => Some(ApiRequest::UpdateDeployment { deployment, config }),
                _ => None,
            },
            Operation::RenameDeployment => match (get_text(params, "deployment"), get_text(params, "name")) {
                (Some(deployment), Some(name)) => Some(ApiRequest::RenameDeployment { deployment, name }),
                _ => None,
            },
            Operation::Deploy => match get_text(params, "deployment") {
                Some(deployment) => Some(ApiRequest::Deploy { deployment }),
                None => None,
            },
            Operation::StartContainer => match get_text(params, "deployment") {
                Some(deployment) => Some(ApiRequest::StartContainer { deployment }),
                None => None,
            },
            Operation::StopContainer => match get_text(params, "deployment") {
                Some(deployment) => Some(ApiRequest::StopContainer { deployment }),
                None => None,
            },
            Operation::RemoveContainer => match get_text(params, "deployment") {
                Some(deployment) => Some(ApiRequest::RemoveContainer { deployment }),
                None => None,
            },
            Operation::GetBuild => match get_text(params, "build") {
                Some(build) => Some(ApiRequest::GetBuild { build }),
                None => None,
            },
            Operation::ListBuilds => Some(ApiRequest::ListBuilds),
            Operation::CreateBuild => match (get_text(params, "name"), get_build_config(params)) {
                (Some(name), Some(config)) => Some(ApiRequest::CreateBuild { name, config }),
                _ => None,
            },
            Operation::DeleteBuild => match get_text(params, "build") {
                Some(build) => Some(ApiRequest::DeleteBuild { build }),
                None => None,
            },
            Operation::UpdateBuild => match (get_text(params, "build"), get_build_config(params)) {
                (Some(build), Some(config)) => Some(ApiRequest::UpdateBuild { build, config }),
                _ => None,
            },
            Operation::RunBuild => match get_text(params, "build") {
                Some(build) => Some(ApiRequest::RunBuild { build }),
                None => None,
            },
            Operation::GetBuilder => match get_text(params, "builder") {
                Some(builder) => Some(ApiRequest::GetBuilder { builder }),
                None => None,
            },
            Operation::ListBuilders => Some(ApiRequest::ListBuilders),
            Operation::CreateBuilder => match (get_text(params, "name"), get_builder_config(params)) {
                (Some(name), Some(config)) => Some(ApiRequest::CreateBuilder { name, config }),
                _ => None,
            },
            Operation::DeleteBuilder => match get_text(params, "builder") {
                Some(builder) => Some(ApiRequest::DeleteBuilder { builder }),
                None => None,
            },
            Operation::UpdateBuilder => match (get_text(params, "builder"), get_builder_config(params)) {
                (Some(builder), Some(config)) => Some(ApiRequest::UpdateBuilder { builder, config }),
                _ => None,
            },
            Operation::GetRepo => match get_text(params, "repo") {
                Some(repo) => Some(ApiRequest::GetRepo { repo }),
                None => None,
            },
            Operation::ListRepos => Some(ApiRequest::ListRepos),
            Operation::CreateRepo => match (get_text(params, "name"), get_repo_config(params)) {
                (Some(name), Some(config)) => Some(ApiRequest::CreateRepo { name, config }),
                _ => None,
            },
            Operation::UpdateRepo => match (get_text(params, "repo"), get_repo_config(params)) {
                (Some(repo), Some(config)) => Some(ApiRequest::UpdateRepo { repo, config }),
                _ => None,
            },
            Operation::DeleteRepo => match get_text(params, "repo") {
                Some(repo) => Some(ApiRequest::DeleteRepo { repo }),
                None => None,
            },
            Operation::CloneRepo => match get_text(params, "repo") {
                Some(repo) => Some(ApiRequest::CloneRepo { repo }),
                None => None,
            },
            Operation::PullRepo => match get_text(params, "repo") {
                Some(repo) => Some(ApiRequest::PullRepo { repo }),
                None => None,
            },
        }
    }

    /// The request that a document is; none for a document that is no
    /// request.
    pub fn from_json(j: &Json) -> (r: Option<ApiRequest>)
        ensures
            match r {
                Some(request) => ApiRequestView::parsed(j@) == Some(request@),
                None => ApiRequestView::parsed(j@) is None,
            },
    {
        let name = match j.get("type") {
            Some(Json::Str(name)) => name,
            _ => {
                return None;
            },
        };
        let operation = match Operation::from_name(name) {
            Some(operation) => operation,
            None => {
                return None;
            },
        };
        match j.get("params") {
            Some(params) => ApiRequest::with_params(operation, params),
            None => ApiRequest::with_params(operation, &Json::empty_object()),
        }
    }
}

/// The parameters of a request about login secrets and permissions, read back, give the request.
proof fn admin_params_round_trip(request: ApiRequestView)
    requires
        request.operation().family() == None::<ResourceType>,
    ensures
        ApiRequestView::with_params(request.operation(), request.params()) == Some(request),
{
    broadcast use field_of_with, field_of_with_opt;

    reveal_strlit("enabled");
    reveal_strlit("expires");
    reveal_strlit("name");
    reveal_strlit("permission");
    reveal_strlit("target");
    reveal_strlit("target_type");
    reveal_strlit("user_id");
    assert(mark("enabled"@, 1, 0) == (7nat, 'n', 'e'));
    assert(mark("expires"@, 1, 0) == (7nat, 'x', 'e'));
    assert(mark("name"@, 1, 0) == (4nat, 'a', 'n'));
    assert(mark("permission"@, 1, 0) == (10nat, 'e', 'p'));
    assert(mark("target"@, 1, 0) == (6nat, 'a', 't'));
    assert(mark("target_type"@, 1, 0) == (11nat, 'a', 't'));
    assert(mark("user_id"@, 1, 0) == (7nat, 's', 'u'));
    level_names_round_trip();
}

/// The parameters of a request about servers, read back, give the request.
proof fn server_params_round_trip(request: ApiRequestView)
    requires
        request.operation().family() == Some(ResourceType::Server),
    ensures
        ApiRequestView::with_params(request.operation(), request.params()) == Some(request),
{
    broadcast use field_of_with, field_of_with_opt;

    reveal_strlit("config");
    reveal_strlit("name");
    reveal_strlit("query");
    reveal_strlit("server");
    assert(mark("config"@, 0, 0) == (6nat, 'c', 'c'));
    assert(mark("name"@, 0, 0) == (4nat, 'n', 'n'));
    assert(mark("query"@, 0, 0) == (5nat, 'q', 'q'));
    assert(mark("server"@, 0, 0) == (6nat, 's', 's'));
    match request {
        ApiRequestView::CreateServer { config, .. } => {
            partial_server_config_round_trip(config);
        },
        ApiRequestView::UpdateServer { config, .. } => {
            partial_server_config_round_trip(config);
        },
        _ => {},
    }
}

/// The parameters of a request about deployments, read back, give the request.
proof fn deployment_params_round_trip(request: ApiRequestView)
    requires
        request.operation().family() == Some(ResourceType::Deployment),
    ensures
        ApiRequestView::with_params(request.operation(), request.params()) == Some(request),
{
    broadcast use field_of_with, field_of_with_opt;

    reveal_strlit("config");
    reveal_strlit("deployment");
    reveal_strlit("name");
    assert(mark("config"@, 0, 0) == (6nat, 'c', 'c'));
    assert(mark("deployment"@, 0, 0) == (10nat, 'd', 'd'));
    assert(mark("name"@, 0, 0) == (4nat, 'n', 'n'));
    match request {
        ApiRequestView::CreateDeployment { config, .. } => {
            partial_deployment_config_round_trip(config);
        },
        ApiRequestView::UpdateDeployment { config, .. } => {
            partial_deployment_config_round_trip(config);
        },
        _ => {},
    }
}

/// The parameters of a request about builds, read back, give the request.
proof fn build_params_round_trip(request: ApiRequestView)
    requires
        request.operation().family() == Some(ResourceType::Build),
    ensures
        ApiRequestView::with_params(request.operation(), request.params()) == Some(request),
{
    broadcast use field_of_with, field_of_with_opt;

    reveal_strlit("build");
    reveal_strlit("config");
    reveal_strlit("name");
    assert(mark("build"@, 0, 0) == (5nat, 'b', 'b'));
    assert(mark("config"@, 0, 0) == (6nat, 'c', 'c'));
    assert(mark("name"@, 0, 0) == (4nat, 'n', 'n'));
    match request {
        ApiRequestView::CreateBuild { config, .. } => {
            partial_build_config_round_trip(config);
        },
        ApiRequestView::UpdateBuild { config, .. } => {
            partial_build_config_round_trip(config);
        },
        _ => {},
    }
}

/// The parameters of a request about builders, read back, give the request.
proof fn builder_params_round_trip(request: ApiRequestView)
    requires
        request.operation().family() == Some(ResourceType::Builder),
    ensures
        ApiRequestView::with_params(request.operation(), request.params()) == Some(request),
{
    broadcast use field_of_with, field_of_with_opt;

    reveal_strlit("builder");
    reveal_strlit("config");
    reveal_strlit("name");
    assert(mark("builder"@, 0, 0) == (7nat, 'b', 'b'));
    assert(mark("config"@, 0, 0) == (6nat, 'c', 'c'));
    assert(mark("name"@, 0, 0) == (4nat, 'n', 'n'));
    match request {
        ApiRequestView::CreateBuilder { config, .. } => {
            partial_builder_config_round_trip(config);
        },
        ApiRequestView::UpdateBuilder { config, .. } => {
            partial_builder_config_round_trip(config);
        },
        _ => {},
    }
}

/// The parameters of a request about repos, read back, give the request.
proof fn repo_params_round_trip(request: ApiRequestView)
    requires
        request.operation().family() == Some(ResourceType::Repo),
    ensures
        ApiRequestView::with_params(request.operation(), request.params()) == Some(request),
{
    broadcast use field_of_with, field_of_with_opt;

    reveal_strlit("config");
    reveal_strlit("name");
    reveal_strlit("repo");
    assert(mark("config"@, 0, 0) == (6nat, 'c', 'c'));
    assert(mark("name"@, 0, 0) == (4nat, 'n', 'n'));
    assert(mark("repo"@, 0, 0) == (4nat, 'r', 'r'));
    match request {
        ApiRequestView::CreateRepo { config, .. } => {
            partial_repo_config_round_trip(config);
        },
        ApiRequestView::UpdateRepo { config, .. } => {
            partial_repo_config_round_trip(config);
        },
        _ => {},
    }
}

/// The parameters of a request, read back, give the request.
pub proof fn params_round_trip(request: ApiRequestView)
    ensures
        ApiRequestView::with_params(request.operation(), request.params()) == Some(request),
{
    match request.operation().family() {
        None => admin_params_round_trip(request),
        Some(ResourceType::Server) => server_params_round_trip(request),
        Some(ResourceType::Deployment) => deployment_params_round_trip(request),
        Some(ResourceType::Build) => build_params_round_trip(request),
        Some(ResourceType::Builder) => builder_params_round_trip(request),
        Some(ResourceType::Repo) => repo_params_round_trip(request),
    }
}

/// A request that is written as a document and read back is the same
/// request, whatever the operation and its parameters.
pub proof fn wire_round_trip(request: ApiRequestView)
    ensures
        ApiRequestView::parsed(request.wire()) == Some(request),
{
    broadcast use field_of_with;

    reveal_strlit("type");
    reveal_strlit("params");
    assert(mark("type"@, 0, 0) == (4nat, 't', 't'));
    assert(mark("params"@, 0, 0) == (6nat, 'p', 'p'));
    operations_are_named_apart(request.operation());
    params_round_trip(request);
    let named = JsonValue::empty().with("type"@, JsonValue::Str(request.operation().name_text()));
    assert(named.field("type"@) == Some(JsonValue::Str(request.operation().name_text())));
    assert(request.wire() == named.with("params"@, request.params()));
    assert(request.wire().field("params"@) == Some(request.params()));
}

} // verus!
