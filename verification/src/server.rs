//! Servers: the settings of one, its reachability, and what a listing shows
//! of it.
use vstd::prelude::*;
use crate::resource::{Duplicate, Resource, ResourceListItem, ResourceListItemView, ResourceView};

verus! {

/// A server as the store holds it.
pub type Server = Resource<ServerConfig, ServerListItemInfo>;

/// A [`Server`] as plain values.
pub type ServerView = ResourceView<ServerConfigView, ServerListItemInfoView>;

/// A server as a listing shows it.
pub type ServerListItem = ResourceListItem<ServerListItemInfo>;

/// A [`ServerListItem`] as plain values.
pub type ServerListItemView = ResourceListItemView<ServerListItemInfoView>;

/// Whether a server takes part in polling where its settings do not say.
pub fn default_enabled() -> (on: bool)
    ensures
        on,
{
    true
}

/// Whether unused images, containers and networks are pruned on a schedule
/// where the settings do not say.
pub fn default_auto_prune() -> (on: bool)
    ensures
        on,
{
    true
}

/// Whether an alert of any one sort is sent where the settings do not say.
pub fn default_send_alerts() -> (on: bool)
    ensures
        on,
{
    true
}

/// The share of processor use that warns, in hundredths of a percent.
pub const DEFAULT_CPU_WARNING: u32 = 9000;

/// The share of processor use that is critical, in hundredths of a percent.
pub const DEFAULT_CPU_CRITICAL: u32 = 9900;

/// The share of memory use that warns, in hundredths of a percent.
pub const DEFAULT_MEM_WARNING: u32 = 7500;

/// The share of memory use that is critical, in hundredths of a percent.
pub const DEFAULT_MEM_CRITICAL: u32 = 9500;

/// The share of disk use that warns, in hundredths of a percent.
pub const DEFAULT_DISK_WARNING: u32 = 7500;

/// The share of disk use that is critical, in hundredths of a percent.
pub const DEFAULT_DISK_CRITICAL: u32 = 9500;

/// Whether the agent of a server answers.
#[derive(Clone, Copy, Debug, PartialEq, Eq, Structural, Hash)]
pub enum ServerStatus {
    /// Not known to answer: no probe has succeeded yet, or the last one
    /// failed.
    NotOk,
    /// The last probe succeeded.
    Okay,
    /// Left out of polling by its settings.
    Disabled,
}

impl Default for ServerStatus {
    fn default() -> (s: ServerStatus)
        ensures
            s == ServerStatus::NotOk,
    {
        ServerStatus::NotOk
    }
}

impl ServerStatus {
    /// The name of the status on the wire.
    pub open spec fn name_text(self) -> Seq<char> {
        match self {
            ServerStatus::NotOk => "NotOk"@,
            ServerStatus::Okay => "Ok"@,
            ServerStatus::Disabled => "Disabled"@,
        }
    }

    /// The name of the status on the wire.
    pub fn name(self) -> (s: &'static str)
        ensures
            s@ == self.name_text(),
    {
        match self {
            ServerStatus::NotOk => "NotOk",
            ServerStatus::Okay => "Ok",
            ServerStatus::Disabled => "Disabled",
        }
    }

    /// The status after the settings were written with this `enabled` flag.
    /// A server that is not enabled is `Disabled`, whatever it was; one that
    /// is enabled again is `NotOk` until a probe succeeds; otherwise the
    /// status stays.
    pub open spec fn with_enabled(self, enabled: bool) -> ServerStatus {
        if !enabled {
            ServerStatus::Disabled
        } else if self == ServerStatus::Disabled {
            ServerStatus::NotOk
        } else {
            self
        }
    }

    /// The status after a probe that found the agent `reachable` or not.
    /// A disabled server stays disabled.
    pub open spec fn with_probe(self, reachable: bool) -> ServerStatus {
        if self == ServerStatus::Disabled {
            ServerStatus::Disabled
        } else if reachable {
            ServerStatus::Okay
        } else {
            ServerStatus::NotOk
        }
    }

    /// The status after the settings were written with this `enabled` flag.
    pub fn after_config(self, enabled: bool) -> (s: ServerStatus)
        ensures
            s == self.with_enabled(enabled),
    {
        if !enabled {
            ServerStatus::Disabled
        } else {
            match self {
                ServerStatus::Disabled => ServerStatus::NotOk,
                other => other,
            }
        }
    }

    /// The status after a probe that found the agent `reachable` or not.
    pub fn after_probe(self, reachable: bool) -> (s: ServerStatus)
        ensures
            s == self.with_probe(reachable),
    {
        match self {
            ServerStatus::Disabled => ServerStatus::Disabled,
            _ => if reachable {
                ServerStatus::Okay
            } else {
                ServerStatus::NotOk
            },
        }
    }
}

/// Probes move a server between `NotOk` and `Okay` and never into or out of
/// `Disabled`; only the `enabled` flag does that, and it wins over any probe.
pub proof fn disabled_follows_the_flag_alone(s: ServerStatus, enabled: bool, reachable: bool)
    ensures
        (s.with_probe(reachable) == ServerStatus::Disabled) == (s == ServerStatus::Disabled),
        (s.with_enabled(enabled) == ServerStatus::Disabled) == !enabled,
        s.with_probe(reachable).with_enabled(false) == ServerStatus::Disabled,
        s.with_enabled(false).with_probe(reachable) == ServerStatus::Disabled,
        s != ServerStatus::Disabled ==> s.with_probe(true) == ServerStatus::Okay && s.with_probe(
            false,
        ) == ServerStatus::NotOk,
{
}

/// The settings of a server. Thresholds are shares of the whole in
/// hundredths of a percent.
#[derive(Debug, PartialEq, Eq)]
pub struct ServerConfig {
    /// Where the agent of the server listens.
    pub address: String,
    pub enabled: bool,
    pub auto_prune: bool,
    pub send_unreachable_alerts: bool,
    pub send_cpu_alerts: bool,
    pub send_mem_alerts: bool,
    pub send_disk_alerts: bool,
    pub send_temp_alerts: bool,
    pub region: String,
    pub cpu_warning: u32,
    pub cpu_critical: u32,
    pub mem_warning: u32,
    pub mem_critical: u32,
    pub disk_warning: u32,
    pub disk_critical: u32,
}

/// A [`ServerConfig`] as plain values.
pub struct ServerConfigView {
    pub address: Seq<char>,
    pub enabled: bool,
    pub auto_prune: bool,
    pub send_unreachable_alerts: bool,
    pub send_cpu_alerts: bool,
    pub send_mem_alerts: bool,
    pub send_disk_alerts: bool,
    pub send_temp_alerts: bool,
    pub region: Seq<char>,
    pub cpu_warning: u32,
    pub cpu_critical: u32,
    pub mem_warning: u32,
    pub mem_critical: u32,
    pub disk_warning: u32,
    pub disk_critical: u32,
}

impl View for ServerConfig {
    type V = ServerConfigView;

    open spec fn view(&self) -> ServerConfigView {
        ServerConfigView {
            address: self.address@,
            enabled: self.enabled,
            auto_prune: self.auto_prune,
            send_unreachable_alerts: self.send_unreachable_alerts,
            send_cpu_alerts: self.send_cpu_alerts,
            send_mem_alerts: self.send_mem_alerts,
            send_disk_alerts: self.send_disk_alerts,
            send_temp_alerts: self.send_temp_alerts,
            region: self.region@,
            cpu_warning: self.cpu_warning,
            cpu_critical: self.cpu_critical,
            mem_warning: self.mem_warning,
            mem_critical: self.mem_critical,
            disk_warning: self.disk_warning,
            disk_critical: self.disk_critical,
        }
    }
}

impl Clone for ServerConfig {
    fn clone(&self) -> (c: ServerConfig)
        ensures
            c == *self,
    {
        ServerConfig {
            address: self.address.clone(),
            enabled: self.enabled,
            auto_prune: self.auto_prune,
            send_unreachable_alerts: self.send_unreachable_alerts,
            send_cpu_alerts: self.send_cpu_alerts,
            send_mem_alerts: self.send_mem_alerts,
            send_disk_alerts: self.send_disk_alerts,
            send_temp_alerts: self.send_temp_alerts,
            region: self.region.clone(),
            cpu_warning: self.cpu_warning,
            cpu_critical: self.cpu_critical,
            mem_warning: self.mem_warning,
            mem_critical: self.mem_critical,
            disk_warning: self.disk_warning,
            disk_critical: self.disk_critical,
        }
    }
}

impl Duplicate for ServerConfig {
    fn duplicate(&self) -> (copy: ServerConfig) {
        self.clone()
    }
}

/// Settings of a server of which any may be left out.
#[derive(Debug, PartialEq, Eq)]
pub struct PartialServerConfig {
    pub address: Option<String>,
    pub enabled: Option<bool>,
    pub auto_prune: Option<bool>,
    pub send_unreachable_alerts: Option<bool>,
    pub send_cpu_alerts: Option<bool>,
    pub send_mem_alerts: Option<bool>,
    pub send_disk_alerts: Option<bool>,
    pub send_temp_alerts: Option<bool>,
    pub region: Option<String>,
    pub cpu_warning: Option<u32>,
    pub cpu_critical: Option<u32>,
    pub mem_warning: Option<u32>,
    pub mem_critical: Option<u32>,
    pub disk_warning: Option<u32>,
    pub disk_critical: Option<u32>,
}

/// A [`PartialServerConfig`] as plain values.
pub struct PartialServerConfigView {
    pub address: Option<Seq<char>>,
    pub enabled: Option<bool>,
    pub auto_prune: Option<bool>,
    pub send_unreachable_alerts: Option<bool>,
    pub send_cpu_alerts: Option<bool>,
    pub send_mem_alerts: Option<bool>,
    pub send_disk_alerts: Option<bool>,
    pub send_temp_alerts: Option<bool>,
    pub region: Option<Seq<char>>,
    pub cpu_warning: Option<u32>,
    pub cpu_critical: Option<u32>,
    pub mem_warning: Option<u32>,
    pub mem_critical: Option<u32>,
    pub disk_warning: Option<u32>,
    pub disk_critical: Option<u32>,
}

/// The text of a string that may be absent.
pub open spec fn text_of(s: Option<String>) -> Option<Seq<char>> {
    match s {
        Some(s) => Some(s@),
        None => None,
    }
}

impl View for PartialServerConfig {
    type V = PartialServerConfigView;

    open spec fn view(&self) -> PartialServerConfigView {
        PartialServerConfigView {
            address: text_of(self.address),
            enabled: self.enabled,
            auto_prune: self.auto_prune,
            send_unreachable_alerts: self.send_unreachable_alerts,
            send_cpu_alerts: self.send_cpu_alerts,
            send_mem_alerts: self.send_mem_alerts,
            send_disk_alerts: self.send_disk_alerts,
            send_temp_alerts: self.send_temp_alerts,
            region: text_of(self.region),
            cpu_warning: self.cpu_warning,
            cpu_critical: self.cpu_critical,
            mem_warning: self.mem_warning,
            mem_critical: self.mem_critical,
            disk_warning: self.disk_warning,
            disk_critical: self.disk_critical,
        }
    }
}

impl PartialServerConfigView {
    /// The settings that leave everything out.
    pub open spec fn nothing() -> PartialServerConfigView {
        PartialServerConfigView {
            address: None,
            enabled: None,
            auto_prune: None,
            send_unreachable_alerts: None,
            send_cpu_alerts: None,
            send_mem_alerts: None,
            send_disk_alerts: None,
            send_temp_alerts: None,
            region: None,
            cpu_warning: None,
            cpu_critical: None,
            mem_warning: None,
            mem_critical: None,
            disk_warning: None,
            disk_critical: None,
        }
    }
}

impl Default for PartialServerConfig {
    fn default() -> (p: PartialServerConfig)
        ensures
            p@ == PartialServerConfigView::nothing(),
    {
        PartialServerConfig {
            address: None,
            enabled: None,
            auto_prune: None,
            send_unreachable_alerts: None,
            send_cpu_alerts: None,
            send_mem_alerts: None,
            send_disk_alerts: None,
            send_temp_alerts: None,
            region: None,
            cpu_warning: None,
            cpu_critical: None,
            mem_warning: None,
            mem_critical: None,
            disk_warning: None,
            disk_critical: None,
        }
    }
}

/// `patch` where it is given, `base` where it is not.
pub open spec fn or_base<T>(patch: Option<T>, base: T) -> T {
    match patch {
        Some(value) => value,
        None => base,
    }
}

impl ServerConfigView {
    /// The settings of a server for which nothing was said: no address, no
    /// region, everything switched on, the default thresholds.
    pub open spec fn defaults() -> ServerConfigView {
        ServerConfigView {
            address: Seq::empty(),
            enabled: true,
            auto_prune: true,
            send_unreachable_alerts: true,
            send_cpu_alerts: true,
            send_mem_alerts: true,
            send_disk_alerts: true,
            send_temp_alerts: true,
            region: Seq::empty(),
            cpu_warning: DEFAULT_CPU_WARNING,
            cpu_critical: DEFAULT_CPU_CRITICAL,
            mem_warning: DEFAULT_MEM_WARNING,
            mem_critical: DEFAULT_MEM_CRITICAL,
            disk_warning: DEFAULT_DISK_WARNING,
            disk_critical: DEFAULT_DISK_CRITICAL,
        }
    }

    /// `self` with each setting that `patch` gives put in place of its own.
    pub open spec fn merged(self, patch: PartialServerConfigView) -> ServerConfigView {
        ServerConfigView {
            address: or_base(patch.address, self.address),
            enabled: or_base(patch.enabled, self.enabled),
            auto_prune: or_base(patch.auto_prune, self.auto_prune),
            send_unreachable_alerts: or_base(
                patch.send_unreachable_alerts,
                self.send_unreachable_alerts,
            ),
            send_cpu_alerts: or_base(patch.send_cpu_alerts, self.send_cpu_alerts),
            send_mem_alerts: or_base(patch.send_mem_alerts, self.send_mem_alerts),
            send_disk_alerts: or_base(patch.send_disk_alerts, self.send_disk_alerts),
            send_temp_alerts: or_base(patch.send_temp_alerts, self.send_temp_alerts),
            region: or_base(patch.region, self.region),
            cpu_warning: or_base(patch.cpu_warning, self.cpu_warning),
            cpu_critical: or_base(patch.cpu_critical, self.cpu_critical),
            mem_warning: or_base(patch.mem_warning, self.mem_warning),
            mem_critical: or_base(patch.mem_critical, self.mem_critical),
            disk_warning: or_base(patch.disk_warning, self.disk_warning),
            disk_critical: or_base(patch.disk_critical, self.disk_critical),
        }
    }

    /// The settings as a patch that gives every one of them.
    pub open spec fn as_patch(self) -> PartialServerConfigView {
        PartialServerConfigView {
            address: Some(self.address),
            enabled: Some(self.enabled),
            auto_prune: Some(self.auto_prune),
            send_unreachable_alerts: Some(self.send_unreachable_alerts),
            send_cpu_alerts: Some(self.send_cpu_alerts),
            send_mem_alerts: Some(self.send_mem_alerts),
            send_disk_alerts: Some(self.send_disk_alerts),
            send_temp_alerts: Some(self.send_temp_alerts),
            region: Some(self.region),
            cpu_warning: Some(self.cpu_warning),
            cpu_critical: Some(self.cpu_critical),
            mem_warning: Some(self.mem_warning),
            mem_critical: Some(self.mem_critical),
            disk_warning: Some(self.disk_warning),
            disk_critical: Some(self.disk_critical),
        }
    }
}

/// The string that `patch` gives, or `base`.
pub fn text_or(patch: Option<String>, base: String) -> (r: String)
    ensures
        r@ == or_base(text_of(patch), base@),
{
    match patch {
        Some(value) => value,
        None => base,
    }
}

/// The flag that `patch` gives, or `base`.
pub fn flag_or(patch: Option<bool>, base: bool) -> (r: bool)
    ensures
        r == or_base(patch, base),
{
    match patch {
        Some(value) => value,
        None => base,
    }
}

/// The number that `patch` gives, or `base`.
pub fn number_or(patch: Option<u32>, base: u32) -> (r: u32)
    ensures
        r == or_base(patch, base),
{
    match patch {
        Some(value) => value,
        None => base,
    }
}

impl ServerConfig {
    /// The settings of a server for which nothing was said.
    pub fn defaults() -> (c: ServerConfig)
        ensures
            c@ == ServerConfigView::defaults(),
    {
        ServerConfig {
            address: String::new(),
            enabled: default_enabled(),
            auto_prune: default_auto_prune(),
            send_unreachable_alerts: default_send_alerts(),
            send_cpu_alerts: default_send_alerts(),
            send_mem_alerts: default_send_alerts(),
            send_disk_alerts: default_send_alerts(),
            send_temp_alerts: default_send_alerts(),
            region: String::new(),
            cpu_warning: DEFAULT_CPU_WARNING,
            cpu_critical: DEFAULT_CPU_CRITICAL,
            mem_warning: DEFAULT_MEM_WARNING,
            mem_critical: DEFAULT_MEM_CRITICAL,
            disk_warning: DEFAULT_DISK_WARNING,
            disk_critical: DEFAULT_DISK_CRITICAL,
        }
    }

    /// `base` with each setting that `patch` gives put in place of its own;
    /// a setting that `patch` leaves out stays as `base` has it.
    pub fn apply_partial(base: ServerConfig, patch: PartialServerConfig) -> (c: ServerConfig)
        ensures
            c@ == base@.merged(patch@),
    {
        ServerConfig {
            address: text_or(patch.address, base.address),
            enabled: flag_or(patch.enabled, base.enabled),
            auto_prune: flag_or(patch.auto_prune, base.auto_prune),
            send_unreachable_alerts: flag_or(
                patch.send_unreachable_alerts,
                base.send_unreachable_alerts,
            ),
            send_cpu_alerts: flag_or(patch.send_cpu_alerts, base.send_cpu_alerts),
            send_mem_alerts: flag_or(patch.send_mem_alerts, base.send_mem_alerts),
            send_disk_alerts: flag_or(patch.send_disk_alerts, base.send_disk_alerts),
            send_temp_alerts: flag_or(patch.send_temp_alerts, base.send_temp_alerts),
            region: text_or(patch.region, base.region),
            cpu_warning: number_or(patch.cpu_warning, base.cpu_warning),
            cpu_critical: number_or(patch.cpu_critical, base.cpu_critical),
            mem_warning: number_or(patch.mem_warning, base.mem_warning),
            mem_critical: number_or(patch.mem_critical, base.mem_critical),
            disk_warning: number_or(patch.disk_warning, base.disk_warning),
            disk_critical: number_or(patch.disk_critical, base.disk_critical),
        }
    }

    /// The settings that `patch` gives, with the default for each one that
    /// it leaves out.
    pub fn from_partial(patch: PartialServerConfig) -> (c: ServerConfig)
        ensures
            c@ == ServerConfigView::defaults().merged(patch@),
    {
        ServerConfig::apply_partial(ServerConfig::defaults(), patch)
    }
}

/// A patch that leaves everything out changes nothing; a patch that gives
/// everything decides everything; and applying a patch twice is applying it
/// once.
pub proof fn merged_laws(
    base: ServerConfigView,
    other: ServerConfigView,
    patch: PartialServerConfigView,
)
    ensures
        base.merged(PartialServerConfigView::nothing()) == base,
        base.merged(other.as_patch()) == other,
        base.merged(patch).merged(patch) == base.merged(patch),
{
}

/// Each setting can be overridden by itself: a patch that gives one setting
/// changes that one and leaves the others as they were.
pub proof fn merged_overrides_one(base: ServerConfigView, address: Seq<char>, enabled: bool, level: u32)
    ensures
        base.merged(
            PartialServerConfigView { address: Some(address), ..PartialServerConfigView::nothing() },
        ) == (ServerConfigView { address, ..base }),
        base.merged(
            PartialServerConfigView { enabled: Some(enabled), ..PartialServerConfigView::nothing() },
        ) == (ServerConfigView { enabled, ..base }),
        base.merged(
            PartialServerConfigView { auto_prune: Some(enabled), ..PartialServerConfigView::nothing() },
        ) == (ServerConfigView { auto_prune: enabled, ..base }),
        base.merged(
            PartialServerConfigView {
                send_unreachable_alerts: Some(enabled),
                ..PartialServerConfigView::nothing()
            },
        ) == (ServerConfigView { send_unreachable_alerts: enabled, ..base }),
        base.merged(
            PartialServerConfigView {
                send_cpu_alerts: Some(enabled),
                ..PartialServerConfigView::nothing()
            },
        ) == (ServerConfigView { send_cpu_alerts: enabled, ..base }),
        base.merged(
            PartialServerConfigView {
                send_mem_alerts: Some(enabled),
                ..PartialServerConfigView::nothing()
            },
        ) == (ServerConfigView { send_mem_alerts: enabled, ..base }),
        base.merged(
            PartialServerConfigView {
                send_disk_alerts: Some(enabled),
                ..PartialServerConfigView::nothing()
            },
        ) == (ServerConfigView { send_disk_alerts: enabled, ..base }),
        base.merged(
            PartialServerConfigView {
                send_temp_alerts: Some(enabled),
                ..PartialServerConfigView::nothing()
            },
        ) == (ServerConfigView { send_temp_alerts: enabled, ..base }),
        base.merged(
            PartialServerConfigView { region: Some(address), ..PartialServerConfigView::nothing() },
        ) == (ServerConfigView { region: address, ..base }),
        base.merged(
            PartialServerConfigView { cpu_warning: Some(level), ..PartialServerConfigView::nothing() },
        ) == (ServerConfigView { cpu_warning: level, ..base }),
        base.merged(
            PartialServerConfigView { cpu_critical: Some(level), ..PartialServerConfigView::nothing() },
        ) == (ServerConfigView { cpu_critical: level, ..base }),
        base.merged(
            PartialServerConfigView { mem_warning: Some(level), ..PartialServerConfigView::nothing() },
        ) == (ServerConfigView { mem_warning: level, ..base }),
        base.merged(
            PartialServerConfigView { mem_critical: Some(level), ..PartialServerConfigView::nothing() },
        ) == (ServerConfigView { mem_critical: level, ..base }),
        base.merged(
            PartialServerConfigView { disk_warning: Some(level), ..PartialServerConfigView::nothing() },
        ) == (ServerConfigView { disk_warning: level, ..base }),
        base.merged(
            PartialServerConfigView {
                disk_critical: Some(level),
                ..PartialServerConfigView::nothing()
            },
        ) == (ServerConfigView { disk_critical: level, ..base }),
{
}

/// What a listing shows of a server: its status, and from its settings the
/// region and which alerts it sends.
#[derive(Debug, PartialEq, Eq)]
pub struct ServerListItemInfo {
    pub status: ServerStatus,
    pub region: String,
    pub send_unreachable_alerts: bool,
    pub send_cpu_alerts: bool,
    pub send_mem_alerts: bool,
    pub send_disk_alerts: bool,
    pub send_temp_alerts: bool,
}

/// A [`ServerListItemInfo`] as plain values.
pub struct ServerListItemInfoView {
    pub status: ServerStatus,
    pub region: Seq<char>,
    pub send_unreachable_alerts: bool,
    pub send_cpu_alerts: bool,
    pub send_mem_alerts: bool,
    pub send_disk_alerts: bool,
    pub send_temp_alerts: bool,
}

impl View for ServerListItemInfo {
    type V = ServerListItemInfoView;

    open spec fn view(&self) -> ServerListItemInfoView {
        ServerListItemInfoView {
            status: self.status,
            region: self.region@,
            send_unreachable_alerts: self.send_unreachable_alerts,
            send_cpu_alerts: self.send_cpu_alerts,
            send_mem_alerts: self.send_mem_alerts,
            send_disk_alerts: self.send_disk_alerts,
            send_temp_alerts: self.send_temp_alerts,
        }
    }
}

impl Clone for ServerListItemInfo {
    fn clone(&self) -> (c: ServerListItemInfo)
        ensures
            c == *self,
    {
        ServerListItemInfo {
            status: self.status,
            region: self.region.clone(),
            send_unreachable_alerts: self.send_unreachable_alerts,
            send_cpu_alerts: self.send_cpu_alerts,
            send_mem_alerts: self.send_mem_alerts,
            send_disk_alerts: self.send_disk_alerts,
            send_temp_alerts: self.send_temp_alerts,
        }
    }
}

impl Duplicate for ServerListItemInfo {
    fn duplicate(&self) -> (copy: ServerListItemInfo) {
        self.clone()
    }
}

impl ServerListItemInfoView {
    /// What a listing shows of a server with these settings and this status.
    pub open spec fn derived(config: ServerConfigView, status: ServerStatus) -> ServerListItemInfoView {
        ServerListItemInfoView {
            status,
            region: config.region,
            send_unreachable_alerts: config.send_unreachable_alerts,
            send_cpu_alerts: config.send_cpu_alerts,
            send_mem_alerts: config.send_mem_alerts,
            send_disk_alerts: config.send_disk_alerts,
            send_temp_alerts: config.send_temp_alerts,
        }
    }
}

impl ServerListItemInfo {
    /// What a listing shows of a server with these settings and this status.
    pub fn derive(config: &ServerConfig, status: ServerStatus) -> (info: ServerListItemInfo)
        ensures
            info@ == ServerListItemInfoView::derived(config@, status),
    {
        ServerListItemInfo {
            status,
            region: config.region.clone(),
            send_unreachable_alerts: config.send_unreachable_alerts,
            send_cpu_alerts: config.send_cpu_alerts,
            send_mem_alerts: config.send_mem_alerts,
            send_disk_alerts: config.send_disk_alerts,
            send_temp_alerts: config.send_temp_alerts,
        }
    }
}

/// Which long-running actions are under way on a server.
#[derive(Clone, Copy, Debug, PartialEq, Eq, Structural, Hash)]
pub struct ServerActionState {
    pub pruning_networks: bool,
    pub pruning_containers: bool,
    pub pruning_images: bool,
    pub stopping_containers: bool,
}

impl Default for ServerActionState {
    fn default() -> (s: ServerActionState)
        ensures
            !s.pruning_networks,
            !s.pruning_containers,
            !s.pruning_images,
            !s.stopping_containers,
    {
        ServerActionState {
            pruning_networks: false,
            pruning_containers: false,
            pruning_images: false,
            stopping_containers: false,
        }
    }
}

/// What a query for servers can ask beyond what a query for any resource
/// asks: nothing.
#[derive(Clone, Copy, Debug, PartialEq, Eq, Structural, Hash)]
pub struct ServerQuerySpecifics {
}

impl Default for ServerQuerySpecifics {
    fn default() -> (q: ServerQuerySpecifics)
        ensures
            q == (ServerQuerySpecifics {  }),
    {
        ServerQuerySpecifics {  }
    }
}

} // verus!
