//! The resolved configuration: global settings, and one descriptor per
//! instance that inherits whatever it leaves unset.

use vstd::prelude::*;

verus! {

/// Port the query server listens on when none is configured.
pub const LISTENER_PORT_DEFAULT: u16 = 9198;

/// Milliseconds between two poll cycles when none are configured.
pub const SCRAPE_INTERVAL_DEFAULT: u64 = 2500;

/// Milliseconds after which a cached rendering is no longer served, when none
/// are configured.
pub const STALE_THRESHOLD_DEFAULT: u64 = 20_000;

/// Whether derived metrics are rendered when the configuration does not say.
pub const SPECIAL_METRICS_DEFAULT: bool = true;

/// Verbosity of the diagnostics.
#[derive(Clone, Copy, Debug, PartialEq, Eq, Structural)]
pub enum TracingLevel {
    Trace,
    Debug,
    Info,
    Warn,
    Error,
}

/// The address that the query server binds to.
#[derive(Clone, Copy, Debug)]
pub enum BindAddress {
    /// An IPv4 address, by its four octets.
    V4([u8; 4]),
    /// An IPv6 address, by its eight segments.
    V6([u16; 8]),
}

/// One instance as configured: `id` and `endpoint` are always given, every
/// other field may be left to the global setting. Durations are in
/// milliseconds.
#[derive(Debug)]
pub struct InstanceConfig {
    pub id: String,
    pub endpoint: String,
    pub scrape_interval: Option<u64>,
    pub stale_threshold: Option<u64>,
    pub prefix: Option<String>,
    pub metrics: Option<Vec<String>>,
    pub special_metrics: Option<bool>,
}

/// The global configuration. Durations are in milliseconds.
#[derive(Debug)]
pub struct Config {
    pub tracing_level: TracingLevel,
    pub bind_address: BindAddress,
    pub listener_port: u16,
    pub scrape_interval: u64,
    pub stale_threshold: u64,
    pub prefix: String,
    pub instances: Vec<InstanceConfig>,
    pub metrics: Option<Vec<String>>,
    pub special_metrics: bool,
}

/// The texts of a list of names.
pub open spec fn names_view(names: Seq<String>) -> Seq<Seq<char>> {
    names.map_values(|name: String| name@)
}

/// The texts of an optional list of names.
pub open spec fn metrics_view(metrics: Option<Vec<String>>) -> Option<Seq<Seq<char>>> {
    match metrics {
        Some(names) => Some(names_view(names@)),
        None => None,
    }
}

/// What an `InstanceConfig` says.
pub struct InstanceConfigView {
    pub id: Seq<char>,
    pub endpoint: Seq<char>,
    pub scrape_interval: Option<u64>,
    pub stale_threshold: Option<u64>,
    pub prefix: Option<Seq<char>>,
    pub metrics: Option<Seq<Seq<char>>>,
    pub special_metrics: Option<bool>,
}

/// What a `Config` says.
pub struct ConfigView {
    pub tracing_level: TracingLevel,
    pub bind_address: BindAddress,
    pub listener_port: u16,
    pub scrape_interval: u64,
    pub stale_threshold: u64,
    pub prefix: Seq<char>,
    pub instances: Seq<InstanceConfigView>,
    pub metrics: Option<Seq<Seq<char>>>,
    pub special_metrics: bool,
}

impl View for InstanceConfig {
    type V = InstanceConfigView;

    open spec fn view(&self) -> InstanceConfigView {
        InstanceConfigView {
            id: self.id@,
            endpoint: self.endpoint@,
            scrape_interval: self.scrape_interval,
            stale_threshold: self.stale_threshold,
            prefix: match self.prefix {
                Some(prefix) => Some(prefix@),
                None => None,
            },
            metrics: metrics_view(self.metrics),
            special_metrics: self.special_metrics,
        }
    }
}

impl View for Config {
    type V = ConfigView;

    open spec fn view(&self) -> ConfigView {
        ConfigView {
            tracing_level: self.tracing_level,
            bind_address: self.bind_address,
            listener_port: self.listener_port,
            scrape_interval: self.scrape_interval,
            stale_threshold: self.stale_threshold,
            prefix: self.prefix@,
            instances: self.instances@.map_values(|instance: InstanceConfig| instance@),
            metrics: metrics_view(self.metrics),
            special_metrics: self.special_metrics,
        }
    }
}

impl InstanceConfigView {
    /// Every setting that an instance may inherit has a value.
    pub open spec fn is_resolved(self) -> bool {
        &&& self.scrape_interval is Some
        &&& self.stale_threshold is Some
        &&& self.prefix is Some
        &&& self.special_metrics is Some
    }

    /// The descriptor that results from this one under the global settings:
    /// a value that is set stays, one that is not is taken from `global`.
    pub open spec fn resolve(self, global: ConfigView) -> InstanceConfigView {
        InstanceConfigView {
            id: self.id,
            endpoint: self.endpoint,
            scrape_interval: Some(
                match self.scrape_interval {
                    Some(interval) => interval,
                    None => global.scrape_interval,
                },
            ),
            stale_threshold: Some(
                match self.stale_threshold {
                    Some(threshold) => threshold,
                    None => global.stale_threshold,
                },
            ),
            prefix: Some(
                match self.prefix {
                    Some(prefix) => prefix,
                    None => global.prefix,
                },
            ),
            metrics: match self.metrics {
                Some(names) => Some(names),
                None => global.metrics,
            },
            special_metrics: Some(
                match self.special_metrics {
                    Some(enabled) => enabled,
                    None => global.special_metrics,
                },
            ),
        }
    }
}

impl ConfigView {
    /// Every instance is resolved.
    pub open spec fn is_resolved(self) -> bool {
        forall|i: int| 0 <= i < self.instances.len() ==> (#[trigger] self.instances[i]).is_resolved()
    }

    /// The configuration in which every instance has inherited what it left
    /// unset.
    pub open spec fn resolve(self) -> ConfigView {
        ConfigView {
            instances: self.instances.map_values(
                |instance: InstanceConfigView| instance.resolve(self),
            ),
            ..self
        }
    }
}

/// A resolved instance inherits nothing more: resolving twice is resolving
/// once.
pub proof fn resolving_again_changes_nothing(instance: InstanceConfigView, global: ConfigView)
    ensures
        instance.resolve(global).is_resolved(),
        instance.resolve(global).resolve(global) == instance.resolve(global),
{
}

/// What an instance sets itself stays when it is resolved, whatever the
/// global settings are.
pub proof fn own_settings_win(instance: InstanceConfigView, global: ConfigView)
    ensures
        instance.resolve(global).id == instance.id,
        instance.resolve(global).endpoint == instance.endpoint,
        instance.scrape_interval is Some ==> instance.resolve(global).scrape_interval
            == instance.scrape_interval,
        instance.stale_threshold is Some ==> instance.resolve(global).stale_threshold
            == instance.stale_threshold,
        instance.prefix is Some ==> instance.resolve(global).prefix == instance.prefix,
        instance.metrics is Some ==> instance.resolve(global).metrics == instance.metrics,
        instance.special_metrics is Some ==> instance.resolve(global).special_metrics
            == instance.special_metrics,
{
}

impl Default for InstanceConfig {
    fn default() -> (config: InstanceConfig)
        ensures
            config@ == (InstanceConfigView {
                id: Seq::empty(),
                endpoint: Seq::empty(),
                scrape_interval: None,
                stale_threshold: None,
                prefix: None,
                metrics: None,
                special_metrics: None,
            }),
    {
        InstanceConfig {
            id: String::new(),
            endpoint: String::new(),
            scrape_interval: None,
            stale_threshold: None,
            prefix: None,
            metrics: None,
            special_metrics: None,
        }
    }
}

/// A copy of a list of names.
pub fn clone_names(names: &Vec<String>) -> (copy: Vec<String>)
    ensures
        names_view(copy@) == names_view(names@),
{
    let mut copy: Vec<String> = Vec::new();
    let mut i: usize = 0;
    while i < names.len()
        invariant
            i <= names.len(),
            copy@.len() == i,
            forall|j: int| 0 <= j < i ==> copy@[j]@ == names@[j]@,
        decreases names.len() - i,
    {
        copy.push(names[i].clone());
        i += 1;
    }
    assert(names_view(copy@) =~= names_view(names@));
    copy
}

/// A copy of an optional list of names.
pub fn clone_metrics(metrics: &Option<Vec<String>>) -> (copy: Option<Vec<String>>)
    ensures
        metrics_view(copy) == metrics_view(*metrics),
{
    match metrics {
        Some(names) => Some(clone_names(names)),
        None => None,
    }
}

impl Clone for InstanceConfig {
    fn clone(&self) -> (copy: InstanceConfig)
        ensures
            copy@ == self@,
    {
        InstanceConfig {
            id: self.id.clone(),
            endpoint: self.endpoint.clone(),
            scrape_interval: self.scrape_interval,
            stale_threshold: self.stale_threshold,
            prefix: match &self.prefix {
                Some(prefix) => Some(prefix.clone()),
                None => None,
            },
            metrics: clone_metrics(&self.metrics),
            special_metrics: self.special_metrics,
        }
    }
}

/// The verbosity used when the configuration names none.
pub fn tracing_level_default() -> (level: TracingLevel)
    ensures
        level == TracingLevel::Info,
{
    TracingLevel::Info
}

/// The address the query server binds to when the configuration names none.
pub fn bind_address_default() -> (address: BindAddress)
    ensures
        address matches BindAddress::V4(octets) && octets@ == seq![127u8, 0u8, 0u8, 1u8],
{
    let octets: [u8; 4] = [127, 0, 0, 1];
    assert(octets@ =~= seq![127u8, 0u8, 0u8, 1u8]);
    BindAddress::V4(octets)
}

/// The port used when the configuration names none.
pub fn listener_port_default() -> (port: u16)
    ensures
        port == 9198,
{
    LISTENER_PORT_DEFAULT
}

/// The scrape interval, in milliseconds, used when the configuration names
/// none.
pub fn scrape_interval_default() -> (millis: u64)
    ensures
        millis == 2500,
{
    SCRAPE_INTERVAL_DEFAULT
}

/// The stale threshold, in milliseconds, used when the configuration names
/// none.
pub fn stale_threshold_default() -> (millis: u64)
    ensures
        millis == 20_000,
{
    STALE_THRESHOLD_DEFAULT
}

/// The metric prefix used when the configuration names none.
pub fn prefix_default() -> (prefix: String)
    ensures
        prefix@ == "riak_"@,
{
    "riak_".to_owned()
}

/// The instances polled when the configuration lists none: the local node,
/// with every setting inherited.
pub fn instances_default() -> (instances: Vec<InstanceConfig>)
    ensures
        instances@.len() == 1,
        instances@[0]@ == (InstanceConfigView {
            id: "local"@,
            endpoint: "http://127.0.0.1:8098/stats"@,
            scrape_interval: None,
            stale_threshold: None,
            prefix: None,
            metrics: None,
            special_metrics: None,
        }),
{
    let mut instances: Vec<InstanceConfig> = Vec::new();
    instances.push(
        InstanceConfig {
            id: "local".to_owned(),
            endpoint: "http://127.0.0.1:8098/stats".to_owned(),
            scrape_interval: None,
            stale_threshold: None,
            prefix: None,
            metrics: None,
            special_metrics: None,
        },
    );
    instances
}

/// Whether derived metrics are rendered when the configuration does not say.
pub fn special_metrics_default() -> (enabled: bool)
    ensures
        enabled,
{
    SPECIAL_METRICS_DEFAULT
}

impl InstanceConfig {
    /// Whether every setting that an instance may inherit has a value.
    pub fn is_resolved(&self) -> (resolved: bool)
        ensures
            resolved == self@.is_resolved(),
    {
        self.scrape_interval.is_some() && self.stale_threshold.is_some() && self.prefix.is_some()
            && self.special_metrics.is_some()
    }
}

impl Config {
    /// Whether every instance is resolved.
    pub fn is_resolved(&self) -> (resolved: bool)
        ensures
            resolved == self@.is_resolved(),
    {
        let mut i: usize = 0;
        while i < self.instances.len()
            invariant
                i <= self.instances.len(),
                forall|j: int| 0 <= j < i ==> (#[trigger] self@.instances[j]).is_resolved(),
            decreases self.instances.len() - i,
        {
            if !self.instances[i].is_resolved() {
                assert(!self@.instances[i as int].is_resolved());
                return false;
            }
            i += 1;
        }
        true
    }
}

/// Lets one instance inherit from the global settings whatever it leaves
/// unset.
pub fn resolve_instance(instance: &mut InstanceConfig, global: &Config)
    ensures
        final(instance)@ == old(instance)@.resolve(global@),
{
    if instance.scrape_interval.is_none() {
        instance.scrape_interval = Some(global.scrape_interval);
    }
    if instance.stale_threshold.is_none() {
        instance.stale_threshold = Some(global.stale_threshold);
    }
    if instance.prefix.is_none() {
        instance.prefix = Some(global.prefix.clone());
    }
    if instance.metrics.is_none() {
        instance.metrics = clone_metrics(&global.metrics);
    }
    if instance.special_metrics.is_none() {
        instance.special_metrics = Some(global.special_metrics);
    }
}

/// Lets every instance of the configuration inherit what it leaves unset.
/// The global settings stay as they are.
pub fn process_instances(config: &mut Config)
    ensures
        final(config)@ == old(config)@.resolve(),
        final(config)@.is_resolved(),
{
    let mut instances: Vec<InstanceConfig> = Vec::new();
    std::mem::swap(&mut instances, &mut config.instances);
    let ghost before = instances@.map_values(|instance: InstanceConfig| instance@);
    let mut i: usize = 0;
    while i < instances.len()
        invariant
            i <= instances.len(),
            instances@.len() == before.len(),
            forall|j: int| 0 <= j < i ==> (#[trigger] instances@[j])@ == before[j].resolve(config@),
            forall|j: int| i <= j < instances.len() ==> (#[trigger] instances@[j])@ == before[j],
        decreases instances.len() - i,
    {
        resolve_instance(&mut instances[i], config);
        i += 1;
    }
    std::mem::swap(&mut instances, &mut config.instances);
    assert(config@.instances =~= old(config)@.resolve().instances);
}

} // verus!
