//! The configuration of a service's instrumentation: who the service is, and
//! the four subsystems.

use crate::logger::{LoggerConfig, LoggerConfigView, LoggerError};
use crate::meter::{MeterConfig, MeterConfigView};
use crate::profiler::{ProfilerConfig, ProfilerConfigView};
use crate::string_map::{entries_map, pairs_view, Entry, StringMap};
use crate::text::concat;
use crate::tracer::{TracerConfig, TracerConfigView};
use opentelemetry::KeyValue;
use opentelemetry_sdk::Resource;
use std::sync::Arc;
use vstd::prelude::*;
use vstd::string::StringExecFns;

verus! {

/// The version that takes the place of an empty one.
pub const DEFAULT_SERVICE_VERSION: &'static str = "0.1.0";

/// The namespace that takes the place of an empty one.
pub const DEFAULT_SERVICE_NAMESPACE: &'static str = "default";

/// The key of the attribute that holds the service name.
pub const SERVICE_NAME: &'static str = "service.name";

/// The key of the attribute that holds the service version.
pub const SERVICE_VERSION: &'static str = "service.version";

/// The key of the attribute that holds the service namespace.
pub const SERVICE_NAMESPACE: &'static str = "service.namespace";

/// The key of the attribute that holds the deployment environment.
pub const DEPLOYMENT_ENVIRONMENT_NAME: &'static str = "deployment.environment.name";

/// Why a configuration is refused.
#[derive(Debug)]
pub enum ConfigError {
    /// The service has no name.
    ServiceNameRequired,
    /// Log export refused its part, with this message.
    Logger(String),
    /// Trace export refused its part, with this message.
    Tracer(String),
    /// Metric export refused its part, with this message.
    Meter(String),
    /// Profiling refused its part, with this message.
    Profiler(String),
}

/// Why a configuration is refused, as mathematical values.
pub enum ConfigErrorView {
    ServiceNameRequired,
    Logger(Seq<char>),
    Tracer(Seq<char>),
    Meter(Seq<char>),
    Profiler(Seq<char>),
}

impl ConfigErrorView {
    /// The message of the error.
    pub open spec fn message(self) -> Seq<char> {
        match self {
            ConfigErrorView::ServiceNameRequired => "resource.service_name is required"@,
            ConfigErrorView::Logger(m) => "logger configuration error: "@ + m,
            ConfigErrorView::Tracer(m) => "tracer configuration error: "@ + m,
            ConfigErrorView::Meter(m) => "meter configuration error: "@ + m,
            ConfigErrorView::Profiler(m) => "profiler configuration error: "@ + m,
        }
    }
}

impl View for ConfigError {
    type V = ConfigErrorView;

    open spec fn view(&self) -> ConfigErrorView {
        match self {
            ConfigError::ServiceNameRequired => ConfigErrorView::ServiceNameRequired,
            ConfigError::Logger(m) => ConfigErrorView::Logger(m@),
            ConfigError::Tracer(m) => ConfigErrorView::Tracer(m@),
            ConfigError::Meter(m) => ConfigErrorView::Meter(m@),
            ConfigError::Profiler(m) => ConfigErrorView::Profiler(m@),
        }
    }
}

impl ConfigError {
    /// The message of the error.
    pub fn to_string(&self) -> (s: String)
        ensures
            s@ == self@.message(),
    {
        match self {
            ConfigError::ServiceNameRequired => String::from_str(
                "resource.service_name is required",
            ),
            ConfigError::Logger(m) => concat("logger configuration error: ", m.as_str()),
            ConfigError::Tracer(m) => concat("tracer configuration error: ", m.as_str()),
            ConfigError::Meter(m) => concat("meter configuration error: ", m.as_str()),
            ConfigError::Profiler(m) => concat("profiler configuration error: ", m.as_str()),
        }
    }
}

/// A list of entries, then another: the map of the whole is the map of the
/// first, with each key of the second replaced by the second's value.
pub proof fn lemma_entries_map_concat(a: Seq<Entry>, b: Seq<Entry>)
    ensures
        entries_map(a + b) == entries_map(a).union_prefer_right(entries_map(b)),
    decreases b.len(),
{
    if b.len() == 0 {
        assert(a + b == a);
        assert(entries_map(a).union_prefer_right(entries_map(b)) =~= entries_map(a));
    } else {
        let b0 = b.drop_last();
        lemma_entries_map_concat(a, b0);
        assert((a + b).drop_last() == a + b0);
        assert((a + b).last() == b.last());
        assert(entries_map(a + b) =~= entries_map(a).union_prefer_right(entries_map(b)));
    }
}

/// Who the service is, as mathematical values.
pub struct ResourceConfigView {
    pub service_name: Seq<char>,
    pub service_version: Seq<char>,
    pub service_namespace: Seq<char>,
    pub environment: Seq<char>,
    pub attributes: Map<Seq<char>, Seq<char>>,
}

impl ResourceConfigView {
    /// The description that a service name alone gives: the default version
    /// and namespace, no environment and no further attribute.
    pub open spec fn new(service_name: Seq<char>) -> ResourceConfigView {
        ResourceConfigView {
            service_name,
            service_version: DEFAULT_SERVICE_VERSION@,
            service_namespace: DEFAULT_SERVICE_NAMESPACE@,
            environment: Seq::empty(),
            attributes: Map::empty(),
        }
    }

    /// The attributes that every resource has, in their order: name, version
    /// and namespace of the service, then the environment where it is not
    /// empty.
    pub open spec fn fixed_attributes(self) -> Seq<Entry> {
        let triad = seq![
            (SERVICE_NAME@, self.service_name),
            (SERVICE_VERSION@, self.service_version),
            (SERVICE_NAMESPACE@, self.service_namespace),
        ];
        if self.environment.len() > 0 {
            triad.push((DEPLOYMENT_ENVIRONMENT_NAME@, self.environment))
        } else {
            triad
        }
    }

    /// What a resource built from the description holds under each key: the
    /// fixed attributes, but for a key that is also a free-form attribute,
    /// which holds the free-form value.
    pub open spec fn resource(self) -> Map<Seq<char>, Seq<char>> {
        entries_map(self.fixed_attributes()).union_prefer_right(self.attributes)
    }
}

/// The attributes of a resource: under each key that the resource has, its
/// value as a string.
pub uninterp spec fn resource_attributes(resource: Resource) -> Map<Seq<char>, Seq<char>>;

/// `opentelemetry_sdk::Resource`: a set of attributes, opaque here.
#[verifier::external_type_specification]
#[verifier::external_body]
pub struct ExResource(Resource);

/// `Resource::new` of opentelemetry_sdk, on attributes whose values are
/// strings. It inserts the pairs one after the other into a map by key, so
/// of two pairs with one key the later stays.
#[verifier::external_body]
fn resource_from_attributes(attributes: Vec<(String, String)>) -> (resource: Resource)
    ensures
        resource_attributes(resource) == entries_map(pairs_view(attributes@)),
{
    Resource::new(attributes.into_iter().map(|(key, value)| KeyValue::new(key, value)))
}

/// `SERVICE_NAME` of opentelemetry_semantic_conventions: the key
/// `service.name`.
#[verifier::external_body]
fn service_name_key() -> (key: &'static str)
    ensures
        key@ == SERVICE_NAME@,
{
    opentelemetry_semantic_conventions::resource::SERVICE_NAME
}

/// `SERVICE_VERSION` of opentelemetry_semantic_conventions: the key
/// `service.version`.
#[verifier::external_body]
fn service_version_key() -> (key: &'static str)
    ensures
        key@ == SERVICE_VERSION@,
{
    opentelemetry_semantic_conventions::resource::SERVICE_VERSION
}

/// `SERVICE_NAMESPACE` of opentelemetry_semantic_conventions: the key
/// `service.namespace`.
#[verifier::external_body]
fn service_namespace_key() -> (key: &'static str)
    ensures
        key@ == SERVICE_NAMESPACE@,
{
    opentelemetry_semantic_conventions::resource::SERVICE_NAMESPACE
}

/// `DEPLOYMENT_ENVIRONMENT_NAME` of opentelemetry_semantic_conventions: the
/// key `deployment.environment.name`.
#[verifier::external_body]
fn deployment_environment_name_key() -> (key: &'static str)
    ensures
        key@ == DEPLOYMENT_ENVIRONMENT_NAME@,
{
    opentelemetry_semantic_conventions::resource::DEPLOYMENT_ENVIRONMENT_NAME
}

/// Who the service is: the identity that every subsystem attaches to what it
/// emits.
#[derive(Debug)]
pub struct ResourceConfig {
    pub service_name: String,
    pub service_version: String,
    pub service_namespace: String,
    pub environment: String,
    pub attributes: StringMap,
}

impl View for ResourceConfig {
    type V = ResourceConfigView;

    open spec fn view(&self) -> ResourceConfigView {
        ResourceConfigView {
            service_name: self.service_name@,
            service_version: self.service_version@,
            service_namespace: self.service_namespace@,
            environment: self.environment@,
            attributes: self.attributes@,
        }
    }
}

impl Clone for ResourceConfig {
    fn clone(&self) -> (c: ResourceConfig)
        ensures
            c@ == self@,
            c.attributes.spec_entries() == self.attributes.spec_entries(),
    {
        ResourceConfig {
            service_name: self.service_name.clone(),
            service_version: self.service_version.clone(),
            service_namespace: self.service_namespace.clone(),
            environment: self.environment.clone(),
            attributes: self.attributes.clone(),
        }
    }
}

impl ResourceConfig {
    /// The description of a service by its name, with the default version
    /// and namespace.
    pub fn new(service_name: &str) -> (c: ResourceConfig)
        ensures
            c@ == ResourceConfigView::new(service_name@),
    {
        ResourceConfig {
            service_name: String::from_str(service_name),
            service_version: String::from_str(DEFAULT_SERVICE_VERSION),
            service_namespace: String::from_str(DEFAULT_SERVICE_NAMESPACE),
            environment: String::new(),
            attributes: StringMap::new(),
        }
    }

    /// Sets the version of the service.
    pub fn with_version(self, version: &str) -> (c: ResourceConfig)
        ensures
            c@ == (ResourceConfigView { service_version: version@, ..self@ }),
    {
        let mut c = self;
        c.service_version = String::from_str(version);
        c
    }

    /// Sets the namespace of the service.
    pub fn with_namespace(self, namespace: &str) -> (c: ResourceConfig)
        ensures
            c@ == (ResourceConfigView { service_namespace: namespace@, ..self@ }),
    {
        let mut c = self;
        c.service_namespace = String::from_str(namespace);
        c
    }

    /// Sets the deployment environment.
    pub fn with_environment(self, environment: &str) -> (c: ResourceConfig)
        ensures
            c@ == (ResourceConfigView { environment: environment@, ..self@ }),
    {
        let mut c = self;
        c.environment = String::from_str(environment);
        c
    }

    /// Adds a free-form attribute, in place of one of the same key.
    pub fn with_attribute(self, key: &str, value: &str) -> (c: ResourceConfig)
        ensures
            c@ == (ResourceConfigView { attributes: self@.attributes.insert(key@, value@), ..self@ }),
    {
        let mut c = self;
        c.attributes.insert(String::from_str(key), String::from_str(value));
        c
    }

    /// The attributes of the service, as they are written: name, version and
    /// namespace, the environment where it is not empty, then every
    /// free-form attribute in the order of the map. A free-form attribute
    /// with the key of a fixed one is written as well.
    pub fn attributes(&self) -> (list: Vec<(String, String)>)
        ensures
            pairs_view(list@) == self@.fixed_attributes() + self.attributes.spec_entries(),
    {
        let mut list: Vec<(String, String)> = Vec::new();
        list.push((String::from_str(service_name_key()), self.service_name.clone()));
        list.push((String::from_str(service_version_key()), self.service_version.clone()));
        list.push((String::from_str(service_namespace_key()), self.service_namespace.clone()));
        if !self.environment.as_str().is_empty() {
            list.push(
                (String::from_str(deployment_environment_name_key()), self.environment.clone()),
            );
        }
        assert(pairs_view(list@) =~= self@.fixed_attributes());
        let free = self.attributes.entries();
        let ghost fixed = self@.fixed_attributes();
        let mut i: usize = 0;
        while i < free.len()
            invariant
                i <= free.len(),
                pairs_view(list@) == fixed + pairs_view(free@).subrange(0, i as int),
            decreases free.len() - i,
        {
            let ghost before = pairs_view(list@);
            list.push((free[i].0.clone(), free[i].1.clone()));
            assert(pairs_view(list@) =~= before.push(pairs_view(free@)[i as int]));
            assert(pairs_view(list@) =~= fixed + pairs_view(free@).subrange(0, i + 1));
            i += 1;
        }
        assert(pairs_view(free@).subrange(0, i as int) == pairs_view(free@));
        list
    }

    /// The resource of the service: its attributes as
    /// `opentelemetry_sdk::Resource` holds them, one value under each key.
    pub fn build(&self) -> (resource: Resource)
        ensures
            resource_attributes(resource) == self@.resource(),
    {
        let list = self.attributes();
        proof {
            lemma_entries_map_concat(self@.fixed_attributes(), self.attributes.spec_entries());
        }
        resource_from_attributes(list)
    }
}

/// `anyhow::Error`: why a customizer refused a resource, opaque here.
#[verifier::external_type_specification]
#[verifier::external_body]
pub struct ExAnyhowError(anyhow::Error);

/// A hook that changes the resource of a service after it is built, or
/// refuses it.
pub trait ResourceCustomizer: Send + Sync {
    /// The resource to use in place of `resource`.
    fn customize(&self, resource: Resource) -> Result<Resource, anyhow::Error>;
}

/// A shared customizer customizes as the one it shares.
impl<T: ResourceCustomizer + ?Sized> ResourceCustomizer for Arc<T> {
    /// What the shared customizer gives for `resource`.
    fn customize(&self, resource: Resource) -> (r: Result<Resource, anyhow::Error>)
        ensures
            call_ensures(T::customize, (&**self, resource), r),
    {
        T::customize(&**self, resource)
    }
}

/// Whether `r` is what the customizers give for `resource` when they are
/// applied in their order, each to the resource that the one before it
/// gave: the resource of the last one where none refuses, the refusal of the
/// first that refuses otherwise, and the resource itself where there is no
/// customizer. What one customizer gives is left to it.
pub open spec fn customized<C: ResourceCustomizer>(
    customizers: Seq<C>,
    resource: Resource,
    r: Result<Resource, anyhow::Error>,
) -> bool
    decreases customizers.len(),
{
    if customizers.len() == 0 {
        r == Ok::<Resource, anyhow::Error>(resource)
    } else {
        exists|first: Result<Resource, anyhow::Error>| #[trigger]
            call_ensures(C::customize, (&customizers[0], resource), first) && match first {
                Ok(next) => customized(customizers.drop_first(), next, r),
                Err(refusal) => r == Err::<Resource, anyhow::Error>(refusal),
            }
    }
}

/// Applies the customizers in their order, each to the resource that the
/// one before it gave. The first refusal ends the run and is what is
/// returned; without any refusal the resource of the last customizer is
/// returned, and without any customizer the resource itself.
pub fn apply_customizers<C: ResourceCustomizer>(resource: Resource, customizers: &Vec<C>) -> (r:
    Result<Resource, anyhow::Error>)
    ensures
        customized(customizers@, resource, r),
{
    let mut current = resource;
    let mut i: usize = 0;
    assert(customizers@.subrange(0, customizers@.len() as int) == customizers@);
    while i < customizers.len()
        invariant
            i <= customizers.len(),
            forall|r: Result<Resource, anyhow::Error>| #[trigger]
                customized(customizers@.subrange(i as int, customizers@.len() as int), current, r)
                    ==> customized(customizers@, resource, r),
        decreases customizers.len() - i,
    {
        let ghost rest = customizers@.subrange(i as int, customizers@.len() as int);
        let ghost before = current;
        let first = customizers[i].customize(current);
        assert(rest[0] == customizers@[i as int]);
        assert(rest.drop_first() == customizers@.subrange(i + 1, customizers@.len() as int));
        assert(call_ensures(C::customize, (&rest[0], before), first));
        match first {
            Ok(next) => {
                assert forall|r: Result<Resource, anyhow::Error>| #[trigger]
                    customized(rest.drop_first(), next, r) implies customized(
                    customizers@,
                    resource,
                    r,
                ) by {
                    assert(customized(rest, before, r));
                }
                current = next;
            },
            Err(refusal) => {
                assert(customized(rest, before, Err::<Resource, anyhow::Error>(refusal)));
                return Err(refusal);
            },
        }
        i += 1;
    }
    assert(customized(
        customizers@.subrange(i as int, customizers@.len() as int),
        current,
        Ok::<Resource, anyhow::Error>(current),
    ));
    Ok(current)
}

/// The configuration of a service's instrumentation, as mathematical values.
pub struct ConfigView {
    pub resource: ResourceConfigView,
    pub logger: LoggerConfigView,
    pub tracer: TracerConfigView,
    pub meter: MeterConfigView,
    pub profiler: ProfilerConfigView,
}

/// `name`, or `fallback` where `name` is empty.
pub open spec fn name_or(name: Seq<char>, fallback: Seq<char>) -> Seq<char> {
    if name.len() == 0 {
        fallback
    } else {
        name
    }
}

impl ConfigView {
    /// The configuration that a service name alone gives: each part as that
    /// name alone gives it.
    pub open spec fn new(service_name: Seq<char>) -> ConfigView {
        ConfigView {
            resource: ResourceConfigView::new(service_name),
            logger: LoggerConfigView::new(service_name),
            tracer: TracerConfigView::new(service_name),
            meter: MeterConfigView::new(service_name),
            profiler: ProfilerConfigView::new(service_name),
        }
    }

    /// The configuration with its defaults filled in. An empty version and an
    /// empty namespace become the default ones. A subsystem without service
    /// name takes the name of the service. Then each subsystem fills in its
    /// own defaults.
    pub open spec fn with_defaults(self) -> ConfigView {
        let name = self.resource.service_name;
        ConfigView {
            resource: ResourceConfigView {
                service_version: name_or(self.resource.service_version, DEFAULT_SERVICE_VERSION@),
                service_namespace: name_or(
                    self.resource.service_namespace,
                    DEFAULT_SERVICE_NAMESPACE@,
                ),
                ..self.resource
            },
            logger: (LoggerConfigView {
                service_name: name_or(self.logger.service_name, name),
                ..self.logger
            }).with_defaults(),
            tracer: (TracerConfigView {
                service_name: name_or(self.tracer.service_name, name),
                ..self.tracer
            }).with_defaults(),
            meter: (MeterConfigView {
                service_name: name_or(self.meter.service_name, name),
                ..self.meter
            }).with_defaults(),
            profiler: (ProfilerConfigView {
                service_name: name_or(self.profiler.service_name, name),
                ..self.profiler
            }).with_defaults(),
        }
    }

    /// Whether the configuration is accepted. The service needs a name; then
    /// log export, trace export, metric export and profiling are asked in
    /// this order, and the first that refuses gives the error, with its
    /// message.
    pub open spec fn validate(self) -> Result<(), ConfigErrorView> {
        if self.resource.service_name.len() == 0 {
            Err(ConfigErrorView::ServiceNameRequired)
        } else if let Err(e) = self.logger.validate() {
            Err(ConfigErrorView::Logger(e.message()))
        } else if let Err(e) = self.tracer.validate() {
            Err(ConfigErrorView::Tracer(e.message()))
        } else if let Err(e) = self.meter.validate() {
            Err(ConfigErrorView::Meter(e.message()))
        } else if let Err(e) = self.profiler.validate() {
            Err(ConfigErrorView::Profiler(e.message()))
        } else {
            Ok(())
        }
    }

    /// Filling in the defaults twice gives what filling them in once gives.
    pub proof fn lemma_defaults_idempotent(self)
        ensures
            self.with_defaults().with_defaults() == self.with_defaults(),
    {
        let once = self.with_defaults();
        let name = self.resource.service_name;
        reveal_strlit("0.1.0");
        reveal_strlit("default");
        (LoggerConfigView { service_name: name_or(self.logger.service_name, name), ..self.logger })
            .lemma_defaults_idempotent();
        (TracerConfigView { service_name: name_or(self.tracer.service_name, name), ..self.tracer })
            .lemma_defaults_idempotent();
        (MeterConfigView { service_name: name_or(self.meter.service_name, name), ..self.meter })
            .lemma_defaults_idempotent();
        (ProfilerConfigView {
            service_name: name_or(self.profiler.service_name, name),
            ..self.profiler
        }).lemma_defaults_idempotent();
        assert(once.with_defaults().resource == once.resource);
        assert(once.with_defaults().logger == once.logger);
        assert(once.with_defaults().tracer == once.tracer);
        assert(once.with_defaults().meter == once.meter);
        assert(once.with_defaults().profiler == once.profiler);
    }

    /// An accepted configuration is complete: the service has a name, and
    /// every enabled subsystem has a service name and an endpoint.
    pub proof fn lemma_valid_is_complete(self)
        ensures
            self.validate() is Ok <==> self.resource.service_name.len() > 0
                && self.logger.validate() is Ok && self.tracer.validate() is Ok
                && self.meter.validate() is Ok && self.profiler.validate() is Ok,
            self.validate() is Ok && self.logger.enabled ==> self.logger.service_name.len() > 0
                && self.logger.endpoint is Some,
            self.validate() is Ok && self.tracer.enabled ==> self.tracer.service_name.len() > 0
                && self.tracer.endpoint is Some,
            self.validate() is Ok && self.meter.enabled ==> self.meter.service_name.len() > 0
                && self.meter.endpoint is Some,
            self.validate() is Ok && self.profiler.enabled ==> self.profiler.service_name.len()
                > 0 && self.profiler.server_url is Some,
    {
    }

    /// A configuration whose four subsystems are disabled is accepted as soon
    /// as the service has a name.
    pub proof fn lemma_all_disabled_is_valid(self)
        requires
            self.resource.service_name.len() > 0,
            !self.logger.enabled,
            !self.tracer.enabled,
            !self.meter.enabled,
            !self.profiler.enabled,
        ensures
            self.validate() is Ok,
            self.with_defaults().validate() is Ok,
    {
    }

    /// The configuration that a service name alone gives is refused by log
    /// export, the first subsystem asked, for its missing endpoint; and so it
    /// is after the defaults are filled in.
    pub proof fn lemma_new_needs_logger_endpoint(service_name: Seq<char>)
        requires
            service_name.len() > 0,
        ensures
            Self::new(service_name).validate() == Err::<(), ConfigErrorView>(
                ConfigErrorView::Logger(LoggerError::EndpointRequired.message()),
            ),
            Self::new(service_name).with_defaults().validate() == Err::<(), ConfigErrorView>(
                ConfigErrorView::Logger(LoggerError::EndpointRequired.message()),
            ),
    {
    }
}

/// The configuration of a service's instrumentation.
#[derive(Debug)]
pub struct Config {
    pub resource: ResourceConfig,
    pub logger: LoggerConfig,
    pub tracer: TracerConfig,
    pub meter: MeterConfig,
    pub profiler: ProfilerConfig,
}

impl View for Config {
    type V = ConfigView;

    open spec fn view(&self) -> ConfigView {
        ConfigView {
            resource: self.resource@,
            logger: self.logger@,
            tracer: self.tracer@,
            meter: self.meter@,
            profiler: self.profiler@,
        }
    }
}

impl Clone for Config {
    fn clone(&self) -> (c: Config)
        ensures
            c@ == self@,
    {
        Config {
            resource: self.resource.clone(),
            logger: self.logger.clone(),
            tracer: self.tracer.clone(),
            meter: self.meter.clone(),
            profiler: self.profiler.clone(),
        }
    }
}

impl Config {
    /// The configuration of a service by its name: every subsystem enabled,
    /// none with an endpoint yet.
    pub fn new(service_name: &str) -> (c: Config)
        ensures
            c@ == ConfigView::new(service_name@),
    {
        Config {
            resource: ResourceConfig::new(service_name),
            logger: LoggerConfig::new(service_name),
            tracer: TracerConfig::new(service_name),
            meter: MeterConfig::new(service_name),
            profiler: ProfilerConfig::new(service_name),
        }
    }

    /// Sets the description of the service.
    pub fn with_resource(self, resource: ResourceConfig) -> (c: Config)
        ensures
            c@ == (ConfigView { resource: resource@, ..self@ }),
    {
        let mut c = self;
        c.resource = resource;
        c
    }

    /// Sets the configuration of log export.
    pub fn with_logger(self, logger: LoggerConfig) -> (c: Config)
        ensures
            c@ == (ConfigView { logger: logger@, ..self@ }),
    {
        let mut c = self;
        c.logger = logger;
        c
    }

    /// Sets the configuration of trace export.
    pub fn with_tracer(self, tracer: TracerConfig) -> (c: Config)
        ensures
            c@ == (ConfigView { tracer: tracer@, ..self@ }),
    {
        let mut c = self;
        c.tracer = tracer;
        c
    }

    /// Sets the configuration of metric export.
    pub fn with_meter(self, meter: MeterConfig) -> (c: Config)
        ensures
            c@ == (ConfigView { meter: meter@, ..self@ }),
    {
        let mut c = self;
        c.meter = meter;
        c
    }

    /// Sets the configuration of profiling.
    pub fn with_profiler(self, profiler: ProfilerConfig) -> (c: Config)
        ensures
            c@ == (ConfigView { profiler: profiler@, ..self@ }),
    {
        let mut c = self;
        c.profiler = profiler;
        c
    }

    /// Fills in the defaults. An empty version and an empty namespace become
    /// the default ones. A subsystem without service name takes the name of
    /// the service. Then each subsystem fills in its own defaults.
    pub fn apply_defaults(&mut self)
        ensures
            final(self)@ == old(self)@.with_defaults(),
    {
        if self.resource.service_version.as_str().is_empty() {
            self.resource.service_version = String::from_str(DEFAULT_SERVICE_VERSION);
        }
        if self.resource.service_namespace.as_str().is_empty() {
            self.resource.service_namespace = String::from_str(DEFAULT_SERVICE_NAMESPACE);
        }
        if self.logger.service_name.as_str().is_empty() {
            self.logger.service_name = self.resource.service_name.clone();
        }
        if self.tracer.service_name.as_str().is_empty() {
            self.tracer.service_name = self.resource.service_name.clone();
        }
        if self.meter.service_name.as_str().is_empty() {
            self.meter.service_name = self.resource.service_name.clone();
        }
        if self.profiler.service_name.as_str().is_empty() {
            self.profiler.service_name = self.resource.service_name.clone();
        }
        self.logger.apply_defaults();
        self.tracer.apply_defaults();
        self.meter.apply_defaults();
        self.profiler.apply_defaults();
    }

    /// Checks the configuration. The service needs a name; then log export,
    /// trace export, metric export and profiling are asked in this order,
    /// and the first that refuses gives the error, with its message.
    pub fn validate(&self) -> (r: Result<(), ConfigError>)
        ensures
            r is Ok <==> self@.validate() is Ok,
            r matches Err(e) ==> self@.validate() == Err::<(), ConfigErrorView>(e@),
    {
        if self.resource.service_name.as_str().is_empty() {
            return Err(ConfigError::ServiceNameRequired);
        }
        match self.logger.validate() {
            Err(e) => {
                return Err(ConfigError::Logger(e.to_string()));
            },
            Ok(()) => {},
        }
        match self.tracer.validate() {
            Err(e) => {
                return Err(ConfigError::Tracer(e.to_string()));
            },
            Ok(()) => {},
        }
        match self.meter.validate() {
            Err(e) => {
                return Err(ConfigError::Meter(e.to_string()));
            },
            Ok(()) => {},
        }
        match self.profiler.validate() {
            Err(e) => {
                return Err(ConfigError::Profiler(e.to_string()));
            },
            Ok(()) => {},
        }
        Ok(())
    }
}

} // verus!
