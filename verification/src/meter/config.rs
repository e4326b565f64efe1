//! Configuration of metric export.

use crate::auth::{Credentials, CredentialsView};
use crate::text::clone_opt;
use crate::duration::Duration;
use vstd::prelude::*;
use vstd::string::StringExecFns;

verus! {

/// Seconds of the export interval that takes the place of a zero interval.
pub const DEFAULT_EXPORT_INTERVAL_SECS: u64 = 10;

/// Why a configuration of metric export is refused.
#[derive(Clone, Copy, Debug, PartialEq, Eq, Structural)]
pub enum MeterError {
    /// Metric export is enabled and the service name is empty.
    ServiceNameRequired,
    /// Metric export is enabled and no endpoint is set.
    EndpointRequired,
}

impl MeterError {
    /// The message of the error.
    pub open spec fn message(self) -> Seq<char> {
        match self {
            MeterError::ServiceNameRequired => "meter service_name is required"@,
            MeterError::EndpointRequired => "meter endpoint is required when enabled"@,
        }
    }

    /// The message of the error.
    pub fn to_string(&self) -> (s: String)
        ensures
            s@ == self.message(),
    {
        match self {
            MeterError::ServiceNameRequired => String::from_str("meter service_name is required"),
            MeterError::EndpointRequired => String::from_str(
                "meter endpoint is required when enabled",
            ),
        }
    }
}

/// Whether metrics of the process runtime are registered with the meter.
#[derive(Clone, Copy, Debug, PartialEq, Eq, Structural)]
pub struct RuntimeConfig {
    pub enabled: bool,
}

impl Default for RuntimeConfig {
    fn default() -> (r: RuntimeConfig)
        ensures
            !r.enabled,
    {
        RuntimeConfig { enabled: false }
    }
}

impl RuntimeConfig {
    /// Switches the metrics of the process runtime on or off.
    pub fn enabled(self, enabled: bool) -> (r: RuntimeConfig)
        ensures
            r.enabled == enabled,
    {
        RuntimeConfig { enabled }
    }
}

/// The configuration of metric export as mathematical values.
pub struct MeterConfigView {
    pub enabled: bool,
    pub endpoint: Option<Seq<char>>,
    pub service_name: Seq<char>,
    pub export_interval: Duration,
    pub runtime: RuntimeConfig,
    pub credentials: CredentialsView,
    pub use_global: bool,
}

impl MeterConfigView {
    /// The configuration that a service name alone gives: enabled, without
    /// endpoint, with the default export interval, without runtime metrics,
    /// credentials or global registration.
    pub open spec fn new(service_name: Seq<char>) -> MeterConfigView {
        MeterConfigView {
            enabled: true,
            endpoint: None,
            service_name,
            export_interval: Duration::from_secs(DEFAULT_EXPORT_INTERVAL_SECS),
            runtime: RuntimeConfig { enabled: false },
            credentials: CredentialsView::empty(),
            use_global: false,
        }
    }

    /// The configuration with its defaults filled in: a zero export interval
    /// becomes the default interval.
    pub open spec fn with_defaults(self) -> MeterConfigView {
        MeterConfigView {
            export_interval: if self.export_interval.is_zero() {
                Duration::from_secs(DEFAULT_EXPORT_INTERVAL_SECS)
            } else {
                self.export_interval
            },
            ..self
        }
    }

    /// Whether the configuration is accepted. A disabled one always is; an
    /// enabled one needs a service name, then an endpoint.
    pub open spec fn validate(self) -> Result<(), MeterError> {
        if !self.enabled {
            Ok(())
        } else if self.service_name.len() == 0 {
            Err(MeterError::ServiceNameRequired)
        } else if self.endpoint is None {
            Err(MeterError::EndpointRequired)
        } else {
            Ok(())
        }
    }

    /// Whether metrics of the process runtime are to be registered once the
    /// provider stands: they are switched on, and the provider is the one of
    /// the process.
    pub open spec fn wants_runtime_metrics(self) -> bool {
        self.runtime.enabled && self.use_global
    }

    /// Filling in the defaults twice gives what filling them in once gives.
    pub proof fn lemma_defaults_idempotent(self)
        ensures
            self.with_defaults().with_defaults() == self.with_defaults(),
    {
        Duration::lemma_from_secs(DEFAULT_EXPORT_INTERVAL_SECS);
    }

    /// A disabled configuration is accepted whatever its other fields hold.
    pub proof fn lemma_disabled_is_valid(self)
        requires
            !self.enabled,
        ensures
            self.validate() is Ok,
    {
    }

    /// An enabled configuration with a service name and without endpoint is
    /// refused for its missing endpoint.
    pub proof fn lemma_enabled_needs_endpoint(self)
        requires
            self.enabled,
            self.service_name.len() > 0,
            self.endpoint is None,
        ensures
            self.validate() == Err::<(), MeterError>(MeterError::EndpointRequired),
    {
    }

    /// A configuration is accepted exactly if it is disabled, or has a
    /// service name and an endpoint.
    pub proof fn lemma_valid_is_complete(self)
        ensures
            self.validate() is Ok <==> !self.enabled || (self.service_name.len() > 0
                && self.endpoint is Some),
    {
    }
}

/// The configuration of metric export.
#[derive(Debug)]
pub struct MeterConfig {
    pub enabled: bool,
    pub endpoint: Option<String>,
    pub service_name: String,
    pub export_interval: Duration,
    pub runtime: RuntimeConfig,
    pub credentials: Credentials,
    pub use_global: bool,
}

impl View for MeterConfig {
    type V = MeterConfigView;

    open spec fn view(&self) -> MeterConfigView {
        MeterConfigView {
            enabled: self.enabled,
            endpoint: self.endpoint.deep_view(),
            service_name: self.service_name@,
            export_interval: self.export_interval,
            runtime: self.runtime,
            credentials: self.credentials@,
            use_global: self.use_global,
        }
    }
}

impl Clone for MeterConfig {
    fn clone(&self) -> (c: MeterConfig)
        ensures
            c@ == self@,
    {
        MeterConfig {
            enabled: self.enabled,
            endpoint: clone_opt(&self.endpoint),
            service_name: self.service_name.clone(),
            export_interval: self.export_interval,
            runtime: self.runtime,
            credentials: self.credentials.clone(),
            use_global: self.use_global,
        }
    }
}

impl MeterConfig {
    /// The configuration of metric export for a service: enabled, without
    /// endpoint, with the default export interval.
    pub fn new(service_name: &str) -> (c: MeterConfig)
        ensures
            c@ == MeterConfigView::new(service_name@),
    {
        MeterConfig {
            enabled: true,
            endpoint: None,
            service_name: String::from_str(service_name),
            export_interval: Duration::from_secs(DEFAULT_EXPORT_INTERVAL_SECS),
            runtime: RuntimeConfig { enabled: false },
            credentials: Credentials::new(),
            use_global: false,
        }
    }

    /// Enables or disables metric export.
    pub fn enabled(self, enabled: bool) -> (c: MeterConfig)
        ensures
            c@ == (MeterConfigView { enabled, ..self@ }),
    {
        let mut c = self;
        c.enabled = enabled;
        c
    }

    /// Sets the endpoint.
    pub fn with_endpoint(self, endpoint: &str) -> (c: MeterConfig)
        ensures
            c@ == (MeterConfigView { endpoint: Some(endpoint@), ..self@ }),
    {
        let mut c = self;
        c.endpoint = Some(String::from_str(endpoint));
        c
    }

    /// Sets the interval between two exports.
    pub fn with_export_interval(self, interval: Duration) -> (c: MeterConfig)
        ensures
            c@ == (MeterConfigView { export_interval: interval, ..self@ }),
    {
        let mut c = self;
        c.export_interval = interval;
        c
    }

    /// Sets whether metrics of the process runtime are registered.
    pub fn with_runtime(self, runtime: RuntimeConfig) -> (c: MeterConfig)
        ensures
            c@ == (MeterConfigView { runtime, ..self@ }),
    {
        let mut c = self;
        c.runtime = runtime;
        c
    }

    /// Sets the credentials.
    pub fn with_credentials(self, credentials: Credentials) -> (c: MeterConfig)
        ensures
            c@ == (MeterConfigView { credentials: credentials@, ..self@ }),
    {
        let mut c = self;
        c.credentials = credentials;
        c
    }

    /// Sets whether the provider is registered as the one of the process.
    pub fn use_global(self, use_global: bool) -> (c: MeterConfig)
        ensures
            c@ == (MeterConfigView { use_global, ..self@ }),
    {
        let mut c = self;
        c.use_global = use_global;
        c
    }

    /// Fills in the defaults: a zero export interval becomes the default
    /// interval.
    pub fn apply_defaults(&mut self)
        ensures
            final(self)@ == old(self)@.with_defaults(),
    {
        if self.export_interval.is_zero() {
            self.export_interval = Duration::from_secs(DEFAULT_EXPORT_INTERVAL_SECS);
        }
    }

    /// Checks the configuration. A disabled one is accepted whatever else it
    /// holds; an enabled one needs a service name, then an endpoint.
    pub fn validate(&self) -> (r: Result<(), MeterError>)
        ensures
            r == self@.validate(),
    {
        if !self.enabled {
            return Ok(());
        }
        if self.service_name.as_str().is_empty() {
            return Err(MeterError::ServiceNameRequired);
        }
        if self.endpoint.is_none() {
            return Err(MeterError::EndpointRequired);
        }
        Ok(())
    }
}

} // verus!
