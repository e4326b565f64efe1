//! Configuration of trace export.

use crate::auth::{Credentials, CredentialsView};
use crate::text::clone_opt;
use crate::duration::Duration;
use vstd::prelude::*;
use vstd::string::StringExecFns;

verus! {

/// Seconds of the export timeout that takes the place of a zero timeout.
pub const DEFAULT_EXPORT_TIMEOUT_SECS: u64 = 10;

/// The bit pattern of the ratio one.
pub const ONE_BITS: u64 = 0x3FF0_0000_0000_0000;

/// The bit pattern of positive infinity: every pattern whose magnitude is
/// above it is not a number.
pub const INFINITY_BITS: u64 = 0x7FF0_0000_0000_0000;

/// The lowest bit pattern with the sign set.
pub const SIGN_BIT: u64 = 0x8000_0000_0000_0000;

/// The share of traces to sample, held as the bit pattern of an IEEE 754
/// double: every double is a ratio, and the pattern keeps it exactly.
#[derive(Clone, Copy, Debug, PartialEq, Eq, Structural)]
pub struct SampleRatio {
    pub bits: u64,
}

impl SampleRatio {
    /// The pattern without its sign.
    pub open spec fn magnitude(self) -> int {
        self.bits as int % SIGN_BIT as int
    }

    /// The sign is set.
    pub open spec fn is_negative(self) -> bool {
        self.bits >= SIGN_BIT
    }

    /// The pattern stands for no number.
    pub open spec fn is_nan(self) -> bool {
        self.magnitude() > INFINITY_BITS
    }

    /// The ratio is zero or below: a number that is negative or has no
    /// magnitude.
    pub open spec fn is_at_most_zero(self) -> bool {
        !self.is_nan() && (self.is_negative() || self.magnitude() == 0)
    }

    /// The ratio is one or above: a positive number whose pattern is not below
    /// that of one.
    pub open spec fn is_at_least_one(self) -> bool {
        !self.is_nan() && !self.is_negative() && self.magnitude() >= ONE_BITS
    }

    /// The ratio one: every trace.
    pub open spec fn one() -> SampleRatio {
        SampleRatio { bits: ONE_BITS }
    }

    /// The ratio with the given bit pattern.
    pub fn from_bits(bits: u64) -> (r: SampleRatio)
        ensures
            r.bits == bits,
    {
        SampleRatio { bits }
    }

    /// The bit pattern of the ratio.
    pub fn to_bits(&self) -> (bits: u64)
        ensures
            bits == self.bits,
    {
        self.bits
    }

    /// Whether the ratio is zero or below.
    pub fn at_most_zero(&self) -> (b: bool)
        ensures
            b == self.is_at_most_zero(),
    {
        let magnitude: u64 = self.bits % SIGN_BIT;
        magnitude <= INFINITY_BITS && (self.bits >= SIGN_BIT || magnitude == 0)
    }

    /// Whether the ratio is one or above.
    pub fn at_least_one(&self) -> (b: bool)
        ensures
            b == self.is_at_least_one(),
    {
        let magnitude: u64 = self.bits % SIGN_BIT;
        magnitude <= INFINITY_BITS && self.bits < SIGN_BIT && magnitude >= ONE_BITS
    }
}

/// Why a configuration of trace export is refused.
#[derive(Clone, Copy, Debug, PartialEq, Eq, Structural)]
pub enum TracerError {
    /// Trace export is enabled and the service name is empty.
    ServiceNameRequired,
    /// Trace export is enabled and no endpoint is set.
    EndpointRequired,
}

impl TracerError {
    /// The message of the error.
    pub open spec fn message(self) -> Seq<char> {
        match self {
            TracerError::ServiceNameRequired => "tracer service_name is required"@,
            TracerError::EndpointRequired => "tracer endpoint is required when enabled"@,
        }
    }

    /// The message of the error.
    pub fn to_string(&self) -> (s: String)
        ensures
            s@ == self.message(),
    {
        match self {
            TracerError::ServiceNameRequired => String::from_str("tracer service_name is required"),
            TracerError::EndpointRequired => String::from_str(
                "tracer endpoint is required when enabled",
            ),
        }
    }
}

/// The configuration of trace export as mathematical values.
pub struct TracerConfigView {
    pub enabled: bool,
    pub endpoint: Option<Seq<char>>,
    pub service_name: Seq<char>,
    pub sample_ratio: SampleRatio,
    pub export_timeout: Duration,
    pub credentials: CredentialsView,
    pub use_global: bool,
}

impl TracerConfigView {
    /// The configuration that a service name alone gives: enabled, without
    /// endpoint, sampling every trace, with the default export timeout, no
    /// credentials and no global registration.
    pub open spec fn new(service_name: Seq<char>) -> TracerConfigView {
        TracerConfigView {
            enabled: true,
            endpoint: None,
            service_name,
            sample_ratio: SampleRatio::one(),
            export_timeout: Duration::from_secs(DEFAULT_EXPORT_TIMEOUT_SECS),
            credentials: CredentialsView::empty(),
            use_global: false,
        }
    }

    /// The configuration with its defaults filled in: a sample ratio of zero
    /// or below becomes one, a zero export timeout the default timeout.
    pub open spec fn with_defaults(self) -> TracerConfigView {
        TracerConfigView {
            sample_ratio: if self.sample_ratio.is_at_most_zero() {
                SampleRatio::one()
            } else {
                self.sample_ratio
            },
            export_timeout: if self.export_timeout.is_zero() {
                Duration::from_secs(DEFAULT_EXPORT_TIMEOUT_SECS)
            } else {
                self.export_timeout
            },
            ..self
        }
    }

    /// Whether the configuration is accepted. A disabled one always is; an
    /// enabled one needs a service name, then an endpoint.
    pub open spec fn validate(self) -> Result<(), TracerError> {
        if !self.enabled {
            Ok(())
        } else if self.service_name.len() == 0 {
            Err(TracerError::ServiceNameRequired)
        } else if self.endpoint is None {
            Err(TracerError::EndpointRequired)
        } else {
            Ok(())
        }
    }

    /// Filling in the defaults twice gives what filling them in once gives.
    pub proof fn lemma_defaults_idempotent(self)
        ensures
            self.with_defaults().with_defaults() == self.with_defaults(),
    {
        Duration::lemma_from_secs(DEFAULT_EXPORT_TIMEOUT_SECS);
    }

    /// A disabled configuration is accepted whatever its other fields hold.
    pub proof fn lemma_disabled_is_valid(self)
        requires
            !self.enabled,
        ensures
            self.validate() is Ok,
    {
    }

    /// An enabled configuration with a service name and without endpoint is
    /// refused for its missing endpoint.
    pub proof fn lemma_enabled_needs_endpoint(self)
        requires
            self.enabled,
            self.service_name.len() > 0,
            self.endpoint is None,
        ensures
            self.validate() == Err::<(), TracerError>(TracerError::EndpointRequired),
    {
    }

    /// A configuration is accepted exactly if it is disabled, or has a
    /// service name and an endpoint.
    pub proof fn lemma_valid_is_complete(self)
        ensures
            self.validate() is Ok <==> !self.enabled || (self.service_name.len() > 0
                && self.endpoint is Some),
    {
    }
}

/// The configuration of trace export.
#[derive(Debug)]
pub struct TracerConfig {
    pub enabled: bool,
    pub endpoint: Option<String>,
    pub service_name: String,
    pub sample_ratio: SampleRatio,
    pub export_timeout: Duration,
    pub credentials: Credentials,
    pub use_global: bool,
}

impl View for TracerConfig {
    type V = TracerConfigView;

    open spec fn view(&self) -> TracerConfigView {
        TracerConfigView {
            enabled: self.enabled,
            endpoint: self.endpoint.deep_view(),
            service_name: self.service_name@,
            sample_ratio: self.sample_ratio,
            export_timeout: self.export_timeout,
            credentials: self.credentials@,
            use_global: self.use_global,
        }
    }
}

impl Clone for TracerConfig {
    fn clone(&self) -> (c: TracerConfig)
        ensures
            c@ == self@,
    {
        TracerConfig {
            enabled: self.enabled,
            endpoint: clone_opt(&self.endpoint),
            service_name: self.service_name.clone(),
            sample_ratio: self.sample_ratio,
            export_timeout: self.export_timeout,
            credentials: self.credentials.clone(),
            use_global: self.use_global,
        }
    }
}

impl TracerConfig {
    /// The configuration of trace export for a service: enabled, without
    /// endpoint, sampling every trace.
    pub fn new(service_name: &str) -> (c: TracerConfig)
        ensures
            c@ == TracerConfigView::new(service_name@),
    {
        TracerConfig {
            enabled: true,
            endpoint: None,
            service_name: String::from_str(service_name),
            sample_ratio: SampleRatio { bits: ONE_BITS },
            export_timeout: Duration::from_secs(DEFAULT_EXPORT_TIMEOUT_SECS),
            credentials: Credentials::new(),
            use_global: false,
        }
    }

    /// Enables or disables trace export.
    pub fn enabled(self, enabled: bool) -> (c: TracerConfig)
        ensures
            c@ == (TracerConfigView { enabled, ..self@ }),
    {
        let mut c = self;
        c.enabled = enabled;
        c
    }

    /// Sets the endpoint.
    pub fn with_endpoint(self, endpoint: &str) -> (c: TracerConfig)
        ensures
            c@ == (TracerConfigView { endpoint: Some(endpoint@), ..self@ }),
    {
        let mut c = self;
        c.endpoint = Some(String::from_str(endpoint));
        c
    }

    /// Sets the share of traces to sample.
    pub fn with_sample_ratio(self, ratio: SampleRatio) -> (c: TracerConfig)
        ensures
            c@ == (TracerConfigView { sample_ratio: ratio, ..self@ }),
    {
        let mut c = self;
        c.sample_ratio = ratio;
        c
    }

    /// Sets the export timeout.
    pub fn with_export_timeout(self, timeout: Duration) -> (c: TracerConfig)
        ensures
            c@ == (TracerConfigView { export_timeout: timeout, ..self@ }),
    {
        let mut c = self;
        c.export_timeout = timeout;
        c
    }

    /// Sets the credentials.
    pub fn with_credentials(self, credentials: Credentials) -> (c: TracerConfig)
        ensures
            c@ == (TracerConfigView { credentials: credentials@, ..self@ }),
    {
        let mut c = self;
        c.credentials = credentials;
        c
    }

    /// Sets whether the provider is registered as the one of the process.
    pub fn use_global(self, use_global: bool) -> (c: TracerConfig)
        ensures
            c@ == (TracerConfigView { use_global, ..self@ }),
    {
        let mut c = self;
        c.use_global = use_global;
        c
    }

    /// Fills in the defaults: a sample ratio of zero or below becomes one, a
    /// zero export timeout the default timeout.
    pub fn apply_defaults(&mut self)
        ensures
            final(self)@ == old(self)@.with_defaults(),
    {
        if self.sample_ratio.at_most_zero() {
            self.sample_ratio = SampleRatio { bits: ONE_BITS };
        }
        if self.export_timeout.is_zero() {
            self.export_timeout = Duration::from_secs(DEFAULT_EXPORT_TIMEOUT_SECS);
        }
    }

    /// Checks the configuration. A disabled one is accepted whatever else it
    /// holds; an enabled one needs a service name, then an endpoint.
    pub fn validate(&self) -> (r: Result<(), TracerError>)
        ensures
            r == self@.validate(),
    {
        if !self.enabled {
            return Ok(());
        }
        if self.service_name.as_str().is_empty() {
            return Err(TracerError::ServiceNameRequired);
        }
        if self.endpoint.is_none() {
            return Err(TracerError::EndpointRequired);
        }
        Ok(())
    }
}

} // verus!
