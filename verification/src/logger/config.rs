//! Configuration of log export.

use crate::auth::{Credentials, CredentialsView};
use crate::duration::Duration;
use vstd::prelude::*;
use vstd::string::StringExecFns;

verus! {

/// Seconds of the timeout that takes the place of a zero timeout.
pub const DEFAULT_TIMEOUT_SECS: u64 = 5;

/// The environment that takes the place of an empty one.
pub const DEFAULT_ENVIRONMENT: &'static str = "development";

/// Why a configuration of log export is refused.
#[derive(Clone, Copy, Debug, PartialEq, Eq, Structural)]
pub enum LoggerError {
    /// Log export is enabled and the service name is empty.
    ServiceNameRequired,
    /// Log export is enabled and no endpoint is set.
    EndpointRequired,
}

impl LoggerError {
    /// The message of the error.
    pub open spec fn message(self) -> Seq<char> {
        match self {
            LoggerError::ServiceNameRequired => "logger service_name is required"@,
            LoggerError::EndpointRequired => "logger endpoint is required when enabled"@,
        }
    }

    /// The message of the error.
    pub fn to_string(&self) -> (s: String)
        ensures
            s@ == self.message(),
    {
        match self {
            LoggerError::ServiceNameRequired => String::from_str("logger service_name is required"),
            LoggerError::EndpointRequired => String::from_str(
                "logger endpoint is required when enabled",
            ),
        }
    }
}

/// The configuration of log export as mathematical values.
pub struct LoggerConfigView {
    pub enabled: bool,
    pub endpoint: Option<Seq<char>>,
    pub service_name: Seq<char>,
    pub environment: Seq<char>,
    pub timeout: Duration,
    pub credentials: CredentialsView,
}

impl LoggerConfigView {
    /// The configuration that a service name alone gives: enabled, without
    /// endpoint, with the default environment and timeout and no credentials.
    pub open spec fn new(service_name: Seq<char>) -> LoggerConfigView {
        LoggerConfigView {
            enabled: true,
            endpoint: None,
            service_name,
            environment: DEFAULT_ENVIRONMENT@,
            timeout: Duration::from_secs(DEFAULT_TIMEOUT_SECS),
            credentials: CredentialsView::empty(),
        }
    }

    /// The configuration with its defaults filled in: a zero timeout becomes
    /// the default timeout, an empty environment the default environment.
    pub open spec fn with_defaults(self) -> LoggerConfigView {
        LoggerConfigView {
            timeout: if self.timeout.is_zero() {
                Duration::from_secs(DEFAULT_TIMEOUT_SECS)
            } else {
                self.timeout
            },
            environment: if self.environment.len() == 0 {
                DEFAULT_ENVIRONMENT@
            } else {
                self.environment
            },
            ..self
        }
    }

    /// Whether the configuration is accepted. A disabled one always is; an
    /// enabled one needs a service name, then an endpoint.
    pub open spec fn validate(self) -> Result<(), LoggerError> {
        if !self.enabled {
            Ok(())
        } else if self.service_name.len() == 0 {
            Err(LoggerError::ServiceNameRequired)
        } else if self.endpoint is None {
            Err(LoggerError::EndpointRequired)
        } else {
            Ok(())
        }
    }

    /// Filling in the defaults twice gives what filling them in once gives.
    pub proof fn lemma_defaults_idempotent(self)
        ensures
            self.with_defaults().with_defaults() == self.with_defaults(),
    {
        Duration::lemma_from_secs(DEFAULT_TIMEOUT_SECS);
        reveal_strlit("development");
    }

    /// A disabled configuration is accepted whatever its other fields hold.
    pub proof fn lemma_disabled_is_valid(self)
        requires
            !self.enabled,
        ensures
            self.validate() is Ok,
    {
    }

    /// An enabled configuration with a service name and without endpoint is
    /// refused for its missing endpoint.
    pub proof fn lemma_enabled_needs_endpoint(self)
        requires
            self.enabled,
            self.service_name.len() > 0,
            self.endpoint is None,
        ensures
            self.validate() == Err::<(), LoggerError>(LoggerError::EndpointRequired),
    {
    }

    /// A configuration is accepted exactly if it is disabled, or has a
    /// service name and an endpoint.
    pub proof fn lemma_valid_is_complete(self)
        ensures
            self.validate() is Ok <==> !self.enabled || (self.service_name.len() > 0
                && self.endpoint is Some),
    {
    }
}

/// The configuration of log export.
#[derive(Debug)]
pub struct LoggerConfig {
    pub enabled: bool,
    pub endpoint: Option<String>,
    pub service_name: String,
    pub environment: String,
    pub timeout: Duration,
    pub credentials: Credentials,
}

impl View for LoggerConfig {
    type V = LoggerConfigView;

    open spec fn view(&self) -> LoggerConfigView {
        LoggerConfigView {
            enabled: self.enabled,
            endpoint: self.endpoint.deep_view(),
            service_name: self.service_name@,
            environment: self.environment@,
            timeout: self.timeout,
            credentials: self.credentials@,
        }
    }
}

impl Clone for LoggerConfig {
    fn clone(&self) -> (c: LoggerConfig)
        ensures
            c@ == self@,
    {
        LoggerConfig {
            enabled: self.enabled,
            endpoint: crate::text::clone_opt(&self.endpoint),
            service_name: self.service_name.clone(),
            environment: self.environment.clone(),
            timeout: self.timeout,
            credentials: self.credentials.clone(),
        }
    }
}

impl LoggerConfig {
    /// The configuration of log export for a service: enabled, without
    /// endpoint, with the default environment and timeout.
    pub fn new(service_name: &str) -> (c: LoggerConfig)
        ensures
            c@ == LoggerConfigView::new(service_name@),
    {
        LoggerConfig {
            enabled: true,
            endpoint: None,
            service_name: String::from_str(service_name),
            environment: String::from_str(DEFAULT_ENVIRONMENT),
            timeout: Duration::from_secs(DEFAULT_TIMEOUT_SECS),
            credentials: Credentials::new(),
        }
    }

    /// Enables or disables log export.
    pub fn enabled(self, enabled: bool) -> (c: LoggerConfig)
        ensures
            c@ == (LoggerConfigView { enabled, ..self@ }),
    {
        let mut c = self;
        c.enabled = enabled;
        c
    }

    /// Sets the endpoint.
    pub fn with_endpoint(self, endpoint: &str) -> (c: LoggerConfig)
        ensures
            c@ == (LoggerConfigView { endpoint: Some(endpoint@), ..self@ }),
    {
        let mut c = self;
        c.endpoint = Some(String::from_str(endpoint));
        c
    }

    /// Sets the environment.
    pub fn with_environment(self, environment: &str) -> (c: LoggerConfig)
        ensures
            c@ == (LoggerConfigView { environment: environment@, ..self@ }),
    {
        let mut c = self;
        c.environment = String::from_str(environment);
        c
    }

    /// Sets the timeout.
    pub fn with_timeout(self, timeout: Duration) -> (c: LoggerConfig)
        ensures
            c@ == (LoggerConfigView { timeout, ..self@ }),
    {
        let mut c = self;
        c.timeout = timeout;
        c
    }

    /// Sets the credentials.
    pub fn with_credentials(self, credentials: Credentials) -> (c: LoggerConfig)
        ensures
            c@ == (LoggerConfigView { credentials: credentials@, ..self@ }),
    {
        let mut c = self;
        c.credentials = credentials;
        c
    }

    /// Fills in the defaults: a zero timeout becomes the default timeout, an
    /// empty environment the default environment.
    pub fn apply_defaults(&mut self)
        ensures
            final(self)@ == old(self)@.with_defaults(),
    {
        if self.timeout.is_zero() {
            self.timeout = Duration::from_secs(DEFAULT_TIMEOUT_SECS);
        }
        if self.environment.as_str().is_empty() {
            self.environment = String::from_str(DEFAULT_ENVIRONMENT);
        }
    }

    /// Checks the configuration. A disabled one is accepted whatever else it
    /// holds; an enabled one needs a service name, then an endpoint.
    pub fn validate(&self) -> (r: Result<(), LoggerError>)
        ensures
            r == self@.validate(),
    {
        if !self.enabled {
            return Ok(());
        }
        if self.service_name.as_str().is_empty() {
            return Err(LoggerError::ServiceNameRequired);
        }
        if self.endpoint.is_none() {
            return Err(LoggerError::EndpointRequired);
        }
        Ok(())
    }
}

} // verus!
