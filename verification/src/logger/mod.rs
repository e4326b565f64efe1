//! Log export: its configuration, and what to build from it.

pub mod config;

pub use config::{LoggerConfig, LoggerConfigView, LoggerError};

use crate::duration::Duration;
use crate::endpoint::{lemma_qualified_idempotent, qualified, qualify};
use crate::string_map::StringMap;
use vstd::prelude::*;

verus! {

/// The path of log export over HTTP.
pub const LOGS_PATH: &'static str = "/v1/logs";

/// The endpoint of log export: `endpoint` itself where it ends in the path
/// of log export, else `endpoint` without the slashes at its end, followed
/// by that path.
pub open spec fn normalized_endpoint(endpoint: Seq<char>) -> Seq<char> {
    qualified(endpoint, LOGS_PATH@)
}

/// Normalising is idempotent: a normalised endpoint is its own normal form.
pub proof fn lemma_normalized_endpoint_idempotent(endpoint: Seq<char>)
    ensures
        normalized_endpoint(normalized_endpoint(endpoint)) == normalized_endpoint(endpoint),
{
    lemma_qualified_idempotent(endpoint, LOGS_PATH@);
}

/// The endpoint of log export for a base URL or a full endpoint.
pub fn normalize_endpoint(endpoint: &str) -> (normalized: String)
    ensures
        normalized@ == normalized_endpoint(endpoint@),
{
    qualify(endpoint, LOGS_PATH)
}

/// What to build for log export, as mathematical values.
pub struct LoggerSetupView {
    pub endpoint: Seq<char>,
    pub headers: Map<Seq<char>, Seq<char>>,
    pub timeout: Duration,
}

/// What to build for log export: an exporter to `endpoint` that sends
/// `headers` with each request, behind a batching processor.
#[derive(Debug)]
pub struct LoggerSetup {
    pub endpoint: String,
    pub headers: StringMap,
    pub timeout: Duration,
}

impl View for LoggerSetup {
    type V = LoggerSetupView;

    open spec fn view(&self) -> LoggerSetupView {
        LoggerSetupView { endpoint: self.endpoint@, headers: self.headers@, timeout: self.timeout }
    }
}

impl LoggerConfigView {
    /// What is to be built. Nothing where log export is disabled. Where it is
    /// enabled, an endpoint is required; the exporter goes to its normal
    /// form, with the headers derived from the credentials.
    pub open spec fn setup(self) -> Result<Option<LoggerSetupView>, LoggerError> {
        if !self.enabled {
            Ok(None)
        } else {
            match self.endpoint {
                None => Err(LoggerError::EndpointRequired),
                Some(endpoint) => Ok(
                    Some(
                        LoggerSetupView {
                            endpoint: normalized_endpoint(endpoint),
                            headers: self.credentials.header_map(),
                            timeout: self.timeout,
                        },
                    ),
                ),
            }
        }
    }
}

/// Decides what to build for log export. Nothing is built for a disabled
/// configuration; an enabled one without endpoint is refused.
pub fn setup(config: &LoggerConfig) -> (r: Result<Option<LoggerSetup>, LoggerError>)
    requires
        config@.enabled ==> config@.credentials.encodable(),
    ensures
        match r {
            Ok(Some(plan)) => config@.setup() == Ok::<Option<LoggerSetupView>, LoggerError>(
                Some(plan@),
            ),
            Ok(None) => config@.setup() == Ok::<Option<LoggerSetupView>, LoggerError>(None),
            Err(e) => config@.setup() == Err::<Option<LoggerSetupView>, LoggerError>(e),
        },
{
    if !config.enabled {
        return Ok(None);
    }
    match &config.endpoint {
        None => Err(LoggerError::EndpointRequired),
        Some(endpoint) => Ok(
            Some(
                LoggerSetup {
                    endpoint: normalize_endpoint(endpoint.as_str()),
                    headers: config.credentials.header_map(),
                    timeout: config.timeout,
                },
            ),
        ),
    }
}

} // verus!
