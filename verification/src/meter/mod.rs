//! Metric export: its configuration, and what to build from it.

pub mod config;

pub use config::{MeterConfig, MeterConfigView, MeterError, RuntimeConfig};

use crate::duration::Duration;
use crate::endpoint::{lemma_qualified_idempotent, qualified, qualify};
use crate::string_map::StringMap;
use vstd::prelude::*;

verus! {

/// The path of metric export over HTTP.
pub const METRICS_PATH: &'static str = "/v1/metrics";

/// The endpoint of metric export: `endpoint` itself where it ends in the
/// path of metric export, else `endpoint` without the slashes at its end,
/// followed by that path.
pub open spec fn normalized_endpoint(endpoint: Seq<char>) -> Seq<char> {
    qualified(endpoint, METRICS_PATH@)
}

/// Normalising is idempotent: a normalised endpoint is its own normal form.
pub proof fn lemma_normalized_endpoint_idempotent(endpoint: Seq<char>)
    ensures
        normalized_endpoint(normalized_endpoint(endpoint)) == normalized_endpoint(endpoint),
{
    lemma_qualified_idempotent(endpoint, METRICS_PATH@);
}

/// The endpoint of metric export for a base URL or a full endpoint.
pub fn normalize_endpoint(endpoint: &str) -> (normalized: String)
    ensures
        normalized@ == normalized_endpoint(endpoint@),
{
    qualify(endpoint, METRICS_PATH)
}

/// What to build for metric export, as mathematical values.
pub struct MeterSetupView {
    pub endpoint: Seq<char>,
    pub headers: Map<Seq<char>, Seq<char>>,
    pub export_interval: Duration,
    pub register_globally: bool,
}

/// What to build for metric export: an exporter to `endpoint` that sends
/// `headers`, read every `export_interval`. Where `register_globally` is set,
/// the provider becomes the one of the process once it stands.
#[derive(Debug)]
pub struct MeterSetup {
    pub endpoint: String,
    pub headers: StringMap,
    pub export_interval: Duration,
    pub register_globally: bool,
}

impl View for MeterSetup {
    type V = MeterSetupView;

    open spec fn view(&self) -> MeterSetupView {
        MeterSetupView {
            endpoint: self.endpoint@,
            headers: self.headers@,
            export_interval: self.export_interval,
            register_globally: self.register_globally,
        }
    }
}

impl MeterConfigView {
    /// What is to be built, with or without registration as the provider of
    /// the process. Nothing where metric export is disabled. Where it is
    /// enabled, an endpoint is required; the exporter goes to its normal
    /// form, with the headers derived from the credentials.
    pub open spec fn plan(self, register_globally: bool) -> Result<
        Option<MeterSetupView>,
        MeterError,
    > {
        if !self.enabled {
            Ok(None)
        } else {
            match self.endpoint {
                None => Err(MeterError::EndpointRequired),
                Some(endpoint) => Ok(
                    Some(
                        MeterSetupView {
                            endpoint: normalized_endpoint(endpoint),
                            headers: self.credentials.header_map(),
                            export_interval: self.export_interval,
                            register_globally,
                        },
                    ),
                ),
            }
        }
    }

    /// What is to be built, without registration as the provider of the
    /// process.
    pub open spec fn setup(self) -> Result<Option<MeterSetupView>, MeterError> {
        self.plan(false)
    }

    /// What is to be built, with registration as the provider of the process
    /// where the configuration asks for it.
    pub open spec fn init(self) -> Result<Option<MeterSetupView>, MeterError> {
        self.plan(self.use_global)
    }
}

/// Decides what to build for metric export, with `register_globally` as
/// given.
fn plan(config: &MeterConfig, register_globally: bool) -> (r: Result<
    Option<MeterSetup>,
    MeterError,
>)
    requires
        config@.enabled ==> config@.credentials.encodable(),
    ensures
        match r {
            Ok(Some(p)) => config@.plan(register_globally) == Ok::<
                Option<MeterSetupView>,
                MeterError,
            >(Some(p@)),
            Ok(None) => config@.plan(register_globally) == Ok::<
                Option<MeterSetupView>,
                MeterError,
            >(None),
            Err(e) => config@.plan(register_globally) == Err::<Option<MeterSetupView>, MeterError>(
                e,
            ),
        },
{
    if !config.enabled {
        return Ok(None);
    }
    match &config.endpoint {
        None => Err(MeterError::EndpointRequired),
        Some(endpoint) => Ok(
            Some(
                MeterSetup {
                    endpoint: normalize_endpoint(endpoint.as_str()),
                    headers: config.credentials.header_map(),
                    export_interval: config.export_interval,
                    register_globally,
                },
            ),
        ),
    }
}

/// Decides what to build for metric export, without registration as the
/// provider of the process. Nothing is built for a disabled configuration;
/// an enabled one without endpoint is refused.
pub fn setup(config: &MeterConfig) -> (r: Result<Option<MeterSetup>, MeterError>)
    requires
        config@.enabled ==> config@.credentials.encodable(),
    ensures
        match r {
            Ok(Some(p)) => config@.setup() == Ok::<Option<MeterSetupView>, MeterError>(Some(p@)),
            Ok(None) => config@.setup() == Ok::<Option<MeterSetupView>, MeterError>(None),
            Err(e) => config@.setup() == Err::<Option<MeterSetupView>, MeterError>(e),
        },
{
    plan(config, false)
}

/// Decides what to build for metric export, with registration as the
/// provider of the process where the configuration asks for it.
pub fn init(config: &MeterConfig) -> (r: Result<Option<MeterSetup>, MeterError>)
    requires
        config@.enabled ==> config@.credentials.encodable(),
    ensures
        match r {
            Ok(Some(p)) => config@.init() == Ok::<Option<MeterSetupView>, MeterError>(Some(p@)),
            Ok(None) => config@.init() == Ok::<Option<MeterSetupView>, MeterError>(None),
            Err(e) => config@.init() == Err::<Option<MeterSetupView>, MeterError>(e),
        },
{
    plan(config, config.use_global)
}

} // verus!
