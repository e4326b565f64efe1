//! Trace export: its configuration, the sampling policy, and what to build.

pub mod config;

pub use config::{SampleRatio, TracerConfig, TracerConfigView, TracerError};

use crate::duration::Duration;
use crate::string_map::StringMap;
use vstd::prelude::*;

verus! {

/// Which traces are sampled.
#[derive(Clone, Copy, Debug, PartialEq, Eq, Structural)]
pub enum Sampler {
    /// Every trace.
    AlwaysOn,
    /// No trace.
    AlwaysOff,
    /// The given share of the traces, chosen by their identifiers.
    TraceIdRatioBased(SampleRatio),
}

/// The sampling policy of a ratio: no trace for zero or below, every trace
/// for one or above, else that share of the traces.
pub open spec fn sampler_of(ratio: SampleRatio) -> Sampler {
    if ratio.is_at_most_zero() {
        Sampler::AlwaysOff
    } else if ratio.is_at_least_one() {
        Sampler::AlwaysOn
    } else {
        Sampler::TraceIdRatioBased(ratio)
    }
}

/// The sampling policy of a ratio.
pub fn sampler_from_ratio(ratio: SampleRatio) -> (sampler: Sampler)
    ensures
        sampler == sampler_of(ratio),
{
    if ratio.at_most_zero() {
        Sampler::AlwaysOff
    } else if ratio.at_least_one() {
        Sampler::AlwaysOn
    } else {
        Sampler::TraceIdRatioBased(ratio)
    }
}

/// What to build for trace export, as mathematical values.
pub struct TracerSetupView {
    pub endpoint: Seq<char>,
    pub headers: Map<Seq<char>, Seq<char>>,
    pub sampler: Sampler,
    pub export_timeout: Duration,
    pub register_globally: bool,
}

/// What to build for trace export: an exporter to `endpoint` that sends
/// `headers`, and a provider that samples by `sampler`. Where
/// `register_globally` is set, the provider becomes the one of the process once
/// it stands.
#[derive(Debug)]
pub struct TracerSetup {
    pub endpoint: String,
    pub headers: StringMap,
    pub sampler: Sampler,
    pub export_timeout: Duration,
    pub register_globally: bool,
}

impl View for TracerSetup {
    type V = TracerSetupView;

    open spec fn view(&self) -> TracerSetupView {
        TracerSetupView {
            endpoint: self.endpoint@,
            headers: self.headers@,
            sampler: self.sampler,
            export_timeout: self.export_timeout,
            register_globally: self.register_globally,
        }
    }
}

impl TracerConfigView {
    /// What is to be built, with or without registration as the provider of
    /// the process. Nothing where trace export is disabled. Where it is
    /// enabled, an endpoint is required; the exporter goes to it as it is
    /// written, with the headers derived from the credentials.
    pub open spec fn plan(self, register_globally: bool) -> Result<
        Option<TracerSetupView>,
        TracerError,
    > {
        if !self.enabled {
            Ok(None)
        } else {
            match self.endpoint {
                None => Err(TracerError::EndpointRequired),
                Some(endpoint) => Ok(
                    Some(
                        TracerSetupView {
                            endpoint,
                            headers: self.credentials.header_map(),
                            sampler: sampler_of(self.sample_ratio),
                            export_timeout: self.export_timeout,
                            register_globally,
                        },
                    ),
                ),
            }
        }
    }

    /// What is to be built, without registration as the provider of the
    /// process.
    pub open spec fn setup(self) -> Result<Option<TracerSetupView>, TracerError> {
        self.plan(false)
    }

    /// What is to be built, with registration as the provider of the process
    /// where the configuration asks for it.
    pub open spec fn init(self) -> Result<Option<TracerSetupView>, TracerError> {
        self.plan(self.use_global)
    }
}

/// Decides what to build for trace export, with `register_globally` as given.
fn plan(config: &TracerConfig, register_globally: bool) -> (r: Result<
    Option<TracerSetup>,
    TracerError,
>)
    requires
        config@.enabled ==> config@.credentials.encodable(),
    ensures
        match r {
            Ok(Some(p)) => config@.plan(register_globally) == Ok::<
                Option<TracerSetupView>,
                TracerError,
            >(Some(p@)),
            Ok(None) => config@.plan(register_globally) == Ok::<
                Option<TracerSetupView>,
                TracerError,
            >(None),
            Err(e) => config@.plan(register_globally) == Err::<
                Option<TracerSetupView>,
                TracerError,
            >(e),
        },
{
    if !config.enabled {
        return Ok(None);
    }
    match &config.endpoint {
        None => Err(TracerError::EndpointRequired),
        Some(endpoint) => Ok(
            Some(
                TracerSetup {
                    endpoint: endpoint.clone(),
                    headers: config.credentials.header_map(),
                    sampler: sampler_from_ratio(config.sample_ratio),
                    export_timeout: config.export_timeout,
                    register_globally,
                },
            ),
        ),
    }
}

/// Decides what to build for trace export, without registration as the
/// provider of the process. Nothing is built for a disabled configuration; an
/// enabled one without endpoint is refused.
pub fn setup(config: &TracerConfig) -> (r: Result<Option<TracerSetup>, TracerError>)
    requires
        config@.enabled ==> config@.credentials.encodable(),
    ensures
        match r {
            Ok(Some(p)) => config@.setup() == Ok::<Option<TracerSetupView>, TracerError>(Some(p@)),
            Ok(None) => config@.setup() == Ok::<Option<TracerSetupView>, TracerError>(None),
            Err(e) => config@.setup() == Err::<Option<TracerSetupView>, TracerError>(e),
        },
{
    plan(config, false)
}

/// Decides what to build for trace export, with registration as the provider
/// of the process where the configuration asks for it.
pub fn init(config: &TracerConfig) -> (r: Result<Option<TracerSetup>, TracerError>)
    requires
        config@.enabled ==> config@.credentials.encodable(),
    ensures
        match r {
            Ok(Some(p)) => config@.init() == Ok::<Option<TracerSetupView>, TracerError>(Some(p@)),
            Ok(None) => config@.init() == Ok::<Option<TracerSetupView>, TracerError>(None),
            Err(e) => config@.init() == Err::<Option<TracerSetupView>, TracerError>(e),
        },
{
    plan(config, config.use_global)
}

} // verus!
