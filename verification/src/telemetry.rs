//! The lifecycle of a service's instrumentation: in which order the
//! subsystems are brought up, what is undone when one of them fails, and how
//! they are shut down.
//!
//! Building an exporter, registering a provider and stopping an agent are
//! the caller's work. [`Telemetry`] decides: it says which action is due,
//! takes the outcome of that action, and says what is due next.

use crate::text::clone_opt;
use crate::config::{Config, ConfigError, ConfigErrorView, ConfigView};
use crate::logger::{LoggerSetup, LoggerSetupView};
use crate::meter::{MeterSetup, MeterSetupView};
use crate::profiler::{ProfilerSetup, ProfilerSetupView};
use crate::text::{concat, concat3};
use crate::tracer::{TracerSetup, TracerSetupView};
use vstd::pervasive::unreached;
use vstd::prelude::*;
use vstd::string::StringExecFns;

verus! {

/// What follows the service name in the log filter that is used where the
/// environment names none.
pub const DEFAULT_LOG_FILTER_SUFFIX: &'static str =
    "otel::tracing=trace,axum_tracing_opentelemetry=trace";

/// The log filter of a service where the environment names none: `info` in
/// general, `debug` for the service itself, `trace` for the tracing bridge.
pub open spec fn fallback_filter(service_name: Seq<char>) -> Seq<char> {
    "info,"@ + service_name + "=debug,"@ + DEFAULT_LOG_FILTER_SUFFIX@
}

/// The log filter of a service where the environment names none.
pub fn fallback_log_filter(service_name: &str) -> (filter: String)
    ensures
        filter@ == fallback_filter(service_name@),
{
    concat3("info,", service_name, "=debug,").concat(DEFAULT_LOG_FILTER_SUFFIX)
}

/// One of the four subsystems, in the order in which they are brought up.
#[derive(Clone, Copy, Debug, PartialEq, Eq, Structural)]
pub enum Subsystem {
    Logger,
    Tracer,
    Meter,
    Profiler,
}

impl Subsystem {
    /// The name of the subsystem.
    pub open spec fn name(self) -> Seq<char> {
        match self {
            Subsystem::Logger => "logger"@,
            Subsystem::Tracer => "tracer"@,
            Subsystem::Meter => "meter"@,
            Subsystem::Profiler => "profiler"@,
        }
    }

    /// The name of what the subsystem hands out once it stands.
    pub open spec fn handle_name(self) -> Seq<char> {
        match self {
            Subsystem::Logger => "logger provider"@,
            Subsystem::Tracer => "tracer provider"@,
            Subsystem::Meter => "meter provider"@,
            Subsystem::Profiler => "pyroscope agent"@,
        }
    }

    /// The name of the subsystem.
    pub fn as_str(&self) -> (s: &'static str)
        ensures
            s@ == self.name(),
    {
        match self {
            Subsystem::Logger => "logger",
            Subsystem::Tracer => "tracer",
            Subsystem::Meter => "meter",
            Subsystem::Profiler => "profiler",
        }
    }

    /// The name of what the subsystem hands out once it stands.
    pub fn handle_str(&self) -> (s: &'static str)
        ensures
            s@ == self.handle_name(),
    {
        match self {
            Subsystem::Logger => "logger provider",
            Subsystem::Tracer => "tracer provider",
            Subsystem::Meter => "meter provider",
            Subsystem::Profiler => "pyroscope agent",
        }
    }
}

/// Which subsystems stand: for each, whether its handle is held.
#[derive(Clone, Copy, Debug, PartialEq, Eq, Structural)]
pub struct Handles {
    pub logger: bool,
    pub tracer: bool,
    pub meter: bool,
    pub profiler: bool,
}

impl Handles {
    /// No handle is held.
    pub open spec fn none() -> Handles {
        Handles { logger: false, tracer: false, meter: false, profiler: false }
    }

    /// Whether the handle of `subsystem` is held.
    pub open spec fn has(self, subsystem: Subsystem) -> bool {
        match subsystem {
            Subsystem::Logger => self.logger,
            Subsystem::Tracer => self.tracer,
            Subsystem::Meter => self.meter,
            Subsystem::Profiler => self.profiler,
        }
    }

    /// The same handles, but for that of `subsystem`, which is held or not as
    /// `held` says.
    pub open spec fn with(self, subsystem: Subsystem, held: bool) -> Handles {
        match subsystem {
            Subsystem::Logger => Handles { logger: held, ..self },
            Subsystem::Tracer => Handles { tracer: held, ..self },
            Subsystem::Meter => Handles { meter: held, ..self },
            Subsystem::Profiler => Handles { profiler: held, ..self },
        }
    }

    /// The first subsystem whose handle is held, in the order in which they
    /// are brought up.
    pub open spec fn first(self) -> Option<Subsystem> {
        if self.logger {
            Some(Subsystem::Logger)
        } else if self.tracer {
            Some(Subsystem::Tracer)
        } else if self.meter {
            Some(Subsystem::Meter)
        } else if self.profiler {
            Some(Subsystem::Profiler)
        } else {
            None
        }
    }

    /// The subsystems whose handle is held, in the order in which they are
    /// brought up.
    pub open spec fn held(self) -> Seq<Subsystem> {
        let l = if self.logger {
            seq![Subsystem::Logger]
        } else {
            Seq::<Subsystem>::empty()
        };
        let t = if self.tracer {
            l.push(Subsystem::Tracer)
        } else {
            l
        };
        let m = if self.meter {
            t.push(Subsystem::Meter)
        } else {
            t
        };
        if self.profiler {
            m.push(Subsystem::Profiler)
        } else {
            m
        }
    }

    /// The first subsystem whose handle is held.
    fn first_held(&self) -> (s: Option<Subsystem>)
        ensures
            s == self.first(),
    {
        if self.logger {
            Some(Subsystem::Logger)
        } else if self.tracer {
            Some(Subsystem::Tracer)
        } else if self.meter {
            Some(Subsystem::Meter)
        } else if self.profiler {
            Some(Subsystem::Profiler)
        } else {
            None
        }
    }

    /// The handles with that of `subsystem` held or not.
    fn set(&self, subsystem: Subsystem, held: bool) -> (h: Handles)
        ensures
            h == self.with(subsystem, held),
    {
        let mut h = *self;
        match subsystem {
            Subsystem::Logger => {
                h.logger = held;
            },
            Subsystem::Tracer => {
                h.tracer = held;
            },
            Subsystem::Meter => {
                h.meter = held;
            },
            Subsystem::Profiler => {
                h.profiler = held;
            },
        }
        h
    }
}

/// How an action ended, as mathematical values.
pub enum OutcomeView {
    Succeeded,
    Unavailable,
    Failed(Seq<char>),
}

/// How the action that was due ended.
#[derive(Debug)]
pub enum Outcome {
    /// It was done. After a setup, the handle of the subsystem is held.
    Succeeded,
    /// It cannot be done here and is no fault: a subsystem that this
    /// platform does not support, a registration that is already in place.
    Unavailable,
    /// It failed, with this message.
    Failed(String),
}

impl View for Outcome {
    type V = OutcomeView;

    open spec fn view(&self) -> OutcomeView {
        match self {
            Outcome::Succeeded => OutcomeView::Succeeded,
            Outcome::Unavailable => OutcomeView::Unavailable,
            Outcome::Failed(m) => OutcomeView::Failed(m@),
        }
    }
}

/// A setup that failed, as mathematical values.
pub struct SetupFailureView {
    pub subsystem: Subsystem,
    pub endpoint: Seq<char>,
    pub message: Seq<char>,
}

impl SetupFailureView {
    /// The message of the failure: the subsystem, its endpoint, and what
    /// went wrong.
    pub open spec fn message(self) -> Seq<char> {
        "failed to set up "@ + self.subsystem.name() + " for "@ + self.endpoint + ": "@
            + self.message
    }
}

/// A setup that failed: which subsystem, at which endpoint, and why.
#[derive(Debug)]
pub struct SetupFailure {
    pub subsystem: Subsystem,
    pub endpoint: String,
    pub message: String,
}

impl View for SetupFailure {
    type V = SetupFailureView;

    open spec fn view(&self) -> SetupFailureView {
        SetupFailureView {
            subsystem: self.subsystem,
            endpoint: self.endpoint@,
            message: self.message@,
        }
    }
}

impl Clone for SetupFailure {
    fn clone(&self) -> (f: SetupFailure)
        ensures
            f@ == self@,
    {
        SetupFailure {
            subsystem: self.subsystem,
            endpoint: self.endpoint.clone(),
            message: self.message.clone(),
        }
    }
}

impl SetupFailure {
    /// The message of the failure.
    pub fn to_string(&self) -> (s: String)
        ensures
            s@ == self@.message(),
    {
        let head = concat3("failed to set up ", self.subsystem.as_str(), " for ");
        let middle = concat3(head.as_str(), self.endpoint.as_str(), ": ");
        concat(middle.as_str(), self.message.as_str())
    }
}

/// How the subscriber of the process is put together, as mathematical
/// values.
pub struct SubscriberSetupView {
    pub filter: Seq<char>,
    pub tracer_name: Option<Seq<char>>,
    pub bridge_logs: bool,
}

/// How the subscriber of the process is put together: the filter to fall
/// back on, the name of the tracer that spans go to where trace export
/// stands, and whether events go to log export.
#[derive(Debug)]
pub struct SubscriberSetup {
    pub filter: String,
    pub tracer_name: Option<String>,
    pub bridge_logs: bool,
}

impl View for SubscriberSetup {
    type V = SubscriberSetupView;

    open spec fn view(&self) -> SubscriberSetupView {
        SubscriberSetupView {
            filter: self.filter@,
            tracer_name: self.tracer_name.deep_view(),
            bridge_logs: self.bridge_logs,
        }
    }
}

/// What is due, as mathematical values.
pub enum ActionView {
    SetupLogger(LoggerSetupView),
    SetupTracer(TracerSetupView),
    SetupMeter(MeterSetupView),
    RegisterRuntimeMetrics { meter_name: Seq<char> },
    SetupProfiler(ProfilerSetupView),
    InstallSubscriber(SubscriberSetupView),
    Shutdown(Subsystem),
    Ready,
    Failed(SetupFailureView),
    Finished,
}

/// What the caller is to do next.
#[derive(Debug)]
pub enum Action {
    /// Build log export as described, and keep its handle.
    SetupLogger(LoggerSetup),
    /// Build trace export as described, and keep its handle.
    SetupTracer(TracerSetup),
    /// Build metric export as described, and keep its handle.
    SetupMeter(MeterSetup),
    /// Register the metrics of the process runtime with the meter of this
    /// name. A failure is reported and goes no further.
    RegisterRuntimeMetrics { meter_name: String },
    /// Start profiling as described, and keep its handle.
    SetupProfiler(ProfilerSetup),
    /// Install the subscriber of the process as described. A failure is
    /// reported and goes no further.
    InstallSubscriber(SubscriberSetup),
    /// Shut down the subsystem and give up its handle. A failure is reported
    /// and goes no further.
    Shutdown(Subsystem),
    /// Nothing: the instrumentation stands.
    Ready,
    /// Nothing: the instrumentation did not come to stand, for this reason,
    /// and nothing of it is left.
    Failed(SetupFailure),
    /// Nothing: the instrumentation is shut down.
    Finished,
}

impl View for Action {
    type V = ActionView;

    open spec fn view(&self) -> ActionView {
        match self {
            Action::SetupLogger(p) => ActionView::SetupLogger(p@),
            Action::SetupTracer(p) => ActionView::SetupTracer(p@),
            Action::SetupMeter(p) => ActionView::SetupMeter(p@),
            Action::RegisterRuntimeMetrics { meter_name } => ActionView::RegisterRuntimeMetrics {
                meter_name: meter_name@,
            },
            Action::SetupProfiler(p) => ActionView::SetupProfiler(p@),
            Action::InstallSubscriber(p) => ActionView::InstallSubscriber(p@),
            Action::Shutdown(s) => ActionView::Shutdown(*s),
            Action::Ready => ActionView::Ready,
            Action::Failed(e) => ActionView::Failed(e@),
            Action::Finished => ActionView::Finished,
        }
    }
}

/// Where the lifecycle stands: which action is due.
#[derive(Clone, Copy, Debug, PartialEq, Eq, Structural)]
pub enum Stage {
    /// Log export is to be set up.
    Logger,
    /// Trace export is to be set up.
    Tracer,
    /// Metric export is to be set up.
    Meter,
    /// The metrics of the process runtime are to be registered.
    RuntimeMetrics,
    /// Profiling is to be set up.
    Profiler,
    /// The subscriber of the process is to be installed.
    Subscriber,
    /// The instrumentation stands.
    Active,
    /// A setup failed, and what stood before it is being shut down.
    RollingBack,
    /// A setup failed, and nothing is left.
    Failed,
    /// The instrumentation is being shut down.
    ShuttingDown,
    /// The instrumentation is shut down, for good.
    ShutDown,
}

impl Stage {
    /// The stage that follows when this one is done or has nothing to do.
    pub open spec fn after(self) -> Stage {
        match self {
            Stage::Logger => Stage::Tracer,
            Stage::Tracer => Stage::Meter,
            Stage::Meter => Stage::RuntimeMetrics,
            Stage::RuntimeMetrics => Stage::Profiler,
            Stage::Profiler => Stage::Subscriber,
            Stage::Subscriber => Stage::Active,
            Stage::Active => Stage::Active,
            Stage::RollingBack => Stage::Failed,
            Stage::Failed => Stage::Failed,
            Stage::ShuttingDown => Stage::ShutDown,
            Stage::ShutDown => Stage::ShutDown,
        }
    }

    /// How many stages may still follow.
    pub open spec fn rank(self) -> nat {
        match self {
            Stage::Logger => 6,
            Stage::Tracer => 5,
            Stage::Meter => 4,
            Stage::RuntimeMetrics => 3,
            Stage::Profiler => 2,
            Stage::Subscriber => 1,
            Stage::Active => 0,
            Stage::RollingBack => 1,
            Stage::Failed => 0,
            Stage::ShuttingDown => 1,
            Stage::ShutDown => 0,
        }
    }

    /// The subsystem that the stage sets up, if it sets one up.
    pub open spec fn subsystem(self) -> Option<Subsystem> {
        match self {
            Stage::Logger => Some(Subsystem::Logger),
            Stage::Tracer => Some(Subsystem::Tracer),
            Stage::Meter => Some(Subsystem::Meter),
            Stage::Profiler => Some(Subsystem::Profiler),
            _ => None,
        }
    }

    /// The stage is one of bringing the instrumentation up.
    pub open spec fn is_construction(self) -> bool {
        self.rank() > 0 && self != Stage::RollingBack && self != Stage::ShuttingDown
    }

    /// The stage that follows.
    fn next(&self) -> (s: Stage)
        ensures
            s == self.after(),
    {
        match self {
            Stage::Logger => Stage::Tracer,
            Stage::Tracer => Stage::Meter,
            Stage::Meter => Stage::RuntimeMetrics,
            Stage::RuntimeMetrics => Stage::Profiler,
            Stage::Profiler => Stage::Subscriber,
            Stage::Subscriber => Stage::Active,
            Stage::Active => Stage::Active,
            Stage::RollingBack => Stage::Failed,
            Stage::Failed => Stage::Failed,
            Stage::ShuttingDown => Stage::ShutDown,
            Stage::ShutDown => Stage::ShutDown,
        }
    }
}

/// Whether `stage` has something to do. Setting up a subsystem is due where
/// the subsystem is enabled; registering the runtime metrics where metric
/// export stands, is the provider of the process and has them switched on;
/// shutting down where a handle is held. Every other stage is due.
pub open spec fn is_due(config: ConfigView, handles: Handles, stage: Stage) -> bool {
    match stage {
        Stage::Logger => config.logger.enabled,
        Stage::Tracer => config.tracer.enabled,
        Stage::Meter => config.meter.enabled,
        Stage::RuntimeMetrics => handles.meter && config.meter.wants_runtime_metrics(),
        Stage::Profiler => config.profiler.enabled,
        Stage::RollingBack => handles.first() is Some,
        Stage::ShuttingDown => handles.first() is Some,
        _ => true,
    }
}

/// The first stage from `stage` on that has something to do.
pub open spec fn settled(config: ConfigView, handles: Handles, stage: Stage) -> Stage
    decreases stage.rank(),
{
    if is_due(config, handles, stage) {
        stage
    } else {
        settled(config, handles, stage.after())
    }
}

/// The stage that settling arrives at has something to do, and is not
/// before the stage that settling began at.
pub proof fn lemma_settled(config: ConfigView, handles: Handles, stage: Stage)
    ensures
        is_due(config, handles, settled(config, handles, stage)),
        settled(config, handles, stage).rank() <= stage.rank(),
        is_due(config, handles, stage) ==> settled(config, handles, stage) == stage,
        stage.is_construction() ==> settled(config, handles, stage).is_construction() || settled(
            config,
            handles,
            stage,
        ) == Stage::Active,
        stage == Stage::RollingBack ==> settled(config, handles, stage) == (if handles.first()
            is Some {
            Stage::RollingBack
        } else {
            Stage::Failed
        }),
        stage == Stage::ShuttingDown ==> settled(config, handles, stage) == (if handles.first()
            is Some {
            Stage::ShuttingDown
        } else {
            Stage::ShutDown
        }),
    decreases stage.rank(),
{
    if !is_due(config, handles, stage) {
        lemma_settled(config, handles, stage.after());
    }
}

/// The endpoint that the configuration gives the subsystem, or the empty
/// string where it gives none.
pub open spec fn target_of(config: ConfigView, subsystem: Subsystem) -> Seq<char> {
    let target = match subsystem {
        Subsystem::Logger => config.logger.endpoint,
        Subsystem::Tracer => config.tracer.endpoint,
        Subsystem::Meter => config.meter.endpoint,
        Subsystem::Profiler => config.profiler.server_url,
    };
    match target {
        Some(t) => t,
        None => Seq::empty(),
    }
}

/// What is reported when a subsystem fails to shut down.
pub open spec fn shutdown_report(subsystem: Subsystem, message: Seq<char>) -> Seq<char> {
    "failed to shut down "@ + subsystem.handle_name() + ": "@ + message
}

/// What is reported when the runtime metrics fail to register.
pub open spec fn runtime_metrics_report(message: Seq<char>) -> Seq<char> {
    "failed to register runtime metrics: "@ + message
}

/// What is reported when the subscriber fails to install.
pub open spec fn subscriber_report(message: Seq<char>) -> Seq<char> {
    "failed to install tracing subscriber: "@ + message
}

/// The lifecycle as mathematical values: the configuration with its defaults
/// filled in, the stage, the handles held, the setup failure that is being
/// rolled back, and what was reported so far.
pub struct TelemetryView {
    pub config: ConfigView,
    pub stage: Stage,
    pub handles: Handles,
    pub failure: Option<SetupFailureView>,
    pub reports: Seq<Seq<char>>,
}

impl TelemetryView {
    /// The lifecycle at its start, for a configuration: no handle, nothing
    /// reported, at the first stage that has something to do.
    pub open spec fn start(config: ConfigView) -> TelemetryView {
        TelemetryView {
            config,
            stage: settled(config, Handles::none(), Stage::Logger),
            handles: Handles::none(),
            failure: None,
            reports: Seq::empty(),
        }
    }

    /// The state is one that a lifecycle can be in. The configuration is
    /// accepted, and credentials in use can be encoded. Only enabled
    /// subsystems stand. The stage has something to do. While the
    /// instrumentation is brought up, no subsystem stands that is set up
    /// later. A failure is kept exactly while it is rolled back and after;
    /// after a failure and after shutdown no handle is left.
    pub open spec fn wf(self) -> bool {
        &&& self.config.validate() is Ok
        &&& self.config.logger.enabled ==> self.config.logger.credentials.encodable()
        &&& self.config.tracer.enabled ==> self.config.tracer.credentials.encodable()
        &&& self.config.meter.enabled ==> self.config.meter.credentials.encodable()
        &&& self.handles.logger ==> self.config.logger.enabled
        &&& self.handles.tracer ==> self.config.tracer.enabled
        &&& self.handles.meter ==> self.config.meter.enabled
        &&& self.handles.profiler ==> self.config.profiler.enabled
        &&& is_due(self.config, self.handles, self.stage)
        &&& self.stage == Stage::Logger ==> self.handles == Handles::none()
        &&& self.stage == Stage::Tracer ==> !self.handles.tracer && !self.handles.meter
            && !self.handles.profiler
        &&& self.stage == Stage::Meter ==> !self.handles.meter && !self.handles.profiler
        &&& self.stage == Stage::RuntimeMetrics ==> !self.handles.profiler
        &&& self.stage == Stage::Profiler ==> !self.handles.profiler
        &&& self.failure is Some <==> self.stage == Stage::RollingBack || self.stage
            == Stage::Failed
        &&& self.stage == Stage::Failed ==> self.handles == Handles::none()
        &&& self.stage == Stage::ShutDown ==> self.handles == Handles::none()
    }

    /// The same state at the first stage from `stage` on that has something
    /// to do.
    pub open spec fn at(self, stage: Stage) -> TelemetryView {
        TelemetryView { stage: settled(self.config, self.handles, stage), ..self }
    }

    /// The same state with one more report.
    pub open spec fn reporting(self, report: Seq<char>) -> TelemetryView {
        TelemetryView { reports: self.reports.push(report), ..self }
    }

    /// The action that is due.
    pub open spec fn action(self) -> ActionView {
        match self.stage {
            Stage::Logger => ActionView::SetupLogger(self.config.logger.setup().unwrap().unwrap()),
            Stage::Tracer => ActionView::SetupTracer(self.config.tracer.init().unwrap().unwrap()),
            Stage::Meter => ActionView::SetupMeter(self.config.meter.init().unwrap().unwrap()),
            Stage::RuntimeMetrics => ActionView::RegisterRuntimeMetrics {
                meter_name: self.config.meter.service_name,
            },
            Stage::Profiler => ActionView::SetupProfiler(
                self.config.profiler.setup().unwrap().unwrap(),
            ),
            Stage::Subscriber => ActionView::InstallSubscriber(
                SubscriberSetupView {
                    filter: fallback_filter(self.config.resource.service_name),
                    tracer_name: if self.handles.tracer {
                        Some(self.config.tracer.service_name)
                    } else {
                        None
                    },
                    bridge_logs: self.handles.logger,
                },
            ),
            Stage::Active => ActionView::Ready,
            Stage::RollingBack => ActionView::Shutdown(self.handles.first().unwrap()),
            Stage::Failed => ActionView::Failed(self.failure.unwrap()),
            Stage::ShuttingDown => ActionView::Shutdown(self.handles.first().unwrap()),
            Stage::ShutDown => ActionView::Finished,
        }
    }

    /// The state after the setup of `subsystem` ended with `outcome`. A
    /// success holds the handle and goes on; a subsystem that is unavailable
    /// goes on without handle; a failure is kept, and what stands is rolled
    /// back.
    pub open spec fn after_setup(self, subsystem: Subsystem, outcome: OutcomeView) -> TelemetryView {
        match outcome {
            OutcomeView::Succeeded => (TelemetryView {
                handles: self.handles.with(subsystem, true),
                ..self
            }).at(self.stage.after()),
            OutcomeView::Unavailable => self.at(self.stage.after()),
            OutcomeView::Failed(message) => (TelemetryView {
                failure: Some(
                    SetupFailureView {
                        subsystem,
                        endpoint: target_of(self.config, subsystem),
                        message,
                    },
                ),
                ..self
            }).at(Stage::RollingBack),
        }
    }

    /// The state after a shutdown ended with `outcome`: the handle is given
    /// up whatever the outcome, and a failure is reported.
    pub open spec fn after_shutdown(self, outcome: OutcomeView) -> TelemetryView {
        let subsystem = self.handles.first().unwrap();
        let reported = match outcome {
            OutcomeView::Failed(message) => self.reporting(shutdown_report(subsystem, message)),
            _ => self,
        };
        (TelemetryView { handles: self.handles.with(subsystem, false), ..reported }).at(self.stage)
    }

    /// The state after the action that was due ended with `outcome`.
    pub open spec fn record(self, outcome: OutcomeView) -> TelemetryView {
        match self.stage {
            Stage::Logger => self.after_setup(Subsystem::Logger, outcome),
            Stage::Tracer => self.after_setup(Subsystem::Tracer, outcome),
            Stage::Meter => self.after_setup(Subsystem::Meter, outcome),
            Stage::Profiler => self.after_setup(Subsystem::Profiler, outcome),
            Stage::RuntimeMetrics => (match outcome {
                OutcomeView::Failed(message) => self.reporting(runtime_metrics_report(message)),
                _ => self,
            }).at(Stage::Profiler),
            Stage::Subscriber => (match outcome {
                OutcomeView::Failed(message) => self.reporting(subscriber_report(message)),
                _ => self,
            }).at(Stage::Active),
            Stage::RollingBack => self.after_shutdown(outcome),
            Stage::ShuttingDown => self.after_shutdown(outcome),
            Stage::Active => self,
            Stage::Failed => self,
            Stage::ShutDown => self,
        }
    }

    /// The state after shutdown was asked for: shutting down where the
    /// instrumentation stands, unchanged at every other stage.
    pub open spec fn shutdown(self) -> TelemetryView {
        if self.stage == Stage::Active {
            self.at(Stage::ShuttingDown)
        } else {
            self
        }
    }

    /// The start of a lifecycle is a state of a lifecycle.
    pub proof fn lemma_start_wf(config: ConfigView)
        requires
            config.validate() is Ok,
            config.logger.enabled ==> config.logger.credentials.encodable(),
            config.tracer.enabled ==> config.tracer.credentials.encodable(),
            config.meter.enabled ==> config.meter.credentials.encodable(),
        ensures
            Self::start(config).wf(),
    {
        lemma_settled(config, Handles::none(), Stage::Logger);
    }

    /// Every outcome of a setup leads from a state of a lifecycle to a state
    /// of a lifecycle.
    proof fn lemma_after_setup_wf(self, subsystem: Subsystem, outcome: OutcomeView)
        requires
            self.wf(),
            self.stage.subsystem() == Some(subsystem),
        ensures
            self.after_setup(subsystem, outcome).wf(),
    {
        match outcome {
            OutcomeView::Succeeded => {
                lemma_settled(
                    self.config,
                    self.handles.with(subsystem, true),
                    self.stage.after(),
                );
            },
            OutcomeView::Unavailable => {
                lemma_settled(self.config, self.handles, self.stage.after());
            },
            OutcomeView::Failed(_) => {
                lemma_settled(self.config, self.handles, Stage::RollingBack);
            },
        }
    }

    /// Every outcome of a shutdown leads from a state of a lifecycle to a
    /// state of a lifecycle.
    proof fn lemma_after_shutdown_wf(self, outcome: OutcomeView)
        requires
            self.wf(),
            self.stage == Stage::RollingBack || self.stage == Stage::ShuttingDown,
        ensures
            self.after_shutdown(outcome).wf(),
    {
        let subsystem = self.handles.first().unwrap();
        lemma_settled(self.config, self.handles.with(subsystem, false), self.stage);
    }

    /// Every outcome leads from a state of a lifecycle to a state of a
    /// lifecycle, and leaves the configuration as it is.
    pub proof fn lemma_record_wf(self, outcome: OutcomeView)
        requires
            self.wf(),
        ensures
            self.record(outcome).wf(),
            self.record(outcome).config == self.config,
    {
        match self.stage {
            Stage::Logger => self.lemma_after_setup_wf(Subsystem::Logger, outcome),
            Stage::Tracer => self.lemma_after_setup_wf(Subsystem::Tracer, outcome),
            Stage::Meter => self.lemma_after_setup_wf(Subsystem::Meter, outcome),
            Stage::Profiler => self.lemma_after_setup_wf(Subsystem::Profiler, outcome),
            Stage::RuntimeMetrics => lemma_settled(self.config, self.handles, Stage::Profiler),
            Stage::Subscriber => lemma_settled(self.config, self.handles, Stage::Active),
            Stage::RollingBack => self.lemma_after_shutdown_wf(outcome),
            Stage::ShuttingDown => self.lemma_after_shutdown_wf(outcome),
            _ => {},
        }
    }

    /// Asking for shutdown leads from a state of a lifecycle to a state of a
    /// lifecycle, and leaves the configuration as it is.
    pub proof fn lemma_shutdown_wf(self)
        requires
            self.wf(),
        ensures
            self.shutdown().wf(),
            self.shutdown().config == self.config,
    {
        lemma_settled(self.config, self.handles, Stage::ShuttingDown);
    }
}

/// The state after each of `outcomes` was recorded in turn.
pub open spec fn run(state: TelemetryView, outcomes: Seq<OutcomeView>) -> TelemetryView
    decreases outcomes.len(),
{
    if outcomes.len() == 0 {
        state
    } else {
        run(state.record(outcomes[0]), outcomes.drop_first())
    }
}

/// A lifecycle whose four subsystems are disabled sets nothing up: it begins
/// at the installation of the subscriber without any handle, and stands
/// without any handle however that installation ends.
pub proof fn lemma_all_disabled_stands_empty(config: ConfigView, outcome: OutcomeView)
    requires
        !config.logger.enabled,
        !config.tracer.enabled,
        !config.meter.enabled,
        !config.profiler.enabled,
    ensures
        TelemetryView::start(config).stage == Stage::Subscriber,
        TelemetryView::start(config).handles == Handles::none(),
        TelemetryView::start(config).record(outcome).stage == Stage::Active,
        TelemetryView::start(config).record(outcome).handles == Handles::none(),
        TelemetryView::start(config).record(outcome).action() == ActionView::Ready,
{
    reveal_with_fuel(settled, 8);
}

/// The subsystems are brought up in their order: while the instrumentation
/// is brought up, an action that does not fail leads to a later stage of
/// bringing it up, or to the instrumentation standing, and gives up no
/// handle.
pub proof fn lemma_construction_advances(state: TelemetryView, outcome: OutcomeView)
    requires
        state.wf(),
        state.stage.is_construction(),
        state.stage.subsystem() is Some ==> !(outcome is Failed),
    ensures
        state.record(outcome).stage.rank() < state.stage.rank(),
        state.record(outcome).stage.is_construction() || state.record(outcome).stage
            == Stage::Active,
        forall|s: Subsystem| state.handles.has(s) ==> state.record(outcome).handles.has(s),
{
    match state.stage.subsystem() {
        Some(subsystem) => {
            lemma_settled(state.config, state.handles, state.stage.after());
            lemma_settled(state.config, state.handles.with(subsystem, true), state.stage.after());
        },
        None => {
            lemma_settled(state.config, state.handles, state.stage.after());
        },
    }
}

/// When the setup of a subsystem fails, the lifecycle keeps the failure,
/// with the subsystem, its endpoint and the message, and keeps every handle
/// for the moment: where a handle is held it goes on to roll back, and where
/// none is held the error surfaces at once.
pub proof fn lemma_setup_failure_rolls_back(state: TelemetryView, message: Seq<char>)
    requires
        state.wf(),
        state.stage.subsystem() is Some,
    ensures
        state.record(OutcomeView::Failed(message)).failure == Some(
            SetupFailureView {
                subsystem: state.stage.subsystem().unwrap(),
                endpoint: target_of(state.config, state.stage.subsystem().unwrap()),
                message,
            },
        ),
        state.record(OutcomeView::Failed(message)).handles == state.handles,
        state.record(OutcomeView::Failed(message)).stage == (if state.handles.first() is Some {
            Stage::RollingBack
        } else {
            Stage::Failed
        }),
{
    lemma_settled(state.config, state.handles, Stage::RollingBack);
}

/// One step of shutting down, in a rollback or at the end: the subsystem to
/// shut down is the first that is held; whatever the outcome, its handle is
/// given up and the others are kept; and when it was the last one, the
/// lifecycle has arrived.
pub proof fn lemma_shutdown_step(state: TelemetryView, outcome: OutcomeView)
    requires
        state.wf(),
        state.stage == Stage::RollingBack || state.stage == Stage::ShuttingDown,
    ensures
        state.handles.held().len() > 0,
        state.action() == ActionView::Shutdown(state.handles.held()[0]),
        state.record(outcome).handles.held() == state.handles.held().drop_first(),
        state.record(outcome).failure == state.failure,
        state.record(outcome).stage == (if state.handles.held().len() > 1 {
            state.stage
        } else {
            state.stage.after()
        }),
        state.record(outcome).wf(),
{
    let subsystem = state.handles.first().unwrap();
    lemma_settled(state.config, state.handles.with(subsystem, false), state.stage);
    state.lemma_after_shutdown_wf(outcome);
    assert(state.record(outcome).handles.held() =~= state.handles.held().drop_first());
}

/// Shutting down visits every handle that is held exactly once. From a
/// state that rolls back or shuts down, with as many outcomes as handles are
/// held: the action due after the first `i` outcomes is the shutdown of the
/// `i`-th subsystem held, and after all of them the lifecycle has arrived,
/// failed or shut down, without any handle.
pub proof fn lemma_shutdown_visits_each_once(
    state: TelemetryView,
    outcomes: Seq<OutcomeView>,
    i: int,
)
    requires
        state.wf(),
        state.stage == Stage::RollingBack || state.stage == Stage::ShuttingDown,
        outcomes.len() == state.handles.held().len(),
        0 <= i < outcomes.len(),
    ensures
        run(state, outcomes.take(i)).action() == ActionView::Shutdown(state.handles.held()[i]),
        run(state, outcomes).stage == state.stage.after(),
        run(state, outcomes).handles == Handles::none(),
        run(state, outcomes).failure == state.failure,
        run(state, outcomes).wf(),
    decreases outcomes.len(),
{
    let first = outcomes[0];
    let rest = outcomes.drop_first();
    let next = state.record(first);
    lemma_shutdown_step(state, first);
    if rest.len() == 0 {
        assert(outcomes.take(0) =~= Seq::<OutcomeView>::empty());
        assert(run(next, rest) == next);
        assert(next.handles.held().len() == 0);
    } else {
        lemma_shutdown_visits_each_once(next, rest, if i == 0 {
            0
        } else {
            i - 1
        });
        if i == 0 {
            assert(outcomes.take(0) =~= Seq::<OutcomeView>::empty());
        } else {
            assert(outcomes.take(i).drop_first() =~= rest.take(i - 1));
            assert(outcomes.take(i)[0] == first);
        }
    }
}

/// Where the instrumentation stands, asking for shutdown begins it: with a
/// handle held the lifecycle shuts down, and without any it is shut down at
/// once.
pub proof fn lemma_shutdown_begins(state: TelemetryView)
    requires
        state.wf(),
        state.stage == Stage::Active,
    ensures
        state.shutdown().handles == state.handles,
        state.shutdown().stage == (if state.handles.first() is Some {
            Stage::ShuttingDown
        } else {
            Stage::ShutDown
        }),
        state.shutdown().wf(),
{
    lemma_settled(state.config, state.handles, Stage::ShuttingDown);
}

/// A lifecycle that has failed or is shut down holds no handle and stays as
/// it is: no outcome and no request for shutdown changes it.
pub proof fn lemma_end_is_final(state: TelemetryView, outcome: OutcomeView)
    requires
        state.wf(),
        state.stage == Stage::Failed || state.stage == Stage::ShutDown,
    ensures
        state.handles == Handles::none(),
        state.record(outcome) == state,
        state.shutdown() == state,
        state.stage == Stage::Failed ==> state.action() == ActionView::Failed(
            state.failure.unwrap(),
        ),
        state.stage == Stage::ShutDown ==> state.action() == ActionView::Finished,
{
}

/// The lifecycle of a service's instrumentation.
///
/// A lifecycle begins with an accepted configuration and no handle. The
/// caller asks for the action that is due, performs it, and records how it
/// ended, until the instrumentation stands or has failed; later it asks for
/// shutdown and goes on in the same way until the lifecycle is finished. The
/// handles themselves stay with the caller: the lifecycle knows which of
/// them are held.
#[derive(Debug)]
pub struct Telemetry {
    config: Config,
    stage: Stage,
    handles: Handles,
    failure: Option<SetupFailure>,
    reports: Vec<String>,
}

impl View for Telemetry {
    type V = TelemetryView;

    closed spec fn view(&self) -> TelemetryView {
        TelemetryView {
            config: self.config@,
            stage: self.stage,
            handles: self.handles,
            failure: self.failure.deep_view(),
            reports: self.reports.deep_view(),
        }
    }
}

impl DeepView for SetupFailure {
    type V = SetupFailureView;

    open spec fn deep_view(&self) -> SetupFailureView {
        self@
    }
}

impl Telemetry {
    /// Every lifecycle is in a state that a lifecycle can be in.
    #[verifier::type_invariant]
    closed spec fn inv(&self) -> bool {
        self@.wf()
    }

    /// Whether `stage` has something to do.
    fn due(config: &Config, handles: Handles, stage: Stage) -> (d: bool)
        ensures
            d == is_due(config@, handles, stage),
    {
        match stage {
            Stage::Logger => config.logger.enabled,
            Stage::Tracer => config.tracer.enabled,
            Stage::Meter => config.meter.enabled,
            Stage::RuntimeMetrics => handles.meter && config.meter.runtime.enabled
                && config.meter.use_global,
            Stage::Profiler => config.profiler.enabled,
            Stage::RollingBack => handles.first_held().is_some(),
            Stage::ShuttingDown => handles.first_held().is_some(),
            _ => true,
        }
    }

    /// The first stage from `stage` on that has something to do.
    fn settle(config: &Config, handles: Handles, stage: Stage) -> (s: Stage)
        ensures
            s == settled(config@, handles, stage),
        decreases stage.rank(),
    {
        if Self::due(config, handles, stage) {
            stage
        } else {
            Self::settle(config, handles, stage.next())
        }
    }

    /// The endpoint that the configuration gives the subsystem, or the empty
    /// string.
    fn target(config: &Config, subsystem: Subsystem) -> (t: String)
        ensures
            t@ == target_of(config@, subsystem),
    {
        let target = match subsystem {
            Subsystem::Logger => clone_opt(&config.logger.endpoint),
            Subsystem::Tracer => clone_opt(&config.tracer.endpoint),
            Subsystem::Meter => clone_opt(&config.meter.endpoint),
            Subsystem::Profiler => clone_opt(&config.profiler.server_url),
        };
        match target {
            Some(t) => t,
            None => String::new(),
        }
    }

    /// Begins a lifecycle: fills in the defaults of the configuration and
    /// checks it. A configuration that is refused gives its error, and
    /// nothing is begun. An accepted one gives a lifecycle without handle, at
    /// the first stage that has something to do.
    pub fn new(config: Config) -> (r: Result<Telemetry, ConfigError>)
        requires
            config@.logger.enabled ==> config@.logger.credentials.encodable(),
            config@.tracer.enabled ==> config@.tracer.credentials.encodable(),
            config@.meter.enabled ==> config@.meter.credentials.encodable(),
        ensures
            match r {
                Ok(t) => config@.with_defaults().validate() is Ok && t@ == TelemetryView::start(
                    config@.with_defaults(),
                ) && t@.wf(),
                Err(e) => config@.with_defaults().validate() == Err::<(), ConfigErrorView>(e@),
            },
    {
        let mut config = config;
        config.apply_defaults();
        match config.validate() {
            Err(e) => Err(e),
            Ok(()) => {
                proof {
                    TelemetryView::lemma_start_wf(config@);
                }
                let handles = Handles { logger: false, tracer: false, meter: false, profiler: false };
                let stage = Self::settle(&config, handles, Stage::Logger);
                let reports: Vec<String> = Vec::new();
                assert(reports.deep_view() =~= Seq::<Seq<char>>::empty());
                Ok(Telemetry { config, stage, handles, failure: None, reports })
            },
        }
    }

    /// The configuration of the lifecycle, with its defaults filled in.
    pub fn config(&self) -> (config: &Config)
        ensures
            config@ == self@.config,
    {
        &self.config
    }

    /// The stage of the lifecycle.
    pub fn stage(&self) -> (stage: Stage)
        ensures
            stage == self@.stage,
            self@.wf(),
    {
        proof {
            use_type_invariant(self);
        }
        self.stage
    }

    /// What was reported so far: the failures that went no further, oldest
    /// first.
    pub fn reports(&self) -> (reports: &Vec<String>)
        ensures
            reports.deep_view() == self@.reports,
    {
        &self.reports
    }

    /// Whether the handle of log export is held.
    pub fn has_logger(&self) -> (held: bool)
        ensures
            held == self@.handles.logger,
    {
        self.handles.logger
    }

    /// Whether the handle of trace export is held.
    pub fn has_tracer(&self) -> (held: bool)
        ensures
            held == self@.handles.tracer,
    {
        self.handles.tracer
    }

    /// Whether the handle of metric export is held.
    pub fn has_meter(&self) -> (held: bool)
        ensures
            held == self@.handles.meter,
    {
        self.handles.meter
    }

    /// Whether the handle of profiling is held.
    pub fn has_profiler(&self) -> (held: bool)
        ensures
            held == self@.handles.profiler,
    {
        self.handles.profiler
    }

    /// The action that is due.
    pub fn next_action(&self) -> (action: Action)
        ensures
            action@ == self@.action(),
            self@.wf(),
    {
        proof {
            use_type_invariant(self);
        }
        match self.stage {
            Stage::Logger => match crate::logger::setup(&self.config.logger) {
                Ok(Some(plan)) => Action::SetupLogger(plan),
                _ => unreached(),
            },
            Stage::Tracer => {
                let plan = if self.config.tracer.use_global {
                    crate::tracer::init(&self.config.tracer)
                } else {
                    crate::tracer::setup(&self.config.tracer)
                };
                match plan {
                    Ok(Some(plan)) => Action::SetupTracer(plan),
                    _ => unreached(),
                }
            },
            Stage::Meter => {
                let plan = if self.config.meter.use_global {
                    crate::meter::init(&self.config.meter)
                } else {
                    crate::meter::setup(&self.config.meter)
                };
                match plan {
                    Ok(Some(plan)) => Action::SetupMeter(plan),
                    _ => unreached(),
                }
            },
            Stage::RuntimeMetrics => Action::RegisterRuntimeMetrics {
                meter_name: self.config.meter.service_name.clone(),
            },
            Stage::Profiler => match crate::profiler::setup(&self.config.profiler) {
                Ok(Some(plan)) => Action::SetupProfiler(plan),
                _ => unreached(),
            },
            Stage::Subscriber => Action::InstallSubscriber(
                SubscriberSetup {
                    filter: fallback_log_filter(self.config.resource.service_name.as_str()),
                    tracer_name: if self.handles.tracer {
                        Some(self.config.tracer.service_name.clone())
                    } else {
                        None
                    },
                    bridge_logs: self.handles.logger,
                },
            ),
            Stage::Active => Action::Ready,
            Stage::RollingBack => match self.handles.first_held() {
                Some(subsystem) => Action::Shutdown(subsystem),
                None => unreached(),
            },
            Stage::Failed => match &self.failure {
                Some(failure) => Action::Failed(failure.clone()),
                None => unreached(),
            },
            Stage::ShuttingDown => match self.handles.first_held() {
                Some(subsystem) => Action::Shutdown(subsystem),
                None => unreached(),
            },
            Stage::ShutDown => Action::Finished,
        }
    }

    /// The lifecycle after the setup of `subsystem` ended with `outcome`.
    fn after_setup(self, subsystem: Subsystem, outcome: Outcome) -> (next: Telemetry)
        requires
            self@.stage.subsystem() == Some(subsystem),
        ensures
            next@ == self@.after_setup(subsystem, outcome@),
    {
        proof {
            use_type_invariant(&self);
            self@.lemma_after_setup_wf(subsystem, outcome@);
        }
        let Telemetry { config, stage, handles, failure, reports } = self;
        match outcome {
            Outcome::Succeeded => {
                let handles = handles.set(subsystem, true);
                let stage = Self::settle(&config, handles, stage.next());
                Telemetry { config, stage, handles, failure, reports }
            },
            Outcome::Unavailable => {
                let stage = Self::settle(&config, handles, stage.next());
                Telemetry { config, stage, handles, failure, reports }
            },
            Outcome::Failed(message) => {
                let endpoint = Self::target(&config, subsystem);
                let failure = Some(SetupFailure { subsystem, endpoint, message });
                let stage = Self::settle(&config, handles, Stage::RollingBack);
                Telemetry { config, stage, handles, failure, reports }
            },
        }
    }

    /// The lifecycle after an action whose failure goes no further ended
    /// with `outcome`: a failure is reported under `what`, and `then` is the
    /// stage to go on from.
    fn after_best_effort(self, what: &str, then: Stage, outcome: Outcome) -> (next: Telemetry)
        requires
            self@.stage == Stage::RuntimeMetrics && then == Stage::Profiler || self@.stage
                == Stage::Subscriber && then == Stage::Active,
        ensures
            next@ == (match outcome@ {
                OutcomeView::Failed(message) => self@.reporting(what@ + message),
                _ => self@,
            }).at(then),
    {
        proof {
            use_type_invariant(&self);
            lemma_settled(self@.config, self@.handles, then);
        }
        let Telemetry { config, stage, handles, failure, reports } = self;
        let mut reports = reports;
        match outcome {
            Outcome::Failed(message) => {
                let ghost before = reports.deep_view();
                let report = concat(what, message.as_str());
                reports.push(report);
                assert(reports.deep_view() =~= before.push(what@ + message@));
            },
            _ => {},
        }
        let stage = Self::settle(&config, handles, then);
        Telemetry { config, stage, handles, failure, reports }
    }

    /// The lifecycle after a shutdown ended with `outcome`.
    fn after_shutdown(self, outcome: Outcome) -> (next: Telemetry)
        requires
            self@.stage == Stage::RollingBack || self@.stage == Stage::ShuttingDown,
        ensures
            next@ == self@.after_shutdown(outcome@),
    {
        proof {
            use_type_invariant(&self);
            self@.lemma_after_shutdown_wf(outcome@);
        }
        let Telemetry { config, stage, handles, failure, reports } = self;
        let mut reports = reports;
        match handles.first_held() {
            None => unreached(),
            Some(subsystem) => {
                match outcome {
                    Outcome::Failed(message) => {
                        let ghost before = reports.deep_view();
                        let head = concat3("failed to shut down ", subsystem.handle_str(), ": ");
                        let report = concat(head.as_str(), message.as_str());
                        reports.push(report);
                        assert(reports.deep_view() =~= before.push(
                            shutdown_report(subsystem, message@),
                        ));
                    },
                    _ => {},
                }
                let handles = handles.set(subsystem, false);
                let stage = Self::settle(&config, handles, stage);
                Telemetry { config, stage, handles, failure, reports }
            },
        }
    }

    /// Records how the action that was due ended, and moves on. The outcome
    /// of a setup decides whether the handle is held, or whether what stands
    /// is rolled back. The outcome of a shutdown gives the handle up either
    /// way. A failure of a registration or of a shutdown is reported and goes
    /// no further. Where no action was due, nothing changes.
    pub fn record(self, outcome: Outcome) -> (next: Telemetry)
        ensures
            next@ == self@.record(outcome@),
            self@.wf(),
            next@.wf(),
    {
        proof {
            use_type_invariant(&self);
            self@.lemma_record_wf(outcome@);
        }
        match self.stage {
            Stage::Logger => self.after_setup(Subsystem::Logger, outcome),
            Stage::Tracer => self.after_setup(Subsystem::Tracer, outcome),
            Stage::Meter => self.after_setup(Subsystem::Meter, outcome),
            Stage::Profiler => self.after_setup(Subsystem::Profiler, outcome),
            Stage::RuntimeMetrics => self.after_best_effort(
                "failed to register runtime metrics: ",
                Stage::Profiler,
                outcome,
            ),
            Stage::Subscriber => self.after_best_effort(
                "failed to install tracing subscriber: ",
                Stage::Active,
                outcome,
            ),
            Stage::RollingBack => self.after_shutdown(outcome),
            Stage::ShuttingDown => self.after_shutdown(outcome),
            Stage::Active => self,
            Stage::Failed => self,
            Stage::ShutDown => self,
        }
    }

    /// Records how the action that was due ended, and gives the action that
    /// is due next.
    pub fn step(self, outcome: Outcome) -> (r: (Telemetry, Action))
        ensures
            r.0@ == self@.record(outcome@),
            r.1@ == self@.record(outcome@).action(),
            r.0@.wf(),
    {
        let next = self.record(outcome);
        let action = next.next_action();
        (next, action)
    }

    /// Asks for shutdown. Where the instrumentation stands, the lifecycle
    /// goes on to shut down every subsystem whose handle is held; at any
    /// other stage nothing changes.
    pub fn shutdown(self) -> (next: Telemetry)
        ensures
            next@ == self@.shutdown(),
            self@.wf(),
            next@.wf(),
    {
        proof {
            use_type_invariant(&self);
            self@.lemma_shutdown_wf();
        }
        match self.stage {
            Stage::Active => {
                let Telemetry { config, stage, handles, failure, reports } = self;
                let stage = Self::settle(&config, handles, Stage::ShuttingDown);
                Telemetry { config, stage, handles, failure, reports }
            },
            _ => self,
        }
    }
}

} // verus!
