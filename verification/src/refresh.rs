//! The refresh loop as a state machine.
//!
//! The loop alternates between work that only its host can do (reading the
//! clock, sampling, forwarding, rendering, polling the keyboard, killing a
//! process) and decisions. The decisions are here: the host asks
//! [`RefreshLoop::request`] what to do, does it, and reports the outcome to
//! [`RefreshLoop::step`], which changes the state and moves on. Within one
//! iteration a sample is taken in before rendering, and rendering comes
//! before input is dispatched.

use crate::app_state::{applied, clamp_index, recorded, reports, shown, AppState, Metric};
use crate::gpu::info::{process_count, resolve, selected_row, GpuInfo};
use crate::influxdb::{export_failure_message, exporter_enabled, InfluxDBConfig};
use crate::input::{bound_command, command_for, Command, Key};
use vstd::prelude::*;

verus! {

/// Where the loop stands: what it waits for.
#[derive(Clone, Copy, Debug, PartialEq, Eq, Structural)]
pub enum Phase {
    /// For the time since the last sample.
    WaitingForTick,
    /// For the telemetry provider.
    Sampling,
    /// For the sink to take the sample.
    Exporting,
    /// For the renderer.
    Rendering,
    /// For a key, or for the poll to time out.
    PollingInput,
    /// For process `pid` to be killed.
    Dispatching { pid: u32 },
    /// For nothing any more: the operator quit.
    ShuttingDown,
}

/// What the host is to do next.
#[derive(Clone, Copy, Debug, PartialEq, Eq, Structural)]
pub enum Request {
    ReadClock,
    Sample,
    Export,
    Render,
    PollInput,
    Kill { pid: u32 },
    Exit,
}

/// What the host reports back.
#[derive(Debug)]
pub enum Event {
    /// The time since the last sample was started, in milliseconds.
    Clock { elapsed_ms: u128 },
    SampleTaken(Vec<GpuInfo>),
    SampleFailed(String),
    ExportDone,
    ExportFailed(String),
    Rendered,
    KeyPressed(Key),
    /// The poll timed out.
    NoInput,
    KillDone,
    KillFailed(String),
}

/// The request that goes with `phase`.
pub open spec fn request_in(phase: Phase) -> Request {
    match phase {
        Phase::WaitingForTick => Request::ReadClock,
        Phase::Sampling => Request::Sample,
        Phase::Exporting => Request::Export,
        Phase::Rendering => Request::Render,
        Phase::PollingInput => Request::PollInput,
        Phase::Dispatching { pid } => Request::Kill { pid },
        Phase::ShuttingDown => Request::Exit,
    }
}

/// Whether `event` is an outcome of what `phase` waits for.
pub open spec fn fits(phase: Phase, event: Event) -> bool {
    match phase {
        Phase::WaitingForTick => event is Clock,
        Phase::Sampling => event is SampleTaken || event is SampleFailed,
        Phase::Exporting => event is ExportDone || event is ExportFailed,
        Phase::Rendering => event is Rendered,
        Phase::PollingInput => event is KeyPressed || event is NoInput,
        Phase::Dispatching { pid } => event is KillDone || event is KillFailed,
        Phase::ShuttingDown => false,
    }
}

/// Whether `after` is `before` with `snapshot` taken in: the devices
/// replaced as a whole, both histories extended by one sample per device,
/// and the selection either kept or clamped to the new process table.
pub open spec fn took_in(
    before: AppState,
    snapshot: Vec<GpuInfo>,
    clamp: bool,
    after: AppState,
) -> bool {
    &&& after.gpu_infos == snapshot
    &&& after.utilization_history@ == recorded(
        before.utilization_history@,
        snapshot@,
        Metric::Utilization,
    )
    &&& after.power_history@ == recorded(before.power_history@, snapshot@, Metric::Power)
    &&& after.selected_process == if clamp {
        clamp_index(before.selected_process, process_count(snapshot@))
    } else {
        before.selected_process
    }
    &&& after.selected_gpu_tab == before.selected_gpu_tab
    &&& after.error_message == before.error_message
    &&& after.use_tabbed_graphs == before.use_tabbed_graphs
    &&& after.use_bar_charts == before.use_bar_charts
}

/// The loop: the state it owns, the phase it is in, and its settings.
#[derive(Debug)]
pub struct RefreshLoop {
    state: AppState,
    phase: Phase,
    interval_ms: u64,
    exporting: bool,
}

impl RefreshLoop {
    /// The state that the loop owns.
    pub closed spec fn app(&self) -> AppState {
        self.state
    }

    /// The phase that the loop is in.
    pub closed spec fn at(&self) -> Phase {
        self.phase
    }

    /// Least time between two samples, in milliseconds.
    pub closed spec fn interval(&self) -> u64 {
        self.interval_ms
    }

    /// Whether samples are forwarded.
    pub closed spec fn exports(&self) -> bool {
        self.exporting
    }

    /// Whether `after` is what an accepted `event` makes of `self`.
    pub open spec fn moves_to(&self, event: Event, after: RefreshLoop) -> bool {
        &&& after.interval() == self.interval()
        &&& after.exports() == self.exports()
        &&& match (self.at(), event) {
            (Phase::WaitingForTick, Event::Clock { elapsed_ms }) => if elapsed_ms
                >= self.interval() {
                after.at() == Phase::Sampling && after.app() == self.app()
            } else {
                after.at() == Phase::Rendering && after.app() == shown(self.app())
            },
            (Phase::Sampling, Event::SampleTaken(snapshot)) => if self.exports() {
                after.at() == Phase::Exporting && took_in(self.app(), snapshot, false, after.app())
            } else {
                after.at() == Phase::Rendering && took_in(self.app(), snapshot, true, after.app())
            },
            (Phase::Sampling, Event::SampleFailed(message)) => {
                &&& after.at() == Phase::Rendering
                &&& reports(shown(self.app()), message@, after.app())
            },
            (Phase::Exporting, Event::ExportDone) => {
                &&& after.at() == Phase::Rendering
                &&& after.app() == shown(self.app())
            },
            (Phase::Exporting, Event::ExportFailed(cause)) => {
                &&& after.at() == Phase::Rendering
                &&& reports(shown(self.app()), "InfluxDB Error: "@ + cause@, after.app())
            },
            (Phase::Rendering, Event::Rendered) => {
                &&& after.at() == Phase::PollingInput
                &&& after.app() == self.app()
            },
            (Phase::PollingInput, Event::NoInput) => {
                &&& after.at() == Phase::WaitingForTick
                &&& after.app() == self.app()
            },
            (Phase::PollingInput, Event::KeyPressed(key)) => match command_for(key) {
                Command::Quit => after.at() == Phase::ShuttingDown && after.app() == self.app(),
                Command::KillSelected => {
                    &&& after.app() == self.app()
                    &&& after.at() == match selected_row(
                        self.app().gpu_infos@,
                        self.app().selected_process,
                    ) {
                        Some(row) => Phase::Dispatching { pid: row.1 },
                        None => Phase::WaitingForTick,
                    }
                },
                command => {
                    &&& after.at() == Phase::WaitingForTick
                    &&& after.app() == applied(self.app(), command)
                },
            },
            (Phase::Dispatching { pid }, Event::KillDone) => {
                &&& after.at() == Phase::WaitingForTick
                &&& after.app() == self.app()
            },
            (Phase::Dispatching { pid }, Event::KillFailed(message)) => {
                &&& after.at() == Phase::WaitingForTick
                &&& reports(self.app(), message@, after.app())
            },
            _ => false,
        }
    }

    /// A loop that starts with `state`, samples every `interval_ms`
    /// milliseconds at most, and forwards samples only if `exporter` is a
    /// configuration that passes validation.
    pub fn new(state: AppState, interval_ms: u64, exporter: &Option<InfluxDBConfig>) -> (fresh:
        RefreshLoop)
        ensures
            fresh.app() == state,
            fresh.at() == Phase::WaitingForTick,
            fresh.interval() == interval_ms,
            fresh.exports() == (exporter matches Some(config) && config.verdict() is Ok),
    {
        RefreshLoop {
            state,
            phase: Phase::WaitingForTick,
            interval_ms,
            exporting: exporter_enabled(exporter),
        }
    }

    /// The state, for reading.
    pub fn state(&self) -> (state: &AppState)
        ensures
            *state == self.app(),
    {
        &self.state
    }

    /// The phase that the loop is in.
    pub fn phase(&self) -> (phase: Phase)
        ensures
            phase == self.at(),
    {
        self.phase
    }

    /// What the host is to do next.
    pub fn request(&self) -> (request: Request)
        ensures
            request == request_in(self.at()),
    {
        match self.phase {
            Phase::WaitingForTick => Request::ReadClock,
            Phase::Sampling => Request::Sample,
            Phase::Exporting => Request::Export,
            Phase::Rendering => Request::Render,
            Phase::PollingInput => Request::PollInput,
            Phase::Dispatching { pid } => Request::Kill { pid },
            Phase::ShuttingDown => Request::Exit,
        }
    }

    /// Takes the outcome of the last request. An event that is no outcome
    /// of what the loop waits for is turned down and changes nothing; any
    /// other is accepted and moves the loop on.
    pub fn step(&mut self, event: Event) -> (accepted: bool)
        ensures
            accepted == fits(old(self).at(), event),
            accepted ==> old(self).moves_to(event, *final(self)),
            !accepted ==> *final(self) == *old(self),
    {
        match self.phase {
            Phase::WaitingForTick => match event {
                Event::Clock { elapsed_ms } => {
                    if elapsed_ms >= self.interval_ms as u128 {
                        self.phase = Phase::Sampling;
                    } else {
                        self.state.reclamp_selection();
                        self.phase = Phase::Rendering;
                    }
                    true
                },
                _ => false,
            },
            Phase::Sampling => match event {
                Event::SampleTaken(snapshot) => {
                    self.state.record_sample(snapshot);
                    if self.exporting {
                        self.phase = Phase::Exporting;
                    } else {
                        self.state.reclamp_selection();
                        self.phase = Phase::Rendering;
                    }
                    true
                },
                Event::SampleFailed(message) => {
                    self.state.reclamp_selection();
                    self.state.report_error(message);
                    self.phase = Phase::Rendering;
                    true
                },
                _ => false,
            },
            Phase::Exporting => match event {
                Event::ExportDone => {
                    self.state.reclamp_selection();
                    self.phase = Phase::Rendering;
                    true
                },
                Event::ExportFailed(cause) => {
                    self.state.reclamp_selection();
                    self.state.report_error(export_failure_message(cause.as_str()));
                    self.phase = Phase::Rendering;
                    true
                },
                _ => false,
            },
            Phase::Rendering => match event {
                Event::Rendered => {
                    self.phase = Phase::PollingInput;
                    true
                },
                _ => false,
            },
            Phase::PollingInput => match event {
                Event::NoInput => {
                    self.phase = Phase::WaitingForTick;
                    true
                },
                Event::KeyPressed(key) => {
                    match bound_command(key) {
                        Command::Quit => {
                            self.phase = Phase::ShuttingDown;
                        },
                        Command::KillSelected => {
                            match resolve(self.state.selected_process, &self.state.gpu_infos) {
                                Some(row) => {
                                    self.phase = Phase::Dispatching { pid: row.1 };
                                },
                                None => {
                                    self.phase = Phase::WaitingForTick;
                                },
                            }
                        },
                        command => {
                            self.state.apply(command);
                            self.phase = Phase::WaitingForTick;
                        },
                    }
                    true
                },
                _ => false,
            },
            Phase::Dispatching { pid } => match event {
                Event::KillDone => {
                    self.phase = Phase::WaitingForTick;
                    true
                },
                Event::KillFailed(message) => {
                    self.state.report_error(message);
                    self.phase = Phase::WaitingForTick;
                    true
                },
                _ => false,
            },
            Phase::ShuttingDown => false,
        }
    }
}

/// Nothing moves a loop that is shutting down.
pub proof fn lemma_shutdown_is_final(event: Event)
    ensures
        !fits(Phase::ShuttingDown, event),
{
}

/// A loop shuts down only when the operator asks for it: on the quit key,
/// while the loop polls for input.
pub proof fn lemma_only_quit_shuts_down(before: RefreshLoop, event: Event, after: RefreshLoop)
    requires
        before.moves_to(event, after),
        after.at() == Phase::ShuttingDown,
    ensures
        before.at() == Phase::PollingInput,
        event matches Event::KeyPressed(key) && command_for(key) == Command::Quit,
{
}

/// Input is polled only after a rendering, and a rendering leaves the
/// state as it found it.
pub proof fn lemma_rendering_precedes_input(
    before: RefreshLoop,
    event: Event,
    after: RefreshLoop,
)
    requires
        before.moves_to(event, after),
        after.at() == Phase::PollingInput,
    ensures
        before.at() == Phase::Rendering,
        after.app() == before.app(),
{
}

/// An iteration ends only after input was polled: the loop comes back to
/// waiting for the tick from polling or from the kill that a key asked for,
/// so every iteration has rendered before.
pub proof fn lemma_iteration_ends_after_input(
    before: RefreshLoop,
    event: Event,
    after: RefreshLoop,
)
    requires
        before.moves_to(event, after),
        after.at() == Phase::WaitingForTick,
    ensures
        before.at() == Phase::PollingInput || before.at() is Dispatching,
{
}

/// A kill is asked for only from polling, on the kill key, and for the
/// process in the selected row.
pub proof fn lemma_kill_targets_selection(before: RefreshLoop, event: Event, after: RefreshLoop)
    requires
        before.moves_to(event, after),
        after.at() is Dispatching,
    ensures
        before.at() == Phase::PollingInput,
        event matches Event::KeyPressed(key) && command_for(key) == Command::KillSelected,
        selected_row(before.app().gpu_infos@, before.app().selected_process) matches Some(row)
            && after.at() == (Phase::Dispatching { pid: row.1 }),
{
}

/// Whenever the loop comes to render, the selected row exists if the
/// process table has any row at all.
pub proof fn lemma_rendered_selection_is_a_row(
    before: RefreshLoop,
    event: Event,
    after: RefreshLoop,
)
    requires
        before.moves_to(event, after),
        after.at() == Phase::Rendering,
    ensures
        after.app().selected_process == clamp_index(
            after.app().selected_process,
            process_count(after.app().gpu_infos@),
        ),
        process_count(after.app().gpu_infos@) > 0 ==> selected_row(
            after.app().gpu_infos@,
            after.app().selected_process,
        ) is Some,
{
}

/// A loop that does not forward samples never waits for the sink.
pub proof fn lemma_disabled_exporter_is_skipped(
    before: RefreshLoop,
    event: Event,
    after: RefreshLoop,
)
    requires
        before.moves_to(event, after),
        !before.exports(),
    ensures
        after.at() != Phase::Exporting,
{
}

/// A failed sampling keeps the devices of the sample before it, puts the
/// failure in the error slot, and goes on to render.
pub proof fn lemma_failed_sample_keeps_devices(
    before: RefreshLoop,
    message: String,
    after: RefreshLoop,
)
    requires
        before.at() == Phase::Sampling,
        before.moves_to(Event::SampleFailed(message), after),
    ensures
        after.at() == Phase::Rendering,
        after.app().gpu_infos == before.app().gpu_infos,
        after.app().error_message matches Some(shown_message) && shown_message@ == message@,
{
}

} // verus!
