//! The periodic task that watches one target, as a state machine.
//!
//! A task runs one cycle forever: wait for the tick of its timer, probe the
//! target, fold the outcome into the record, write the status file, log the
//! record. Waiting, probing, writing and logging are done by a driver; the
//! task tells the driver what to do next and takes what came of it as the
//! next event. Each task owns its record, and two tasks never meet.

use crate::clock::current_time_seconds;
use crate::probe::{classify_probe, code_of, status_of_code, PROBE_TIMEOUT_SECS};
use crate::record::{fresh_record, observe, SystemInfo, SystemInfoView};
use crate::store::{status_file, update_status_at, StatusFile, StatusFileView};
use vstd::prelude::*;
use vstd::string::*;

verus! {

/// The period of a task's timer, in seconds.
pub const CHECK_PERIOD_SECS: u64 = 30;

/// Where the website is probed.
pub const WEBSITE_URL: &'static str = "https://wavy.fm";

/// Where the API is probed: its health endpoint.
pub const API_URL: &'static str = "https://api.wavy.fm/healthz";

/// Where a task stands in its cycle: what it waits for.
#[derive(Clone, Copy, Debug, PartialEq, Eq, Structural)]
pub enum Phase {
    /// Not started yet.
    Idle,
    /// Waiting for the next tick of the timer.
    AwaitingTick,
    /// Waiting for the outcome of a probe.
    AwaitingProbe,
    /// Waiting for the status file to be written.
    AwaitingPersist,
    /// Waiting for the record to be logged.
    AwaitingLog,
    /// Stopped for good.
    Stopped,
}

/// What the driver tells a task.
#[derive(Clone, Copy, Debug, PartialEq, Eq)]
pub enum Event {
    /// The task is launched.
    Started,
    /// The timer has ticked.
    Ticked,
    /// The probe is over: the status code of the response, or `None` where no
    /// response came.
    Probed(Option<u16>),
    /// The status file has been written.
    Persisted,
    /// The status file could not be written.
    PersistFailed,
    /// The record has been logged.
    Logged,
}

/// Why a task stopped.
#[derive(Clone, Copy, Debug, PartialEq, Eq, Structural)]
pub enum StopReason {
    /// The system clock stands before the Unix epoch.
    ClockBeforeEpoch,
    /// The record could not be rendered.
    RenderFailed,
    /// The status file could not be written.
    PersistFailed,
    /// An event came that the task was not waiting for.
    UnexpectedEvent,
}

/// What a task asks of its driver.
#[derive(Clone, Debug)]
pub enum Action {
    /// Wait for the next tick of a timer with this period.
    AwaitTick { period_secs: u64 },
    /// Send a GET to this URL, with this timeout.
    Probe { url: String, timeout_secs: u64 },
    /// Replace this file.
    Persist { file: StatusFile },
    /// Log the record as it is now.
    Log,
    /// Give up: the task will do nothing more.
    Stop { reason: StopReason },
}

/// An action as plain values.
pub enum ActionView {
    AwaitTick { period_secs: u64 },
    Probe { url: Seq<char>, timeout_secs: u64 },
    Persist { file: StatusFileView },
    Log,
    Stop { reason: StopReason },
}

impl View for Action {
    type V = ActionView;

    open spec fn view(&self) -> ActionView {
        match *self {
            Action::AwaitTick { period_secs } => ActionView::AwaitTick { period_secs },
            Action::Probe { url, timeout_secs } => ActionView::Probe { url: url@, timeout_secs },
            Action::Persist { file } => ActionView::Persist { file: file@ },
            Action::Log => ActionView::Log,
            Action::Stop { reason } => ActionView::Stop { reason },
        }
    }
}

/// The task that watches one target.
#[derive(Clone, Debug)]
pub struct CheckTask {
    pub url: String,
    pub record: SystemInfo,
    pub phase: Phase,
}

/// A task as plain values.
pub struct CheckTaskView {
    pub url: Seq<char>,
    pub record: SystemInfoView,
    pub phase: Phase,
}

impl View for CheckTask {
    type V = CheckTaskView;

    open spec fn view(&self) -> CheckTaskView {
        CheckTaskView { url: self.url@, record: self.record@, phase: self.phase }
    }
}

/// A task that has not been started, with a fresh record.
pub open spec fn new_task(id: Seq<char>, url: Seq<char>) -> CheckTaskView {
    CheckTaskView { url, record: fresh_record(id), phase: Phase::Idle }
}

/// The task in another phase, with the same target and record.
pub open spec fn moved_to(task: CheckTaskView, phase: Phase) -> CheckTaskView {
    CheckTaskView { url: task.url, record: task.record, phase }
}

/// One step of a task: in state `before` it takes `event` at time `now`,
/// goes to state `after` and asks for `action`.
///
/// The time counts only where the outcome of a probe arrives. There the record
/// takes the observation in any case; the task then asks for the status
/// file to be written, or stops where the record has none. An event that the
/// task was not waiting for stops it.
pub open spec fn check_step(
    before: CheckTaskView,
    event: Event,
    now: nat,
    after: CheckTaskView,
    action: ActionView,
) -> bool {
    match (before.phase, event) {
        (Phase::Idle, Event::Started) | (Phase::AwaitingLog, Event::Logged) => {
            &&& after == moved_to(before, Phase::AwaitingTick)
            &&& action == ActionView::AwaitTick { period_secs: CHECK_PERIOD_SECS }
        },
        (Phase::AwaitingTick, Event::Ticked) => {
            &&& after == moved_to(before, Phase::AwaitingProbe)
            &&& action == ActionView::Probe { url: before.url, timeout_secs: PROBE_TIMEOUT_SECS }
        },
        (Phase::AwaitingProbe, Event::Probed(response)) => {
            let record = observe(before.record, status_of_code(code_of(response)), now);
            &&& after.url == before.url
            &&& after.record == record
            &&& match status_file(record) {
                Some(file) => {
                    &&& after.phase == Phase::AwaitingPersist
                    &&& action == ActionView::Persist { file }
                },
                None => {
                    &&& after.phase == Phase::Stopped
                    &&& action == ActionView::Stop { reason: StopReason::RenderFailed }
                },
            }
        },
        (Phase::AwaitingPersist, Event::Persisted) => {
            &&& after == moved_to(before, Phase::AwaitingLog)
            &&& action == ActionView::Log
        },
        (Phase::AwaitingPersist, Event::PersistFailed) => {
            &&& after == moved_to(before, Phase::Stopped)
            &&& action == ActionView::Stop { reason: StopReason::PersistFailed }
        },
        _ => {
            &&& after == moved_to(before, Phase::Stopped)
            &&& action == ActionView::Stop { reason: StopReason::UnexpectedEvent }
        },
    }
}

/// Whether the time of a step has to be read: only the outcome of a probe is
/// recorded with a time.
pub open spec fn step_reads_clock(task: CheckTaskView, event: Event) -> bool {
    task.phase == Phase::AwaitingProbe && event is Probed
}

impl CheckTask {
    /// A task for the target `id`, probed at `url`, not started yet.
    pub fn new(id: &str, url: &str) -> (task: CheckTask)
        ensures
            task@ == new_task(id@, url@),
    {
        CheckTask { url: String::from_str(url), record: SystemInfo::new(id), phase: Phase::Idle }
    }

    /// Whether the task has stopped for good.
    pub fn is_stopped(&self) -> (stopped: bool)
        ensures
            stopped == (self@.phase == Phase::Stopped),
    {
        self.phase == Phase::Stopped
    }

    /// Takes `event`, which arrived at time `now`, and says what to do next.
    pub fn step_at(&mut self, event: Event, now: u64) -> (action: Action)
        ensures
            check_step(old(self)@, event, now as nat, final(self)@, action@),
    {
        match (self.phase, event) {
            (Phase::Idle, Event::Started) | (Phase::AwaitingLog, Event::Logged) => {
                self.phase = Phase::AwaitingTick;
                Action::AwaitTick { period_secs: CHECK_PERIOD_SECS }
            },
            (Phase::AwaitingTick, Event::Ticked) => {
                self.phase = Phase::AwaitingProbe;
                Action::Probe { url: self.url.clone(), timeout_secs: PROBE_TIMEOUT_SECS }
            },
            (Phase::AwaitingProbe, Event::Probed(response)) => {
                let observed = classify_probe(response);
                match update_status_at(&mut self.record, observed, now) {
                    Ok(file) => {
                        self.phase = Phase::AwaitingPersist;
                        Action::Persist { file }
                    },
                    Err(_) => {
                        self.phase = Phase::Stopped;
                        Action::Stop { reason: StopReason::RenderFailed }
                    },
                }
            },
            (Phase::AwaitingPersist, Event::Persisted) => {
                self.phase = Phase::AwaitingLog;
                Action::Log
            },
            (Phase::AwaitingPersist, Event::PersistFailed) => {
                self.phase = Phase::Stopped;
                Action::Stop { reason: StopReason::PersistFailed }
            },
            _ => {
                self.phase = Phase::Stopped;
                Action::Stop { reason: StopReason::UnexpectedEvent }
            },
        }
    }

    /// Takes `event`, which arrived just now, and says what to do next.
    ///
    /// The system clock is read only where the outcome of a probe arrives. If
    /// it stands before the epoch there, the task stops with its record
    /// untouched.
    pub fn step(&mut self, event: Event) -> (action: Action)
        ensures
            check_step(old(self)@, event, final(self)@.record.updated, final(self)@, action@) || {
                &&& step_reads_clock(old(self)@, event)
                &&& final(self)@ == moved_to(old(self)@, Phase::Stopped)
                &&& action@ == ActionView::Stop { reason: StopReason::ClockBeforeEpoch }
            },
    {
        let reads_clock = match (self.phase, event) {
            (Phase::AwaitingProbe, Event::Probed(_)) => true,
            _ => false,
        };
        if reads_clock {
            match current_time_seconds() {
                Some(now) => self.step_at(event, now),
                None => {
                    self.phase = Phase::Stopped;
                    Action::Stop { reason: StopReason::ClockBeforeEpoch }
                },
            }
        } else {
            self.step_at(event, self.record.updated)
        }
    }
}

/// The task that watches the website.
pub fn website_check_task() -> (task: CheckTask)
    ensures
        task@ == new_task("website"@, WEBSITE_URL@),
{
    CheckTask::new("website", WEBSITE_URL)
}

/// The task that watches the API's health endpoint.
pub fn api_check_task() -> (task: CheckTask)
    ensures
        task@ == new_task("api"@, API_URL@),
{
    CheckTask::new("api", API_URL)
}

/// Only the outcome of a probe changes a record: every other step leaves the
/// record as it was. No step changes the target.
pub proof fn lemma_only_a_probe_changes_the_record(
    before: CheckTaskView,
    event: Event,
    now: nat,
    after: CheckTaskView,
    action: ActionView,
)
    requires
        check_step(before, event, now, after, action),
    ensures
        after.url == before.url,
        after.record.id == before.record.id,
        !step_reads_clock(before, event) ==> after.record == before.record,
        action is Persist ==> step_reads_clock(before, event),
{
}

/// A stopped task stays stopped, whatever it is told.
pub proof fn lemma_a_stopped_task_stays_stopped(
    before: CheckTaskView,
    event: Event,
    now: nat,
    after: CheckTaskView,
    action: ActionView,
)
    requires
        before.phase == Phase::Stopped,
        check_step(before, event, now, after, action),
    ensures
        after == before,
        action is Stop,
{
}

/// One whole cycle records exactly one observation. From a task that waits
/// for its tick, the events tick, probe outcome, file written and record
/// logged, whenever they arrive, ask in turn for the probe of the task's own
/// target, for the status file of the updated record, for the log line and
/// for the next tick. They leave the task waiting again, its record changed by
/// that one observation, made when the outcome of the probe arrived.
pub proof fn lemma_one_cycle_records_one_observation(
    start: CheckTaskView,
    response: Option<u16>,
    times: Seq<nat>,
    steps: Seq<(CheckTaskView, ActionView)>,
)
    requires
        start.phase == Phase::AwaitingTick,
        times.len() == 4,
        steps.len() == 4,
        check_step(start, Event::Ticked, times[0], steps[0].0, steps[0].1),
        check_step(steps[0].0, Event::Probed(response), times[1], steps[1].0, steps[1].1),
        steps[1].1 is Persist,
        check_step(steps[1].0, Event::Persisted, times[2], steps[2].0, steps[2].1),
        check_step(steps[2].0, Event::Logged, times[3], steps[3].0, steps[3].1),
    ensures
        ({
            let record = observe(start.record, status_of_code(code_of(response)), times[1]);
            &&& steps[0].1 == ActionView::Probe { url: start.url, timeout_secs: PROBE_TIMEOUT_SECS }
            &&& status_file(record) == Some(steps[1].1->file)
            &&& steps[2].1 == ActionView::Log
            &&& steps[3].1 == ActionView::AwaitTick { period_secs: CHECK_PERIOD_SECS }
            &&& steps[3].0 == CheckTaskView { url: start.url, record, phase: Phase::AwaitingTick }
        }),
{
}

} // verus!
