//! The polling loop: heartbeat, fetch, print, acknowledge.
//!
//! The loop is a machine of phases. In each phase it has asked for one action and
//! waits for what came of it; `Poller::step` takes that up, brings the status up
//! to date and asks for the next action. One turn of the loop is:
//!
//! 1. a heartbeat, which tells the server that the agent is there and may change
//!    the cadence of the polls;
//! 2. claiming jobs, printing and acknowledging each of them, one right after the
//!    other, until the queue is empty;
//! 3. a pause.
//!
//! Before the heartbeat and before each job the loop looks whether it was told to
//! stop, and a pause ends when it is told.
//!
//! The server's address, the token and the system printer are those of the settings
//! that the loop was started with.

use vstd::prelude::*;
use vstd::string::StringExecFns;

use crate::api::ApiError;
use crate::api::HeartbeatData;
use crate::api::JobModel;
use crate::api::NextJob;
use crate::config::AgentConfig;
use crate::printer::PrinterError;
use crate::status::known_state;
use crate::status::law_changes_keep_the_status_coherent;
use crate::status::time_stamp;
use crate::status::PollerStatus;
use crate::status::SinceEpoch;
use crate::status::StatusModel;

verus! {

/// Seconds that the agent waits at least after a heartbeat that failed.
pub const BACKOFF_SECS: u64 = 10;

/// What the polling loop waits for.
#[derive(Debug)]
pub enum Phase {
    /// The HTTP client is being set up.
    Connecting,
    /// Before a turn: is the loop to stop?
    CheckingStop,
    /// A heartbeat is under way.
    Heartbeating,
    /// Before a job: is the loop to stop?
    CheckingStopInBurst,
    /// A job is being claimed.
    Fetching,
    /// The job with this identifier is being printed.
    Printing(String),
    /// This job is being reported as printed, in so many milliseconds.
    AckingPrinted(String, u128),
    /// A job is being reported as failed, for this reason.
    AckingFailed(PrinterError),
    /// The queue is left alone after an error.
    Settling,
    /// The loop pauses.
    Sleeping,
    /// The loop has ended.
    Finished,
}

/// How a pause ended.
#[derive(Debug, Clone, Copy, PartialEq, Eq, Structural)]
pub enum Wake {
    /// Its time was over.
    Elapsed,
    /// The stop flag was written; this is its value.
    StopFlag(bool),
}

/// What came of an action.
#[derive(Debug)]
pub enum PollEvent {
    Connected,
    NotConnected(ApiError),
    /// The value of the stop flag.
    StopFlag(bool),
    HeartbeatDone(Result<HeartbeatData, ApiError>),
    FetchDone(Result<Option<NextJob>, ApiError>),
    /// A job was printed in so many milliseconds, or not.
    PrintDone(Result<u128, PrinterError>),
    /// The server was told of a job. Whether it heard does not matter.
    AckDone(Result<(), ApiError>),
    Continued,
    SleepDone(Wake),
}

/// What the polling loop asks for.
#[derive(Debug)]
pub enum PollAction {
    /// Set the HTTP client up, for the server at this address and with this token.
    Connect(String, String),
    /// Read the stop flag.
    CheckStop,
    /// Send a heartbeat that tells of this system printer.
    Heartbeat(String),
    FetchNext,
    /// Print this job on this system printer.
    Print(NextJob, String),
    /// Report the job with this identifier as printed, in so many milliseconds.
    AckPrinted(String, u128),
    /// Report the job with this identifier as failed, with this message.
    AckFailed(String, String),
    /// Nothing; step on.
    Continue,
    /// Pause for so many seconds, or until the stop flag is written.
    Sleep(u64),
    Exit,
}

/// What a `PollAction` holds.
pub enum ActionModel {
    Connect(Seq<char>, Seq<char>),
    CheckStop,
    Heartbeat(Seq<char>),
    FetchNext,
    Print(JobModel, Seq<char>),
    AckPrinted(Seq<char>, nat),
    AckFailed(Seq<char>, Seq<char>),
    Continue,
    Sleep(nat),
    Exit,
}

impl View for PollAction {
    type V = ActionModel;

    open spec fn view(&self) -> ActionModel {
        match *self {
            PollAction::Connect(api_url, token) => ActionModel::Connect(api_url@, token@),
            PollAction::CheckStop => ActionModel::CheckStop,
            PollAction::Heartbeat(printer) => ActionModel::Heartbeat(printer@),
            PollAction::FetchNext => ActionModel::FetchNext,
            PollAction::Print(job, printer) => ActionModel::Print(job@, printer@),
            PollAction::AckPrinted(uuid, ms) => ActionModel::AckPrinted(uuid@, ms as nat),
            PollAction::AckFailed(uuid, error) => ActionModel::AckFailed(uuid@, error@),
            PollAction::Continue => ActionModel::Continue,
            PollAction::Sleep(secs) => ActionModel::Sleep(secs as nat),
            PollAction::Exit => ActionModel::Exit,
        }
    }
}

/// The outcome of a step.
#[derive(Debug)]
pub struct Step {
    pub action: PollAction,
    /// Whether the status was brought up to date and is to be shown.
    pub publish: bool,
}

/// The polling loop: the system printer that it prints on, the seconds between two
/// turns, and its phase.
#[derive(Debug)]
pub struct Poller {
    pub printer: String,
    pub interval_secs: u64,
    pub phase: Phase,
}

/// The larger of two numbers.
pub open spec fn larger(a: u64, b: u64) -> u64 {
    if a >= b {
        a
    } else {
        b
    }
}

fn max(a: u64, b: u64) -> (m: u64)
    ensures
        m == larger(a, b),
{
    if a >= b {
        a
    } else {
        b
    }
}

/// The events that a phase waits for.
pub open spec fn awaits(phase: Phase, event: PollEvent) -> bool {
    match phase {
        Phase::Connecting => event is Connected || event is NotConnected,
        Phase::CheckingStop => event is StopFlag,
        Phase::Heartbeating => event is HeartbeatDone,
        Phase::CheckingStopInBurst => event is StopFlag,
        Phase::Fetching => event is FetchDone,
        Phase::Printing(_) => event is PrintDone,
        Phase::AckingPrinted(_, _) => event is AckDone,
        Phase::AckingFailed(_) => event is AckDone,
        Phase::Settling => event is Continued,
        Phase::Sleeping => event is SleepDone,
        Phase::Finished => false,
    }
}

impl Poller {
    /// A loop that pauses for at least a second between two turns.
    pub open spec fn well_formed(self) -> bool {
        self.interval_secs >= 1
    }

    /// The phase that an event leads to.
    pub open spec fn next_phase(self, event: PollEvent) -> Phase {
        match (self.phase, event) {
            (Phase::Connecting, PollEvent::Connected) => Phase::CheckingStop,
            (Phase::CheckingStop, PollEvent::StopFlag(false)) => Phase::Heartbeating,
            (Phase::Heartbeating, PollEvent::HeartbeatDone(Ok(_))) => Phase::CheckingStopInBurst,
            (Phase::Heartbeating, PollEvent::HeartbeatDone(Err(_))) => Phase::Sleeping,
            (Phase::CheckingStopInBurst, PollEvent::StopFlag(false)) => Phase::Fetching,
            (Phase::Fetching, PollEvent::FetchDone(Ok(Some(job)))) => Phase::Printing(job.uuid),
            (Phase::Fetching, PollEvent::FetchDone(Ok(None))) => Phase::Sleeping,
            (Phase::Fetching, PollEvent::FetchDone(Err(_))) => Phase::Settling,
            (Phase::Printing(uuid), PollEvent::PrintDone(Ok(ms))) => Phase::AckingPrinted(uuid, ms),
            (Phase::Printing(_), PollEvent::PrintDone(Err(error))) => Phase::AckingFailed(error),
            (Phase::AckingPrinted(_, _), PollEvent::AckDone(_)) => Phase::CheckingStopInBurst,
            (Phase::AckingFailed(_), PollEvent::AckDone(_)) => Phase::CheckingStopInBurst,
            (Phase::Settling, PollEvent::Continued) => Phase::Sleeping,
            (Phase::Sleeping, PollEvent::SleepDone(Wake::Elapsed)) => Phase::CheckingStop,
            (Phase::Sleeping, PollEvent::SleepDone(Wake::StopFlag(false))) => Phase::CheckingStop,
            _ => Phase::Finished,
        }
    }

    /// The cadence after an event: a heartbeat may change it.
    pub open spec fn next_interval(self, event: PollEvent) -> u64 {
        match (self.phase, event) {
            (Phase::Heartbeating, PollEvent::HeartbeatDone(Ok(data))) => larger(
                data.poll_interval_seconds,
                1,
            ),
            _ => self.interval_secs,
        }
    }

    /// The loop after an event.
    pub open spec fn next(self, event: PollEvent) -> Poller {
        Poller {
            printer: self.printer,
            interval_secs: self.next_interval(event),
            phase: self.next_phase(event),
        }
    }

    /// What the loop asks for after an event.
    pub open spec fn next_action(self, event: PollEvent) -> ActionModel {
        match (self.phase, event) {
            (Phase::Connecting, PollEvent::Connected) => ActionModel::CheckStop,
            (Phase::CheckingStop, PollEvent::StopFlag(false)) => ActionModel::Heartbeat(
                self.printer@,
            ),
            (Phase::Heartbeating, PollEvent::HeartbeatDone(Ok(_))) => ActionModel::CheckStop,
            (Phase::Heartbeating, PollEvent::HeartbeatDone(Err(_))) => ActionModel::Sleep(
                larger(self.interval_secs, BACKOFF_SECS) as nat,
            ),
            (Phase::CheckingStopInBurst, PollEvent::StopFlag(false)) => ActionModel::FetchNext,
            (Phase::Fetching, PollEvent::FetchDone(Ok(Some(job)))) => ActionModel::Print(
                job@,
                self.printer@,
            ),
            (Phase::Fetching, PollEvent::FetchDone(Ok(None))) => ActionModel::Sleep(
                self.interval_secs as nat,
            ),
            (Phase::Fetching, PollEvent::FetchDone(Err(_))) => ActionModel::Continue,
            (Phase::Printing(uuid), PollEvent::PrintDone(Ok(ms))) => ActionModel::AckPrinted(
                uuid@,
                ms as nat,
            ),
            (Phase::Printing(uuid), PollEvent::PrintDone(Err(error))) => ActionModel::AckFailed(
                uuid@,
                error@.message(),
            ),
            (Phase::AckingPrinted(_, _), PollEvent::AckDone(_)) => ActionModel::CheckStop,
            (Phase::AckingFailed(_), PollEvent::AckDone(_)) => ActionModel::CheckStop,
            (Phase::Settling, PollEvent::Continued) => ActionModel::Sleep(
                self.interval_secs as nat,
            ),
            (Phase::Sleeping, PollEvent::SleepDone(Wake::Elapsed)) => ActionModel::CheckStop,
            (Phase::Sleeping, PollEvent::SleepDone(Wake::StopFlag(false))) =>
                ActionModel::CheckStop,
            _ => ActionModel::Exit,
        }
    }

    /// The status after an event that happened at the time `now`.
    pub open spec fn next_status(
        self,
        status: StatusModel,
        event: PollEvent,
        now: Seq<char>,
    ) -> StatusModel {
        match (self.phase, event) {
            (Phase::Connecting, PollEvent::NotConnected(error)) => status.failed(
                "Bad API URL or token: "@ + error@.message(),
                now,
            ),
            (Phase::CheckingStop, PollEvent::StopFlag(true)) => status.stopped(),
            (Phase::Heartbeating, PollEvent::HeartbeatDone(Ok(data))) => status.connected(
                data.name@,
            ),
            (Phase::Heartbeating, PollEvent::HeartbeatDone(Err(error))) => status.failed(
                "Heartbeat: "@ + error@.message(),
                now,
            ),
            (Phase::Fetching, PollEvent::FetchDone(Ok(Some(job)))) => status.printing(
                job.uuid@,
                job.tracking@,
            ),
            (Phase::Fetching, PollEvent::FetchDone(Ok(None))) => status.settled(),
            (Phase::Fetching, PollEvent::FetchDone(Err(error))) => status.failed(
                "Fetch: "@ + error@.message(),
                now,
            ),
            (Phase::AckingPrinted(uuid, ms), PollEvent::AckDone(_)) => status.printed(
                uuid@,
                ms as nat,
                now,
            ),
            (Phase::AckingFailed(error), PollEvent::AckDone(_)) => status.print_failed(
                error@.message(),
                now,
            ),
            (Phase::Settling, PollEvent::Continued) => status.settled(),
            _ => status,
        }
    }

    /// Whether an event brings the status up to date.
    pub open spec fn publishes(self, event: PollEvent) -> bool {
        match (self.phase, event) {
            (Phase::Connecting, PollEvent::NotConnected(_)) => true,
            (Phase::CheckingStop, PollEvent::StopFlag(true)) => true,
            (Phase::Heartbeating, _) => true,
            (Phase::Fetching, _) => true,
            (Phase::AckingPrinted(_, _), _) => true,
            (Phase::AckingFailed(_), _) => true,
            (Phase::Settling, _) => true,
            _ => false,
        }
    }

    /// A status that can count one more job, where the next event ends one.
    pub open spec fn can_count(self, status: StatusModel) -> bool {
        &&& self.phase is AckingPrinted ==> status.jobs_printed < u64::MAX
        &&& self.phase is AckingFailed ==> status.jobs_failed < u64::MAX
    }

    /// Takes up what came of the last action, at the time `now`.
    pub fn step(
        self,
        status: &mut PollerStatus,
        event: PollEvent,
        now: Option<SinceEpoch>,
    ) -> (done: (Poller, Step))
        requires
            awaits(self.phase, event),
            self.can_count(old(status)@),
        ensures
            done.0 == self.next(event),
            done.1.action@ == self.next_action(event),
            done.1.publish == self.publishes(event),
            final(status)@ == self.next_status(old(status)@, event, time_stamp(now)),
            done.0.printer == self.printer,
            !(event matches PollEvent::HeartbeatDone(Ok(_))) ==> done.0.interval_secs
                == self.interval_secs,
            match (self.phase, event) {
                (Phase::Connecting, PollEvent::Connected) => {
                    &&& done.1.action is CheckStop
                    &&& done.0.phase is CheckingStop
                    &&& !done.1.publish
                    &&& *final(status) == *old(status)
                },
                (Phase::Connecting, PollEvent::NotConnected(error)) => {
                    &&& done.1.action is Exit
                    &&& done.0.phase is Finished
                    &&& done.1.publish
                    &&& final(status)@ == old(status)@.failed("Bad API URL or token: "@ + error@.message(), time_stamp(now))
                },
                (Phase::CheckingStop, PollEvent::StopFlag(true)) => {
                    &&& done.1.action is Exit
                    &&& done.0.phase is Finished
                    &&& done.1.publish
                    &&& final(status)@ == old(status)@.stopped()
                },
                (Phase::CheckingStop, PollEvent::StopFlag(false)) => {
                    &&& done.1.action matches PollAction::Heartbeat(printer) && printer@ == self.printer@
                    &&& done.0.phase is Heartbeating
                    &&& !done.1.publish
                    &&& *final(status) == *old(status)
                },
                (Phase::Heartbeating, PollEvent::HeartbeatDone(Ok(data))) => {
                    &&& done.1.action is CheckStop
                    &&& done.0.phase is CheckingStopInBurst
                    &&& done.1.publish
                    &&& final(status)@ == old(status)@.connected(data.name@)
                    &&& data.poll_interval_seconds >= 1 ==> done.0.interval_secs == data.poll_interval_seconds
                    &&& data.poll_interval_seconds == 0 ==> done.0.interval_secs == 1
                },
                (Phase::Heartbeating, PollEvent::HeartbeatDone(Err(error))) => {
                    &&& self.interval_secs >= 10 ==> done.1.action == PollAction::Sleep(self.interval_secs)
                    &&& self.interval_secs < 10 ==> done.1.action == PollAction::Sleep(10)
                    &&& done.0.phase is Sleeping
                    &&& done.1.publish
                    &&& final(status)@ == old(status)@.failed("Heartbeat: "@ + error@.message(), time_stamp(now))
                },
                (Phase::CheckingStopInBurst, PollEvent::StopFlag(true)) => {
                    &&& done.1.action is Exit
                    &&& done.0.phase is Finished
                    &&& !done.1.publish
                    &&& *final(status) == *old(status)
                },
                (Phase::CheckingStopInBurst, PollEvent::StopFlag(false)) => {
                    &&& done.1.action is FetchNext
                    &&& done.0.phase is Fetching
                    &&& !done.1.publish
                    &&& *final(status) == *old(status)
                },
                (Phase::Fetching, PollEvent::FetchDone(Ok(Some(job)))) => {
                    &&& done.1.action matches PollAction::Print(label, printer) && label == job && printer@
                        == self.printer@
                    &&& done.0.phase matches Phase::Printing(uuid) && uuid@ == job.uuid@
                    &&& done.1.publish
                    &&& final(status)@ == old(status)@.printing(job.uuid@, job.tracking@)
                },
                (Phase::Fetching, PollEvent::FetchDone(Ok(None))) => {
                    &&& done.1.action == PollAction::Sleep(self.interval_secs)
                    &&& done.0.phase is Sleeping
                    &&& done.1.publish
                    &&& final(status)@ == old(status)@.settled()
                },
                (Phase::Fetching, PollEvent::FetchDone(Err(error))) => {
                    &&& done.1.action is Continue
                    &&& done.0.phase is Settling
                    &&& done.1.publish
                    &&& final(status)@ == old(status)@.failed("Fetch: "@ + error@.message(), time_stamp(now))
                },
                (Phase::Printing(uuid), PollEvent::PrintDone(Ok(ms))) => {
                    &&& done.1.action matches PollAction::AckPrinted(told, took) && told@ == uuid@ && took == ms
                    &&& done.0.phase matches Phase::AckingPrinted(kept, took) && kept@ == uuid@ && took == ms
                    &&& !done.1.publish
                    &&& *final(status) == *old(status)
                },
                (Phase::Printing(uuid), PollEvent::PrintDone(Err(error))) => {
                    &&& done.1.action matches PollAction::AckFailed(told, why) && told@ == uuid@ && why@
                        == error@.message()
                    &&& done.0.phase == Phase::AckingFailed(error)
                    &&& !done.1.publish
                    &&& *final(status) == *old(status)
                },
                (Phase::AckingPrinted(uuid, ms), PollEvent::AckDone(_)) => {
                    &&& done.1.action is CheckStop
                    &&& done.0.phase is CheckingStopInBurst
                    &&& done.1.publish
                    &&& final(status)@ == old(status)@.printed(uuid@, ms as nat, time_stamp(now))
                },
                (Phase::AckingFailed(error), PollEvent::AckDone(_)) => {
                    &&& done.1.action is CheckStop
                    &&& done.0.phase is CheckingStopInBurst
                    &&& done.1.publish
                    &&& final(status)@ == old(status)@.print_failed(error@.message(), time_stamp(now))
                },
                (Phase::Settling, PollEvent::Continued) => {
                    &&& done.1.action == PollAction::Sleep(self.interval_secs)
                    &&& done.0.phase is Sleeping
                    &&& done.1.publish
                    &&& final(status)@ == old(status)@.settled()
                },
                (Phase::Sleeping, PollEvent::SleepDone(Wake::StopFlag(true))) => {
                    &&& done.1.action is Exit
                    &&& done.0.phase is Finished
                    &&& !done.1.publish
                    &&& *final(status) == *old(status)
                },
                (Phase::Sleeping, PollEvent::SleepDone(_)) => {
                    &&& done.1.action is CheckStop
                    &&& done.0.phase is CheckingStop
                    &&& !done.1.publish
                    &&& *final(status) == *old(status)
                },
                _ => true,
            },
    {
        let Poller { printer, interval_secs, phase } = self;
        match (phase, event) {
            (Phase::Connecting, PollEvent::Connected) => quiet(
                printer,
                interval_secs,
                Phase::CheckingStop,
                PollAction::CheckStop,
            ),
            (Phase::Connecting, PollEvent::NotConnected(error)) => {
                let message = error.message();
                status.failed(
                    "Bad API URL or token: ".to_owned().concat(message.as_str()),
                    now,
                );
                shown(printer, interval_secs, Phase::Finished, PollAction::Exit)
            },
            (Phase::CheckingStop, PollEvent::StopFlag(stop)) => if stop {
                status.stopped();
                shown(printer, interval_secs, Phase::Finished, PollAction::Exit)
            } else {
                let reported = printer.clone();
                quiet(
                    printer,
                    interval_secs,
                    Phase::Heartbeating,
                    PollAction::Heartbeat(reported),
                )
            },
            (Phase::Heartbeating, PollEvent::HeartbeatDone(Ok(data))) => {
                let cadence = max(data.poll_interval_seconds, 1);
                status.connected(data.name);
                shown(printer, cadence, Phase::CheckingStopInBurst, PollAction::CheckStop)
            },
            (Phase::Heartbeating, PollEvent::HeartbeatDone(Err(error))) => {
                let message = error.message();
                status.failed("Heartbeat: ".to_owned().concat(message.as_str()), now);
                let pause = max(interval_secs, BACKOFF_SECS);
                shown(printer, interval_secs, Phase::Sleeping, PollAction::Sleep(pause))
            },
            (Phase::CheckingStopInBurst, PollEvent::StopFlag(stop)) => if stop {
                quiet(printer, interval_secs, Phase::Finished, PollAction::Exit)
            } else {
                quiet(printer, interval_secs, Phase::Fetching, PollAction::FetchNext)
            },
            (Phase::Fetching, PollEvent::FetchDone(Ok(Some(job)))) => {
                status.printing(job.uuid.as_str(), job.tracking.as_str());
                let uuid = job.uuid.clone();
                let target = printer.clone();
                shown(
                    printer,
                    interval_secs,
                    Phase::Printing(uuid),
                    PollAction::Print(job, target),
                )
            },
            (Phase::Fetching, PollEvent::FetchDone(Ok(None))) => {
                status.settled();
                shown(printer, interval_secs, Phase::Sleeping, PollAction::Sleep(interval_secs))
            },
            (Phase::Fetching, PollEvent::FetchDone(Err(error))) => {
                let message = error.message();
                status.failed("Fetch: ".to_owned().concat(message.as_str()), now);
                shown(printer, interval_secs, Phase::Settling, PollAction::Continue)
            },
            (Phase::Printing(uuid), PollEvent::PrintDone(Ok(ms))) => {
                let reported = uuid.clone();
                quiet(
                    printer,
                    interval_secs,
                    Phase::AckingPrinted(uuid, ms),
                    PollAction::AckPrinted(reported, ms),
                )
            },
            (Phase::Printing(uuid), PollEvent::PrintDone(Err(error))) => {
                let message = error.message();
                quiet(
                    printer,
                    interval_secs,
                    Phase::AckingFailed(error),
                    PollAction::AckFailed(uuid, message),
                )
            },
            (Phase::AckingPrinted(uuid, ms), PollEvent::AckDone(_)) => {
                status.printed(uuid.as_str(), ms, now);
                shown(printer, interval_secs, Phase::CheckingStopInBurst, PollAction::CheckStop)
            },
            (Phase::AckingFailed(error), PollEvent::AckDone(_)) => {
                status.print_failed(error.message(), now);
                shown(printer, interval_secs, Phase::CheckingStopInBurst, PollAction::CheckStop)
            },
            (Phase::Settling, PollEvent::Continued) => {
                status.settled();
                shown(printer, interval_secs, Phase::Sleeping, PollAction::Sleep(interval_secs))
            },
            (Phase::Sleeping, PollEvent::SleepDone(wake)) => if sleep_with_stop(wake) {
                quiet(printer, interval_secs, Phase::CheckingStop, PollAction::CheckStop)
            } else {
                quiet(printer, interval_secs, Phase::Finished, PollAction::Exit)
            },
            _ => quiet(printer, interval_secs, Phase::Finished, PollAction::Exit),
        }
    }
}

/// A step that leaves the status alone.
fn quiet(printer: String, interval_secs: u64, phase: Phase, action: PollAction) -> (done: (
    Poller,
    Step,
))
    ensures
        done.0 == (Poller { printer, interval_secs, phase }),
        done.1.action == action,
        !done.1.publish,
{
    (Poller { printer, interval_secs, phase }, Step { action, publish: false })
}

/// A step that has brought the status up to date.
fn shown(printer: String, interval_secs: u64, phase: Phase, action: PollAction) -> (done: (
    Poller,
    Step,
))
    ensures
        done.0 == (Poller { printer, interval_secs, phase }),
        done.1.action == action,
        done.1.publish,
{
    (Poller { printer, interval_secs, phase }, Step { action, publish: true })
}

/// Whether the loop goes on after a pause: unless it was told to stop.
pub fn sleep_with_stop(wake: Wake) -> (go_on: bool)
    ensures
        go_on <==> wake != Wake::StopFlag(true),
{
    match wake {
        Wake::Elapsed => true,
        Wake::StopFlag(stop) => !stop,
    }
}

/// A polling loop for the given settings, about to start.
pub open spec fn fresh(config: AgentConfig) -> Poller {
    Poller {
        printer: config.system_printer,
        interval_secs: larger(config.poll_interval, 1),
        phase: Phase::Connecting,
    }
}

/// A polling loop for the given settings, about to start, and its first action.
pub fn spawn(config: &AgentConfig) -> (start: (Poller, PollAction))
    ensures
        start.0 == fresh(*config),
        start.0.well_formed(),
        start.1@ == ActionModel::Connect(config.api_url@, config.printer_token@),
        start.0.printer@ == config.system_printer@,
        config.poll_interval >= 1 ==> start.0.interval_secs == config.poll_interval,
        config.poll_interval == 0 ==> start.0.interval_secs == 1,
        start.0.phase is Connecting,
        start.1 matches PollAction::Connect(api_url, token) && api_url@ == config.api_url@ && token@
            == config.printer_token@,
{
    let poller = Poller {
        printer: config.system_printer.clone(),
        interval_secs: max(config.poll_interval, 1),
        phase: Phase::Connecting,
    };
    (poller, PollAction::Connect(config.api_url.clone(), config.printer_token.clone()))
}

// ---------------------------------------------------------------------------
// Single steps
// ---------------------------------------------------------------------------

/// Whatever can come of an action is taken up: setting the client up works out or does
/// not, a flag has either value, a call gives a result or an error, and a pause ends in
/// either way.
pub proof fn law_every_outcome_is_taken_up(phase: Phase, event: PollEvent)
    ensures
        phase is Connecting && (event is Connected || event is NotConnected) ==> awaits(
            phase,
            event,
        ),
        (phase is CheckingStop || phase is CheckingStopInBurst) && event is StopFlag ==> awaits(
            phase,
            event,
        ),
        phase is Heartbeating && event is HeartbeatDone ==> awaits(phase, event),
        phase is Fetching && event is FetchDone ==> awaits(phase, event),
        phase is Printing && event is PrintDone ==> awaits(phase, event),
        (phase is AckingPrinted || phase is AckingFailed) && event is AckDone ==> awaits(
            phase,
            event,
        ),
        phase is Settling && event is Continued ==> awaits(phase, event),
        phase is Sleeping && event is SleepDone ==> awaits(phase, event),
{
}

/// A status can count on as long as neither of its counters is full.
pub proof fn law_jobs_can_be_counted(poller: Poller, status: StatusModel)
    requires
        status.jobs_printed < u64::MAX,
        status.jobs_failed < u64::MAX,
    ensures
        poller.can_count(status),
{
}

/// An action is what it asks for: what it names, it names whole.
pub proof fn law_action_is_what_it_asks_for(action: PollAction)
    ensures
        match action {
            PollAction::Connect(api_url, token) => action@ == ActionModel::Connect(
                api_url@,
                token@,
            ),
            PollAction::CheckStop => action@ is CheckStop,
            PollAction::Heartbeat(printer) => action@ == ActionModel::Heartbeat(printer@),
            PollAction::FetchNext => action@ is FetchNext,
            PollAction::Print(job, printer) => {
                &&& action@ is Print
                &&& action@->Print_0.uuid == job.uuid@
                &&& action@->Print_0.format == job.format@
                &&& action@->Print_0.tracking == job.tracking@
                &&& action@->Print_0.bytes == job.bytes@
                &&& action@->Print_1 == printer@
            },
            PollAction::AckPrinted(uuid, ms) => action@ == ActionModel::AckPrinted(
                uuid@,
                ms as nat,
            ),
            PollAction::AckFailed(uuid, error) => action@ == ActionModel::AckFailed(
                uuid@,
                error@,
            ),
            PollAction::Continue => action@ is Continue,
            PollAction::Sleep(secs) => action@ == ActionModel::Sleep(secs as nat),
            PollAction::Exit => action@ is Exit,
        },
{
}

/// The status changes only in steps that are shown.
pub proof fn law_changes_are_shown(
    poller: Poller,
    status: StatusModel,
    event: PollEvent,
    now: Seq<char>,
)
    requires
        awaits(poller.phase, event),
    ensures
        !poller.publishes(event) ==> poller.next_status(status, event, now) == status,
{
}

/// Every pause lasts at least a second, and at least ten after a heartbeat that
/// failed.
pub proof fn law_pauses_are_long_enough(poller: Poller, event: PollEvent)
    requires
        poller.well_formed(),
        awaits(poller.phase, event),
    ensures
        poller.next(event).well_formed(),
        poller.next_action(event) matches ActionModel::Sleep(secs) ==> {
            &&& secs >= 1
            &&& event is HeartbeatDone ==> secs >= 10
            &&& secs >= poller.interval_secs
        },
{
}

/// The server sets the cadence with each heartbeat that it answers, to a second
/// at least; nothing else changes it, and the pause after a burst keeps to it.
pub proof fn law_server_sets_the_cadence(poller: Poller, event: PollEvent)
    requires
        awaits(poller.phase, event),
    ensures
        match event {
            PollEvent::HeartbeatDone(Ok(data)) => poller.next(event).interval_secs == (
            if data.poll_interval_seconds >= 1 {
                data.poll_interval_seconds
            } else {
                1
            }),
            _ => poller.next(event).interval_secs == poller.interval_secs,
        },
        !(event is HeartbeatDone) && poller.next_action(event) is Sleep
            ==> poller.next_action(event) == ActionModel::Sleep(poller.interval_secs as nat),
{
}

/// Told to stop, the loop ends at once, wherever it was asked; then it waits for
/// nothing more.
pub proof fn law_stop_ends_the_loop(poller: Poller, event: PollEvent, later: PollEvent)
    requires
        awaits(poller.phase, event),
        event == PollEvent::StopFlag(true) || event == PollEvent::SleepDone(Wake::StopFlag(true)),
    ensures
        poller.next_action(event) == ActionModel::Exit,
        poller.next(event).phase == Phase::Finished,
        !awaits(poller.next(event).phase, later),
{
}

/// Only a stop ends a loop that has connected. No failing heartbeat, claim, print
/// or acknowledgement does.
pub proof fn law_errors_do_not_end_the_loop(poller: Poller, event: PollEvent)
    requires
        awaits(poller.phase, event),
    ensures
        poller.next(event).phase == Phase::Finished <==> {
            ||| event == PollEvent::StopFlag(true)
            ||| event == PollEvent::SleepDone(Wake::StopFlag(true))
            ||| event is NotConnected
        },
        poller.next_action(event) == ActionModel::Exit <==> poller.next(event).phase
            == Phase::Finished,
{
}

/// A claimed job is printed on the loop's printer and then reported under its own
/// identifier: as printed with the time it took, or as failed with the message of
/// its error.
pub proof fn law_job_is_printed_and_reported(
    poller: Poller,
    job: NextJob,
    result: Result<u128, PrinterError>,
    heard: Result<(), ApiError>,
)
    requires
        poller.phase == Phase::Fetching,
    ensures
        ({
            let claimed = PollEvent::FetchDone(Ok(Some(job)));
            let printed = PollEvent::PrintDone(result);
            let printing = poller.next(claimed);
            let reporting = printing.next(printed);
            &&& poller.next_action(claimed) == ActionModel::Print(job@, poller.printer@)
            &&& awaits(printing.phase, printed)
            &&& printing.next_action(printed) == (match result {
                Ok(ms) => ActionModel::AckPrinted(job.uuid@, ms as nat),
                Err(error) => ActionModel::AckFailed(job.uuid@, error@.message()),
            })
            &&& awaits(reporting.phase, PollEvent::AckDone(heard))
        }),
{
}

/// The loop prints what it has claimed and nothing else, and reports a job only
/// once it has been printed or has failed.
pub proof fn law_nothing_else_is_printed_or_reported(poller: Poller, event: PollEvent)
    requires
        awaits(poller.phase, event),
    ensures
        poller.next_action(event) is Print <==> (event matches PollEvent::FetchDone(Ok(Some(_)))),
        poller.next_action(event) is AckPrinted <==> (event matches PollEvent::PrintDone(Ok(_))),
        poller.next_action(event) is AckFailed <==> (event matches PollEvent::PrintDone(Err(_))),
{
}

/// Jobs are worked off without a pause between them: after a report, whether it was
/// heard or not, the next job is claimed, unless the loop is to stop.
pub proof fn law_bursts_have_no_pauses(poller: Poller, heard: Result<(), ApiError>)
    requires
        poller.phase is AckingPrinted || poller.phase is AckingFailed,
    ensures
        ({
            let reported = poller.next(PollEvent::AckDone(heard));
            &&& poller.next_action(PollEvent::AckDone(heard)) == ActionModel::CheckStop
            &&& awaits(reported.phase, PollEvent::StopFlag(false))
            &&& reported.next_action(PollEvent::StopFlag(false)) == ActionModel::FetchNext
        }),
{
}

/// Every error is put on show, with its message and its time.
pub proof fn law_errors_are_put_on_show(
    poller: Poller,
    status: StatusModel,
    event: PollEvent,
    now: Seq<char>,
)
    requires
        awaits(poller.phase, event),
        match event {
            PollEvent::NotConnected(_) => true,
            PollEvent::HeartbeatDone(result) => result is Err,
            PollEvent::FetchDone(result) => result is Err,
            PollEvent::AckDone(_) => poller.phase is AckingFailed,
            _ => false,
        },
    ensures
        ({
            let after = poller.next_status(status, event, now);
            &&& poller.publishes(event)
            &&& after.state == "error"@
            &&& after.last_error_at == Some(now)
            &&& after.last_message == Some(
                match event {
                    PollEvent::NotConnected(error) => "Bad API URL or token: "@ + error@.message(),
                    PollEvent::HeartbeatDone(Err(error)) => "Heartbeat: "@ + error@.message(),
                    PollEvent::FetchDone(Err(error)) => "Fetch: "@ + error@.message(),
                    _ => "Print failed: "@ + poller.phase->AckingFailed_0@.message(),
                },
            )
        }),
{
}

/// What the message of a failed heartbeat starts with, such as the status of a
/// refusal, is put on show at the start of the status message.
pub proof fn law_heartbeat_refusal_is_told(
    poller: Poller,
    status: StatusModel,
    error: ApiError,
    start: Seq<char>,
    now: Seq<char>,
)
    requires
        poller.phase == Phase::Heartbeating,
        start.is_prefix_of(error@.message()),
    ensures
        ({
            let event = PollEvent::HeartbeatDone(Err(error));
            let shown = poller.next_status(status, event, now);
            &&& shown.state == "error"@
            &&& shown.last_message is Some
            &&& ("Heartbeat: "@ + start).is_prefix_of(shown.last_message->0)
        }),
{
    let whole = "Heartbeat: "@ + error@.message();
    let told = "Heartbeat: "@ + start;
    assert(error@.message().subrange(0, start.len() as int) == start);
    assert(whole.subrange(0, told.len() as int) == told);
}

// ---------------------------------------------------------------------------
// Runs of the loop
// ---------------------------------------------------------------------------

/// The loop after a run of events.
pub open spec fn after(poller: Poller, run: Seq<PollEvent>) -> Poller
    decreases run.len(),
{
    if run.len() == 0 {
        poller
    } else {
        after(poller, run.drop_last()).next(run.last())
    }
}

/// A run in which everything that happens was awaited.
pub open spec fn possible(poller: Poller, run: Seq<PollEvent>) -> bool
    decreases run.len(),
{
    run.len() == 0 || {
        &&& possible(poller, run.drop_last())
        &&& awaits(after(poller, run.drop_last()).phase, run.last())
    }
}

/// The status after a run of events that happened at the given times.
pub open spec fn status_after(
    poller: Poller,
    status: StatusModel,
    run: Seq<PollEvent>,
    times: Seq<Seq<char>>,
) -> StatusModel
    decreases run.len(),
{
    if run.len() == 0 {
        status
    } else {
        after(poller, run.drop_last()).next_status(
            status_after(poller, status, run.drop_last(), times),
            run.last(),
            times[run.len() - 1],
        )
    }
}

/// What the loop asks for in the course of a run, in its order.
pub open spec fn actions(poller: Poller, run: Seq<PollEvent>) -> Seq<ActionModel>
    decreases run.len(),
{
    if run.len() == 0 {
        seq![]
    } else {
        actions(poller, run.drop_last()).push(
            after(poller, run.drop_last()).next_action(run.last()),
        )
    }
}

/// How many jobs were claimed in a run.
pub open spec fn claimed(run: Seq<PollEvent>) -> nat
    decreases run.len(),
{
    if run.len() == 0 {
        0
    } else {
        claimed(run.drop_last()) + (match run.last() {
            PollEvent::FetchDone(Ok(Some(_))) => 1nat,
            _ => 0nat,
        })
    }
}

/// How many jobs were printed in a run.
pub open spec fn printed(run: Seq<PollEvent>) -> nat
    decreases run.len(),
{
    if run.len() == 0 {
        0
    } else {
        printed(run.drop_last()) + (match run.last() {
            PollEvent::PrintDone(Ok(_)) => 1nat,
            _ => 0nat,
        })
    }
}

/// How many jobs failed in a run.
pub open spec fn failed(run: Seq<PollEvent>) -> nat
    decreases run.len(),
{
    if run.len() == 0 {
        0
    } else {
        failed(run.drop_last()) + (match run.last() {
            PollEvent::PrintDone(Err(_)) => 1nat,
            _ => 0nat,
        })
    }
}

/// One where a condition holds, else zero.
pub open spec fn one_if(holds: bool) -> nat {
    if holds {
        1
    } else {
        0
    }
}

/// A loop that has a job in its hands.
pub open spec fn has_job(phase: Phase) -> bool {
    phase is Printing || phase is AckingPrinted || phase is AckingFailed
}

/// No claimed job is lost: whatever happens, each one has been printed or has
/// failed, but for the one being printed. And the status counts right: it has
/// counted every printed and every failed job, but for the one being reported.
pub proof fn law_every_job_is_accounted_for(
    poller: Poller,
    status: StatusModel,
    run: Seq<PollEvent>,
    times: Seq<Seq<char>>,
)
    requires
        !has_job(poller.phase),
        possible(poller, run),
    ensures
        ({
            let phase = after(poller, run).phase;
            let end = status_after(poller, status, run, times);
            &&& claimed(run) == printed(run) + failed(run) + one_if(phase is Printing)
            &&& status.jobs_printed + printed(run) == end.jobs_printed + one_if(
                phase is AckingPrinted,
            )
            &&& status.jobs_failed + failed(run) == end.jobs_failed + one_if(
                phase is AckingFailed,
            )
        }),
    decreases run.len(),
{
    if run.len() > 0 {
        law_every_job_is_accounted_for(poller, status, run.drop_last(), times);
    }
}

/// In every run the status stays in one of its six states and the pauses keep
/// their least length.
pub proof fn law_runs_stay_sound(
    poller: Poller,
    status: StatusModel,
    run: Seq<PollEvent>,
    times: Seq<Seq<char>>,
)
    requires
        poller.well_formed(),
        known_state(status.state),
        possible(poller, run),
    ensures
        after(poller, run).well_formed(),
        known_state(status_after(poller, status, run, times).state),
    decreases run.len(),
{
    if run.len() > 0 {
        law_runs_stay_sound(poller, status, run.drop_last(), times);
    }
}

/// In every run the parts of the status stay together: an error on show has a message
/// and a time, there is a time of the last print exactly where a job has been printed,
/// and a time of the last error where one has failed.
pub proof fn law_runs_keep_the_status_coherent(
    poller: Poller,
    status: StatusModel,
    run: Seq<PollEvent>,
    times: Seq<Seq<char>>,
)
    requires
        status.coherent(),
        possible(poller, run),
    ensures
        status_after(poller, status, run, times).coherent(),
    decreases run.len(),
{
    if run.len() > 0 {
        let front = run.drop_last();
        law_runs_keep_the_status_coherent(poller, status, front, times);
        let before = status_after(poller, status, front, times);
        let now = times[run.len() - 1];
        match (after(poller, front).phase, run.last()) {
            (Phase::Connecting, PollEvent::NotConnected(error)) => {
                law_changes_keep_the_status_coherent(
                    before,
                    "Bad API URL or token: "@ + error@.message(),
                    now,
                    0,
                );
            },
            (Phase::Heartbeating, PollEvent::HeartbeatDone(Ok(data))) => {
                law_changes_keep_the_status_coherent(before, data.name@, now, 0);
            },
            (Phase::Fetching, PollEvent::FetchDone(Ok(Some(job)))) => {
                law_changes_keep_the_status_coherent(before, job.uuid@, job.tracking@, 0);
            },
            (Phase::AckingPrinted(uuid, ms), _) => {
                law_changes_keep_the_status_coherent(before, uuid@, now, ms as nat);
            },
            (Phase::AckingFailed(error), _) => {
                law_changes_keep_the_status_coherent(before, error@.message(), now, 0);
            },
            _ => {
                law_changes_keep_the_status_coherent(before, seq![], now, 0);
            },
        }
    }
}

/// A run in which the stop flag, wherever it is read, is set.
pub open spec fn told_to_stop(run: Seq<PollEvent>) -> bool {
    forall|i: int|
        0 <= i < run.len() ==> #[trigger] run[i] != PollEvent::StopFlag(false) && run[i]
            != PollEvent::SleepDone(Wake::StopFlag(false))
}

/// How many events a loop that was told to stop still takes up, at most.
pub open spec fn events_left(phase: Phase) -> nat {
    match phase {
        Phase::Connecting => 2,
        Phase::CheckingStop => 1,
        Phase::Heartbeating => 3,
        Phase::CheckingStopInBurst => 1,
        Phase::Fetching => 4,
        Phase::Printing(_) => 3,
        Phase::AckingPrinted(_, _) => 2,
        Phase::AckingFailed(_) => 2,
        Phase::Settling => 3,
        Phase::Sleeping => 2,
        Phase::Finished => 0,
    }
}

/// Once it was told to stop, the loop brings to an end what it is doing and starts
/// nothing new: it takes up four events at most, and asks for no heartbeat and for no
/// other job.
pub proof fn law_nothing_new_is_started_after_a_stop(poller: Poller, run: Seq<PollEvent>)
    requires
        possible(poller, run),
        told_to_stop(run),
    ensures
        run.len() <= 4,
        run.len() + events_left(after(poller, run).phase) <= events_left(poller.phase),
        forall|i: int|
            0 <= i < actions(poller, run).len() ==> !(#[trigger] actions(poller, run)[i]
                is Heartbeat) && !(actions(poller, run)[i] is FetchNext),
    decreases run.len(),
{
    if run.len() > 0 {
        let front = run.drop_last();
        assert forall|i: int| 0 <= i < front.len() implies #[trigger] front[i]
            != PollEvent::StopFlag(false) && front[i] != PollEvent::SleepDone(
            Wake::StopFlag(false),
        ) by {
            assert(front[i] == run[i]);
        }
        law_nothing_new_is_started_after_a_stop(poller, front);
        assert(run.last() == run[run.len() - 1]);
        let before = actions(poller, front);
        assert forall|i: int| 0 <= i < actions(poller, run).len() implies !(#[trigger] actions(
            poller,
            run,
        )[i] is Heartbeat) && !(actions(poller, run)[i] is FetchNext) by {
            if i < before.len() {
                assert(actions(poller, run)[i] == before[i]);
            }
        }
    }
}

/// A loop that is working off the queue.
pub open spec fn in_burst(phase: Phase) -> bool {
    phase is CheckingStopInBurst || phase is Fetching || has_job(phase) || phase is Settling
}

/// Whether the last heartbeat of a run was answered, with no pause since.
pub open spec fn answered(run: Seq<PollEvent>) -> bool
    decreases run.len(),
{
    run.len() > 0 && match run.last() {
        PollEvent::HeartbeatDone(result) => result is Ok,
        PollEvent::SleepDone(_) => false,
        _ => answered(run.drop_last()),
    }
}

/// The queue is touched only after a heartbeat that the server has answered, in
/// each turn of the loop anew.
pub proof fn law_jobs_are_claimed_after_a_heartbeat(poller: Poller, run: Seq<PollEvent>)
    requires
        !in_burst(poller.phase),
        possible(poller, run),
    ensures
        in_burst(after(poller, run).phase) ==> answered(run),
    decreases run.len(),
{
    if run.len() > 0 {
        law_jobs_are_claimed_after_a_heartbeat(poller, run.drop_last());
    }
}

/// How many heartbeats were sent in a run.
pub open spec fn heartbeats(run: Seq<PollEvent>) -> nat
    decreases run.len(),
{
    if run.len() == 0 {
        0
    } else {
        heartbeats(run.drop_last()) + one_if(run.last() is HeartbeatDone)
    }
}

/// How many pauses were made in a run.
pub open spec fn pauses(run: Seq<PollEvent>) -> nat
    decreases run.len(),
{
    if run.len() == 0 {
        0
    } else {
        pauses(run.drop_last()) + one_if(run.last() is SleepDone)
    }
}

/// The server is not flooded: there is a pause between any two heartbeats.
pub proof fn law_heartbeats_are_spaced_by_pauses(poller: Poller, run: Seq<PollEvent>)
    requires
        possible(poller, run),
    ensures
        ({
            let phase = after(poller, run).phase;
            let ahead = one_if(
                phase is Connecting || phase is CheckingStop || phase is Heartbeating,
            );
            heartbeats(run) + ahead <= pauses(run) + 1
        }),
    decreases run.len(),
{
    if run.len() > 0 {
        law_heartbeats_are_spaced_by_pauses(poller, run.drop_last());
    }
}

/// The printer of a loop is that of the settings it was started with, however long
/// it has run: every heartbeat tells of it, and every job is printed on it.
pub proof fn law_loop_keeps_to_its_printer(
    config: AgentConfig,
    run: Seq<PollEvent>,
    event: PollEvent,
)
    ensures
        after(fresh(config), run).printer == config.system_printer,
        after(fresh(config), run).next_action(event) matches ActionModel::Heartbeat(printer)
            ==> printer == config.system_printer@,
        after(fresh(config), run).next_action(event) matches ActionModel::Print(_, printer)
            ==> printer == config.system_printer@,
    decreases run.len(),
{
    if run.len() > 0 {
        law_loop_keeps_to_its_printer(config, run.drop_last(), event);
    }
}

// ---------------------------------------------------------------------------
// Bursts
// ---------------------------------------------------------------------------

/// A job, what printing it came to, and whether the server heard the report.
pub struct Work {
    pub job: NextJob,
    pub result: Result<u128, PrinterError>,
    pub heard: Result<(), ApiError>,
}

impl Work {
    /// What happens to the loop while it works off the job.
    pub open spec fn events(self) -> Seq<PollEvent> {
        seq![
            PollEvent::StopFlag(false),
            PollEvent::FetchDone(Ok(Some(self.job))),
            PollEvent::PrintDone(self.result),
            PollEvent::AckDone(self.heard),
        ]
    }

    /// How the job is reported.
    pub open spec fn report(self) -> ActionModel {
        match self.result {
            Ok(ms) => ActionModel::AckPrinted(self.job.uuid@, ms as nat),
            Err(error) => ActionModel::AckFailed(self.job.uuid@, error@.message()),
        }
    }

    /// What a loop asks for while it works off the job on the given printer.
    pub open spec fn actions(self, printer: Seq<char>) -> Seq<ActionModel> {
        seq![
            ActionModel::FetchNext,
            ActionModel::Print(self.job@, printer),
            self.report(),
            ActionModel::CheckStop,
        ]
    }
}

/// What happens to the loop while it works off some jobs.
pub open spec fn burst_events(works: Seq<Work>) -> Seq<PollEvent>
    decreases works.len(),
{
    if works.len() == 0 {
        seq![]
    } else {
        burst_events(works.drop_last()) + works.last().events()
    }
}

/// What a loop asks for while it works off some jobs on the given printer: for each
/// of them, in their order, to claim it, to print it and to report it.
pub open spec fn burst_actions(works: Seq<Work>, printer: Seq<char>) -> Seq<ActionModel>
    decreases works.len(),
{
    if works.len() == 0 {
        seq![]
    } else {
        burst_actions(works.drop_last(), printer) + works.last().actions(printer)
    }
}

/// A run can be cut in two anywhere.
proof fn lemma_runs_join(poller: Poller, a: Seq<PollEvent>, b: Seq<PollEvent>)
    ensures
        after(poller, a + b) == after(after(poller, a), b),
        possible(poller, a + b) <==> possible(poller, a) && possible(after(poller, a), b),
        actions(poller, a + b) == actions(poller, a) + actions(after(poller, a), b),
    decreases b.len(),
{
    if b.len() == 0 {
        assert(a + b == a);
    } else {
        lemma_runs_join(poller, a, b.drop_last());
        assert((a + b).drop_last() == a + b.drop_last());
        assert((a + b).last() == b.last());
    }
}

/// One job is worked off.
proof fn lemma_work(poller: Poller, work: Work)
    requires
        poller.phase == Phase::CheckingStopInBurst,
    ensures
        possible(poller, work.events()),
        after(poller, work.events()) == poller,
        actions(poller, work.events()) == work.actions(poller.printer@),
{
    let run = work.events();
    reveal_with_fuel(after, 5);
    reveal_with_fuel(possible, 5);
    reveal_with_fuel(actions, 5);
    assert(run.drop_last() == run.take(3));
    assert(run.take(3).drop_last() == run.take(2));
    assert(run.take(2).drop_last() == run.take(1));
    assert(run.take(1).drop_last() == Seq::<PollEvent>::empty());
    assert(actions(poller, run) == work.actions(poller.printer@));
}

/// Some jobs are worked off.
proof fn lemma_burst(poller: Poller, works: Seq<Work>)
    requires
        poller.phase == Phase::CheckingStopInBurst,
    ensures
        possible(poller, burst_events(works)),
        after(poller, burst_events(works)) == poller,
        actions(poller, burst_events(works)) == burst_actions(works, poller.printer@),
    decreases works.len(),
{
    if works.len() > 0 {
        lemma_burst(poller, works.drop_last());
        lemma_work(poller, works.last());
        lemma_runs_join(poller, burst_events(works.drop_last()), works.last().events());
    }
}

/// After every heartbeat that is answered, the queue is worked off: for each job
/// that comes, in the order in which they come, the loop asks to claim it, to print
/// its bytes in its format on the printer of the settings, and to report it, once,
/// as printed or as failed; and for nothing else, but to look whether it is to stop.
/// Neither a failed print nor an unheard report ends this. It ends when no job comes.
pub proof fn law_bursts_print_and_report_every_job(
    config: AgentConfig,
    earlier: Seq<PollEvent>,
    data: HeartbeatData,
    works: Seq<Work>,
    end: Result<Option<NextJob>, ApiError>,
)
    requires
        possible(fresh(config), earlier),
        after(fresh(config), earlier).phase == Phase::Heartbeating,
        !(end matches Ok(Some(_))),
    ensures
        ({
            let poller = after(fresh(config), earlier);
            let run = seq![PollEvent::HeartbeatDone(Ok(data))] + burst_events(works) + seq![
                PollEvent::StopFlag(false),
                PollEvent::FetchDone(end),
            ];
            &&& possible(poller, run)
            &&& actions(poller, run) == seq![ActionModel::CheckStop] + burst_actions(
                works,
                config.system_printer@,
            ) + seq![
                ActionModel::FetchNext,
                match end {
                    Ok(_) => ActionModel::Sleep(larger(data.poll_interval_seconds, 1) as nat),
                    Err(_) => ActionModel::Continue,
                },
            ]
            &&& after(poller, run).phase == (match end {
                Ok(_) => Phase::Sleeping,
                Err(_) => Phase::Settling,
            })
        }),
{
    let poller = after(fresh(config), earlier);
    law_loop_keeps_to_its_printer(config, earlier, PollEvent::HeartbeatDone(Ok(data)));
    let start = seq![PollEvent::HeartbeatDone(Ok(data))];
    let stop = seq![PollEvent::StopFlag(false), PollEvent::FetchDone(end)];
    let burst = burst_events(works);
    reveal_with_fuel(after, 3);
    reveal_with_fuel(possible, 3);
    reveal_with_fuel(actions, 3);
    assert(start.drop_last() == Seq::<PollEvent>::empty());
    assert(stop.drop_last() == seq![PollEvent::StopFlag(false)]);
    assert(stop.drop_last().drop_last() == Seq::<PollEvent>::empty());
    let working = after(poller, start);
    lemma_burst(working, works);
    lemma_runs_join(poller, start, burst);
    lemma_runs_join(poller, start + burst, stop);
}

} // verus!
