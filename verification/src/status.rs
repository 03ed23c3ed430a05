//! The live status that the setup window shows: what the agent is doing, its last
//! message, and how many labels it has printed.

use vstd::prelude::*;
use vstd::string::StringExecFns;

use crate::text::at_most;
use crate::text::decimal;
use crate::text::decimal_text;
use crate::text::first_chars;
use crate::text::padded_to_three;
use crate::text::same_text;
use crate::text::three_digits;

verus! {

/// The live status of the agent.
#[derive(Debug)]
pub struct PollerStatus {
    /// `idle`, `polling`, `printing`, `error`, `unconfigured` or `stopped`.
    pub state: String,
    pub last_message: Option<String>,
    pub last_printed_at: Option<String>,
    pub last_error_at: Option<String>,
    pub jobs_printed: u64,
    pub jobs_failed: u64,
    /// The friendly name that the server told with the last heartbeat.
    pub printer_name: Option<String>,
}

/// What a `PollerStatus` holds.
pub struct StatusModel {
    pub state: Seq<char>,
    pub last_message: Option<Seq<char>>,
    pub last_printed_at: Option<Seq<char>>,
    pub last_error_at: Option<Seq<char>>,
    pub jobs_printed: nat,
    pub jobs_failed: nat,
    pub printer_name: Option<Seq<char>>,
}

impl View for PollerStatus {
    type V = StatusModel;

    open spec fn view(&self) -> StatusModel {
        StatusModel {
            state: self.state@,
            last_message: self.last_message.deep_view(),
            last_printed_at: self.last_printed_at.deep_view(),
            last_error_at: self.last_error_at.deep_view(),
            jobs_printed: self.jobs_printed as nat,
            jobs_failed: self.jobs_failed as nat,
            printer_name: self.printer_name.deep_view(),
        }
    }
}

impl Default for PollerStatus {
    fn default() -> (status: PollerStatus)
        ensures
            status@ == (StatusModel {
                state: "unconfigured"@,
                last_message: None,
                last_printed_at: None,
                last_error_at: None,
                jobs_printed: 0,
                jobs_failed: 0,
                printer_name: None,
            }),
            known_state(status@.state),
            status@.coherent(),
            status.state@ == "unconfigured"@,
            status.last_message is None,
            status.last_printed_at is None,
            status.last_error_at is None,
            status.jobs_printed == 0,
            status.jobs_failed == 0,
            status.printer_name is None,
    {
        proof {
            reveal_strlit("unconfigured");
            reveal_strlit("error");
            assert("unconfigured"@.len() != "error"@.len());
        }
        PollerStatus {
            state: "unconfigured".to_owned(),
            last_message: None,
            last_printed_at: None,
            last_error_at: None,
            jobs_printed: 0,
            jobs_failed: 0,
            printer_name: None,
        }
    }
}

fn copy_of(text: &Option<String>) -> (copy: Option<String>)
    ensures
        copy == *text,
{
    match text {
        Some(text) => Some(text.clone()),
        None => None,
    }
}

impl Clone for PollerStatus {
    fn clone(&self) -> (copy: PollerStatus)
        ensures
            copy == *self,
    {
        PollerStatus {
            state: self.state.clone(),
            last_message: copy_of(&self.last_message),
            last_printed_at: copy_of(&self.last_printed_at),
            last_error_at: copy_of(&self.last_error_at),
            jobs_printed: self.jobs_printed,
            jobs_failed: self.jobs_failed,
            printer_name: copy_of(&self.printer_name),
        }
    }
}

// ---------------------------------------------------------------------------
// Time stamps
// ---------------------------------------------------------------------------

/// A reading of the system clock: the time since the Unix epoch.
#[derive(Debug, Clone, Copy, PartialEq, Eq, Structural)]
pub struct SinceEpoch {
    pub secs: u64,
    pub millis: u32,
}

/// How a reading of the clock is shown. A clock that stands before the epoch
/// counts as standing at it.
pub open spec fn time_stamp(now: Option<SinceEpoch>) -> Seq<char> {
    let (secs, millis) = match now {
        Some(time) => (time.secs as nat, time.millis as nat),
        None => (0nat, 0nat),
    };
    decimal(secs) + "."@ + padded_to_three(decimal(millis)) + "Z"@
}

/// Shows a reading of the clock, seconds and milliseconds: `1700000000.042Z`.
/// `None` stands for a clock before the epoch.
pub fn now_iso(now: Option<SinceEpoch>) -> (stamp: String)
    ensures
        stamp@ == time_stamp(now),
        match now {
            Some(time) => stamp@ == decimal(time.secs as nat) + "."@ + padded_to_three(
                decimal(time.millis as nat),
            ) + "Z"@,
            None => stamp@ == "0.000Z"@,
        },
{
    proof {
        lemma_epoch_is_shown_as_zero();
    }
    let (secs, millis): (u64, u32) = match now {
        Some(time) => (time.secs, time.millis),
        None => (0, 0),
    };
    let fraction = three_digits(millis);
    decimal_text(secs as u128).concat(".").concat(fraction.as_str()).concat("Z")
}

proof fn lemma_epoch_is_shown_as_zero()
    ensures
        decimal(0) + "."@ + padded_to_three(decimal(0)) + "Z"@ == "0.000Z"@,
{
    reveal_strlit(".");
    reveal_strlit("Z");
    reveal_strlit("0.000Z");
    crate::text::law_zeros_fill_up_to_three(decimal(0));
    crate::text::law_decimal_has_place_values(0, 0);
    assert(decimal(0) == seq!['0']);
    assert(padded_to_three(decimal(0)) == seq!['0', '0', '0']);
    assert(decimal(0) + "."@ + padded_to_three(decimal(0)) + "Z"@ == "0.000Z"@);
}

/// The milliseconds of a time stamp always take three digits.
pub proof fn law_milliseconds_take_three_digits(millis: nat)
    requires
        millis < 1000,
    ensures
        padded_to_three(decimal(millis)).len() == 3,
{
    reveal_with_fuel(decimal, 4);
    reveal_with_fuel(padded_to_three, 4);
}

// ---------------------------------------------------------------------------
// Changes of the status
// ---------------------------------------------------------------------------

/// The states that a status can be in.
pub open spec fn known_state(state: Seq<char>) -> bool {
    ||| state == "idle"@
    ||| state == "polling"@
    ||| state == "printing"@
    ||| state == "error"@
    ||| state == "unconfigured"@
    ||| state == "stopped"@
}

/// The part of a job's identifier that is shown.
pub open spec fn short_id(uuid: Seq<char>) -> Seq<char> {
    at_most(uuid, 8)
}

impl StatusModel {
    /// A status whose parts fit together: an error on show has a message and a time,
    /// there is a time of the last print exactly where a job has been printed, and a
    /// time of the last error where one has failed.
    pub open spec fn coherent(self) -> bool {
        &&& self.state == "error"@ ==> self.last_message is Some && self.last_error_at is Some
        &&& self.last_printed_at is Some <==> self.jobs_printed > 0
        &&& self.jobs_failed > 0 ==> self.last_error_at is Some
    }

    /// An error came up.
    pub open spec fn failed(self, message: Seq<char>, now: Seq<char>) -> StatusModel {
        StatusModel {
            state: "error"@,
            last_message: Some(message),
            last_error_at: Some(now),
            ..self
        }
    }

    /// The agent was told to stop.
    pub open spec fn stopped(self) -> StatusModel {
        StatusModel { state: "stopped"@, ..self }
    }

    /// The agent lacks settings.
    pub open spec fn unconfigured(self, message: Seq<char>) -> StatusModel {
        StatusModel { state: "unconfigured"@, last_message: Some(message), ..self }
    }

    /// The server answered a heartbeat and told the printer's name. This ends an
    /// error.
    pub open spec fn connected(self, name: Seq<char>) -> StatusModel {
        let named = StatusModel { printer_name: Some(name), ..self };
        if self.state == "error"@ || self.state == "unconfigured"@ {
            StatusModel { state: "polling"@, last_message: Some("Connected"@), ..named }
        } else {
            named
        }
    }

    /// A job is being printed.
    pub open spec fn printing(self, uuid: Seq<char>, tracking: Seq<char>) -> StatusModel {
        let shown = if tracking.len() == 0 {
            "—"@
        } else {
            tracking
        };
        StatusModel {
            state: "printing"@,
            last_message: Some(
                "Printing "@ + short_id(uuid) + "… (tracking "@ + shown + ")"@,
            ),
            ..self
        }
    }

    /// A job has been printed.
    pub open spec fn printed(self, uuid: Seq<char>, duration_ms: nat, now: Seq<char>) -> StatusModel {
        StatusModel {
            state: "polling"@,
            jobs_printed: self.jobs_printed + 1,
            last_printed_at: Some(now),
            last_message: Some(
                "Printed "@ + short_id(uuid) + " in "@ + decimal(duration_ms) + "ms"@,
            ),
            ..self
        }
    }

    /// A job could not be printed.
    pub open spec fn print_failed(self, message: Seq<char>, now: Seq<char>) -> StatusModel {
        StatusModel {
            jobs_failed: self.jobs_failed + 1,
            ..self.failed("Print failed: "@ + message, now)
        }
    }

    /// The queue has been worked off for now. An error stays on show.
    pub open spec fn settled(self) -> StatusModel {
        if self.state == "error"@ {
            self
        } else {
            StatusModel { state: "idle"@, ..self }
        }
    }
}

impl PollerStatus {
    /// Records an error.
    pub fn failed(&mut self, message: String, now: Option<SinceEpoch>)
        ensures
            final(self)@ == old(self)@.failed(message@, time_stamp(now)),
            final(self).state@ == "error"@,
            final(self).last_message matches Some(text) && text@ == message@,
            final(self).last_error_at matches Some(text) && text@ == time_stamp(now),
            final(self).last_printed_at == old(self).last_printed_at,
            final(self).jobs_printed == old(self).jobs_printed,
            final(self).jobs_failed == old(self).jobs_failed,
            final(self).printer_name == old(self).printer_name,
    {
        self.state = "error".to_owned();
        self.last_message = Some(message);
        self.last_error_at = Some(now_iso(now));
    }

    /// Records that the agent was told to stop.
    pub fn stopped(&mut self)
        ensures
            final(self)@ == old(self)@.stopped(),
            final(self).state@ == "stopped"@,
            final(self).last_message == old(self).last_message,
            final(self).last_printed_at == old(self).last_printed_at,
            final(self).last_error_at == old(self).last_error_at,
            final(self).jobs_printed == old(self).jobs_printed,
            final(self).jobs_failed == old(self).jobs_failed,
            final(self).printer_name == old(self).printer_name,
    {
        self.state = "stopped".to_owned();
    }

    /// Records that the agent lacks settings.
    pub fn unconfigured(&mut self, message: String)
        ensures
            final(self)@ == old(self)@.unconfigured(message@),
            final(self).state@ == "unconfigured"@,
            final(self).last_message matches Some(text) && text@ == message@,
            final(self).last_printed_at == old(self).last_printed_at,
            final(self).last_error_at == old(self).last_error_at,
            final(self).jobs_printed == old(self).jobs_printed,
            final(self).jobs_failed == old(self).jobs_failed,
            final(self).printer_name == old(self).printer_name,
    {
        self.state = "unconfigured".to_owned();
        self.last_message = Some(message);
    }

    /// Records an answered heartbeat.
    pub fn connected(&mut self, name: String)
        ensures
            final(self)@ == old(self)@.connected(name@),
            final(self).printer_name matches Some(text) && text@ == name@,
            old(self).state@ == "error"@ || old(self).state@ == "unconfigured"@ ==> {
                &&& final(self).state@ == "polling"@
                &&& final(self).last_message matches Some(text) && text@ == "Connected"@
            },
            old(self).state@ != "error"@ && old(self).state@ != "unconfigured"@ ==> {
                &&& final(self).state == old(self).state
                &&& final(self).last_message == old(self).last_message
            },
            final(self).last_printed_at == old(self).last_printed_at,
            final(self).last_error_at == old(self).last_error_at,
            final(self).jobs_printed == old(self).jobs_printed,
            final(self).jobs_failed == old(self).jobs_failed,
    {
        self.printer_name = Some(name);
        if same_text(self.state.as_str(), "error") || same_text(
            self.state.as_str(),
            "unconfigured",
        ) {
            self.state = "polling".to_owned();
            self.last_message = Some("Connected".to_owned());
        }
    }

    /// Records that a job is being printed.
    pub fn printing(&mut self, uuid: &str, tracking: &str)
        ensures
            final(self)@ == old(self)@.printing(uuid@, tracking@),
            final(self).state@ == "printing"@,
            final(self).last_message matches Some(text) && text@ == "Printing "@ + at_most(
                uuid@,
                8,
            ) + "… (tracking "@ + (if tracking@.len() == 0 {
                "—"@
            } else {
                tracking@
            }) + ")"@,
            final(self).last_printed_at == old(self).last_printed_at,
            final(self).last_error_at == old(self).last_error_at,
            final(self).jobs_printed == old(self).jobs_printed,
            final(self).jobs_failed == old(self).jobs_failed,
            final(self).printer_name == old(self).printer_name,
    {
        let short = first_chars(uuid, 8);
        let shown = if tracking.is_empty() {
            "—".to_owned()
        } else {
            tracking.to_owned()
        };
        self.state = "printing".to_owned();
        self.last_message = Some(
            "Printing ".to_owned().concat(short.as_str()).concat("… (tracking ").concat(
                shown.as_str(),
            ).concat(")"),
        );
    }

    /// Records that a job has been printed.
    pub fn printed(&mut self, uuid: &str, duration_ms: u128, now: Option<SinceEpoch>)
        requires
            old(self).jobs_printed < u64::MAX,
        ensures
            final(self)@ == old(self)@.printed(uuid@, duration_ms as nat, time_stamp(now)),
            final(self).state@ == "polling"@,
            final(self).jobs_printed == old(self).jobs_printed + 1,
            final(self).last_printed_at matches Some(text) && text@ == time_stamp(now),
            final(self).last_message matches Some(text) && text@ == "Printed "@ + at_most(uuid@, 8)
                + " in "@ + decimal(duration_ms as nat) + "ms"@,
            final(self).last_error_at == old(self).last_error_at,
            final(self).jobs_failed == old(self).jobs_failed,
            final(self).printer_name == old(self).printer_name,
    {
        let short = first_chars(uuid, 8);
        let duration = decimal_text(duration_ms);
        self.state = "polling".to_owned();
        self.jobs_printed = self.jobs_printed + 1;
        self.last_printed_at = Some(now_iso(now));
        self.last_message = Some(
            "Printed ".to_owned().concat(short.as_str()).concat(" in ").concat(
                duration.as_str(),
            ).concat("ms"),
        );
    }

    /// Records that a job could not be printed.
    pub fn print_failed(&mut self, message: String, now: Option<SinceEpoch>)
        requires
            old(self).jobs_failed < u64::MAX,
        ensures
            final(self)@ == old(self)@.print_failed(message@, time_stamp(now)),
            final(self).state@ == "error"@,
            final(self).jobs_failed == old(self).jobs_failed + 1,
            final(self).last_error_at matches Some(text) && text@ == time_stamp(now),
            final(self).last_message matches Some(text) && text@ == "Print failed: "@ + message@,
            final(self).last_printed_at == old(self).last_printed_at,
            final(self).jobs_printed == old(self).jobs_printed,
            final(self).printer_name == old(self).printer_name,
    {
        self.jobs_failed = self.jobs_failed + 1;
        self.failed("Print failed: ".to_owned().concat(message.as_str()), now);
    }

    /// Records that the queue has been worked off for now.
    pub fn settled(&mut self)
        ensures
            final(self)@ == old(self)@.settled(),
            old(self).state@ == "error"@ ==> final(self).state == old(self).state,
            old(self).state@ != "error"@ ==> final(self).state@ == "idle"@,
            final(self).last_message == old(self).last_message,
            final(self).last_printed_at == old(self).last_printed_at,
            final(self).last_error_at == old(self).last_error_at,
            final(self).jobs_printed == old(self).jobs_printed,
            final(self).jobs_failed == old(self).jobs_failed,
            final(self).printer_name == old(self).printer_name,
    {
        if !same_text(self.state.as_str(), "error") {
            self.state = "idle".to_owned();
        }
    }
}

/// A status is what its fields hold, each of them whole.
pub proof fn law_status_is_what_it_holds(status: PollerStatus)
    ensures
        status@.state == status.state@,
        status@.last_message == status.last_message.deep_view(),
        status@.last_printed_at == status.last_printed_at.deep_view(),
        status@.last_error_at == status.last_error_at.deep_view(),
        status@.jobs_printed == status.jobs_printed,
        status@.jobs_failed == status.jobs_failed,
        status@.printer_name == status.printer_name.deep_view(),
{
}

/// Every change leaves the status in one of its six states.
pub proof fn law_changes_keep_the_state_known(
    status: StatusModel,
    a: Seq<char>,
    b: Seq<char>,
    n: nat,
)
    requires
        known_state(status.state),
    ensures
        known_state(status.failed(a, b).state),
        known_state(status.stopped().state),
        known_state(status.unconfigured(a).state),
        known_state(status.connected(a).state),
        known_state(status.printing(a, b).state),
        known_state(status.printed(a, n, b).state),
        known_state(status.print_failed(a, b).state),
        known_state(status.settled().state),
{
}

/// Every change keeps the parts of the status together.
pub proof fn law_changes_keep_the_status_coherent(
    status: StatusModel,
    a: Seq<char>,
    b: Seq<char>,
    n: nat,
)
    requires
        status.coherent(),
    ensures
        status.failed(a, b).coherent(),
        status.stopped().coherent(),
        status.unconfigured(a).coherent(),
        status.connected(a).coherent(),
        status.printing(a, b).coherent(),
        status.printed(a, n, b).coherent(),
        status.print_failed(a, b).coherent(),
        status.settled().coherent(),
{
    reveal_strlit("error");
    reveal_strlit("idle");
    reveal_strlit("polling");
    reveal_strlit("printing");
    reveal_strlit("stopped");
    reveal_strlit("unconfigured");
    assert("error"@.len() == 5 && "idle"@.len() == 4 && "polling"@.len() == 7);
    assert("printing"@.len() == 8 && "stopped"@.len() == 7 && "unconfigured"@.len() == 12);
}

/// An error stays on show while the agent settles and ends with the next answered
/// heartbeat, which leaves neither an error nor a lack of settings.
pub proof fn law_heartbeat_ends_an_error(status: StatusModel, name: Seq<char>)
    requires
        status.state == "error"@,
    ensures
        status.settled() == status,
        status.connected(name).state == "polling"@,
        status.connected(name).last_message == Some("Connected"@),
        status.connected(name).last_error_at == status.last_error_at,
{
}

/// An answered heartbeat never leaves an error or a lack of settings on show, and
/// leaves any other state and its message as they are.
pub proof fn law_connected_is_no_error(status: StatusModel, name: Seq<char>)
    ensures
        status.connected(name).state != "error"@,
        status.connected(name).state != "unconfigured"@,
        status.connected(name).printer_name == Some(name),
        status.state != "error"@ && status.state != "unconfigured"@ ==> status.connected(name) == (
        StatusModel { printer_name: Some(name), ..status }),
{
    reveal_strlit("error");
    reveal_strlit("unconfigured");
    reveal_strlit("polling");
    assert("polling"@.len() == 7);
    assert("error"@.len() == 5);
    assert("unconfigured"@.len() == 12);
}

/// An agent that is not in error is idle once it has settled, and an agent in
/// error is not.
pub proof fn law_settled_is_idle_or_in_error(status: StatusModel)
    ensures
        status.settled().state == (if status.state == "error"@ {
            "error"@
        } else {
            "idle"@
        }),
{
}

} // verus!
