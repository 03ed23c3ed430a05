use print_agent::api::{ApiError, Endpoint, HeartbeatData, NextJob};
use print_agent::config::AgentConfig;
use print_agent::poller::{
    sleep_with_stop, spawn, Phase, PollAction, PollEvent, Poller, Wake,
};
use print_agent::printer::{PrinterError, Tool};
use print_agent::status::{now_iso, PollerStatus, SinceEpoch};

/// A loop with its status, and how often that was shown.
struct Rig {
    poller: Option<Poller>,
    status: PollerStatus,
    shown: usize,
}

const NOW: Option<SinceEpoch> = Some(SinceEpoch { secs: 1_700_000_000, millis: 42 });

impl Rig {
    fn start(poll_interval: u64) -> Rig {
        let config = AgentConfig {
            api_url: "https://x".to_string(),
            printer_token: "t".to_string(),
            system_printer: "Zebra ZD220".to_string(),
            display_name: None,
            poll_interval,
            launch_at_login: false,
        };
        let (poller, action) = spawn(&config);
        match action {
            PollAction::Connect(api_url, token) => {
                assert_eq!((api_url.as_str(), token.as_str()), ("https://x", "t"));
            }
            other => panic!("{:?}", other),
        }
        Rig { poller: Some(poller), status: PollerStatus::default(), shown: 0 }
    }

    fn step(&mut self, event: PollEvent) -> PollAction {
        let (poller, step) = self.poller.take().unwrap().step(&mut self.status, event, NOW);
        self.poller = Some(poller);
        if step.publish {
            self.shown += 1;
        }
        step.action
    }

    fn phase(&self) -> &Phase {
        &self.poller.as_ref().unwrap().phase
    }

    fn message(&self) -> &str {
        self.status.last_message.as_deref().unwrap()
    }
}

fn heartbeat(secs: u64) -> PollEvent {
    PollEvent::HeartbeatDone(Ok(HeartbeatData {
        printer_uuid: "p".to_string(),
        name: "Warehouse".to_string(),
        is_default: false,
        poll_interval_seconds: secs,
    }))
}

fn job(uuid: &str, tracking: &str) -> PollEvent {
    PollEvent::FetchDone(Ok(Some(NextJob {
        uuid: uuid.to_string(),
        format: "zpl".to_string(),
        tracking: tracking.to_string(),
        bytes: vec![1, 2, 3],
    })))
}

fn secs(action: PollAction) -> u64 {
    match action {
        PollAction::Sleep(secs) => secs,
        other => panic!("no pause: {:?}", other),
    }
}

/// A loop that is about to claim a job.
fn fetching() -> Rig {
    let mut rig = Rig::start(5);
    assert!(matches!(rig.step(PollEvent::Connected), PollAction::CheckStop));
    match rig.step(PollEvent::StopFlag(false)) {
        PollAction::Heartbeat(printer) => assert_eq!(printer, "Zebra ZD220"),
        other => panic!("{:?}", other),
    }
    assert!(matches!(rig.step(heartbeat(7)), PollAction::CheckStop));
    assert!(matches!(rig.step(PollEvent::StopFlag(false)), PollAction::FetchNext));
    rig
}

#[test]
fn fresh_status() {
    let status = PollerStatus::default();
    assert_eq!(status.state, "unconfigured");
    assert_eq!(status.last_message, None);
    assert_eq!(status.last_printed_at, None);
    assert_eq!(status.last_error_at, None);
    assert_eq!((status.jobs_printed, status.jobs_failed), (0, 0));
    assert_eq!(status.printer_name, None);
}

#[test]
fn copies_of_a_status_are_alike() {
    let mut status = PollerStatus::default();
    status.failed("bad".to_string(), NOW);
    status.jobs_printed = 4;
    let copy = status.clone();
    assert_eq!(copy.state, "error");
    assert_eq!(copy.last_message.as_deref(), Some("bad"));
    assert_eq!(copy.last_error_at, status.last_error_at);
    assert_eq!(copy.jobs_printed, 4);
}

#[test]
fn time_stamps() {
    assert_eq!(now_iso(NOW), "1700000000.042Z");
    assert_eq!(now_iso(Some(SinceEpoch { secs: 1, millis: 999 })), "1.999Z");
    assert_eq!(now_iso(Some(SinceEpoch { secs: 0, millis: 7 })), "0.007Z");
    assert_eq!(now_iso(None), "0.000Z");
}

#[test]
fn bad_client_ends_the_loop() {
    let mut rig = Rig::start(5);
    let action = rig.step(PollEvent::NotConnected(ApiError::Client));
    assert!(matches!(action, PollAction::Exit));
    assert!(matches!(rig.phase(), Phase::Finished));
    assert_eq!(rig.status.state, "error");
    assert_eq!(rig.message(), "Bad API URL or token: Failed to build HTTP client");
    assert_eq!(rig.status.last_error_at.as_deref(), Some("1700000000.042Z"));
    assert_eq!(rig.shown, 1);
}

#[test]
fn first_heartbeat_connects() {
    let rig = fetching();
    assert_eq!(rig.status.state, "polling");
    assert_eq!(rig.message(), "Connected");
    assert_eq!(rig.status.printer_name.as_deref(), Some("Warehouse"));
    assert_eq!(rig.poller.as_ref().unwrap().interval_secs, 7);
    assert_eq!(rig.shown, 1);
}

#[test]
fn failed_heartbeat_backs_off() {
    for (interval, pause) in [(0, 10), (5, 10), (60, 60)] {
        let mut rig = Rig::start(interval);
        rig.step(PollEvent::Connected);
        rig.step(PollEvent::StopFlag(false));
        let error = ApiError::Http("HTTP 401 Unauthorized: no".to_string());
        assert_eq!(secs(rig.step(PollEvent::HeartbeatDone(Err(error)))), pause);
        assert_eq!(rig.status.state, "error");
        assert_eq!(rig.message(), "Heartbeat: HTTP 401 Unauthorized: no");
        assert!(matches!(rig.step(PollEvent::SleepDone(Wake::Elapsed)), PollAction::CheckStop));
        rig.step(PollEvent::StopFlag(false));
        rig.step(heartbeat(5));
        assert_eq!(rig.status.state, "polling");
        assert_eq!(rig.message(), "Connected");
        assert_eq!(rig.status.last_error_at.as_deref(), Some("1700000000.042Z"));
    }
}

#[test]
fn empty_queue_rests_for_the_cadence_of_the_server() {
    let mut rig = fetching();
    assert_eq!(secs(rig.step(PollEvent::FetchDone(Ok(None)))), 7);
    assert_eq!(rig.status.state, "idle");
    assert_eq!(rig.shown, 2);
    let mut rig = Rig::start(5);
    rig.step(PollEvent::Connected);
    rig.step(PollEvent::StopFlag(false));
    rig.step(heartbeat(0));
    rig.step(PollEvent::StopFlag(false));
    assert_eq!(secs(rig.step(PollEvent::FetchDone(Ok(None)))), 1);
}

#[test]
fn printed_job() {
    let mut rig = fetching();
    match rig.step(job("0123456789ab", "TRK1")) {
        PollAction::Print(job, printer) => {
            assert_eq!(printer, "Zebra ZD220");
            assert_eq!(job.uuid, "0123456789ab");
            assert_eq!(job.format, "zpl");
            assert_eq!(job.bytes, vec![1, 2, 3]);
        }
        other => panic!("{:?}", other),
    }
    assert_eq!(rig.status.state, "printing");
    assert_eq!(rig.message(), "Printing 01234567… (tracking TRK1)");
    match rig.step(PollEvent::PrintDone(Ok(1234))) {
        PollAction::AckPrinted(uuid, ms) => {
            assert_eq!(uuid, "0123456789ab");
            assert_eq!(ms, 1234);
        }
        other => panic!("{:?}", other),
    }
    assert_eq!(rig.status.jobs_printed, 0);
    assert!(matches!(rig.step(PollEvent::AckDone(Ok(()))), PollAction::CheckStop));
    assert_eq!(rig.status.state, "polling");
    assert_eq!(rig.status.jobs_printed, 1);
    assert_eq!(rig.message(), "Printed 01234567 in 1234ms");
    assert_eq!(rig.status.last_printed_at.as_deref(), Some("1700000000.042Z"));
    assert_eq!(rig.status.last_error_at, None);
    assert!(matches!(rig.step(PollEvent::StopFlag(false)), PollAction::FetchNext));
}

#[test]
fn job_without_tracking() {
    let mut rig = fetching();
    rig.step(job("short", ""));
    assert_eq!(rig.message(), "Printing short… (tracking —)");
}

#[test]
fn failed_job() {
    let mut rig = fetching();
    rig.step(job("0123456789ab", ""));
    match rig.step(PollEvent::PrintDone(Err(PrinterError::NotRun(Tool::Lp)))) {
        PollAction::AckFailed(uuid, error) => {
            assert_eq!(uuid, "0123456789ab");
            assert_eq!(error, "Failed to run `lp`");
        }
        other => panic!("{:?}", other),
    }
    rig.step(PollEvent::AckDone(Err(ApiError::Transport(Endpoint::Ack))));
    assert_eq!(rig.status.state, "error");
    assert_eq!((rig.status.jobs_printed, rig.status.jobs_failed), (0, 1));
    assert_eq!(rig.message(), "Print failed: Failed to run `lp`");
    rig.step(PollEvent::StopFlag(false));
    rig.step(PollEvent::FetchDone(Ok(None)));
    assert_eq!(rig.status.state, "error");
    assert_eq!(rig.shown, 4);
}

#[test]
fn burst_of_jobs_has_no_pause() {
    let mut rig = fetching();
    for n in 0..10u64 {
        assert!(matches!(rig.step(job("j", "t")), PollAction::Print(_, _)));
        assert!(matches!(rig.step(PollEvent::PrintDone(Ok(1))), PollAction::AckPrinted(_, 1)));
        assert!(matches!(rig.step(PollEvent::AckDone(Ok(()))), PollAction::CheckStop));
        assert_eq!(rig.status.jobs_printed, n + 1);
        assert!(matches!(rig.step(PollEvent::StopFlag(false)), PollAction::FetchNext));
    }
    assert_eq!(secs(rig.step(PollEvent::FetchDone(Ok(None)))), 7);
    assert_eq!(rig.status.state, "idle");
    assert_eq!(rig.message(), "Printed j in 1ms");
}

#[test]
fn burst_goes_on_after_failed_prints_and_unheard_reports() {
    let mut rig = fetching();
    for uuid in ["a", "b", "c"] {
        match rig.step(job(uuid, "t")) {
            PollAction::Print(job, printer) => {
                assert_eq!((job.uuid.as_str(), printer.as_str()), (uuid, "Zebra ZD220"));
            }
            other => panic!("{:?}", other),
        }
        let failed = PollEvent::PrintDone(Err(PrinterError::NotRun(Tool::Lp)));
        match rig.step(failed) {
            PollAction::AckFailed(reported, _) => assert_eq!(reported, uuid),
            other => panic!("{:?}", other),
        }
        let unheard = PollEvent::AckDone(Err(ApiError::Transport(Endpoint::Ack)));
        assert!(matches!(rig.step(unheard), PollAction::CheckStop));
        assert!(matches!(rig.step(PollEvent::StopFlag(false)), PollAction::FetchNext));
    }
    assert_eq!(rig.status.jobs_failed, 3);
    assert_eq!(rig.poller.as_ref().unwrap().printer, "Zebra ZD220");
}

#[test]
fn address_without_https_ends_the_loop() {
    let mut rig = Rig::start(5);
    let action = rig.step(PollEvent::NotConnected(ApiError::NotHttps));
    assert!(matches!(action, PollAction::Exit));
    assert_eq!(
        rig.message(),
        "Bad API URL or token: The server address is not an HTTPS address"
    );
}

#[test]
fn failed_claim_is_shown_and_rested_from() {
    let mut rig = fetching();
    let error = ApiError::Transport(Endpoint::FetchNext);
    assert!(matches!(rig.step(PollEvent::FetchDone(Err(error))), PollAction::Continue));
    assert_eq!(rig.status.state, "error");
    assert_eq!(rig.message(), "Fetch: fetch_next transport error");
    assert_eq!(secs(rig.step(PollEvent::Continued)), 7);
    assert_eq!(rig.status.state, "error");
    assert_eq!(rig.shown, 3);
}

#[test]
fn stop_before_a_turn() {
    let mut rig = Rig::start(5);
    rig.step(PollEvent::Connected);
    assert!(matches!(rig.step(PollEvent::StopFlag(true)), PollAction::Exit));
    assert_eq!(rig.status.state, "stopped");
    assert_eq!(rig.shown, 1);
}

#[test]
fn stop_in_a_burst_or_a_pause_is_silent() {
    let mut rig = Rig::start(5);
    rig.step(PollEvent::Connected);
    rig.step(PollEvent::StopFlag(false));
    rig.step(heartbeat(5));
    assert!(matches!(rig.step(PollEvent::StopFlag(true)), PollAction::Exit));
    assert_eq!(rig.status.state, "polling");
    assert_eq!(rig.shown, 1);

    let mut rig = fetching();
    rig.step(PollEvent::FetchDone(Ok(None)));
    let action = rig.step(PollEvent::SleepDone(Wake::StopFlag(true)));
    assert!(matches!(action, PollAction::Exit));
    assert!(matches!(rig.phase(), Phase::Finished));
    assert_eq!(rig.status.state, "idle");
}

#[test]
fn nothing_new_is_started_after_a_stop() {
    let mut rig = fetching();
    assert!(matches!(rig.step(job("j", "t")), PollAction::Print(_, _)));
    assert!(matches!(rig.step(PollEvent::PrintDone(Ok(1))), PollAction::AckPrinted(_, 1)));
    assert!(matches!(rig.step(PollEvent::AckDone(Ok(()))), PollAction::CheckStop));
    assert!(matches!(rig.step(PollEvent::StopFlag(true)), PollAction::Exit));
    assert_eq!(rig.status.jobs_printed, 1);

    let mut rig = fetching();
    let error = ApiError::Transport(Endpoint::FetchNext);
    assert!(matches!(rig.step(PollEvent::FetchDone(Err(error))), PollAction::Continue));
    assert_eq!(secs(rig.step(PollEvent::Continued)), 7);
    assert!(matches!(rig.step(PollEvent::SleepDone(Wake::Elapsed)), PollAction::CheckStop));
    assert!(matches!(rig.step(PollEvent::StopFlag(true)), PollAction::Exit));
    assert_eq!(rig.status.state, "stopped");
}

#[test]
fn parts_of_the_status_stay_together() {
    let mut rig = fetching();
    assert_eq!((rig.status.last_printed_at.as_deref(), rig.status.last_error_at.as_deref()), (None, None));
    rig.step(job("j", "t"));
    rig.step(PollEvent::PrintDone(Ok(1)));
    rig.step(PollEvent::AckDone(Ok(())));
    assert_eq!((rig.status.last_printed_at.as_deref(), rig.status.jobs_printed), (Some("1700000000.042Z"), 1));
    rig.step(PollEvent::StopFlag(false));
    rig.step(job("k", "t"));
    rig.step(PollEvent::PrintDone(Err(PrinterError::NotRun(Tool::Lp))));
    rig.step(PollEvent::AckDone(Ok(())));
    assert_eq!((rig.status.last_error_at.as_deref(), rig.status.jobs_failed), (Some("1700000000.042Z"), 1));
    assert_eq!(rig.status.state, "error");
    assert!(rig.status.last_message.is_some());
}

#[test]
fn pause_goes_on_unless_told_to_stop() {
    assert!(sleep_with_stop(Wake::Elapsed));
    assert!(sleep_with_stop(Wake::StopFlag(false)));
    assert!(!sleep_with_stop(Wake::StopFlag(true)));
    let mut rig = fetching();
    rig.step(PollEvent::FetchDone(Ok(None)));
    let action = rig.step(PollEvent::SleepDone(Wake::StopFlag(false)));
    assert!(matches!(action, PollAction::CheckStop));
}

#[test]
fn heartbeat_leaves_an_idle_agent_alone() {
    let mut rig = fetching();
    rig.step(PollEvent::FetchDone(Ok(None)));
    rig.step(PollEvent::SleepDone(Wake::Elapsed));
    rig.step(PollEvent::StopFlag(false));
    rig.step(heartbeat(9));
    assert_eq!(rig.status.state, "idle");
    rig.step(PollEvent::StopFlag(false));
    assert_eq!(secs(rig.step(PollEvent::FetchDone(Ok(None)))), 9);
}
