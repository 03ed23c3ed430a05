//! The life of the agent around the polling loop: what happens at launch, when the
//! settings change, and in the tray menu.
//!
//! One polling loop runs at a time. Whenever the settings change, the loop that ran
//! with the earlier ones is told to stop before a new one is started.

use vstd::prelude::*;

use crate::config::AgentConfig;
use crate::config::ConfigError;
use crate::poller::fresh;
use crate::poller::spawn;
use crate::poller::ActionModel;
use crate::poller::PollAction;
use crate::poller::Poller;
use crate::status::PollerStatus;
use crate::text::same_text;
use crate::text::texts;

verus! {

// ---------------------------------------------------------------------------
// Starting and stopping the polling loop
// ---------------------------------------------------------------------------

/// What is done about polling loops. A loop is stopped before another one is
/// started, and the status is shown in between.
#[derive(Debug)]
pub struct Restart {
    /// Whether the loop that was started last is to be told to stop.
    pub stop: bool,
    /// Whether the status was changed and is to be shown.
    pub shown: bool,
    /// A loop to start, and its first action.
    pub start: Option<(Poller, PollAction)>,
}

/// Takes up settings. The loop that runs with earlier ones, if any, is to be told to
/// stop. Settings that are complete start a new loop, with the status as it is;
/// others are not run with, and the status asks for the rest.
///
/// `running` tells whether a loop was started that has not been told to stop.
pub fn restart_poller(
    running: &mut bool,
    config: &AgentConfig,
    status: &mut PollerStatus,
) -> (restart: Restart)
    ensures
        restart.stop == *old(running),
        *final(running) == config.complete(),
        restart.start is Some <==> config.complete(),
        restart.shown <==> restart.start is None,
        final(status)@ != old(status)@ ==> restart.shown,
        match restart.start {
            Some((poller, action)) => {
                &&& poller == fresh(*config)
                &&& action@ == ActionModel::Connect(config.api_url@, config.printer_token@)
                &&& final(status)@ == old(status)@
            },
            None => final(status)@ == old(status)@.unconfigured(
                "Configure the agent to start printing."@,
            ),
        },
        restart.start matches Some((poller, action)) ==> {
            &&& poller.printer@ == config.system_printer@
            &&& config.poll_interval >= 1 ==> poller.interval_secs == config.poll_interval
            &&& config.poll_interval == 0 ==> poller.interval_secs == 1
            &&& poller.phase is Connecting
            &&& action matches PollAction::Connect(api_url, token) && api_url@ == config.api_url@
                && token@ == config.printer_token@
            &&& *final(status) == *old(status)
        },
        restart.start is None ==> {
            &&& final(status).state@ == "unconfigured"@
            &&& final(status).last_message matches Some(text) && text@
                == "Configure the agent to start printing."@
            &&& final(status).jobs_printed == old(status).jobs_printed
            &&& final(status).jobs_failed == old(status).jobs_failed
            &&& final(status).last_printed_at == old(status).last_printed_at
            &&& final(status).last_error_at == old(status).last_error_at
            &&& final(status).printer_name == old(status).printer_name
        },
        restart.orders(*config) == orders(*old(running), Occasion::Settings(*config)),
{
    let stop = *running;
    if !config.is_complete() {
        *running = false;
        status.unconfigured("Configure the agent to start printing.".to_owned());
        return Restart { stop, shown: true, start: None };
    }
    *running = true;
    Restart { stop, shown: false, start: Some(spawn(config)) }
}

/// Ends the agent: whether there is a loop to be told to stop.
pub fn quit(running: &mut bool) -> (stop: bool)
    ensures
        stop == *old(running),
        !*final(running),
        stop_if(stop) == orders(*old(running), Occasion::Quit),
{
    let stop = *running;
    *running = false;
    stop
}

/// The settings to start with at launch, and whether the status was changed and is
/// to be shown.
#[derive(Debug)]
pub struct Boot {
    pub config: Option<AgentConfig>,
    pub shown: bool,
}

/// The settings to start with at launch, from what loading them came to. Where
/// there are none, or they cannot be loaded, the status asks for them.
pub fn boot(loaded: Result<Option<AgentConfig>, ConfigError>, status: &mut PollerStatus) -> (boot:
    Boot)
    ensures
        boot.shown <==> boot.config is None,
        final(status)@ != old(status)@ ==> boot.shown,
        match loaded {
            Ok(Some(found)) => boot.config == Some(found) && final(status)@ == old(status)@,
            _ => boot.config is None && final(status)@ == old(status)@.unconfigured(
                "First run — open the setup window to configure."@,
            ),
        },
        boot.config is Some ==> *final(status) == *old(status),
        boot.config is None ==> {
            &&& final(status).state@ == "unconfigured"@
            &&& final(status).last_message matches Some(text) && text@
                == "First run — open the setup window to configure."@
            &&& final(status).jobs_printed == old(status).jobs_printed
            &&& final(status).jobs_failed == old(status).jobs_failed
            &&& final(status).last_printed_at == old(status).last_printed_at
            &&& final(status).last_error_at == old(status).last_error_at
            &&& final(status).printer_name == old(status).printer_name
        },
{
    match loaded {
        Ok(Some(found)) => Boot { config: Some(found), shown: false },
        _ => {
            status.unconfigured("First run — open the setup window to configure.".to_owned());
            Boot { config: None, shown: true }
        },
    }
}

/// What changes which loop runs.
pub enum Occasion {
    /// Settings are taken up.
    Settings(AgentConfig),
    /// The agent ends.
    Quit,
}

/// What is done about polling loops: the loop started last is told to stop, or one
/// is started with some settings.
pub enum Order {
    Stop,
    Start(AgentConfig),
}

impl Restart {
    /// What is done, in its order, where the given settings are taken up.
    pub open spec fn orders(self, config: AgentConfig) -> Seq<Order> {
        stop_if(self.stop) + (if self.start is Some {
            seq![Order::Start(config)]
        } else {
            seq![]
        })
    }
}

/// The order to stop, where there is one.
pub open spec fn stop_if(stop: bool) -> Seq<Order> {
    if stop {
        seq![Order::Stop]
    } else {
        seq![]
    }
}

/// What is done on an occasion, in its order, while a loop is running or is not.
pub open spec fn orders(running: bool, occasion: Occasion) -> Seq<Order> {
    stop_if(running) + (match occasion {
        Occasion::Settings(config) => if config.complete() {
            seq![Order::Start(config)]
        } else {
            seq![]
        },
        Occasion::Quit => seq![],
    })
}

/// Whether a loop runs after some occasions, from a launch on.
pub open spec fn runs_after(occasions: Seq<Occasion>) -> bool {
    occasions.len() > 0 && match occasions.last() {
        Occasion::Settings(config) => config.complete(),
        Occasion::Quit => false,
    }
}

/// What is done on some occasions, from a launch on, in its order.
pub open spec fn all_orders(occasions: Seq<Occasion>) -> Seq<Order>
    decreases occasions.len(),
{
    if occasions.len() == 0 {
        seq![]
    } else {
        all_orders(occasions.drop_last()) + orders(
            runs_after(occasions.drop_last()),
            occasions.last(),
        )
    }
}

/// The loops that have been started and not been told to stop, each named by the
/// place of its start among the orders.
pub open spec fn alive(orders: Seq<Order>) -> Seq<int>
    decreases orders.len(),
{
    if orders.len() == 0 {
        seq![]
    } else {
        let before = alive(orders.drop_last());
        match orders.last() {
            Order::Start(_) => before.push(orders.len() - 1),
            Order::Stop => if before.len() == 0 {
                before
            } else {
                before.drop_last()
            },
        }
    }
}

/// Whatever settings are taken up, and whenever the agent ends, at most one loop is
/// running that has not been told to stop, at any point of what is done. In the end
/// there is one if and only if the last settings were complete and the agent has
/// not ended since; and it is the one that was started with them.
pub proof fn law_at_most_one_loop_runs(occasions: Seq<Occasion>, n: int)
    requires
        0 <= n <= all_orders(occasions).len(),
    ensures
        alive(all_orders(occasions).take(n)).len() <= 1,
        alive(all_orders(occasions)).len() == (if runs_after(occasions) {
            1int
        } else {
            0int
        }),
        runs_after(occasions) ==> {
            let place = all_orders(occasions).len() - 1;
            &&& alive(all_orders(occasions)) == seq![place]
            &&& all_orders(occasions)[place] == Order::Start(occasions.last()->Settings_0)
        },
    decreases occasions.len(),
{
    let all = all_orders(occasions);
    assert(all.take(all.len() as int) == all);
    if occasions.len() > 0 {
        let front = occasions.drop_last();
        let before = all_orders(front);
        let running = runs_after(front);
        let stops = stop_if(running);
        if n <= before.len() {
            law_at_most_one_loop_runs(front, n);
            assert(all.take(n) == before.take(n));
        } else {
            law_at_most_one_loop_runs(front, before.len() as int);
        }
        let stopped = before + stops;
        assert(alive(stopped).len() == 0) by {
            if running {
                assert(stopped.drop_last() == before);
            } else {
                assert(stopped == before);
            }
        }
        if runs_after(occasions) {
            assert(all.drop_last() == stopped);
            assert(alive(all) == seq![all.len() - 1]);
        } else {
            assert(all == stopped);
        }
        if before.len() < n < all.len() {
            assert(all.take(n) == stopped);
        }
    }
}

/// No loop is started while another one has not been told to stop.
pub proof fn law_stop_comes_before_start(occasions: Seq<Occasion>, n: int)
    requires
        0 <= n < all_orders(occasions).len(),
        all_orders(occasions)[n] is Start,
    ensures
        alive(all_orders(occasions).take(n)).len() == 0,
{
    let all = all_orders(occasions);
    law_at_most_one_loop_runs(occasions, n + 1);
    assert(all.take(n + 1).drop_last() == all.take(n));
    assert(all.take(n + 1).last() == all[n]);
}

// ---------------------------------------------------------------------------
// Launch and the tray menu
// ---------------------------------------------------------------------------

/// The argument that the system passes when it starts the agent at login.
pub open spec fn autostart_flag() -> Seq<char> {
    "--launched-from-autostart"@
}

/// Whether the agent was started at login.
pub fn launched_from_autostart(args: &Vec<String>) -> (yes: bool)
    ensures
        yes == texts(args@).contains(autostart_flag()),
        yes == exists|i: int|
            0 <= i < args@.len() && (#[trigger] args@[i])@ == "--launched-from-autostart"@,
{
    let mut i: usize = 0;
    while i < args.len()
        invariant
            i <= args@.len(),
            forall|j: int| 0 <= j < i ==> texts(args@)[j] != autostart_flag(),
        decreases args@.len() - i,
    {
        if same_text(args[i].as_str(), "--launched-from-autostart") {
            assert(texts(args@)[i as int] == autostart_flag());
            assert(args@[i as int]@ == "--launched-from-autostart"@);
            return true;
        }
        i = i + 1;
    }
    proof {
        assert forall|j: int| 0 <= j < args@.len() implies (#[trigger] args@[j])@
            != "--launched-from-autostart"@ by {
            assert(texts(args@)[j] != autostart_flag());
        }
    }
    false
}

/// Whether the setup window stays hidden at launch: after a start at login, and for
/// a user whose settings are complete. Settings that cannot be loaded count as none.
pub fn starts_hidden(args: &Vec<String>, loaded: &Result<Option<AgentConfig>, ConfigError>) -> (yes:
    bool)
    ensures
        yes == (texts(args@).contains(autostart_flag()) || match *loaded {
            Ok(Some(config)) => config.complete(),
            _ => false,
        }),
        (exists|i: int|
            0 <= i < args@.len() && (#[trigger] args@[i])@ == "--launched-from-autostart"@) ==> yes,
        *loaded matches Ok(Some(config)) && config.complete() ==> yes,
        !(*loaded matches Ok(Some(_))) && yes ==> exists|i: int|
            0 <= i < args@.len() && (#[trigger] args@[i])@ == "--launched-from-autostart"@,
{
    if launched_from_autostart(args) {
        return true;
    }
    match loaded {
        Ok(Some(config)) => config.is_complete(),
        _ => false,
    }
}

/// What an item of the tray menu does.
#[derive(Debug, Clone, Copy, PartialEq, Eq, Structural)]
pub enum MenuAction {
    /// Show the setup window.
    Show,
    /// Open the documentation.
    Documentation,
    /// Stop the polling loop and end the program.
    Quit,
}

/// What the menu item with the given identifier does.
pub fn menu_action(id: &str) -> (action: Option<MenuAction>)
    ensures
        action == (if id@ == "show"@ {
            Some(MenuAction::Show)
        } else if id@ == "docs"@ {
            Some(MenuAction::Documentation)
        } else if id@ == "quit"@ {
            Some(MenuAction::Quit)
        } else {
            None
        }),
{
    if same_text(id, "show") {
        Some(MenuAction::Show)
    } else if same_text(id, "docs") {
        Some(MenuAction::Documentation)
    } else if same_text(id, "quit") {
        Some(MenuAction::Quit)
    } else {
        None
    }
}

} // verus!
