//! The window: a proxy that it starts and stops, its settings, and its log.
use vstd::prelude::*;

use crate::args::{Args, ArgsView};
use crate::plan::{Action, ActionView, Plan};
use crate::text::{address, joined, listen_address};

verus! {

/// The least port that can be entered.
pub const PORT_MIN: u16 = 1;

/// The greatest port that can be entered.
pub const PORT_MAX: u16 = 65535;

/// The least pool size that can be entered.
pub const POOL_MIN: i32 = 1;

/// The greatest pool size that can be entered.
pub const POOL_MAX: i32 = 32;

/// The number of log lines that are shown.
pub const LOG_LINES: usize = 500;

/// Keeps track of the proxy behind the window.
#[derive(Clone, Copy, Debug, PartialEq, Eq, Structural)]
pub struct ProxyRunner {
    /// Whether a proxy was ever started, so that there is a token to cancel.
    pub has_token: bool,
    /// Whether the proxy that was started last was not stopped since.
    pub running: bool,
}

impl ProxyRunner {
    /// What runs was started.
    pub open spec fn well_formed(self) -> bool {
        self.running ==> self.has_token
    }

    /// A runner that has started nothing.
    pub fn new() -> (r: ProxyRunner)
        ensures
            r == (ProxyRunner { has_token: false, running: false }),
            r.well_formed(),
    {
        ProxyRunner { has_token: false, running: false }
    }

    /// Starts a proxy of these settings, unless one is running.
    pub fn start(&mut self, args: &Args) -> (r: Plan)
        ensures
            *final(self) == started(*old(self)),
            r@ == start_plan(*old(self), args@),
            old(self).well_formed() ==> final(self).well_formed(),
    {
        let mut plan = Plan::new();
        if self.running {
            return plan;
        }
        plan.push(Action::Launch(args.clone()));
        self.has_token = true;
        self.running = true;
        plan
    }

    /// Stops the proxy that was started last. To stop it once more does no harm.
    pub fn stop(&mut self) -> (r: Plan)
        ensures
            *final(self) == stopped(*old(self)),
            r@ == stop_plan(*old(self)),
            final(self).well_formed(),
    {
        let mut plan = Plan::new();
        if self.has_token {
            plan.push(Action::Cancel);
        }
        self.running = false;
        plan
    }
}

/// The runner after `start`.
pub open spec fn started(runner: ProxyRunner) -> ProxyRunner {
    if runner.running {
        runner
    } else {
        ProxyRunner { has_token: true, running: true }
    }
}

/// What `start` does.
pub open spec fn start_plan(runner: ProxyRunner, args: ArgsView) -> Seq<ActionView> {
    if runner.running {
        Seq::empty()
    } else {
        seq![ActionView::Launch(args)]
    }
}

/// The runner after `stop`.
pub open spec fn stopped(runner: ProxyRunner) -> ProxyRunner {
    ProxyRunner { running: false, ..runner }
}

/// What `stop` does.
pub open spec fn stop_plan(runner: ProxyRunner) -> Seq<ActionView> {
    if runner.has_token {
        seq![ActionView::Cancel]
    } else {
        Seq::empty()
    }
}

/// The window's state.
#[derive(Debug, PartialEq, Eq)]
pub struct ProxyApp {
    pub runner: ProxyRunner,
    /// The settings that the next start uses.
    pub args: Args,
}

/// What the window's state says, with its texts as character sequences.
#[verifier::ext_equal]
pub struct AppView {
    pub runner: ProxyRunner,
    pub args: ArgsView,
}

impl View for ProxyApp {
    type V = AppView;

    open spec fn view(&self) -> AppView {
        AppView { runner: self.runner, args: self.args@ }
    }
}

/// What the user does in the window.
#[derive(Debug, PartialEq, Eq)]
pub enum UserEvent {
    /// Clicks the button that stops the proxy, or starts it where it is stopped.
    ControlClicked,
    /// Leaves the host field, which holds this text.
    BindEntered(String),
    /// Changes the port.
    PortChanged(u16),
    /// Changes the pool size.
    PoolChanged(i32),
    /// Clicks the button that ends the program.
    ExitClicked,
}

/// What a user event says, with its text as a character sequence.
pub enum UserEventView {
    ControlClicked,
    BindEntered(Seq<char>),
    PortChanged(u16),
    PoolChanged(i32),
    ExitClicked,
}

impl View for UserEvent {
    type V = UserEventView;

    open spec fn view(&self) -> UserEventView {
        match *self {
            UserEvent::ControlClicked => UserEventView::ControlClicked,
            UserEvent::BindEntered(bind) => UserEventView::BindEntered(bind@),
            UserEvent::PortChanged(port) => UserEventView::PortChanged(port),
            UserEvent::PoolChanged(size) => UserEventView::PoolChanged(size),
            UserEvent::ExitClicked => UserEventView::ExitClicked,
        }
    }
}

/// The window's state after an event.
pub open spec fn updated(app: AppView, event: UserEventView) -> AppView {
    match event {
        UserEventView::ControlClicked => AppView {
            runner: if app.runner.running {
                stopped(app.runner)
            } else {
                started(app.runner)
            },
            ..app
        },
        UserEventView::BindEntered(bind) => AppView { args: ArgsView { bind, ..app.args }, ..app },
        UserEventView::PortChanged(port) => AppView { args: ArgsView { port, ..app.args }, ..app },
        UserEventView::PoolChanged(pool_size) => AppView {
            args: ArgsView { pool_size, ..app.args },
            ..app
        },
        UserEventView::ExitClicked => AppView { runner: stopped(app.runner), ..app },
    }
}

/// What the window does on an event.
pub open spec fn update_plan(app: AppView, event: UserEventView) -> Seq<ActionView> {
    match event {
        UserEventView::ControlClicked => if app.runner.running {
            stop_plan(app.runner)
        } else {
            start_plan(app.runner, app.args)
        },
        UserEventView::BindEntered(_)
        | UserEventView::PortChanged(_)
        | UserEventView::PoolChanged(_) => Seq::empty(),
        UserEventView::ExitClicked => stop_plan(app.runner).push(ActionView::Exit(0)),
    }
}

/// The colour of the status.
#[derive(Clone, Copy, Debug, PartialEq, Eq, Structural)]
pub enum StatusColor {
    Green,
    Red,
}

/// What the window shows of its state.
#[derive(Debug, PartialEq, Eq)]
pub struct Frame {
    pub status: String,
    pub status_color: StatusColor,
    /// Where the proxy listens.
    pub address: String,
    /// What the button says that stops or starts the proxy.
    pub control: String,
}

impl ProxyApp {
    /// The state of a window that has just opened. It starts the proxy at once.
    pub fn new(args: Args) -> (r: (ProxyApp, Plan))
        ensures
            r.0@ == opened_app(args@),
            r.1@ == seq![ActionView::Launch(args@)],
            r.0.runner.well_formed(),
    {
        let mut runner = ProxyRunner::new();
        let plan = runner.start(&args);
        (ProxyApp { runner, args }, plan)
    }

    /// Takes a user event.
    pub fn update(&mut self, event: UserEvent) -> (r: Plan)
        ensures
            final(self)@ == updated(old(self)@, event@),
            r@ == update_plan(old(self)@, event@),
            old(self).runner.well_formed() ==> final(self).runner.well_formed(),
    {
        let mut plan = Plan::new();
        match event {
            UserEvent::ControlClicked => {
                if self.runner.running {
                    plan = self.runner.stop();
                } else {
                    plan = self.runner.start(&self.args);
                }
            },
            UserEvent::BindEntered(bind) => {
                self.args.bind = bind;
            },
            UserEvent::PortChanged(port) => {
                self.args.port = port;
            },
            UserEvent::PoolChanged(size) => {
                self.args.pool_size = size;
            },
            UserEvent::ExitClicked => {
                plan = self.runner.stop();
                plan.push(Action::Exit(0));
            },
        }
        plan
    }

    /// What to show.
    pub fn frame(&self) -> (r: Frame)
        ensures
            r.status@ == if self.runner.running {
                "● РАБОТАЕТ"@
            } else {
                "● ОСТАНОВЛЕН"@
            },
            r.status_color is Green <==> self.runner.running,
            r.address@ == "Порт: "@ + address(self.args@.bind, self.args@.port),
            r.control@ == if self.runner.running {
                "⏹ Остановить"@
            } else {
                "▶ Запустить"@
            },
    {
        let place = listen_address(self.args.bind.as_str(), self.args.port);
        let address = joined("Порт: ", place.as_str());
        if self.runner.running {
            Frame {
                status: "● РАБОТАЕТ".to_owned(),
                status_color: StatusColor::Green,
                address,
                control: "⏹ Остановить".to_owned(),
            }
        } else {
            Frame {
                status: "● ОСТАНОВЛЕН".to_owned(),
                status_color: StatusColor::Red,
                address,
                control: "▶ Запустить".to_owned(),
            }
        }
    }
}

/// The state of a window that has just opened.
pub open spec fn opened_app(args: ArgsView) -> AppView {
    AppView { runner: ProxyRunner { has_token: true, running: true }, args }
}

/// The lines of a log that are shown: the last ones.
pub open spec fn shown_lines(lines: Seq<Seq<char>>) -> Seq<Seq<char>> {
    if lines.len() > LOG_LINES {
        lines.skip(lines.len() - LOG_LINES)
    } else {
        lines
    }
}

/// The lines, with a line break between each and the next.
pub open spec fn joined_lines(lines: Seq<Seq<char>>) -> Seq<char>
    decreases lines.len(),
{
    if lines.len() == 0 {
        Seq::empty()
    } else if lines.len() == 1 {
        lines[0]
    } else {
        joined_lines(lines.drop_last()) + "\n"@ + lines.last()
    }
}

/// The text of the log panel.
pub fn log_text(log: &Vec<String>) -> (r: String)
    ensures
        r@ == joined_lines(shown_lines(log@.map_values(|line: String| line@))),
{
    let ghost lines = log@.map_values(|line: String| line@);
    let first: usize = if log.len() > LOG_LINES {
        log.len() - LOG_LINES
    } else {
        0
    };
    let ghost shown = shown_lines(lines);
    let mut text = String::new();
    let mut i: usize = first;
    assert(shown =~= lines.skip(first as int));
    assert(shown.take(0) =~= Seq::empty());
    while i < log.len()
        invariant
            first <= i <= log.len(),
            lines == log@.map_values(|line: String| line@),
            shown == lines.skip(first as int),
            text@ == joined_lines(shown.take(i - first)),
        decreases log.len() - i,
    {
        if i > first {
            text.append("\n");
        }
        text.append(log[i].as_str());
        proof {
            let next = shown.take(i - first + 1);
            assert(next.drop_last() =~= shown.take(i - first));
            assert(next.last() == log@[i as int]@);
            assert(text@ =~= joined_lines(next));
        }
        i = i + 1;
    }
    assert(shown.take(log.len() - first) =~= shown);
    text
}

/// The log panel shows at most the last 500 lines, the newest among them, in their order.
pub proof fn law_log_shows_newest_lines(lines: Seq<Seq<char>>)
    ensures
        shown_lines(lines).len() <= 500,
        shown_lines(lines).is_suffix_of(lines),
        lines.len() <= 500 ==> shown_lines(lines) == lines,
        lines.len() > 0 ==> shown_lines(lines).last() == lines.last(),
{
}

/// The window's state after some events.
pub open spec fn app_after(app: AppView, events: Seq<UserEventView>) -> AppView
    decreases events.len(),
{
    if events.len() == 0 {
        app
    } else {
        updated(app_after(app, events.drop_last()), events.last())
    }
}

/// Everything that a window does that opens with these settings and then takes these events.
pub open spec fn app_run(args: ArgsView, events: Seq<UserEventView>) -> Seq<ActionView>
    decreases events.len(),
{
    if events.len() == 0 {
        seq![ActionView::Launch(args)]
    } else {
        app_run(args, events.drop_last()) + update_plan(
            app_after(opened_app(args), events.drop_last()),
            events.last(),
        )
    }
}

/// Whether every launch in `run` is followed by a cancellation.
pub open spec fn all_cancelled(run: Seq<ActionView>) -> bool {
    forall|i: int|
        0 <= i < run.len() && #[trigger] run[i] is Launch ==> exists|k: int|
            i < k < run.len() && #[trigger] run[k] is Cancel
}

/// At most one proxy is in use: between two launches the first one is cancelled. As long as the
/// window says that the proxy is stopped, every proxy that was launched is cancelled.
pub proof fn law_launches_do_not_overlap(args: ArgsView, events: Seq<UserEventView>)
    ensures
        ({
            let run = app_run(args, events);
            let app = app_after(opened_app(args), events);
            &&& app.runner.well_formed()
            &&& app.runner.has_token
            &&& !app.runner.running ==> all_cancelled(run)
            &&& forall|i: int, j: int|
                0 <= i < j < run.len() && #[trigger] run[i] is Launch && #[trigger] run[j] is Launch
                    ==> exists|k: int| i < k < j && #[trigger] run[k] is Cancel
        }),
    decreases events.len(),
{
    if events.len() > 0 {
        law_launches_do_not_overlap(args, events.drop_last());
        let before = app_run(args, events.drop_last());
        let app = app_after(opened_app(args), events.drop_last());
        let added = update_plan(app, events.last());
        let run = app_run(args, events);
        assert(forall|i: int| 0 <= i < before.len() ==> #[trigger] run[i] == before[i]);
        assert(forall|i: int|
            before.len() <= i < run.len() ==> #[trigger] run[i] == added[i - before.len()]);
        assert forall|i: int, j: int|
            0 <= i < j < run.len() && #[trigger] run[i] is Launch && #[trigger] run[j] is Launch
            implies exists|k: int| i < k < j && #[trigger] run[k] is Cancel by {
            if j < before.len() {
                assert(before[i] is Launch && before[j] is Launch);
                let k = choose|k: int| i < k < j && #[trigger] before[k] is Cancel;
                assert(run[k] is Cancel);
            } else {
                assert(j == before.len() && !app.runner.running);
                assert(before[i] is Launch);
                let k = choose|k: int| i < k < before.len() && #[trigger] before[k] is Cancel;
                assert(run[k] is Cancel);
            }
        }
        let after = app_after(opened_app(args), events);
        if !after.runner.running {
            assert forall|i: int| 0 <= i < run.len() && #[trigger] run[i] is Launch implies exists|
                k: int,
            | i < k < run.len() && #[trigger] run[k] is Cancel by {
                if app.runner.running {
                    assert(run[before.len() as int] is Cancel);
                } else {
                    if i < before.len() {
                        assert(before[i] is Launch);
                        let k = choose|k: int|
                            i < k < before.len() && #[trigger] before[k] is Cancel;
                        assert(run[k] is Cancel);
                    }
                }
            }
        }
    }
}

/// A start uses the settings as they stand then; what is entered while the proxy runs does not
/// touch it.
pub proof fn law_start_uses_entered_settings(app: AppView, event: UserEventView)
    ensures
        !app.runner.running ==> update_plan(app, UserEventView::ControlClicked) == seq![
            ActionView::Launch(app.args),
        ],
        (event is BindEntered || event is PortChanged || event is PoolChanged) ==> update_plan(
            app,
            event,
        ) == Seq::<ActionView>::empty() && updated(app, event).runner == app.runner,
{
}

/// To start a proxy that runs, or to stop one that is stopped, changes nothing. A stop ends what a
/// start began, and a start after it launches anew.
pub proof fn law_start_and_stop(runner: ProxyRunner, args: ArgsView)
    ensures
        started(started(runner)) == started(runner),
        start_plan(started(runner), args) == Seq::<ActionView>::empty(),
        stopped(stopped(runner)) == stopped(runner),
        stop_plan(stopped(runner)) == stop_plan(runner),
        started(runner).running && !stopped(runner).running,
        runner.well_formed() ==> stop_plan(started(runner)) == seq![ActionView::Cancel],
        start_plan(stopped(runner), args) == seq![ActionView::Launch(args)],
{
}

/// Whether a port can be entered.
pub open spec fn port_allowed(port: u16) -> bool {
    PORT_MIN <= port <= PORT_MAX
}

/// Whether a pool size can be entered.
pub open spec fn pool_allowed(pool_size: i32) -> bool {
    POOL_MIN <= pool_size <= POOL_MAX
}

/// Whether the fields of the window, which keep to their ranges, can give rise to an event.
pub open spec fn event_allowed(event: UserEventView) -> bool {
    match event {
        UserEventView::PortChanged(port) => port_allowed(port),
        UserEventView::PoolChanged(size) => pool_allowed(size),
        _ => true,
    }
}

/// Whether the port and the pool size of `after` are those of `before` or could be entered.
pub open spec fn changed_within_ranges(before: ArgsView, after: ArgsView) -> bool {
    &&& after.port == before.port || port_allowed(after.port)
    &&& after.pool_size == before.pool_size || pool_allowed(after.pool_size)
}

/// An event changes the port only to one from 1 to 65535, and the pool size only to one from 1 to
/// 32; no event but these two changes either.
pub proof fn law_entered_values_are_in_range(app: AppView, event: UserEventView)
    requires
        event_allowed(event),
    ensures
        changed_within_ranges(app.args, updated(app, event).args),
        updated(app, event).args.port != app.args.port ==> event is PortChanged && 1 <= updated(
            app,
            event,
        ).args.port <= 65535,
        updated(app, event).args.pool_size != app.args.pool_size ==> event is PoolChanged && 1
            <= updated(app, event).args.pool_size <= 32,
{
}

/// However long a window is used, its port and pool size, and those of every proxy that it
/// launches, are the ones that it opened with or lie in the ranges of their fields.
pub proof fn law_settings_stay_in_range(args: ArgsView, events: Seq<UserEventView>)
    requires
        forall|i: int| 0 <= i < events.len() ==> event_allowed(#[trigger] events[i]),
    ensures
        changed_within_ranges(args, app_after(opened_app(args), events).args),
        forall|i: int|
            0 <= i < app_run(args, events).len() ==> (#[trigger] app_run(args, events)[i]
                matches ActionView::Launch(launched) ==> changed_within_ranges(args, launched)),
    decreases events.len(),
{
    if events.len() > 0 {
        let earlier = events.drop_last();
        assert forall|i: int| 0 <= i < earlier.len() implies event_allowed(#[trigger] earlier[i]) by {
            assert(earlier[i] == events[i]);
        }
        assert(event_allowed(events[events.len() - 1]));
        law_settings_stay_in_range(args, earlier);
        let before = app_run(args, earlier);
        let added = update_plan(app_after(opened_app(args), earlier), events.last());
        let run = app_run(args, events);
        assert forall|i: int| 0 <= i < run.len() implies (#[trigger] run[i]
            matches ActionView::Launch(launched) ==> changed_within_ranges(args, launched)) by {
            if i < before.len() {
                assert(run[i] == before[i]);
            } else {
                assert(run[i] == added[i - before.len()]);
            }
        }
    }
}

/// What is entered counts at once, whether or not the proxy is running: it changes its own setting
/// and no other, and neither starts nor stops anything.
pub proof fn law_what_is_entered_counts(
    app: AppView,
    bind: Seq<char>,
    port: u16,
    pool_size: i32,
)
    ensures
        ({
            let after = updated(app, UserEventView::BindEntered(bind));
            &&& after.args.bind == bind
            &&& after.args.port == app.args.port
            &&& after.args.pool_size == app.args.pool_size
            &&& keeps_the_rest(app, after)
            &&& update_plan(app, UserEventView::BindEntered(bind)).len() == 0
        }),
        ({
            let after = updated(app, UserEventView::PortChanged(port));
            &&& after.args.bind == app.args.bind
            &&& after.args.port == port
            &&& after.args.pool_size == app.args.pool_size
            &&& keeps_the_rest(app, after)
            &&& update_plan(app, UserEventView::PortChanged(port)).len() == 0
        }),
        ({
            let after = updated(app, UserEventView::PoolChanged(pool_size));
            &&& after.args.bind == app.args.bind
            &&& after.args.port == app.args.port
            &&& after.args.pool_size == pool_size
            &&& keeps_the_rest(app, after)
            &&& update_plan(app, UserEventView::PoolChanged(pool_size)).len() == 0
        }),
{
}

/// Whether the runner and the settings that the window has no field for are the same.
pub open spec fn keeps_the_rest(before: AppView, after: AppView) -> bool {
    &&& after.runner.has_token == before.runner.has_token
    &&& after.runner.running == before.runner.running
    &&& after.args.secret == before.args.secret
    &&& after.args.dc_ips == before.args.dc_ips
    &&& after.args.verbose == before.args.verbose
    &&& after.args.log_file == before.args.log_file
}

/// A click on the control button stops a proxy that runs, by cancelling it, and starts one that
/// does not, with the settings as they stand. It changes no setting.
pub proof fn law_control_button_toggles(app: AppView)
    ensures
        ({
            let after = updated(app, UserEventView::ControlClicked);
            let plan = update_plan(app, UserEventView::ControlClicked);
            &&& after.runner.running == !app.runner.running
            &&& after.args == app.args
            &&& app.runner.running ==> {
                &&& after.runner.has_token == app.runner.has_token
                &&& app.runner.has_token ==> plan.len() == 1 && plan[0] is Cancel
                &&& !app.runner.has_token ==> plan.len() == 0
            }
            &&& !app.runner.running ==> {
                &&& after.runner.has_token
                &&& plan.len() == 1
                &&& plan[0] == ActionView::Launch(app.args)
            }
        }),
{
}

/// A start launches a proxy where none runs, with the settings that it is given, and is nothing at
/// all where one does. A stop cancels whatever was ever started, whether or not it still runs.
pub proof fn law_what_start_and_stop_do(runner: ProxyRunner, args: ArgsView)
    ensures
        runner.running ==> started(runner) == runner && start_plan(runner, args).len() == 0,
        !runner.running ==> {
            &&& started(runner).running
            &&& started(runner).has_token
            &&& start_plan(runner, args).len() == 1
            &&& start_plan(runner, args)[0] == ActionView::Launch(args)
        },
        !stopped(runner).running,
        stopped(runner).has_token == runner.has_token,
        runner.has_token ==> stop_plan(runner).len() == 1 && stop_plan(runner)[0] is Cancel,
        !runner.has_token ==> stop_plan(runner).len() == 0,
{
}

/// The exit button always ends the program, as its last step and with exit code 0; before that it
/// cancels the proxy, if one was ever started. No other event ends the program.
pub proof fn law_exit_button_ends_the_program(app: AppView, event: UserEventView)
    ensures
        ({
            let after = updated(app, UserEventView::ExitClicked);
            let plan = update_plan(app, UserEventView::ExitClicked);
            &&& !after.runner.running
            &&& after.runner.has_token == app.runner.has_token
            &&& after.args == app.args
            &&& plan.last() == ActionView::Exit(0)
            &&& app.runner.has_token ==> plan.len() == 2 && plan[0] is Cancel
            &&& !app.runner.has_token ==> plan.len() == 1
        }),
        !(event is ExitClicked) ==> forall|i: int|
            0 <= i < update_plan(app, event).len() ==> !(#[trigger] update_plan(app, event)[i]
                is Exit),
{
}

/// A window opens with the proxy running and with the settings that it was given.
pub proof fn law_window_opens_running(args: ArgsView)
    ensures
        opened_app(args).args == args,
        opened_app(args).runner.running,
        opened_app(args).runner.has_token,
{
}

/// A setting that no event enters stays what it was; those that the window has no field for always
/// do.
pub proof fn law_what_is_not_entered_stays(app: AppView, events: Seq<UserEventView>)
    ensures
        ({
            let args = app_after(app, events).args;
            &&& (forall|i: int| 0 <= i < events.len() ==> !(#[trigger] events[i] is BindEntered))
                ==> args.bind == app.args.bind
            &&& (forall|i: int| 0 <= i < events.len() ==> !(#[trigger] events[i] is PortChanged))
                ==> args.port == app.args.port
            &&& (forall|i: int| 0 <= i < events.len() ==> !(#[trigger] events[i] is PoolChanged))
                ==> args.pool_size == app.args.pool_size
            &&& args.secret == app.args.secret
            &&& args.dc_ips == app.args.dc_ips
            &&& args.verbose == app.args.verbose
            &&& args.log_file == app.args.log_file
        }),
    decreases events.len(),
{
    if events.len() > 0 {
        let earlier = events.drop_last();
        law_what_is_not_entered_stays(app, earlier);
        assert(forall|i: int| 0 <= i < earlier.len() ==> #[trigger] earlier[i] == events[i]);
        assert(events.last() == events[events.len() - 1]);
    }
}

/// Events one after the other.
proof fn lemma_events_in_order(
    app: AppView,
    first: Seq<UserEventView>,
    second: Seq<UserEventView>,
)
    ensures
        app_after(app, first + second) == app_after(app_after(app, first), second),
    decreases second.len(),
{
    if second.len() == 0 {
        assert(first + second =~= first);
    } else {
        lemma_events_in_order(app, first, second.drop_last());
        assert((first + second).drop_last() =~= first + second.drop_last());
        assert((first + second).last() == second.last());
    }
}

/// Of what is entered for a setting the last counts, whatever else happens in between: where
/// `event` is the last one that enters a setting, that is what the setting is, and what a click
/// that starts the proxy launches it with.
pub proof fn law_what_was_entered_last_counts(
    app: AppView,
    before: Seq<UserEventView>,
    event: UserEventView,
    later: Seq<UserEventView>,
)
    ensures
        ({
            let after = app_after(app, before.push(event) + later);
            let click = update_plan(after, UserEventView::ControlClicked);
            match event {
                UserEventView::BindEntered(bind) => (forall|i: int|
                    0 <= i < later.len() ==> !(#[trigger] later[i] is BindEntered)) ==> {
                    &&& after.args.bind == bind
                    &&& !after.runner.running ==> (click[0] matches ActionView::Launch(args)
                        && args.bind == bind)
                },
                UserEventView::PortChanged(port) => (forall|i: int|
                    0 <= i < later.len() ==> !(#[trigger] later[i] is PortChanged)) ==> {
                    &&& after.args.port == port
                    &&& !after.runner.running ==> (click[0] matches ActionView::Launch(args)
                        && args.port == port)
                },
                UserEventView::PoolChanged(size) => (forall|i: int|
                    0 <= i < later.len() ==> !(#[trigger] later[i] is PoolChanged)) ==> {
                    &&& after.args.pool_size == size
                    &&& !after.runner.running ==> (click[0] matches ActionView::Launch(args)
                        && args.pool_size == size)
                },
                _ => true,
            }
        }),
{
    lemma_events_in_order(app, before.push(event), later);
    let middle = app_after(app, before.push(event));
    assert(before.push(event).drop_last() =~= before);
    assert(middle == updated(app_after(app, before), event));
    law_what_is_not_entered_stays(middle, later);
    law_control_button_toggles(app_after(middle, later));
}

/// The panel shows every line of a short log and exactly the last 500 of a longer one; a further
/// line moves the others up by one place.
pub proof fn law_log_shows_as_many_lines_as_it_can(lines: Seq<Seq<char>>, line: Seq<char>, i: int)
    ensures
        shown_lines(lines).len() == if lines.len() < 500 {
            lines.len()
        } else {
            500
        },
        0 <= i < shown_lines(lines).len() ==> shown_lines(lines)[i] == lines[lines.len()
            - shown_lines(lines).len() + i],
        shown_lines(lines.push(line)).last() == line,
        lines.len() >= 500 && 0 <= i < 499 ==> shown_lines(lines.push(line))[i] == shown_lines(
            lines,
        )[i + 1],
{
}

/// The text of the panel holds every line whole, with one line break between each and the next
/// and none at either end.
pub proof fn law_log_text_grows_by_lines(lines: Seq<Seq<char>>, line: Seq<char>)
    ensures
        joined_lines(Seq::empty()).len() == 0,
        joined_lines(seq![line]) == line,
        lines.len() > 0 ==> joined_lines(lines.push(line)) == joined_lines(lines).push('\n')
            + line,
{
    reveal_strlit("\n");
    assert(lines.push(line).drop_last() =~= lines);
    assert("\n"@ =~= seq!['\n']);
    if lines.len() > 0 {
        assert(joined_lines(lines) + "\n"@ =~= joined_lines(lines).push('\n'));
    }
}

/// The window's state, a user event, and what they say agree field by field.
pub proof fn law_view_keeps_the_window(app: ProxyApp, event: UserEvent)
    ensures
        app@.runner == app.runner,
        app@.args == app.args@,
        match event@ {
            UserEventView::ControlClicked => event is ControlClicked,
            UserEventView::BindEntered(x) => event matches UserEvent::BindEntered(a) && a@ == x,
            UserEventView::PortChanged(x) => event matches UserEvent::PortChanged(a) && a == x,
            UserEventView::PoolChanged(x) => event matches UserEvent::PoolChanged(a) && a == x,
            UserEventView::ExitClicked => event is ExitClicked,
        },
{
}

} // verus!
