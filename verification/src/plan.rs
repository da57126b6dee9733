//! Plans: what the program is to do, as a list of actions.
use vstd::prelude::*;

use crate::args::{Args, ArgsView};
use crate::config::{Config, ConfigView};

verus! {

/// How grave a log entry is.
#[derive(Clone, Copy, Debug, PartialEq, Eq, Structural)]
pub enum Level {
    Debug,
    Info,
    Warn,
    Error,
}

/// A standard stream of the process.
#[derive(Clone, Copy, Debug, PartialEq, Eq, Structural)]
pub enum Stream {
    Output,
    Error,
}

/// How a service shares its process.
#[derive(Clone, Copy, Debug, PartialEq, Eq, Structural)]
pub enum ServiceType {
    OwnProcess,
    ShareProcess,
}

/// The states of the service that are reported to the service manager.
#[derive(Clone, Copy, Debug, PartialEq, Eq, Structural)]
pub enum ServiceState {
    Running,
    Stopped,
}

/// The control requests that a service accepts.
#[derive(Clone, Copy, Debug, PartialEq, Eq, Structural)]
pub enum ControlsAccepted {
    Nothing,
    StopOnly,
    StopAndShutdown,
}

/// The exit code of a service: one of the system's, or one of its own.
#[derive(Clone, Copy, Debug, PartialEq, Eq, Structural)]
pub enum ServiceExitCode {
    Win32(u32),
    ServiceSpecific(u32),
}

/// What the service manager is told of the service when its state changes.
#[derive(Clone, Copy, Debug, PartialEq, Eq, Structural)]
pub struct ServiceStatus {
    pub service_type: ServiceType,
    pub current_state: ServiceState,
    pub controls_accepted: ControlsAccepted,
    pub exit_code: ServiceExitCode,
    pub checkpoint: u32,
    pub wait_hint_millis: u64,
    pub process_id: Option<u32>,
}

/// The status of this service in a state and with an exit code of the system's. The service has a
/// process of its own, which is not named, accepts only the request to stop, and is never in
/// the middle of a change of state.
pub open spec fn status_in(state: ServiceState, code: u32) -> ServiceStatus {
    ServiceStatus {
        service_type: ServiceType::OwnProcess,
        current_state: state,
        controls_accepted: ControlsAccepted::StopOnly,
        exit_code: ServiceExitCode::Win32(code),
        checkpoint: 0,
        wait_hint_millis: 0,
        process_id: None,
    }
}

/// The status of this service in a state and with an exit code of the system's.
pub fn service_status(state: ServiceState, code: u32) -> (r: ServiceStatus)
    ensures
        r == status_in(state, code),
{
    ServiceStatus {
        service_type: ServiceType::OwnProcess,
        current_state: state,
        controls_accepted: ControlsAccepted::StopOnly,
        exit_code: ServiceExitCode::Win32(code),
        checkpoint: 0,
        wait_hint_millis: 0,
        process_id: None,
    }
}

/// One thing for the program to do.
#[derive(Debug, PartialEq, Eq)]
pub enum Action {
    /// Write a line to a standard stream.
    Print(Stream, String),
    /// Write a log entry.
    Log(Level, String),
    /// Open the log, verbose or not.
    InitLogging(bool),
    /// Log to the named file as well.
    InitFileLogging(String),
    /// Make this the secret that clients of the proxy must know.
    SetSecret(String),
    /// Serialise the configuration and go on as `save_config` says.
    SaveConfig(Config),
    /// Write this text to the configuration file, whether or not that succeeds.
    WriteConfigFile(String),
    /// Forget which relay domains had been refusing connections.
    ClearCooldowns,
    /// Load the list of relay domains.
    InitDomains,
    /// Set the number of connections that the pool holds.
    SetPoolSize(i32),
    /// Read the datacenter addresses from this list and create the connection pool.
    PreparePool(String),
    /// Open a listening socket on this address and go on as `after_listen` says.
    Listen(String),
    /// Go on as `after_interrupt` says when the user interrupts the program.
    WatchInterrupt,
    /// Tell the tray whether the proxy is running.
    MarkRunning(bool),
    /// Report a status to the service manager.
    Report(ServiceStatus),
    /// Run the proxy on the open socket, for this host and port, until it ends, and go on as
    /// `after_serve` says.
    Serve(String, u16),
    /// Start a proxy of these arguments in a thread of its own, with a fresh cancellation token.
    Launch(Args),
    /// Cancel the token of the proxy that was started last.
    Cancel,
    /// Sleep for this number of milliseconds.
    Pause(u64),
    /// End the process with this exit code.
    Exit(i32),
}

/// What an action says, with its texts as character sequences.
pub enum ActionView {
    Print(Stream, Seq<char>),
    Log(Level, Seq<char>),
    InitLogging(bool),
    InitFileLogging(Seq<char>),
    SetSecret(Seq<char>),
    SaveConfig(ConfigView),
    WriteConfigFile(Seq<char>),
    ClearCooldowns,
    InitDomains,
    SetPoolSize(i32),
    PreparePool(Seq<char>),
    Listen(Seq<char>),
    WatchInterrupt,
    MarkRunning(bool),
    Report(ServiceStatus),
    Serve(Seq<char>, u16),
    Launch(ArgsView),
    Cancel,
    Pause(u64),
    Exit(i32),
}

impl View for Action {
    type V = ActionView;

    open spec fn view(&self) -> ActionView {
        match *self {
            Action::Print(stream, text) => ActionView::Print(stream, text@),
            Action::Log(level, text) => ActionView::Log(level, text@),
            Action::InitLogging(verbose) => ActionView::InitLogging(verbose),
            Action::InitFileLogging(file) => ActionView::InitFileLogging(file@),
            Action::SetSecret(secret) => ActionView::SetSecret(secret@),
            Action::SaveConfig(config) => ActionView::SaveConfig(config@),
            Action::WriteConfigFile(text) => ActionView::WriteConfigFile(text@),
            Action::ClearCooldowns => ActionView::ClearCooldowns,
            Action::InitDomains => ActionView::InitDomains,
            Action::SetPoolSize(size) => ActionView::SetPoolSize(size),
            Action::PreparePool(dc_ips) => ActionView::PreparePool(dc_ips@),
            Action::Listen(address) => ActionView::Listen(address@),
            Action::WatchInterrupt => ActionView::WatchInterrupt,
            Action::MarkRunning(running) => ActionView::MarkRunning(running),
            Action::Report(status) => ActionView::Report(status),
            Action::Serve(bind, port) => ActionView::Serve(bind@, port),
            Action::Launch(args) => ActionView::Launch(args@),
            Action::Cancel => ActionView::Cancel,
            Action::Pause(millis) => ActionView::Pause(millis),
            Action::Exit(code) => ActionView::Exit(code),
        }
    }
}

/// Actions to be performed one after the other.
#[derive(Debug, PartialEq, Eq)]
pub struct Plan {
    pub steps: Vec<Action>,
}

impl View for Plan {
    type V = Seq<ActionView>;

    open spec fn view(&self) -> Seq<ActionView> {
        self.steps@.map_values(|step: Action| step@)
    }
}

impl Plan {
    /// The plan to do nothing.
    pub fn new() -> (r: Plan)
        ensures
            r@ == Seq::<ActionView>::empty(),
    {
        let r = Plan { steps: Vec::new() };
        assert(r@ =~= Seq::<ActionView>::empty());
        r
    }

    /// Adds an action at the end.
    pub(crate) fn push(&mut self, action: Action)
        ensures
            final(self)@ == old(self)@.push(action@),
    {
        self.steps.push(action);
        assert(self@ =~= old(self)@.push(action@));
    }

    /// Adds the actions of another plan at the end.
    pub(crate) fn append(&mut self, other: Plan)
        ensures
            final(self)@ == old(self)@ + other@,
    {
        let mut steps = other.steps;
        self.steps.append(&mut steps);
        assert(self@ =~= old(self)@ + other@);
    }

    /// Adds a log entry at the end.
    pub(crate) fn log(&mut self, level: Level, text: &str)
        ensures
            final(self)@ == old(self)@.push(ActionView::Log(level, text@)),
    {
        self.push(Action::Log(level, text.to_owned()));
    }

    /// Adds a line for a standard stream at the end.
    pub(crate) fn print(&mut self, stream: Stream, text: &str)
        ensures
            final(self)@ == old(self)@.push(ActionView::Print(stream, text@)),
    {
        self.push(Action::Print(stream, text.to_owned()));
    }
}

/// The error of an attempt, if it failed.
pub open spec fn error_of(attempt: Result<(), String>) -> Option<Seq<char>> {
    match attempt {
        Ok(_) => None,
        Err(error) => Some(error@),
    }
}

/// A plan and what it says agree step by step.
pub proof fn law_view_keeps_the_steps(plan: Plan, i: int)
    requires
        0 <= i < plan.steps@.len(),
    ensures
        plan@.len() == plan.steps@.len(),
        plan@[i] == plan.steps@[i]@,
{
}

/// What an action says is the action, and all that it carries.
pub proof fn law_view_keeps_the_action(action: Action)
    ensures
        match action@ {
            ActionView::Print(x, y) => action matches Action::Print(a, b) && a == x && b@ == y,
            ActionView::Log(x, y) => action matches Action::Log(a, b) && a == x && b@ == y,
            ActionView::InitLogging(x) => action matches Action::InitLogging(a) && a == x,
            ActionView::InitFileLogging(x) => action matches Action::InitFileLogging(a) && a@ == x,
            ActionView::SetSecret(x) => action matches Action::SetSecret(a) && a@ == x,
            ActionView::SaveConfig(x) => action matches Action::SaveConfig(a) && a@ == x,
            ActionView::WriteConfigFile(x) => action matches Action::WriteConfigFile(a) && a@ == x,
            ActionView::ClearCooldowns => action is ClearCooldowns,
            ActionView::InitDomains => action is InitDomains,
            ActionView::SetPoolSize(x) => action matches Action::SetPoolSize(a) && a == x,
            ActionView::PreparePool(x) => action matches Action::PreparePool(a) && a@ == x,
            ActionView::Listen(x) => action matches Action::Listen(a) && a@ == x,
            ActionView::WatchInterrupt => action is WatchInterrupt,
            ActionView::MarkRunning(x) => action matches Action::MarkRunning(a) && a == x,
            ActionView::Report(x) => action matches Action::Report(a) && a == x,
            ActionView::Serve(x, y) => action matches Action::Serve(a, b) && a@ == x && b == y,
            ActionView::Launch(x) => action matches Action::Launch(a) && a@ == x,
            ActionView::Cancel => action is Cancel,
            ActionView::Pause(x) => action matches Action::Pause(a) && a == x,
            ActionView::Exit(x) => action matches Action::Exit(a) && a == x,
        },
{
}

/// The status of the service says its state and its exit code, whatever they are. The rest of it
/// never changes.
pub proof fn law_status_says_state_and_code(state: ServiceState, code: u32)
    ensures
        status_in(state, code).current_state == state,
        status_in(state, code).exit_code == ServiceExitCode::Win32(code),
        status_in(state, code).service_type is OwnProcess,
        status_in(state, code).controls_accepted is StopOnly,
        status_in(state, code).checkpoint == 0,
        status_in(state, code).wait_hint_millis == 0,
        status_in(state, code).process_id is None,
{
}

/// An attempt has an error exactly where it failed, and then the one that it failed with.
pub proof fn law_error_of_an_attempt(error: String)
    ensures
        error_of(Ok(())) is None,
        error_of(Err(error)) == Some(error@),
{
}

} // verus!
