//! The Windows service: its registration, what it tells the service manager, and its start.
use vstd::prelude::*;

use crate::plan::{
    service_status, status_in, Action, ActionView, Level, Plan, ServiceState, ServiceType, Stream,
};
use crate::text::{address, joined, listen_address};

verus! {

/// The settings of the service.
#[derive(Debug, PartialEq, Eq)]
pub struct ServiceConfig {
    /// The host to listen on.
    pub bind: String,
    /// The port to listen on.
    pub port: u16,
    /// The datacenter addresses, as `1:ip1,2:ip2,...`.
    pub dc_ips: String,
    /// The number of connections that the pool holds.
    pub pool_size: i32,
    /// Whether to log in detail.
    pub verbose: bool,
    /// The file to log to as well.
    pub log_file: String,
}

/// What the settings of the service say, with their texts as character sequences.
#[verifier::ext_equal]
pub struct ServiceConfigView {
    pub bind: Seq<char>,
    pub port: u16,
    pub dc_ips: Seq<char>,
    pub pool_size: i32,
    pub verbose: bool,
    pub log_file: Seq<char>,
}

impl View for ServiceConfig {
    type V = ServiceConfigView;

    open spec fn view(&self) -> ServiceConfigView {
        ServiceConfigView {
            bind: self.bind@,
            port: self.port,
            dc_ips: self.dc_ips@,
            pool_size: self.pool_size,
            verbose: self.verbose,
            log_file: self.log_file@,
        }
    }
}

/// When a service starts.
#[derive(Clone, Copy, Debug, PartialEq, Eq, Structural)]
pub enum StartType {
    /// With the system.
    Automatic,
    OnDemand,
    Disabled,
}

/// What the system does when a service fails to start.
#[derive(Clone, Copy, Debug, PartialEq, Eq, Structural)]
pub enum ErrorControl {
    Ignore,
    Normal,
    Severe,
    Critical,
}

/// The rights on the service manager that are asked for.
#[derive(Clone, Copy, Debug, PartialEq, Eq, Structural)]
pub enum ManagerAccess {
    Connect,
    CreateService,
}

/// The rights on the service that are asked for.
#[derive(Clone, Copy, Debug, PartialEq, Eq, Structural)]
pub enum ServiceAccess {
    ChangeConfig,
    Delete,
}

/// What the service manager is asked for when the service is installed.
#[derive(Debug, PartialEq, Eq)]
pub struct Registration {
    pub manager_access: ManagerAccess,
    pub service_access: ServiceAccess,
    pub name: String,
    pub display_name: String,
    pub service_type: ServiceType,
    pub start_type: StartType,
    pub error_control: ErrorControl,
    pub executable_path: String,
    pub launch_arguments: Vec<String>,
    /// The names of the services that must start first.
    pub dependencies: Vec<String>,
    /// The account that the service runs as; `None` for that of the system.
    pub account_name: Option<String>,
    pub account_password: Option<String>,
}

/// What the service manager is asked for when the service is removed.
#[derive(Debug, PartialEq, Eq)]
pub struct RemovalRequest {
    pub manager_access: ManagerAccess,
    pub service_access: ServiceAccess,
    pub name: String,
}

/// The name of the service.
pub fn service_name() -> (r: &'static str)
    ensures
        r@ == "TgWsProxy"@,
{
    "TgWsProxy"
}

/// What to register for the program at `exe_path`: a service in a process of its own, which
/// starts with the system, takes no launch arguments, depends on no other service, and runs as
/// the system.
pub fn registration(exe_path: &str) -> (r: Registration)
    ensures
        r.manager_access is Connect,
        r.service_access is ChangeConfig,
        r.name@ == "TgWsProxy"@,
        r.display_name@ == "TG WS Proxy"@,
        r.service_type is OwnProcess,
        r.start_type is Automatic,
        r.error_control is Normal,
        r.executable_path@ == exe_path@,
        r.launch_arguments@ == Seq::<String>::empty(),
        r.dependencies@ == Seq::<String>::empty(),
        r.account_name is None,
        r.account_password is None,
{
    Registration {
        manager_access: ManagerAccess::Connect,
        service_access: ServiceAccess::ChangeConfig,
        name: service_name().to_owned(),
        display_name: "TG WS Proxy".to_owned(),
        service_type: ServiceType::OwnProcess,
        start_type: StartType::Automatic,
        error_control: ErrorControl::Normal,
        executable_path: exe_path.to_owned(),
        launch_arguments: Vec::new(),
        dependencies: Vec::new(),
        account_name: None,
        account_password: None,
    }
}

/// What to ask for to remove the service.
pub fn removal_request() -> (r: RemovalRequest)
    ensures
        r.manager_access is Connect,
        r.service_access is Delete,
        r.name@ == "TgWsProxy"@,
{
    RemovalRequest {
        manager_access: ManagerAccess::Connect,
        service_access: ServiceAccess::Delete,
        name: service_name().to_owned(),
    }
}

/// How an attempt to install the service went. An error is given as its text.
#[derive(Debug, PartialEq, Eq)]
pub enum Installation {
    /// There is no connection to the service manager.
    NoManager(String),
    /// The service manager did not create the service.
    NotCreated(String),
    /// The service is installed.
    Created,
}

/// How an attempt to remove the service went. An error is given as its text.
#[derive(Debug, PartialEq, Eq)]
pub enum Removal {
    /// There is no connection to the service manager.
    NoManager(String),
    /// The service could not be opened.
    NotFound(String),
    /// The service manager did not delete the service.
    NotDeleted(String),
    /// The service is removed.
    Deleted,
}

/// A complaint, and the end of the process.
pub open spec fn failure(text: Seq<char>) -> Seq<ActionView> {
    seq![ActionView::Print(Stream::Error, text), ActionView::Exit(1)]
}

/// What `install_service` has the program do.
pub open spec fn install_plan(attempt: Installation) -> Seq<ActionView> {
    match attempt {
        Installation::NoManager(error) => failure("Ошибка подключения к SCM: "@ + error@),
        Installation::NotCreated(error) => failure("Ошибка установки службы: "@ + error@),
        Installation::Created => seq![
            ActionView::Print(Stream::Output, "Служба 'TgWsProxy' установлена."@),
            ActionView::Print(Stream::Output, "Запустите: sc start TgWsProxy"@),
        ],
    }
}

/// What `uninstall_service` has the program do.
pub open spec fn uninstall_plan(attempt: Removal) -> Seq<ActionView> {
    match attempt {
        Removal::NoManager(error) => failure("Ошибка подключения к SCM: "@ + error@),
        Removal::NotFound(error) => failure("Служба 'TgWsProxy' не найдена: "@ + error@),
        Removal::NotDeleted(error) => failure("Ошибка удаления службы: "@ + error@),
        Removal::Deleted => seq![
            ActionView::Print(Stream::Output, "Служба 'TgWsProxy' удалена."@),
        ],
    }
}

/// Complains of a failure and ends the process.
fn fail(what: &str, error: &str) -> (r: Plan)
    ensures
        r@ == failure(what@ + error@),
{
    let mut plan = Plan::new();
    plan.print(Stream::Error, joined(what, error).as_str());
    plan.push(Action::Exit(1));
    assert(plan@ =~= failure(what@ + error@));
    plan
}

/// Says how installing the service went.
pub fn install_service(attempt: Installation) -> (r: Plan)
    ensures
        r@ == install_plan(attempt),
{
    match attempt {
        Installation::NoManager(error) => fail("Ошибка подключения к SCM: ", error.as_str()),
        Installation::NotCreated(error) => fail("Ошибка установки службы: ", error.as_str()),
        Installation::Created => {
            let mut plan = Plan::new();
            plan.print(Stream::Output, "Служба 'TgWsProxy' установлена.");
            plan.print(Stream::Output, "Запустите: sc start TgWsProxy");
            assert(plan@ =~= install_plan(attempt));
            plan
        },
    }
}

/// Says how removing the service went.
pub fn uninstall_service(attempt: Removal) -> (r: Plan)
    ensures
        r@ == uninstall_plan(attempt),
{
    match attempt {
        Removal::NoManager(error) => fail("Ошибка подключения к SCM: ", error.as_str()),
        Removal::NotFound(error) => fail("Служба 'TgWsProxy' не найдена: ", error.as_str()),
        Removal::NotDeleted(error) => fail("Ошибка удаления службы: ", error.as_str()),
        Removal::Deleted => {
            let mut plan = Plan::new();
            plan.print(Stream::Output, "Служба 'TgWsProxy' удалена.");
            plan
        },
    }
}

/// Goes on once the service dispatcher came back. If it ran the service, the process is done. If
/// the service manager did not start this process, the error is handed back, and the caller runs
/// the program in its console mode.
pub fn try_run_as_service(dispatched: Result<(), String>) -> (r: (Plan, Result<(), String>))
    ensures
        dispatched is Ok ==> r.1 is Ok && r.0@ == seq![ActionView::Exit(0)],
        dispatched matches Err(error) ==> r.1 == Err::<(), String>(error) && r.0@ == seq![
            ActionView::Log(Level::Debug, "не удалось запуститься как служба: "@ + error@),
        ],
{
    let mut plan = Plan::new();
    match dispatched {
        Ok(_) => {
            plan.push(Action::Exit(0));
            (plan, Ok(()))
        },
        Err(error) => {
            plan.log(
                Level::Debug,
                joined("не удалось запуститься как служба: ", error.as_str()).as_str(),
            );
            (plan, Err(error))
        },
    }
}

/// The control requests of the service manager that the service tells apart.
#[derive(Clone, Copy, Debug, PartialEq, Eq, Structural)]
pub enum Control {
    Stop,
    Shutdown,
    Other,
}

/// The answer to a control request.
#[derive(Clone, Copy, Debug, PartialEq, Eq, Structural)]
pub enum ControlAnswer {
    /// Cancel the proxy, and say that the request was carried out.
    Cancel,
    /// Say that the request is not supported.
    NotSupported,
}

/// Answers a control request: the service stops when it is told to or the system shuts down.
pub fn answer_control(control: Control) -> (r: ControlAnswer)
    ensures
        r is Cancel <==> control is Stop || control is Shutdown,
{
    match control {
        Control::Stop | Control::Shutdown => ControlAnswer::Cancel,
        Control::Other => ControlAnswer::NotSupported,
    }
}

/// Goes on once the handler of control requests was registered, or could not be.
pub fn after_register(attempt: Result<(), String>) -> (r: Plan)
    ensures
        r@ == match attempt {
            Ok(_) => seq![ActionView::Report(status_in(ServiceState::Running, 0))],
            Err(error) => seq![
                ActionView::Print(
                    Stream::Error,
                    "Ошибка регистрации обработчика службы: "@ + error@,
                ),
            ],
        },
{
    let mut plan = Plan::new();
    match attempt {
        Ok(_) => {
            plan.push(Action::Report(service_status(ServiceState::Running, 0)));
        },
        Err(error) => {
            plan.print(
                Stream::Error,
                joined("Ошибка регистрации обработчика службы: ", error.as_str()).as_str(),
            );
        },
    }
    plan
}

/// What the service does from the report that it is running up to the attempt to listen.
pub open spec fn service_setup_plan(cfg: ServiceConfigView) -> Seq<ActionView> {
    seq![
        ActionView::InitLogging(cfg.verbose),
        ActionView::InitFileLogging(cfg.log_file),
        ActionView::ClearCooldowns,
        ActionView::InitDomains,
        ActionView::SetPoolSize(cfg.pool_size),
        ActionView::PreparePool(cfg.dc_ips),
        ActionView::Listen(address(cfg.bind, cfg.port)),
    ]
}

/// Goes on once the service manager was told that the service is running, or could not be.
pub fn after_running_report(cfg: &ServiceConfig, attempt: Result<(), String>) -> (r: Plan)
    ensures
        r@ == match attempt {
            Ok(_) => service_setup_plan(cfg@),
            Err(error) => seq![
                ActionView::Print(Stream::Error, "Ошибка установки статуса Running: "@ + error@),
            ],
        },
{
    let mut plan = Plan::new();
    match attempt {
        Ok(_) => {
            plan.push(Action::InitLogging(cfg.verbose));
            plan.push(Action::InitFileLogging(cfg.log_file.clone()));
            plan.push(Action::ClearCooldowns);
            plan.push(Action::InitDomains);
            plan.push(Action::SetPoolSize(cfg.pool_size));
            plan.push(Action::PreparePool(cfg.dc_ips.clone()));
            plan.push(Action::Listen(listen_address(cfg.bind.as_str(), cfg.port)));
            assert(plan@ =~= service_setup_plan(cfg@));
        },
        Err(error) => {
            plan.print(
                Stream::Error,
                joined("Ошибка установки статуса Running: ", error.as_str()).as_str(),
            );
        },
    }
    plan
}

/// Installing or removing the service ends the process with exit code 1 where it failed, and
/// only there; where it succeeded, it says so on the standard output.
pub proof fn law_only_failed_service_commands_exit(installed: Installation, removed: Removal)
    ensures
        install_plan(installed).last() == ActionView::Exit(1) <==> !(installed is Created),
        uninstall_plan(removed).last() == ActionView::Exit(1) <==> !(removed is Deleted),
        installed is Created ==> forall|i: int|
            0 <= i < install_plan(installed).len() ==> (#[trigger] install_plan(installed)[i]
                matches ActionView::Print(stream, _) && stream is Output),
        removed is Deleted ==> forall|i: int|
            0 <= i < uninstall_plan(removed).len() ==> (#[trigger] uninstall_plan(removed)[i]
                matches ActionView::Print(stream, _) && stream is Output),
{
}

/// Where a service command fails, one line on the standard error names what failed and ends with
/// the error, and the process ends with exit code 1.
pub proof fn law_failed_service_commands_name_the_error(error: String)
    ensures
        fails_with(install_plan(Installation::NoManager(error)), "Ошибка подключения к SCM: "@, error@),
        fails_with(install_plan(Installation::NotCreated(error)), "Ошибка установки службы: "@, error@),
        fails_with(uninstall_plan(Removal::NoManager(error)), "Ошибка подключения к SCM: "@, error@),
        fails_with(
            uninstall_plan(Removal::NotFound(error)),
            "Служба '"@ + ("TgWsProxy"@ + "' не найдена: "@),
            error@,
        ),
        fails_with(uninstall_plan(Removal::NotDeleted(error)), "Ошибка удаления службы: "@, error@),
{
    reveal_strlit("Служба '");
    reveal_strlit("TgWsProxy");
    reveal_strlit("' не найдена: ");
    reveal_strlit("Служба 'TgWsProxy' не найдена: ");
    assert("Служба 'TgWsProxy' не найдена: "@ =~= "Служба '"@ + ("TgWsProxy"@
        + "' не найдена: "@));
}

/// Whether a plan is one complaint, of this beginning and this error, and the end of the process.
pub open spec fn fails_with(plan: Seq<ActionView>, what: Seq<char>, error: Seq<char>) -> bool {
    &&& plan.len() == 2
    &&& plan[0] matches ActionView::Print(stream, text) && stream is Error && text == what + error
    &&& plan[1] == ActionView::Exit(1)
}

/// Where a service command succeeds, what it says names the service.
pub proof fn law_successful_service_commands_name_the_service()
    ensures
        install_plan(Installation::Created).len() == 2,
        install_plan(Installation::Created)[0] == ActionView::Print(
            Stream::Output,
            "Служба '"@ + ("TgWsProxy"@ + "' установлена."@),
        ),
        install_plan(Installation::Created)[1] == ActionView::Print(
            Stream::Output,
            "Запустите: sc start "@ + "TgWsProxy"@,
        ),
        uninstall_plan(Removal::Deleted).len() == 1,
        uninstall_plan(Removal::Deleted)[0] == ActionView::Print(
            Stream::Output,
            "Служба '"@ + ("TgWsProxy"@ + "' удалена."@),
        ),
{
    reveal_strlit("Служба '");
    reveal_strlit("TgWsProxy");
    reveal_strlit("' установлена.");
    reveal_strlit("' удалена.");
    reveal_strlit("Запустите: sc start ");
    reveal_strlit("Запустите: sc start TgWsProxy");
    reveal_strlit("Служба 'TgWsProxy' установлена.");
    reveal_strlit("Служба 'TgWsProxy' удалена.");
    assert("Служба 'TgWsProxy' установлена."@ =~= "Служба '"@ + ("TgWsProxy"@
        + "' установлена."@));
    assert("Запустите: sc start TgWsProxy"@ =~= "Запустите: sc start "@ + "TgWsProxy"@);
    assert("Служба 'TgWsProxy' удалена."@ =~= "Служба '"@ + ("TgWsProxy"@ + "' удалена."@));
}

/// The settings of the service and what they say agree field by field.
pub proof fn law_view_keeps_the_service_settings(cfg: ServiceConfig)
    ensures
        cfg@.bind == cfg.bind@,
        cfg@.port == cfg.port,
        cfg@.dc_ips == cfg.dc_ips@,
        cfg@.pool_size == cfg.pool_size,
        cfg@.verbose == cfg.verbose,
        cfg@.log_file == cfg.log_file@,
{
}

} // verus!
