use tgws_launcher::plan::{
    service_status, Action, ControlsAccepted, Level, ServiceExitCode, ServiceState, ServiceStatus,
    ServiceType, Stream,
};
use tgws_launcher::service::{
    after_register, after_running_report, answer_control, install_service, registration,
    removal_request, service_name, try_run_as_service, uninstall_service, Control, ControlAnswer,
    ErrorControl, Installation, ManagerAccess, Registration, Removal, RemovalRequest,
    ServiceAccess, ServiceConfig, StartType,
};

fn output(text: &str) -> Action {
    Action::Print(Stream::Output, text.to_string())
}

fn complaint(text: &str) -> Action {
    Action::Print(Stream::Error, text.to_string())
}

fn error() -> String {
    "отказ".to_string()
}

fn config() -> ServiceConfig {
    ServiceConfig {
        bind: "0.0.0.0".to_string(),
        port: 443,
        dc_ips: "4:149.154.167.91".to_string(),
        pool_size: 2,
        verbose: false,
        log_file: "service.log".to_string(),
    }
}

#[test]
fn registration_of_the_program() {
    assert_eq!(
        registration("C:\\tg\\tgwsproxy-cli.exe"),
        Registration {
            manager_access: ManagerAccess::Connect,
            service_access: ServiceAccess::ChangeConfig,
            name: "TgWsProxy".to_string(),
            display_name: "TG WS Proxy".to_string(),
            service_type: ServiceType::OwnProcess,
            start_type: StartType::Automatic,
            error_control: ErrorControl::Normal,
            executable_path: "C:\\tg\\tgwsproxy-cli.exe".to_string(),
            launch_arguments: Vec::new(),
            dependencies: Vec::new(),
            account_name: None,
            account_password: None,
        }
    );
    assert_eq!(registration("x").name, service_name());
}

#[test]
fn removal_of_the_program() {
    assert_eq!(
        removal_request(),
        RemovalRequest {
            manager_access: ManagerAccess::Connect,
            service_access: ServiceAccess::Delete,
            name: "TgWsProxy".to_string(),
        }
    );
}

#[test]
fn every_field_of_a_status() {
    assert_eq!(
        service_status(ServiceState::Stopped, 1),
        ServiceStatus {
            service_type: ServiceType::OwnProcess,
            current_state: ServiceState::Stopped,
            controls_accepted: ControlsAccepted::StopOnly,
            exit_code: ServiceExitCode::Win32(1),
            checkpoint: 0,
            wait_hint_millis: 0,
            process_id: None,
        }
    );
    assert_eq!(service_status(ServiceState::Running, 0).current_state, ServiceState::Running);
}

#[test]
fn installing() {
    assert_eq!(
        install_service(Installation::Created).steps,
        vec![
            output("Служба 'TgWsProxy' установлена."),
            output("Запустите: sc start TgWsProxy"),
        ]
    );
    assert_eq!(
        install_service(Installation::NoManager(error())).steps,
        vec![complaint("Ошибка подключения к SCM: отказ"), Action::Exit(1)]
    );
    assert_eq!(
        install_service(Installation::NotCreated(error())).steps,
        vec![complaint("Ошибка установки службы: отказ"), Action::Exit(1)]
    );
}

#[test]
fn uninstalling() {
    assert_eq!(
        uninstall_service(Removal::Deleted).steps,
        vec![output("Служба 'TgWsProxy' удалена.")]
    );
    assert_eq!(
        uninstall_service(Removal::NoManager(error())).steps,
        vec![complaint("Ошибка подключения к SCM: отказ"), Action::Exit(1)]
    );
    assert_eq!(
        uninstall_service(Removal::NotFound(error())).steps,
        vec![complaint("Служба 'TgWsProxy' не найдена: отказ"), Action::Exit(1)]
    );
    assert_eq!(
        uninstall_service(Removal::NotDeleted(error())).steps,
        vec![complaint("Ошибка удаления службы: отказ"), Action::Exit(1)]
    );
}

#[test]
fn dispatched_service_ends_the_process() {
    let (plan, result) = try_run_as_service(Ok(()));
    assert_eq!(plan.steps, vec![Action::Exit(0)]);
    assert_eq!(result, Ok(()));
}

#[test]
fn process_that_is_no_service_gets_the_error_back() {
    let (plan, result) = try_run_as_service(Err(error()));
    assert_eq!(
        plan.steps,
        vec![Action::Log(
            Level::Debug,
            "не удалось запуститься как служба: отказ".to_string(),
        )]
    );
    assert_eq!(result, Err(error()));
}

#[test]
fn control_requests() {
    assert_eq!(answer_control(Control::Stop), ControlAnswer::Cancel);
    assert_eq!(answer_control(Control::Shutdown), ControlAnswer::Cancel);
    assert_eq!(answer_control(Control::Other), ControlAnswer::NotSupported);
}

#[test]
fn registered_service_reports_that_it_runs() {
    assert_eq!(
        after_register(Ok(())).steps,
        vec![Action::Report(service_status(ServiceState::Running, 0))]
    );
    assert_eq!(
        after_register(Err(error())).steps,
        vec![complaint("Ошибка регистрации обработчика службы: отказ")]
    );
}

#[test]
fn running_service_opens_the_proxy() {
    assert_eq!(
        after_running_report(&config(), Ok(())).steps,
        vec![
            Action::InitLogging(false),
            Action::InitFileLogging("service.log".to_string()),
            Action::ClearCooldowns,
            Action::InitDomains,
            Action::SetPoolSize(2),
            Action::PreparePool("4:149.154.167.91".to_string()),
            Action::Listen("0.0.0.0:443".to_string()),
        ]
    );
    assert_eq!(
        after_running_report(&config(), Err(error())).steps,
        vec![complaint("Ошибка установки статуса Running: отказ")]
    );
}
