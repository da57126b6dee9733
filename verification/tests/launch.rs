use tgws_launcher::args::{parse_args, Args, Parsed};
use tgws_launcher::config::{Config, ConfigFile};
use tgws_launcher::launch::{
    after_interrupt, after_listen, after_serve, console_setup, console_setup_with, console_start,
    desktop_opening, desktop_setup, settle_secret, settle_secret_with, Mode,
};
use tgws_launcher::plan::{service_status, Action, Level, Plan, ServiceState, Stream};
use tgws_launcher::secret::is_valid_secret;
use tgws_launcher::service::{after_register, after_running_report, ServiceConfig};

const SECRET: &str = "00112233445566778899aabbccddeeff";
const BYTES: [u8; 16] = [0x5a; 16];
const MADE: &str = "5a5a5a5a5a5a5a5a5a5a5a5a5a5a5a5a";

fn args(secret: &str) -> Args {
    Args {
        bind: "127.0.0.1".to_string(),
        port: 1443,
        secret: secret.to_string(),
        dc_ips: "2:149.154.167.220".to_string(),
        pool_size: 4,
        verbose: true,
        log_file: "proxy.log".to_string(),
    }
}

fn info(text: &str) -> Action {
    Action::Log(Level::Info, text.to_string())
}

fn opening() -> Vec<Action> {
    vec![
        Action::InitDomains,
        Action::SetPoolSize(4),
        Action::PreparePool("2:149.154.167.220".to_string()),
        Action::Listen("127.0.0.1:1443".to_string()),
    ]
}

fn failed() -> Result<(), String> {
    Err("занят".to_string())
}

#[test]
fn console_uses_a_valid_secret() {
    let mut config = Config::default();
    let mut expected = vec![
        Action::InitLogging(true),
        Action::ClearCooldowns,
        Action::SetSecret(SECRET.to_string()),
        info("секрет установлен из аргументов/конфига"),
    ];
    expected.append(&mut opening());
    assert_eq!(console_setup_with(&args(SECRET), &mut config, BYTES).steps, expected);
    assert_eq!(console_setup(&args(SECRET), &mut config).steps, expected);
    assert_eq!(config, Config::default());
}

#[test]
fn console_makes_a_missing_secret() {
    let mut config = Config::default();
    let plan = settle_secret_with("", &mut config, BYTES);
    let mut saved = Config::default();
    saved.secret = MADE.to_string();
    assert_eq!(config, saved);
    assert_eq!(
        plan.steps,
        vec![
            Action::SetSecret(MADE.to_string()),
            Action::SaveConfig(saved),
            info("сгенерирован новый секрет и сохранён в config.toml"),
        ]
    );
}

#[test]
fn console_replaces_an_invalid_secret() {
    let mut config = Config::default();
    let plan = settle_secret_with("short", &mut config, BYTES);
    assert_eq!(config.secret, MADE);
    assert_eq!(plan.steps.len(), 4);
    assert_eq!(
        plan.steps[0],
        Action::Log(
            Level::Warn,
            "некорректный секрет (нужно 32 hex символа), генерирую новый".to_string(),
        )
    );
    assert_eq!(plan.steps[1], Action::SetSecret(MADE.to_string()));
}

#[test]
fn random_secret_settles_the_matter() {
    let mut config = Config::default();
    let plan = settle_secret("", &mut config);
    assert!(is_valid_secret(&config.secret));
    assert_eq!(plan.steps[0], Action::SetSecret(config.secret.clone()));
    let plan = console_setup(&args("bad"), &mut config);
    assert_eq!(plan.steps[3], Action::SetSecret(config.secret.clone()));
    assert_eq!(plan.steps[9], Action::Listen("127.0.0.1:1443".to_string()));
}

#[test]
fn new_secret_is_used_again() {
    let mut config = Config::default();
    console_setup_with(&args(""), &mut config, BYTES);
    let saved = config.clone();
    let again = match parse_args(&saved, &vec!["tgwsproxy".to_string()]) {
        Parsed::Run(args) => args,
        Parsed::Quit(plan) => panic!("{:?}", plan),
    };
    let plan = console_setup_with(&again, &mut config, [7; 16]);
    assert_eq!(plan.steps[2], Action::SetSecret(MADE.to_string()));
    assert_eq!(config, saved);
    for step in plan.steps {
        assert!(!matches!(step, Action::SaveConfig(_)));
    }
}

#[test]
fn command_line_secret_goes_before_the_configured_one() {
    let mut config = Config::default();
    config.secret = MADE.to_string();
    let argv = vec!["tgwsproxy".to_string(), "--secret".to_string(), SECRET.to_string()];
    let chosen = match parse_args(&config, &argv) {
        Parsed::Run(args) => args,
        Parsed::Quit(plan) => panic!("{:?}", plan),
    };
    let plan = console_setup_with(&chosen, &mut config, [7; 16]);
    assert_eq!(plan.steps[2], Action::SetSecret(SECRET.to_string()));
    assert_eq!(config.secret, MADE);
}

#[test]
fn desktop_runs_set_up_their_logs_and_secret() {
    assert_eq!(
        desktop_setup(&args(SECRET)).steps,
        vec![
            Action::InitLogging(true),
            Action::InitFileLogging("proxy.log".to_string()),
            Action::SetSecret(SECRET.to_string()),
        ]
    );
    assert_eq!(desktop_setup(&args("bad")).steps.len(), 2);
    let mut expected = vec![Action::ClearCooldowns];
    expected.append(&mut opening());
    assert_eq!(desktop_opening(&args(SECRET)).steps, expected);
}

#[test]
fn console_listens() {
    assert_eq!(
        after_listen(Mode::Console, "127.0.0.1", 1443, Ok(())).steps,
        vec![
            info("━━━━━━━━━━━━━━━━━━━━━━━━━━━━"),
            info("  TG WS Proxy — Windows"),
            info("  Адрес: 127.0.0.1:1443"),
            Action::WatchInterrupt,
            Action::Serve("127.0.0.1".to_string(), 1443),
        ]
    );
}

#[test]
fn window_listens() {
    assert_eq!(
        after_listen(Mode::Window, "127.0.0.1", 1443, Ok(())).steps,
        vec![
            info("  TG WS Proxy запущен на 127.0.0.1:1443"),
            Action::Serve("127.0.0.1".to_string(), 1443),
        ]
    );
}

#[test]
fn tray_listens() {
    assert_eq!(
        after_listen(Mode::Tray, "127.0.0.1", 1443, Ok(())).steps,
        vec![
            info("  TG WS Proxy запущен"),
            info("  Адрес: 127.0.0.1:1443"),
            Action::MarkRunning(true),
            Action::Serve("127.0.0.1".to_string(), 1443),
        ]
    );
}

#[test]
fn service_listens() {
    assert_eq!(
        after_listen(Mode::Service, "127.0.0.1", 1443, Ok(())).steps,
        vec![
            info("━━━━━━━━━━━━━━━━━━━━━━━━━━━━"),
            info("  TG WS Proxy — Windows Service"),
            info("  Адрес: 127.0.0.1:1443"),
            Action::Serve("127.0.0.1".to_string(), 1443),
        ]
    );
}

#[test]
fn failing_to_listen() {
    let complaint = || {
        Action::Log(
            Level::Error,
            "не удалось открыть порт 127.0.0.1:1443: занят".to_string(),
        )
    };
    let steps = |mode: Mode| after_listen(mode, "127.0.0.1", 1443, failed()).steps;
    assert_eq!(steps(Mode::Console), vec![complaint(), Action::Exit(1)]);
    assert_eq!(steps(Mode::Window), vec![complaint()]);
    assert_eq!(steps(Mode::Tray), vec![complaint(), Action::MarkRunning(false)]);
    assert_eq!(
        steps(Mode::Service),
        vec![
            complaint(),
            Action::Report(service_status(ServiceState::Stopped, 1)),
            Action::Report(service_status(ServiceState::Stopped, 0)),
        ]
    );
}

#[test]
fn ending_without_an_error() {
    let steps = |mode: Mode| after_serve(mode, Ok(())).steps;
    assert_eq!(steps(Mode::Console), vec![info("прокси остановлен")]);
    assert_eq!(steps(Mode::Window), vec![info("прокси остановлен")]);
    assert_eq!(
        steps(Mode::Tray),
        vec![info("прокси остановлен"), Action::MarkRunning(false)]
    );
    assert_eq!(
        steps(Mode::Service),
        vec![info("прокси остановлен"), Action::Report(service_status(ServiceState::Stopped, 0))]
    );
}

#[test]
fn ending_with_an_error() {
    let complaint =
        || Action::Log(Level::Error, "прокси завершился с ошибкой: занят".to_string());
    let steps = |mode: Mode| after_serve(mode, failed()).steps;
    assert_eq!(steps(Mode::Console), vec![complaint(), Action::Exit(1)]);
    assert_eq!(steps(Mode::Window), vec![complaint(), info("прокси остановлен")]);
    assert_eq!(
        steps(Mode::Tray),
        vec![complaint(), info("прокси остановлен"), Action::MarkRunning(false)]
    );
    assert_eq!(
        steps(Mode::Service),
        vec![
            complaint(),
            info("прокси остановлен"),
            Action::Report(service_status(ServiceState::Stopped, 0)),
        ]
    );
}

fn whole_run(mode: Mode, listen: Result<(), String>, serve: Result<(), String>) -> Vec<Action> {
    let settings = args(SECRET);
    let mut config = Config::default();
    let mut steps = match mode {
        Mode::Console => console_setup_with(&settings, &mut config, BYTES).steps,
        _ => {
            let Plan { mut steps } = desktop_setup(&settings);
            steps.append(&mut desktop_opening(&settings).steps);
            steps
        }
    };
    let opened = listen.is_ok();
    steps.append(&mut after_listen(mode, &settings.bind, settings.port, listen).steps);
    if opened {
        steps.append(&mut after_serve(mode, serve).steps);
    }
    steps
}

#[test]
fn runs_serve_once_and_only_after_listening() {
    for mode in [Mode::Console, Mode::Window, Mode::Tray] {
        for serve in [Ok(()), failed()] {
            let steps = whole_run(mode, Ok(()), serve);
            let position = |wanted: &Action| steps.iter().position(|step| step == wanted);
            let listened = position(&Action::Listen("127.0.0.1:1443".to_string()));
            let served = position(&Action::Serve("127.0.0.1".to_string(), 1443));
            assert!(listened.is_some() && listened < served);
            assert!(position(&Action::SetPoolSize(4)) < listened);
            let serves = steps.iter().filter(|step| matches!(step, Action::Serve(_, _))).count();
            assert_eq!(serves, 1);
        }
        let steps = whole_run(mode, failed(), Ok(()));
        assert!(!steps.iter().any(|step| matches!(step, Action::Serve(_, _))));
    }
}

#[test]
fn only_failed_console_runs_end_the_process() {
    for mode in [Mode::Console, Mode::Window, Mode::Tray] {
        for (listen, serve) in [(Ok(()), Ok(())), (Ok(()), failed()), (failed(), Ok(()))] {
            let expected = mode == Mode::Console && (listen.is_err() || serve.is_err());
            let steps = whole_run(mode, listen, serve);
            assert_eq!(steps.last() == Some(&Action::Exit(1)), expected);
        }
    }
}

#[test]
fn interrupt_cancels_the_proxy() {
    assert_eq!(
        after_interrupt().steps,
        vec![info("получен Ctrl+C, завершение..."), Action::Cancel]
    );
}

fn argv(words: &[&str]) -> Vec<String> {
    let mut all = vec!["tgwsproxy".to_string()];
    all.extend(words.iter().map(|word| word.to_string()));
    all
}

#[test]
fn first_start_creates_the_file_and_a_lasting_secret() {
    let (plan, args) = console_start("config.toml", ConfigFile::Missing, &argv(&[]));
    assert!(args.is_some());
    assert_eq!(plan.steps[0], Action::SaveConfig(Config::default()));
    assert_eq!(
        plan.steps[1],
        Action::Print(Stream::Output, "Создан config.toml: config.toml".to_string())
    );
    let mut saved = Config::default();
    match &plan.steps[4] {
        Action::SetSecret(secret) => saved.secret = secret.clone(),
        other => panic!("{:?}", other),
    }
    assert!(is_valid_secret(&saved.secret));
    assert_eq!(plan.steps[5], Action::SaveConfig(saved.clone()));

    let (plan, _) = console_start("config.toml", ConfigFile::Loaded(saved.clone()), &argv(&[]));
    assert_eq!(plan.steps[2], Action::SetSecret(saved.secret));
    assert!(!plan.steps.iter().any(|step| matches!(step, Action::SaveConfig(_))));
}

#[test]
fn start_follows_the_command_line() {
    let words = argv(&["--port", "99", "--secret", SECRET]);
    let (plan, args) = console_start("c", ConfigFile::Unreadable("нет".to_string()), &words);
    assert_eq!(args.map(|args| args.port), Some(99));
    assert!(matches!(plan.steps[0], Action::Print(Stream::Error, _)));
    assert_eq!(plan.steps.last(), Some(&Action::Listen("127.0.0.1:99".to_string())));
}

#[test]
fn start_can_end_at_once() {
    for (word, code) in [("-h", 0), ("--what", 1)] {
        let (plan, args) = console_start("c", ConfigFile::Missing, &argv(&[word]));
        assert_eq!(args, None);
        assert_eq!(plan.steps[0], Action::SaveConfig(Config::default()));
        assert_eq!(plan.steps.last(), Some(&Action::Exit(code)));
    }
}

#[test]
fn statuses_of_a_service_run() {
    let config = ServiceConfig {
        bind: "127.0.0.1".to_string(),
        port: 1443,
        dc_ips: String::new(),
        pool_size: 4,
        verbose: false,
        log_file: String::new(),
    };
    let running = service_status(ServiceState::Running, 0);
    let failed_status = service_status(ServiceState::Stopped, 1);
    let stopped = service_status(ServiceState::Stopped, 0);
    for (listen, serve, expected) in [
        (Ok(()), Ok(()), vec![running, stopped]),
        (Ok(()), failed(), vec![running, stopped]),
        (failed(), Ok(()), vec![running, failed_status, stopped]),
    ] {
        let mut steps = after_register(Ok(())).steps;
        steps.append(&mut after_running_report(&config, Ok(())).steps);
        let opened = listen.is_ok();
        steps.append(&mut after_listen(Mode::Service, &config.bind, config.port, listen).steps);
        if opened {
            steps.append(&mut after_serve(Mode::Service, serve).steps);
        }
        let mut reported = Vec::new();
        for step in steps {
            if let Action::Report(status) = step {
                reported.push(status);
            }
        }
        assert_eq!(reported, expected);
    }
}
