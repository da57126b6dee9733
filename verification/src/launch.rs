//! Running the proxy, in each of the four modes: up to the attempt to listen, after it, and after
//! the proxy has ended. The module `runs` speaks of these parts together.
use vstd::prelude::*;

use crate::args::{
    configured, help_plan, parse_args, reading, words_of, Args, ArgsView, Parsed, Reading,
};
use crate::config::{load_config, load_plan, loaded_config, Config, ConfigFile, ConfigView};
use crate::plan::{
    error_of, service_status, status_in, Action, ActionView, Level, Plan, ServiceState, Stream,
};
use crate::secret::{
    generate_and_save_secret, hex_form, is_valid_secret, new_secret_plan, save_new_secret,
    valid_secret, with_secret,
};
use crate::text::{address, joined, listen_address};

verus! {

/// The ways to run the proxy.
#[derive(Clone, Copy, Debug, PartialEq, Eq, Structural)]
pub enum Mode {
    /// In the foreground of a console.
    Console,
    /// Behind a window.
    Window,
    /// Behind an icon in the notification area.
    Tray,
    /// As a system service.
    Service,
}

/// The plan to use a given secret, or to complain of it, or neither where none was given.
pub open spec fn given_secret_plan(secret: Seq<char>) -> Seq<ActionView> {
    if valid_secret(secret) {
        seq![
            ActionView::SetSecret(secret),
            ActionView::Log(Level::Info, "секрет установлен из аргументов/конфига"@),
        ]
    } else if secret.len() > 0 {
        seq![
            ActionView::Log(
                Level::Warn,
                "некорректный секрет (нужно 32 hex символа), генерирую новый"@,
            ),
        ]
    } else {
        Seq::empty()
    }
}

/// What is done about the secret in the console mode, where a new one is made of `bytes`.
pub open spec fn secret_plan(
    secret: Seq<char>,
    config: ConfigView,
    bytes: Seq<u8>,
) -> Seq<ActionView> {
    if valid_secret(secret) {
        given_secret_plan(secret)
    } else {
        given_secret_plan(secret) + new_secret_plan(config, bytes)
    }
}

/// The configuration once the secret is settled.
pub open spec fn settled_config(
    secret: Seq<char>,
    config: ConfigView,
    bytes: Seq<u8>,
) -> ConfigView {
    if valid_secret(secret) {
        config
    } else {
        with_secret(config, hex_form(bytes))
    }
}

/// Takes a given secret, and tells whether that settles the matter.
fn take_given_secret(secret: &str) -> (r: (Plan, bool))
    ensures
        r.0@ == given_secret_plan(secret@),
        r.1 == valid_secret(secret@),
{
    let mut plan = Plan::new();
    let valid = is_valid_secret(secret);
    if valid {
        plan.push(Action::SetSecret(secret.to_owned()));
        plan.log(Level::Info, "секрет установлен из аргументов/конфига");
    } else if !secret.is_empty() {
        plan.log(Level::Warn, "некорректный секрет (нужно 32 hex символа), генерирую новый");
    }
    assert(plan@ =~= given_secret_plan(secret@));
    (plan, valid)
}

/// Settles the secret of a console run: the given one if it is valid, else a new one made of
/// these bytes.
pub fn settle_secret_with(secret: &str, config: &mut Config, bytes: [u8; 16]) -> (r: Plan)
    ensures
        r@ == secret_plan(secret@, old(config)@, bytes@),
        final(config)@ == settled_config(secret@, old(config)@, bytes@),
{
    let (mut plan, settled) = take_given_secret(secret);
    if !settled {
        plan.append(save_new_secret(config, bytes));
    }
    assert(plan@ =~= secret_plan(secret@, old(config)@, bytes@));
    plan
}

/// Settles the secret of a console run: the given one if it is valid, else a new random one.
pub fn settle_secret(secret: &str, config: &mut Config) -> (r: Plan)
    ensures
        exists|bytes: Seq<u8>|
            {
                &&& bytes.len() == 16
                &&& r@ == #[trigger] secret_plan(secret@, old(config)@, bytes)
                &&& final(config)@ == settled_config(secret@, old(config)@, bytes)
            },
{
    let (mut plan, settled) = take_given_secret(secret);
    if settled {
        assert(plan@ =~= secret_plan(secret@, old(config)@, Seq::new(16, |i: int| 0u8)));
    } else {
        let made = generate_and_save_secret(config);
        let ghost bytes = choose|bytes: Seq<u8>|
            {
                &&& bytes.len() == 16
                &&& config@ == with_secret(old(config)@, #[trigger] hex_form(bytes))
                &&& made@ == new_secret_plan(old(config)@, bytes)
            };
        plan.append(made);
        assert(plan@ =~= secret_plan(secret@, old(config)@, bytes));
    }
    plan
}

/// What follows the secret in every run, up to the attempt to listen.
pub open spec fn opening_plan(args: ArgsView) -> Seq<ActionView> {
    seq![
        ActionView::InitDomains,
        ActionView::SetPoolSize(args.pool_size),
        ActionView::PreparePool(args.dc_ips),
        ActionView::Listen(address(args.bind, args.port)),
    ]
}

/// Adds what follows the secret.
fn open(plan: &mut Plan, args: &Args)
    ensures
        final(plan)@ == old(plan)@ + opening_plan(args@),
{
    plan.push(Action::InitDomains);
    plan.push(Action::SetPoolSize(args.pool_size));
    plan.push(Action::PreparePool(args.dc_ips.clone()));
    plan.push(Action::Listen(listen_address(args.bind.as_str(), args.port)));
    assert(plan@ =~= old(plan)@ + opening_plan(args@));
}

/// What a console run does up to the attempt to listen, where a new secret is made of `bytes`.
pub open spec fn console_setup_plan(
    args: ArgsView,
    config: ConfigView,
    bytes: Seq<u8>,
) -> Seq<ActionView> {
    seq![ActionView::InitLogging(args.verbose), ActionView::ClearCooldowns] + secret_plan(
        args.secret,
        config,
        bytes,
    ) + opening_plan(args)
}

/// Prepares a console run. A new secret, where one is needed, is made of these bytes.
pub fn console_setup_with(args: &Args, config: &mut Config, bytes: [u8; 16]) -> (r: Plan)
    ensures
        r@ == console_setup_plan(args@, old(config)@, bytes@),
        final(config)@ == settled_config(args@.secret, old(config)@, bytes@),
{
    let mut plan = Plan::new();
    plan.push(Action::InitLogging(args.verbose));
    plan.push(Action::ClearCooldowns);
    plan.append(settle_secret_with(args.secret.as_str(), config, bytes));
    open(&mut plan, args);
    assert(plan@ =~= console_setup_plan(args@, old(config)@, bytes@));
    plan
}

/// Prepares a console run. A new secret, where one is needed, is random.
pub fn console_setup(args: &Args, config: &mut Config) -> (r: Plan)
    ensures
        exists|bytes: Seq<u8>|
            {
                &&& bytes.len() == 16
                &&& r@ == #[trigger] console_setup_plan(args@, old(config)@, bytes)
                &&& final(config)@ == settled_config(args@.secret, old(config)@, bytes)
            },
{
    let mut plan = Plan::new();
    plan.push(Action::InitLogging(args.verbose));
    plan.push(Action::ClearCooldowns);
    let settled = settle_secret(args.secret.as_str(), config);
    let ghost bytes = choose|bytes: Seq<u8>|
        {
            &&& bytes.len() == 16
            &&& settled@ == #[trigger] secret_plan(args@.secret, old(config)@, bytes)
            &&& config@ == settled_config(args@.secret, old(config)@, bytes)
        };
    plan.append(settled);
    open(&mut plan, args);
    assert(plan@ =~= console_setup_plan(args@, old(config)@, bytes));
    plan
}

/// What the program does when it is started in a console, up to the attempt to listen, where a
/// new secret is made of `bytes`: it loads the configuration, reads the command line, and then
/// prepares a run or ends the process.
pub open spec fn console_start_plan(
    path: Seq<char>,
    file: ConfigFile,
    argv: Seq<String>,
    bytes: Seq<u8>,
) -> Seq<ActionView> {
    load_plan(path, file) + match reading(words_of(argv), configured(loaded_config(file))) {
        Reading::Run(args) => console_setup_plan(args, loaded_config(file), bytes),
        Reading::Help => help_plan().push(ActionView::Exit(0)),
        Reading::Unknown(word) => (seq![
            ActionView::Print(Stream::Error, "Неизвестный аргумент: "@ + word),
        ] + help_plan()).push(ActionView::Exit(1)),
    }
}

/// Starts the program in a console, up to the attempt to listen, and gives the settings of the
/// run if there is to be one.
pub fn console_start(path: &str, file: ConfigFile, argv: &Vec<String>) -> (r: (Plan, Option<Args>))
    ensures
        exists|bytes: Seq<u8>|
            bytes.len() == 16 && r.0@ == #[trigger] console_start_plan(path@, file, argv@, bytes),
        match reading(words_of(argv@), configured(loaded_config(file))) {
            Reading::Run(args) => r.1 matches Some(settings) && settings@ == args,
            _ => r.1 is None,
        },
{
    let ghost found = file;
    let (mut config, mut plan) = load_config(path, file);
    match parse_args(&config, argv) {
        Parsed::Quit(quit) => {
            plan.append(quit);
            assert(plan@ =~= console_start_plan(
                path@,
                found,
                argv@,
                Seq::new(16, |i: int| 0u8),
            ));
            (plan, None)
        },
        Parsed::Run(args) => {
            let setup = console_setup(&args, &mut config);
            let ghost bytes = choose|bytes: Seq<u8>|
                bytes.len() == 16 && setup@ == #[trigger] console_setup_plan(
                    args@,
                    loaded_config(found),
                    bytes,
                );
            plan.append(setup);
            assert(plan@ =~= console_start_plan(path@, found, argv@, bytes));
            (plan, Some(args))
        },
    }
}

/// The first steps of a window or tray run: its logs, and its secret if that is valid.
pub open spec fn desktop_setup_plan(args: ArgsView) -> Seq<ActionView> {
    seq![
        ActionView::InitLogging(args.verbose),
        ActionView::InitFileLogging(args.log_file),
    ] + if valid_secret(args.secret) {
        seq![ActionView::SetSecret(args.secret)]
    } else {
        Seq::empty()
    }
}

/// The later steps of a window or tray run, up to the attempt to listen.
pub open spec fn desktop_opening_plan(args: ArgsView) -> Seq<ActionView> {
    seq![ActionView::ClearCooldowns] + opening_plan(args)
}

/// Prepares a window or tray run: its logs, and its secret if that is valid. An invalid secret
/// leaves the one in force.
pub fn desktop_setup(args: &Args) -> (r: Plan)
    ensures
        r@ == desktop_setup_plan(args@),
{
    let mut plan = Plan::new();
    plan.push(Action::InitLogging(args.verbose));
    plan.push(Action::InitFileLogging(args.log_file.clone()));
    if is_valid_secret(args.secret.as_str()) {
        plan.push(Action::SetSecret(args.secret.clone()));
    }
    assert(plan@ =~= desktop_setup_plan(args@));
    plan
}

/// Goes on with a window or tray run, in a thread of its own, up to the attempt to listen.
pub fn desktop_opening(args: &Args) -> (r: Plan)
    ensures
        r@ == desktop_opening_plan(args@),
{
    let mut plan = Plan::new();
    plan.push(Action::ClearCooldowns);
    open(&mut plan, args);
    assert(plan@ =~= desktop_opening_plan(args@));
    plan
}

/// What is done when the attempt to listen failed.
pub open spec fn listen_failure_plan(
    mode: Mode,
    bind: Seq<char>,
    port: u16,
    error: Seq<char>,
) -> Seq<ActionView> {
    seq![
        ActionView::Log(
            Level::Error,
            "не удалось открыть порт "@ + address(bind, port) + ": "@ + error,
        ),
    ] + match mode {
        Mode::Console => seq![ActionView::Exit(1)],
        Mode::Window => Seq::empty(),
        Mode::Tray => seq![ActionView::MarkRunning(false)],
        Mode::Service => seq![
            ActionView::Report(status_in(ServiceState::Stopped, 1)),
            ActionView::Report(status_in(ServiceState::Stopped, 0)),
        ],
    }
}

/// The ornament above the name of the program in its log.
pub open spec fn ornament() -> Seq<char> {
    "━━━━━━━━━━━━━━━━━━━━━━━━━━━━"@
}

/// What is done when the socket is open.
pub open spec fn listen_success_plan(mode: Mode, bind: Seq<char>, port: u16) -> Seq<ActionView> {
    match mode {
        Mode::Console => seq![
            ActionView::Log(Level::Info, ornament()),
            ActionView::Log(Level::Info, "  TG WS Proxy — Windows"@),
            ActionView::Log(Level::Info, "  Адрес: "@ + address(bind, port)),
            ActionView::WatchInterrupt,
            ActionView::Serve(bind, port),
        ],
        Mode::Window => seq![
            ActionView::Log(
                Level::Info,
                "  TG WS Proxy запущен на "@ + address(bind, port),
            ),
            ActionView::Serve(bind, port),
        ],
        Mode::Tray => seq![
            ActionView::Log(Level::Info, "  TG WS Proxy запущен"@),
            ActionView::Log(Level::Info, "  Адрес: "@ + address(bind, port)),
            ActionView::MarkRunning(true),
            ActionView::Serve(bind, port),
        ],
        Mode::Service => seq![
            ActionView::Log(Level::Info, ornament()),
            ActionView::Log(Level::Info, "  TG WS Proxy — Windows Service"@),
            ActionView::Log(Level::Info, "  Адрес: "@ + address(bind, port)),
            ActionView::Serve(bind, port),
        ],
    }
}

/// What is done after an attempt to listen that failed with `error`, or did not fail.
pub open spec fn listen_plan(
    mode: Mode,
    bind: Seq<char>,
    port: u16,
    error: Option<Seq<char>>,
) -> Seq<ActionView> {
    match error {
        Some(error) => listen_failure_plan(mode, bind, port, error),
        None => listen_success_plan(mode, bind, port),
    }
}

/// Goes on once the socket was opened, or could not be.
pub fn after_listen(mode: Mode, bind: &str, port: u16, attempt: Result<(), String>) -> (r: Plan)
    ensures
        r@ == listen_plan(mode, bind@, port, error_of(attempt)),
{
    let mut plan = Plan::new();
    let address = listen_address(bind, port);
    match attempt {
        Err(error) => {
            let mut text = joined("не удалось открыть порт ", address.as_str());
            text.append(": ");
            text.append(error.as_str());
            plan.log(Level::Error, text.as_str());
            match mode {
                Mode::Console => {
                    plan.push(Action::Exit(1));
                },
                Mode::Window => {},
                Mode::Tray => {
                    plan.push(Action::MarkRunning(false));
                },
                Mode::Service => {
                    plan.push(Action::Report(service_status(ServiceState::Stopped, 1)));
                    plan.push(Action::Report(service_status(ServiceState::Stopped, 0)));
                },
            }
        },
        Ok(_) => {
            match mode {
                Mode::Console => {
                    plan.log(Level::Info, "━━━━━━━━━━━━━━━━━━━━━━━━━━━━");
                    plan.log(Level::Info, "  TG WS Proxy — Windows");
                    plan.log(Level::Info, joined("  Адрес: ", address.as_str()).as_str());
                    plan.push(Action::WatchInterrupt);
                },
                Mode::Window => {
                    plan.log(
                        Level::Info,
                        joined("  TG WS Proxy запущен на ", address.as_str()).as_str(),
                    );
                },
                Mode::Tray => {
                    plan.log(Level::Info, "  TG WS Proxy запущен");
                    plan.log(Level::Info, joined("  Адрес: ", address.as_str()).as_str());
                    plan.push(Action::MarkRunning(true));
                },
                Mode::Service => {
                    plan.log(Level::Info, "━━━━━━━━━━━━━━━━━━━━━━━━━━━━");
                    plan.log(Level::Info, "  TG WS Proxy — Windows Service");
                    plan.log(Level::Info, joined("  Адрес: ", address.as_str()).as_str());
                },
            }
            plan.push(Action::Serve(bind.to_owned(), port));
        },
    }
    assert(plan@ =~= listen_plan(mode, bind@, port, error_of(attempt)));
    plan
}

/// Goes on once the user has interrupted a console run.
pub fn after_interrupt() -> (r: Plan)
    ensures
        r@ == seq![
            ActionView::Log(Level::Info, "получен Ctrl+C, завершение..."@),
            ActionView::Cancel,
        ],
{
    let mut plan = Plan::new();
    plan.log(Level::Info, "получен Ctrl+C, завершение...");
    plan.push(Action::Cancel);
    plan
}

/// What is done after the proxy ended with `error`, or without one.
pub open spec fn serve_plan(mode: Mode, error: Option<Seq<char>>) -> Seq<ActionView> {
    let complaint = match error {
        Some(error) => seq![
            ActionView::Log(Level::Error, "прокси завершился с ошибкой: "@ + error),
        ],
        None => Seq::empty(),
    };
    let farewell = seq![ActionView::Log(Level::Info, "прокси остановлен"@)];
    match mode {
        Mode::Console => if error is Some {
            complaint.push(ActionView::Exit(1))
        } else {
            farewell
        },
        Mode::Window => complaint + farewell,
        Mode::Tray => complaint + farewell.push(ActionView::MarkRunning(false)),
        Mode::Service => complaint + farewell.push(
            ActionView::Report(status_in(ServiceState::Stopped, 0)),
        ),
    }
}

/// Goes on once the proxy has ended.
pub fn after_serve(mode: Mode, ended: Result<(), String>) -> (r: Plan)
    ensures
        r@ == serve_plan(mode, error_of(ended)),
{
    let mut plan = Plan::new();
    if let Err(error) = &ended {
        plan.log(
            Level::Error,
            joined("прокси завершился с ошибкой: ", error.as_str()).as_str(),
        );
        if let Mode::Console = mode {
            plan.push(Action::Exit(1));
            assert(plan@ =~= serve_plan(mode, error_of(ended)));
            return plan;
        }
    }
    plan.log(Level::Info, "прокси остановлен");
    match mode {
        Mode::Console | Mode::Window => {},
        Mode::Tray => {
            plan.push(Action::MarkRunning(false));
        },
        Mode::Service => {
            plan.push(Action::Report(service_status(ServiceState::Stopped, 0)));
        },
    }
    assert(plan@ =~= serve_plan(mode, error_of(ended)));
    plan
}

} // verus!
