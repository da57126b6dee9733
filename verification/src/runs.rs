//! Runs of the proxy as a whole, from the settings to the end, and what holds of them.
use vstd::prelude::*;

use crate::args::{
    complete, configured, flag_of, help_plan, law_last_option_counts, law_no_options_mean_config,
    law_unset_options_keep_config, overrides, reading, words_of, ArgsView, Flag, Reading,
};
use crate::config::{default_config, load_plan, loaded_config, Config, ConfigFile, ConfigView};
use crate::launch::{
    console_setup_plan, console_start_plan, desktop_opening_plan, desktop_setup_plan,
    given_secret_plan, listen_plan, listen_success_plan, opening_plan, secret_plan, serve_plan,
    settled_config, Mode,
};
use crate::plan::{status_in, ActionView, Level, ServiceState, ServiceStatus, Stream};
use crate::secret::{
    hex_form, law_made_secrets_are_valid, law_what_a_secret_is, new_secret_plan, valid_secret,
    with_secret,
};
use crate::service::{service_setup_plan, ServiceConfigView};
use crate::text::address;

verus! {

/// The settings that a service run takes from `args`.
pub open spec fn service_settings(args: ArgsView) -> ServiceConfigView {
    ServiceConfigView {
        bind: args.bind,
        port: args.port,
        dc_ips: args.dc_ips,
        pool_size: args.pool_size,
        verbose: args.verbose,
        log_file: args.log_file,
    }
}

/// What a run does up to the attempt to listen. Only a console run looks at the configuration and
/// at the bytes for a new secret.
pub open spec fn setup_of(
    mode: Mode,
    args: ArgsView,
    config: ConfigView,
    bytes: Seq<u8>,
) -> Seq<ActionView> {
    match mode {
        Mode::Console => console_setup_plan(args, config, bytes),
        Mode::Window | Mode::Tray => desktop_setup_plan(args) + desktop_opening_plan(args),
        Mode::Service => seq![ActionView::Report(status_in(ServiceState::Running, 0))] + service_setup_plan(
            service_settings(args),
        ),
    }
}

/// Everything that a run does after the attempt to listen: that fails with `listen`, or does not;
/// the proxy then ends with `serve`, or without an error.
pub open spec fn outcome_of(
    mode: Mode,
    args: ArgsView,
    listen: Option<Seq<char>>,
    serve: Option<Seq<char>>,
) -> Seq<ActionView> {
    listen_plan(mode, args.bind, args.port, listen) + if listen is Some {
        Seq::empty()
    } else {
        serve_plan(mode, serve)
    }
}

/// Everything that a run does, from its start to its end.
pub open spec fn run_of(
    mode: Mode,
    args: ArgsView,
    config: ConfigView,
    bytes: Seq<u8>,
    listen: Option<Seq<char>>,
    serve: Option<Seq<char>>,
) -> Seq<ActionView> {
    setup_of(mode, args, config, bytes) + outcome_of(mode, args, listen, serve)
}

/// The attempt to listen is the last step of the setup, and the setup ends nothing.
proof fn lemma_setup_ends_with_listen(
    mode: Mode,
    args: ArgsView,
    config: ConfigView,
    bytes: Seq<u8>,
)
    ensures
        ({
            let setup = setup_of(mode, args, config, bytes);
            &&& setup.len() >= 4
            &&& setup.last() == ActionView::Listen(address(args.bind, args.port))
            &&& setup[setup.len() - 2] == ActionView::PreparePool(args.dc_ips)
            &&& setup[setup.len() - 3] == ActionView::SetPoolSize(args.pool_size)
            &&& forall|i: int|
                0 <= i < setup.len() ==> {
                    &&& (#[trigger] setup[i] is Listen ==> i == setup.len() - 1)
                    &&& (setup[i] is SetPoolSize ==> i == setup.len() - 3)
                    &&& (setup[i] is PreparePool ==> i == setup.len() - 2)
                    &&& !(setup[i] is Serve)
                    &&& !(setup[i] is Exit)
                    &&& !(setup[i] is MarkRunning)
                }
        }),
{
}

/// The proxy runs once the socket is open, in no other case, and once.
pub proof fn law_serves_after_listening(
    mode: Mode,
    args: ArgsView,
    config: ConfigView,
    bytes: Seq<u8>,
    listen: Option<Seq<char>>,
    serve: Option<Seq<char>>,
)
    ensures
        ({
            let run = run_of(mode, args, config, bytes, listen, serve);
            let tried = setup_of(mode, args, config, bytes).len() - 1;
            let served = tried + listen_success_plan(mode, args.bind, args.port).len();
            &&& 0 <= tried < run.len()
            &&& run[tried] == ActionView::Listen(address(args.bind, args.port))
            &&& forall|i: int| 0 <= i < run.len() && #[trigger] run[i] is Listen ==> i == tried
            &&& listen is None ==> tried < served < run.len() && run[served] == ActionView::Serve(
                args.bind,
                args.port,
            )
            &&& forall|i: int|
                0 <= i < run.len() && #[trigger] run[i] is Serve ==> listen is None && i == served
        }),
{
    lemma_setup_ends_with_listen(mode, args, config, bytes);
    lemma_run_parts(mode, args, config, bytes, listen, serve);
}

/// Before it tries to listen, a run sets the pool size that was asked for, and then creates the
/// pool; it does so once.
pub proof fn law_pool_is_ready_before_listening(
    mode: Mode,
    args: ArgsView,
    config: ConfigView,
    bytes: Seq<u8>,
    listen: Option<Seq<char>>,
    serve: Option<Seq<char>>,
)
    ensures
        ({
            let run = run_of(mode, args, config, bytes, listen, serve);
            let tried = setup_of(mode, args, config, bytes).len() - 1;
            &&& 2 <= tried < run.len()
            &&& run[tried] is Listen
            &&& run[tried - 1] == ActionView::PreparePool(args.dc_ips)
            &&& run[tried - 2] == ActionView::SetPoolSize(args.pool_size)
            &&& forall|i: int|
                0 <= i < run.len() && #[trigger] run[i] is SetPoolSize ==> i == tried - 2
            &&& forall|i: int|
                0 <= i < run.len() && #[trigger] run[i] is PreparePool ==> i == tried - 1
        }),
{
    lemma_setup_ends_with_listen(mode, args, config, bytes);
    lemma_run_parts(mode, args, config, bytes, listen, serve);
}

/// The steps of a run are those of its setup and then those of its outcome.
proof fn lemma_run_parts(
    mode: Mode,
    args: ArgsView,
    config: ConfigView,
    bytes: Seq<u8>,
    listen: Option<Seq<char>>,
    serve: Option<Seq<char>>,
)
    ensures
        ({
            let setup = setup_of(mode, args, config, bytes);
            let after = outcome_of(mode, args, listen, serve);
            let run = run_of(mode, args, config, bytes, listen, serve);
            &&& run.len() == setup.len() + after.len()
            &&& forall|i: int|
                0 <= i < run.len() ==> #[trigger] run[i] == if i < setup.len() {
                    setup[i]
                } else {
                    after[i - setup.len()]
                }
        }),
{
}

/// A run ends the process itself only in the console mode, and there exactly when the socket
/// could not be opened or the proxy failed: with exit code 1, as its last step.
pub proof fn law_only_failed_console_runs_exit(
    mode: Mode,
    args: ArgsView,
    config: ConfigView,
    bytes: Seq<u8>,
    listen: Option<Seq<char>>,
    serve: Option<Seq<char>>,
)
    ensures
        ({
            let run = run_of(mode, args, config, bytes, listen, serve);
            &&& run.len() > 0
            &&& run.last() == ActionView::Exit(1) <==> mode is Console && (listen is Some
                || serve is Some)
            &&& forall|i: int|
                0 <= i < run.len() && #[trigger] run[i] is Exit ==> i == run.len() - 1 && run[i]
                    == ActionView::Exit(1)
        }),
{
    lemma_setup_ends_with_listen(mode, args, config, bytes);
    lemma_run_parts(mode, args, config, bytes, listen, serve);
}

/// The secrets that a run sets, from the first to the last.
pub open spec fn secrets_set(run: Seq<ActionView>) -> Seq<Seq<char>>
    decreases run.len(),
{
    if run.len() == 0 {
        Seq::empty()
    } else {
        let before = secrets_set(run.drop_last());
        match run.last() {
            ActionView::SetSecret(secret) => before.push(secret),
            _ => before,
        }
    }
}

/// The configurations that a run saves, from the first to the last.
pub open spec fn configs_saved(run: Seq<ActionView>) -> Seq<ConfigView>
    decreases run.len(),
{
    if run.len() == 0 {
        Seq::empty()
    } else {
        let before = configs_saved(run.drop_last());
        match run.last() {
            ActionView::SaveConfig(config) => before.push(config),
            _ => before,
        }
    }
}

/// Secrets and configurations of two plans, one after the other.
proof fn lemma_sets_and_saves_of_sum(first: Seq<ActionView>, second: Seq<ActionView>)
    ensures
        secrets_set(first + second) == secrets_set(first) + secrets_set(second),
        configs_saved(first + second) == configs_saved(first) + configs_saved(second),
    decreases second.len(),
{
    if second.len() == 0 {
        assert(first + second =~= first);
        assert(secrets_set(first) + secrets_set(second) =~= secrets_set(first));
        assert(configs_saved(first) + configs_saved(second) =~= configs_saved(first));
    } else {
        lemma_sets_and_saves_of_sum(first, second.drop_last());
        assert((first + second).drop_last() =~= first + second.drop_last());
        assert((first + second).last() == second.last());
        assert(secrets_set(first + second) =~= secrets_set(first) + secrets_set(second));
        assert(configs_saved(first + second) =~= configs_saved(first) + configs_saved(second));
    }
}

/// A plan that holds neither secrets nor configurations.
proof fn lemma_neither_sets_nor_saves(plan: Seq<ActionView>)
    requires
        forall|i: int|
            0 <= i < plan.len() ==> !(#[trigger] plan[i] is SetSecret) && !(plan[i] is SaveConfig),
    ensures
        secrets_set(plan) == Seq::<Seq<char>>::empty(),
        configs_saved(plan) == Seq::<ConfigView>::empty(),
    decreases plan.len(),
{
    if plan.len() > 0 {
        assert forall|i: int| 0 <= i < plan.drop_last().len() implies !(#[trigger] plan.drop_last()[i] is SetSecret)
            && !(plan.drop_last()[i] is SaveConfig) by {
            assert(plan.drop_last()[i] == plan[i]);
        }
        lemma_neither_sets_nor_saves(plan.drop_last());
        assert(!(plan[plan.len() - 1] is SetSecret));
    }
}

/// What settling the secret sets and saves.
proof fn lemma_secret_plan_sets_and_saves(
    secret: Seq<char>,
    config: ConfigView,
    bytes: Seq<u8>,
)
    ensures
        secrets_set(secret_plan(secret, config, bytes)) == seq![
            settled_secret(secret, bytes),
        ],
        configs_saved(secret_plan(secret, config, bytes)) == if valid_secret(secret) {
            Seq::empty()
        } else {
            seq![with_secret(config, hex_form(bytes))]
        },
{
    reveal_with_fuel(secrets_set, 5);
    reveal_with_fuel(configs_saved, 5);
    let made = new_secret_plan(config, bytes);
    let set = ActionView::SetSecret(hex_form(bytes));
    let save = ActionView::SaveConfig(with_secret(config, hex_form(bytes)));
    assert(made.drop_last() =~= seq![set, save]);
    assert(made.drop_last().drop_last() =~= seq![set]);
    assert(made.drop_last().drop_last().drop_last() =~= Seq::empty());
    assert(secrets_set(made) =~= seq![hex_form(bytes)]);
    assert(configs_saved(made) =~= seq![with_secret(config, hex_form(bytes))]);
    let given = given_secret_plan(secret);
    if valid_secret(secret) {
        assert(given.drop_last() =~= seq![ActionView::SetSecret(secret)]);
        assert(given.drop_last().drop_last() =~= Seq::empty());
        assert(secrets_set(given) =~= seq![secret]);
        assert(configs_saved(given) =~= Seq::empty());
    } else {
        lemma_neither_sets_nor_saves(given);
        lemma_sets_and_saves_of_sum(given, made);
        assert(secrets_set(secret_plan(secret, config, bytes)) =~= seq![hex_form(bytes)]);
        assert(configs_saved(secret_plan(secret, config, bytes)) =~= seq![
            with_secret(config, hex_form(bytes)),
        ]);
    }
}

/// The secret of a console run: the given one if it is valid, else a new one made of `bytes`.
pub open spec fn settled_secret(secret: Seq<char>, bytes: Seq<u8>) -> Seq<char> {
    if valid_secret(secret) {
        secret
    } else {
        hex_form(bytes)
    }
}

/// Which secrets a run sets and which configurations it saves. A console run sets one secret, and
/// saves the configuration exactly when it had to make a new one, which is then in it. A window
/// or tray run sets the given secret if it is valid. A service run leaves the secret alone.
pub proof fn law_secret_of_a_run(
    mode: Mode,
    args: ArgsView,
    config: ConfigView,
    bytes: Seq<u8>,
    listen: Option<Seq<char>>,
    serve: Option<Seq<char>>,
)
    ensures
        ({
            let run = run_of(mode, args, config, bytes, listen, serve);
            &&& secrets_set(run) == match mode {
                Mode::Console => seq![settled_secret(args.secret, bytes)],
                Mode::Window | Mode::Tray => if valid_secret(args.secret) {
                    seq![args.secret]
                } else {
                    Seq::empty()
                },
                Mode::Service => Seq::empty(),
            }
            &&& configs_saved(run) == if mode is Console && !valid_secret(args.secret) {
                seq![with_secret(config, settled_secret(args.secret, bytes))]
            } else {
                Seq::empty()
            }
        }),
{
    let after = outcome_of(mode, args, listen, serve);
    let setup = setup_of(mode, args, config, bytes);
    lemma_neither_sets_nor_saves(after);
    lemma_sets_and_saves_of_sum(setup, after);
    match mode {
        Mode::Console => {
            let head = seq![ActionView::InitLogging(args.verbose), ActionView::ClearCooldowns];
            let middle = secret_plan(args.secret, config, bytes);
            lemma_neither_sets_nor_saves(head);
            lemma_neither_sets_nor_saves(opening_plan(args));
            lemma_secret_plan_sets_and_saves(args.secret, config, bytes);
            lemma_sets_and_saves_of_sum(head, middle);
            lemma_sets_and_saves_of_sum(head + middle, opening_plan(args));
        },
        Mode::Window | Mode::Tray => {
            let head = seq![
                ActionView::InitLogging(args.verbose),
                ActionView::InitFileLogging(args.log_file),
            ];
            lemma_neither_sets_nor_saves(head);
            lemma_neither_sets_nor_saves(desktop_opening_plan(args));
            if valid_secret(args.secret) {
                let secret = seq![ActionView::SetSecret(args.secret)];
                reveal_with_fuel(secrets_set, 2);
                reveal_with_fuel(configs_saved, 2);
                assert(secret.drop_last() =~= Seq::empty());
                assert(secrets_set(secret) =~= seq![args.secret]);
                assert(configs_saved(secret) =~= Seq::empty());
                lemma_sets_and_saves_of_sum(head, secret);
            } else {
                assert(desktop_setup_plan(args) =~= head);
            }
            lemma_sets_and_saves_of_sum(desktop_setup_plan(args), desktop_opening_plan(args));
        },
        Mode::Service => {
            lemma_neither_sets_nor_saves(setup);
        },
    }
    let run = run_of(mode, args, config, bytes, listen, serve);
    assert(secrets_set(run) =~= secrets_set(setup));
    assert(configs_saved(run) =~= configs_saved(setup));
}

/// Every secret that a run sets is valid.
pub proof fn law_set_secrets_are_valid(
    mode: Mode,
    args: ArgsView,
    config: ConfigView,
    bytes: Seq<u8>,
    listen: Option<Seq<char>>,
    serve: Option<Seq<char>>,
)
    requires
        bytes.len() == 16,
    ensures
        ({
            let set = secrets_set(run_of(mode, args, config, bytes, listen, serve));
            forall|i: int| 0 <= i < set.len() ==> valid_secret(#[trigger] set[i])
        }),
{
    law_made_secrets_are_valid(bytes);
    law_secret_of_a_run(mode, args, config, bytes, listen, serve);
}

/// A secret of the command line goes before that of the configuration: if it is valid, the run
/// sets it, whatever the configuration says, and saves nothing.
pub proof fn law_command_line_secret_comes_first(
    options: Seq<Seq<char>>,
    secret: Seq<char>,
    config: ConfigView,
    bytes: Seq<u8>,
)
    requires
        complete(options),
        valid_secret(secret),
    ensures
        reading(options + seq!["--secret"@, secret], configured(config)) matches Reading::Run(args)
            && secret_plan(args.secret, config, bytes) == given_secret_plan(secret),
{
    assert(flag_of("--secret"@) is Secret) by {
        reveal_strlit("--secret");
        reveal_strlit("--bind");
        reveal_strlit("--port");
        assert("--secret"@.len() == 8 && "--bind"@.len() == 6 && "--port"@.len() == 6);
    }
    law_last_option_counts(options, "--secret"@, secret, configured(config));
}

/// A secret of the configuration goes before a new one: if it is valid, and the command line
/// names none, the run sets it and saves nothing.
pub proof fn law_configured_secret_comes_second(
    words: Seq<Seq<char>>,
    config: ConfigView,
    bytes: Seq<u8>,
)
    requires
        !overrides(words, Flag::Secret),
        valid_secret(config.secret),
    ensures
        reading(words, configured(config)) matches Reading::Run(args) ==> secret_plan(
            args.secret,
            config,
            bytes,
        ) == given_secret_plan(config.secret),
{
    law_unset_options_keep_config(words, Flag::Secret, configured(config));
}

/// A new secret lasts: a run that starts from the saved configuration, and whose command line
/// names no secret, sets the same one again and saves nothing.
pub proof fn law_new_secret_lasts(
    args: ArgsView,
    config: ConfigView,
    bytes: Seq<u8>,
    words: Seq<Seq<char>>,
    later_bytes: Seq<u8>,
    listen: Option<Seq<char>>,
    serve: Option<Seq<char>>,
)
    requires
        bytes.len() == 16,
        !valid_secret(args.secret),
        !overrides(words, Flag::Secret),
    ensures
        ({
            let first = run_of(Mode::Console, args, config, bytes, listen, serve);
            let saved = configs_saved(first).last();
            &&& configs_saved(first).len() == 1
            &&& secrets_set(first) == seq![saved.secret]
            &&& reading(words, configured(saved)) matches Reading::Run(later) ==> ({
                let second = run_of(Mode::Console, later, saved, later_bytes, listen, serve);
                &&& secrets_set(second) == seq![saved.secret]
                &&& configs_saved(second) == Seq::<ConfigView>::empty()
            })
        }),
{
    law_made_secrets_are_valid(bytes);
    law_secret_of_a_run(Mode::Console, args, config, bytes, listen, serve);
    let saved = with_secret(config, hex_form(bytes));
    law_unset_options_keep_config(words, Flag::Secret, configured(saved));
    if let Reading::Run(later) = reading(words, configured(saved)) {
        law_secret_of_a_run(Mode::Console, later, saved, later_bytes, listen, serve);
    }
}

/// What a start in a console sets and saves, where a run comes of it: what loading the
/// configuration saves, and then what settling the secret sets and saves.
proof fn lemma_start_sets_and_saves(
    path: Seq<char>,
    file: ConfigFile,
    argv: Seq<String>,
    args: ArgsView,
    bytes: Seq<u8>,
)
    requires
        reading(words_of(argv), configured(loaded_config(file))) == Reading::Run(args),
    ensures
        secrets_set(console_start_plan(path, file, argv, bytes)) == seq![
            settled_secret(args.secret, bytes),
        ],
        configs_saved(console_start_plan(path, file, argv, bytes)) == (if file is Missing {
            seq![default_config()]
        } else {
            Seq::empty()
        }) + (if valid_secret(args.secret) {
            Seq::empty()
        } else {
            seq![with_secret(loaded_config(file), hex_form(bytes))]
        }),
{
    let config = loaded_config(file);
    let load = load_plan(path, file);
    let head = seq![ActionView::InitLogging(args.verbose), ActionView::ClearCooldowns];
    let middle = secret_plan(args.secret, config, bytes);
    lemma_neither_sets_nor_saves(head);
    lemma_neither_sets_nor_saves(opening_plan(args));
    lemma_secret_plan_sets_and_saves(args.secret, config, bytes);
    lemma_sets_and_saves_of_sum(head, middle);
    lemma_sets_and_saves_of_sum(head + middle, opening_plan(args));
    lemma_sets_and_saves_of_sum(load, console_setup_plan(args, config, bytes));
    if file is Missing {
        reveal_with_fuel(secrets_set, 3);
        reveal_with_fuel(configs_saved, 3);
        assert(load.drop_last() =~= seq![ActionView::SaveConfig(default_config())]);
        assert(load.drop_last().drop_last() =~= Seq::empty());
        assert(secrets_set(load) =~= Seq::empty());
        assert(configs_saved(load) =~= seq![default_config()]);
    } else {
        lemma_neither_sets_nor_saves(load);
    }
    let start = console_start_plan(path, file, argv, bytes);
    assert(secrets_set(start) =~= seq![settled_secret(args.secret, bytes)]);
    assert(configs_saved(start) =~= configs_saved(load) + configs_saved(middle));
}

/// The first start without options creates the configuration file, makes a secret and saves it.
/// From then on every start without options sets that secret and leaves the file alone.
pub proof fn law_first_start_settles_the_secret(
    path: Seq<char>,
    argv: Seq<String>,
    bytes: Seq<u8>,
    saved: Config,
    later_bytes: Seq<u8>,
)
    requires
        argv.len() <= 1,
        bytes.len() == 16,
        saved@ == with_secret(default_config(), hex_form(bytes)),
    ensures
        ({
            let first = console_start_plan(path, ConfigFile::Missing, argv, bytes);
            let later = console_start_plan(path, ConfigFile::Loaded(saved), argv, later_bytes);
            &&& configs_saved(first) == seq![default_config(), saved@]
            &&& secrets_set(first) == seq![saved@.secret]
            &&& configs_saved(later) == Seq::<ConfigView>::empty()
            &&& secrets_set(later) == seq![saved@.secret]
        }),
{
    law_made_secrets_are_valid(bytes);
    law_no_options_mean_config(argv, default_config());
    law_no_options_mean_config(argv, saved@);
    lemma_start_sets_and_saves(
        path,
        ConfigFile::Missing,
        argv,
        configured(default_config()),
        bytes,
    );
    lemma_start_sets_and_saves(
        path,
        ConfigFile::Loaded(saved),
        argv,
        configured(saved@),
        later_bytes,
    );
    assert(seq![default_config()] + seq![saved@] =~= seq![default_config(), saved@]);
}

/// Whether the tray takes the proxy to be running after `run`; at first it does not.
pub open spec fn marked_running(run: Seq<ActionView>) -> bool
    decreases run.len(),
{
    run.len() > 0 && match run.last() {
        ActionView::MarkRunning(running) => running,
        _ => marked_running(run.drop_last()),
    }
}

/// What was marked last counts.
proof fn lemma_last_mark_counts(run: Seq<ActionView>, at: int)
    requires
        0 <= at < run.len(),
        run[at] is MarkRunning,
        forall|i: int| at < i < run.len() ==> !(#[trigger] run[i] is MarkRunning),
    ensures
        marked_running(run) == run[at]->MarkRunning_0,
    decreases run.len(),
{
    if at < run.len() - 1 {
        assert(!(run[run.len() - 1] is MarkRunning));
        assert forall|i: int| at < i < run.drop_last().len() implies !(#[trigger] run.drop_last()[i] is MarkRunning) by {
            assert(run.drop_last()[i] == run[i]);
        }
        lemma_last_mark_counts(run.drop_last(), at);
    }
}

/// The tray takes the proxy to be running while it is: the mark is set when the proxy is about to
/// run, and is not set when a run is over, however it went.
pub proof fn law_tray_mark_follows_proxy(
    args: ArgsView,
    config: ConfigView,
    bytes: Seq<u8>,
    listen: Option<Seq<char>>,
    serve: Option<Seq<char>>,
)
    ensures
        ({
            let run = run_of(Mode::Tray, args, config, bytes, listen, serve);
            &&& !marked_running(run)
            &&& forall|i: int|
                0 <= i < run.len() && #[trigger] run[i] is Serve ==> marked_running(run.take(i))
        }),
{
    let run = run_of(Mode::Tray, args, config, bytes, listen, serve);
    let setup = setup_of(Mode::Tray, args, config, bytes);
    lemma_setup_ends_with_listen(Mode::Tray, args, config, bytes);
    lemma_run_parts(Mode::Tray, args, config, bytes, listen, serve);
    lemma_last_mark_counts(run, run.len() - 1);
    assert forall|i: int| 0 <= i < run.len() && #[trigger] run[i] is Serve implies marked_running(
        run.take(i),
    ) by {
        assert(i == setup.len() + 3);
        let before = run.take(i);
        assert(before[i - 1] == run[i - 1]);
        lemma_last_mark_counts(before, i - 1);
    }
}

/// The statuses that a run reports, from the first to the last.
pub open spec fn statuses_reported(run: Seq<ActionView>) -> Seq<ServiceStatus>
    decreases run.len(),
{
    if run.len() == 0 {
        Seq::empty()
    } else {
        let before = statuses_reported(run.drop_last());
        match run.last() {
            ActionView::Report(status) => before.push(status),
            _ => before,
        }
    }
}

/// Statuses of two plans, one after the other.
proof fn lemma_reports_of_sum(first: Seq<ActionView>, second: Seq<ActionView>)
    ensures
        statuses_reported(first + second) == statuses_reported(first) + statuses_reported(second),
    decreases second.len(),
{
    if second.len() == 0 {
        assert(first + second =~= first);
        assert(statuses_reported(first) + statuses_reported(second) =~= statuses_reported(first));
    } else {
        lemma_reports_of_sum(first, second.drop_last());
        assert((first + second).drop_last() =~= first + second.drop_last());
        assert((first + second).last() == second.last());
        assert(statuses_reported(first + second) =~= statuses_reported(first) + statuses_reported(
            second,
        ));
    }
}

/// A plan without reports.
proof fn lemma_reports_nothing(plan: Seq<ActionView>)
    requires
        forall|i: int| 0 <= i < plan.len() ==> !(#[trigger] plan[i] is Report),
    ensures
        statuses_reported(plan) == Seq::<ServiceStatus>::empty(),
    decreases plan.len(),
{
    if plan.len() > 0 {
        assert forall|i: int| 0 <= i < plan.drop_last().len() implies !(#[trigger] plan.drop_last()[i] is Report) by {
            assert(plan.drop_last()[i] == plan[i]);
        }
        lemma_reports_nothing(plan.drop_last());
        assert(!(plan[plan.len() - 1] is Report));
    }
}

/// A plan of one report.
proof fn lemma_reports_one(status: ServiceStatus)
    ensures
        statuses_reported(seq![ActionView::Report(status)]) == seq![status],
{
    let plan = seq![ActionView::Report(status)];
    assert(plan.drop_last() =~= Seq::empty());
    assert(statuses_reported(plan.drop_last()) =~= Seq::empty());
    assert(statuses_reported(plan) =~= seq![status]);
}

/// The statuses that a run reports. A service first of all reports that it is running, then, where
/// it could not listen, that it has stopped with exit code 1, and last of all that it has stopped
/// with exit code 0, also where the proxy failed. Other runs report nothing.
pub proof fn law_service_reports(
    mode: Mode,
    args: ArgsView,
    config: ConfigView,
    bytes: Seq<u8>,
    listen: Option<Seq<char>>,
    serve: Option<Seq<char>>,
)
    ensures
        statuses_reported(run_of(mode, args, config, bytes, listen, serve)) == if !(
        mode is Service) {
            Seq::empty()
        } else if listen is Some {
            seq![
                status_in(ServiceState::Running, 0),
                status_in(ServiceState::Stopped, 1),
                status_in(ServiceState::Stopped, 0),
            ]
        } else {
            seq![status_in(ServiceState::Running, 0), status_in(ServiceState::Stopped, 0)]
        },
        mode is Service ==> ({
            let run = run_of(mode, args, config, bytes, listen, serve);
            &&& run[0] == ActionView::Report(status_in(ServiceState::Running, 0))
            &&& run.last() == ActionView::Report(status_in(ServiceState::Stopped, 0))
        }),
{
    let run = run_of(mode, args, config, bytes, listen, serve);
    if mode is Service {
        let running = status_in(ServiceState::Running, 0);
        let failed = status_in(ServiceState::Stopped, 1);
        let stopped = status_in(ServiceState::Stopped, 0);
        let start = seq![ActionView::Report(running)];
        let setup = service_setup_plan(service_settings(args));
        let after = outcome_of(mode, args, listen, serve);
        lemma_reports_one(running);
        lemma_reports_one(failed);
        lemma_reports_one(stopped);
        lemma_reports_nothing(setup);
        lemma_reports_of_sum(start, setup);
        lemma_reports_of_sum(start + setup, after);
        let last = seq![ActionView::Report(stopped)];
        let before = after.drop_last();
        assert(after =~= before + last);
        lemma_reports_of_sum(before, last);
        if listen is Some {
            let complaint = before.drop_last();
            assert(before =~= complaint + seq![ActionView::Report(failed)]);
            lemma_reports_nothing(complaint);
            lemma_reports_of_sum(complaint, seq![ActionView::Report(failed)]);
            assert(statuses_reported(run) =~= seq![running, failed, stopped]);
        } else {
            lemma_reports_nothing(before);
            assert(statuses_reported(run) =~= seq![running, stopped]);
        }
    } else {
        lemma_run_parts(mode, args, config, bytes, listen, serve);
        lemma_reports_nothing(run);
    }
}

/// Where the steps stand that prepare a run, in its setup.
proof fn lemma_setup_steps(mode: Mode, args: ArgsView, config: ConfigView, bytes: Seq<u8>)
    ensures
        ({
            let setup = setup_of(mode, args, config, bytes);
            let last = setup.len() - 1;
            let log: int = if mode is Service {
                1
            } else {
                0
            };
            let cleared: int = if mode is Console {
                1
            } else {
                last - 4
            };
            &&& log < cleared < last - 3
            &&& setup[log] == ActionView::InitLogging(args.verbose)
            &&& setup[cleared] is ClearCooldowns
            &&& setup[last - 3] is InitDomains
            &&& !(mode is Console) ==> setup[log + 1] == ActionView::InitFileLogging(args.log_file)
            &&& forall|i: int|
                0 <= i < setup.len() ==> {
                    &&& (#[trigger] setup[i] is InitLogging ==> i == log)
                    &&& (setup[i] is ClearCooldowns ==> i == cleared)
                    &&& (setup[i] is InitDomains ==> i == last - 3)
                    &&& (setup[i] is InitFileLogging ==> i == log + 1 && !(mode is Console))
                }
        }),
{
}

/// Nothing is prepared any more after the attempt to listen.
proof fn lemma_outcome_prepares_nothing(
    mode: Mode,
    args: ArgsView,
    listen: Option<Seq<char>>,
    serve: Option<Seq<char>>,
)
    ensures
        ({
            let after = outcome_of(mode, args, listen, serve);
            forall|i: int|
                0 <= i < after.len() ==> {
                    &&& !(#[trigger] after[i] is InitLogging)
                    &&& !(after[i] is InitFileLogging)
                    &&& !(after[i] is ClearCooldowns)
                    &&& !(after[i] is InitDomains)
                }
        }),
{
}

/// Whatever the settings, a run opens its log once, verbose or not as asked, as its first step but
/// for the report of a service; after that it forgets the cooldowns once, and later loads the
/// relay domains once, right before it sets the pool size, creates the pool and tries to listen.
/// Every run but one in a console also logs to its file, once, right after its log is open.
pub proof fn law_every_run_is_set_up_in_full(
    mode: Mode,
    args: ArgsView,
    config: ConfigView,
    bytes: Seq<u8>,
    listen: Option<Seq<char>>,
    serve: Option<Seq<char>>,
)
    ensures
        ({
            let run = run_of(mode, args, config, bytes, listen, serve);
            let tried = setup_of(mode, args, config, bytes).len() - 1;
            let log: int = if mode is Service {
                1
            } else {
                0
            };
            let cleared: int = if mode is Console {
                1
            } else {
                tried - 4
            };
            &&& log < cleared < tried - 3
            &&& tried < run.len()
            &&& run[log] == ActionView::InitLogging(args.verbose)
            &&& run[cleared] is ClearCooldowns
            &&& run[tried - 3] is InitDomains
            &&& run[tried - 2] is SetPoolSize
            &&& run[tried - 1] is PreparePool
            &&& run[tried] is Listen
            &&& !(mode is Console) ==> run[log + 1] == ActionView::InitFileLogging(args.log_file)
            &&& forall|i: int|
                0 <= i < run.len() ==> {
                    &&& (#[trigger] run[i] is InitLogging ==> i == log)
                    &&& (run[i] is ClearCooldowns ==> i == cleared)
                    &&& (run[i] is InitDomains ==> i == tried - 3)
                    &&& (run[i] is InitFileLogging ==> i == log + 1 && !(mode is Console))
                }
        }),
{
    lemma_run_parts(mode, args, config, bytes, listen, serve);
    lemma_setup_ends_with_listen(mode, args, config, bytes);
    lemma_setup_steps(mode, args, config, bytes);
    lemma_outcome_prepares_nothing(mode, args, listen, serve);
}

/// Whether two steps are the same, but for what they take from the settings of two runs.
pub open spec fn same_step(x: ActionView, a: ArgsView, y: ActionView, b: ArgsView) -> bool {
    match x {
        ActionView::InitLogging(verbose) => verbose == a.verbose && y == ActionView::InitLogging(
            b.verbose,
        ),
        ActionView::InitFileLogging(file) => file == a.log_file && y
            == ActionView::InitFileLogging(b.log_file),
        ActionView::SetPoolSize(size) => size == a.pool_size && y == ActionView::SetPoolSize(
            b.pool_size,
        ),
        ActionView::PreparePool(dc_ips) => dc_ips == a.dc_ips && y == ActionView::PreparePool(
            b.dc_ips,
        ),
        ActionView::Listen(at) => at == address(a.bind, a.port) && y == ActionView::Listen(
            address(b.bind, b.port),
        ),
        _ => x == y,
    }
}

/// Which steps set up a run depends on the mode and on the secret alone. Every other setting shows
/// only in the one step that it is for.
pub proof fn law_settings_do_not_decide_the_steps(
    mode: Mode,
    a: ArgsView,
    b: ArgsView,
    config: ConfigView,
    bytes: Seq<u8>,
    i: int,
)
    requires
        a.secret == b.secret,
    ensures
        setup_of(mode, a, config, bytes).len() == setup_of(mode, b, config, bytes).len(),
        0 <= i < setup_of(mode, a, config, bytes).len() ==> same_step(
            setup_of(mode, a, config, bytes)[i],
            a,
            setup_of(mode, b, config, bytes)[i],
            b,
        ),
{
}

/// How many steps set up a run: besides the steps for the secret, six in a console, seven for a
/// window or an icon, and eight for a service, which has none for the secret.
pub proof fn law_number_of_setup_steps(
    mode: Mode,
    args: ArgsView,
    config: ConfigView,
    bytes: Seq<u8>,
)
    ensures
        setup_of(mode, args, config, bytes).len() == match mode {
            Mode::Console => 6 + secret_plan(args.secret, config, bytes).len(),
            Mode::Window | Mode::Tray => if is_secret(args.secret) {
                8
            } else {
                7
            },
            Mode::Service => 8,
        },
{
    law_what_a_secret_is(args.secret);
}

/// Thirty-two hexadecimal digits, of either case.
pub open spec fn is_secret(s: Seq<char>) -> bool {
    s.len() == 32 && forall|i: int|
        0 <= i < s.len() ==> ('0' <= #[trigger] s[i] <= '9' || 'a' <= s[i] <= 'f' || 'A' <= s[i]
            <= 'F')
}

/// Between the cooldowns and the relay domains a console run settles its secret, and does nothing
/// else.
pub proof fn law_console_run_settles_its_secret(args: ArgsView, config: ConfigView, bytes: Seq<u8>)
    ensures
        ({
            let setup = setup_of(Mode::Console, args, config, bytes);
            setup.subrange(2, setup.len() - 4) == secret_plan(args.secret, config, bytes)
        }),
{
    let setup = setup_of(Mode::Console, args, config, bytes);
    assert(setup.subrange(2, setup.len() - 4) =~= secret_plan(args.secret, config, bytes));
}

/// How a console run settles its secret. One that is given, of 32 hexadecimal digits in either
/// case, is set as it is, and the configuration stays. Otherwise a new one is set and then saved
/// with the configuration, after a warning if one was given. What is said depends on nothing
/// else.
pub proof fn law_how_a_secret_is_settled(
    secret: Seq<char>,
    config: ConfigView,
    bytes: Seq<u8>,
    other: Seq<char>,
    other_config: ConfigView,
    other_bytes: Seq<u8>,
)
    ensures
        is_secret(secret) ==> ({
            let plan = secret_plan(secret, config, bytes);
            &&& plan.len() == 2
            &&& plan[0] == ActionView::SetSecret(secret)
            &&& plan[1] matches ActionView::Log(level, _) && level is Info
            &&& settled_config(secret, config, bytes) == config
            &&& is_secret(other) ==> plan[1] == secret_plan(other, other_config, other_bytes)[1]
        }),
        !is_secret(secret) ==> ({
            let plan = secret_plan(secret, config, bytes);
            let warned: int = if secret.len() > 0 {
                1
            } else {
                0
            };
            &&& plan.len() == 3 + warned
            &&& warned == 1 ==> (plan[0] matches ActionView::Log(level, _) && level is Warn)
            &&& warned == 1 && !is_secret(other) && other.len() > 0 ==> plan[0] == secret_plan(
                other,
                other_config,
                other_bytes,
            )[0]
            &&& plan[warned] == ActionView::SetSecret(hex_form(bytes))
            &&& plan[warned + 1] == ActionView::SaveConfig(
                settled_config(secret, config, bytes),
            )
            &&& plan[warned + 2] matches ActionView::Log(level, _) && level is Info
            &&& !is_secret(other) ==> plan.last() == secret_plan(
                other,
                other_config,
                other_bytes,
            ).last()
            &&& settled_config(secret, config, bytes).secret == hex_form(bytes)
            &&& settled_config(secret, config, bytes).bind == config.bind
            &&& settled_config(secret, config, bytes).port == config.port
            &&& settled_config(secret, config, bytes).dc_ips == config.dc_ips
            &&& settled_config(secret, config, bytes).pool_size == config.pool_size
            &&& settled_config(secret, config, bytes).verbose == config.verbose
        }),
{
    law_what_a_secret_is(secret);
    law_what_a_secret_is(other);
}

/// The first part of a window or tray run sees to the logs and the secret, and to nothing else; a
/// secret is set exactly if it is 32 hexadecimal digits, of either case, and then as it was given.
pub proof fn law_desktop_setup_sees_to_logs_and_secret(args: ArgsView)
    ensures
        desktop_setup_plan(args).len() == if is_secret(args.secret) {
            3int
        } else {
            2int
        },
        desktop_setup_plan(args)[0] == ActionView::InitLogging(args.verbose),
        desktop_setup_plan(args)[1] == ActionView::InitFileLogging(args.log_file),
        is_secret(args.secret) ==> desktop_setup_plan(args)[2] == ActionView::SetSecret(
            args.secret,
        ),
        desktop_opening_plan(args).len() == 5,
        desktop_opening_plan(args)[0] is ClearCooldowns,
        desktop_opening_plan(args)[1] is InitDomains,
        desktop_opening_plan(args)[4] is Listen,
{
    law_what_a_secret_is(args.secret);
}

/// A start in a console loads the configuration, and then either sets up a run with what was
/// loaded and read, or shows the help text and exits. Where it exits, nothing of a run is done.
pub proof fn law_start_loads_and_then_sets_up(
    path: Seq<char>,
    file: ConfigFile,
    argv: Seq<String>,
    bytes: Seq<u8>,
)
    ensures
        ({
            let start = console_start_plan(path, file, argv, bytes);
            let load = load_plan(path, file);
            let rest = start.skip(load.len() as int);
            &&& start.len() >= load.len()
            &&& start.take(load.len() as int) == load
            &&& match reading(words_of(argv), configured(loaded_config(file))) {
                Reading::Run(args) => rest == setup_of(
                    Mode::Console,
                    args,
                    loaded_config(file),
                    bytes,
                ),
                Reading::Help => {
                    &&& rest.last() == ActionView::Exit(0)
                    &&& rest.drop_last() == help_plan()
                    &&& only_prints(rest.drop_last())
                },
                Reading::Unknown(word) => {
                    &&& rest.last() == ActionView::Exit(1)
                    &&& rest[0] == ActionView::Print(
                        Stream::Error,
                        "Неизвестный аргумент: "@ + word,
                    )
                    &&& rest.drop_last().skip(1) == help_plan()
                    &&& only_prints(rest.drop_last())
                },
            }
        }),
{
    let start = console_start_plan(path, file, argv, bytes);
    let load = load_plan(path, file);
    let rest = start.skip(load.len() as int);
    assert(start.take(load.len() as int) =~= load);
    match reading(words_of(argv), configured(loaded_config(file))) {
        Reading::Run(args) => {
            assert(rest =~= setup_of(Mode::Console, args, loaded_config(file), bytes));
        },
        Reading::Help => {
            assert(rest =~= help_plan().push(ActionView::Exit(0)));
            assert(rest.drop_last() =~= help_plan());
        },
        Reading::Unknown(word) => {
            let complaint = seq![
                ActionView::Print(Stream::Error, "Неизвестный аргумент: "@ + word),
            ];
            assert(rest =~= (complaint + help_plan()).push(ActionView::Exit(1)));
            assert(rest.drop_last().skip(1) =~= help_plan());
        },
    }
}

/// Whether a plan only writes to the standard error.
pub open spec fn only_prints(plan: Seq<ActionView>) -> bool {
    forall|i: int|
        0 <= i < plan.len() ==> (#[trigger] plan[i] matches ActionView::Print(stream, _)
            && stream is Error)
}

/// Where a run cannot listen, it logs the address and the error, whatever they are. What it does
/// then depends on the mode alone: a console run exits with code 1, a tray run marks the proxy as
/// not running, a service reports that it has stopped, with code 1 and then with code 0.
pub proof fn law_failure_to_listen(mode: Mode, bind: Seq<char>, port: u16, error: Seq<char>)
    ensures
        ({
            let plan = listen_plan(mode, bind, port, Some(error));
            &&& plan.len() == match mode {
                Mode::Console => 2,
                Mode::Window => 1,
                Mode::Tray => 2,
                Mode::Service => 3int,
            }
            &&& plan[0] matches ActionView::Log(level, text) && level is Error && text
                == "не удалось открыть порт "@ + (address(bind, port) + (": "@ + error))
            &&& mode is Console ==> plan[1] == ActionView::Exit(1)
            &&& mode is Tray ==> plan[1] == ActionView::MarkRunning(false)
            &&& mode is Service ==> {
                &&& plan[1] == ActionView::Report(status_in(ServiceState::Stopped, 1))
                &&& plan[2] == ActionView::Report(status_in(ServiceState::Stopped, 0))
            }
        }),
{
    assert("не удалось открыть порт "@ + address(bind, port) + ": "@ + error
        =~= "не удалось открыть порт "@ + (address(bind, port) + (": "@ + error)));
}

/// Once a run listens, it logs the address and runs the proxy for that host and port as its last
/// step. A console run first watches for an interrupt, a tray run first marks the proxy as
/// running. Nothing of this depends on the host and the port but the address that is logged.
pub proof fn law_success_in_listening(
    mode: Mode,
    bind: Seq<char>,
    port: u16,
    other_bind: Seq<char>,
    other_port: u16,
    i: int,
)
    ensures
        ({
            let plan = listen_plan(mode, bind, port, None);
            let other = listen_plan(mode, other_bind, other_port, None);
            let named: int = match mode {
                Mode::Console => 2,
                Mode::Window => 0,
                Mode::Tray => 1,
                Mode::Service => 2,
            };
            &&& plan.len() == match mode {
                Mode::Console => 5,
                Mode::Window => 2,
                Mode::Tray => 4,
                Mode::Service => 4int,
            }
            &&& plan.last() == ActionView::Serve(bind, port)
            &&& plan[named] matches ActionView::Log(level, text) && level is Info && text == if mode
                is Window {
                "  TG WS Proxy запущен на "@
            } else {
                "  Адрес: "@
            } + address(bind, port)
            &&& mode is Console ==> plan[3] is WatchInterrupt
            &&& mode is Tray ==> plan[2] == ActionView::MarkRunning(true)
            &&& 0 <= i < named ==> (plan[i] matches ActionView::Log(level, _) && level is Info)
            &&& 0 <= i < plan.len() - 1 && i != named ==> plan[i] == other[i]
        }),
{
}

/// What follows the end of the proxy. An error is logged, whatever it is. A console run then exits
/// with code 1, and any other run goes on as if there had been none: it logs that the proxy has
/// stopped, in the same words in every mode; a tray run then marks it as not running, and a
/// service reports that it has stopped, with code 0.
pub proof fn law_end_of_the_proxy(mode: Mode, other: Mode, error: Seq<char>)
    ensures
        ({
            let failed = serve_plan(mode, Some(error));
            let ended = serve_plan(mode, None);
            &&& failed[0] == ActionView::Log(
                Level::Error,
                "прокси завершился с ошибкой: "@ + error,
            )
            &&& mode is Console ==> failed.len() == 2 && failed[1] == ActionView::Exit(1)
            &&& !(mode is Console) ==> failed.skip(1) == ended
            &&& ended.len() == if mode is Tray || mode is Service {
                2int
            } else {
                1int
            }
            &&& ended[0] matches ActionView::Log(level, _) && level is Info
            &&& ended[0] == serve_plan(other, None)[0]
            &&& mode is Tray ==> ended[1] == ActionView::MarkRunning(false)
            &&& mode is Service ==> ended[1] == ActionView::Report(
                status_in(ServiceState::Stopped, 0),
            )
        }),
{
    if !(mode is Console) {
        assert(serve_plan(mode, Some(error)).skip(1) =~= serve_plan(mode, None));
    }
}

} // verus!
