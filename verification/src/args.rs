//! The command line.
use vstd::prelude::*;

use crate::config::{default_config, Config, ConfigView};
use crate::plan::{Action, ActionView, Plan, Stream};
use crate::text::{
    decimal_form, joined, law_decimal_reads_back, parse_i32, parse_u16, same_text, signed_value,
    unsigned_value,
};

verus! {

/// The settings of one run of the program.
#[derive(Debug, PartialEq, Eq)]
pub struct Args {
    /// The host to listen on.
    pub bind: String,
    /// The port to listen on.
    pub port: u16,
    /// The proxy secret; empty where none is set.
    pub secret: String,
    /// The datacenter addresses, as `1:ip1,2:ip2,...`.
    pub dc_ips: String,
    /// The number of connections that the pool holds.
    pub pool_size: i32,
    /// Whether to log in detail.
    pub verbose: bool,
    /// The file that the window and tray modes log to as well. The command line has no option
    /// for it.
    pub log_file: String,
}

/// What the settings of a run say, with their texts as character sequences.
#[verifier::ext_equal]
pub struct ArgsView {
    pub bind: Seq<char>,
    pub port: u16,
    pub secret: Seq<char>,
    pub dc_ips: Seq<char>,
    pub pool_size: i32,
    pub verbose: bool,
    pub log_file: Seq<char>,
}

impl View for Args {
    type V = ArgsView;

    open spec fn view(&self) -> ArgsView {
        ArgsView {
            bind: self.bind@,
            port: self.port,
            secret: self.secret@,
            dc_ips: self.dc_ips@,
            pool_size: self.pool_size,
            verbose: self.verbose,
            log_file: self.log_file@,
        }
    }
}

impl Clone for Args {
    fn clone(&self) -> (r: Args)
        ensures
            r@ == self@,
    {
        Args {
            bind: self.bind.clone(),
            port: self.port,
            secret: self.secret.clone(),
            dc_ips: self.dc_ips.clone(),
            pool_size: self.pool_size,
            verbose: self.verbose,
            log_file: self.log_file.clone(),
        }
    }
}

/// What a word of the command line asks for.
#[derive(Clone, Copy, Debug, PartialEq, Eq, Structural)]
pub enum Flag {
    Bind,
    Port,
    Secret,
    DcIps,
    PoolSize,
    Verbose,
    Help,
    Unknown,
}

/// What the word `word` asks for where an option is expected.
pub open spec fn flag_of(word: Seq<char>) -> Flag {
    if word == "--bind"@ {
        Flag::Bind
    } else if word == "--port"@ {
        Flag::Port
    } else if word == "--secret"@ {
        Flag::Secret
    } else if word == "--dc-ips"@ {
        Flag::DcIps
    } else if word == "--pool-size"@ {
        Flag::PoolSize
    } else if word == "--verbose"@ || word == "-v"@ {
        Flag::Verbose
    } else if word == "--help"@ || word == "-h"@ {
        Flag::Help
    } else {
        Flag::Unknown
    }
}

/// Whether the word after the option is its value.
pub open spec fn takes_value(flag: Flag) -> bool {
    flag is Bind || flag is Port || flag is Secret || flag is DcIps || flag is PoolSize
}

/// The settings `a` once an option was applied to them. A host, port or pool size that is missing
/// or of no use changes nothing; a missing secret or datacenter list stands for an empty one.
pub open spec fn applied(flag: Flag, value: Option<Seq<char>>, a: ArgsView) -> ArgsView {
    match flag {
        Flag::Bind => match value {
            Some(text) => ArgsView { bind: text, ..a },
            None => a,
        },
        Flag::Port => match port_value(value) {
            Some(port) => ArgsView { port, ..a },
            None => a,
        },
        Flag::Secret => ArgsView { secret: text_value(value), ..a },
        Flag::DcIps => ArgsView { dc_ips: text_value(value), ..a },
        Flag::PoolSize => match pool_size_value(value) {
            Some(pool_size) => ArgsView { pool_size, ..a },
            None => a,
        },
        Flag::Verbose => ArgsView { verbose: true, ..a },
        Flag::Help => a,
        Flag::Unknown => a,
    }
}

pub open spec fn text_value(value: Option<Seq<char>>) -> Seq<char> {
    match value {
        Some(text) => text,
        None => Seq::empty(),
    }
}

pub open spec fn port_value(value: Option<Seq<char>>) -> Option<u16> {
    match value {
        Some(text) => match unsigned_value(text, u16::MAX as nat) {
            Some(port) => Some(port as u16),
            None => None,
        },
        None => None,
    }
}

pub open spec fn pool_size_value(value: Option<Seq<char>>) -> Option<i32> {
    match value {
        Some(text) => match signed_value(text, i32::MIN as int, i32::MAX as int) {
            Some(size) => Some(size as i32),
            None => None,
        },
        None => None,
    }
}

/// The value of an option that is the first of `words`.
pub open spec fn value_of(words: Seq<Seq<char>>) -> Option<Seq<char>> {
    if takes_value(flag_of(words[0])) && words.len() > 1 {
        Some(words[1])
    } else {
        None
    }
}

/// What follows the option that is the first of `words`, and its value.
pub open spec fn rest_of(words: Seq<Seq<char>>) -> Seq<Seq<char>> {
    if takes_value(flag_of(words[0])) && words.len() > 1 {
        words.skip(2)
    } else {
        words.skip(1)
    }
}

/// What a command line comes to.
pub enum Reading {
    /// Run with these settings.
    Run(ArgsView),
    /// Show the help text.
    Help,
    /// Refuse this word.
    Unknown(Seq<char>),
}

/// What the command line `words` comes to, where the settings would otherwise be `a`.
pub open spec fn reading(words: Seq<Seq<char>>, a: ArgsView) -> Reading
    decreases words.len(),
{
    if words.len() == 0 {
        Reading::Run(a)
    } else {
        let flag = flag_of(words[0]);
        if flag is Help {
            Reading::Help
        } else if flag is Unknown {
            Reading::Unknown(words[0])
        } else {
            reading(rest_of(words), applied(flag, value_of(words), a))
        }
    }
}

/// The settings of a run without command line options.
pub open spec fn configured(config: ConfigView) -> ArgsView {
    ArgsView {
        bind: config.bind,
        port: config.port,
        secret: config.secret,
        dc_ips: config.dc_ips,
        pool_size: config.pool_size,
        verbose: config.verbose,
        log_file: Seq::empty(),
    }
}

/// The words after the program's name.
pub open spec fn words_of(argv: Seq<String>) -> Seq<Seq<char>> {
    let all = argv.map_values(|word: String| word@);
    if all.len() == 0 {
        all
    } else {
        all.skip(1)
    }
}

/// The lines of the help text.
pub open spec fn help_lines() -> Seq<Seq<char>> {
    seq![
        "TG WS Proxy — Windows port"@,
        ""@,
        "Использование: tgwsproxy [опции]"@,
        ""@,
        "Опции (переопределяют config.toml):"@,
        "  --bind <IP>         адрес прослушивания (по умолч.: 127.0.0.1)"@,
        "  --port <PORT>       порт (по умолч.: 1443)"@,
        "  --secret <HEX>      секрет прокси (32 hex символа)"@,
        "  --dc-ips <LIST>     IP датацентров: \"1:ip1,2:ip2,...\""@,
        "  --pool-size <N>     размер пула соединений (по умолч.: 4)"@,
        "  --verbose, -v       подробное логирование"@,
        "  --help, -h          эта справка"@,
        ""@,
        "config.toml загружается автоматически из папки exe."@,
        "CLI-флаги переопределяют значения из config.toml."@,
        "Если secret не задан нигде — генерируется новый и сохраняется в config.toml."@,
    ]
}

/// The plan to show the help text.
pub open spec fn help_plan() -> Seq<ActionView> {
    help_lines().map_values(|line: Seq<char>| ActionView::Print(Stream::Error, line))
}

/// Shows the help text.
pub fn print_help() -> (r: Plan)
    ensures
        r@ == help_plan(),
{
    let mut plan = Plan::new();
    plan.print(Stream::Error, "TG WS Proxy — Windows port");
    plan.print(Stream::Error, "");
    plan.print(Stream::Error, "Использование: tgwsproxy [опции]");
    plan.print(Stream::Error, "");
    plan.print(Stream::Error, "Опции (переопределяют config.toml):");
    plan.print(
        Stream::Error,
        "  --bind <IP>         адрес прослушивания (по умолч.: 127.0.0.1)",
    );
    plan.print(Stream::Error, "  --port <PORT>       порт (по умолч.: 1443)");
    plan.print(Stream::Error, "  --secret <HEX>      секрет прокси (32 hex символа)");
    plan.print(Stream::Error, "  --dc-ips <LIST>     IP датацентров: \"1:ip1,2:ip2,...\"");
    plan.print(Stream::Error, "  --pool-size <N>     размер пула соединений (по умолч.: 4)");
    plan.print(Stream::Error, "  --verbose, -v       подробное логирование");
    plan.print(Stream::Error, "  --help, -h          эта справка");
    plan.print(Stream::Error, "");
    plan.print(Stream::Error, "config.toml загружается автоматически из папки exe.");
    plan.print(Stream::Error, "CLI-флаги переопределяют значения из config.toml.");
    plan.print(
        Stream::Error,
        "Если secret не задан нигде — генерируется новый и сохраняется в config.toml.",
    );
    assert(plan@ =~= help_plan());
    plan
}

/// Whether to run, and how.
#[derive(Debug, PartialEq, Eq)]
pub enum Parsed {
    /// Run with these settings.
    Run(Args),
    /// Do this, which ends the process, and do not run.
    Quit(Plan),
}

/// What comes of a command line that was read as `outcome`.
pub open spec fn answers(parsed: Parsed, outcome: Reading) -> bool {
    match outcome {
        Reading::Run(a) => parsed matches Parsed::Run(args) && args@ == a,
        Reading::Help => parsed matches Parsed::Quit(plan) && plan@ == help_plan().push(
            ActionView::Exit(0),
        ),
        Reading::Unknown(word) => parsed matches Parsed::Quit(plan) && plan@ == (seq![
            ActionView::Print(Stream::Error, "Неизвестный аргумент: "@ + word),
        ] + help_plan()).push(ActionView::Exit(1)),
    }
}

/// What a word asks for where an option is expected.
fn flag(word: &str) -> (r: Flag)
    ensures
        r == flag_of(word@),
{
    if same_text(word, "--bind") {
        Flag::Bind
    } else if same_text(word, "--port") {
        Flag::Port
    } else if same_text(word, "--secret") {
        Flag::Secret
    } else if same_text(word, "--dc-ips") {
        Flag::DcIps
    } else if same_text(word, "--pool-size") {
        Flag::PoolSize
    } else if same_text(word, "--verbose") || same_text(word, "-v") {
        Flag::Verbose
    } else if same_text(word, "--help") || same_text(word, "-h") {
        Flag::Help
    } else {
        Flag::Unknown
    }
}

/// Applies an option to the settings.
fn apply(args: &mut Args, flag: Flag, value: Option<&String>)
    ensures
        final(args)@ == applied(
            flag,
            match value {
                Some(text) => Some(text@),
                None => None,
            },
            old(args)@,
        ),
{
    match flag {
        Flag::Bind => {
            if let Some(text) = value {
                args.bind = text.clone();
            }
        },
        Flag::Port => {
            if let Some(text) = value {
                if let Some(port) = parse_u16(text.as_str()) {
                    args.port = port;
                }
            }
        },
        Flag::Secret => {
            args.secret = match value {
                Some(text) => text.clone(),
                None => String::new(),
            };
        },
        Flag::DcIps => {
            args.dc_ips = match value {
                Some(text) => text.clone(),
                None => String::new(),
            };
        },
        Flag::PoolSize => {
            if let Some(text) = value {
                if let Some(size) = parse_i32(text.as_str()) {
                    args.pool_size = size;
                }
            }
        },
        Flag::Verbose => {
            args.verbose = true;
        },
        Flag::Help | Flag::Unknown => {},
    }
}

/// Reads the command line `argv`, which begins with the program's name. Its options override what
/// the configuration says, each later one the earlier ones.
pub fn parse_args(config: &Config, argv: &Vec<String>) -> (r: Parsed)
    ensures
        answers(r, reading(words_of(argv@), configured(config@))),
{
    let mut args = Args {
        bind: config.bind.clone(),
        port: config.port,
        secret: config.secret.clone(),
        dc_ips: config.dc_ips.clone(),
        pool_size: config.pool_size,
        verbose: config.verbose,
        log_file: String::new(),
    };
    let ghost words = words_of(argv@);
    let mut i: usize = 1;
    assert(words.len() > 0 ==> words.skip(0) =~= words);
    while i < argv.len()
        invariant
            1 <= i,
            i <= argv.len() || argv.len() == 0,
            words == words_of(argv@),
            argv.len() == 0 ==> args@ == configured(config@),
            argv.len() > 0 ==> reading(words, configured(config@)) == reading(
                words.skip(i - 1),
                args@,
            ),
        decreases argv.len() - i,
    {
        let ghost left = words.skip(i - 1);
        assert(left[0] == argv@[i as int]@);
        assert(left.len() > 1 ==> left[1] == argv@[i + 1]@);
        let flag = flag(argv[i].as_str());
        match flag {
            Flag::Help => {
                let mut plan = print_help();
                plan.push(Action::Exit(0));
                return Parsed::Quit(plan);
            },
            Flag::Unknown => {
                let mut plan = Plan::new();
                plan.print(
                    Stream::Error,
                    joined("Неизвестный аргумент: ", argv[i].as_str()).as_str(),
                );
                plan.append(print_help());
                plan.push(Action::Exit(1));
                return Parsed::Quit(plan);
            },
            Flag::Verbose => {
                apply(&mut args, flag, None);
                assert(left.skip(1) =~= words.skip(i as int));
                i = i + 1;
            },
            _ => {
                let value = if i + 1 < argv.len() {
                    Some(&argv[i + 1])
                } else {
                    None
                };
                apply(&mut args, flag, value);
                proof {
                    if i + 1 < argv.len() {
                        assert(left.skip(2) =~= words.skip(i + 1));
                    } else {
                        assert(left.skip(1) =~= words.skip(i as int));
                    }
                }
                i = i + 1;
                if i < argv.len() {
                    i = i + 1;
                }
            },
        }
    }
    Parsed::Run(args)
}

/// Whether the option changes a setting, given its value.
pub open spec fn takes_effect(flag: Flag, value: Option<Seq<char>>) -> bool {
    match flag {
        Flag::Bind => value is Some,
        Flag::Port => port_value(value) is Some,
        Flag::PoolSize => pool_size_value(value) is Some,
        Flag::Secret | Flag::DcIps | Flag::Verbose => true,
        Flag::Help | Flag::Unknown => false,
    }
}

/// Whether `words` holds the option `flag`, with a value that is of use.
pub open spec fn overrides(words: Seq<Seq<char>>, flag: Flag) -> bool
    decreases words.len(),
{
    words.len() > 0 && ((flag_of(words[0]) == flag && takes_effect(flag, value_of(words)))
        || overrides(rest_of(words), flag))
}

/// Whether `a` and `b` agree on the setting that the option is for.
pub open spec fn agree_on(flag: Flag, a: ArgsView, b: ArgsView) -> bool {
    match flag {
        Flag::Bind => a.bind == b.bind,
        Flag::Port => a.port == b.port,
        Flag::Secret => a.secret == b.secret,
        Flag::DcIps => a.dc_ips == b.dc_ips,
        Flag::PoolSize => a.pool_size == b.pool_size,
        Flag::Verbose => a.verbose == b.verbose,
        Flag::Help | Flag::Unknown => true,
    }
}

/// Whether the last option of `words` that takes a value has one, and `words` ask for a run.
pub open spec fn complete(words: Seq<Seq<char>>) -> bool
    decreases words.len(),
{
    words.len() == 0 || ({
        let flag = flag_of(words[0]);
        &&& !(flag is Help)
        &&& !(flag is Unknown)
        &&& takes_value(flag) ==> words.len() > 1
        &&& complete(rest_of(words))
    })
}

/// The command line overrides the configuration: where an option takes effect, the setting that
/// it is for does not depend on the configuration.
pub proof fn law_options_override_config(
    words: Seq<Seq<char>>,
    flag: Flag,
    a: ArgsView,
    b: ArgsView,
)
    requires
        overrides(words, flag),
    ensures
        reading(words, a) matches Reading::Run(x) ==> (reading(words, b) matches Reading::Run(y)
            && agree_on(flag, x, y)),
    decreases words.len(),
{
    let first = flag_of(words[0]);
    let value = value_of(words);
    if first == flag && takes_effect(flag, value) {
        lemma_agreement_stays(
            rest_of(words),
            flag,
            applied(first, value, a),
            applied(first, value, b),
        );
    } else if !(first is Help) && !(first is Unknown) {
        law_options_override_config(
            rest_of(words),
            flag,
            applied(first, value, a),
            applied(first, value, b),
        );
    }
}

/// The same command line keeps an agreement on a setting.
proof fn lemma_agreement_stays(words: Seq<Seq<char>>, flag: Flag, a: ArgsView, b: ArgsView)
    requires
        agree_on(flag, a, b),
    ensures
        reading(words, a) matches Reading::Run(x) ==> (reading(words, b) matches Reading::Run(y)
            && agree_on(flag, x, y)),
    decreases words.len(),
{
    if words.len() > 0 {
        let first = flag_of(words[0]);
        let value = value_of(words);
        if !(first is Help) && !(first is Unknown) {
            lemma_agreement_stays(
                rest_of(words),
                flag,
                applied(first, value, a),
                applied(first, value, b),
            );
        }
    }
}

/// A setting that no option of the command line changes is the configured one.
pub proof fn law_unset_options_keep_config(words: Seq<Seq<char>>, flag: Flag, a: ArgsView)
    requires
        !overrides(words, flag),
    ensures
        reading(words, a) matches Reading::Run(x) ==> agree_on(flag, x, a),
    decreases words.len(),
{
    if words.len() > 0 {
        let first = flag_of(words[0]);
        if !(first is Help) && !(first is Unknown) {
            law_unset_options_keep_config(
                rest_of(words),
                flag,
                applied(first, value_of(words), a),
            );
        }
    }
}

/// Without options, the settings are those of the configuration.
pub proof fn law_no_options_mean_config(argv: Seq<String>, config: ConfigView)
    requires
        argv.len() <= 1,
    ensures
        reading(words_of(argv), configured(config)) == Reading::Run(configured(config)),
{
}

/// Options apply one after the other: what follows a complete command line is read as if the
/// settings had been those that the first part comes to.
pub proof fn law_options_apply_in_order(
    first: Seq<Seq<char>>,
    second: Seq<Seq<char>>,
    a: ArgsView,
)
    requires
        complete(first),
    ensures
        reading(first, a) is Run,
        reading(first + second, a) == reading(second, reading(first, a)->Run_0),
    decreases first.len(),
{
    if first.len() == 0 {
        assert(first + second =~= second);
    } else {
        let flag = flag_of(first[0]);
        let whole = first + second;
        assert(whole[0] == first[0]);
        assert(value_of(whole) == value_of(first));
        assert(rest_of(whole) =~= rest_of(first) + second);
        law_options_apply_in_order(
            rest_of(first),
            second,
            applied(flag, value_of(first), a),
        );
    }
}

/// Of several options for one setting the last one counts.
pub proof fn law_last_option_counts(
    first: Seq<Seq<char>>,
    option: Seq<char>,
    value: Seq<char>,
    a: ArgsView,
)
    requires
        complete(first),
        takes_value(flag_of(option)),
    ensures
        reading(first + seq![option, value], a) == Reading::Run(
            applied(flag_of(option), Some(value), reading(first, a)->Run_0),
        ),
{
    let second = seq![option, value];
    law_options_apply_in_order(first, second, a);
    assert(rest_of(second) =~= Seq::empty());
    let b = reading(first, a)->Run_0;
    let c = applied(flag_of(option), Some(value), b);
    assert(reading(rest_of(second), c) == Reading::Run(c));
    assert(reading(second, b) == reading(rest_of(second), c));
}

/// Whether the program runs, shows its help text or refuses a word, and which word, depends on
/// the command line alone.
pub proof fn law_config_does_not_decide_whether_to_run(
    words: Seq<Seq<char>>,
    a: ArgsView,
    b: ArgsView,
)
    ensures
        reading(words, a) is Run <==> reading(words, b) is Run,
        reading(words, a) is Help <==> reading(words, b) is Help,
        reading(words, a) matches Reading::Unknown(word) ==> reading(words, b)
            == Reading::Unknown(word),
    decreases words.len(),
{
    if words.len() > 0 {
        let first = flag_of(words[0]);
        let value = value_of(words);
        if !(first is Help) && !(first is Unknown) {
            law_config_does_not_decide_whether_to_run(
                rest_of(words),
                applied(first, value, a),
                applied(first, value, b),
            );
        }
    }
}

/// The port option takes every port in its decimal form.
pub proof fn law_port_option_reads_every_port(port: u16, a: ArgsView)
    ensures
        applied(Flag::Port, Some(decimal_form(port as nat)), a) == (ArgsView { port, ..a }),
{
    law_decimal_reads_back(port as nat);
}

/// Whether `words` are one option, with its value if it takes one.
pub open spec fn one_option(words: Seq<Seq<char>>) -> bool {
    words.len() > 0 && complete(words) && rest_of(words).len() == 0
}

/// What one option comes to.
proof fn lemma_one_option(words: Seq<Seq<char>>, a: ArgsView)
    requires
        one_option(words),
    ensures
        reading(words, a) == Reading::Run(applied(flag_of(words[0]), value_of(words), a)),
{
    let b = applied(flag_of(words[0]), value_of(words), a);
    assert(reading(rest_of(words), b) == Reading::Run(b));
}

/// The order of two options for different settings does not matter.
pub proof fn law_different_options_commute(
    first: Seq<Seq<char>>,
    x: Seq<Seq<char>>,
    y: Seq<Seq<char>>,
    rest: Seq<Seq<char>>,
    a: ArgsView,
)
    requires
        complete(first),
        one_option(x),
        one_option(y),
        flag_of(x[0]) != flag_of(y[0]),
    ensures
        reading(first + (x + (y + rest)), a) == reading(first + (y + (x + rest)), a),
{
    law_options_apply_in_order(first, x + (y + rest), a);
    law_options_apply_in_order(first, y + (x + rest), a);
    let b = reading(first, a)->Run_0;
    let bx = applied(flag_of(x[0]), value_of(x), b);
    let by = applied(flag_of(y[0]), value_of(y), b);
    lemma_one_option(x, b);
    lemma_one_option(y, b);
    lemma_one_option(y, bx);
    lemma_one_option(x, by);
    law_options_apply_in_order(x, y + rest, b);
    law_options_apply_in_order(y, rest, bx);
    law_options_apply_in_order(y, x + rest, b);
    law_options_apply_in_order(x, rest, by);
    assert(applied(flag_of(y[0]), value_of(y), bx) == applied(flag_of(x[0]), value_of(x), by));
}

/// The settings of a run and what they say agree field by field.
pub proof fn law_view_keeps_the_settings(args: Args)
    ensures
        args@.bind == args.bind@,
        args@.port == args.port,
        args@.secret == args.secret@,
        args@.dc_ips == args.dc_ips@,
        args@.pool_size == args.pool_size,
        args@.verbose == args.verbose,
        args@.log_file == args.log_file@,
{
}

/// What the nine words ask for.
proof fn lemma_flags()
    ensures
        flag_of("--bind"@) is Bind,
        flag_of("--port"@) is Port,
        flag_of("--secret"@) is Secret,
        flag_of("--dc-ips"@) is DcIps,
        flag_of("--pool-size"@) is PoolSize,
        flag_of("--verbose"@) is Verbose,
        flag_of("-v"@) is Verbose,
        flag_of("--help"@) is Help,
        flag_of("-h"@) is Help,
{
    reveal_strlit("--bind");
    reveal_strlit("--port");
    reveal_strlit("--secret");
    reveal_strlit("--dc-ips");
    reveal_strlit("--pool-size");
    reveal_strlit("--verbose");
    reveal_strlit("-v");
    reveal_strlit("--help");
    reveal_strlit("-h");
    assert("--bind"@.len() == 6 && "--bind"@[2] == 'b');
    assert("--port"@.len() == 6 && "--port"@[2] == 'p');
    assert("--help"@.len() == 6 && "--help"@[2] == 'h');
    assert("--secret"@.len() == 8 && "--secret"@[2] == 's');
    assert("--dc-ips"@.len() == 8 && "--dc-ips"@[2] == 'd');
    assert("--pool-size"@.len() == 11);
    assert("--verbose"@.len() == 9);
    assert("-v"@.len() == 2 && "-v"@[1] == 'v');
    assert("-h"@.len() == 2 && "-h"@[1] == 'h');
}

/// What an option with a value does, whatever stood before it and whatever follows: it sets its
/// own setting to the value and no other. A port or pool size that is no number in range is
/// passed over.
pub proof fn law_what_options_set(
    value: Seq<char>,
    rest: Seq<Seq<char>>,
    a: ArgsView,
)
    ensures
        reading(seq!["--bind"@, value] + rest, a) == reading(rest, ArgsView { bind: value, ..a }),
        reading(seq!["--secret"@, value] + rest, a) == reading(
            rest,
            ArgsView { secret: value, ..a },
        ),
        reading(seq!["--dc-ips"@, value] + rest, a) == reading(
            rest,
            ArgsView { dc_ips: value, ..a },
        ),
        reading(seq!["--port"@, value] + rest, a) == match unsigned_value(value, 65535) {
            Some(number) => reading(rest, ArgsView { port: number as u16, ..a }),
            None => reading(rest, a),
        },
        reading(seq!["--pool-size"@, value] + rest, a) == match signed_value(
            value,
            -2147483648,
            2147483647,
        ) {
            Some(number) => reading(rest, ArgsView { pool_size: number as i32, ..a }),
            None => reading(rest, a),
        },
{
    lemma_flags();
    assert((seq!["--bind"@, value] + rest).skip(2) =~= rest);
    assert((seq!["--secret"@, value] + rest).skip(2) =~= rest);
    assert((seq!["--dc-ips"@, value] + rest).skip(2) =~= rest);
    assert((seq!["--port"@, value] + rest).skip(2) =~= rest);
    assert((seq!["--pool-size"@, value] + rest).skip(2) =~= rest);
}

/// What an option does whose value is missing at the end of the command line: an empty secret or
/// datacenter list is taken, any other option is passed over.
pub proof fn law_what_options_without_value_set(a: ArgsView)
    ensures
        reading(seq!["--bind"@], a) == Reading::Run(a),
        reading(seq!["--port"@], a) == Reading::Run(a),
        reading(seq!["--pool-size"@], a) == Reading::Run(a),
        reading(seq!["--secret"@], a) == Reading::Run(ArgsView { secret: Seq::empty(), ..a }),
        reading(seq!["--dc-ips"@], a) == Reading::Run(ArgsView { dc_ips: Seq::empty(), ..a }),
{
    lemma_flags();
    reveal_with_fuel(reading, 2);
    assert(seq!["--bind"@].skip(1) =~= Seq::empty());
    assert(seq!["--port"@].skip(1) =~= Seq::empty());
    assert(seq!["--pool-size"@].skip(1) =~= Seq::empty());
    assert(seq!["--secret"@].skip(1) =~= Seq::empty());
    assert(seq!["--dc-ips"@].skip(1) =~= Seq::empty());
}

/// The words that take no value, whatever stood before them and whatever follows: verbosity is
/// switched on, and nothing else changes; help is given; any other word is refused.
pub proof fn law_what_single_words_do(word: Seq<char>, rest: Seq<Seq<char>>, a: ArgsView)
    ensures
        reading(Seq::empty(), a) == Reading::Run(a),
        reading(seq!["--verbose"@] + rest, a) == reading(rest, ArgsView { verbose: true, ..a }),
        reading(seq!["-v"@] + rest, a) == reading(rest, ArgsView { verbose: true, ..a }),
        reading(seq!["--help"@] + rest, a) is Help,
        reading(seq!["-h"@] + rest, a) is Help,
        (word != "--bind"@ && word != "--port"@ && word != "--secret"@ && word != "--dc-ips"@
            && word != "--pool-size"@ && word != "--verbose"@ && word != "-v"@ && word
            != "--help"@ && word != "-h"@) ==> reading(seq![word] + rest, a) == Reading::Unknown(
            word,
        ),
{
    lemma_flags();
    assert((seq!["--verbose"@] + rest).skip(1) =~= rest);
    assert((seq!["-v"@] + rest).skip(1) =~= rest);
    assert((seq![word] + rest)[0] == word);
}

/// An option that takes effect stands somewhere in the command line.
proof fn lemma_overriding_option_is_there(words: Seq<Seq<char>>, flag: Flag)
    requires
        overrides(words, flag),
    ensures
        exists|i: int| 0 <= i < words.len() && flag_of(#[trigger] words[i]) == flag,
    decreases words.len(),
{
    if flag_of(words[0]) == flag {
    } else {
        let rest = rest_of(words);
        lemma_overriding_option_is_there(rest, flag);
        let i = choose|i: int| 0 <= i < rest.len() && flag_of(#[trigger] rest[i]) == flag;
        let skipped = words.len() - rest.len();
        assert(rest[i] == words[i + skipped]);
    }
}

/// A command line in which a word does not occur leaves the setting of that option as the
/// configuration has it.
pub proof fn law_what_is_not_named_is_configured(words: Seq<Seq<char>>, config: ConfigView)
    ensures
        reading(words, configured(config)) matches Reading::Run(a) ==> {
            &&& !words.contains("--bind"@) ==> a.bind == config.bind
            &&& !words.contains("--port"@) ==> a.port == config.port
            &&& !words.contains("--secret"@) ==> a.secret == config.secret
            &&& !words.contains("--dc-ips"@) ==> a.dc_ips == config.dc_ips
            &&& !words.contains("--pool-size"@) ==> a.pool_size == config.pool_size
            &&& !words.contains("--verbose"@) && !words.contains("-v"@) ==> a.verbose
                == config.verbose
        },
{
    lemma_unnamed_keeps(words, Flag::Bind, config);
    lemma_unnamed_keeps(words, Flag::Port, config);
    lemma_unnamed_keeps(words, Flag::Secret, config);
    lemma_unnamed_keeps(words, Flag::DcIps, config);
    lemma_unnamed_keeps(words, Flag::PoolSize, config);
    lemma_unnamed_keeps(words, Flag::Verbose, config);
}

/// An option that stands nowhere leaves its setting alone.
proof fn lemma_unnamed_keeps(words: Seq<Seq<char>>, flag: Flag, config: ConfigView)
    ensures
        (forall|i: int| 0 <= i < words.len() ==> flag_of(#[trigger] words[i]) != flag) ==> (reading(
            words,
            configured(config),
        ) matches Reading::Run(a) ==> agree_on(flag, a, configured(config))),
        forall|i: int|
            0 <= i < words.len() && #[trigger] flag_of(words[i]) == flag ==> match flag {
                Flag::Bind => words.contains("--bind"@),
                Flag::Port => words.contains("--port"@),
                Flag::Secret => words.contains("--secret"@),
                Flag::DcIps => words.contains("--dc-ips"@),
                Flag::PoolSize => words.contains("--pool-size"@),
                Flag::Verbose => words.contains("--verbose"@) || words.contains("-v"@),
                _ => true,
            },
{
    if forall|i: int| 0 <= i < words.len() ==> flag_of(#[trigger] words[i]) != flag {
        if overrides(words, flag) {
            lemma_overriding_option_is_there(words, flag);
        }
        law_unset_options_keep_config(words, flag, configured(config));
    }
}

/// Without options, every setting is that of the configuration, and no log file is named.
pub proof fn law_no_options_keep_every_setting(argv: Seq<String>, config: ConfigView)
    requires
        argv.len() <= 1,
    ensures
        reading(words_of(argv), configured(config)) matches Reading::Run(a) && {
            &&& a.bind == config.bind
            &&& a.port == config.port
            &&& a.secret == config.secret
            &&& a.dc_ips == config.dc_ips
            &&& a.pool_size == config.pool_size
            &&& a.verbose == config.verbose
            &&& a.log_file.len() == 0
        },
{
}

/// No command line names a log file.
pub proof fn law_no_option_names_a_log_file(words: Seq<Seq<char>>, a: ArgsView)
    ensures
        reading(words, a) matches Reading::Run(b) ==> b.log_file == a.log_file,
    decreases words.len(),
{
    if words.len() > 0 {
        let flag = flag_of(words[0]);
        if !(flag is Help) && !(flag is Unknown) {
            law_no_option_names_a_log_file(rest_of(words), applied(flag, value_of(words), a));
        }
    }
}

/// The program's name is no option; every word after it counts.
pub proof fn law_words_follow_the_program_name(argv: Seq<String>, i: int)
    ensures
        argv.len() == 0 ==> words_of(argv).len() == 0,
        argv.len() > 0 ==> words_of(argv).len() == argv.len() - 1,
        0 < i < argv.len() ==> words_of(argv)[i - 1] == argv[i]@,
{
}

/// A run has exactly the settings that were read. Help is the help text and exit code 0. A refused
/// word is named, the help text follows, and the exit code is 1.
pub proof fn law_what_a_reading_leads_to(parsed: Parsed, a: ArgsView, word: Seq<char>)
    ensures
        answers(parsed, Reading::Run(a)) <==> (parsed matches Parsed::Run(args) && args@ == a),
        answers(parsed, Reading::Help) ==> (parsed matches Parsed::Quit(plan) && {
            &&& plan@.len() == help_lines().len() + 1
            &&& plan@.last() == ActionView::Exit(0)
            &&& forall|i: int|
                0 <= i < help_lines().len() ==> #[trigger] plan@[i] == ActionView::Print(
                    Stream::Error,
                    help_lines()[i],
                )
        }),
        answers(parsed, Reading::Unknown(word)) ==> (parsed matches Parsed::Quit(plan) && {
            &&& plan@.len() == help_lines().len() + 2
            &&& plan@[0] == ActionView::Print(Stream::Error, "Неизвестный аргумент: "@ + word)
            &&& plan@.last() == ActionView::Exit(1)
            &&& forall|i: int|
                1 <= i < help_lines().len() + 1 ==> #[trigger] plan@[i] == ActionView::Print(
                    Stream::Error,
                    help_lines()[i - 1],
                )
        }),
{
}

/// The help text names the default host, port and pool size as they are.
pub proof fn law_help_names_the_defaults()
    ensures
        help_lines().len() == 16,
        help_lines()[5] == "  --bind <IP>         адрес прослушивания (по умолч.: "@ + (
        default_config().bind + ")"@),
        help_lines()[6] == "  --port <PORT>       порт (по умолч.: "@ + (decimal_form(
            default_config().port as nat,
        ) + ")"@),
        help_lines()[9] == "  --pool-size <N>     размер пула соединений (по умолч.: "@ + (
        decimal_form(default_config().pool_size as nat) + ")"@),
{
    reveal_strlit(")");
    reveal_strlit("127.0.0.1");
    reveal_strlit("  --bind <IP>         адрес прослушивания (по умолч.: ");
    reveal_strlit("  --bind <IP>         адрес прослушивания (по умолч.: 127.0.0.1)");
    reveal_strlit("  --port <PORT>       порт (по умолч.: ");
    reveal_strlit("  --port <PORT>       порт (по умолч.: 1443)");
    reveal_strlit("  --pool-size <N>     размер пула соединений (по умолч.: ");
    reveal_strlit("  --pool-size <N>     размер пула соединений (по умолч.: 4)");
    reveal_with_fuel(decimal_form, 5);
    assert(decimal_form(1443) =~= seq!['1', '4', '4', '3']);
    assert(help_lines()[5] =~= "  --bind <IP>         адрес прослушивания (по умолч.: "@ + (
    default_config().bind + ")"@));
    assert(help_lines()[6] =~= "  --port <PORT>       порт (по умолч.: "@ + (decimal_form(1443)
        + ")"@));
    assert(help_lines()[9] =~= "  --pool-size <N>     размер пула соединений (по умолч.: "@ + (
    decimal_form(4) + ")"@));
}

/// Every option has its line in the help text.
pub proof fn law_help_names_every_option()
    ensures
        help_lines()[5].take(8) == "  "@ + "--bind"@,
        help_lines()[6].take(8) == "  "@ + "--port"@,
        help_lines()[7].take(10) == "  "@ + "--secret"@,
        help_lines()[8].take(10) == "  "@ + "--dc-ips"@,
        help_lines()[9].take(13) == "  "@ + "--pool-size"@,
        help_lines()[10].take(15) == "  "@ + "--verbose"@ + ", "@ + "-v"@,
        help_lines()[11].take(12) == "  "@ + "--help"@ + ", "@ + "-h"@,
{
    reveal_strlit("  ");
    reveal_strlit(", ");
    reveal_strlit("--bind");
    reveal_strlit("--port");
    reveal_strlit("--secret");
    reveal_strlit("--dc-ips");
    reveal_strlit("--pool-size");
    reveal_strlit("--verbose");
    reveal_strlit("-v");
    reveal_strlit("--help");
    reveal_strlit("-h");
    reveal_strlit("  --bind <IP>         адрес прослушивания (по умолч.: 127.0.0.1)");
    reveal_strlit("  --port <PORT>       порт (по умолч.: 1443)");
    reveal_strlit("  --secret <HEX>      секрет прокси (32 hex символа)");
    reveal_strlit("  --dc-ips <LIST>     IP датацентров: \"1:ip1,2:ip2,...\"");
    reveal_strlit("  --pool-size <N>     размер пула соединений (по умолч.: 4)");
    reveal_strlit("  --verbose, -v       подробное логирование");
    reveal_strlit("  --help, -h          эта справка");
    assert(help_lines()[5].take(8) =~= "  "@ + "--bind"@);
    assert(help_lines()[6].take(8) =~= "  "@ + "--port"@);
    assert(help_lines()[7].take(10) =~= "  "@ + "--secret"@);
    assert(help_lines()[8].take(10) =~= "  "@ + "--dc-ips"@);
    assert(help_lines()[9].take(13) =~= "  "@ + "--pool-size"@);
    assert(help_lines()[10].take(15) =~= "  "@ + "--verbose"@ + ", "@ + "-v"@);
    assert(help_lines()[11].take(12) =~= "  "@ + "--help"@ + ", "@ + "-h"@);
}

} // verus!
