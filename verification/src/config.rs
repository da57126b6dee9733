//! The configuration file.
use vstd::prelude::*;

use crate::plan::{Action, ActionView, Plan, Stream};
use crate::text::joined;

verus! {

/// The settings that the configuration file holds.
#[derive(Debug, PartialEq, Eq)]
pub struct Config {
    /// The host to listen on.
    pub bind: String,
    /// The port to listen on.
    pub port: u16,
    /// The proxy secret; empty where none is set.
    pub secret: String,
    /// The datacenter addresses, as `1:ip1,2:ip2,...`.
    pub dc_ips: String,
    /// The number of connections that the pool holds.
    pub pool_size: i32,
    /// Whether to log in detail.
    pub verbose: bool,
}

/// What a configuration says, with its texts as character sequences.
#[verifier::ext_equal]
pub struct ConfigView {
    pub bind: Seq<char>,
    pub port: u16,
    pub secret: Seq<char>,
    pub dc_ips: Seq<char>,
    pub pool_size: i32,
    pub verbose: bool,
}

impl View for Config {
    type V = ConfigView;

    open spec fn view(&self) -> ConfigView {
        ConfigView {
            bind: self.bind@,
            port: self.port,
            secret: self.secret@,
            dc_ips: self.dc_ips@,
            pool_size: self.pool_size,
            verbose: self.verbose,
        }
    }
}

/// The configuration of a program that was never configured.
pub open spec fn default_config() -> ConfigView {
    ConfigView {
        bind: "127.0.0.1"@,
        port: 1443,
        secret: Seq::empty(),
        dc_ips: Seq::empty(),
        pool_size: 4,
        verbose: false,
    }
}

impl Default for Config {
    fn default() -> (r: Config)
        ensures
            r@ == default_config(),
    {
        Config {
            bind: "127.0.0.1".to_owned(),
            port: 1443,
            secret: String::new(),
            dc_ips: String::new(),
            pool_size: 4,
            verbose: false,
        }
    }
}

impl Clone for Config {
    fn clone(&self) -> (r: Config)
        ensures
            r@ == self@,
    {
        Config {
            bind: self.bind.clone(),
            port: self.port,
            secret: self.secret.clone(),
            dc_ips: self.dc_ips.clone(),
            pool_size: self.pool_size,
            verbose: self.verbose,
        }
    }
}

/// What was found where the configuration file should be. An error is given as its text.
#[derive(Debug, PartialEq, Eq)]
pub enum ConfigFile {
    /// There is no such file.
    Missing,
    /// The file could not be read.
    Unreadable(String),
    /// The file was read, but holds no configuration.
    Malformed(String),
    /// The file holds this configuration.
    Loaded(Config),
}

/// The configuration that `load_config` settles on.
pub open spec fn loaded_config(file: ConfigFile) -> ConfigView {
    match file {
        ConfigFile::Loaded(config) => config@,
        _ => default_config(),
    }
}

/// What `load_config` has the program do.
pub open spec fn load_plan(path: Seq<char>, file: ConfigFile) -> Seq<ActionView> {
    match file {
        ConfigFile::Missing => seq![
            ActionView::SaveConfig(default_config()),
            ActionView::Print(Stream::Output, "Создан config.toml: "@ + path),
        ],
        ConfigFile::Unreadable(error) => seq![
            ActionView::Print(
                Stream::Error,
                "Ошибка чтения config.toml: "@ + error@ + ", использую значения по умолч."@,
            ),
        ],
        ConfigFile::Malformed(error) => seq![
            ActionView::Print(
                Stream::Error,
                "Ошибка парсинга config.toml: "@ + error@ + ", использую значения по умолч."@,
            ),
        ],
        ConfigFile::Loaded(_) => Seq::empty(),
    }
}

/// Settles on a configuration. A missing file is created with the default one; a file that is
/// of no use is left alone, and the default configuration is used in its place.
pub fn load_config(path: &str, file: ConfigFile) -> (r: (Config, Plan))
    ensures
        r.0@ == loaded_config(file),
        r.1@ == load_plan(path@, file),
{
    let mut plan = Plan::new();
    match file {
        ConfigFile::Missing => {
            let config: Config = Default::default();
            plan.push(Action::SaveConfig(config.clone()));
            plan.print(Stream::Output, joined("Создан config.toml: ", path).as_str());
            assert(plan@ =~= load_plan(path@, file));
            (config, plan)
        },
        ConfigFile::Unreadable(error) => {
            let mut text = joined("Ошибка чтения config.toml: ", error.as_str());
            text.append(", использую значения по умолч.");
            plan.print(Stream::Error, text.as_str());
            assert(plan@ =~= load_plan(path@, file));
            (Default::default(), plan)
        },
        ConfigFile::Malformed(error) => {
            let mut text = joined("Ошибка парсинга config.toml: ", error.as_str());
            text.append(", использую значения по умолч.");
            plan.print(Stream::Error, text.as_str());
            assert(plan@ =~= load_plan(path@, file));
            (Default::default(), plan)
        },
        ConfigFile::Loaded(config) => (config, plan),
    }
}

/// Goes on saving a configuration once it was serialised, or could not be.
pub fn save_config(serialised: Result<String, String>) -> (r: Plan)
    ensures
        r@ == match serialised {
            Ok(text) => seq![ActionView::WriteConfigFile(text@)],
            Err(error) => seq![
                ActionView::Print(
                    Stream::Error,
                    "Ошибка сериализации config.toml: "@ + error@,
                ),
            ],
        },
{
    let mut plan = Plan::new();
    match serialised {
        Ok(text) => {
            plan.push(Action::WriteConfigFile(text));
        },
        Err(error) => {
            plan.print(
                Stream::Error,
                joined("Ошибка сериализации config.toml: ", error.as_str()).as_str(),
            );
        },
    }
    plan
}

/// Only a missing file is written when the configuration is loaded, and then with the default
/// configuration; a file that is there is never touched.
pub proof fn law_loading_creates_only_a_missing_file(path: Seq<char>, file: ConfigFile)
    ensures
        forall|i: int|
            0 <= i < load_plan(path, file).len() && #[trigger] load_plan(path, file)[i]
                is SaveConfig ==> file is Missing && load_plan(path, file)[i]
                == ActionView::SaveConfig(default_config()),
        file is Missing ==> load_plan(path, file)[0] is SaveConfig,
        !(file is Loaded) ==> loaded_config(file) == default_config(),
{
}

/// What may be found where `first` was found before, if only the program touched the file since:
/// a file that was there is as it was; one that was missing holds the default configuration, or
/// is still missing where it could not be written.
pub open spec fn may_follow(first: ConfigFile, second: ConfigFile) -> bool {
    match first {
        ConfigFile::Missing => second is Missing || (second matches ConfigFile::Loaded(config)
            && config@ == default_config()),
        ConfigFile::Unreadable(_) => second is Unreadable,
        ConfigFile::Malformed(_) => second is Malformed,
        ConfigFile::Loaded(before) => second matches ConfigFile::Loaded(after) && after@ == before@,
    }
}

/// Loading the configuration once more gives the same configuration. A file that is there by then
/// is left as it is, and where loading succeeds there is nothing at all to do.
pub proof fn law_loading_twice_changes_nothing(
    path: Seq<char>,
    first: ConfigFile,
    second: ConfigFile,
)
    requires
        may_follow(first, second),
    ensures
        loaded_config(second) == loaded_config(first),
        !(second is Missing) ==> forall|i: int|
            0 <= i < load_plan(path, second).len() ==> !(#[trigger] load_plan(path, second)[i]
                is SaveConfig) && !(load_plan(path, second)[i] is WriteConfigFile),
        second is Loaded ==> load_plan(path, second) == Seq::<ActionView>::empty(),
        second is Missing ==> load_plan(path, second) == load_plan(path, first),
{
}

/// What the file holds after a plan, if everything is serialised by `print` and written.
pub open spec fn content_after(
    content: Option<Seq<char>>,
    plan: Seq<ActionView>,
    print: spec_fn(ConfigView) -> Seq<char>,
) -> Option<Seq<char>>
    decreases plan.len(),
{
    if plan.len() == 0 {
        content
    } else {
        match plan.last() {
            ActionView::SaveConfig(config) => Some(print(config)),
            ActionView::WriteConfigFile(text) => Some(text),
            _ => content_after(content, plan.drop_last(), print),
        }
    }
}

/// Whether a file of this content that can be read, or none, is found as `file`, if `parse` reads
/// a configuration.
pub open spec fn found_as(
    content: Option<Seq<char>>,
    parse: spec_fn(Seq<char>) -> Option<ConfigView>,
    file: ConfigFile,
) -> bool {
    match content {
        None => file is Missing,
        Some(text) => match parse(text) {
            Some(config) => file matches ConfigFile::Loaded(loaded) && loaded@ == config,
            None => file is Malformed,
        },
    }
}

/// A configuration that the serialiser reads back as it was is loaded as it was saved, and
/// loading it leaves the file alone.
pub proof fn law_saved_config_loads_back(
    print: spec_fn(ConfigView) -> Seq<char>,
    parse: spec_fn(Seq<char>) -> Option<ConfigView>,
    config: ConfigView,
    before: Option<Seq<char>>,
    path: Seq<char>,
    file: ConfigFile,
)
    requires
        parse(print(config)) == Some(config),
        found_as(
            content_after(before, seq![ActionView::WriteConfigFile(print(config))], print),
            parse,
            file,
        ),
    ensures
        loaded_config(file) == config,
        load_plan(path, file) == Seq::<ActionView>::empty(),
{
}

/// If the serialiser reads back the default configuration as it was, then, whatever the file holds
/// at first, or if there is none, loading twice gives the same configuration both times, and the
/// second time leaves the file as the first time left it.
pub proof fn law_loading_twice_keeps_the_file(
    print: spec_fn(ConfigView) -> Seq<char>,
    parse: spec_fn(Seq<char>) -> Option<ConfigView>,
    content: Option<Seq<char>>,
    path: Seq<char>,
    first: ConfigFile,
    second: ConfigFile,
)
    requires
        parse(print(default_config())) == Some(default_config()),
        found_as(content, parse, first),
        found_as(content_after(content, load_plan(path, first), print), parse, second),
    ensures
        loaded_config(second) == loaded_config(first),
        content_after(
            content_after(content, load_plan(path, first), print),
            load_plan(path, second),
            print,
        ) == content_after(content, load_plan(path, first), print),
{
    reveal_with_fuel(content_after, 3);
    let plan = load_plan(path, first);
    if first is Missing {
        assert(plan.drop_last() =~= seq![ActionView::SaveConfig(default_config())]);
        assert(content_after(content, plan, print) == Some(print(default_config())));
    } else {
        assert(plan.len() == 1 ==> plan.drop_last() =~= Seq::empty());
    }
    let again = load_plan(path, second);
    assert(again.len() == 1 ==> again.drop_last() =~= Seq::empty());
}

/// A configuration and what it says agree field by field.
pub proof fn law_view_keeps_the_configuration(config: Config)
    ensures
        config@.bind == config.bind@,
        config@.port == config.port,
        config@.secret == config.secret@,
        config@.dc_ips == config.dc_ips@,
        config@.pool_size == config.pool_size,
        config@.verbose == config.verbose,
{
}

/// What is loaded from a file that holds a configuration is that configuration, field by field,
/// and nothing is done. From any other file, or none, it is the same default configuration,
/// whatever the error was.
pub proof fn law_what_is_loaded(path: Seq<char>, config: Config, error: String, other: String)
    ensures
        ({
            let loaded = loaded_config(ConfigFile::Loaded(config));
            &&& loaded.bind == config.bind@
            &&& loaded.port == config.port
            &&& loaded.secret == config.secret@
            &&& loaded.dc_ips == config.dc_ips@
            &&& loaded.pool_size == config.pool_size
            &&& loaded.verbose == config.verbose
        }),
        load_plan(path, ConfigFile::Loaded(config)).len() == 0,
        loaded_config(ConfigFile::Unreadable(error)) == loaded_config(ConfigFile::Missing),
        loaded_config(ConfigFile::Malformed(other)) == loaded_config(ConfigFile::Missing),
        ({
            let default = loaded_config(ConfigFile::Missing);
            &&& default.bind == "127.0.0.1"@
            &&& default.port == 1443
            &&& default.secret.len() == 0
            &&& default.dc_ips.len() == 0
            &&& default.pool_size == 4
            &&& !default.verbose
        }),
{
}

/// A missing file is saved, and the line that says so ends with its path. A file that is of no use
/// gives one line on the standard error, which names the error.
pub proof fn law_loading_says_what_it_found(path: Seq<char>, error: String)
    ensures
        ({
            let plan = load_plan(path, ConfigFile::Missing);
            &&& plan.len() == 2
            &&& plan[0] == ActionView::SaveConfig(loaded_config(ConfigFile::Missing))
            &&& plan[1] == ActionView::Print(Stream::Output, "Создан config.toml: "@ + path)
        }),
        ({
            let plan = load_plan(path, ConfigFile::Unreadable(error));
            &&& plan.len() == 1
            &&& plan[0] matches ActionView::Print(stream, text) && stream is Error && text
                == "Ошибка чтения config.toml: "@ + (error@
                + ", использую значения по умолч."@)
        }),
        ({
            let plan = load_plan(path, ConfigFile::Malformed(error));
            &&& plan.len() == 1
            &&& plan[0] matches ActionView::Print(stream, text) && stream is Error && text
                == "Ошибка парсинга config.toml: "@ + (error@
                + ", использую значения по умолч."@)
        }),
{
    let end = ", использую значения по умолч."@;
    assert("Ошибка чтения config.toml: "@ + error@ + end =~= "Ошибка чтения config.toml: "@ + (
    error@ + end));
    assert("Ошибка парсинга config.toml: "@ + error@ + end =~= "Ошибка парсинга config.toml: "@ + (
    error@ + end));
}

} // verus!
