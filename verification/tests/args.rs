use tgws_launcher::args::{parse_args, print_help, Args, Parsed};
use tgws_launcher::config::Config;
use tgws_launcher::plan::{Action, Plan, Stream};

fn config() -> Config {
    Config {
        bind: "10.0.0.1".to_string(),
        port: 8443,
        secret: "old".to_string(),
        dc_ips: "1:1.1.1.1".to_string(),
        pool_size: 6,
        verbose: false,
    }
}

fn parse(words: &[&str]) -> Parsed {
    let mut argv = vec!["tgwsproxy".to_string()];
    for word in words {
        argv.push(word.to_string());
    }
    parse_args(&config(), &argv)
}

fn run(words: &[&str]) -> Args {
    match parse(words) {
        Parsed::Run(args) => args,
        Parsed::Quit(plan) => panic!("{:?}", plan),
    }
}

fn quit(words: &[&str]) -> Plan {
    match parse(words) {
        Parsed::Run(args) => panic!("{:?}", args),
        Parsed::Quit(plan) => plan,
    }
}

fn configured_args() -> Args {
    Args {
        bind: "10.0.0.1".to_string(),
        port: 8443,
        secret: "old".to_string(),
        dc_ips: "1:1.1.1.1".to_string(),
        pool_size: 6,
        verbose: false,
        log_file: String::new(),
    }
}

#[test]
fn no_options_mean_the_configuration() {
    assert_eq!(run(&[]), configured_args());
    assert_eq!(parse_args(&config(), &Vec::new()), Parsed::Run(configured_args()));
}

#[test]
fn every_option_overrides_the_configuration() {
    let args = run(&[
        "--bind", "0.0.0.0", "--port", "443", "--secret", "s", "--dc-ips", "2:2.2.2.2",
        "--pool-size", "-3", "--verbose",
    ]);
    assert_eq!(
        args,
        Args {
            bind: "0.0.0.0".to_string(),
            port: 443,
            secret: "s".to_string(),
            dc_ips: "2:2.2.2.2".to_string(),
            pool_size: -3,
            verbose: true,
            log_file: String::new(),
        }
    );
}

#[test]
fn other_settings_stay_configured() {
    let mut expected = configured_args();
    expected.port = 1;
    assert_eq!(run(&["--port", "1"]), expected);
    let mut expected = configured_args();
    expected.verbose = true;
    assert_eq!(run(&["-v"]), expected);
}

#[test]
fn later_options_go_before_earlier_ones() {
    assert_eq!(run(&["--bind", "a", "--bind", "b"]).bind, "b");
    assert_eq!(run(&["--port", "1", "--port", "2"]).port, 2);
    assert_eq!(run(&["--port", "1", "--port", "none"]).port, 1);
}

#[test]
fn useless_numbers_change_nothing() {
    for text in ["", "x", "65536", "-1", "1 "] {
        assert_eq!(run(&["--port", text]).port, 8443);
    }
    for text in ["", "x", "2147483648"] {
        assert_eq!(run(&["--pool-size", text]).pool_size, 6);
    }
}

#[test]
fn missing_values() {
    assert_eq!(run(&["--bind"]), configured_args());
    assert_eq!(run(&["--port"]), configured_args());
    assert_eq!(run(&["--pool-size"]), configured_args());
    assert_eq!(run(&["--secret"]).secret, "");
    assert_eq!(run(&["--dc-ips"]).dc_ips, "");
}

#[test]
fn an_option_can_be_a_value() {
    assert_eq!(run(&["--bind", "--help"]).bind, "--help");
    assert_eq!(run(&["--secret", "--port", "-v"]).secret, "--port");
}

#[test]
fn help_ends_with_success() {
    let mut expected = print_help();
    expected.steps.push(Action::Exit(0));
    assert_eq!(quit(&["--help"]), expected);
    assert_eq!(quit(&["-v", "-h", "nonsense"]), expected);
}

#[test]
fn unknown_word_ends_with_failure() {
    let mut steps =
        vec![Action::Print(Stream::Error, "Неизвестный аргумент: --log".to_string())];
    steps.append(&mut print_help().steps);
    steps.push(Action::Exit(1));
    assert_eq!(quit(&["--port", "1", "--log", "-h"]), Plan { steps });
}

#[test]
fn outcome_does_not_depend_on_the_configuration() {
    let argv = vec!["tgwsproxy".to_string(), "what".to_string()];
    assert_eq!(parse_args(&Config::default(), &argv), parse_args(&config(), &argv));
}

#[test]
fn help_text_names_the_defaults() {
    let plan = print_help();
    assert_eq!(plan.steps.len(), 16);
    assert_eq!(
        plan.steps[0],
        Action::Print(Stream::Error, "TG WS Proxy — Windows port".to_string())
    );
    let mut text = String::new();
    for step in plan.steps {
        match step {
            Action::Print(Stream::Error, line) => {
                text.push_str(&line);
                text.push('\n');
            }
            other => panic!("{:?}", other),
        }
    }
    let config = Config::default();
    assert!(text.contains(&format!("(по умолч.: {})", config.bind)));
    assert!(text.contains(&format!("порт (по умолч.: {})", config.port)));
    assert!(text.contains(&format!("соединений (по умолч.: {})", config.pool_size)));
    assert!(text.contains("--dc-ips <LIST>     IP датацентров: \"1:ip1,2:ip2,...\"\n"));
}

#[test]
fn different_options_commute() {
    assert_eq!(
        run(&["-v", "--port", "1", "--bind", "a", "--secret", "s"]),
        run(&["-v", "--bind", "a", "--port", "1", "--secret", "s"])
    );
    assert_eq!(run(&["--dc-ips", "d", "-v"]), run(&["-v", "--dc-ips", "d"]));
}
