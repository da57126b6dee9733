use tgws_launcher::args::Args;
use tgws_launcher::gui::{
    log_text, ProxyApp, ProxyRunner, StatusColor, UserEvent, LOG_LINES, POOL_MAX, POOL_MIN,
    PORT_MAX, PORT_MIN,
};
use tgws_launcher::plan::Action;

fn args() -> Args {
    Args {
        bind: "127.0.0.1".to_string(),
        port: 1443,
        secret: String::new(),
        dc_ips: String::new(),
        pool_size: 4,
        verbose: false,
        log_file: "proxy.log".to_string(),
    }
}

#[test]
fn runner_starts_once() {
    let mut runner = ProxyRunner::new();
    assert!(!runner.running);
    assert_eq!(runner.start(&args()).steps, vec![Action::Launch(args())]);
    assert!(runner.running);
    assert!(runner.start(&args()).steps.is_empty());
    assert!(runner.running);
}

#[test]
fn runner_stops_what_it_started() {
    let mut runner = ProxyRunner::new();
    assert!(runner.stop().steps.is_empty());
    runner.start(&args());
    assert_eq!(runner.stop().steps, vec![Action::Cancel]);
    assert!(!runner.running);
    assert_eq!(runner.stop().steps, vec![Action::Cancel]);
    assert_eq!(runner.start(&args()).steps, vec![Action::Launch(args())]);
}

#[test]
fn window_starts_the_proxy_at_once() {
    let (app, plan) = ProxyApp::new(args());
    assert!(app.runner.running);
    assert_eq!(app.args, args());
    assert_eq!(plan.steps, vec![Action::Launch(args())]);
}

#[test]
fn entered_settings_count_at_the_next_start() {
    let (mut app, _) = ProxyApp::new(args());
    assert!(app.update(UserEvent::BindEntered("0.0.0.0".to_string())).steps.is_empty());
    assert!(app.update(UserEvent::PortChanged(443)).steps.is_empty());
    assert!(app.update(UserEvent::PoolChanged(32)).steps.is_empty());
    assert!(app.runner.running);
    assert_eq!(app.update(UserEvent::ControlClicked).steps, vec![Action::Cancel]);
    assert!(!app.runner.running);
    let mut expected = args();
    expected.bind = "0.0.0.0".to_string();
    expected.port = 443;
    expected.pool_size = 32;
    assert_eq!(app.update(UserEvent::ControlClicked).steps, vec![Action::Launch(expected)]);
}

#[test]
fn launches_alternate_with_cancellations() {
    let (mut app, mut plan) = ProxyApp::new(args());
    for _ in 0..5 {
        plan.steps.append(&mut app.update(UserEvent::ControlClicked).steps);
        plan.steps.append(&mut app.update(UserEvent::PortChanged(2)).steps);
    }
    for (i, step) in plan.steps.iter().enumerate() {
        assert_eq!(matches!(step, Action::Launch(_)), i % 2 == 0);
        assert_eq!(*step == Action::Cancel, i % 2 == 1);
    }
    assert_eq!(plan.steps.len(), 6);
}

#[test]
fn exit_stops_the_proxy_first() {
    let (mut app, _) = ProxyApp::new(args());
    assert_eq!(
        app.update(UserEvent::ExitClicked).steps,
        vec![Action::Cancel, Action::Exit(0)]
    );
    assert!(!app.runner.running);
}

#[test]
fn frame_shows_the_status() {
    let (mut app, _) = ProxyApp::new(args());
    let frame = app.frame();
    assert_eq!(frame.status, "● РАБОТАЕТ");
    assert_eq!(frame.status_color, StatusColor::Green);
    assert_eq!(frame.address, "Порт: 127.0.0.1:1443");
    assert_eq!(frame.control, "⏹ Остановить");
    app.update(UserEvent::ControlClicked);
    let frame = app.frame();
    assert_eq!(frame.status, "● ОСТАНОВЛЕН");
    assert_eq!(frame.status_color, StatusColor::Red);
    assert_eq!(frame.control, "▶ Запустить");
}

#[test]
fn log_text_joins_lines() {
    assert_eq!(log_text(&Vec::new()), "");
    assert_eq!(log_text(&vec!["a".to_string()]), "a");
    let lines = vec!["a".to_string(), String::new(), "б".to_string()];
    assert_eq!(log_text(&lines), lines.join("\n"));
}

#[test]
fn log_text_keeps_the_newest_lines() {
    assert_eq!(LOG_LINES, 500);
    for count in [499usize, 500, 501, 1200] {
        let lines: Vec<String> = (0..count).map(|i| format!("line {}", i)).collect();
        let first = if count > 500 { count - 500 } else { 0 };
        assert_eq!(log_text(&lines), lines[first..].join("\n"));
    }
}

#[test]
fn ranges_of_the_fields() {
    assert_eq!((PORT_MIN, PORT_MAX), (1, 65535));
    assert_eq!((POOL_MIN, POOL_MAX), (1, 32));
}

#[test]
fn entered_limits_are_launched() {
    for (port, pool) in [(PORT_MIN, POOL_MIN), (PORT_MAX, POOL_MAX)] {
        let (mut app, _) = ProxyApp::new(args());
        app.update(UserEvent::PortChanged(port));
        app.update(UserEvent::PoolChanged(pool));
        assert_eq!((app.args.port, app.args.pool_size), (port, pool));
        app.update(UserEvent::ControlClicked);
        let mut expected = args();
        expected.port = port;
        expected.pool_size = pool;
        assert_eq!(app.update(UserEvent::ControlClicked).steps, vec![Action::Launch(expected)]);
    }
}
