use tgws_launcher::plan::{Action, Level};
use tgws_launcher::tray::{
    create_icon, label, menu, status, tooltip, Choice, Entry, Status, Tray, EXIT_WAIT_MILLIS,
    ICON_SIZE, POLL_MILLIS, START_WAIT_MILLIS,
};

fn info(text: &str) -> Action {
    Action::Log(Level::Info, text.to_string())
}

/// The picture drawn with distances and soft edges in floating point.
fn drawn_in_floating_point() -> Vec<u8> {
    let size = 32u32;
    let mut rgba = vec![0u8; (size * size * 4) as usize];
    let centre = size as f32 / 2.0;
    let radius = size as f32 / 2.0 - 2.0;
    for y in 0..size {
        for x in 0..size {
            let dx = x as f32 - centre;
            let dy = y as f32 - centre;
            let dist = (dx * dx + dy * dy).sqrt();
            if dist <= radius {
                let idx = (y * size + x) as usize * 4;
                rgba[idx] = 76;
                rgba[idx + 1] = 175;
                rgba[idx + 2] = 80;
                rgba[idx + 3] = if dist > radius - 1.5 {
                    (255.0 * (radius - dist + 1.5) / 1.5) as u8
                } else {
                    255
                };
            }
        }
    }
    rgba
}

#[test]
fn icon_is_the_picture_drawn_in_floating_point() {
    assert_eq!(create_icon(), drawn_in_floating_point());
}

#[test]
fn icon_pixels() {
    let icon = create_icon();
    assert_eq!(icon.len(), (4 * ICON_SIZE * ICON_SIZE) as usize);
    let pixel = |x: usize, y: usize| icon[(y * 32 + x) * 4..(y * 32 + x) * 4 + 4].to_vec();
    assert_eq!(pixel(16, 16), vec![76, 175, 80, 255]);
    assert_eq!(pixel(2, 16), vec![76, 175, 80, 255]);
    assert_eq!(pixel(1, 16), vec![0, 0, 0, 0]);
    assert_eq!(pixel(0, 0), vec![0, 0, 0, 0]);
    for x in 1..32 {
        for y in 1..32 {
            assert_eq!(pixel(x, y), pixel(y, x));
            assert_eq!(pixel(x, y), pixel(32 - x, y));
            assert_eq!(pixel(x, y), pixel(x, 32 - y));
        }
    }
}

#[test]
fn tooltips() {
    assert_eq!(tooltip(Status::Starting), "TG WS Proxy — запуск...");
    assert_eq!(tooltip(status(true)), "TG WS Proxy — работает");
    assert_eq!(tooltip(status(false)), "TG WS Proxy — остановлен");
}

#[test]
fn menu_entries() {
    let labels: Vec<&str> = menu().into_iter().map(label).collect();
    assert_eq!(labels, vec!["TG WS Proxy", "", "Остановить", "Запустить", "", "Выход"]);
    assert_eq!(menu()[0], Entry::Title);
    assert_eq!(menu()[2], Entry::Item(Choice::Stop));
}

#[test]
fn stopping_a_running_proxy() {
    let mut tray = Tray::new();
    assert_eq!(
        tray.choose_entry(Choice::Stop, true).steps,
        vec![info("остановка прокси из трея"), Action::Cancel]
    );
    assert!(tray.cancelled);
}

#[test]
fn stopping_a_stopped_proxy_does_nothing() {
    let mut tray = Tray::new();
    assert!(tray.choose_entry(Choice::Stop, false).steps.is_empty());
    assert!(!tray.cancelled);
}

#[test]
fn starting_does_not_start_again() {
    let mut tray = Tray::new();
    assert!(tray.choose_entry(Choice::Start, true).steps.is_empty());
    assert!(tray.choose_entry(Choice::Start, false).steps.is_empty());
    tray.choose_entry(Choice::Stop, true);
    assert_eq!(
        tray.choose_entry(Choice::Start, false).steps,
        vec![info("перезапуск после остановки пока не поддерживается")]
    );
    assert!(tray.cancelled);
}

#[test]
fn leaving_the_tray() {
    let mut tray = Tray::new();
    assert_eq!(
        tray.choose_entry(Choice::Exit, true).steps,
        vec![info("выход из трея"), Action::Cancel, Action::Pause(200), Action::Exit(0)]
    );
    assert!(tray.cancelled);
    let mut tray = Tray::new();
    assert_eq!(
        tray.choose_entry(Choice::Exit, false).steps,
        vec![info("выход из трея"), Action::Pause(200), Action::Exit(0)]
    );
    assert!(!tray.cancelled);
}

#[test]
fn waiting_times() {
    assert_eq!((START_WAIT_MILLIS, POLL_MILLIS, EXIT_WAIT_MILLIS), (500, 50, 200));
}
