use tgws_launcher::config::Config;
use tgws_launcher::plan::{Action, Level};
use tgws_launcher::secret::{
    generate_and_save_secret, is_valid_secret, save_new_secret, secret_of,
};

const BYTES: [u8; 16] = [0, 1, 2, 15, 16, 31, 127, 128, 200, 250, 251, 252, 253, 254, 255, 9];
const DIGITS: &str = "0001020f101f7f80c8fafbfcfdfeff09";

#[test]
fn secret_is_lower_case_hex() {
    assert_eq!(secret_of(BYTES), DIGITS);
    assert_eq!(secret_of([0xab; 16]), "abababababababababababababababab");
}

#[test]
fn secret_digits_denote_its_bytes() {
    assert_eq!(hex::decode(secret_of(BYTES)), Ok(BYTES.to_vec()));
}

#[test]
fn valid_secrets() {
    assert!(is_valid_secret(DIGITS));
    assert!(is_valid_secret("ABCDEFabcdef01234567890123456789"));
    assert!(is_valid_secret(&secret_of(BYTES)));
}

#[test]
fn invalid_secrets() {
    for text in [
        "",
        "0001020f101f7f80c8fafbfcfdfeff0",
        "0001020f101f7f80c8fafbfcfdfeff0912",
        "0001020f101f7f80c8fafbfcfdfeff0g",
        "0x01020f101f7f80c8fafbfcfdfeff09",
        " 001020f101f7f80c8fafbfcfdfeff09",
        "жжжжжжжжжжжжжжжж",
        "жжжжжжжжжжжжжжжжжжжжжжжжжжжжжжжж",
        "0001020f101f7f80c8fafbfcfdfeffж",
    ] {
        assert!(!is_valid_secret(text), "{}", text);
    }
}

#[test]
fn new_secret_is_set_and_saved() {
    let mut config = Config::default();
    config.port = 5;
    let plan = save_new_secret(&mut config, BYTES);
    let mut expected = Config::default();
    expected.port = 5;
    expected.secret = DIGITS.to_string();
    assert_eq!(config, expected);
    assert_eq!(
        plan.steps,
        vec![
            Action::SetSecret(DIGITS.to_string()),
            Action::SaveConfig(expected),
            Action::Log(
                Level::Info,
                "сгенерирован новый секрет и сохранён в config.toml".to_string(),
            ),
        ]
    );
}

#[test]
fn random_secrets_are_valid_and_differ() {
    let mut first = Config::default();
    let mut second = Config::default();
    let plan = generate_and_save_secret(&mut first);
    generate_and_save_secret(&mut second);
    assert!(is_valid_secret(&first.secret));
    assert_ne!(first.secret, second.secret);
    assert_eq!(plan.steps[0], Action::SetSecret(first.secret.clone()));
    assert_eq!(plan.steps[1], Action::SaveConfig(first.clone()));
}
