use tgws_launcher::config::{load_config, save_config, Config, ConfigFile};
use tgws_launcher::plan::{Action, Stream};

fn sample() -> Config {
    Config {
        bind: "0.0.0.0".to_string(),
        port: 443,
        secret: "00112233445566778899aabbccddeeff".to_string(),
        dc_ips: "2:149.154.167.220".to_string(),
        pool_size: 8,
        verbose: true,
    }
}

#[test]
fn default_config_values() {
    let config = Config::default();
    assert_eq!(config.bind, "127.0.0.1");
    assert_eq!(config.port, 1443);
    assert_eq!(config.secret, "");
    assert_eq!(config.dc_ips, "");
    assert_eq!(config.pool_size, 4);
    assert!(!config.verbose);
}

#[test]
fn clone_keeps_every_setting() {
    assert_eq!(sample().clone(), sample());
}

#[test]
fn missing_file_is_created_with_defaults() {
    let (config, plan) = load_config("C:\\proxy\\config.toml", ConfigFile::Missing);
    assert_eq!(config, Config::default());
    assert_eq!(
        plan.steps,
        vec![
            Action::SaveConfig(Config::default()),
            Action::Print(
                Stream::Output,
                "Создан config.toml: C:\\proxy\\config.toml".to_string(),
            ),
        ]
    );
}

#[test]
fn unreadable_file_falls_back_to_defaults() {
    let (config, plan) = load_config("c", ConfigFile::Unreadable("denied".to_string()));
    assert_eq!(config, Config::default());
    assert_eq!(
        plan.steps,
        vec![Action::Print(
            Stream::Error,
            "Ошибка чтения config.toml: denied, использую значения по умолч.".to_string(),
        )]
    );
}

#[test]
fn malformed_file_falls_back_to_defaults() {
    let (config, plan) = load_config("c", ConfigFile::Malformed("no port".to_string()));
    assert_eq!(config, Config::default());
    assert_eq!(
        plan.steps,
        vec![Action::Print(
            Stream::Error,
            "Ошибка парсинга config.toml: no port, использую значения по умолч.".to_string(),
        )]
    );
}

#[test]
fn loaded_file_is_used_as_it_is() {
    let (config, plan) = load_config("c", ConfigFile::Loaded(sample()));
    assert_eq!(config, sample());
    assert!(plan.steps.is_empty());
}

#[test]
fn serialised_config_is_written() {
    let plan = save_config(Ok("port = 1\n".to_string()));
    assert_eq!(plan.steps, vec![Action::WriteConfigFile("port = 1\n".to_string())]);
}

#[test]
fn failed_serialisation_is_reported() {
    let plan = save_config(Err("bad".to_string()));
    assert_eq!(
        plan.steps,
        vec![Action::Print(Stream::Error, "Ошибка сериализации config.toml: bad".to_string())]
    );
}

#[test]
fn loading_twice_changes_nothing() {
    let (first, plan) = load_config("c", ConfigFile::Missing);
    let written = match &plan.steps[0] {
        Action::SaveConfig(config) => config.clone(),
        other => panic!("{:?}", other),
    };
    let (second, plan) = load_config("c", ConfigFile::Loaded(written));
    assert_eq!(first, second);
    assert!(plan.steps.is_empty());

    let (first, _) = load_config("c", ConfigFile::Malformed("x".to_string()));
    let (second, plan) = load_config("c", ConfigFile::Malformed("x".to_string()));
    assert_eq!(first, second);
    assert!(!plan.steps.iter().any(|step| matches!(step, Action::SaveConfig(_))));
}

#[test]
fn saved_text_is_written_unchanged() {
    let text = "secret = \"a\\\"b\\\\c\"\npool_size = -1\n";
    assert_eq!(
        save_config(Ok(text.to_string())).steps,
        vec![Action::WriteConfigFile(text.to_string())]
    );
}

fn table_of(config: &Config) -> toml::Table {
    let mut table = toml::Table::new();
    table.insert("bind".to_string(), toml::Value::String(config.bind.clone()));
    table.insert("port".to_string(), toml::Value::Integer(config.port as i64));
    table.insert("secret".to_string(), toml::Value::String(config.secret.clone()));
    table.insert("dc_ips".to_string(), toml::Value::String(config.dc_ips.clone()));
    table.insert("pool_size".to_string(), toml::Value::Integer(config.pool_size as i64));
    table.insert("verbose".to_string(), toml::Value::Boolean(config.verbose));
    table
}

fn config_of(table: &toml::Table) -> Config {
    let text = |key: &str| table[key].as_str().unwrap().to_string();
    Config {
        bind: text("bind"),
        port: table["port"].as_integer().unwrap() as u16,
        secret: text("secret"),
        dc_ips: text("dc_ips"),
        pool_size: table["pool_size"].as_integer().unwrap() as i32,
        verbose: table["verbose"].as_bool().unwrap(),
    }
}

#[test]
fn saved_config_loads_back() {
    let mut odd = sample();
    odd.bind = "a\"b\\c\nd'e'''f\"\"\"g\tж".to_string();
    odd.dc_ips = "\r\n # = [x]".to_string();
    odd.pool_size = -7;
    for config in [Config::default(), sample(), odd] {
        let printed = toml::to_string_pretty(&table_of(&config));
        let plan = save_config(printed.map_err(|e| e.to_string()));
        let content = match &plan.steps[0] {
            Action::WriteConfigFile(text) => text.clone(),
            other => panic!("{:?}", other),
        };
        let read = config_of(&toml::from_str::<toml::Table>(&content).unwrap());
        let (loaded, plan) = load_config("c", ConfigFile::Loaded(read));
        assert_eq!(loaded, config);
        assert!(plan.steps.is_empty());
    }
}
