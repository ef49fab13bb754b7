use opday::config::{
    get_string_array_value, get_string_value, make_parsing_scope, read_configuration_raw, resolve,
    ConfigError, Scope,
};
use opday::document::{read_document, Entry, Item};

#[test]
fn test_empty_configuration() {
    let toml_data = r#"
        "#;
    let config = read_configuration_raw(&toml_data);
    assert_eq!(config.is_ok(), true);
}

#[test]
fn test_no_path() {
    let toml_data = r#"
        [environments]
        "#;
    let config = read_configuration_raw(&toml_data);
    assert_eq!(config.is_ok(), true);
}

#[test]
fn test_minimal_good() {
    let toml_data = r#"
        path = "path"
        [environments]
        "#;
    let config = read_configuration_raw(&toml_data);
    assert_eq!(config.is_ok(), true);
}

#[test]
fn test_environment_order_load() {
    let toml_data = r#"
        path = "path"
        docker_compose_file = "file"

        [environments]
        ssh_private_key = "akey"
        registry = "aregistry"
        registry_export_auth_config = "aexport_auth"
        docker_compose_overrides = ["aoverride"]
        hosts = ["ahost"]
        export_path = "aexport_path"

        [environments.b]
        ssh_private_key = "bkey"
        registry_auth_config = "bauth"
        hosts = ["bhost"]
        "#;

    let config_result = read_configuration_raw(&toml_data);
    assert_eq!(config_result.is_ok(), true);
    let config = config_result.unwrap();
    assert_eq!(config.environments.len(), 1);
    assert_eq!(
        config.environments[0].ssh_private_key,
        Some("bkey".to_string())
    );
    assert_eq!(config.environments[0].registry, "aregistry".to_string());
    assert_eq!(
        config.environments[0].registry_auth_config,
        "bauth".to_string()
    );
    assert_eq!(
        config.environments[0].docker_compose_overrides,
        vec!["aoverride"]
    );
    assert_eq!(config.environments[0].hosts, vec!["bhost"]);
    assert_eq!(
        config.environments[0].export_path,
        "aexport_path".to_string()
    );
}

#[test]
fn empty_document_has_no_environment_and_the_defaults() {
    let config = read_configuration_raw("").unwrap();
    assert_eq!(config.environments.len(), 0);
    assert_eq!(config.path, ".");
    assert_eq!(config.docker_compose_file, "docker-compose.yaml");
}

#[test]
fn environments_without_path_take_the_defaults() {
    let config = read_configuration_raw("[environments]\n").unwrap();
    assert_eq!(config.path, ".");
    assert_eq!(config.docker_compose_file, "docker-compose.yaml");
    assert_eq!(config.environments.len(), 0);
}

#[test]
fn path_and_file_are_read() {
    let config =
        read_configuration_raw("path = \"work\"\ndocker_compose_file = \"compose.yml\"\n").unwrap();
    assert_eq!(config.path, "work");
    assert_eq!(config.docker_compose_file, "compose.yml");
}

const BASE: &str = r#"
[environments]
registry = "R"
hosts = ["H"]
registry_auth_config = "A"
registry_export_auth_config = "E"
docker_compose_overrides = ["o1", "o2"]
export_path = "X"
"#;

#[test]
fn environment_inherits_and_overrides() {
    let text = format!(
        "{}\n[environments.b]\nssh_private_key = \"K\"\nregistry_auth_config = \"B\"\n",
        BASE
    );
    let config = read_configuration_raw(&text).unwrap();
    assert_eq!(
        config.environments,
        vec![Scope {
            hosts: vec!["H".to_string()],
            export_path: "X".to_string(),
            registry: "R".to_string(),
            registry_auth_config: "B".to_string(),
            registry_export_auth_config: "E".to_string(),
            docker_compose_overrides: vec!["o1".to_string(), "o2".to_string()],
            ssh_private_key: Some("K".to_string()),
        }]
    );
}

#[test]
fn optional_key_absent_everywhere_is_none() {
    let text = format!("{}\n[environments.b]\n", BASE);
    let config = read_configuration_raw(&text).unwrap();
    assert_eq!(config.environments.len(), 1);
    assert_eq!(config.environments[0].ssh_private_key, None);
    assert_eq!(config.environments[0].registry, "R");
}

#[test]
fn environments_come_in_the_order_of_the_table() {
    let text = format!(
        "{}\n[environments.zeta]\nregistry = \"Z\"\n[environments.alpha]\nregistry = \"A1\"\n",
        BASE
    );
    let config = read_configuration_raw(&text).unwrap();
    let registries: Vec<&str> = config.environments.iter().map(|s| s.registry.as_str()).collect();
    assert_eq!(registries, vec!["A1", "Z"]);
}

#[test]
fn missing_required_key_is_reported_with_its_key() {
    let text = "[environments]\nregistry = \"R\"\n[environments.b]\n";
    let error = read_configuration_raw(text).unwrap_err();
    assert_eq!(error, ConfigError::MissingKey { key: "hosts".to_string() });
    assert_eq!(error.message(), "Can't find config value for `hosts` key.");
}

#[test]
fn first_missing_key_in_field_order_is_reported() {
    let error = read_configuration_raw("[environments.b]\n").unwrap_err();
    assert_eq!(error, ConfigError::MissingKey { key: "registry".to_string() });
}

#[test]
fn wrong_type_of_a_string_field_is_a_fault() {
    let text = format!("{}\n[environments.b]\nregistry = 5\n", BASE);
    let error = read_configuration_raw(&text).unwrap_err();
    assert_eq!(error, ConfigError::WrongType { key: "registry".to_string() });
    assert_eq!(error.message(), "Wrong type of config value for `registry` key.");
}

#[test]
fn wrong_type_inside_an_array_is_a_fault() {
    let text = format!("{}\n[environments.b]\nhosts = [\"a\", 1]\n", BASE);
    let error = read_configuration_raw(&text).unwrap_err();
    assert_eq!(error, ConfigError::WrongType { key: "hosts".to_string() });
}

#[test]
fn wrong_type_of_an_array_field_is_a_fault() {
    let text = format!("{}\n[environments.b]\nhosts = \"a\"\n", BASE);
    let error = read_configuration_raw(&text).unwrap_err();
    assert_eq!(error, ConfigError::WrongType { key: "hosts".to_string() });
}

#[test]
fn wrong_type_in_the_base_is_passed_over_when_overridden() {
    let text = "[environments]\nregistry = 5\nhosts = [\"H\"]\nregistry_auth_config = \"A\"\nregistry_export_auth_config = \"E\"\ndocker_compose_overrides = []\nexport_path = \"X\"\n[environments.b]\nregistry = \"R\"\n";
    let config = read_configuration_raw(text).unwrap();
    assert_eq!(config.environments[0].registry, "R");
    assert_eq!(config.environments[0].docker_compose_overrides, Vec::<String>::new());
}

#[test]
fn environments_that_is_no_table_is_a_fault() {
    let error = read_configuration_raw("environments = 3\n").unwrap_err();
    assert_eq!(error, ConfigError::WrongType { key: "environments".to_string() });
}

#[test]
fn path_that_is_no_string_is_a_fault() {
    let error = read_configuration_raw("path = 3\n").unwrap_err();
    assert_eq!(error, ConfigError::WrongType { key: "path".to_string() });
    let error = read_configuration_raw("docker_compose_file = [\"x\"]\n").unwrap_err();
    assert_eq!(error, ConfigError::WrongType { key: "docker_compose_file".to_string() });
}

#[test]
fn text_that_is_no_document_is_malformed() {
    let error = read_configuration_raw("path = ").unwrap_err();
    match &error {
        ConfigError::Malformed { message } => assert!(!message.is_empty()),
        other => panic!("unexpected error {:?}", other),
    }
    assert!(error.message().starts_with("Config parsing error: "));
}

#[test]
fn read_document_keeps_strings_arrays_and_tables() {
    let document = read_document("a = \"x\"\nb = [\"y\", 2]\n[c]\nd = true\n").unwrap();
    assert_eq!(
        document,
        Item::Table(vec![
            Entry { key: "a".to_string(), value: Item::Text("x".to_string()) },
            Entry {
                key: "b".to_string(),
                value: Item::List(vec![Item::Text("y".to_string()), Item::Other]),
            },
            Entry {
                key: "c".to_string(),
                value: Item::Table(vec![Entry { key: "d".to_string(), value: Item::Other }]),
            },
        ])
    );
    assert!(read_document("a = ").is_err());
}

fn text(key: &str, value: &str) -> Entry {
    Entry { key: key.to_string(), value: Item::Text(value.to_string()) }
}

fn list(key: &str, values: &[&str]) -> Entry {
    Entry {
        key: key.to_string(),
        value: Item::List(values.iter().map(|v| Item::Text(v.to_string())).collect()),
    }
}

#[test]
fn resolve_works_on_a_document_written_by_hand() {
    let document = Item::Table(vec![
        text("path", "p"),
        Entry {
            key: "environments".to_string(),
            value: Item::Table(vec![
                text("registry", "R"),
                Entry {
                    key: "one".to_string(),
                    value: Item::Table(vec![
                        list("hosts", &["h1"]),
                        text("registry_auth_config", "a"),
                        text("registry_export_auth_config", "e"),
                        list("docker_compose_overrides", &[]),
                        text("export_path", "x"),
                    ]),
                },
                text("export_path", "late"),
            ]),
        },
    ]);
    let config = resolve(&document).unwrap();
    assert_eq!(config.path, "p");
    assert_eq!(config.docker_compose_file, "docker-compose.yaml");
    assert_eq!(
        config.environments,
        vec![Scope {
            hosts: vec!["h1".to_string()],
            export_path: "x".to_string(),
            registry: "R".to_string(),
            registry_auth_config: "a".to_string(),
            registry_export_auth_config: "e".to_string(),
            docker_compose_overrides: vec![],
            ssh_private_key: None,
        }]
    );
}

#[test]
fn resolve_refuses_a_root_that_is_no_table() {
    let error = resolve(&Item::Other).unwrap_err();
    assert!(matches!(error, ConfigError::Malformed { .. }));
}

#[test]
fn duplicate_copies_a_value() {
    let value = Item::Table(vec![list("k", &["a", "b"]), text("t", "v")]);
    assert_eq!(value.duplicate(), value);
}

#[test]
fn field_lookups_follow_the_precedence() {
    let current = vec![text("registry", "own"), list("hosts", &["h"])];
    let base = vec![text("registry", "base"), text("export_path", "bx")];
    assert_eq!(get_string_value(&current, &base, "registry", true), Ok(Some("own".to_string())));
    assert_eq!(get_string_value(&current, &base, "export_path", true), Ok(Some("bx".to_string())));
    assert_eq!(get_string_value(&current, &base, "ssh_private_key", false), Ok(None));
    assert_eq!(
        get_string_value(&current, &base, "ssh_private_key", true),
        Err(ConfigError::MissingKey { key: "ssh_private_key".to_string() })
    );
    assert_eq!(
        get_string_value(&current, &base, "hosts", true),
        Err(ConfigError::WrongType { key: "hosts".to_string() })
    );
    assert_eq!(
        get_string_array_value(&current, &base, "hosts", true),
        Ok(Some(vec!["h".to_string()]))
    );
    assert_eq!(get_string_array_value(&current, &base, "none", false), Ok(None));
    assert_eq!(
        get_string_array_value(&current, &base, "registry", true),
        Err(ConfigError::WrongType { key: "registry".to_string() })
    );
    assert!(make_parsing_scope(&current, &base).is_err());
}
