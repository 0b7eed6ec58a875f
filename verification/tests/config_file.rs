use nc_cli::config::{parse_config_toml, Config, ConfigError};

#[test]
fn test_parse_config_toml_valid() {
    let toml_data = r#"
            host = "happy.com:22"
            ssh_user = "ubuntu"
            identity_file = "/home/ubuntu/.ssh/id_rsa"
            occ_path = "/var/www/nc/occ"
            php_path = "/usr/bin/php8.3"
        "#;

    let config = parse_config_toml(toml_data).unwrap();
    assert_eq!(config.host, Some("happy.com:22".to_string()));
    assert_eq!(config.ssh_user, Some("ubuntu".to_string()));
    assert_eq!(
        config.identity_file,
        Some("/home/ubuntu/.ssh/id_rsa".to_string())
    );
    assert_eq!(config.occ_path, Some("/var/www/nc/occ".to_string()));
    assert_eq!(config.php_path, Some("/usr/bin/php8.3".to_string()));
}

#[test]
fn test_parse_config_toml_partial() {
    let toml_data = r#"
            host = "happy.com:22"
            ssh_user = "ubuntu"
        "#;

    let config = parse_config_toml(toml_data).unwrap();
    assert_eq!(config.host, Some("happy.com:22".to_string()));
    assert_eq!(config.ssh_user, Some("ubuntu".to_string()));
    assert_eq!(config.identity_file, None);
    assert_eq!(config.occ_path, None);
    assert_eq!(config.php_path, None);
}

#[test]
fn empty_document_sets_nothing() {
    assert_eq!(parse_config_toml("").unwrap(), Config::default());
}

#[test]
fn unknown_keys_are_ignored() {
    let config = parse_config_toml("colour = 3\nphp_path = \"/bin/php\"\n[extra]\nx = 1\n").unwrap();
    assert_eq!(config.php_path, Some("/bin/php".to_string()));
    assert_eq!(config.host, None);
}

#[test]
fn setting_that_is_not_a_string_is_refused() {
    match parse_config_toml("host = \"a:1\"\nssh_user = 42\n") {
        Err(ConfigError::NotText { key }) => assert_eq!(key, "ssh_user"),
        other => panic!("unexpected {:?}", other),
    }
}

#[test]
fn invalid_toml_is_a_syntax_error() {
    assert!(matches!(parse_config_toml("host = "), Err(ConfigError::Syntax(_))));
}

#[test]
fn host_and_port_of_configuration() {
    let config = parse_config_toml("host = \"nc.example.org:2222\"").unwrap();
    assert_eq!(config.get_host_and_port(), ("nc.example.org".to_string(), Some(2222)));
    assert_eq!(Config::default().get_host_and_port(), (String::new(), None));
}

#[test]
fn each_setting_is_the_documents_value() {
    let config = parse_config_toml("php_path = \"/a\"\n[server]\nhost = \"ignored:1\"\n").unwrap();
    assert_eq!(config.php_path, Some("/a".to_string()));
    assert_eq!(config.host, None);
    assert!(matches!(parse_config_toml("host = \"a\"\nhost = \"b\"\n"), Err(ConfigError::Syntax(_))));
}
