use appimage_pkg::config::{ConfigError, Configuration, ParseFailure, ReadFailure};
use appimage_pkg::environment::Environment;

fn env(vars: &[(&str, &str)], home: Option<&str>) -> Environment {
    Environment {
        vars: vars.iter().map(|(k, v)| (k.to_string(), v.to_string())).collect(),
        home: home.map(|h| h.to_string()),
    }
}

fn resolved(text: &str, e: &Environment) -> String {
    match Configuration::from_toml(text, e) {
        Ok(c) => c.install_dir,
        Err(err) => panic!("expected a configuration, got {:?}", err),
    }
}

#[test]
fn default_install_dir_under_data_dir() {
    let e = env(&[], Some("/home/u"));
    let c = Configuration::default(&e).unwrap_or_else(|_| panic!("expected a default"));
    assert_eq!(c.install_dir, "/home/u/.local/share/AppImages");
    let e = env(&[("XDG_DATA_HOME", "/data")], Some("/home/u"));
    let c = Configuration::default(&e).unwrap_or_else(|_| panic!("expected a default"));
    assert_eq!(c.install_dir, "/data/AppImages");
}

#[test]
fn default_needs_a_data_dir() {
    let e = env(&[], None);
    assert!(matches!(Configuration::default(&e), Err(ConfigError::ConfigDirNotFound)));
}

#[test]
fn default_renders_as_toml() {
    let c = Configuration { install_dir: "/home/u/.local/share/AppImages".to_string() };
    let text = c.to_toml().unwrap_or_else(|_| panic!("expected text"));
    assert_eq!(text, "install_dir = \"/home/u/.local/share/AppImages\"\n");
}

#[test]
fn default_round_trips_through_toml() {
    let e = env(&[], Some("/home/u"));
    let c = Configuration::default(&e).unwrap_or_else(|_| panic!("expected a default"));
    let text = c.to_toml().unwrap_or_else(|_| panic!("expected text"));
    assert_eq!(resolved(&text, &e), c.install_dir);
}

#[test]
fn odd_characters_round_trip_through_toml() {
    let e = env(&[], Some("/home/u"));
    let c = Configuration { install_dir: "/tmp/a \"quoted\" \\ dir/ü".to_string() };
    let text = c.to_toml().unwrap_or_else(|_| panic!("expected text"));
    assert_eq!(resolved(&text, &e), c.install_dir);
}

#[test]
fn first_run_resolves_to_data_dir_apps() {
    let e = env(&[("XDG_DATA_HOME", "/srv/data")], Some("/home/u"));
    let text = Configuration::default(&e)
        .and_then(|c| c.to_toml())
        .unwrap_or_else(|_| panic!("expected text"));
    assert_eq!(resolved(&text, &e), "/srv/data/AppImages");
    assert_eq!(resolved(&text, &e), resolved(&text, &e));
}

#[test]
fn tilde_expands_to_home() {
    let e = env(&[], Some("/home/u"));
    assert_eq!(resolved("install_dir = \"~/custom\"", &e), "/home/u/custom");
    assert_eq!(resolved("install_dir = \"~\"", &e), "/home/u");
}

#[test]
fn tilde_of_another_user_is_kept() {
    let e = env(&[], Some("/home/u"));
    assert_eq!(resolved("install_dir = \"~other/x\"", &e), "~other/x");
}

#[test]
fn tilde_without_home_is_kept() {
    let e = env(&[], None);
    assert_eq!(resolved("install_dir = \"~/custom\"", &e), "~/custom");
}

#[test]
fn variables_expand() {
    let e = env(&[("APPS", "/opt/apps")], Some("/home/u"));
    assert_eq!(resolved("install_dir = \"$APPS/x\"", &e), "/opt/apps/x");
    assert_eq!(resolved("install_dir = \"${APPS}/y\"", &e), "/opt/apps/y");
}

#[test]
fn unset_variable_is_a_read_error() {
    let e = env(&[], Some("/home/u"));
    match Configuration::from_toml("install_dir = \"$UNDEFINED_VAR/x\"", &e) {
        Err(ConfigError::ReadError(ReadFailure::Expansion(err))) => {
            assert_eq!(err.var_name, "UNDEFINED_VAR")
        }
        other => panic!("expected an expansion failure, got {:?}", other),
    }
}

#[test]
fn invalid_toml_is_a_parse_error() {
    let e = env(&[], Some("/home/u"));
    let r = Configuration::from_toml("install_dir = \"/unterminated", &e);
    assert!(matches!(r, Err(ConfigError::ParseError(ParseFailure::Syntax(_)))));
}

#[test]
fn missing_install_dir_is_a_parse_error() {
    let e = env(&[], Some("/home/u"));
    let r = Configuration::from_toml("other = \"x\"", &e);
    assert!(matches!(r, Err(ConfigError::ParseError(ParseFailure::MissingInstallDir))));
    let r = Configuration::from_toml("", &e);
    assert!(matches!(r, Err(ConfigError::ParseError(ParseFailure::MissingInstallDir))));
}

#[test]
fn non_string_install_dir_is_a_parse_error() {
    let e = env(&[], Some("/home/u"));
    let r = Configuration::from_toml("install_dir = 5", &e);
    assert!(matches!(r, Err(ConfigError::ParseError(ParseFailure::MissingInstallDir))));
}

#[test]
fn other_keys_are_ignored() {
    let e = env(&[], Some("/home/u"));
    assert_eq!(resolved("extra = 1\ninstall_dir = \"/x\"\n", &e), "/x");
}

#[test]
fn entry_resolution() {
    let e = env(&[("V", "val")], Some("/h"));
    let c = Configuration::from_entry(Some("/a/$V".to_string()), &e)
        .unwrap_or_else(|_| panic!("expected a configuration"));
    assert_eq!(c.install_dir, "/a/val");
    let r = Configuration::from_entry(None, &e);
    assert!(matches!(r, Err(ConfigError::ParseError(ParseFailure::MissingInstallDir))));
}

#[test]
fn concrete_path_is_unchanged() {
    let e = env(&[], Some("/home/u"));
    assert_eq!(resolved("install_dir = \"/already/concrete\"", &e), "/already/concrete");
}

#[test]
fn messages_name_the_failure() {
    let e = ConfigError::ConfigDirNotFound;
    assert_eq!(
        e.message(),
        "Could not determine config directory (tried XDG_CONFIG_HOME and ~/.config)"
    );
    let e = ConfigError::ParseError(ParseFailure::MissingInstallDir);
    assert_eq!(e.message(), "Failed to parse config file: missing string field `install_dir`");
    let env = env(&[], Some("/home/u"));
    match Configuration::from_toml("install_dir = \"$NOPE\"", &env) {
        Err(e) => assert_eq!(
            e.message(),
            "Failed to read config file: environment variable `NOPE` is not set"
        ),
        Ok(_) => panic!("expected an error"),
    }
    match Configuration::from_toml("install_dir = ", &env) {
        Err(e) => {
            let m = e.message();
            assert!(m.starts_with("Failed to parse config file: "));
            assert!(m.len() > "Failed to parse config file: ".len());
        }
        Ok(_) => panic!("expected an error"),
    }
}

#[test]
fn default_config_text_parses_back() {
    let e = env(&[("XDG_DATA_HOME", "/tmp/data")], Some("/home/u"));
    let text = Configuration::default_config_text(&e).unwrap_or_else(|_| panic!("expected text"));
    assert_eq!(text, "install_dir = \"/tmp/data/AppImages\"\n");
    assert_eq!(resolved(&text, &e), "/tmp/data/AppImages");
    let none = env(&[], None);
    assert!(matches!(
        Configuration::default_config_text(&none),
        Err(ConfigError::ConfigDirNotFound)
    ));
}

#[test]
fn multi_line_and_quoted_values_round_trip() {
    let e = env(&[], Some("/home/u"));
    for dir in ["/a\nb", "/a\nb'", "/a\nb''", "/x\"\"", "\n/lead", "/tab\there", "/cr\r\nx"] {
        let c = Configuration { install_dir: dir.to_string() };
        let text = c.to_toml().unwrap_or_else(|_| panic!("expected text"));
        assert_eq!(resolved(&text, &e), dir);
    }
}

#[test]
fn errors_convert_from_their_causes() {
    let io = std::io::Error::new(std::io::ErrorKind::NotFound, "gone");
    let e: ConfigError = io.into();
    assert!(matches!(e, ConfigError::ReadError(ReadFailure::Io(_))));
    assert!(e.message().starts_with("Failed to read config file: gone"));
    let de = "x = ".parse::<toml::Table>().unwrap_err();
    let e: ConfigError = de.into();
    assert!(matches!(e, ConfigError::ParseError(ParseFailure::Syntax(_))));
}
