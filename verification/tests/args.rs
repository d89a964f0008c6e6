use tiny_health_checker::args::{normalize_path, parse_flag, USAGE};
use tiny_health_checker::{Config, ConfigError, Env, Preconfig, Scheme};

fn env_of(pairs: &[(&str, &str)]) -> Env {
    let mut env = Env::new();
    for (name, value) in pairs {
        env.set(name, value);
    }
    env
}

fn url_of(pairs: &[(&str, &str)]) -> String {
    Config::new(&[], &env_of(pairs)).unwrap().url()
}

fn error_of(pairs: &[(&str, &str)]) -> ConfigError {
    Config::new(&[], &env_of(pairs)).unwrap_err()
}

#[test]
fn it_parses_default_url() {
    let mut env = Env::new();
    env.unset("THC_PORT");
    env.unset("THC_PATH");
    assert_eq!(Config::new(&[], &env).unwrap().url(), "http://localhost:8080/");
}

#[test]
fn it_parses_preconfig_port() {
    let mut env = Env::new();
    env.set("THC_PORT_NAME", "PORT");
    let preconfig = Preconfig::new(&env);
    assert_eq!(preconfig.port(), "PORT");
}

#[test]
fn it_parses_port_with_default_path() {
    let mut env = Env::new();
    env.set("THC_PORT", "8081");
    env.unset("THC_PATH");
    assert_eq!(Config::new(&[], &env).unwrap().url(), "http://localhost:8081/");
}

#[test]
fn it_parses_port_and_path() {
    let mut env = Env::new();
    env.set("THC_PORT", "8081");
    env.set("THC_PATH", "/foo");
    assert_eq!(Config::new(&[], &env).unwrap().url(), "http://localhost:8081/foo");
}

#[test]
fn it_parses_port_and_path_with_no_leading_slash() {
    let mut env = Env::new();
    env.set("THC_PORT", "8081");
    env.set("THC_PATH", "foo");
    assert_eq!(Config::new(&[], &env).unwrap().url(), "http://localhost:8081/foo");
}

#[test]
fn it_parses_loopback_adress_override() {
    let mut env = Env::new();
    env.set("THC_USE_LOOPBACK_ADDRESS", "true");
    assert_eq!(Config::new(&[], &env).unwrap().url(), "http://127.0.0.1:8080/");
}

#[test]
fn a_variable_that_was_unset_gives_its_default() {
    let mut env = env_of(&[("THC_PORT", "junk"), ("THC_PATH", "/foo"), ("THC_SCHEME", "https")]);
    env.unset("THC_PORT");
    env.unset("THC_SCHEME");
    assert_eq!(Config::new(&[], &env).unwrap().url(), "http://localhost:8080/foo");
}

#[test]
fn preconfig_falls_back_to_the_canonical_variable() {
    assert_eq!(Preconfig::new(&Env::new()).port(), "THC_PORT");
}

#[test]
fn defaults_apply_when_nothing_is_set() {
    let config = Config::new(&[], &Env::new()).unwrap();
    assert_eq!(config.connect_timeout(), 10);
    assert_eq!(config.request_timeout(), 15);
    assert_eq!(config.url(), "http://localhost:8080/");
}

#[test]
fn the_program_name_alone_is_no_argument() {
    let args = vec![String::from("thc")];
    let config = Config::new(&args, &Env::new()).unwrap();
    assert_eq!(config.url(), "http://localhost:8080/");
}

#[test]
fn any_argument_asks_for_usage() {
    let args = vec![String::from("thc"), String::from("-h")];
    let error = Config::new(&args, &Env::new()).unwrap_err();
    assert_eq!(error, ConfigError::UnexpectedArguments);
    assert_eq!(error.exit_code(), 0);
    assert_eq!(error.message(), None);
    assert_eq!(error.variable(), None);
}

#[test]
fn arguments_are_refused_before_any_variable_is_read() {
    let args = vec![String::from("thc"), String::from("8081"), String::from("/foo")];
    let env = env_of(&[("THC_PORT", "not a port")]);
    assert_eq!(Config::new(&args, &env).unwrap_err(), ConfigError::UnexpectedArguments);
}

#[test]
fn indirection_reads_the_port_from_the_named_variable() {
    let pairs = [("THC_PORT_NAME", "PORT"), ("PORT", "9000"), ("THC_PORT", "8081")];
    assert_eq!(url_of(&pairs), "http://localhost:9000/");
}

#[test]
fn indirection_to_an_unset_variable_gives_the_default_port() {
    let pairs = [("THC_PORT_NAME", "PORT"), ("THC_PORT", "8081")];
    assert_eq!(url_of(&pairs), "http://localhost:8080/");
}

#[test]
fn indirection_ignores_a_bad_canonical_port() {
    let pairs = [("THC_PORT_NAME", "PORT"), ("PORT", "9000"), ("THC_PORT", "junk")];
    assert_eq!(url_of(&pairs), "http://localhost:9000/");
}

#[test]
fn invalid_port_names_its_variable() {
    let error = error_of(&[("THC_PORT", "abc")]);
    assert_eq!(error, ConfigError::InvalidPort(String::from("THC_PORT")));
    assert_eq!(error.variable(), Some(String::from("THC_PORT")));
    assert_eq!(error.message(), Some(String::from("invalid port in THC_PORT")));
    assert_eq!(error.exit_code(), 101);
}

#[test]
fn invalid_port_behind_indirection_names_the_named_variable() {
    let error = error_of(&[("THC_PORT_NAME", "PORT"), ("PORT", "80x")]);
    assert_eq!(error, ConfigError::InvalidPort(String::from("PORT")));
    assert_eq!(error.message(), Some(String::from("invalid port in PORT")));
}

#[test]
fn port_bounds() {
    assert_eq!(url_of(&[("THC_PORT", "0")]), "http://localhost:0/");
    assert_eq!(url_of(&[("THC_PORT", "65535")]), "http://localhost:65535/");
    assert_eq!(
        error_of(&[("THC_PORT", "65536")]),
        ConfigError::InvalidPort(String::from("THC_PORT"))
    );
    assert_eq!(
        error_of(&[("THC_PORT", "99999999999999999999999999")]),
        ConfigError::InvalidPort(String::from("THC_PORT"))
    );
}

#[test]
fn port_notation() {
    assert_eq!(url_of(&[("THC_PORT", "+8081")]), "http://localhost:8081/");
    assert_eq!(url_of(&[("THC_PORT", "0008081")]), "http://localhost:8081/");
    for bad in ["", "+", "-1", " 8081", "8081 ", "8_081", "0x50", "80.0", "++80", "８０"] {
        assert_eq!(
            error_of(&[("THC_PORT", bad)]),
            ConfigError::InvalidPort(String::from("THC_PORT")),
            "THC_PORT={bad:?}"
        );
    }
}

#[test]
fn timeouts_are_read_in_seconds() {
    let env = env_of(&[("THC_CONN_TIMEOUT", "3"), ("THC_REQ_TIMEOUT", "7")]);
    let config = Config::new(&[], &env).unwrap();
    assert_eq!(config.connect_timeout(), 3);
    assert_eq!(config.request_timeout(), 7);
}

#[test]
fn connect_timeout_may_exceed_request_timeout() {
    let env = env_of(&[("THC_CONN_TIMEOUT", "30"), ("THC_REQ_TIMEOUT", "5")]);
    let config = Config::new(&[], &env).unwrap();
    assert_eq!(config.connect_timeout(), 30);
    assert_eq!(config.request_timeout(), 5);
}

#[test]
fn timeout_bounds() {
    let env = env_of(&[("THC_CONN_TIMEOUT", "0"), ("THC_REQ_TIMEOUT", "18446744073709551615")]);
    let config = Config::new(&[], &env).unwrap();
    assert_eq!(config.connect_timeout(), 0);
    assert_eq!(config.request_timeout(), u64::MAX);
    assert_eq!(
        error_of(&[("THC_REQ_TIMEOUT", "18446744073709551616")]),
        ConfigError::InvalidRequestTimeout
    );
    assert_eq!(
        error_of(&[("THC_CONN_TIMEOUT", "18446744073709551616")]),
        ConfigError::InvalidConnectTimeout
    );
}

#[test]
fn invalid_timeouts_are_errors() {
    let error = error_of(&[("THC_CONN_TIMEOUT", "soon")]);
    assert_eq!(error, ConfigError::InvalidConnectTimeout);
    assert_eq!(error.variable(), Some(String::from("THC_CONN_TIMEOUT")));
    assert_eq!(
        error.message(),
        Some(String::from("invalid connection timeout in THC_CONN_TIMEOUT"))
    );
    assert_eq!(error.exit_code(), 101);

    let error = error_of(&[("THC_REQ_TIMEOUT", "-5")]);
    assert_eq!(error, ConfigError::InvalidRequestTimeout);
    assert_eq!(error.variable(), Some(String::from("THC_REQ_TIMEOUT")));
    assert_eq!(
        error.message(),
        Some(String::from("invalid request timeout in THC_REQ_TIMEOUT"))
    );
    assert_eq!(error.exit_code(), 101);
}

#[test]
fn scheme_is_http_or_https() {
    assert_eq!(url_of(&[("THC_SCHEME", "http")]), "http://localhost:8080/");
    assert_eq!(url_of(&[("THC_SCHEME", "https")]), "https://localhost:8080/");
    assert_eq!(Scheme::parse("http"), Some(Scheme::Http));
    assert_eq!(Scheme::parse("https"), Some(Scheme::Https));
    assert_eq!(Scheme::Http.as_str(), "http");
    assert_eq!(Scheme::Https.as_str(), "https");
}

#[test]
fn invalid_scheme_is_an_error() {
    for bad in ["", "HTTP", "Https", "ftp", "http ", "https://"] {
        let error = error_of(&[("THC_SCHEME", bad)]);
        assert_eq!(error, ConfigError::InvalidScheme, "THC_SCHEME={bad:?}");
        assert_eq!(error.variable(), Some(String::from("THC_SCHEME")));
        assert_eq!(
            error.message(),
            Some(String::from("THC_SCHEME must be 'http' or 'https' if specified"))
        );
        assert_eq!(error.exit_code(), 101);
    }
}

#[test]
fn loopback_flag_false_selects_the_named_host() {
    assert_eq!(url_of(&[("THC_USE_LOOPBACK_ADDRESS", "false")]), "http://localhost:8080/");
}

#[test]
fn invalid_loopback_flag_is_an_error() {
    for bad in ["", "TRUE", "True", "1", "yes", " true", "false "] {
        let error = error_of(&[("THC_USE_LOOPBACK_ADDRESS", bad)]);
        assert_eq!(error, ConfigError::InvalidLoopbackFlag, "flag={bad:?}");
        assert_eq!(error.variable(), Some(String::from("THC_USE_LOOPBACK_ADDRESS")));
        assert_eq!(
            error.message(),
            Some(String::from(
                "THC_USE_LOOPBACK_ADDRESS must be 'true' or 'false' if specified"
            ))
        );
        assert_eq!(error.exit_code(), 101);
    }
}

#[test]
fn flag_notation() {
    assert_eq!(parse_flag("true"), Some(true));
    assert_eq!(parse_flag("false"), Some(false));
    assert_eq!(parse_flag("t"), None);
}

#[test]
fn the_first_bad_variable_is_reported() {
    let all_bad = [
        ("THC_PORT", "x"),
        ("THC_CONN_TIMEOUT", "x"),
        ("THC_REQ_TIMEOUT", "x"),
        ("THC_SCHEME", "x"),
        ("THC_USE_LOOPBACK_ADDRESS", "x"),
    ];
    assert_eq!(error_of(&all_bad), ConfigError::InvalidPort(String::from("THC_PORT")));
    assert_eq!(error_of(&all_bad[1..]), ConfigError::InvalidConnectTimeout);
    assert_eq!(error_of(&all_bad[2..]), ConfigError::InvalidRequestTimeout);
    assert_eq!(error_of(&all_bad[3..]), ConfigError::InvalidScheme);
    assert_eq!(error_of(&all_bad[4..]), ConfigError::InvalidLoopbackFlag);
}

#[test]
fn path_gets_a_leading_slash() {
    assert_eq!(normalize_path(""), "/");
    assert_eq!(normalize_path("/"), "/");
    assert_eq!(normalize_path("foo"), "/foo");
    assert_eq!(normalize_path("/foo"), "/foo");
    assert_eq!(normalize_path("foo/bar/"), "/foo/bar/");
    assert_eq!(normalize_path("//foo"), "//foo");
    assert_eq!(normalize_path("é"), "/é");
}

#[test]
fn path_normalization_is_idempotent() {
    for path in ["", "/", "foo", "/foo", "a/b", "?q=1", "//"] {
        let once = normalize_path(path);
        assert_eq!(normalize_path(&once), once);
    }
}

#[test]
fn empty_path_variable_gives_the_root() {
    assert_eq!(url_of(&[("THC_PATH", "")]), "http://localhost:8080/");
}

#[test]
fn url_puts_all_parts_together() {
    let pairs = [
        ("THC_SCHEME", "https"),
        ("THC_USE_LOOPBACK_ADDRESS", "true"),
        ("THC_PORT", "443"),
        ("THC_PATH", "healthz?deep=1"),
    ];
    assert_eq!(url_of(&pairs), "https://127.0.0.1:443/healthz?deep=1");
}

#[test]
fn url_is_the_same_every_time() {
    let config = Config::new(&[], &env_of(&[("THC_PORT", "8081"), ("THC_PATH", "x")])).unwrap();
    let again = Config::new(&[], &env_of(&[("THC_PATH", "x"), ("THC_PORT", "8081")])).unwrap();
    assert_eq!(config.url(), config.url());
    assert_eq!(config.url(), again.url());
    assert_eq!(config, again);
}

#[test]
fn different_parts_give_different_urls() {
    let base = url_of(&[("THC_PORT", "80"), ("THC_PATH", "/80")]);
    assert_ne!(base, url_of(&[("THC_PORT", "808"), ("THC_PATH", "/0")]));
    assert_ne!(base, url_of(&[("THC_PORT", "80"), ("THC_PATH", "/80"), ("THC_SCHEME", "https")]));
    assert_ne!(
        base,
        url_of(&[("THC_PORT", "80"), ("THC_PATH", "/80"), ("THC_USE_LOOPBACK_ADDRESS", "true")])
    );
}

#[test]
fn usage_names_every_variable() {
    let usage = Config::usage();
    assert_eq!(usage, USAGE);
    assert!(usage.starts_with("USAGE:\n\tthc\n\nPRE ENV:\n\n\tTHC_PORT_NAME "));
    for name in [
        "THC_PORT_NAME",
        "THC_PORT",
        "THC_PATH",
        "THC_CONN_TIMEOUT",
        "THC_REQ_TIMEOUT",
        "THC_SCHEME",
        "THC_USE_LOOPBACK_ADDRESS",
    ] {
        assert!(usage.contains(&format!("\t{name} ")), "{name}");
    }
    assert!(usage.ends_with("(or 127.0.0.1)\n\n"));
}
