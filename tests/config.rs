use std::collections::HashMap;

use wasm_watchdog::{
    get_version,
    parse_bool_var, parse_i32_var, parse_u16_var, parse_usize_var, parse_var, ConfigError,
    WatchdogConfig, WatchdogMode, DEFAULT_BUFFER_HTTP, DEFAULT_CONTENT_TYPE,
    DEFAULT_EXEC_TIMEOUT_SEC, DEFAULT_LOG_BUFFER_SIZE, DEFAULT_MAX_INFLIGHT, DEFAULT_MODE,
    DEFAULT_PORT, DEFAULT_PREFIX_LOGS, DEFAULT_READ_TIMEOUT_SEC, DEFAULT_STATIC_PATH,
    DEFAULT_SUPPRESS_LOCK, DEFAULT_WRITE_TIMEOUT_SEC, INJECT_CGI_HEADERS, KEY_FUNC_NAME_1,
    KEY_FUNC_NAME_2, KEY_MODE, KEY_WRITE_TIMEOUT, METRICS_PORT,
};

fn vars(pairs: &[(&str, &str)]) -> HashMap<String, String> {
    let mut env = HashMap::new();
    for (k, v) in pairs {
        env.insert(k.to_string(), v.to_string());
    }
    env
}

#[test]
fn watchdog_config_test_default() {
    let keys = vec![KEY_FUNC_NAME_1, KEY_FUNC_NAME_2];

    for key in keys.iter() {
        let mut env = HashMap::new();
        let f_process = "process".to_string();
        env.insert(key.to_string(), f_process.clone());

        let cfg = WatchdogConfig::new(&env).expect("create default watchdog config error");

        assert_eq!(cfg._tcp_port, DEFAULT_PORT);
        assert_eq!(cfg._http_read_timeout, DEFAULT_READ_TIMEOUT_SEC);
        assert_eq!(cfg._http_write_timeout, DEFAULT_WRITE_TIMEOUT_SEC);
        assert_eq!(cfg._exec_timeout, DEFAULT_EXEC_TIMEOUT_SEC);
        assert_eq!(cfg._health_check_interval, DEFAULT_WRITE_TIMEOUT_SEC);
        assert_eq!(cfg._function_process, f_process);
        assert_eq!(cfg._content_type, DEFAULT_CONTENT_TYPE);
        assert_eq!(cfg._inject_cgi_headers, INJECT_CGI_HEADERS);
        assert_eq!(cfg._operational_mode, DEFAULT_MODE);
        assert_eq!(cfg._suppress_lock, DEFAULT_SUPPRESS_LOCK);
        assert_eq!(cfg._upstream_url, None);
        assert_eq!(cfg._static_path, DEFAULT_STATIC_PATH);
        assert_eq!(cfg._buffer_http_body, DEFAULT_BUFFER_HTTP);
        assert_eq!(cfg._metrics_port, METRICS_PORT);
        assert_eq!(cfg._max_inflight, DEFAULT_MAX_INFLIGHT);
        assert_eq!(cfg._prefix_logs, DEFAULT_PREFIX_LOGS);
        assert_eq!(cfg._log_buffer_size, DEFAULT_LOG_BUFFER_SIZE);
        assert_eq!(cfg._min_scale, None);
        assert_eq!(cfg._max_scale, None);
        assert_eq!(cfg._wasm_root, None);
        assert_eq!(cfg._use_cuda, None);
        assert_eq!(cfg._wasm_c_target_triple, None);
        assert_eq!(cfg._wasm_c_cpu_features, None);
    }
}

#[test]
fn test_empty_error() {
    let env = HashMap::new();
    let cfg = WatchdogConfig::new(&env);
    assert!(cfg.is_err());
}

#[test]
fn test_static_mode() {
    let mut env = HashMap::new();
    env.insert(KEY_MODE.to_string(), "static".to_string());
    let cfg = WatchdogConfig::new(&env).expect("create static mode watchdog config error");
    assert_eq!(cfg._function_process, String::default());
    assert_eq!(cfg._operational_mode, WatchdogMode::ModeStatic);
}

#[test]
fn test_write_timeout_error() {
    let mut env = HashMap::new();
    env.insert(KEY_WRITE_TIMEOUT.to_string(), "0".to_string());
    let cfg = WatchdogConfig::new(&env);
    assert!(cfg.is_err());
}

#[test]
fn config_reads_given_values() {
    let env = vars(&[
        ("fprocess", "echo.wasm -n"),
        ("port", "9000"),
        ("read_timeout", "+7"),
        ("write_timeout", "3"),
        ("exec_timeout", "oops"),
        ("mode", "http"),
        ("upstream_url", "http://127.0.0.1:3000"),
        ("max_inflight", "-5"),
        ("log_buffer_size", "2147483648"),
        ("prefix_logs", "false"),
        ("http_buffer_req_body", "true"),
        ("min_scale", "2"),
        ("max_scale", "8"),
        ("wasm_root", "/srv"),
        ("use_cuda", "TRUE"),
    ]);
    let cfg = WatchdogConfig::new(&env).unwrap();
    assert_eq!(cfg._tcp_port, 9000);
    assert_eq!(cfg._http_read_timeout, 7);
    assert_eq!(cfg._http_write_timeout, 3);
    assert_eq!(cfg._health_check_interval, 3);
    assert_eq!(cfg._exec_timeout, DEFAULT_EXEC_TIMEOUT_SEC);
    assert_eq!(cfg._operational_mode, WatchdogMode::ModeHTTP);
    assert_eq!(cfg._upstream_url, Some("http://127.0.0.1:3000".to_string()));
    assert_eq!(cfg._function_process, "echo.wasm -n");
    assert_eq!(cfg._max_inflight, -5);
    assert_eq!(cfg._log_buffer_size, DEFAULT_LOG_BUFFER_SIZE);
    assert!(!cfg._prefix_logs);
    assert!(cfg._buffer_http_body);
    assert_eq!(cfg._min_scale, Some(2));
    assert_eq!(cfg._max_scale, Some(8));
    assert_eq!(cfg._wasm_root, Some("/srv".to_string()));
    assert_eq!(cfg._use_cuda, None);
}

#[test]
fn config_errors_in_order() {
    let e = WatchdogConfig::new(&vars(&[("write_timeout", "0"), ("mode", "bogus")])).unwrap_err();
    assert!(matches!(e, ConfigError::WriteTimeoutZero));
    assert_eq!(e.message(), "HTTP write timeout must be over 0s.");

    let e = WatchdogConfig::new(&vars(&[("mode", "bogus")])).unwrap_err();
    assert_eq!(
        e.message(),
        "unknown watchdog mode: bogus \navailable mode is [streaming,afterburn,serializing,http,static,wasm,]"
    );
    let e = WatchdogConfig::new(&vars(&[("mode", "unknown"), ("fprocess", "f")])).unwrap_err();
    assert!(matches!(e, ConfigError::UnknownMode(_)));

    let e = WatchdogConfig::new(&vars(&[("mode", "wasm")])).unwrap_err();
    assert!(matches!(e, ConfigError::MissingFunctionProcess));

    let e = WatchdogConfig::new(&vars(&[("mode", "http"), ("fprocess", "f")])).unwrap_err();
    assert!(matches!(e, ConfigError::MissingUpstreamUrl));

    let e = WatchdogConfig::new(&vars(&[("mode", "static"), ("static_path", "")])).unwrap_err();
    assert!(matches!(e, ConfigError::MissingStaticPath));
}

#[test]
fn typed_vars_follow_from_str() {
    let env = vars(&[
        ("a", "65535"),
        ("b", "65536"),
        ("c", "-2147483648"),
        ("d", "-"),
        ("e", "true"),
        ("f", "18446744073709551615"),
        ("g", "1 "),
    ]);
    assert_eq!(parse_u16_var(&env, "a"), Some(65535));
    assert_eq!(parse_u16_var(&env, "b"), None);
    assert_eq!(parse_i32_var(&env, "c"), Some(i32::MIN));
    assert_eq!(parse_i32_var(&env, "d"), None);
    assert_eq!(parse_bool_var(&env, "e"), Some(true));
    assert_eq!(parse_usize_var(&env, "f"), Some(usize::MAX));
    assert_eq!(parse_usize_var(&env, "g"), None);
    assert_eq!(parse_var(&env, "zz"), None);
    assert_eq!(parse_var(&env, "e"), Some("true".to_string()));
}

#[test]
fn test_mode() {
    for s in ["unknown", "streaming", "afterburn", "serializing", "http", "static", "wasm"].iter() {
        let mode = WatchdogMode::from(s.to_string());
        assert_eq!(String::from(mode).as_str(), *s);
    }
}

#[test]
fn mode_from_index_and_name() {
    assert_eq!(WatchdogMode::from(6usize), WatchdogMode::ModeWasm);
    assert_eq!(WatchdogMode::from(7usize), WatchdogMode::ModeUnknown);
    assert_eq!(WatchdogMode::from("HTTP"), WatchdogMode::ModeUnknown);
    assert_eq!(WatchdogMode::ModeAfterBurn.name(), "afterburn");
}

#[test]
fn version_falls_back_to_unknown() {
    assert_eq!(get_version(Some("1.2.0"), None), ("1.2.0", "unknown"));
    assert_eq!(get_version(None, Some("abc")), ("unknown", "abc"));
}
