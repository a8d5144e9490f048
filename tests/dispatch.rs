use wasm_watchdog::{
    body_channel_capacity, cgi_env_name, inject_environment, code_label, function_failure_reply, health_reply, method_label, method_not_allowed_reply,
    options_reply, route, scale_reader_reply, scale_update_reply, scale_update_request,
    HealthState, RequestMetrics, Route, ScaleError, ThreadPool, WasmSettings, WatchdogConfig,
};
use std::collections::HashMap;

fn settings(min: &str, max: &str) -> WasmSettings {
    let mut env = HashMap::new();
    env.insert("fprocess".to_string(), "echo.wasm".to_string());
    env.insert("min_scale".to_string(), min.to_string());
    env.insert("max_scale".to_string(), max.to_string());
    WasmSettings::from_config(&WatchdogConfig::new(&env).unwrap()).unwrap()
}

#[test]
fn health_before_and_after_mark_healthy() {
    let mut state = HealthState::new();
    assert_eq!(route("GET", "/_/health"), Route::Health);
    let reply = health_reply(state.check_healthy());
    assert_eq!(reply.status, 503);

    state.mark_healthy(false, true).unwrap();
    let reply = health_reply(state.check_healthy());
    assert_eq!(reply.status, 200);
    assert_eq!(reply.body, "OK");
    assert!(state.lock_file_present);
}

#[test]
fn health_other_method() {
    assert_eq!(route("POST", "/_/health"), Route::HealthNotAllowed);
    assert_eq!(method_not_allowed_reply().status, 405);
}

#[test]
fn scale_reader_reports_json() {
    assert_eq!(route("GET", "/scale-reader"), Route::ScaleReader);
    let reply = scale_reader_reply(1, 4095, 7);
    assert_eq!(reply.status, 200);
    assert_eq!(reply.body, "{\"replicas\":1,\"availableReplicas\":4095,\"invocationCount\":7}");
    assert_eq!(
        reply.headers,
        vec![("Content-Type".to_string(), "application/json; charset=utf-8".to_string())]
    );
}

#[test]
fn scale_updater_within_and_above_bounds() {
    assert_eq!(route("POST", "/scale-updater"), Route::ScaleUpdater);
    let n = scale_update_request(Ok("{\"replicas\": \n\t  12366666}".to_string())).ok().unwrap();
    assert_eq!(n, 12366666);

    let wide = settings("1", "20000000");
    let mut pool: ThreadPool<u32> = ThreadPool::new(1, None, None);
    let set = wide.set_scale(&mut pool, n as usize);
    assert_eq!(set, Ok(12366665));
    assert_eq!(scale_update_reply(set.map(|_| ()).map_err(|e| e.message())).status, 200);
    assert_eq!(wide.get_scale(&pool, 3), (12366666, 20000000 - 12366666, 3));

    let narrow = settings("1", "4096");
    let mut pool: ThreadPool<u32> = ThreadPool::new(1, None, None);
    let set = narrow.set_scale(&mut pool, n as usize);
    assert_eq!(set, Err(ScaleError::AboveMax(4096)));
    let reply = scale_update_reply(set.map(|_| ()).map_err(|e| e.message()));
    assert_eq!(reply.status, 500);
    assert_eq!(reply.body, "Replicas can not greater than 4096");
    assert_eq!(pool.thread_num(), 1);
}

#[test]
fn scale_updater_refuses_empty_object() {
    let reply = scale_update_request(Ok("{}".to_string())).err().unwrap();
    assert_eq!(reply.status, 400);
    assert!(reply.body.starts_with("Cannot parse request"));
    assert_eq!(reply.body, "Cannot parse request. Please pass valid JSON. Error=Cannot find key \"replicas\"");
}

#[test]
fn options_allows_everything() {
    assert_eq!(route("OPTIONS", "/anything"), Route::Options);
    assert_eq!(route("OPTIONS", "/_/health"), Route::Options);
    let reply = options_reply();
    assert_eq!(reply.status, 200);
    assert_eq!(
        reply.headers,
        vec![
            ("Access-Control-Allow-Headers".to_string(), "*".to_string()),
            ("Access-Control-Allow-Origin".to_string(), "*".to_string()),
        ]
    );
}

#[test]
fn scale_below_minimum_keeps_pool() {
    let s = settings("1", "4096");
    let mut pool: ThreadPool<u32> = ThreadPool::new(1, None, None);
    let e = s.set_scale(&mut pool, 0).unwrap_err();
    assert_eq!(e, ScaleError::BelowMin(1));
    assert_eq!(e.message(), "Replicas can not less then 1");
    assert_eq!(pool.thread_num(), 1);
    assert_eq!(s.get_scale(&pool, 0), (1, 4095, 0));
}

#[test]
fn other_paths_go_to_the_function() {
    assert_eq!(route("POST", "/"), Route::Function);
    assert_eq!(route("GET", "/_/healthz"), Route::Function);
    let reply = function_failure_reply("trap".to_string());
    assert_eq!(reply.status, 500);
    assert_eq!(reply.body, "trap");
}

#[test]
fn metric_labels() {
    assert_eq!(method_label("GET"), "get");
    assert_eq!(method_label("DELETE"), "delete");
    assert_eq!(method_label("BREW"), "options");
    assert_eq!(code_label(true), "200");
    assert_eq!(code_label(false), "500");
}

#[test]
fn wasm_settings_defaults() {
    let mut env = HashMap::new();
    env.insert("fprocess".to_string(), "m.wasm x y".to_string());
    env.insert("log_buffer_size".to_string(), "-3".to_string());
    let s = WasmSettings::from_config(&WatchdogConfig::new(&env).unwrap()).unwrap();
    assert_eq!(s.func_process, vec!["m.wasm", "x", "y"]);
    assert_eq!(s.wasm_root, "/");
    assert_eq!(s.min_scale, 1);
    assert_eq!(s.max_scale, 4096);
    assert_eq!(s.log_buffer_size, 0);
    assert_eq!(s.content_type, "application/octet-stream");
    assert!(!s.use_cuda);
}

#[test]
fn health_marks_are_idempotent() {
    let mut state = HealthState::new();
    assert!(state.mark_healthy(false, true).is_ok());
    assert!(state.mark_healthy(false, true).is_ok());
    assert!(state.accepting_connections && state.lock_file_present);
    let present = state.lock_file_present;
    assert!(state.mark_unhealthy(present).is_ok());
    let present = state.lock_file_present;
    assert!(state.mark_unhealthy(present).is_err());
    assert!(!state.check_healthy());
}

#[test]
fn health_suppressed_lock_and_write_failure() {
    let mut state = HealthState::new();
    assert!(state.mark_healthy(true, false).is_ok());
    assert!(state.check_healthy() && !state.lock_file_present);
    let mut state = HealthState::new();
    assert!(state.mark_healthy(false, false).is_err());
    assert!(state.accepting_connections);
}

#[test]
fn cgi_environment_from_headers() {
    assert_eq!(cgi_env_name("x-request-id"), "Http_x_request_id");
    let headers = vec![
        ("content-type".to_string(), "text/plain".to_string()),
        ("x-a".to_string(), "1".to_string()),
    ];
    let env = inject_environment(&headers, "/f", "POST", &Some("a=1".to_string()));
    let expect: Vec<(String, String)> = vec![
        ("Http_content_type", "text/plain"),
        ("Http_x_a", "1"),
        ("Http_Path", "/f"),
        ("Http_Method", "POST"),
        ("Http_Query", "a=1"),
    ]
    .into_iter()
    .map(|(k, v)| (k.to_string(), v.to_string()))
    .collect();
    assert_eq!(env, expect);
    let env = inject_environment(&Vec::new(), "/", "GET", &None);
    assert_eq!(env.len(), 2);
}

#[test]
fn body_channel_sizes() {
    assert_eq!(body_channel_capacity(0), 1);
    assert_eq!(body_channel_capacity(1024), 1);
    assert_eq!(body_channel_capacity(4096), 4);
    assert_eq!(body_channel_capacity(32768), 32);
    assert_eq!(body_channel_capacity(32769), 64);
}

#[test]
fn request_counts_follow_requests() {
    let mut m = RequestMetrics::new();
    assert_eq!(m.begin(), 1);
    assert_eq!(m.begin(), 2);
    assert_eq!(m.complete("200", "get"), 1);
    assert_eq!(m.in_flight_count(), 1);
    assert_eq!(m.begin(), 2);
    assert_eq!(m.complete("500", "get"), 1);
    assert_eq!(m.complete("200", "get"), 2);
    assert_eq!(m.in_flight_count(), 0);
    assert!(!m.can_complete());
}

#[test]
fn scale_updater_refuses_oversized_count() {
    let reply = scale_update_request(Ok("{\"replicas\":99999999999999999999999}".to_string())).err().unwrap();
    assert_eq!(reply.status, 400);
    assert!(reply.body.starts_with("Cannot parse request"));
}
