//! Request dispatch, configuration, stdio bridging and worker-pool bookkeeping
//! for a function-invocation watchdog.

mod command;
mod config;
mod dispatch;
mod health;
mod metrics;
mod mode;
mod parse;
mod provider_types;
mod runner;
mod stdio;
mod text;
mod thread_pool;
mod version;

pub use command::{parse_command, CommandError};
pub use config::{
    parse_bool_var, parse_i32_var, parse_u16_var, parse_u64_var, parse_usize_var, parse_var,
    ConfigError, WatchdogConfig, DEFAULT_BUFFER_HTTP, DEFAULT_CONTENT_TYPE,
    DEFAULT_EXEC_TIMEOUT_SEC, DEFAULT_LOG_BUFFER_SIZE, DEFAULT_MAX_INFLIGHT, DEFAULT_MODE,
    DEFAULT_PORT, DEFAULT_PREFIX_LOGS, DEFAULT_READ_TIMEOUT_SEC, DEFAULT_STATIC_PATH,
    DEFAULT_SUPPRESS_LOCK, DEFAULT_WRITE_TIMEOUT_SEC, INJECT_CGI_HEADERS, KEY_FUNC_NAME_1,
    KEY_FUNC_NAME_2, KEY_MODE, KEY_WASM_C_CPU_FEATURES, KEY_WASM_C_TARGET_TRIPLE,
    KEY_WRITE_TIMEOUT, METRICS_PORT,
};
pub use dispatch::{
    code_label, function_failure_reply, health_reply, method_label, method_not_allowed_reply,
    options_reply, route, scale_reader_reply, scale_update_reply, scale_update_request, Reply,
    Route,
};
pub use health::{HealthError, HealthState};
pub use metrics::RequestMetrics;
pub use mode::WatchdogMode;
pub use parse::{parse_bool, parse_i32, parse_unsigned};
pub use provider_types::{
    ReplicaFuncStatus, ScaleParseError, ScaleServiceRequest, AVAILABLE_REPLICAS_KEY,
    ENV_VARS_KEY, INVOCATION_COUNT_KEY, NAMESPACE_KEY, NAME_KEY, REPLICAS_COUNT_KEY,
};
pub use runner::{
    body_channel_capacity, cgi_env_name, inject_environment, ScaleError, WasmSettings,
};
pub use stdio::{append_text, text_of, Stderr, Stdin, StdioError, Stdout};
pub use text::{decimal_string, str_eq};
pub use thread_pool::{Sentinel, ThreadPool};
pub use version::get_version;
