use std::collections::HashMap;

use vstd::prelude::*;

use crate::mode::{mode_of_name, WatchdogMode};
use crate::parse::{bool_value, i32_value, parse_bool, parse_i32, parse_unsigned, unsigned_value};

verus! {

pub const KEY_PORT: &'static str = "port";
pub const DEFAULT_PORT: u16 = 8080;
pub const KEY_READ_TIMEOUT: &'static str = "read_timeout";
pub const DEFAULT_READ_TIMEOUT_SEC: u64 = 10;
pub const KEY_WRITE_TIMEOUT: &'static str = "write_timeout";
pub const DEFAULT_WRITE_TIMEOUT_SEC: u64 = 10;
pub const KEY_HEALTH_CHECK_INTERVAL: &'static str = "healthcheck_interval";
pub const KEY_EXEC_TIMEOUT: &'static str = "exec_timeout";
pub const DEFAULT_EXEC_TIMEOUT_SEC: u64 = 10;
pub const KEY_MODE: &'static str = "mode";
pub const DEFAULT_MODE: WatchdogMode = WatchdogMode::ModeWasm;
pub const KEY_FUNC_NAME_1: &'static str = "function_process";
pub const KEY_FUNC_NAME_2: &'static str = "fprocess";
pub const KEY_UPSTREAM_URL_1: &'static str = "http_upstream_url";
pub const KEY_UPSTREAM_URL_2: &'static str = "upstream_url";
pub const KEY_CONTENT_TYPE: &'static str = "content_type";
pub const DEFAULT_CONTENT_TYPE: &'static str = "application/octet-stream";
pub const KEY_STATIC_PATH: &'static str = "static_path";
pub const DEFAULT_STATIC_PATH: &'static str = "/home/app/public";
pub const KEY_SUPPRESS_LOCK: &'static str = "suppress_lock";
pub const DEFAULT_SUPPRESS_LOCK: bool = false;
pub const KEY_MAX_INFLIGHT: &'static str = "max_inflight";
pub const DEFAULT_MAX_INFLIGHT: i32 = 0;
pub const KEY_BUFFER_HTTP_1: &'static str = "buffer_http";
pub const KEY_BUFFER_HTTP_2: &'static str = "http_buffer_req_body";
pub const DEFAULT_BUFFER_HTTP: bool = false;
pub const KEY_PREFIX_LOGS: &'static str = "prefix_logs";
pub const DEFAULT_PREFIX_LOGS: bool = true;
pub const KEY_LOG_BUFFER_SIZE: &'static str = "log_buffer_size";
pub const DEFAULT_LOG_BUFFER_SIZE: i32 = 65536;
pub const KEY_MIN_SCALE: &'static str = "min_scale";
pub const KEY_MAX_SCALE: &'static str = "max_scale";
pub const KEY_WASM_ROOT: &'static str = "wasm_root";
pub const KEY_WASM_C_TARGET_TRIPLE: &'static str = "wasm_c_target";
pub const KEY_WASM_C_CPU_FEATURES: &'static str = "wasm_c_cpu_features";
pub const KEY_USE_CUDA: &'static str = "use_cuda";
pub const INJECT_CGI_HEADERS: bool = true;
pub const METRICS_PORT: u16 = 8081;

/// The watchdog's settings, read once at start-up.
/// Timeouts are whole seconds.
#[derive(Debug, Clone)]
pub struct WatchdogConfig {
    pub _tcp_port: u16,
    pub _http_read_timeout: u64,
    pub _http_write_timeout: u64,
    pub _exec_timeout: u64,
    pub _health_check_interval: u64,
    pub _function_process: String,
    pub _content_type: String,
    pub _inject_cgi_headers: bool,
    pub _operational_mode: WatchdogMode,
    pub _suppress_lock: bool,
    pub _upstream_url: Option<String>,
    pub _static_path: String,
    /// Whether the request body is read whole before it is handed on.
    pub _buffer_http_body: bool,
    pub _metrics_port: u16,
    /// Requests beyond this many at once are refused; 0 means no limit.
    pub _max_inflight: i32,
    /// Whether each line of the function's stderr is tagged with its worker.
    pub _prefix_logs: bool,
    /// The size at which buffered stderr is flushed to the log.
    pub _log_buffer_size: i32,
    pub _min_scale: Option<usize>,
    pub _max_scale: Option<usize>,
    /// The directory that the guest sees as `/`.
    pub _wasm_root: Option<String>,
    pub _wasm_c_target_triple: Option<String>,
    pub _wasm_c_cpu_features: Option<String>,
    pub _use_cuda: Option<bool>,
}

/// Why a configuration was refused.
#[derive(Debug, Clone)]
pub enum ConfigError {
    WriteTimeoutZero,
    UnknownMode(String),
    MissingFunctionProcess,
    MissingUpstreamUrl,
    MissingStaticPath,
}

pub const WRITE_TIMEOUT_TEXT: &'static str = "HTTP write timeout must be over 0s.";
pub const UNKNOWN_MODE_TEXT: &'static str = "unknown watchdog mode: ";
pub const AVAILABLE_MODES_TEXT: &'static str = " \navailable mode is [streaming,afterburn,serializing,http,static,wasm,]";
pub const MISSING_FUNCTION_TEXT: &'static str = "Please provide a \"function_process\" or \"fprocess\" environmental variable for your function.";
pub const MISSING_UPSTREAM_TEXT: &'static str = "For \"mode=http\" you must specify a valid URL for \"http_upstream_url\"";
pub const MISSING_STATIC_TEXT: &'static str = "For mode=static you must specify the \"static_path\" to serve";

pub open spec fn config_error_text(e: ConfigError) -> Seq<char> {
    match e {
        ConfigError::WriteTimeoutZero => WRITE_TIMEOUT_TEXT@,
        ConfigError::UnknownMode(m) => UNKNOWN_MODE_TEXT@ + m@ + AVAILABLE_MODES_TEXT@,
        ConfigError::MissingFunctionProcess => MISSING_FUNCTION_TEXT@,
        ConfigError::MissingUpstreamUrl => MISSING_UPSTREAM_TEXT@,
        ConfigError::MissingStaticPath => MISSING_STATIC_TEXT@,
    }
}

impl ConfigError {
    /// The text shown to the operator.
    pub fn message(&self) -> (r: String)
        ensures
            r@ == config_error_text(*self),
    {
        match self {
            ConfigError::WriteTimeoutZero => String::from_str(WRITE_TIMEOUT_TEXT),
            ConfigError::UnknownMode(m) => {
                let mut s = String::from_str(UNKNOWN_MODE_TEXT);
                s.append(m.as_str());
                s.append(AVAILABLE_MODES_TEXT);
                s
            },
            ConfigError::MissingFunctionProcess => String::from_str(MISSING_FUNCTION_TEXT),
            ConfigError::MissingUpstreamUrl => String::from_str(MISSING_UPSTREAM_TEXT),
            ConfigError::MissingStaticPath => String::from_str(MISSING_STATIC_TEXT),
        }
    }
}

pub open spec fn opt_view(o: Option<String>) -> Option<Seq<char>> {
    match o {
        Some(s) => Some(s@),
        None => None,
    }
}

pub open spec fn or_else<T>(o: Option<T>, d: T) -> T {
    match o {
        Some(v) => v,
        None => d,
    }
}

/// The text that `vars` holds under the key whose characters are `key`.
pub open spec fn var_of(vars: Map<String, String>, key: Seq<char>) -> Option<Seq<char>> {
    if exists|k: String| vars.contains_key(k) && k@ == key {
        Some(vars[choose|k: String| vars.contains_key(k) && k@ == key]@)
    } else {
        None
    }
}

pub open spec fn unsigned_var(vars: Map<String, String>, key: Seq<char>, max: nat) -> Option<nat> {
    match var_of(vars, key) {
        Some(s) => unsigned_value(s, max),
        None => None,
    }
}

pub open spec fn u16_var(vars: Map<String, String>, key: Seq<char>) -> Option<u16> {
    match unsigned_var(vars, key, 0xffff) {
        Some(v) => Some(v as u16),
        None => None,
    }
}

pub open spec fn u64_var(vars: Map<String, String>, key: Seq<char>) -> Option<u64> {
    match unsigned_var(vars, key, u64::MAX as nat) {
        Some(v) => Some(v as u64),
        None => None,
    }
}

pub open spec fn usize_var(vars: Map<String, String>, key: Seq<char>) -> Option<usize> {
    match unsigned_var(vars, key, usize::MAX as nat) {
        Some(v) => Some(v as usize),
        None => None,
    }
}

pub open spec fn i32_var(vars: Map<String, String>, key: Seq<char>) -> Option<i32> {
    match var_of(vars, key) {
        Some(s) => match i32_value(s) {
            Some(v) => Some(v as i32),
            None => None,
        },
        None => None,
    }
}

pub open spec fn bool_var(vars: Map<String, String>, key: Seq<char>) -> Option<bool> {
    match var_of(vars, key) {
        Some(s) => bool_value(s),
        None => None,
    }
}

pub open spec fn write_timeout_of(vars: Map<String, String>) -> u64 {
    or_else(u64_var(vars, KEY_WRITE_TIMEOUT@), DEFAULT_WRITE_TIMEOUT_SEC)
}

pub open spec fn mode_of(vars: Map<String, String>) -> WatchdogMode {
    match var_of(vars, KEY_MODE@) {
        Some(s) => mode_of_name(s),
        None => DEFAULT_MODE,
    }
}

pub open spec fn function_process_of(vars: Map<String, String>) -> Option<Seq<char>> {
    match var_of(vars, KEY_FUNC_NAME_1@) {
        Some(s) => Some(s),
        None => var_of(vars, KEY_FUNC_NAME_2@),
    }
}

pub open spec fn upstream_of(vars: Map<String, String>) -> Option<Seq<char>> {
    match var_of(vars, KEY_UPSTREAM_URL_1@) {
        Some(s) => Some(s),
        None => var_of(vars, KEY_UPSTREAM_URL_2@),
    }
}

pub open spec fn static_path_of(vars: Map<String, String>) -> Seq<char> {
    or_else(var_of(vars, KEY_STATIC_PATH@), DEFAULT_STATIC_PATH@)
}

pub open spec fn write_timeout_zero(vars: Map<String, String>) -> bool {
    write_timeout_of(vars) == 0
}

pub open spec fn mode_unknown(vars: Map<String, String>) -> bool {
    mode_of(vars) == WatchdogMode::ModeUnknown
}

pub open spec fn function_process_missing(vars: Map<String, String>) -> bool {
    function_process_of(vars) is None && mode_of(vars) != WatchdogMode::ModeStatic
}

pub open spec fn upstream_missing(vars: Map<String, String>) -> bool {
    mode_of(vars) == WatchdogMode::ModeHTTP && upstream_of(vars) is None
}

pub open spec fn static_path_missing(vars: Map<String, String>) -> bool {
    mode_of(vars) == WatchdogMode::ModeStatic && static_path_of(vars).len() == 0
}

/// Whether `vars` is refused, and which refusal comes first.
pub open spec fn config_error_of(vars: Map<String, String>, e: ConfigError) -> bool {
    if write_timeout_zero(vars) {
        e is WriteTimeoutZero
    } else if mode_unknown(vars) {
        e matches ConfigError::UnknownMode(m) && Some(m@) == var_of(vars, KEY_MODE@)
    } else if function_process_missing(vars) {
        e is MissingFunctionProcess
    } else if upstream_missing(vars) {
        e is MissingUpstreamUrl
    } else if static_path_missing(vars) {
        e is MissingStaticPath
    } else {
        false
    }
}

pub open spec fn config_refused(vars: Map<String, String>) -> bool {
    write_timeout_zero(vars) || mode_unknown(vars) || function_process_missing(vars)
        || upstream_missing(vars) || static_path_missing(vars)
}

/// Every setting of `c` is the one that `vars` gives, or its default.
pub open spec fn config_from(c: WatchdogConfig, vars: Map<String, String>) -> bool {
    &&& c._tcp_port == or_else(u16_var(vars, KEY_PORT@), DEFAULT_PORT)
    &&& c._http_read_timeout == or_else(u64_var(vars, KEY_READ_TIMEOUT@), DEFAULT_READ_TIMEOUT_SEC)
    &&& c._http_write_timeout == write_timeout_of(vars)
    &&& c._exec_timeout == or_else(u64_var(vars, KEY_EXEC_TIMEOUT@), DEFAULT_EXEC_TIMEOUT_SEC)
    &&& c._health_check_interval == or_else(
        u64_var(vars, KEY_HEALTH_CHECK_INTERVAL@),
        write_timeout_of(vars),
    )
    &&& c._function_process@ == or_else(function_process_of(vars), Seq::<char>::empty())
    &&& c._content_type@ == or_else(var_of(vars, KEY_CONTENT_TYPE@), DEFAULT_CONTENT_TYPE@)
    &&& c._inject_cgi_headers == INJECT_CGI_HEADERS
    &&& c._operational_mode == mode_of(vars)
    &&& c._suppress_lock == or_else(bool_var(vars, KEY_SUPPRESS_LOCK@), DEFAULT_SUPPRESS_LOCK)
    &&& opt_view(c._upstream_url) == upstream_of(vars)
    &&& c._static_path@ == static_path_of(vars)
    &&& c._buffer_http_body == or_else(
        bool_var(vars, KEY_BUFFER_HTTP_1@),
        or_else(bool_var(vars, KEY_BUFFER_HTTP_2@), DEFAULT_BUFFER_HTTP),
    )
    &&& c._metrics_port == METRICS_PORT
    &&& c._max_inflight == or_else(i32_var(vars, KEY_MAX_INFLIGHT@), DEFAULT_MAX_INFLIGHT)
    &&& c._prefix_logs == or_else(bool_var(vars, KEY_PREFIX_LOGS@), DEFAULT_PREFIX_LOGS)
    &&& c._log_buffer_size == or_else(i32_var(vars, KEY_LOG_BUFFER_SIZE@), DEFAULT_LOG_BUFFER_SIZE)
    &&& c._min_scale == usize_var(vars, KEY_MIN_SCALE@)
    &&& c._max_scale == usize_var(vars, KEY_MAX_SCALE@)
    &&& opt_view(c._wasm_root) == var_of(vars, KEY_WASM_ROOT@)
    &&& opt_view(c._wasm_c_target_triple) == var_of(vars, KEY_WASM_C_TARGET_TRIPLE@)
    &&& opt_view(c._wasm_c_cpu_features) == var_of(vars, KEY_WASM_C_CPU_FEATURES@)
    &&& c._use_cuda == bool_var(vars, KEY_USE_CUDA@)
}

/// Relies on `HashMap::get`: with `String` keys, whose equality and hash go by
/// their characters, it finds the entry whose key has the characters of `key`.
#[verifier::external_body]
fn lookup(vars: &HashMap<String, String>, key: &str) -> (r: Option<String>)
    ensures
        opt_view(r) == var_of(vars@, key@),
{
    vars.get(key).cloned()
}

/// The text under `key`, if any.
pub fn parse_var(vars: &HashMap<String, String>, key: &str) -> (r: Option<String>)
    ensures
        opt_view(r) == var_of(vars@, key@),
{
    lookup(vars, key)
}

fn parse_unsigned_var(vars: &HashMap<String, String>, key: &str, max: u64) -> (r: Option<u64>)
    ensures
        match r {
            Some(v) => unsigned_var(vars@, key@, max as nat) == Some(v as nat),
            None => unsigned_var(vars@, key@, max as nat) is None,
        },
{
    match parse_var(vars, key) {
        Some(s) => parse_unsigned(s.as_str(), max),
        None => None,
    }
}

/// The number under `key`, if it reads as a `u16`.
pub fn parse_u16_var(vars: &HashMap<String, String>, key: &str) -> (r: Option<u16>)
    ensures
        r == u16_var(vars@, key@),
{
    match parse_unsigned_var(vars, key, 0xffff) {
        Some(v) => Some(v as u16),
        None => None,
    }
}

/// The number under `key`, if it reads as a `u64`.
pub fn parse_u64_var(vars: &HashMap<String, String>, key: &str) -> (r: Option<u64>)
    ensures
        r == u64_var(vars@, key@),
{
    parse_unsigned_var(vars, key, u64::MAX)
}

/// The number under `key`, if it reads as a `usize`.
pub fn parse_usize_var(vars: &HashMap<String, String>, key: &str) -> (r: Option<usize>)
    ensures
        r == usize_var(vars@, key@),
{
    match parse_unsigned_var(vars, key, usize::MAX as u64) {
        Some(v) => Some(v as usize),
        None => None,
    }
}

/// The number under `key`, if it reads as an `i32`.
pub fn parse_i32_var(vars: &HashMap<String, String>, key: &str) -> (r: Option<i32>)
    ensures
        r == i32_var(vars@, key@),
{
    match parse_var(vars, key) {
        Some(s) => parse_i32(s.as_str()),
        None => None,
    }
}

/// The flag under `key`, if it reads as `true` or `false`.
pub fn parse_bool_var(vars: &HashMap<String, String>, key: &str) -> (r: Option<bool>)
    ensures
        r == bool_var(vars@, key@),
{
    match parse_var(vars, key) {
        Some(s) => parse_bool(s.as_str()),
        None => None,
    }
}

fn string_or(o: Option<String>, d: &str) -> (r: String)
    ensures
        r@ == or_else(opt_view(o), d@),
{
    match o {
        Some(s) => s,
        None => String::from_str(d),
    }
}

impl WatchdogConfig {
    /// Reads the settings from a key/value map, with a default for each
    /// setting that is absent or does not read as its type.
    pub fn new(vars: &HashMap<String, String>) -> (r: Result<WatchdogConfig, ConfigError>)
        ensures
            match r {
                Ok(c) => !config_refused(vars@) && config_from(c, vars@),
                Err(e) => config_refused(vars@) && config_error_of(vars@, e),
            },
    {
        let tcp_port = match parse_u16_var(vars, KEY_PORT) {
            Some(v) => v,
            None => DEFAULT_PORT,
        };
        let http_read_timeout = match parse_u64_var(vars, KEY_READ_TIMEOUT) {
            Some(v) => v,
            None => DEFAULT_READ_TIMEOUT_SEC,
        };
        let http_write_timeout = match parse_u64_var(vars, KEY_WRITE_TIMEOUT) {
            Some(v) => v,
            None => DEFAULT_WRITE_TIMEOUT_SEC,
        };
        if http_write_timeout == 0 {
            return Err(ConfigError::WriteTimeoutZero);
        }
        let health_check_interval = match parse_u64_var(vars, KEY_HEALTH_CHECK_INTERVAL) {
            Some(v) => v,
            None => http_write_timeout,
        };
        let exec_timeout = match parse_u64_var(vars, KEY_EXEC_TIMEOUT) {
            Some(v) => v,
            None => DEFAULT_EXEC_TIMEOUT_SEC,
        };
        let operational_mode = match parse_var(vars, KEY_MODE) {
            Some(s) => {
                let mode = WatchdogMode::from_name(s.as_str());
                if mode == WatchdogMode::ModeUnknown {
                    return Err(ConfigError::UnknownMode(s));
                }
                mode
            },
            None => DEFAULT_MODE,
        };
        let function_process = match parse_var(vars, KEY_FUNC_NAME_1) {
            Some(s) => s,
            None => match parse_var(vars, KEY_FUNC_NAME_2) {
                Some(s) => s,
                None => {
                    if operational_mode == WatchdogMode::ModeStatic {
                        String::new()
                    } else {
                        return Err(ConfigError::MissingFunctionProcess);
                    }
                },
            },
        };
        let content_type = string_or(parse_var(vars, KEY_CONTENT_TYPE), DEFAULT_CONTENT_TYPE);
        let upstream_url = match parse_var(vars, KEY_UPSTREAM_URL_1) {
            Some(u) => Some(u),
            None => parse_var(vars, KEY_UPSTREAM_URL_2),
        };
        let static_path = string_or(parse_var(vars, KEY_STATIC_PATH), DEFAULT_STATIC_PATH);
        let suppress_lock = match parse_bool_var(vars, KEY_SUPPRESS_LOCK) {
            Some(v) => v,
            None => DEFAULT_SUPPRESS_LOCK,
        };
        let max_inflight = match parse_i32_var(vars, KEY_MAX_INFLIGHT) {
            Some(v) => v,
            None => DEFAULT_MAX_INFLIGHT,
        };
        let buffer_http_body = match parse_bool_var(vars, KEY_BUFFER_HTTP_1) {
            Some(v) => v,
            None => match parse_bool_var(vars, KEY_BUFFER_HTTP_2) {
                Some(v) => v,
                None => DEFAULT_BUFFER_HTTP,
            },
        };
        let prefix_logs = match parse_bool_var(vars, KEY_PREFIX_LOGS) {
            Some(v) => v,
            None => DEFAULT_PREFIX_LOGS,
        };
        let log_buffer_size = match parse_i32_var(vars, KEY_LOG_BUFFER_SIZE) {
            Some(v) => v,
            None => DEFAULT_LOG_BUFFER_SIZE,
        };
        if operational_mode == WatchdogMode::ModeHTTP && upstream_url.is_none() {
            return Err(ConfigError::MissingUpstreamUrl);
        }
        if operational_mode == WatchdogMode::ModeStatic && static_path.unicode_len() == 0 {
            return Err(ConfigError::MissingStaticPath);
        }
        Ok(WatchdogConfig {
            _tcp_port: tcp_port,
            _http_read_timeout: http_read_timeout,
            _http_write_timeout: http_write_timeout,
            _exec_timeout: exec_timeout,
            _health_check_interval: health_check_interval,
            _function_process: function_process,
            _content_type: content_type,
            _inject_cgi_headers: INJECT_CGI_HEADERS,
            _operational_mode: operational_mode,
            _suppress_lock: suppress_lock,
            _upstream_url: upstream_url,
            _static_path: static_path,
            _buffer_http_body: buffer_http_body,
            _metrics_port: METRICS_PORT,
            _max_inflight: max_inflight,
            _prefix_logs: prefix_logs,
            _log_buffer_size: log_buffer_size,
            _min_scale: parse_usize_var(vars, KEY_MIN_SCALE),
            _max_scale: parse_usize_var(vars, KEY_MAX_SCALE),
            _wasm_root: parse_var(vars, KEY_WASM_ROOT),
            _wasm_c_target_triple: parse_var(vars, KEY_WASM_C_TARGET_TRIPLE),
            _wasm_c_cpu_features: parse_var(vars, KEY_WASM_C_CPU_FEATURES),
            _use_cuda: parse_bool_var(vars, KEY_USE_CUDA),
        })
    }
}

} // verus!
