use vstd::prelude::*;

use crate::command::{parse_command, split_on, views, CommandError};
use crate::config::{opt_view, or_else, WatchdogConfig};
use crate::dispatch::header_views;
use crate::text::{decimal_chars, decimal_string, push_char};
use crate::thread_pool::{PoolStep, ThreadPool};

verus! {

pub const DEFAULT_WASM_ROOT: &'static str = "/";
pub const DEFAULT_MIN_SCALE: usize = 1;
pub const DEFAULT_MAX_SCALE: usize = 4096;
pub const DEFAULT_USE_CUDA: bool = false;

/// Why a change of scale was refused.
#[derive(Debug, Clone, Copy, PartialEq, Eq, Structural)]
pub enum ScaleError {
    /// Fewer replicas than the minimum, which it carries.
    BelowMin(usize),
    /// More replicas than the maximum, which it carries.
    AboveMax(usize),
}

pub const BELOW_MIN_TEXT: &'static str = "Replicas can not less then ";
pub const ABOVE_MAX_TEXT: &'static str = "Replicas can not greater than ";

pub open spec fn scale_error_text(e: ScaleError) -> Seq<char> {
    match e {
        ScaleError::BelowMin(m) => BELOW_MIN_TEXT@ + decimal_chars(m as nat),
        ScaleError::AboveMax(m) => ABOVE_MAX_TEXT@ + decimal_chars(m as nat),
    }
}

impl ScaleError {
    /// The text shown to the caller.
    pub fn message(&self) -> (r: String)
        ensures
            r@ == scale_error_text(*self),
    {
        let (head, n) = match self {
            ScaleError::BelowMin(m) => (BELOW_MIN_TEXT, *m),
            ScaleError::AboveMax(m) => (ABOVE_MAX_TEXT, *m),
        };
        let mut s = String::from_str(head);
        let d = decimal_string(n as u64);
        s.append(d.as_str());
        s
    }
}

/// What the WASM runner takes from the configuration.
pub struct WasmSettings {
    /// The module path, then the guest's arguments.
    pub func_process: Vec<String>,
    /// The directory the guest sees as `/`.
    pub wasm_root: String,
    pub min_scale: usize,
    pub max_scale: usize,
    pub log_prefix: bool,
    pub log_buffer_size: usize,
    pub content_type: String,
    pub inject_cgi_headers: bool,
    pub use_cuda: bool,
    pub target_triple: Option<String>,
    pub cpu_features: Option<String>,
}

/// The stderr flush size: a size of zero or less flushes on every write.
pub open spec fn log_buffer_len(size: i32) -> usize {
    if size <= 0 {
        0
    } else {
        size as usize
    }
}

impl WasmSettings {
    /// Resolves the runner's settings, with defaults for those not given;
    /// fails when the function command names no module.
    pub fn from_config(config: &WatchdogConfig) -> (r: Result<WasmSettings, CommandError>)
        ensures
            match r {
                Ok(s) => {
                    &&& views(s.func_process@) == split_on(config._function_process@, ' ')
                    &&& s.func_process@.len() >= 1
                    &&& s.func_process@[0]@.len() > 0
                    &&& s.wasm_root@ == or_else(opt_view(config._wasm_root), DEFAULT_WASM_ROOT@)
                    &&& s.min_scale == or_else(config._min_scale, DEFAULT_MIN_SCALE)
                    &&& s.max_scale == or_else(config._max_scale, DEFAULT_MAX_SCALE)
                    &&& s.log_prefix == config._prefix_logs
                    &&& s.log_buffer_size == log_buffer_len(config._log_buffer_size)
                    &&& s.content_type@ == config._content_type@
                    &&& s.inject_cgi_headers == config._inject_cgi_headers
                    &&& s.use_cuda == or_else(config._use_cuda, DEFAULT_USE_CUDA)
                    &&& opt_view(s.target_triple) == opt_view(config._wasm_c_target_triple)
                    &&& opt_view(s.cpu_features) == opt_view(config._wasm_c_cpu_features)
                },
                Err(_) => config._function_process@.len() == 0 || config._function_process@[0]
                    == ' ',
            },
    {
        let wasm_root = match &config._wasm_root {
            Some(p) => p.clone(),
            None => String::from_str(DEFAULT_WASM_ROOT),
        };
        let min_scale = match config._min_scale {
            Some(v) => v,
            None => DEFAULT_MIN_SCALE,
        };
        let max_scale = match config._max_scale {
            Some(v) => v,
            None => DEFAULT_MAX_SCALE,
        };
        let use_cuda = match config._use_cuda {
            Some(v) => v,
            None => DEFAULT_USE_CUDA,
        };
        let log_buffer_size: usize = if config._log_buffer_size <= 0 {
            0
        } else {
            config._log_buffer_size as usize
        };
        let func_process = match parse_command(&config._function_process) {
            Ok(v) => v,
            Err(e) => return Err(e),
        };
        let target_triple = match &config._wasm_c_target_triple {
            Some(t) => Some(t.clone()),
            None => None,
        };
        let cpu_features = match &config._wasm_c_cpu_features {
            Some(t) => Some(t.clone()),
            None => None,
        };
        Ok(WasmSettings {
            func_process,
            wasm_root,
            min_scale,
            max_scale,
            log_prefix: config._prefix_logs,
            log_buffer_size,
            content_type: config._content_type.clone(),
            inject_cgi_headers: config._inject_cgi_headers,
            use_cuda,
            target_triple,
            cpu_features,
        })
    }

    /// The replica report: the pool's target, the room left under the
    /// maximum (none when the target is above it), and the invocation count.
    pub fn get_scale<J>(&self, pool: &ThreadPool<J>, invocation_count: usize) -> (r: (
        usize,
        usize,
        usize,
    ))
        ensures
            r.0 == pool@.thread_num,
            r.1 == if pool@.thread_num <= self.max_scale {
                (self.max_scale - pool@.thread_num) as nat
            } else {
                0
            },
            r.2 == invocation_count,
    {
        let replicas = pool.thread_num();
        let available = if replicas <= self.max_scale {
            self.max_scale - replicas
        } else {
            0
        };
        (replicas, available, invocation_count)
    }

    /// Sets the pool's target if it lies within the bounds; returns how many
    /// workers to start. Out of bounds, the pool is left as it was.
    pub fn set_scale<J>(&self, pool: &mut ThreadPool<J>, replicas: usize) -> (r: Result<
        usize,
        ScaleError,
    >)
        requires
            old(pool).wf(),
            old(pool)@.enabled(PoolStep::SetThreadNum(replicas)),
        ensures
            replicas < self.min_scale ==> r == Err::<usize, ScaleError>(
                ScaleError::BelowMin(self.min_scale),
            ) && final(pool)@ == old(pool)@,
            self.min_scale <= replicas && replicas > self.max_scale ==> r == Err::<
                usize,
                ScaleError,
            >(ScaleError::AboveMax(self.max_scale)) && final(pool)@ == old(pool)@,
            self.min_scale <= replicas <= self.max_scale ==> r == Ok::<usize, ScaleError>(
                old(pool)@.spawned_for(replicas as nat) as usize,
            ) && final(pool)@ == old(pool)@.step(PoolStep::SetThreadNum(replicas)),
            final(pool).wf(),
    {
        if replicas < self.min_scale {
            Err(ScaleError::BelowMin(self.min_scale))
        } else if replicas > self.max_scale {
            Err(ScaleError::AboveMax(self.max_scale))
        } else {
            Ok(pool.set_thread_num(replicas))
        }
    }
}

pub const CGI_PREFIX: &'static str = "Http_";
pub const CGI_PATH: &'static str = "Http_Path";
pub const CGI_METHOD: &'static str = "Http_Method";
pub const CGI_QUERY: &'static str = "Http_Query";

/// The variable name for a request header: `Http_`, then the header's name
/// with each `-` turned into `_`.
pub open spec fn cgi_name(header: Seq<char>) -> Seq<char> {
    CGI_PREFIX@ + header.map_values(|c: char| if c == '-' { '_' } else { c })
}

/// The environment handed to the guest for a request: one variable per
/// header, in order, then the path, the method, and the query if there is one.
pub open spec fn cgi_environment(
    headers: Seq<(String, String)>,
    path: Seq<char>,
    method: Seq<char>,
    query: Option<Seq<char>>,
) -> Seq<(Seq<char>, Seq<char>)> {
    headers.map_values(|h: (String, String)| (cgi_name(h.0@), h.1@)) + seq![
        (CGI_PATH@, path),
        (CGI_METHOD@, method),
    ] + match query {
        Some(q) => seq![(CGI_QUERY@, q)],
        None => Seq::empty(),
    }
}

/// The variable name for a request header.
pub fn cgi_env_name(header: &str) -> (r: String)
    ensures
        r@ == cgi_name(header@),
{
    let mut s = String::from_str(CGI_PREFIX);
    let n = header.unicode_len();
    let mut i: usize = 0;
    while i < n
        invariant
            n == header@.len(),
            i <= n,
            s@ == CGI_PREFIX@ + header@.subrange(0, i as int).map_values(
                |c: char| if c == '-' { '_' } else { c },
            ),
        decreases n - i,
    {
        let c = header.get_char(i);
        if c == '-' {
            push_char(&mut s, '_');
        } else {
            push_char(&mut s, c);
        }
        assert(header@.subrange(0, i + 1) =~= header@.subrange(0, i as int).push(c));
        i = i + 1;
    }
    assert(header@.subrange(0, n as int) =~= header@);
    s
}

/// The environment of a request, as name/value pairs; a later pair with the
/// same name overrides an earlier one.
pub fn inject_environment(
    headers: &Vec<(String, String)>,
    path: &str,
    method: &str,
    query: &Option<String>,
) -> (r: Vec<(String, String)>)
    ensures
        header_views(r@) == cgi_environment(headers@, path@, method@, opt_view(*query)),
{
    let mut out: Vec<(String, String)> = Vec::new();
    let mut i: usize = 0;
    while i < headers.len()
        invariant
            i <= headers@.len(),
            header_views(out@) == headers@.subrange(0, i as int).map_values(
                |h: (String, String)| (cgi_name(h.0@), h.1@),
            ),
        decreases headers@.len() - i,
    {
        let name = cgi_env_name(headers[i].0.as_str());
        let value = headers[i].1.clone();
        let ghost before = out@;
        out.push((name, value));
        assert(header_views(out@) =~= header_views(before).push((name@, value@)));
        assert(headers@.subrange(0, i + 1) =~= headers@.subrange(0, i as int).push(headers@[i as int]));
        i = i + 1;
    }
    assert(headers@.subrange(0, headers@.len() as int) =~= headers@);
    let ghost mid = out@;
    out.push((String::from_str(CGI_PATH), String::from_str(path)));
    out.push((String::from_str(CGI_METHOD), String::from_str(method)));
    match query {
        Some(q) => {
            out.push((String::from_str(CGI_QUERY), q.clone()));
        },
        None => {},
    }
    assert(header_views(out@) =~= header_views(mid) + (seq![(CGI_PATH@, path@), (CGI_METHOD@, method@)]
        + match opt_view(*query) {
        Some(q) => seq![(CGI_QUERY@, q)],
        None => Seq::<(Seq<char>, Seq<char>)>::empty(),
    }));
    out
}

/// The capacity of the channel that carries the request body to the guest:
/// 1 for a body of at most 1 KiB, one slot per KiB up to 32 KiB, then 64.
pub fn body_channel_capacity(lower: u64) -> (r: usize)
    ensures
        lower <= 1024 ==> r == 1,
        1024 < lower <= 32768 ==> r == lower / 1024,
        lower > 32768 ==> r == 64,
{
    if lower <= 1024 {
        1
    } else if lower <= 32768 {
        (lower / 1024) as usize
    } else {
        64
    }
}

} // verus!
