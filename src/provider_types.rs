use vstd::prelude::*;

use vstd::utf8::encode_utf8;

use crate::config::opt_view;
use crate::text::{decimal_chars, decimal_string, push_char};

verus! {

pub const NAME_KEY: &'static str = "\"name\"";
pub const IMAGE_KEY: &'static str = "\"image\"";
pub const NAMESPACE_KEY: &'static str = "\"namespace\"";
pub const ENV_PROCESS_KEY: &'static str = "\"envProcess\"";
pub const ENV_VARS_KEY: &'static str = "\"envVars\"";
pub const INVOCATION_COUNT_KEY: &'static str = "\"invocationCount\"";
pub const REPLICAS_COUNT_KEY: &'static str = "\"replicas\"";
pub const AVAILABLE_REPLICAS_KEY: &'static str = "\"availableReplicas\"";

/// What the scale reader reports of a function.
#[derive(Debug, Clone)]
pub struct ReplicaFuncStatus {
    pub _name: Option<String>,
    pub _image: Option<String>,
    pub _namespace: Option<String>,
    pub _env_process: Option<String>,
    /// Environment entries, in the order they are written out.
    pub _env_vars: Option<Vec<(String, String)>>,
    pub _invocation_count: u64,
    pub _replicas: u64,
    pub _available_replicas: u64,
}

/// `s` with a backslash before each newline and each double quote.
pub open spec fn escaped(s: Seq<char>) -> Seq<char>
    decreases s.len(),
{
    if s.len() == 0 {
        Seq::empty()
    } else {
        let c = s.last();
        escaped(s.drop_last()) + if c == '\n' || c == '"' {
            seq!['\\', c]
        } else {
            seq![c]
        }
    }
}

/// `parts`, separated by commas.
pub open spec fn joined(parts: Seq<Seq<char>>) -> Seq<char>
    decreases parts.len(),
{
    if parts.len() == 0 {
        Seq::empty()
    } else if parts.len() == 1 {
        parts[0]
    } else {
        joined(parts.drop_last()) + seq![','] + parts.last()
    }
}

/// `key:"value"`, with the value escaped.
pub open spec fn string_member(key: Seq<char>, value: Seq<char>) -> Seq<char> {
    key + seq![':', '"'] + escaped(value) + seq!['"']
}

/// `key:n`.
pub open spec fn number_member(key: Seq<char>, n: u64) -> Seq<char> {
    key + seq![':'] + decimal_chars(n as nat)
}

pub open spec fn optional_member(key: Seq<char>, value: Option<String>) -> Seq<Seq<char>> {
    match opt_view(value) {
        Some(v) => seq![string_member(key, v)],
        None => Seq::empty(),
    }
}

pub open spec fn env_entries(vars: Seq<(String, String)>) -> Seq<Seq<char>> {
    Seq::new(vars.len(), |i: int| string_member(vars[i].0@, vars[i].1@))
}

pub open spec fn env_member(vars: Option<Vec<(String, String)>>) -> Seq<Seq<char>> {
    match vars {
        Some(v) => seq![ENV_VARS_KEY@ + seq![':', '['] + joined(env_entries(v@)) + seq![']']],
        None => Seq::empty(),
    }
}

impl ReplicaFuncStatus {
    /// The members of the JSON object, in order; absent fields are left out.
    pub open spec fn members(&self) -> Seq<Seq<char>> {
        optional_member(NAME_KEY@, self._name) + optional_member(IMAGE_KEY@, self._image)
            + optional_member(NAMESPACE_KEY@, self._namespace) + optional_member(
            ENV_PROCESS_KEY@,
            self._env_process,
        ) + env_member(self._env_vars) + seq![
            number_member(REPLICAS_COUNT_KEY@, self._replicas),
            number_member(AVAILABLE_REPLICAS_KEY@, self._available_replicas),
            number_member(INVOCATION_COUNT_KEY@, self._invocation_count),
        ]
    }

    /// The JSON text of this status.
    pub open spec fn json(&self) -> Seq<char> {
        seq!['{'] + joined(self.members()) + seq!['}']
    }

    pub open spec fn new_spec(replicas: u64, available_replicas: u64, invocation_count: u64) -> Self {
        ReplicaFuncStatus {
            _name: None,
            _image: None,
            _namespace: None,
            _env_process: None,
            _env_vars: None,
            _invocation_count: invocation_count,
            _replicas: replicas,
            _available_replicas: available_replicas,
        }
    }

    /// A status with the three counts and no optional field.
    pub fn new(replicas: u64, available_replicas: u64, invocation_count: u64) -> (r: Self)
        ensures
            r == Self::new_spec(replicas, available_replicas, invocation_count),
    {
        ReplicaFuncStatus {
            _name: None,
            _image: None,
            _namespace: None,
            _env_process: None,
            _env_vars: None,
            _invocation_count: invocation_count,
            _replicas: replicas,
            _available_replicas: available_replicas,
        }
    }

    /// Appends `s` with a backslash before each newline and double quote.
    pub fn push_escape_str(string: &mut String, s: &str)
        ensures
            final(string)@ == old(string)@ + escaped(s@),
    {
        let n = s.unicode_len();
        let mut i: usize = 0;
        while i < n
            invariant
                n == s@.len(),
                i <= n,
                string@ == old(string)@ + escaped(s@.subrange(0, i as int)),
            decreases n - i,
        {
            let c = s.get_char(i);
            assert(s@.subrange(0, i + 1).drop_last() == s@.subrange(0, i as int));
            if c == '\n' || c == '"' {
                push_char(string, '\\');
            }
            push_char(string, c);
            i = i + 1;
        }
        assert(s@.subrange(0, n as int) == s@);
    }

    fn push_member(json: &mut String, first: &mut bool, parts: Ghost<Seq<Seq<char>>>, member: &String)
        requires
            old(json)@ == seq!['{'] + joined(parts@),
            *old(first) == (parts@.len() == 0),
        ensures
            final(json)@ == seq!['{'] + joined(parts@.push(member@)),
            *final(first) == false,
    {
        if !*first {
            push_char(json, ',');
        }
        *first = false;
        json.append(member.as_str());
        assert(parts@.push(member@).drop_last() =~= parts@);
    }

    fn string_member_text(key: &str, value: &str) -> (r: String)
        ensures
            r@ == string_member(key@, value@),
    {
        let mut m = String::from_str(key);
        push_char(&mut m, ':');
        push_char(&mut m, '"');
        Self::push_escape_str(&mut m, value);
        push_char(&mut m, '"');
        m
    }

    fn number_member_text(key: &str, n: u64) -> (r: String)
        ensures
            r@ == number_member(key@, n),
    {
        let mut m = String::from_str(key);
        push_char(&mut m, ':');
        let d = decimal_string(n);
        m.append(d.as_str());
        m
    }

    fn push_optional(
        json: &mut String,
        first: &mut bool,
        parts: Ghost<Seq<Seq<char>>>,
        key: &str,
        value: &Option<String>,
    ) -> (out: Ghost<Seq<Seq<char>>>)
        requires
            old(json)@ == seq!['{'] + joined(parts@),
            *old(first) == (parts@.len() == 0),
        ensures
            out@ == parts@ + optional_member(key@, *value),
            final(json)@ == seq!['{'] + joined(out@),
            *final(first) == (out@.len() == 0),
    {
        match value {
            Some(v) => {
                let m = Self::string_member_text(key, v.as_str());
                Self::push_member(json, first, parts, &m);
                assert(parts@ + optional_member(key@, *value) == parts@.push(m@));
                Ghost(parts@.push(m@))
            },
            None => {
                assert(parts@ + optional_member(key@, *value) == parts@);
                parts
            },
        }
    }

    fn env_vars_text(vars: &Vec<(String, String)>) -> (r: String)
        ensures
            r@ == ENV_VARS_KEY@ + seq![':', '['] + joined(env_entries(vars@)) + seq![']'],
    {
        let mut m = String::from_str(ENV_VARS_KEY);
        push_char(&mut m, ':');
        push_char(&mut m, '[');
        let ghost head = m@;
        let mut i: usize = 0;
        while i < vars.len()
            invariant
                i <= vars@.len(),
                m@ == head + joined(env_entries(vars@.subrange(0, i as int))),
            decreases vars@.len() - i,
        {
            let ghost before = env_entries(vars@.subrange(0, i as int));
            let e = Self::string_member_text(vars[i].0.as_str(), vars[i].1.as_str());
            if i > 0 {
                push_char(&mut m, ',');
            }
            m.append(e.as_str());
            assert(env_entries(vars@.subrange(0, i + 1)) == before.push(e@));
            assert(before.push(e@).drop_last() == before);
            i = i + 1;
        }
        assert(vars@.subrange(0, vars@.len() as int) == vars@);
        push_char(&mut m, ']');
        m
    }

    /// The environment entries have distinct names, as in a map.
    pub open spec fn env_keys_unique(&self) -> bool {
        match self._env_vars {
            Some(v) => forall|i: int, j: int|
                0 <= i < j < v@.len() ==> (#[trigger] v@[i]).0@ != (#[trigger] v@[j]).0@,
            None => true,
        }
    }

    /// The JSON text of this status: the present fields in a fixed order,
    /// then the three counts.
    pub fn into_json(self) -> (r: String)
        requires
            self.env_keys_unique(),
        ensures
            r@ == self.json(),
    {
        let mut json = String::new();
        push_char(&mut json, '{');
        let mut first = true;
        let ghost parts0: Seq<Seq<char>> = Seq::empty();
        assert(json@ == seq!['{'] + joined(parts0));
        let parts = Self::push_optional(&mut json, &mut first, Ghost(parts0), NAME_KEY, &self._name);
        let parts = Self::push_optional(&mut json, &mut first, parts, IMAGE_KEY, &self._image);
        let parts = Self::push_optional(&mut json, &mut first, parts, NAMESPACE_KEY, &self._namespace);
        let parts = Self::push_optional(&mut json, &mut first, parts, ENV_PROCESS_KEY, &self._env_process);
        let ghost p4 = parts@;
        let parts = match &self._env_vars {
            Some(vars) => {
                let m = Self::env_vars_text(vars);
                Self::push_member(&mut json, &mut first, parts, &m);
                assert(p4.push(m@) =~= p4 + env_member(self._env_vars));
                Ghost(parts@.push(m@))
            },
            None => {
                assert(p4 =~= p4 + env_member(self._env_vars));
                parts
            },
        };
        let m1 = Self::number_member_text(REPLICAS_COUNT_KEY, self._replicas);
        Self::push_member(&mut json, &mut first, parts, &m1);
        let parts = Ghost(parts@.push(m1@));
        let m2 = Self::number_member_text(AVAILABLE_REPLICAS_KEY, self._available_replicas);
        Self::push_member(&mut json, &mut first, parts, &m2);
        let parts = Ghost(parts@.push(m2@));
        let m3 = Self::number_member_text(INVOCATION_COUNT_KEY, self._invocation_count);
        Self::push_member(&mut json, &mut first, parts, &m3);
        let parts = Ghost(parts@.push(m3@));
        assert(parts@ =~= self.members());
        push_char(&mut json, '}');
        json
    }
}

/// A request to set the number of replicas.
pub struct ScaleServiceRequest {
    pub _service_name: Option<String>,
    pub _replicas: u64,
}

/// Why a scale request was not understood.
#[derive(Debug, Clone)]
pub enum ScaleParseError {
    /// The body could not be read as text.
    Body(String),
    /// No `"replicas"` key.
    MissingKey,
    /// No `:` after the key.
    MissingColon,
    /// A byte that is neither blank nor a digit stands before the number.
    UnexpectedChar(u8),
    /// The text ends before the number.
    UnexpectedEof,
    /// The number does not fit in a `u64`.
    TooLarge,
}

/// The bytes of `"replicas"`, quotes included.
pub open spec fn replicas_key() -> Seq<u8> {
    seq![34u8, 114u8, 101u8, 112u8, 108u8, 105u8, 99u8, 97u8, 115u8, 34u8]
}

pub open spec fn is_digit_byte(c: u8) -> bool {
    48 <= c <= 57
}

pub open spec fn is_blank_byte(c: u8) -> bool {
    c == 32 || c == 9 || c == 10 || c == 12 || c == 13
}

/// The first position at or after `i` where `"replicas"` starts.
pub open spec fn find_key(b: Seq<u8>, i: int) -> Option<int>
    decreases b.len() - i,
{
    if i < 0 || i + 10 > b.len() {
        None
    } else if b.subrange(i, i + 10) == replicas_key() {
        Some(i)
    } else {
        find_key(b, i + 1)
    }
}

/// The first position at or after `i` that holds a colon.
pub open spec fn find_colon(b: Seq<u8>, i: int) -> Option<int>
    decreases b.len() - i,
{
    if i < 0 || i >= b.len() {
        None
    } else if b[i] == 58 {
        Some(i)
    } else {
        find_colon(b, i + 1)
    }
}

/// The first position at or after `i` that holds no blank, or the end.
pub open spec fn skip_blanks(b: Seq<u8>, i: int) -> int
    decreases b.len() - i,
{
    if i < 0 || i >= b.len() || !is_blank_byte(b[i]) {
        i
    } else {
        skip_blanks(b, i + 1)
    }
}

/// The first position at or after `i` that holds no digit, or the end.
pub open spec fn digits_end(b: Seq<u8>, i: int) -> int
    decreases b.len() - i,
{
    if i < 0 || i >= b.len() || !is_digit_byte(b[i]) {
        i
    } else {
        digits_end(b, i + 1)
    }
}

/// The digits `b[i..j]` read as a number.
pub open spec fn digits_value(b: Seq<u8>, i: int, j: int) -> nat
    decreases j - i,
{
    if j <= i {
        0
    } else {
        digits_value(b, i, j - 1) * 10 + (b[j - 1] - 48) as nat
    }
}

/// The digit run that starts at `i` ends at `digits_end(b, i)`.
proof fn lemma_digits_end(b: Seq<u8>, i: int)
    requires
        0 <= i <= b.len(),
    ensures
        i <= digits_end(b, i) <= b.len(),
        forall|x: int| i <= x < digits_end(b, i) ==> is_digit_byte(#[trigger] b[x]),
    decreases b.len() - i,
{
    if i < b.len() && is_digit_byte(b[i]) {
        lemma_digits_end(b, i + 1);
    }
}

/// A longer run of digits denotes no less.
proof fn lemma_digits_grow(b: Seq<u8>, i: int, j: int, k: int)
    requires
        i <= j <= k <= b.len(),
        forall|x: int| i <= x < k ==> is_digit_byte(#[trigger] b[x]),
    ensures
        digits_value(b, i, j) <= digits_value(b, i, k),
    decreases k - j,
{
    if j < k {
        lemma_digits_grow(b, i, j, k - 1);
    }
}

/// How a scale request's text reads: the number after the first `"replicas"`
/// key and the colon that follows it, with blanks allowed around the colon.
pub open spec fn scale_replicas(b: Seq<u8>) -> Result<u64, ScaleParseError> {
    match find_key(b, 0) {
        None => Err(ScaleParseError::MissingKey),
        Some(k) => match find_colon(b, k + 10) {
            None => Err(ScaleParseError::MissingColon),
            Some(c) => {
                let d = skip_blanks(b, c + 1);
                if d >= b.len() {
                    Err(ScaleParseError::UnexpectedEof)
                } else if !is_digit_byte(b[d]) {
                    Err(ScaleParseError::UnexpectedChar(b[d]))
                } else {
                    let v = digits_value(b, d, digits_end(b, d));
                    if v > u64::MAX {
                        Err(ScaleParseError::TooLarge)
                    } else {
                        Ok(v as u64)
                    }
                }
            },
        },
    }
}

/// Whether `e` is the error that `scale_replicas` gives.
pub open spec fn same_scan_error(e: ScaleParseError, f: ScaleParseError) -> bool {
    match (e, f) {
        (ScaleParseError::MissingKey, ScaleParseError::MissingKey) => true,
        (ScaleParseError::MissingColon, ScaleParseError::MissingColon) => true,
        (ScaleParseError::UnexpectedEof, ScaleParseError::UnexpectedEof) => true,
        (ScaleParseError::TooLarge, ScaleParseError::TooLarge) => true,
        (ScaleParseError::UnexpectedChar(a), ScaleParseError::UnexpectedChar(b)) => a == b,
        _ => false,
    }
}

impl ScaleServiceRequest {
    /// `body` reads as the request `q`.
    pub open spec fn parses_to(body: Result<String, String>, q: ScaleServiceRequest) -> bool {
        body matches Ok(s) && scale_replicas(encode_utf8(s@)) == Ok::<u64, ScaleParseError>(q._replicas)
            && q._service_name is None
    }

    /// `body` is refused with the error `e`.
    pub open spec fn fails_with(body: Result<String, String>, e: ScaleParseError) -> bool {
        match body {
            Err(m) => e matches ScaleParseError::Body(n) && n@ == m@,
            Ok(s) => scale_replicas(encode_utf8(s@)) matches Err(f) && same_scan_error(e, f),
        }
    }

    /// Reads the replica count out of a request body; an unreadable body is
    /// passed on as the error.
    pub fn from_json(res_s: Result<String, String>) -> (r: Result<ScaleServiceRequest, ScaleParseError>)
        ensures
            match r {
                Ok(q) => Self::parses_to(res_s, q),
                Err(e) => Self::fails_with(res_s, e),
            },
    {
        match res_s {
            Ok(s) => match Self::scan_replicas(s.as_str()) {
                Ok(v) => Ok(ScaleServiceRequest { _service_name: None, _replicas: v }),
                Err(e) => Err(e),
            },
            Err(m) => Err(ScaleParseError::Body(m)),
        }
    }

    fn scan_replicas(s: &str) -> (r: Result<u64, ScaleParseError>)
        ensures
            match (r, scale_replicas(encode_utf8(s@))) {
                (Ok(q), Ok(v)) => q == v,
                (Err(e), Err(f)) => same_scan_error(e, f),
                _ => false,
            },
    {
        let b = s.as_bytes();
        let len = b.len();
        let ghost bs = b@;
        // the first "replicas"
        let mut pos: usize = 0;
        loop
            invariant
                bs == b@,
                len == b@.len(),
                bs == encode_utf8(s@),
                pos <= len,
                find_key(bs, 0) == find_key(bs, pos as int),
            ensures
                pos + 10 <= len,
                find_key(bs, 0) == Some(pos as int),
            decreases len - pos,
        {
            if len < 10 || pos > len - 10 {
                return Err(ScaleParseError::MissingKey);
            }
            if b[pos] == 34 && b[pos + 1] == 114 && b[pos + 2] == 101 && b[pos + 3] == 112
                && b[pos + 4] == 108 && b[pos + 5] == 105 && b[pos + 6] == 99 && b[pos + 7] == 97
                && b[pos + 8] == 115 && b[pos + 9] == 34 {
                assert(bs.subrange(pos as int, pos + 10) =~= replicas_key());
                assert(find_key(bs, pos as int) == Some(pos as int));
                break;
            }
            assert(bs.subrange(pos as int, pos + 10) != replicas_key()) by {
                let w = bs.subrange(pos as int, pos + 10);
                if w == replicas_key() {
                    assert(w[0] == bs[pos as int]);
                    assert(w[1] == bs[pos + 1]);
                    assert(w[2] == bs[pos + 2]);
                    assert(w[3] == bs[pos + 3]);
                    assert(w[4] == bs[pos + 4]);
                    assert(w[5] == bs[pos + 5]);
                    assert(w[6] == bs[pos + 6]);
                    assert(w[7] == bs[pos + 7]);
                    assert(w[8] == bs[pos + 8]);
                    assert(w[9] == bs[pos + 9]);
                }
            }
            pos = pos + 1;
        }
        let ghost k = pos as int;
        pos = pos + 10;
        // the colon
        loop
            invariant
                bs == b@,
                len == b@.len(),
                k + 10 <= pos,
                find_key(bs, 0) == Some(k),
                bs == encode_utf8(s@),
                find_colon(bs, k + 10) == find_colon(bs, pos as int),
            ensures
                pos < len,
                find_key(bs, 0) == Some(k),
                find_colon(bs, k + 10) == Some(pos as int),
            decreases len - pos,
        {
            if pos >= len {
                return Err(ScaleParseError::MissingColon);
            }
            if b[pos] == 58 {
                break;
            }
            pos = pos + 1;
        }
        let ghost c = pos as int;
        pos = pos + 1;
        // blanks before the number
        loop
            invariant
                bs == b@,
                len == b@.len(),
                c + 1 <= pos <= len,
                find_key(bs, 0) == Some(k),
                find_colon(bs, k + 10) == Some(c),
                bs == encode_utf8(s@),
                skip_blanks(bs, c + 1) == skip_blanks(bs, pos as int),
            ensures
                c + 1 <= pos < len,
                is_digit_byte(bs[pos as int]),
                find_key(bs, 0) == Some(k),
                find_colon(bs, k + 10) == Some(c),
                skip_blanks(bs, c + 1) == pos,
            decreases len - pos,
        {
            if pos >= len {
                return Err(ScaleParseError::UnexpectedEof);
            }
            let x = b[pos];
            if 48 <= x && x <= 57 {
                break;
            }
            if !(x == 32 || x == 9 || x == 10 || x == 12 || x == 13) {
                return Err(ScaleParseError::UnexpectedChar(x));
            }
            pos = pos + 1;
        }
        let ghost d = pos as int;
        let mut replicas: u64 = 0;
        loop
            invariant
                bs == b@,
                len == b@.len(),
                d < len,
                d <= pos <= len,
                is_digit_byte(bs[d]),
                find_key(bs, 0) == Some(k),
                find_colon(bs, k + 10) == Some(c),
                skip_blanks(bs, c + 1) == d,
                digits_end(bs, d) == digits_end(bs, pos as int),
                forall|x: int| d <= x < pos ==> is_digit_byte(#[trigger] bs[x]),
                replicas == digits_value(bs, d, pos as int),
                bs == encode_utf8(s@),
            ensures
                find_key(bs, 0) == Some(k),
                find_colon(bs, k + 10) == Some(c),
                skip_blanks(bs, c + 1) == d,
                d < len,
                is_digit_byte(bs[d]),
                digits_end(bs, d) == pos,
                replicas == digits_value(bs, d, pos as int),
            decreases len - pos,
        {
            if pos >= len || !(48 <= b[pos] && b[pos] <= 57) {
                break;
            }
            let next: u128 = replicas as u128 * 10 + (b[pos] - 48) as u128;
            if next > u64::MAX as u128 {
                proof {
                    lemma_digits_end(bs, pos as int);
                    lemma_digits_end(bs, pos + 1);
                    let e = digits_end(bs, pos as int);
                    assert(e == digits_end(bs, pos + 1));
                    assert forall|x: int| d <= x < e implies is_digit_byte(#[trigger] bs[x]) by {
                        if x >= pos {
                            assert(pos <= x < digits_end(bs, pos as int));
                        }
                    }
                    lemma_digits_grow(bs, d, pos + 1, e);
                }
                return Err(ScaleParseError::TooLarge);
            }
            replicas = next as u64;
            pos = pos + 1;
        }
        Ok(replicas)
    }
}

} // verus!
