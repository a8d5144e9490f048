use vstd::prelude::*;
use vstd::utf8::{decode_utf8, valid_utf8};

use crate::command::{lemma_split_len, split_on, views};
use crate::text::push_char;

verus! {

/// Why a stdio adapter failed.
#[derive(Debug, Clone)]
pub enum StdioError {
    /// The bytes are not UTF-8.
    InvalidData,
    /// The request body could not be received.
    Transport(String),
}

/// Relies on `std::str::from_utf8`: it accepts exactly the UTF-8 byte
/// sequences, and the text it gives decodes them.
#[verifier::external_body]
fn utf8_text(b: &[u8]) -> (r: Option<String>)
    ensures
        r is Some <==> valid_utf8(b@),
        r matches Some(s) ==> s@ == decode_utf8(b@),
{
    std::str::from_utf8(b).ok().map(|s| s.to_string())
}

/// The text of `bytes`, or `InvalidData` if they are not UTF-8.
pub fn text_of(bytes: &Vec<u8>) -> (r: Result<String, StdioError>)
    ensures
        r is Ok <==> valid_utf8(bytes@),
        r matches Ok(s) ==> s@ == decode_utf8(bytes@),
        r matches Err(e) ==> e is InvalidData,
{
    match utf8_text(bytes.as_slice()) {
        Some(s) => Ok(s),
        None => Err(StdioError::InvalidData),
    }
}

/// Appends the text of `bytes` to `buf` and returns how many bytes it took;
/// bytes that are not UTF-8 leave `buf` as it was and give `InvalidData`.
pub fn append_text(buf: &mut String, bytes: &Vec<u8>) -> (r: Result<usize, StdioError>)
    ensures
        valid_utf8(bytes@) ==> r == Ok::<usize, StdioError>(bytes@.len() as usize) && final(buf)@
            == old(buf)@ + decode_utf8(bytes@),
        !valid_utf8(bytes@) ==> (r matches Err(e) && e is InvalidData) && final(buf)@ == old(buf)@,
{
    match text_of(bytes) {
        Ok(t) => {
            buf.append(t.as_str());
            Ok(bytes.len())
        },
        Err(e) => Err(e),
    }
}

fn append_bytes(out: &mut Vec<u8>, buf: &[u8])
    ensures
        final(out)@ == old(out)@ + buf@,
{
    let ghost start = out@;
    let mut i: usize = 0;
    while i < buf.len()
        invariant
            i <= buf@.len(),
            out@ == start + buf@.subrange(0, i as int),
        decreases buf@.len() - i,
    {
        out.push(buf[i]);
        assert(buf@.subrange(0, i + 1) == buf@.subrange(0, i as int).push(buf@[i as int]));
        i = i + 1;
    }
    assert(buf@.subrange(0, buf@.len() as int) == buf@);
}

/// The guest's standard output: every byte written is kept for the response.
#[derive(Debug, Clone)]
pub struct Stdout {
    _buffer: Vec<u8>,
}

impl View for Stdout {
    type V = Seq<u8>;

    closed spec fn view(&self) -> Seq<u8> {
        self._buffer@
    }
}

impl Stdout {
    pub fn new() -> (r: Stdout)
        ensures
            r@ == Seq::<u8>::empty(),
    {
        Stdout { _buffer: Vec::new() }
    }

    /// Hands over everything written so far, leaving the adapter empty.
    pub fn take_buffer(&mut self) -> (r: Vec<u8>)
        ensures
            r@ == old(self)@,
            final(self)@ == Seq::<u8>::empty(),
    {
        let mut out: Vec<u8> = Vec::new();
        std::mem::swap(&mut out, &mut self._buffer);
        out
    }

    /// Nothing can be read back from standard output.
    pub fn bytes_available(&self) -> (r: usize)
        ensures
            r == 0,
    {
        0
    }

    /// Keeps the bytes; the whole of `buf` is always taken.
    pub fn write(&mut self, buf: &[u8]) -> (r: usize)
        ensures
            final(self)@ == after_writes(old(self)@, seq![buf@]),
            r == buf@.len(),
    {
        assert(seq![buf@].drop_last() =~= Seq::<Seq<u8>>::empty());
        assert(after_writes(self@, seq![buf@].drop_last()) == self@);
        append_bytes(&mut self._buffer, buf);
        buf.len()
    }

    pub fn write_all(&mut self, buf: &[u8])
        ensures
            final(self)@ == after_writes(old(self)@, seq![buf@]),
    {
        assert(seq![buf@].drop_last() =~= Seq::<Seq<u8>>::empty());
        assert(after_writes(self@, seq![buf@].drop_last()) == self@);
        append_bytes(&mut self._buffer, buf);
    }

    pub fn flush(&mut self)
        ensures
            final(self)@ == old(self)@,
    {
    }
}

/// What `Stdout` holds after writing `chunks` in order, starting from `start`.
pub open spec fn after_writes(start: Seq<u8>, chunks: Seq<Seq<u8>>) -> Seq<u8>
    decreases chunks.len(),
{
    if chunks.len() == 0 {
        start
    } else {
        after_writes(start, chunks.drop_last()) + chunks.last()
    }
}

/// Writing chunks to a fresh standard output and then taking its buffer gives
/// back exactly the chunks, joined in order; the buffer is then empty again.
pub proof fn lemma_stdout_round_trip(chunks: Seq<Seq<u8>>)
    ensures
        after_writes(Seq::empty(), chunks) == chunks.flatten(),
    decreases chunks.len(),
{
    if chunks.len() > 0 {
        lemma_stdout_round_trip(chunks.drop_last());
        chunks.drop_last().lemma_flatten_push(chunks.last());
        assert(chunks.drop_last().push(chunks.last()) == chunks);
    }
}

pub const LOG_TAG: &'static str = "[watchdog function] ";

/// A log record for one line of the guest's stderr.
pub open spec fn log_record(name: Seq<char>, line: Seq<char>) -> Seq<char> {
    LOG_TAG@ + name + seq![':', ' '] + line + seq!['\n']
}

/// The records for the non-empty lines among `lines`, in order.
pub open spec fn log_records(name: Seq<char>, lines: Seq<Seq<char>>) -> Seq<Seq<char>>
    decreases lines.len(),
{
    if lines.len() == 0 {
        Seq::empty()
    } else if lines.last().len() == 0 {
        log_records(name, lines.drop_last())
    } else {
        log_records(name, lines.drop_last()).push(log_record(name, lines.last()))
    }
}

/// What a flush of `text` writes to the log.
pub open spec fn flushed(name: Seq<char>, prefix: bool, text: Seq<char>) -> Seq<Seq<char>> {
    if prefix {
        log_records(name, split_on(text, '\n'))
    } else {
        seq![text]
    }
}

/// The guest's standard error, gathered and passed to the log in batches.
#[derive(Debug)]
pub struct Stderr {
    _logger_name: String,
    _buffer: Vec<u8>,
    _log_prefix: bool,
    _buf_max_size: usize,
}

impl Stderr {
    pub closed spec fn name(&self) -> Seq<char> {
        self._logger_name@
    }

    pub closed spec fn buffered(&self) -> Seq<u8> {
        self._buffer@
    }

    pub closed spec fn prefix(&self) -> bool {
        self._log_prefix
    }

    pub closed spec fn max_size(&self) -> usize {
        self._buf_max_size
    }

    pub fn new(logger_name: String, log_prefix: bool, log_buf_size: usize) -> (r: Stderr)
        ensures
            r.name() == logger_name@,
            r.buffered() == Seq::<u8>::empty(),
            r.prefix() == log_prefix,
            r.max_size() == log_buf_size,
    {
        Stderr {
            _logger_name: logger_name,
            _buffer: Vec::new(),
            _log_prefix: log_prefix,
            _buf_max_size: log_buf_size,
        }
    }

    /// Nothing can be read back from standard error.
    pub fn bytes_available(&self) -> (r: usize)
        ensures
            r == 0,
    {
        0
    }

    /// Empties the buffer into log records: with the prefix, one record per
    /// non-empty line; without, the text as it is. Bytes that are not UTF-8
    /// stay buffered and give `InvalidData`.
    pub fn flush_inner(&mut self) -> (r: Result<Vec<String>, StdioError>)
        ensures
            final(self).name() == old(self).name(),
            final(self).prefix() == old(self).prefix(),
            final(self).max_size() == old(self).max_size(),
            old(self).buffered().len() == 0 ==> (r matches Ok(v) && v@.len() == 0)
                && final(self).buffered() == old(self).buffered(),
            old(self).buffered().len() > 0 && !valid_utf8(old(self).buffered()) ==> (r matches Err(
                e,
            ) && e is InvalidData) && final(self).buffered() == old(self).buffered(),
            old(self).buffered().len() > 0 && valid_utf8(old(self).buffered()) ==> (r matches Ok(v)
                && views(v@) == flushed(
                old(self).name(),
                old(self).prefix(),
                decode_utf8(old(self).buffered()),
            )) && final(self).buffered() == Seq::<u8>::empty(),
    {
        if self._buffer.len() == 0 {
            return Ok(Vec::new());
        }
        let text = match text_of(&self._buffer) {
            Ok(t) => t,
            Err(e) => return Err(e),
        };
        let out = if self._log_prefix {
            Self::records(&self._logger_name, &text)
        } else {
            let mut v: Vec<String> = Vec::new();
            v.push(text);
            assert(views(v@) =~= seq![text@]);
            v
        };
        self._buffer.clear();
        Ok(out)
    }

    fn record(name: &String, line: &String) -> (r: String)
        ensures
            r@ == log_record(name@, line@),
    {
        let mut s = String::from_str(LOG_TAG);
        s.append(name.as_str());
        push_char(&mut s, ':');
        push_char(&mut s, ' ');
        s.append(line.as_str());
        push_char(&mut s, '\n');
        s
    }

    fn records(name: &String, text: &String) -> (r: Vec<String>)
        ensures
            views(r@) == log_records(name@, split_on(text@, '\n')),
    {
        let t = text.as_str();
        let n = t.unicode_len();
        let mut out: Vec<String> = Vec::new();
        let mut cur = String::new();
        let mut i: usize = 0;
        while i < n
            invariant
                n == t@.len(),
                t@ == text@,
                i <= n,
                views(out@) == log_records(name@, split_on(t@.subrange(0, i as int), '\n').drop_last()),
                cur@ == split_on(t@.subrange(0, i as int), '\n').last(),
            decreases n - i,
        {
            let c = t.get_char(i);
            let ghost pre = t@.subrange(0, i as int);
            let ghost pieces = split_on(pre, '\n');
            assert(t@.subrange(0, i + 1).drop_last() == pre);
            proof {
                lemma_split_len(pre, '\n');
            }
            if c == '\n' {
                assert(split_on(t@.subrange(0, i + 1), '\n').drop_last() =~= pieces);
                if cur.unicode_len() > 0 {
                    let rec = Self::record(name, &cur);
                    let ghost before = out@;
                    out.push(rec);
                    assert(views(out@) =~= views(before).push(rec@));
                }
                cur = String::new();
            } else {
                assert(split_on(t@.subrange(0, i + 1), '\n').drop_last() =~= pieces.drop_last());
                push_char(&mut cur, c);
            }
            i = i + 1;
        }
        assert(t@.subrange(0, n as int) == t@);
        let ghost pieces = split_on(t@, '\n');
        proof {
            lemma_split_len(t@, '\n');
        }
        assert(pieces.drop_last().push(pieces.last()) =~= pieces);
        if cur.unicode_len() > 0 {
            let rec = Self::record(name, &cur);
            let ghost before = out@;
            out.push(rec);
            assert(views(out@) =~= views(before).push(rec@));
        }
        out
    }

    /// Buffers the bytes; once the buffer reaches its size, flushes it and
    /// returns the log records. The whole of `buf` is always taken.
    pub fn write(&mut self, buf: &[u8]) -> (r: Result<Vec<String>, StdioError>)
        ensures
            final(self).name() == old(self).name(),
            final(self).prefix() == old(self).prefix(),
            final(self).max_size() == old(self).max_size(),
            ({
                let all = old(self).buffered() + buf@;
                if all.len() < old(self).max_size() || all.len() == 0 {
                    (r matches Ok(v) && v@.len() == 0) && final(self).buffered() == all
                } else if !valid_utf8(all) {
                    (r matches Err(e) && e is InvalidData) && final(self).buffered() == all
                } else {
                    (r matches Ok(v) && views(v@) == flushed(
                        old(self).name(),
                        old(self).prefix(),
                        decode_utf8(all),
                    )) && final(self).buffered() == Seq::<u8>::empty()
                }
            }),
    {
        append_bytes(&mut self._buffer, buf);
        if self._buffer.len() >= self._buf_max_size {
            self.flush_inner()
        } else {
            Ok(Vec::new())
        }
    }
}

/// The state of standard input: bytes received and not yet read, whether the
/// body has ended, why receiving failed if it did, and, for the proofs, every
/// byte received and every byte read.
pub struct StdinView {
    pub residual: Seq<u8>,
    pub eof: bool,
    pub failure: Option<Seq<char>>,
    pub received: Seq<u8>,
    pub delivered: Seq<u8>,
}

/// One event on standard input.
pub enum StdinStep {
    /// A chunk of the body arrived.
    Chunk(Seq<u8>),
    /// The body ended.
    Close,
    /// Receiving failed, for this reason.
    Fail(Seq<char>),
    /// A reader took up to this many bytes.
    Take(nat),
}

impl StdinView {
    pub open spec fn wf(self) -> bool {
        self.delivered + self.residual == self.received
    }

    pub open spec fn fresh() -> StdinView {
        StdinView {
            residual: Seq::empty(),
            eof: false,
            failure: None,
            received: Seq::empty(),
            delivered: Seq::empty(),
        }
    }

    /// Whether the next poll waits for a chunk.
    pub open spec fn wants_chunk(self) -> bool {
        !self.eof && self.failure is None && self.residual.len() == 0
    }

    /// What arrives from the body channel, as a step.
    pub open spec fn arrival(got: Option<Result<Seq<u8>, Seq<char>>>) -> StdinStep {
        match got {
            Some(Ok(c)) => StdinStep::Chunk(c),
            Some(Err(m)) => StdinStep::Fail(m),
            None => StdinStep::Close,
        }
    }

    pub open spec fn taken(self, max: nat) -> nat {
        if self.residual.len() < max {
            self.residual.len()
        } else {
            max
        }
    }

    pub open spec fn step(self, s: StdinStep) -> StdinView {
        match s {
            StdinStep::Chunk(c) => if self.wants_chunk() {
                StdinView { residual: c, received: self.received + c, ..self }
            } else {
                self
            },
            StdinStep::Close => if self.wants_chunk() {
                StdinView { eof: true, ..self }
            } else {
                self
            },
            StdinStep::Fail(m) => if self.wants_chunk() {
                StdinView { failure: Some(m), ..self }
            } else {
                self
            },
            StdinStep::Take(n) => StdinView {
                residual: self.residual.subrange(self.taken(n) as int, self.residual.len() as int),
                delivered: self.delivered + self.residual.subrange(0, self.taken(n) as int),
                ..self
            },
        }
    }
}

/// The chunks among `steps`, joined.
pub open spec fn chunks_of(steps: Seq<StdinStep>) -> Seq<u8>
    decreases steps.len(),
{
    if steps.len() == 0 {
        Seq::empty()
    } else {
        chunks_of(steps.drop_last()) + match steps.last() {
            StdinStep::Chunk(c) => c,
            _ => Seq::empty(),
        }
    }
}

pub open spec fn run_stdin(v: StdinView, steps: Seq<StdinStep>) -> StdinView
    decreases steps.len(),
{
    if steps.len() == 0 {
        v
    } else {
        run_stdin(v, steps.drop_last()).step(steps.last())
    }
}

/// Each chunk of `steps` arrives while standard input waits for one.
pub open spec fn chunks_awaited(v: StdinView, steps: Seq<StdinStep>) -> bool
    decreases steps.len(),
{
    steps.len() == 0 || (chunks_awaited(v, steps.drop_last()) && (steps.last() is Chunk
        ==> run_stdin(v, steps.drop_last()).wants_chunk()))
}

/// What standard input has received is the chunks sent to it, joined; what
/// has been read and what waits to be read make up exactly that; so once the
/// body has ended and nothing waits, the bytes read are the chunks, joined.
pub proof fn lemma_stdin_round_trip(steps: Seq<StdinStep>)
    requires
        chunks_awaited(StdinView::fresh(), steps),
    ensures
        run_stdin(StdinView::fresh(), steps).wf(),
        run_stdin(StdinView::fresh(), steps).received == chunks_of(steps),
        run_stdin(StdinView::fresh(), steps).eof && run_stdin(
            StdinView::fresh(),
            steps,
        ).residual.len() == 0 ==> run_stdin(StdinView::fresh(), steps).delivered == chunks_of(
            steps,
        ),
    decreases steps.len(),
{
    if steps.len() > 0 {
        let prev = run_stdin(StdinView::fresh(), steps.drop_last());
        lemma_stdin_round_trip(steps.drop_last());
        match steps.last() {
            StdinStep::Take(n) => {
                let k = prev.taken(n) as int;
                assert(prev.residual.subrange(0, k) + prev.residual.subrange(k, prev.residual.len() as int)
                    =~= prev.residual);
                assert(prev.delivered + prev.residual.subrange(0, k) + prev.residual.subrange(
                    k,
                    prev.residual.len() as int,
                ) =~= prev.delivered + prev.residual);
            },
            StdinStep::Chunk(c) => {
                assert(prev.residual =~= Seq::<u8>::empty());
                assert(prev.delivered + c =~= prev.received + c);
            },
            _ => {
                assert(chunks_of(steps) =~= chunks_of(steps.drop_last()));
            },
        }
        if steps.last() is Take {
            assert(chunks_of(steps) =~= chunks_of(steps.drop_last()));
        }
    }
    assert(run_stdin(StdinView::fresh(), steps).residual.len() == 0 ==> run_stdin(
        StdinView::fresh(),
        steps,
    ).residual =~= Seq::<u8>::empty());
}

/// The guest's standard input, fed with the chunks of the request body.
pub struct Stdin {
    _buffer: Vec<u8>,
    _offset: usize,
    _is_eof: bool,
    _failure: Option<String>,
    _received: Ghost<Seq<u8>>,
    _delivered: Ghost<Seq<u8>>,
}

impl View for Stdin {
    type V = StdinView;

    closed spec fn view(&self) -> StdinView {
        StdinView {
            residual: self._buffer@.subrange(self._offset as int, self._buffer@.len() as int),
            eof: self._is_eof,
            failure: match self._failure {
                Some(m) => Some(m@),
                None => None,
            },
            received: self._received@,
            delivered: self._delivered@,
        }
    }
}

impl Stdin {
    pub closed spec fn wf(&self) -> bool {
        self._offset <= self._buffer@.len() && self@.wf()
    }

    pub fn new() -> (r: Stdin)
        ensures
            r@ == StdinView::fresh(),
            r.wf(),
    {
        let r = Stdin {
            _buffer: Vec::new(),
            _offset: 0,
            _is_eof: false,
            _failure: None,
            _received: Ghost(Seq::empty()),
            _delivered: Ghost(Seq::empty()),
        };
        assert(r@.residual =~= Seq::<u8>::empty());
        r
    }

    /// The bytes received and not yet read; never waits.
    pub fn bytes_available(&self) -> (r: usize)
        requires
            self.wf(),
        ensures
            r == self@.residual.len(),
    {
        self._buffer.len() - self._offset
    }

    /// Whether receiving the body failed.
    pub fn has_failed(&self) -> (r: bool)
        ensures
            r == self@.failure is Some,
    {
        self._failure.is_some()
    }

    /// Whether the body has ended.
    pub fn is_eof(&self) -> (r: bool)
        ensures
            r == self@.eof,
    {
        self._is_eof
    }

    /// Takes what the body channel gave while standard input waited for it:
    /// a chunk makes bytes ready (`Ok(true)`), the end of the body gives
    /// `Ok(false)`, a failure gives its reason, now and on every later poll.
    pub fn accept_chunk(&mut self, got: Option<Result<Vec<u8>, String>>) -> (r: Result<bool, StdioError>)
        requires
            old(self).wf(),
            old(self)@.wants_chunk(),
        ensures
            final(self).wf(),
            match got {
                Some(Ok(c)) => final(self)@ == old(self)@.step(StdinStep::Chunk(c@)) && (r matches Ok(
                    true,
                )),
                None => final(self)@ == old(self)@.step(StdinStep::Close) && (r matches Ok(false)),
                Some(Err(m)) => final(self)@ == old(self)@.step(StdinStep::Fail(m@)) && (r matches Err(
                    StdioError::Transport(t),
                ) && t@ == m@),
            },
    {
        match got {
            Some(Ok(chunk)) => {
                let ghost c = chunk@;
                self._received = Ghost(self._received@ + c);
                self._buffer = chunk;
                self._offset = 0;
                assert(self._buffer@.subrange(0, self._buffer@.len() as int) =~= c);
                assert(self@ == old(self)@.step(StdinStep::Chunk(c)));
                Ok(true)
            },
            Some(Err(e)) => {
                self._failure = Some(e.clone());
                Err(StdioError::Transport(e))
            },
            None => {
                self._is_eof = true;
                Ok(false)
            },
        }
    }

    /// Makes bytes ready to read if it can: `Ok(true)` when some may be read,
    /// `Ok(false)` at the end of the body, the failure once receiving failed.
    /// Only when it waits for a chunk does it call `recv` (`None` once the
    /// body ended), and then it hands the result to `accept_chunk`.
    pub fn poll_data<F: FnOnce() -> Option<Result<Vec<u8>, String>>>(&mut self, recv: F) -> (r: Result<bool, StdioError>)
        requires
            old(self).wf(),
            recv.requires(()),
        ensures
            final(self).wf(),
            old(self)@.failure matches Some(m) ==> (r matches Err(StdioError::Transport(t)) && t@ == m)
                && final(self)@ == old(self)@,
            old(self)@.failure is None && old(self)@.eof ==> (r matches Ok(false)) && final(self)@
                == old(self)@,
            old(self)@.failure is None && !old(self)@.eof && old(self)@.residual.len() > 0 ==> (r
                matches Ok(true)) && final(self)@ == old(self)@,
            old(self)@.wants_chunk() ==> exists|got: Option<Result<Seq<u8>, Seq<char>>>|
                final(self)@ == old(self)@.step(#[trigger] StdinView::arrival(got)) && match got {
                    Some(Ok(_)) => r matches Ok(true),
                    None => r matches Ok(false),
                    Some(Err(m)) => r matches Err(StdioError::Transport(t)) && t@ == m,
                },
    {
        match &self._failure {
            Some(m) => return Err(StdioError::Transport(m.clone())),
            None => {},
        }
        if self._is_eof {
            return Ok(false);
        }
        if self._offset < self._buffer.len() {
            return Ok(true);
        }
        let got = recv();
        let ghost g: Option<Result<Seq<u8>, Seq<char>>> = match &got {
            Some(Ok(c)) => Some(Ok(c@)),
            Some(Err(m)) => Some(Err(m@)),
            None => None,
        };
        let r = self.accept_chunk(got);
        assert(StdinView::arrival(g) == match g {
            Some(Ok(c)) => StdinStep::Chunk(c),
            Some(Err(m)) => StdinStep::Fail(m),
            None => StdinStep::Close,
        });
        r
    }

    /// Reads up to `max` of the bytes that wait to be read.
    pub fn take(&mut self, max: usize) -> (r: Vec<u8>)
        requires
            old(self).wf(),
        ensures
            final(self).wf(),
            final(self)@ == old(self)@.step(StdinStep::Take(max as nat)),
            r@ == old(self)@.residual.subrange(0, old(self)@.taken(max as nat) as int),
    {
        let len = self._buffer.len();
        let avail = len - self._offset;
        let n = if avail < max {
            avail
        } else {
            max
        };
        let ghost res = self@.residual;
        let mut out: Vec<u8> = Vec::new();
        let mut i: usize = 0;
        while i < n
            invariant
                i <= n,
                n <= avail,
                len == self._buffer@.len(),
                self._offset + avail == len,
                self._offset <= self._buffer@.len(),
                res == self._buffer@.subrange(self._offset as int, self._buffer@.len() as int),
                out@ == res.subrange(0, i as int),
            decreases n - i,
        {
            out.push(self._buffer[self._offset + i]);
            assert(res.subrange(0, i + 1) =~= res.subrange(0, i as int).push(res[i as int]));
            i = i + 1;
        }
        self._delivered = Ghost(self._delivered@ + out@);
        self._offset = self._offset + n;
        assert(self@.residual =~= res.subrange(n as int, res.len() as int));
        assert(self@.delivered + self@.residual =~= old(self)@.delivered + res);
        out
    }
}

} // verus!
