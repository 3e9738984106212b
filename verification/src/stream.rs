//! Seekable byte-source over a forward-only ranged HTTP connection.
//!
//! `StreamSource` models the reader half of the adapter: a current,
//! partially consumed chunk, a bounded queue of prefetched chunks, an
//! optional known total length and an end-of-stream flag.  All decisions
//! (what a read returns, which seeks stay local and which ones force a
//! fresh range request) are made here; the surrounding I/O loop performs
//! the network actions this module asks for and feeds the results back in
//! through `connection_opened`, `accept_chunk`, `note_end` and
//! `note_failure`.

use vstd::prelude::*;
use crate::text::all_dec_digits;
use crate::text::dec_val;
use crate::text::find_char_from;
use crate::text::lemma_find_upto;
use crate::text::parse_u64;
use crate::text::trim_spec;
use crate::text::trim_text;
use crate::text::upto_char;

verus! {

/// Capacity of the bounded prefetch queue between the background fetcher
/// and the reader; bounds buffered-but-unconsumed chunks regardless of how
/// slowly the consumer reads.
pub const PREFETCH_CAPACITY: usize = 5;

/// Errors a stream operation can report.
#[derive(Clone, Copy, Debug, PartialEq, Eq, Structural)]
pub enum StreamError {
    /// Seek before the start of the stream or past the known total length.
    InvalidSeekTarget,
    /// A seek relative to the end was asked for while the total length is
    /// still unknown.
    LengthUnknown,
    /// The connection went away without ever delivering an end-of-stream
    /// marker.
    UnexpectedEof,
    /// Advancing the logical position would overflow its representation.
    PositionOverflow,
    /// The background fetcher reported a fatal transfer error.
    Failed,
}

/// What the caller must do to open the stream at an offset.
#[derive(Clone, Copy, Debug, PartialEq, Eq, Structural)]
pub enum OpenAction {
    /// The offset equals the known total length: the source is already in
    /// its virtual at-end state and no request is needed.
    AlreadyAtEnd,
    /// Issue a range request starting at this offset, then report the
    /// outcome through `connection_opened`.
    Request(u64),
}

/// How a seek was satisfied.
#[derive(Clone, Copy, Debug, PartialEq, Eq, Structural)]
pub enum SeekEffect {
    /// Satisfied locally (in-buffer move or virtual end position); the new
    /// logical position is returned.  No network action is required.
    Done(u64),
    /// The target lies outside the buffered window: all buffered data has
    /// been discarded and the caller must reopen at this offset.
    Reopen(u64),
}

/// A seek target, mirroring the usual start/current/end addressing.
#[derive(Clone, Copy, Debug, PartialEq, Eq, Structural)]
pub enum SeekTarget {
    Start(u64),
    Current(i64),
    End(i64),
}

/// Outcome of a read step.
#[derive(Debug)]
pub enum ReadOutcome {
    /// The next bytes of the stream, in order; never empty.
    Bytes(Vec<u8>),
    /// Genuine end of stream: the position has reached the end and no
    /// buffered bytes remain.
    End,
    /// No bytes are buffered yet but the connection is alive; the caller
    /// should wait for the fetcher to deliver more and retry.
    Pending,
}

/// Mathematical model of a `StreamSource`.
#[verifier::ext_equal]
pub ghost struct StreamModel {
    /// Logical read position in the resource, in bytes.
    pub position: u64,
    /// The chunk currently being consumed.
    pub buffer: Seq<u8>,
    /// How much of `buffer` has already been consumed.
    pub buffer_pos: int,
    /// Fetched but not yet consumed chunks, oldest first.
    pub chunks: Seq<Seq<u8>>,
    /// An end-of-stream marker has been received (or the position was
    /// placed at the known end).
    pub eof: bool,
    /// A connection and its fetcher are attached.
    pub live: bool,
    /// The fetcher reported a fatal error.
    pub failed: bool,
    /// Total length of the resource, once known.
    pub total: Option<u64>,
}

/// Spec-level outcome of a read step.
pub ghost enum ReadModel {
    Bytes(Seq<u8>),
    End,
    Pending,
    Fail(StreamError),
}

/// Spec-level outcome of a seek step.
pub ghost enum SeekModel {
    Done(u64),
    Reopen(u64),
    Fail(StreamError),
}

impl StreamModel {
    /// First byte offset covered by the current chunk.
    pub open spec fn window_start(self) -> int {
        self.position - self.buffer_pos
    }

    /// One past the last byte offset covered by the current chunk.
    pub open spec fn window_end(self) -> int {
        self.window_start() + self.buffer.len()
    }

    /// Bytes of the current chunk not yet consumed.
    pub open spec fn tail(self) -> Seq<u8> {
        self.buffer.skip(self.buffer_pos)
    }

    /// Structural well-formedness: the cursor stays inside the chunk, the
    /// window does not start before offset zero, the prefetch queue honours
    /// its bound and holds no empty chunks.
    pub open spec fn wf(self) -> bool {
        &&& 0 <= self.buffer_pos <= self.buffer.len()
        &&& self.buffer_pos <= self.position
        &&& self.chunks.len() <= PREFETCH_CAPACITY
        &&& forall|i: int| 0 <= i < self.chunks.len() ==> #[trigger] self.chunks[i].len() > 0
    }

    /// The virtual at-end state: position at the known total, nothing
    /// buffered, end-of-stream marked.
    pub open spec fn at_end(self) -> bool {
        &&& self.total == Some(self.position)
        &&& self.eof
        &&& self.tail().len() == 0
        &&& self.chunks.len() == 0
    }

    /// The state after placing the source at its known end.
    pub open spec fn end_state(self, position: u64) -> StreamModel {
        StreamModel {
            position,
            buffer: Seq::empty(),
            buffer_pos: 0,
            chunks: Seq::empty(),
            eof: true,
            live: false,
            ..self
        }
    }

    /// The state after discarding everything for a cold reopen at `position`.
    pub open spec fn cold_state(self, position: u64) -> StreamModel {
        StreamModel {
            position,
            buffer: Seq::empty(),
            buffer_pos: 0,
            chunks: Seq::empty(),
            eof: false,
            live: false,
            failed: false,
            ..self
        }
    }

    /// One read step: result and successor state.
    ///
    /// Bytes are served from the current chunk first, then from the oldest
    /// prefetched chunk; a read never crosses a chunk boundary.  Zero bytes
    /// (`End`) are reported only when end-of-stream was marked and nothing
    /// is buffered.
    pub open spec fn read_step(self, max: int) -> (ReadModel, StreamModel) {
        if self.tail().len() > 0 {
            let n = if max < self.tail().len() { max } else { self.tail().len() as int };
            if self.position + n > u64::MAX {
                (ReadModel::Fail(StreamError::PositionOverflow), self)
            } else {
                (
                    ReadModel::Bytes(self.tail().take(n)),
                    StreamModel {
                        position: (self.position + n) as u64,
                        buffer_pos: self.buffer_pos + n,
                        ..self
                    },
                )
            }
        } else if self.chunks.len() > 0 {
            let c = self.chunks[0];
            let n = if max < c.len() { max } else { c.len() as int };
            if self.position + n > u64::MAX {
                (ReadModel::Fail(StreamError::PositionOverflow), self)
            } else {
                (
                    ReadModel::Bytes(c.take(n)),
                    StreamModel {
                        position: (self.position + n) as u64,
                        buffer: c,
                        buffer_pos: n,
                        chunks: self.chunks.drop_first(),
                        ..self
                    },
                )
            }
        } else if self.eof {
            (ReadModel::End, self)
        } else if self.failed {
            (ReadModel::Fail(StreamError::Failed), self)
        } else if self.live {
            (ReadModel::Pending, self)
        } else {
            (ReadModel::Fail(StreamError::UnexpectedEof), self)
        }
    }

    /// The absolute offset a seek target resolves to, or `None` when it is
    /// relative to a still unknown end.
    pub open spec fn resolve_target(self, target: SeekTarget) -> Option<int> {
        match target {
            SeekTarget::Start(offset) => Some(offset as int),
            SeekTarget::Current(delta) => Some(self.position + delta),
            SeekTarget::End(delta) => match self.total {
                Some(total) => Some(total + delta),
                None => None,
            },
        }
    }

    /// One seek step: effect and successor state.
    ///
    /// In priority order: a seek to the known total length places the
    /// source at its virtual end without any request; a target inside the
    /// buffered window only moves the cursor; anything else discards all
    /// buffered data and asks for a fresh range request at the target.
    pub open spec fn seek_step(self, target: SeekTarget) -> (SeekModel, StreamModel) {
        match self.resolve_target(target) {
            None => (SeekModel::Fail(StreamError::LengthUnknown), self),
            Some(t) => {
                if t < 0 || t > u64::MAX {
                    (SeekModel::Fail(StreamError::InvalidSeekTarget), self)
                } else if self.total is Some && t > self.total->0 {
                    (SeekModel::Fail(StreamError::InvalidSeekTarget), self)
                } else if self.total == Some(t as u64) {
                    (SeekModel::Done(t as u64), self.end_state(t as u64))
                } else if self.buffer.len() > 0 && self.window_start() <= t < self.window_end() {
                    (
                        SeekModel::Done(t as u64),
                        StreamModel {
                            position: t as u64,
                            buffer_pos: t - self.window_start(),
                            ..self
                        },
                    )
                } else {
                    (SeekModel::Reopen(t as u64), self.cold_state(t as u64))
                }
            },
        }
    }

    /// One chunk offer from the fetcher: whether it was taken and the
    /// successor state.  An offer is refused exactly when the queue is at
    /// capacity (backpressure); empty chunks and chunks arriving after the
    /// connection was detached are dropped without effect.
    pub open spec fn accept_step(self, chunk: Seq<u8>) -> (bool, StreamModel) {
        if !self.live || chunk.len() == 0 {
            (true, self)
        } else if self.chunks.len() >= PREFETCH_CAPACITY {
            (false, self)
        } else {
            (true, StreamModel { chunks: self.chunks.push(chunk), ..self })
        }
    }
}

/// Relates an executable read result to its spec-level outcome.
pub open spec fn matches_read_model(r: Result<ReadOutcome, StreamError>, m: ReadModel) -> bool {
    match (r, m) {
        (Ok(ReadOutcome::Bytes(b)), ReadModel::Bytes(s)) => b@ == s,
        (Ok(ReadOutcome::End), ReadModel::End) => true,
        (Ok(ReadOutcome::Pending), ReadModel::Pending) => true,
        (Err(e), ReadModel::Fail(f)) => e == f,
        _ => false,
    }
}

/// Relates an executable seek result to its spec-level outcome.
pub open spec fn matches_seek_model(r: Result<SeekEffect, StreamError>, m: SeekModel) -> bool {
    match (r, m) {
        (Ok(SeekEffect::Done(p)), SeekModel::Done(q)) => p == q,
        (Ok(SeekEffect::Reopen(p)), SeekModel::Reopen(q)) => p == q,
        (Err(e), SeekModel::Fail(f)) => e == f,
        _ => false,
    }
}

/// The reader half of the byte-source adapter.
pub struct StreamSource {
    /// Logical read position in the resource, in bytes.
    pub position: u64,
    /// The chunk currently being consumed.
    pub buffer: Vec<u8>,
    /// How much of `buffer` has already been consumed.
    pub buffer_pos: usize,
    /// Fetched but not yet consumed chunks, oldest first.
    pub prefetch: Vec<Vec<u8>>,
    /// End-of-stream marker received or the position sits at the known end.
    pub eof: bool,
    /// A connection and its fetcher are attached.
    pub live: bool,
    /// The fetcher reported a fatal error.
    pub failed: bool,
    /// Total length of the resource, once known.
    pub total_length: Option<u64>,
}

impl View for StreamSource {
    type V = StreamModel;

    open spec fn view(&self) -> StreamModel {
        StreamModel {
            position: self.position,
            buffer: self.buffer@,
            buffer_pos: self.buffer_pos as int,
            chunks: self.prefetch@.map_values(|c: Vec<u8>| c@),
            eof: self.eof,
            live: self.live,
            failed: self.failed,
            total: self.total_length,
        }
    }
}

impl StreamSource {
    /// A fresh, unopened source.
    pub fn new() -> (s: Self)
        ensures
            s@.wf(),
            s@.position == 0,
            s@.tail().len() == 0,
            s@.chunks.len() == 0,
            !s@.eof,
            !s@.live,
            !s@.failed,
            s@.total is None,
    {
        let s = StreamSource {
            position: 0,
            buffer: Vec::new(),
            buffer_pos: 0,
            prefetch: Vec::new(),
            eof: false,
            live: false,
            failed: false,
            total_length: None,
        };
        proof {
            assert(s@.chunks =~= Seq::<Seq<u8>>::empty());
        }
        s
    }

    /// Decide how to open the stream at `offset`.
    ///
    /// If the total length is known, opening past it is an error and
    /// opening exactly at it places the source in its virtual at-end state
    /// without any request; otherwise the caller must issue a range
    /// request at `offset`.
    pub fn open_request(&mut self, offset: u64) -> (r: Result<OpenAction, StreamError>)
        requires
            old(self)@.wf(),
        ensures
            final(self)@.wf(),
            match r {
                Ok(OpenAction::AlreadyAtEnd) => old(self)@.total == Some(offset)
                    && final(self)@ == old(self)@.end_state(offset),
                Ok(OpenAction::Request(o)) => o == offset && final(self)@ == old(self)@
                    && (old(self)@.total is Some ==> offset < old(self)@.total->0),
                Err(e) => e == StreamError::InvalidSeekTarget && final(self)@ == old(self)@
                    && old(self)@.total is Some && offset > old(self)@.total->0,
            },
    {
        if let Some(total) = self.total_length {
            if offset > total {
                return Err(StreamError::InvalidSeekTarget);
            }
            if offset == total {
                self.position = offset;
                self.eof = true;
                self.live = false;
                self.buffer = Vec::new();
                self.buffer_pos = 0;
                self.prefetch = Vec::new();
                proof {
                    assert(self@.chunks =~= Seq::<Seq<u8>>::empty());
                    assert(self@ =~~= old(self)@.end_state(offset));
                }
                return Ok(OpenAction::AlreadyAtEnd);
            }
        }
        Ok(OpenAction::Request(offset))
    }

    /// Record that a range request starting at `offset` was answered with
    /// a success status.  `header_total` is the total length reported by
    /// the response headers, if any; it completes a still unknown or zero
    /// total length but never overrides a known one.
    pub fn connection_opened(&mut self, offset: u64, header_total: Option<u64>)
        requires
            old(self)@.wf(),
        ensures
            final(self)@.wf(),
            final(self)@.position == offset,
            final(self)@.tail().len() == 0,
            final(self)@.buffer.len() == 0,
            final(self)@.chunks.len() == 0,
            !final(self)@.eof,
            final(self)@.live,
            !final(self)@.failed,
            final(self)@.total == match (header_total, old(self)@.total) {
                (Some(t), None) => Some(t),
                (Some(t), Some(0u64)) => Some(t),
                (_, prior) => prior,
            },
    {
        if let Some(t) = header_total {
            if self.total_length.is_none() || self.total_length == Some(0u64) {
                self.total_length = Some(t);
            }
        }
        self.position = offset;
        self.buffer = Vec::new();
        self.buffer_pos = 0;
        self.prefetch = Vec::new();
        self.eof = false;
        self.live = true;
        self.failed = false;
        proof {
            assert(self@.chunks =~= Seq::<Seq<u8>>::empty());
        }
    }

    /// Offer one chunk delivered by the fetcher.  Returns false exactly
    /// when the prefetch queue is full; the producer must then suspend and
    /// offer the same chunk again after a read drained the queue.
    pub fn accept_chunk(&mut self, chunk: Vec<u8>) -> (accepted: bool)
        requires
            old(self)@.wf(),
        ensures
            final(self)@.wf(),
            (accepted, final(self)@) == old(self)@.accept_step(chunk@),
    {
        let ghost prior = self@;
        if !self.live || chunk.len() == 0 {
            return true;
        }
        if self.prefetch.len() >= PREFETCH_CAPACITY {
            return false;
        }
        self.prefetch.push(chunk);
        proof {
            assert(self@.chunks =~= prior.chunks.push(chunk@));
            assert(self@ =~~= prior.accept_step(chunk@).1);
        }
        true
    }

    /// Record a clean end-of-stream marker; chunks already queued remain
    /// readable.
    pub fn note_end(&mut self)
        requires
            old(self)@.wf(),
        ensures
            final(self)@.wf(),
            final(self)@ == (StreamModel { eof: true, live: false, ..old(self)@ }),
    {
        self.eof = true;
        self.live = false;
    }

    /// Record a fatal transfer error reported by the fetcher.
    pub fn note_failure(&mut self)
        requires
            old(self)@.wf(),
        ensures
            final(self)@.wf(),
            final(self)@ == (StreamModel { failed: true, live: false, ..old(self)@ }),
    {
        self.failed = true;
        self.live = false;
    }

    /// Read up to `max` bytes.  Serves buffered bytes first; reports `End`
    /// (zero bytes) only at genuine end of stream, and `Pending` when the
    /// caller must wait for the fetcher.
    pub fn read(&mut self, max: usize) -> (r: Result<ReadOutcome, StreamError>)
        requires
            old(self)@.wf(),
            max > 0,
        ensures
            final(self)@.wf(),
            final(self)@ == old(self)@.read_step(max as int).1,
            matches_read_model(r, old(self)@.read_step(max as int).0),
    {
        let ghost prior = self@;
        if self.buffer_pos >= self.buffer.len() {
            if self.prefetch.len() > 0 {
                let piece_len = self.prefetch[0].len();
                let n = if max < piece_len { max } else { piece_len };
                if self.position.checked_add(n as u64).is_none() {
                    return Err(StreamError::PositionOverflow);
                }
                let c = self.prefetch.remove(0);
                let mut out: Vec<u8> = Vec::new();
                let mut i: usize = 0;
                while i < n
                    invariant
                        i <= n,
                        n <= c@.len(),
                        out@ =~= c@.take(i as int),
                    decreases n - i,
                {
                    out.push(c[i]);
                    i = i + 1;
                    proof {
                        assert(out@ =~= c@.take(i as int));
                    }
                }
                self.position = self.position + n as u64;
                self.buffer = c;
                self.buffer_pos = n;
                proof {
                    assert(self@.chunks =~= prior.chunks.drop_first());
                    assert(self@ =~~= prior.read_step(max as int).1);
                }
                Ok(ReadOutcome::Bytes(out))
            } else if self.eof {
                Ok(ReadOutcome::End)
            } else if self.failed {
                Err(StreamError::Failed)
            } else if self.live {
                Ok(ReadOutcome::Pending)
            } else {
                Err(StreamError::UnexpectedEof)
            }
        } else {
            let buffer_len = self.buffer.len();
            let available = buffer_len - self.buffer_pos;
            let n = if max < available { max } else { available };
            if self.position.checked_add(n as u64).is_none() {
                return Err(StreamError::PositionOverflow);
            }
            let mut out: Vec<u8> = Vec::new();
            let mut i: usize = 0;
            while i < n
                invariant
                    i <= n,
                    self.buffer@.len() == buffer_len,
                    self.buffer_pos + n <= buffer_len,
                    out@ =~= self.buffer@.subrange(
                        self.buffer_pos as int,
                        self.buffer_pos + i,
                    ),
                decreases n - i,
            {
                out.push(self.buffer[self.buffer_pos + i]);
                i = i + 1;
                proof {
                    assert(out@ =~= self.buffer@.subrange(
                        self.buffer_pos as int,
                        self.buffer_pos + i,
                    ));
                }
            }
            self.position = self.position + n as u64;
            self.buffer_pos = self.buffer_pos + n;
            proof {
                assert(out@ =~= prior.tail().take(n as int));
                assert(self@ =~~= prior.read_step(max as int).1);
            }
            Ok(ReadOutcome::Bytes(out))
        }
    }

    /// Seek to `target`.  A seek to the known total length parks the
    /// source at its virtual end; a target inside the buffered window only
    /// moves the cursor; any other target discards all buffered data and
    /// asks the caller to reopen at the returned offset.
    pub fn seek(&mut self, target: SeekTarget) -> (r: Result<SeekEffect, StreamError>)
        requires
            old(self)@.wf(),
        ensures
            final(self)@.wf(),
            final(self)@ == old(self)@.seek_step(target).1,
            matches_seek_model(r, old(self)@.seek_step(target).0),
    {
        let ghost prior = self@;
        let t: i128 = match target {
            SeekTarget::Start(offset) => offset as i128,
            SeekTarget::Current(delta) => self.position as i128 + delta as i128,
            SeekTarget::End(delta) => {
                match self.total_length {
                    Some(total) => total as i128 + delta as i128,
                    None => {
                        return Err(StreamError::LengthUnknown);
                    },
                }
            },
        };
        if t < 0 || t > u64::MAX as i128 {
            return Err(StreamError::InvalidSeekTarget);
        }
        let t = t as u64;
        if let Some(total) = self.total_length {
            if t > total {
                return Err(StreamError::InvalidSeekTarget);
            }
            if t == total {
                self.position = t;
                self.eof = true;
                self.live = false;
                self.buffer = Vec::new();
                self.buffer_pos = 0;
                self.prefetch = Vec::new();
                proof {
                    assert(self@.chunks =~= Seq::<Seq<u8>>::empty());
                    assert(self@ =~~= prior.seek_step(target).1);
                }
                return Ok(SeekEffect::Done(t));
            }
        }
        if self.buffer.len() > 0 {
            let window_start = self.position - self.buffer_pos as u64;
            if t >= window_start && t - window_start < self.buffer.len() as u64 {
                self.buffer_pos = (t - window_start) as usize;
                self.position = t;
                proof {
                    assert(self@ =~~= prior.seek_step(target).1);
                }
                return Ok(SeekEffect::Done(t));
            }
        }
        self.position = t;
        self.buffer = Vec::new();
        self.buffer_pos = 0;
        self.prefetch = Vec::new();
        self.eof = false;
        self.live = false;
        self.failed = false;
        proof {
            assert(self@.chunks =~= Seq::<Seq<u8>>::empty());
            assert(self@ =~~= prior.seek_step(target).1);
        }
        Ok(SeekEffect::Reopen(t))
    }
}

impl StreamSource {
    /// First byte offset covered by the current chunk.
    pub fn buffer_start(&self) -> (r: u64)
        requires
            self@.wf(),
        ensures
            r == self@.window_start(),
    {
        self.position - self.buffer_pos as u64
    }

    /// Record a probed total length; a length already known is kept.
    pub fn record_probed_length(&mut self, total: Option<u64>)
        requires
            old(self)@.wf(),
        ensures
            final(self)@.wf(),
            final(self)@ == (StreamModel {
                total: if old(self)@.total is None && total is Some {
                    total
                } else {
                    old(self)@.total
                },
                ..old(self)@
            }),
    {
        if self.total_length.is_none() {
            if let Some(t) = total {
                self.total_length = Some(t);
            }
        }
    }
}

/// The total length carried by a content-range header value of the form
/// `bytes <start>-<end>/<total>`: the digits after the single slash,
/// surrounding whitespace ignored.
pub open spec fn content_range_total(h: Seq<char>) -> Option<u64> {
    let slash = upto_char(h, '/') as int;
    if slash >= h.len() {
        None
    } else {
        let rest = h.skip(slash + 1);
        if upto_char(rest, '/') < rest.len() {
            None
        } else {
            let t = trim_spec(rest);
            if t.len() > 0 && all_dec_digits(t) && dec_val(t) <= u64::MAX {
                Some(dec_val(t) as u64)
            } else {
                None
            }
        }
    }
}

/// Parse the total length out of a content-range header value.
pub fn parse_content_range(header: &str) -> (r: Option<u64>)
    ensures
        r == content_range_total(header@),
{
    let len = header.unicode_len();
    let slash = match find_char_from(header, '/', 0) {
        Some(i) => i,
        None => {
            proof {
                lemma_find_upto(header@.skip(0), '/');
                assert(header@.skip(0) =~= header@);
            }
            return None;
        },
    };
    proof {
        lemma_find_upto(header@.skip(0), '/');
        assert(header@.skip(0) =~= header@);
    }
    let rest = header.substring_char(slash + 1, len);
    proof {
        assert(rest@ =~= header@.skip(slash + 1));
        lemma_find_upto(rest@, '/');
    }
    match find_char_from(rest, '/', 0) {
        Some(_) => {
            proof {
                assert(rest@.skip(0) =~= rest@);
            }
            return None;
        },
        None => {
            proof {
                assert(rest@.skip(0) =~= rest@);
            }
        },
    }
    parse_u64(trim_text(rest))
}

/// The total length a range response reports: the content-range total
/// when the header carries one, else the plain content length.
pub fn total_length_from_headers(content_range: Option<&str>, content_length: Option<u64>) -> (r:
    Option<u64>)
    ensures
        r == (match content_range {
            Some(h) => match content_range_total(h@) {
                Some(t) => Some(t),
                None => content_length,
            },
            None => content_length,
        }),
{
    match content_range {
        Some(h) => match parse_content_range(h) {
            Some(t) => Some(t),
            None => content_length,
        },
        None => content_length,
    }
}

/// Whether an HTTP status answers a range request acceptably: partial
/// content or any success status; anything else is a fatal open error.
pub fn acceptable_open_status(code: u16) -> (r: bool)
    ensures
        r == (code == 206 || (200 <= code < 300)),
{
    code == 206 || (200 <= code && code < 300)
}

/// What the background fetch loop must do after a transfer error.
#[derive(Clone, Copy, Debug, PartialEq, Eq, Structural)]
pub enum FetchStep {
    /// The request merely timed out: reissue a range request at this
    /// offset and carry on; the reader never sees the timeout.
    Resume(u64),
    /// Any other transfer error is fatal: report it to the reader and
    /// end the loop.
    Fail,
}

/// Tracks how far the background fetch loop has delivered, so a timed
/// out request can be resumed exactly where it left off.
pub struct FetchCursor {
    /// Offset one past the last byte handed to the reader side.
    pub offset: u64,
}

impl FetchCursor {
    /// A cursor for a transfer that started at `offset`.
    pub fn new(offset: u64) -> (c: Self)
        ensures
            c.offset == offset,
    {
        FetchCursor { offset }
    }

    /// Account for one delivered chunk.
    pub fn advance(&mut self, delivered: usize)
        ensures
            final(self).offset == (if old(self).offset + delivered > u64::MAX {
                u64::MAX
            } else {
                (old(self).offset + delivered) as u64
            }),
    {
        self.offset = self.offset.saturating_add(delivered as u64);
    }

    /// Decide how the fetch loop handles a transfer error: a timeout is
    /// resumed transparently from the current offset, anything else is
    /// fatal.
    pub fn on_fetch_error(&self, is_timeout: bool) -> (r: FetchStep)
        ensures
            r == (if is_timeout {
                FetchStep::Resume(self.offset)
            } else {
                FetchStep::Fail
            }),
    {
        if is_timeout {
            FetchStep::Resume(self.offset)
        } else {
            FetchStep::Fail
        }
    }
}

/// Estimated bytes per chunk, used only to steer prefetch depth.
pub const CHUNK_SIZE_ESTIMATE: u64 = 32768;

/// How many chunks ahead of the playback position the buffer aims.
pub const BUFFER_AHEAD_CHUNKS: u64 = 3;

/// Lowest accepted latency estimate, milliseconds.
pub const MIN_LATENCY_MS: u64 = 10;

/// Highest accepted latency estimate, milliseconds.
pub const MAX_LATENCY_MS: u64 = 500;

/// The byte offset a playback position roughly corresponds to, assuming
/// sixteen-bit stereo at 44100 Hz.
pub open spec fn estimated_byte_position(position_ms: u64) -> int {
    (position_ms * 1764) / 10
}

/// A value clamped to the `u64` range from above.
pub open spec fn sat_u64(x: int) -> u64 {
    if x > u64::MAX {
        u64::MAX
    } else {
        x as u64
    }
}

/// Steers prefetch depth from a network latency estimate and the
/// playback position the server last announced.  This only affects
/// smoothness, never what bytes are delivered.
pub struct PrefetchTuner {
    /// Estimated network latency, clamped to the accepted range.
    pub latency_ms: u64,
    /// Last announced playback position, milliseconds.
    pub last_position_ms: Option<u64>,
    /// Byte offset the buffer aims to have covered.
    pub buffer_target: u64,
}

impl PrefetchTuner {
    /// A tuner with a moderate default latency estimate and no position
    /// hint.
    pub fn new() -> (t: Self)
        ensures
            t.latency_ms == 50,
            t.last_position_ms is None,
            t.buffer_target == 0,
    {
        PrefetchTuner { latency_ms: 50, last_position_ms: None, buffer_target: 0 }
    }

    /// Record a latency estimate, clamped to the accepted range.
    pub fn update_network_latency(&mut self, latency_ms: u64)
        ensures
            *final(self) == (PrefetchTuner {
                latency_ms: if latency_ms < MIN_LATENCY_MS {
                    MIN_LATENCY_MS
                } else if latency_ms > MAX_LATENCY_MS {
                    MAX_LATENCY_MS
                } else {
                    latency_ms
                },
                ..*old(self)
            }),
    {
        self.latency_ms = if latency_ms < MIN_LATENCY_MS {
            MIN_LATENCY_MS
        } else if latency_ms > MAX_LATENCY_MS {
            MAX_LATENCY_MS
        } else {
            latency_ms
        };
    }

    /// Record the playback position the server announced and re-aim the
    /// buffer a few chunks past it.
    pub fn update_sse_position(&mut self, position_ms: u64)
        ensures
            *final(self) == (PrefetchTuner {
                last_position_ms: Some(position_ms),
                buffer_target: sat_u64(
                    estimated_byte_position(position_ms) + BUFFER_AHEAD_CHUNKS
                        * CHUNK_SIZE_ESTIMATE,
                ),
                ..*old(self)
            }),
    {
        self.last_position_ms = Some(position_ms);
        let bytes = (position_ms as u128 * 1764) / 10;
        let target = bytes + (BUFFER_AHEAD_CHUNKS * CHUNK_SIZE_ESTIMATE) as u128;
        self.buffer_target = if target > u64::MAX as u128 {
            u64::MAX
        } else {
            target as u64
        };
    }

    /// Whether the buffer has drifted more than two chunks away from
    /// where the announced position says it should be.
    pub fn needs_buffer_sync(&self, buffer_start: u64) -> (r: bool)
        ensures
            r == (match self.last_position_ms {
                Some(p) => {
                    let expected = sat_u64(estimated_byte_position(p));
                    let drift: int = if expected > buffer_start {
                        expected - buffer_start
                    } else {
                        buffer_start - expected
                    };
                    drift > 2 * CHUNK_SIZE_ESTIMATE
                },
                None => false,
            }),
    {
        match self.last_position_ms {
            Some(p) => {
                let wide = (p as u128 * 1764) / 10;
                let expected = if wide > u64::MAX as u128 {
                    u64::MAX
                } else {
                    wide as u64
                };
                let drift = if expected > buffer_start {
                    expected - buffer_start
                } else {
                    buffer_start - expected
                };
                drift > 2 * CHUNK_SIZE_ESTIMATE
            },
            None => false,
        }
    }

    /// The prefetch depth recommended for the current latency estimate:
    /// deeper buffering the slower the network looks.
    pub fn adaptive_prefetch_len(&self) -> (r: usize)
        ensures
            r == (if self.latency_ms > 200 {
                PREFETCH_CAPACITY * 2
            } else if self.latency_ms > 100 {
                PREFETCH_CAPACITY + 2
            } else {
                PREFETCH_CAPACITY as int
            }),
    {
        if self.latency_ms > 200 {
            PREFETCH_CAPACITY * 2
        } else if self.latency_ms > 100 {
            PREFETCH_CAPACITY + 2
        } else {
            PREFETCH_CAPACITY
        }
    }
}

/// Seek locality: a seek whose target lies inside the buffered window is
/// satisfied without any network action and leaves the logical position at
/// exactly the target, and a seek to the known total length is likewise
/// local.
pub proof fn lemma_seek_locality(m: StreamModel, t: u64)
    requires
        m.wf(),
        m.window_start() <= t < m.window_end() || m.total == Some(t),
        m.total is Some ==> t <= m.total->0,
    ensures
        m.seek_step(SeekTarget::Start(t)).0 == SeekModel::Done(t),
        m.seek_step(SeekTarget::Start(t)).1.position == t,
{
}

/// Cold seek: a seek whose target lies outside the buffered window (and is
/// not the known end) discards every buffered and prefetched byte and
/// requires exactly one fresh range request at the target offset.
pub proof fn lemma_cold_seek(m: StreamModel, t: u64)
    requires
        m.wf(),
        !(m.window_start() <= t < m.window_end()),
        m.total is Some ==> t < m.total->0,
    ensures
        m.seek_step(SeekTarget::Start(t)).0 == SeekModel::Reopen(t),
        m.seek_step(SeekTarget::Start(t)).1.position == t,
        m.seek_step(SeekTarget::Start(t)).1.tail().len() == 0,
        m.seek_step(SeekTarget::Start(t)).1.chunks.len() == 0,
{
}

/// End-of-stream idempotence: once the position sits at the known total
/// length with nothing buffered, every read reports zero bytes, never an
/// error, and leaves the state unchanged; and seeking back to the total
/// length from any state parks the source in exactly such a state.
pub proof fn lemma_end_of_stream_stable(m: StreamModel, max: int, total: u64)
    requires
        m.wf(),
        max > 0,
    ensures
        m.at_end() ==> m.read_step(max) == (ReadModel::End, m),
        m.total == Some(total) ==> {
            let after = m.seek_step(SeekTarget::Start(total)).1;
            &&& m.seek_step(SeekTarget::Start(total)).0 == SeekModel::Done(total)
            &&& after.at_end()
            &&& after.read_step(max) == (ReadModel::End, after)
        },
{
    if m.at_end() {
        assert(m.read_step(max) == (ReadModel::End, m));
    }
    if m.total == Some(total) {
        let after = m.seek_step(SeekTarget::Start(total)).1;
        assert(after.tail() =~= Seq::<u8>::empty());
    }
}

/// Backpressure bound: the prefetch queue never grows past its capacity;
/// an offer made while the queue is full is refused and changes nothing.
pub proof fn lemma_backpressure_bound(m: StreamModel, chunk: Seq<u8>)
    requires
        m.wf(),
    ensures
        m.accept_step(chunk).1.wf(),
        m.accept_step(chunk).1.chunks.len() <= PREFETCH_CAPACITY,
        m.live && chunk.len() > 0 && m.chunks.len() == PREFETCH_CAPACITY ==> m.accept_step(
            chunk,
        ) == (false, m),
{
}

} // verus!
