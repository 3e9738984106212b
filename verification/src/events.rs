//! Event-stream supervision: reassembling the raw byte stream into
//! discrete event blocks, parsing a block into an event name and payload,
//! and the reconnect backoff schedule.
//!
//! A block is delimited by a blank line; inside a block, `event:` names
//! the event (the last such line wins), `data:` lines accumulate and are
//! joined with newlines, and everything else — comment lines starting
//! with a colon included — is ignored.

use vstd::prelude::*;
use crate::text::find_char_from;
use crate::text::lemma_find_upto;
use crate::text::text_eq;
use crate::text::trim_spec;
use crate::text::trim_start_spec;
use crate::text::trim_start_text;
use crate::text::trim_text;
use crate::text::upto_char;

verus! {

/// Base reconnect delay, seconds.
pub const INITIAL_RECONNECT_DELAY_SECS: u64 = 1;

/// Longest reconnect delay, seconds.
pub const MAX_RECONNECT_DELAY_SECS: u64 = 30;

/// The reconnect delay after a given number of consecutive failures:
/// exponential from one second, capped at thirty.
pub open spec fn reconnect_delay_spec(failures: u32) -> u64 {
    if failures == 0 {
        1
    } else if failures == 1 {
        2
    } else if failures == 2 {
        4
    } else if failures == 3 {
        8
    } else if failures == 4 {
        16
    } else {
        30
    }
}

/// The delay before the next connection attempt, given how many
/// consecutive failures came before it.
pub fn reconnect_delay_secs(failures: u32) -> (d: u64)
    ensures
        d == reconnect_delay_spec(failures),
{
    if failures == 0 {
        1
    } else if failures == 1 {
        2
    } else if failures == 2 {
        4
    } else if failures == 3 {
        8
    } else if failures == 4 {
        16
    } else {
        30
    }
}

/// Reconnect backoff: the first five consecutive failures wait one, two,
/// four, eight and sixteen seconds; every later one waits the thirty
/// second cap; a success resets the schedule to one second.
pub proof fn lemma_reconnect_backoff()
    ensures
        reconnect_delay_spec(0) == INITIAL_RECONNECT_DELAY_SECS,
        reconnect_delay_spec(1) == 2,
        reconnect_delay_spec(2) == 4,
        reconnect_delay_spec(3) == 8,
        reconnect_delay_spec(4) == 16,
        forall|n: u32| n >= 5 ==> reconnect_delay_spec(n) == MAX_RECONNECT_DELAY_SECS,
{
}

/// Counts consecutive connection failures.
pub struct ReconnectState {
    pub failures: u32,
}

impl ReconnectState {
    /// A fresh counter: the first attempt after it waits the base delay.
    pub fn new() -> (s: Self)
        ensures
            s.failures == 0,
    {
        ReconnectState { failures: 0 }
    }

    /// The delay before the next attempt.
    pub fn next_delay_secs(&self) -> (d: u64)
        ensures
            d == reconnect_delay_spec(self.failures),
    {
        reconnect_delay_secs(self.failures)
    }

    /// A connection succeeded: the schedule starts over.
    pub fn on_success(&mut self)
        ensures
            final(self).failures == 0,
    {
        self.failures = 0;
    }

    /// A connection attempt failed: count it and return the delay to
    /// wait before the next attempt.  The first failure after a success
    /// waits the base delay.
    pub fn on_failure(&mut self) -> (d: u64)
        ensures
            d == reconnect_delay_spec(old(self).failures),
            final(self).failures == (if old(self).failures == u32::MAX {
                u32::MAX
            } else {
                (old(self).failures + 1) as u32
            }),
    {
        let d = reconnect_delay_secs(self.failures);
        self.failures = self.failures.saturating_add(1);
        d
    }
}

/// `s` with every carriage return removed.
pub open spec fn strip_cr(s: Seq<char>) -> Seq<char>
    decreases s.len(),
{
    if s.len() == 0 {
        s
    } else if s[0] == '\r' {
        strip_cr(s.drop_first())
    } else {
        seq![s[0]] + strip_cr(s.drop_first())
    }
}

/// Removing carriage returns distributes over appending one character.
proof fn lemma_strip_cr_push(a: Seq<char>, x: char)
    ensures
        strip_cr(a.push(x)) == strip_cr(a) + (if x == '\r' {
            Seq::<char>::empty()
        } else {
            seq![x]
        }),
    decreases a.len(),
{
    let tail: Seq<char> = if x == '\r' {
        Seq::empty()
    } else {
        seq![x]
    };
    if a.len() == 0 {
        assert(a.push(x).drop_first() =~= Seq::<char>::empty());
        assert(a.push(x)[0] == x);
        assert(strip_cr(Seq::<char>::empty()) == Seq::<char>::empty());
        assert(strip_cr(a) == a);
        if x == '\r' {
            assert(strip_cr(a.push(x)) == strip_cr(a.push(x).drop_first()));
            assert(strip_cr(a.push(x)) =~= strip_cr(a) + tail);
        } else {
            assert(strip_cr(a.push(x)) == seq![x] + strip_cr(a.push(x).drop_first()));
            assert(strip_cr(a.push(x)) =~= strip_cr(a) + tail);
        }
    } else {
        assert(a.push(x).drop_first() =~= a.drop_first().push(x));
        lemma_strip_cr_push(a.drop_first(), x);
        assert(a.push(x)[0] == a[0]);
        if a[0] == '\r' {
            assert(strip_cr(a.push(x)) == strip_cr(a.drop_first().push(x)));
        } else {
            assert(strip_cr(a.push(x)) =~= seq![a[0]] + (strip_cr(a.drop_first()) + tail));
            assert(seq![a[0]] + (strip_cr(a.drop_first()) + tail) =~= (seq![a[0]] + strip_cr(
                a.drop_first(),
            )) + tail);
        }
    }
}

/// Position of the first blank-line delimiter (two consecutive
/// newlines), if any.
pub open spec fn break_at(s: Seq<char>) -> Option<int>
    decreases s.len(),
{
    if s.len() < 2 {
        None
    } else if s[0] == '\n' && s[1] == '\n' {
        Some(0int)
    } else {
        match break_at(s.drop_first()) {
            Some(i) => Some(i + 1),
            None => None,
        }
    }
}

/// Reassembles the raw incoming text into discrete event blocks.
pub struct SseAssembler {
    /// Text received but not yet delimited into a block.
    pub pending: String,
}

impl SseAssembler {
    /// An assembler with nothing pending.
    pub fn new() -> (s: Self)
        ensures
            s.pending@ == Seq::<char>::empty(),
    {
        SseAssembler { pending: String::new() }
    }

    /// Take in newly received text; carriage returns are dropped so the
    /// delimiter scan sees bare newlines.
    pub fn feed(&mut self, text: &str)
        ensures
            final(self).pending@ == old(self).pending@ + strip_cr(text@),
    {
        let len = text.unicode_len();
        let mut i: usize = 0;
        proof {
            assert(text@.take(0) =~= Seq::<char>::empty());
            assert(self.pending@ + strip_cr(text@.take(0)) =~= self.pending@);
        }
        while i < len
            invariant
                i <= len,
                len == text@.len(),
                self.pending@ == old(self).pending@ + strip_cr(text@.take(i as int)),
            decreases len - i,
        {
            let c = text.get_char(i);
            if c != '\r' {
                let piece = text.substring_char(i, i + 1);
                proof {
                    assert(piece@ =~= seq![text@[i as int]]);
                }
                self.pending.append(piece);
            }
            proof {
                lemma_strip_cr_push(text@.take(i as int), text@[i as int]);
                assert(text@.take(i + 1).drop_last() =~= text@.take(i as int));
                assert(text@.take(i + 1) =~= text@.take(i as int).push(text@[i as int]));
                if c == '\r' {
                    assert(strip_cr(text@.take(i + 1)) =~= strip_cr(text@.take(i as int)));
                } else {
                    assert(old(self).pending@ + strip_cr(text@.take(i + 1)) =~= (old(
                        self,
                    ).pending@ + strip_cr(text@.take(i as int))) + seq![text@[i as int]]);
                }
            }
            i = i + 1;
        }
        proof {
            assert(text@.take(len as int) =~= text@);
        }
    }

    /// Remove and return the next complete block, without its delimiter;
    /// `None` when no blank line has arrived yet.
    pub fn next_block(&mut self) -> (r: Option<String>)
        ensures
            match break_at(old(self).pending@) {
                Some(i) => r is Some && r->0@ == old(self).pending@.take(i)
                    && final(self).pending@ == old(self).pending@.skip(i + 2),
                None => r is None && final(self).pending@ == old(self).pending@,
            },
    {
        let len = self.pending.as_str().unicode_len();
        if len < 2 {
            return None;
        }
        let mut i: usize = 0;
        proof {
            assert(self.pending@.skip(0) =~= self.pending@);
        }
        while i + 1 < len
            invariant
                i + 1 <= len,
                len == self.pending@.len(),
                self.pending@ == old(self).pending@,
                break_at(self.pending@) == (match break_at(self.pending@.skip(i as int)) {
                    Some(k) => Some(k + i),
                    None => None::<int>,
                }),
            decreases len - i,
        {
            let a = self.pending.as_str().get_char(i);
            let b = self.pending.as_str().get_char(i + 1);
            if a == '\n' && b == '\n' {
                let block = self.pending.as_str().substring_char(0, i).to_owned();
                let rest = self.pending.as_str().substring_char(i + 2, len).to_owned();
                proof {
                    let suffix = self.pending@.skip(i as int);
                    assert(suffix[0] == '\n' && suffix[1] == '\n');
                    assert(break_at(suffix) == Some(0int));
                    assert(block@ =~= self.pending@.take(i as int));
                    assert(rest@ =~= self.pending@.skip(i + 2));
                }
                self.pending = rest;
                return Some(block);
            }
            proof {
                let suffix = self.pending@.skip(i as int);
                assert(suffix.len() >= 2);
                assert(suffix[0] == a && suffix[1] == b);
                assert(suffix.drop_first() =~= self.pending@.skip(i + 1));
            }
            i = i + 1;
        }
        proof {
            assert(self.pending@.skip(i as int).len() < 2);
        }
        None
    }
}

/// The lines of a text, split on newlines.
pub open spec fn split_lines(s: Seq<char>) -> Seq<Seq<char>>
    decreases s.len(),
{
    let e = upto_char(s, '\n') as int;
    if e >= s.len() {
        seq![s]
    } else {
        seq![s.take(e)] + split_lines(s.skip(e + 1))
    }
}

/// A line that names the event.
pub open spec fn is_event_line(l: Seq<char>) -> bool {
    l.len() >= "event:"@.len() && l.take("event:"@.len() as int) == "event:"@
}

/// A line that carries payload data.
pub open spec fn is_data_line(l: Seq<char>) -> bool {
    l.len() >= "data:"@.len() && l.take("data:"@.len() as int) == "data:"@
}

/// The event name a block's lines declare: the value of the last
/// `event:` line, trimmed; `None` when no line names one.
pub open spec fn event_name_of(lines: Seq<Seq<char>>) -> Option<Seq<char>>
    decreases lines.len(),
{
    if lines.len() == 0 {
        None
    } else {
        match event_name_of(lines.drop_first()) {
            Some(v) => Some(v),
            None => if is_event_line(lines[0]) {
                Some(trim_spec(lines[0].skip("event:"@.len() as int)))
            } else {
                None
            },
        }
    }
}

/// The data parts a block's lines carry, in order, each with leading
/// whitespace dropped.
pub open spec fn data_of(lines: Seq<Seq<char>>) -> Seq<Seq<char>>
    decreases lines.len(),
{
    if lines.len() == 0 {
        Seq::empty()
    } else {
        (if is_data_line(lines[0]) {
            seq![trim_start_spec(lines[0].skip("data:"@.len() as int))]
        } else {
            Seq::<Seq<char>>::empty()
        }) + data_of(lines.drop_first())
    }
}

/// Parts joined with single newlines.
pub open spec fn join_newline(parts: Seq<Seq<char>>) -> Seq<char>
    decreases parts.len(),
{
    if parts.len() == 0 {
        Seq::empty()
    } else if parts.len() == 1 {
        parts[0]
    } else {
        parts[0] + seq!['\n'] + join_newline(parts.drop_first())
    }
}

/// Joining distributes over appending one part.
proof fn lemma_join_push(parts: Seq<Seq<char>>, p: Seq<char>)
    ensures
        join_newline(parts.push(p)) == (if parts.len() == 0 {
            p
        } else {
            join_newline(parts) + seq!['\n'] + p
        }),
    decreases parts.len(),
{
    if parts.len() == 0 {
        assert(parts.push(p).len() == 1);
        assert(parts.push(p)[0] == p);
    } else {
        assert(parts.push(p).drop_first() =~= parts.drop_first().push(p));
        lemma_join_push(parts.drop_first(), p);
        assert(parts.push(p)[0] == parts[0]);
        assert(parts.push(p).len() == parts.len() + 1);
        if parts.len() == 1 {
            assert(join_newline(parts.push(p)) == parts[0] + seq!['\n'] + p);
            assert(join_newline(parts) == parts[0]);
        } else {
            assert(join_newline(parts.push(p)) == parts[0] + seq!['\n'] + (join_newline(
                parts.drop_first(),
            ) + seq!['\n'] + p));
            assert(parts[0] + seq!['\n'] + (join_newline(parts.drop_first()) + seq!['\n'] + p)
                =~= (parts[0] + seq!['\n'] + join_newline(parts.drop_first())) + seq!['\n'] + p);
        }
    }
}

/// A parsed event block: its name and its payload.
#[derive(Debug)]
pub struct SseEvent {
    pub name: String,
    pub data: String,
}

/// The spec value of an optional owned string.
pub open spec fn opt_view(o: Option<String>) -> Option<Seq<char>> {
    match o {
        Some(s) => Some(s@),
        None => None,
    }
}

/// Parse one event block: the last `event:` line names the event, the
/// `data:` lines joined with newlines form the payload.  A block that
/// names no event is discarded (`None`).
pub fn parse_block(block: &str) -> (r: Option<SseEvent>)
    ensures
        match event_name_of(split_lines(block@)) {
            Some(nm) => r is Some && r->0.name@ == nm && r->0.data@ == join_newline(
                data_of(split_lines(block@)),
            ),
            None => r is None,
        },
{
    let len = block.unicode_len();
    let mut pos: usize = 0;
    let mut name: Option<String> = None;
    let mut data: String = String::new();
    let mut has_data: bool = false;
    let ghost mut parts: Seq<Seq<char>> = Seq::empty();
    let mut done: bool = false;
    proof {
        reveal_strlit("event:");
        reveal_strlit("data:");
        assert(block@.skip(0) =~= block@);
        assert(parts + data_of(split_lines(block@)) =~= data_of(split_lines(block@)));
    }
    while !done
        invariant
            pos <= len,
            len == block@.len(),
            data@ == join_newline(parts),
            has_data == (parts.len() > 0),
            !done ==> event_name_of(split_lines(block@)) == (match event_name_of(
                split_lines(block@.skip(pos as int)),
            ) {
                Some(v) => Some(v),
                None => opt_view(name),
            }),
            !done ==> data_of(split_lines(block@)) == parts + data_of(
                split_lines(block@.skip(pos as int)),
            ),
            done ==> event_name_of(split_lines(block@)) == opt_view(name),
            done ==> data_of(split_lines(block@)) == parts,
        decreases (if done {
            0int
        } else {
            len - pos + 1
        }),
    {
        let ghost suffix = block@.skip(pos as int);
        let line_end: usize;
        let next_pos: usize;
        match find_char_from(block, '\n', pos) {
            Some(j) => {
                line_end = j;
                next_pos = j + 1;
            },
            None => {
                line_end = len;
                next_pos = len;
                done = true;
            },
        }
        proof {
            lemma_find_upto(suffix, '\n');
            assert(upto_char(suffix, '\n') == line_end - pos);
        }
        let line_str = block.substring_char(pos, line_end);
        let ghost line = line_str@;
        proof {
            assert(line =~= suffix.take(line_end - pos));
            if done {
                assert(upto_char(suffix, '\n') >= suffix.len());
                assert(line =~= suffix);
                assert(split_lines(suffix) == seq![suffix]);
                assert(seq![suffix][0] == line);
                assert(seq![suffix].drop_first() =~= Seq::<Seq<char>>::empty());
            } else {
                assert(split_lines(suffix) == seq![line] + split_lines(
                    suffix.skip(line_end - pos + 1),
                ));
                assert((seq![line] + split_lines(suffix.skip(line_end - pos + 1)))[0] == line);
                assert((seq![line] + split_lines(suffix.skip(line_end - pos + 1))).drop_first()
                    =~= split_lines(suffix.skip(line_end - pos + 1)));
                assert(suffix.skip(line_end - pos + 1) =~= block@.skip(next_pos as int));
            }
        }
        let ghost rest_lines: Seq<Seq<char>> = if done {
            Seq::empty()
        } else {
            split_lines(block@.skip(next_pos as int))
        };
        proof {
            assert(split_lines(suffix) == seq![line] + rest_lines);
            assert((seq![line] + rest_lines)[0] == line);
            assert((seq![line] + rest_lines).drop_first() =~= rest_lines);
            if done {
                assert(event_name_of(rest_lines) == None::<Seq<char>>);
                assert(data_of(rest_lines) == Seq::<Seq<char>>::empty());
            }
        }
        // The head line's contribution to the event name and the data
        // parts, in the shape the block-level spec functions use.
        let ghost head_event: Option<Seq<char>> = if is_event_line(line) {
            Some(trim_spec(line.skip("event:"@.len() as int)))
        } else {
            None
        };
        let ghost head_data: Seq<Seq<char>> = if is_data_line(line) {
            seq![trim_start_spec(line.skip("data:"@.len() as int))]
        } else {
            Seq::empty()
        };
        proof {
            assert(event_name_of(split_lines(suffix)) == (match event_name_of(rest_lines) {
                Some(v) => Some(v),
                None => head_event,
            }));
            assert(data_of(split_lines(suffix)) == head_data + data_of(rest_lines));
        }
        let ll = line_str.unicode_len();
        let event_prefix = "event:";
        let data_prefix = "data:";
        if crate::text::starts_with_text(line_str, event_prefix) {
            let pl = event_prefix.unicode_len();
            let value = trim_text(line_str.substring_char(pl, ll));
            proof {
                assert(line.subrange(pl as int, ll as int) =~= line.skip("event:"@.len() as int));
                assert(is_event_line(line));
                // An event line is no data line: the first characters of
                // the two prefixes differ.
                assert(!is_data_line(line)) by {
                    reveal_strlit("event:");
                    reveal_strlit("data:");
                    if is_data_line(line) {
                        assert(line.take("data:"@.len() as int) == "data:"@);
                        assert(line.take("data:"@.len() as int)[0] == line[0]);
                        assert(line.take("event:"@.len() as int) == "event:"@);
                        assert(line.take("event:"@.len() as int)[0] == line[0]);
                        assert("data:"@[0] != "event:"@[0]);
                    }
                }
                assert(head_data =~= Seq::<Seq<char>>::empty());
                assert(parts + (head_data + data_of(rest_lines)) =~= parts + data_of(rest_lines));
            }
            name = Some(value.to_owned());
        } else if crate::text::starts_with_text(line_str, data_prefix) {
            let pl = data_prefix.unicode_len();
            let value = trim_start_text(line_str.substring_char(pl, ll));
            proof {
                assert(line.subrange(pl as int, ll as int) =~= line.skip("data:"@.len() as int));
                assert(is_data_line(line));
                assert(!is_event_line(line)) by {
                    reveal_strlit("event:");
                    reveal_strlit("data:");
                    if is_event_line(line) {
                        assert(line.take("data:"@.len() as int) == "data:"@);
                        assert(line.take("data:"@.len() as int)[0] == line[0]);
                        assert(line.take("event:"@.len() as int) == "event:"@);
                        assert(line.take("event:"@.len() as int)[0] == line[0]);
                        assert("data:"@[0] != "event:"@[0]);
                    }
                }
                assert(head_event is None);
                assert(head_data =~= seq![value@]);
            }
            if has_data {
                let sep = "\n";
                proof {
                    reveal_strlit("\n");
                    assert(sep@ =~= seq!['\n']);
                }
                data.append(sep);
            }
            data.append(value);
            proof {
                let prior_parts = parts;
                lemma_join_push(prior_parts, value@);
                if prior_parts.len() > 0 {
                    assert(data@ =~= join_newline(prior_parts) + seq!['\n'] + value@);
                }
                parts = prior_parts.push(value@);
                assert(data@ == join_newline(parts));
                assert(prior_parts.push(value@) =~= prior_parts + seq![value@]);
                assert((prior_parts + seq![value@]) + data_of(rest_lines) =~= prior_parts + (seq![
                    value@,
                ] + data_of(rest_lines)));
            }
            has_data = true;
        } else {
            proof {
                assert(!is_event_line(line));
                assert(!is_data_line(line));
                assert(head_event is None);
                assert(head_data =~= Seq::<Seq<char>>::empty());
                assert(parts + (head_data + data_of(rest_lines)) =~= parts + data_of(rest_lines));
            }
        }
        pos = next_pos;
    }
    match name {
        Some(nm) => Some(SseEvent { name: nm, data }),
        None => None,
    }
}

/// The recognized event kinds.
#[derive(Clone, Copy, Debug, PartialEq, Eq, Structural)]
pub enum EventKind {
    /// Authoritative player state snapshot.
    State,
    /// Synchronized-start scheduling event.
    SyncPlay,
    /// Keep-alive; its payload is ignored.
    Heartbeat,
    /// Anything else; ignored without error.
    Unknown,
}

/// The kind an event name denotes.
pub open spec fn event_kind_of(n: Seq<char>) -> EventKind {
    if n == "state"@ {
        EventKind::State
    } else if n == "sync_play"@ {
        EventKind::SyncPlay
    } else if n == "heartbeat"@ {
        EventKind::Heartbeat
    } else {
        EventKind::Unknown
    }
}

/// Classify an event name.
pub fn classify_event(name: &str) -> (k: EventKind)
    ensures
        k == event_kind_of(name@),
{
    if text_eq(name, "state") {
        EventKind::State
    } else if text_eq(name, "sync_play") {
        EventKind::SyncPlay
    } else if text_eq(name, "heartbeat") {
        EventKind::Heartbeat
    } else {
        EventKind::Unknown
    }
}

} // verus!
