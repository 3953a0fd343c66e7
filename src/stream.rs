//! The resumable reader of a process stream. Bytes arrive in chunks whose
//! boundaries need not match envelope boundaries; the reader keeps the
//! partial tail, queues each complete payload as text and hands them out
//! one at a time. Whoever owns the transport feeds it: when the reader asks
//! for input, the next chunk goes to `push_chunk`, and the end of the
//! transport to `close`.
//!
//! A payload that is not UTF-8, or an envelope that is still incomplete
//! when the transport ends, is a fault of the stream. The payloads before
//! it are handed out first, then the fault, whatever the chunk boundaries;
//! nothing after it is read. An envelope with the end-of-stream flag ends
//! the stream in the same way: what follows it is not read.

use crate::envelope::{decode_frames, decode_spec, frames_view, lemma_split_feed, END_STREAM_FLAG};
use crate::error::{Error, INTERNAL_STATUS};
use crate::text::{lemma_strings_view_push, lemma_strings_view_subrange, strings_view, text_from_utf8, trim_text, trimmed, utf8_text};
use std::collections::VecDeque;
use vstd::prelude::*;
use vstd::string::StrSliceExecFns;

verus! {

/// What ends the reading of a stream before the transport ends.
#[derive(Clone, Copy, Debug)]
pub enum StreamFault {
    /// A payload that is not valid UTF-8.
    BadText,
    /// An envelope whose header or payload never completed.
    IncompleteFrame,
}

/// The message of the error that a fault is reported with.
pub open spec fn fault_message(f: StreamFault) -> Seq<char> {
    match f {
        StreamFault::BadText => "Failed to decode message"@,
        StreamFault::IncompleteFrame => "Incomplete frame at end of stream"@,
    }
}

/// The error that a fault is reported with.
pub fn fault_error(f: StreamFault) -> (r: Error)
    ensures
        r matches Error::Api { status, message } && status == INTERNAL_STATUS && message@
            == fault_message(f),
{
    match f {
        StreamFault::BadText => Error::api(INTERNAL_STATUS, "Failed to decode message"),
        StreamFault::IncompleteFrame => Error::api(INTERNAL_STATUS, "Incomplete frame at end of stream"),
    }
}

/// How a run of envelopes stops being read.
pub enum ScanEnd {
    /// It was read to its end; more may follow.
    Open,
    /// It holds an envelope with the end-of-stream flag.
    Ended,
    /// It holds a payload that is not UTF-8.
    BadText,
}

/// The payload texts of a run of envelopes, in order, up to and including
/// the first one with the end-of-stream flag and up to (not including) the
/// first one that is not UTF-8; and how the run stopped.
pub open spec fn scan(frames: Seq<(u8, Seq<u8>)>) -> (Seq<Seq<char>>, ScanEnd)
    decreases frames.len(),
{
    if frames.len() == 0 {
        (Seq::empty(), ScanEnd::Open)
    } else {
        let (ts, e) = scan(frames.drop_last());
        if !(e is Open) {
            (ts, e)
        } else {
            match utf8_text(frames.last().1) {
                None => (ts, ScanEnd::BadText),
                Some(t) => (
                    ts.push(t),
                    if frames.last().0 & END_STREAM_FLAG != 0 {
                        ScanEnd::Ended
                    } else {
                        ScanEnd::Open
                    },
                ),
            }
        }
    }
}

/// A payload that carries nothing: empty, or an empty JSON object, once
/// white space is trimmed.
pub open spec fn is_keep_alive(m: Seq<char>) -> bool {
    trimmed(m) == Seq::<char>::empty() || trimmed(m) == "{}"@
}

/// The position of the first payload in `q`, at or after `i`, that is not
/// a keep-alive.
pub open spec fn first_payload(q: Seq<Seq<char>>, i: int) -> Option<int>
    decreases q.len() - i,
{
    if i < 0 || i >= q.len() {
        None
    } else if !is_keep_alive(q[i]) {
        Some(i)
    } else {
        first_payload(q, i + 1)
    }
}

/// What the reader holds: the undecoded tail, the queued payloads, whether
/// the stream has ended, and its fault, if any.
pub struct ReaderView {
    pub buffer: Seq<u8>,
    pub messages: Seq<Seq<char>>,
    pub finished: bool,
    pub fault: Option<StreamFault>,
}

/// Whether nothing more will be read from the transport.
pub open spec fn is_done(v: ReaderView) -> bool {
    v.finished || v.fault is Some
}

/// The reader after the next chunk of the transport: the envelopes that
/// complete are read as `scan` says and their texts queued; the tail is
/// kept while the stream is open. Once the stream has ended or failed,
/// chunks are not read.
pub open spec fn fed(v: ReaderView, chunk: Seq<u8>) -> ReaderView {
    if is_done(v) {
        v
    } else {
        let (frames, rest) = decode_spec(v.buffer + chunk);
        let (ts, e) = scan(frames);
        ReaderView {
            buffer: if e is Open {
                rest
            } else {
                Seq::empty()
            },
            messages: v.messages + ts,
            finished: e is Ended,
            fault: if e is BadText {
                Some(StreamFault::BadText)
            } else {
                None
            },
        }
    }
}

/// The reader after the end of the transport: what is buffered is read once
/// more, the stream is finished, and bytes that still do not form a
/// complete envelope are a fault.
pub open spec fn closed(v: ReaderView) -> ReaderView {
    if is_done(v) {
        v
    } else {
        let w = fed(v, Seq::empty());
        ReaderView {
            finished: true,
            fault: if w.fault is None && w.buffer.len() > 0 {
                Some(StreamFault::IncompleteFrame)
            } else {
                w.fault
            },
            ..w
        }
    }
}

/// What `next_message` hands out.
pub enum ReadStep {
    /// The next payload, as text.
    Message(String),
    /// The stream failed here: no payload will follow.
    Failed(Error),
    /// The stream is over: no payload will follow.
    Finished,
    /// Nothing is queued: the next chunk of the transport (or its end) is
    /// needed.
    NeedInput,
}

/// Reader state of one process stream.
pub struct ProcessStream {
    buffer: Vec<u8>,
    messages: VecDeque<String>,
    finished: bool,
    fault: Option<StreamFault>,
}

impl View for ProcessStream {
    type V = ReaderView;

    closed spec fn view(&self) -> ReaderView {
        ReaderView {
            buffer: self.buffer@,
            messages: strings_view(self.messages@),
            finished: self.finished,
            fault: self.fault,
        }
    }
}

impl ProcessStream {
    /// A reader that has seen nothing yet.
    pub fn new() -> (r: ProcessStream)
        ensures
            r@ == (ReaderView {
                buffer: Seq::empty(),
                messages: Seq::empty(),
                finished: false,
                fault: None,
            }),
    {
        let r = ProcessStream {
            buffer: Vec::new(),
            messages: VecDeque::new(),
            finished: false,
            fault: None,
        };
        assert(r@.messages =~= Seq::<Seq<char>>::empty());
        r
    }

    /// Whether the stream has ended.
    pub fn is_finished(&self) -> (r: bool)
        ensures
            r == self@.finished,
    {
        self.finished
    }

    /// Feeds the next chunk of the transport: every envelope that completes
    /// is queued as text, in order, and the partial tail is kept. An
    /// envelope with the end-of-stream flag ends the stream; a payload that
    /// is not UTF-8 is the stream's fault, reported after the payloads
    /// before it.
    pub fn push_chunk(&mut self, chunk: &[u8])
        ensures
            final(self)@ == fed(old(self)@, chunk@),
    {
        if self.finished || self.fault.is_some() {
            return;
        }
        let mut all = self.buffer.clone();
        let mut k: usize = 0;
        while k < chunk.len()
            invariant
                k <= chunk@.len(),
                all@ == old(self)@.buffer + chunk@.subrange(0, k as int),
                self.buffer@ == old(self)@.buffer,
            decreases chunk@.len() - k,
        {
            all.push(chunk[k]);
            k = k + 1;
            assert(chunk@.subrange(0, k as int) =~= chunk@.subrange(0, k - 1) + seq![chunk@[k - 1]]);
        }
        assert(chunk@.subrange(0, k as int) =~= chunk@);
        let (frames, used) = decode_frames(all.as_slice());
        let ghost fv = decode_spec(all@).0;
        let mut texts: Vec<String> = Vec::new();
        let mut ended = false;
        let mut bad = false;
        let mut i: usize = 0;
        while i < frames.len()
            invariant
                i <= frames@.len(),
                fv == frames_view(frames@),
                fv == decode_spec(all@).0,
                all@ == old(self)@.buffer + chunk@,
                used <= all@.len(),
                all@.subrange(used as int, all@.len() as int) == decode_spec(all@).1,
                self.buffer@ == old(self)@.buffer,
                self.messages@ == old(self).messages@,
                self.finished == old(self).finished,
                self.fault == old(self).fault,
                !(ended && bad),
                scan(fv.subrange(0, i as int)) == (strings_view(texts@), if bad {
                    ScanEnd::BadText
                } else if ended {
                    ScanEnd::Ended
                } else {
                    ScanEnd::Open
                }),
            decreases frames@.len() - i,
        {
            let ghost prefix = fv.subrange(0, i as int);
            let ghost next = fv.subrange(0, i + 1);
            assert(next.drop_last() =~= prefix);
            assert(next.last() == frames@[i as int]@);
            if !ended && !bad {
                match text_from_utf8(frames[i].payload.clone()) {
                    Some(t) => {
                        let ghost before = texts@;
                        texts.push(t);
                        proof {
                            lemma_strings_view_push(before, t);
                        }
                        if frames[i].flags & END_STREAM_FLAG != 0 {
                            ended = true;
                        }
                    },
                    None => {
                        bad = true;
                    },
                }
            }
            i = i + 1;
        }
        assert(fv.subrange(0, i as int) =~= fv);
        if !ended && !bad {
            self.buffer = all.split_off(used);
        } else {
            self.buffer = Vec::new();
        }
        let ghost before = self.messages@;
        let ghost new_buffer = self.buffer@;
        let mut j: usize = 0;
        let ghost tv = texts@;
        while j < texts.len()
            invariant
                j <= texts@.len(),
                tv == texts@,
                self.buffer@ == new_buffer,
                self.finished == old(self).finished,
                self.fault == old(self).fault,
                strings_view(self.messages@) == strings_view(before) + strings_view(tv.subrange(0, j as int)),
            decreases texts@.len() - j,
        {
            let ghost prev = self.messages@;
            self.messages.push_back(texts[j].clone());
            j = j + 1;
            proof {
                lemma_strings_view_push(prev, tv[j - 1]);
                assert(tv.subrange(0, j as int) =~= tv.subrange(0, j - 1).push(tv[j - 1]));
                lemma_strings_view_push(tv.subrange(0, j - 1), tv[j - 1]);
                assert(strings_view(self.messages@) =~= strings_view(before) + strings_view(tv.subrange(0, j as int)));
            }
        }
        assert(tv.subrange(0, j as int) =~= tv);
        self.finished = ended;
        if bad {
            self.fault = Some(StreamFault::BadText);
        }
        proof {
            assert(self@.buffer =~= fed(old(self)@, chunk@).buffer);
            assert(self@.messages =~= fed(old(self)@, chunk@).messages);
        }
    }

    /// Marks the end of the transport: what is buffered is read once more
    /// and the stream is finished. Bytes that still do not form a complete
    /// envelope are the stream's fault, reported after the payloads before
    /// them.
    pub fn close(&mut self)
        ensures
            final(self)@ == closed(old(self)@),
    {
        if self.finished || self.fault.is_some() {
            return;
        }
        let empty: Vec<u8> = Vec::new();
        proof {
            assert(old(self)@.buffer + empty@ =~= old(self)@.buffer + Seq::<u8>::empty());
        }
        self.push_chunk(empty.as_slice());
        self.finished = true;
        if self.fault.is_none() && self.buffer.len() > 0 {
            self.fault = Some(StreamFault::IncompleteFrame);
        }
    }

    /// Hands out the next payload that is not a keep-alive, dropping the
    /// keep-alives before it. When none is queued, the queue is emptied and
    /// the answer is the stream's fault if it has one, else `Finished` once
    /// the stream has ended, else `NeedInput`.
    pub fn next_message(&mut self) -> (r: ReadStep)
        ensures
            final(self)@.buffer == old(self)@.buffer,
            final(self)@.finished == old(self)@.finished,
            final(self)@.fault == old(self)@.fault,
            match first_payload(old(self)@.messages, 0) {
                Some(i) => r matches ReadStep::Message(m) && m@ == old(self)@.messages[i]
                    && final(self)@.messages == old(self)@.messages.subrange(
                    i + 1,
                    old(self)@.messages.len() as int,
                ),
                None => final(self)@.messages == Seq::<Seq<char>>::empty() && match old(self)@.fault {
                    Some(f) => r matches ReadStep::Failed(Error::Api { status, message })
                        && status == INTERNAL_STATUS && message@ == fault_message(f),
                    None => if old(self)@.finished {
                        r is Finished
                    } else {
                        r is NeedInput
                    },
                },
            },
    {
        let ghost q = old(self)@.messages;
        let ghost k: int = 0;
        assert(q.subrange(0, q.len() as int) =~= q);
        loop
            invariant
                0 <= k <= q.len(),
                q == old(self)@.messages,
                strings_view(self.messages@) == q.subrange(k, q.len() as int),
                first_payload(q, 0) == first_payload(q, k),
                self.buffer@ == old(self)@.buffer,
                self.finished == old(self).finished,
                self.fault == old(self).fault,
            decreases q.len() - k,
        {
            let ghost before = self.messages@;
            match self.messages.pop_front() {
                Some(m) => {
                    proof {
                        lemma_strings_view_subrange(before, 1, before.len() as int);
                        assert(before.len() > 0);
                        assert(strings_view(before) == q.subrange(k, q.len() as int));
                        assert(strings_view(before).len() == before.len());
                        assert(k < q.len());
                        assert(strings_view(before)[0] == q[k]);
                        assert(m@ == q[k]);
                        assert(strings_view(self.messages@) =~= q.subrange(k + 1, q.len() as int));
                    }
                    let t = trim_text(m.as_str());
                    let blank = t.unicode_len() == 0 || str_is_empty_object(t);
                    if !blank {
                        assert(!is_keep_alive(q[k]));
                        assert(first_payload(q, k) == Some(k));
                        return ReadStep::Message(m);
                    }
                    proof {
                        if t@.len() == 0 {
                            assert(t@ =~= Seq::<char>::empty());
                        }
                        assert(is_keep_alive(q[k]));
                        assert(first_payload(q, k) == first_payload(q, k + 1));
                        k = k + 1;
                    }
                },
                None => {
                    assert(q.subrange(k, q.len() as int).len() == 0);
                    assert(first_payload(q, k) is None);
                    assert(strings_view(self.messages@) =~= Seq::<Seq<char>>::empty());
                    match self.fault {
                        Some(f) => {
                            return ReadStep::Failed(fault_error(f));
                        },
                        None => {},
                    }
                    if self.finished {
                        return ReadStep::Finished;
                    }
                    return ReadStep::NeedInput;
                },
            }
        }
    }
}

/// How a run of envelopes read after another one is read: not at all when
/// the first stopped the reading, else after it.
pub proof fn lemma_scan_concat(x: Seq<(u8, Seq<u8>)>, y: Seq<(u8, Seq<u8>)>)
    ensures
        !(scan(x).1 is Open) ==> scan(x + y) == scan(x),
        scan(x).1 is Open ==> scan(x + y) == (scan(x).0 + scan(y).0, scan(y).1),
    decreases y.len(),
{
    if y.len() == 0 {
        assert(x + y =~= x);
        assert(scan(x).0 + Seq::<Seq<char>>::empty() =~= scan(x).0);
    } else {
        let xy = x + y;
        assert(xy.drop_last() =~= x + y.drop_last());
        assert(xy.last() == y.last());
        lemma_scan_concat(x, y.drop_last());
        if scan(x).1 is Open && scan(y.drop_last()).1 is Open {
            match utf8_text(y.last().1) {
                Some(t) => {
                    assert((scan(x).0 + scan(y.drop_last()).0).push(t) =~= scan(x).0 + scan(y.drop_last()).0.push(t));
                },
                None => {},
            }
        }
    }
}

/// Feeding two chunks one after the other leaves the reader exactly as
/// feeding them as one chunk: the same payloads in the same order, the
/// same tail, and the end or the fault at the same place.
pub proof fn lemma_chunks_split(v: ReaderView, a: Seq<u8>, b: Seq<u8>)
    ensures
        fed(fed(v, a), b) == fed(v, a + b),
{
    if !is_done(v) {
        assert((v.buffer + a) + b =~= v.buffer + (a + b));
        lemma_split_feed(v.buffer + a, b);
        let first = decode_spec(v.buffer + a);
        let second = decode_spec(first.1 + b);
        lemma_scan_concat(first.0, second.0);
        let w = fed(v, a);
        if scan(first.0).1 is Open {
            assert(w.buffer + b == first.1 + b);
            assert(fed(w, b).messages =~= fed(v, a + b).messages);
            assert(fed(w, b).buffer =~= fed(v, a + b).buffer);
        } else {
            assert(fed(w, b).messages =~= fed(v, a + b).messages);
            assert(fed(w, b).buffer =~= fed(v, a + b).buffer);
        }
    }
}

/// Whether a text is exactly `{}`.
fn str_is_empty_object(t: &str) -> (r: bool)
    ensures
        r == (t@ == "{}"@),
{
    proof {
        reveal_strlit("{}");
    }
    if t.unicode_len() != 2 {
        return false;
    }
    let r = t.get_char(0) == '{' && t.get_char(1) == '}';
    if r {
        assert(t@ =~= "{}"@);
    }
    r
}

} // verus!
