//! One drainer per output stream of a child process.
//!
//! The loop that reads a pipe lives with the caller; this module decides what
//! each read means. A line is logged (without its trailing whitespace) and its
//! bytes, newline included, are appended to the stream's capture; a transient
//! read error is ignored; only a clean end of stream ends the loop.

use vstd::prelude::*;
use vstd::utf8::encode_utf8;

verus! {

/// Which of the child's two output streams a drainer reads.
#[derive(Clone, Copy, Debug, PartialEq, Eq, Structural)]
pub enum Stream {
    Stdout,
    Stderr,
}

pub open spec fn stream_tag(s: Stream) -> Seq<char> {
    match s {
        Stream::Stdout => "stdout"@,
        Stream::Stderr => "stderr"@,
    }
}

impl Stream {
    /// The tag under which the stream's lines are logged.
    pub fn tag(&self) -> (r: &'static str)
        ensures
            r@ == stream_tag(*self),
    {
        proof {
            reveal_strlit("stdout");
            reveal_strlit("stderr");
        }
        match self {
            Stream::Stdout => "stdout",
            Stream::Stderr => "stderr",
        }
    }
}

/// The outcome of one attempt to read a line from a pipe.
#[derive(Debug)]
pub enum ReadEvent {
    /// A line as received, with its terminating newline if it had one.
    Line(String),
    /// The pipe reached end of stream: nothing more will come.
    EndOfStream,
    /// A read failed; the pipe may still deliver more.
    TransientError,
}

/// What the reading loop does after an event has been taken in.
#[derive(Debug)]
pub enum DrainAction {
    /// Log this text under the stream's tag, then read on.
    Log(String),
    /// Read on.
    Continue,
    /// Stop reading: the stream is done.
    Stop,
}

/// The text of a line with trailing whitespace removed.
pub uninterp spec fn trim_end_of(s: Seq<char>) -> Seq<char>;

/// Relies on `str::trim_end`: the text with trailing whitespace removed,
/// which depends on the characters alone.
#[verifier::external_body]
fn trimmed(s: &str) -> (r: String)
    ensures
        r@ == trim_end_of(s@),
{
    s.trim_end().to_string()
}

/// The bytes that a line contributes to the capture.
pub open spec fn event_bytes(e: ReadEvent) -> Seq<u8> {
    match e {
        ReadEvent::Line(l) => encode_utf8(l@),
        _ => Seq::empty(),
    }
}

/// The concatenation of all lines of `h`, in the order received, each with
/// its bytes as received.
pub open spec fn capture_of(h: Seq<ReadEvent>) -> Seq<u8>
    decreases h.len(),
{
    if h.len() == 0 {
        Seq::empty()
    } else {
        capture_of(h.drop_last()) + event_bytes(h.last())
    }
}

/// A capture keeps the order of receipt: the capture of a history read in
/// two parts is the capture of the first part followed by that of the second,
/// so every line's bytes stand after those of the lines received before it.
pub proof fn capture_keeps_receipt_order(a: Seq<ReadEvent>, b: Seq<ReadEvent>)
    ensures
        capture_of(a + b) == capture_of(a) + capture_of(b),
    decreases b.len(),
{
    if b.len() == 0 {
        assert(a + b =~= a);
        assert(capture_of(a) + capture_of(b) =~= capture_of(a));
    } else {
        capture_keeps_receipt_order(a, b.drop_last());
        assert((a + b).drop_last() =~= a + b.drop_last());
        assert((a + b).last() == b.last());
        assert(capture_of(a) + capture_of(b.drop_last()) + event_bytes(b.last()) =~= capture_of(a)
            + (capture_of(b.drop_last()) + event_bytes(b.last())));
    }
}

pub open spec fn is_end(e: ReadEvent) -> bool {
    e is EndOfStream
}

/// A history of reads that a drainer can have seen: end of stream, if it
/// came, is the last event.
pub open spec fn valid_history(h: Seq<ReadEvent>) -> bool {
    forall|i: int| 0 <= i < h.len() - 1 ==> !is_end(#[trigger] h[i])
}

pub open spec fn ended(h: Seq<ReadEvent>) -> bool {
    h.len() > 0 && is_end(h.last())
}

/// Whether `a` is the action that event `e` calls for: a line is logged
/// trimmed, an error is passed over, end of stream stops the loop.
pub open spec fn action_for(e: ReadEvent, a: DrainAction) -> bool {
    match e {
        ReadEvent::Line(l) => match a {
            DrainAction::Log(t) => t@ == trim_end_of(l@),
            _ => false,
        },
        ReadEvent::EndOfStream => a is Stop,
        ReadEvent::TransientError => a is Continue,
    }
}

/// The drainer of one stream: the bytes captured so far, and whether the
/// stream has ended.
pub struct Drainer {
    stream: Stream,
    captured: Vec<u8>,
    finished: bool,
    received: Ghost<Seq<ReadEvent>>,
}

impl Drainer {
    pub closed spec fn stream_spec(&self) -> Stream {
        self.stream
    }

    /// Every event taken in, in order.
    pub closed spec fn history(&self) -> Seq<ReadEvent> {
        self.received@
    }

    pub closed spec fn captured_spec(&self) -> Seq<u8> {
        self.captured@
    }

    pub closed spec fn finished_spec(&self) -> bool {
        self.finished
    }

    /// The capture is the concatenation of the lines received, and the
    /// drainer is finished exactly when the stream has ended.
    pub open spec fn wf(&self) -> bool {
        &&& valid_history(self.history())
        &&& self.captured_spec() == capture_of(self.history())
        &&& self.finished_spec() == ended(self.history())
    }

    /// A capture is a function of what its own stream delivered: two
    /// drainers that took in the same events hold the same bytes and agree
    /// on whether the stream ended, whatever ran before or beside them.
    pub proof fn capture_depends_on_history_alone(a: &Drainer, b: &Drainer)
        requires
            a.wf(),
            b.wf(),
            a.history() == b.history(),
        ensures
            a.captured_spec() == b.captured_spec(),
            a.finished_spec() == b.finished_spec(),
    {
    }

    /// A drainer for `stream` that has read nothing yet.
    pub fn new(stream: Stream) -> (r: Drainer)
        ensures
            r.wf(),
            r.stream_spec() == stream,
            r.history() == Seq::<ReadEvent>::empty(),
            r.captured_spec() == Seq::<u8>::empty(),
            !r.finished_spec(),
    {
        Drainer { stream, captured: Vec::new(), finished: false, received: Ghost(Seq::empty()) }
    }

    pub fn stream(&self) -> (r: Stream)
        ensures
            r == self.stream_spec(),
    {
        self.stream
    }

    /// Whether the stream has reached its end.
    pub fn is_finished(&self) -> (r: bool)
        ensures
            r == self.finished_spec(),
    {
        self.finished
    }

    /// The bytes captured so far.
    pub fn captured(&self) -> (r: &Vec<u8>)
        ensures
            r@ == self.captured_spec(),
    {
        &self.captured
    }

    /// Hands the capture over, once the stream is done with it.
    pub fn into_captured(self) -> (r: Vec<u8>)
        ensures
            r@ == self.captured_spec(),
    {
        self.captured
    }

    /// Takes in one read outcome. A finished drainer ignores what comes and
    /// asks to stop; otherwise the event joins the history and the action
    /// it calls for is returned.
    pub fn step(&mut self, event: ReadEvent) -> (action: DrainAction)
        requires
            old(self).wf(),
        ensures
            final(self).wf(),
            final(self).stream_spec() == old(self).stream_spec(),
            old(self).finished_spec() ==> {
                &&& final(self).history() == old(self).history()
                &&& final(self).captured_spec() == old(self).captured_spec()
                &&& action is Stop
            },
            !old(self).finished_spec() ==> {
                &&& final(self).history() == old(self).history().push(event)
                &&& final(self).captured_spec() == old(self).captured_spec() + event_bytes(event)
                &&& final(self).finished_spec() == is_end(event)
                &&& action_for(event, action)
            },
    {
        if self.finished {
            return DrainAction::Stop;
        }
        proof {
            let h = self.received@.push(event);
            assert(h.drop_last() =~= self.received@);
            assert forall|i: int| 0 <= i < h.len() - 1 implies !is_end(#[trigger] h[i]) by {
                if i < self.received@.len() - 1 {
                    assert(h[i] == self.received@[i]);
                } else {
                    assert(h[i] == self.received@.last());
                }
            }
        }
        let ghost before = self.received@;
        self.received = Ghost(self.received@.push(event));
        match event {
            ReadEvent::Line(line) => {
                let text = trimmed(line.as_str());
                let mut bytes = line.as_str().as_bytes_vec();
                self.captured.append(&mut bytes);
                proof {
                    assert(self.received@.drop_last() =~= before);
                }
                DrainAction::Log(text)
            },
            ReadEvent::EndOfStream => {
                self.finished = true;
                proof {
                    assert(self.received@.drop_last() =~= before);
                    assert(self.captured@ =~= capture_of(self.received@));
                }
                DrainAction::Stop
            },
            ReadEvent::TransientError => {
                proof {
                    assert(self.received@.drop_last() =~= before);
                    assert(self.captured@ =~= capture_of(self.received@));
                }
                DrainAction::Continue
            },
        }
    }
}

} // verus!
