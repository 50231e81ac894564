//! Aggregated view of a running child process's output.
//!
//! One background reader per stream performs the blocking line reads and
//! forwards each decoded line, then a single end-of-stream marker,
//! through a one-way queue. The state here is what the non-blocking side
//! owns: the accumulated output buffer and, per stream, whether its
//! reader is still live. A poll hands this state the batch of events
//! drained from the queues; nothing here ever blocks.

use vstd::prelude::*;
use vstd::string::StringExecFns;

verus! {

/// What a stdin source for the child process is: literal text, or a path
/// to a file whose bytes are streamed in.
#[derive(Debug, Clone, PartialEq, Eq, Hash)]
pub enum StdinType {
    /// Stream the raw bytes of the file at this path.
    File(String),
    /// Write this text.
    Text(String),
}

/// One item drained from a stream reader's queue: a decoded line, or the
/// single end-of-stream marker the reader sends last.
#[derive(Debug, Clone)]
pub enum StreamEvent {
    /// A decoded line, terminator included.
    Line(String),
    /// The stream will produce no further lines.
    Eos,
}

/// What the output buffer holds after applying a batch of drained events
/// to one stream: each line of the batch is appended in arrival order,
/// up to (and not beyond) the stream's end-of-stream marker; a retired
/// stream's events are discarded entirely.
pub open spec fn drained_output(out: Seq<char>, open: bool, events: Seq<StreamEvent>) -> Seq<char>
    decreases events.len(),
{
    if !open || events.len() == 0 {
        out
    } else {
        match events[0] {
            StreamEvent::Line(l) => drained_output(out + l@, true, events.drop_first()),
            StreamEvent::Eos => out,
        }
    }
}

/// Whether the stream is still live after applying a batch of drained
/// events: it stays live until its end-of-stream marker arrives, and a
/// retired stream never comes back.
pub open spec fn drained_open(open: bool, events: Seq<StreamEvent>) -> bool
    decreases events.len(),
{
    if !open {
        false
    } else if events.len() == 0 {
        true
    } else {
        match events[0] {
            StreamEvent::Line(_) => drained_open(true, events.drop_first()),
            StreamEvent::Eos => false,
        }
    }
}

/// A batch contains the end-of-stream marker.
pub open spec fn has_eos(events: Seq<StreamEvent>) -> bool {
    exists|i: int| 0 <= i < events.len() && events[i] is Eos
}

/// Applies one stream's drained batch: appends each line to the buffer
/// in arrival order and retires the stream at its end-of-stream marker.
/// A batch handed in for a retired stream changes nothing.
fn read_stdio(output: &mut String, open: &mut bool, events: &Vec<StreamEvent>)
    ensures
        final(output)@ == drained_output(old(output)@, *old(open), events@),
        *final(open) == drained_open(*old(open), events@),
{
    let mut i: usize = 0;
    proof {
        assert(events@.skip(0) =~= events@);
    }
    while i < events.len()
        invariant
            i <= events.len(),
            drained_output(output@, *open, events@.skip(i as int)) == drained_output(
                old(output)@,
                *old(open),
                events@,
            ),
            drained_open(*open, events@.skip(i as int)) == drained_open(*old(open), events@),
        decreases events.len() - i,
    {
        proof {
            assert(events@.skip(i as int)[0] == events@[i as int]);
            assert(events@.skip(i as int).drop_first() =~= events@.skip(i as int + 1));
        }
        if !*open {
            proof {
                assert(drained_output(output@, false, events@.skip(i as int + 1)) == output@);
                assert(!drained_open(false, events@.skip(i as int + 1)));
            }
        } else {
            match &events[i] {
                StreamEvent::Line(l) => {
                    output.append(l.as_str());
                },
                StreamEvent::Eos => {
                    *open = false;
                },
            }
        }
        i += 1;
    }
    proof {
        assert(events@.skip(events@.len() as int) =~= Seq::<StreamEvent>::empty());
    }
}

/// The poll-side state of one launched child process: the text
/// accumulated from both streams so far, and per stream whether its
/// reader is still live. The process counts as running until both
/// readers have retired or a kill retires them.
#[derive(Debug)]
pub struct ChildApp {
    /// Interleaved stdout/stderr text drained so far. Lines from one
    /// stream keep their arrival order; no order holds between streams.
    pub output: String,
    /// The stdout reader has not yet delivered its end-of-stream marker.
    pub stdout_open: bool,
    /// The stderr reader has not yet delivered its end-of-stream marker.
    pub stderr_open: bool,
}

impl ChildApp {
    /// The state right after a successful launch: nothing drained yet,
    /// both streams live.
    pub fn new() -> (r: Self)
        ensures
            r.output@ == Seq::<char>::empty(),
            r.stdout_open,
            r.stderr_open,
    {
        ChildApp { output: String::new(), stdout_open: true, stderr_open: true }
    }

    /// Non-blocking poll: applies the batches drained from the stdout
    /// and stderr queues (in that order) and returns the whole
    /// accumulated buffer.
    pub fn read(
        &mut self,
        stdout_events: &Vec<StreamEvent>,
        stderr_events: &Vec<StreamEvent>,
    ) -> (r: &str)
        ensures
            final(self).output@ == drained_output(
                drained_output(old(self).output@, old(self).stdout_open, stdout_events@),
                old(self).stderr_open,
                stderr_events@,
            ),
            final(self).stdout_open == drained_open(old(self).stdout_open, stdout_events@),
            final(self).stderr_open == drained_open(old(self).stderr_open, stderr_events@),
            r@ == final(self).output@,
    {
        read_stdio(&mut self.output, &mut self.stdout_open, stdout_events);
        read_stdio(&mut self.output, &mut self.stderr_open, stderr_events);
        self.output.as_str()
    }

    /// The process counts as running until both readers have retired.
    pub fn is_running(&self) -> (r: bool)
        ensures
            r == (self.stdout_open || self.stderr_open),
    {
        self.stdout_open || self.stderr_open
    }

    /// Retires both readers at once, as the controller does when it
    /// kills the process: liveness turns false immediately and whatever
    /// was queued but not yet drained is discarded, so the buffer keeps
    /// exactly what had been drained before.
    pub fn kill(&mut self)
        ensures
            final(self).output == old(self).output,
            !final(self).stdout_open,
            !final(self).stderr_open,
    {
        self.stdout_open = false;
        self.stderr_open = false;
    }
}

/// After a kill, liveness reports false and stays false, and no poll can
/// grow the output buffer, however many events the queues still held at
/// the moment of the kill: both streams are retired, so every later
/// batch is discarded.
pub proof fn lemma_kill_freezes(c: ChildApp, e1: Seq<StreamEvent>, e2: Seq<StreamEvent>)
    requires
        !c.stdout_open,
        !c.stderr_open,
    ensures
        drained_output(drained_output(c.output@, c.stdout_open, e1), c.stderr_open, e2)
            == c.output@,
        !drained_open(c.stdout_open, e1),
        !drained_open(c.stderr_open, e2),
{
}

/// A drain whose batch includes the end-of-stream marker always leaves
/// the stream retired.
pub proof fn lemma_eos_retires(open: bool, events: Seq<StreamEvent>)
    requires
        has_eos(events),
    ensures
        !drained_open(open, events),
    decreases events.len(),
{
    if open && events.len() > 0 && events[0] is Line {
        let i = choose|i: int| 0 <= i < events.len() && events[i] is Eos;
        assert(events.drop_first()[i - 1] is Eos);
        lemma_eos_retires(true, events.drop_first());
    }
}

/// After natural exit both streams eventually deliver their end-of-stream
/// markers; a poll that drains both markers leaves liveness false.
pub proof fn lemma_natural_exit(c: ChildApp, e1: Seq<StreamEvent>, e2: Seq<StreamEvent>)
    requires
        has_eos(e1),
        has_eos(e2),
    ensures
        !drained_open(c.stdout_open, e1),
        !drained_open(c.stderr_open, e2),
{
    lemma_eos_retires(c.stdout_open, e1);
    lemma_eos_retires(c.stderr_open, e2);
}

} // verus!
