//! The event consumer: decoding delivered events and driving the poll loop.
//!
//! Each delivered event is a byte sequence. The consumer strips trailing
//! terminator and ASCII whitespace bytes — in valid UTF-8 these are exactly
//! the trailing terminator and whitespace characters — then decodes the
//! rest as UTF-8 text; an event that does not decode is skipped without
//! aborting the loop. The loop itself is driven by poll outcomes: delivered
//! events are rendered, the distinguished shutdown signal ends the loop
//! cleanly, and any other poll failure is fatal.

use vstd::prelude::*;

use vstd::utf8::decode_utf8;
use vstd::utf8::valid_utf8;

verus! {

/// The distinguished status code with which a poll reports an intentional
/// shutdown request rather than a failure.
pub const SHUTDOWN_STATUS: i32 = -4;

/// A byte that is stripped from the end of an event before decoding: the
/// null terminator or ASCII whitespace.
pub open spec fn is_trailing_trim_byte(b: u8) -> bool {
    b == 0 || b == 0x09 || b == 0x0a || b == 0x0b || b == 0x0c || b == 0x0d || b == 0x20
}

/// `bytes` with every trailing terminator or whitespace byte removed.
pub open spec fn trimmed(bytes: Seq<u8>) -> Seq<u8>
    decreases bytes.len(),
{
    if bytes.len() > 0 && is_trailing_trim_byte(bytes.last()) {
        trimmed(bytes.drop_last())
    } else {
        bytes
    }
}

fn is_trim_byte(b: u8) -> (r: bool)
    ensures
        r == is_trailing_trim_byte(b),
{
    b == 0 || b == 0x09 || b == 0x0a || b == 0x0b || b == 0x0c || b == 0x0d || b == 0x20
}

/// A copy of `bytes` with every trailing terminator or whitespace byte
/// removed.
pub fn trim_event(bytes: &Vec<u8>) -> (r: Vec<u8>)
    ensures
        r@ == trimmed(bytes@),
{
    let mut end: usize = bytes.len();
    proof {
        assert(bytes@.take(bytes@.len() as int) =~= bytes@);
    }
    while end > 0 && is_trim_byte(bytes[end - 1])
        invariant
            end <= bytes@.len(),
            trimmed(bytes@) == trimmed(bytes@.take(end as int)),
        decreases end,
    {
        proof {
            assert(bytes@.take(end as int).last() == bytes@[end - 1]);
            assert(bytes@.take(end as int).drop_last() =~= bytes@.take(end - 1));
        }
        end = end - 1;
    }
    proof {
        if end == 0 {
            assert(bytes@.take(0) =~= Seq::<u8>::empty());
        }
        assert(trimmed(bytes@.take(end as int)) == bytes@.take(end as int));
    }
    let mut out: Vec<u8> = Vec::new();
    let mut i: usize = 0;
    while i < end
        invariant
            i <= end,
            end <= bytes@.len(),
            trimmed(bytes@) == bytes@.take(end as int),
            out@ =~= bytes@.take(i as int),
        decreases end - i,
    {
        out.push(bytes[i]);
        assert(out@ =~= bytes@.take(i + 1));
        i = i + 1;
    }
    out
}

/// Relies on `String::from_utf8`: it succeeds exactly when the bytes are
/// valid UTF-8, and then returns the text those bytes encode.
#[verifier::external_body]
fn bytes_to_string(bytes: Vec<u8>) -> (r: Option<String>)
    ensures
        r is Some <==> valid_utf8(bytes@),
        r matches Some(s) ==> s@ == decode_utf8(bytes@),
{
    String::from_utf8(bytes).ok()
}

/// Decode one delivered event: strip trailing terminator and whitespace
/// bytes, then decode the rest as UTF-8. Returns `None`, and the event is
/// skipped, exactly when the remaining bytes are not valid UTF-8.
pub fn decode_event(bytes: &Vec<u8>) -> (r: Option<String>)
    ensures
        r is Some <==> valid_utf8(trimmed(bytes@)),
        r matches Some(s) ==> s@ == decode_utf8(trimmed(bytes@)),
{
    let t = trim_event(bytes);
    bytes_to_string(t)
}

/// The lines that a batch of delivered events renders to: each event is
/// trimmed and decoded, in delivery order, and events that do not decode
/// are skipped.
pub open spec fn rendered_lines(events: Seq<Seq<u8>>) -> Seq<Seq<char>>
    decreases events.len(),
{
    if events.len() == 0 {
        Seq::empty()
    } else {
        let init = rendered_lines(events.drop_last());
        let e = trimmed(events.last());
        if valid_utf8(e) {
            init.push(decode_utf8(e))
        } else {
            init
        }
    }
}

/// Render a batch of delivered events to lines of text, in delivery order,
/// skipping events that do not decode.
pub fn render_events(events: &Vec<Vec<u8>>) -> (r: Vec<String>)
    ensures
        r.deep_view() == rendered_lines(events.deep_view()),
{
    let mut out: Vec<String> = Vec::new();
    let mut i: usize = 0;
    while i < events.len()
        invariant
            i <= events@.len(),
            out.deep_view() == rendered_lines(events.deep_view().take(i as int)),
        decreases events@.len() - i,
    {
        let ghost pre = out.deep_view();
        proof {
            assert(events.deep_view().take(i + 1).drop_last() =~= events.deep_view().take(
                i as int,
            ));
            assert(events.deep_view().take(i + 1).last() == events.deep_view()[i as int]);
            assert(events@[i as int].deep_view() =~= events@[i as int]@);
        }
        match decode_event(&events[i]) {
            Some(line) => {
                out.push(line);
                proof {
                    assert(out.deep_view() =~~= pre.push(line@));
                }
            },
            None => {},
        }
        i = i + 1;
    }
    proof {
        assert(events.deep_view().take(events@.len() as int) =~= events.deep_view());
    }
    out
}

/// What one poll of the transport produced: a batch of delivered events
/// (possibly empty, on a timeout), the distinguished shutdown signal, or a
/// failure carrying its status code.
pub enum PollOutcome {
    Delivered(Vec<Vec<u8>>),
    Shutdown,
    Fault(i32),
}

/// Classify the status code of a failed poll: the distinguished code is the
/// intentional shutdown signal, every other code is a fault.
pub fn classify_poll_failure(code: i32) -> (r: PollOutcome)
    ensures
        code == SHUTDOWN_STATUS ==> r is Shutdown,
        code != SHUTDOWN_STATUS ==> (r matches PollOutcome::Fault(c) && c == code),
{
    if code == SHUTDOWN_STATUS {
        PollOutcome::Shutdown
    } else {
        PollOutcome::Fault(code)
    }
}

/// What the poll loop does after one poll: emit rendered lines and keep
/// going, finish cleanly, or abort with a fatal status code.
pub enum LoopStep {
    Emit(Vec<String>),
    Finish,
    Abort(i32),
}

/// Resolve one iteration of the poll loop. Delivered events are rendered
/// and the loop continues; the shutdown signal finishes the loop cleanly;
/// any other failure aborts it with the failing code.
pub fn consume_step(poll: PollOutcome) -> (r: LoopStep)
    ensures
        poll matches PollOutcome::Delivered(evs) ==> (r matches LoopStep::Emit(lines)
            && lines.deep_view() == rendered_lines(evs.deep_view())),
        poll is Shutdown ==> r is Finish,
        poll matches PollOutcome::Fault(c) ==> r == LoopStep::Abort(c),
{
    match poll {
        PollOutcome::Delivered(evs) => LoopStep::Emit(render_events(&evs)),
        PollOutcome::Shutdown => LoopStep::Finish,
        PollOutcome::Fault(code) => LoopStep::Abort(code),
    }
}

/// How a run of the poll loop ended: cleanly on the shutdown signal,
/// fatally on any other poll failure, or still pending because the observed
/// polls ran out first.
#[derive(Clone, Copy, PartialEq, Eq, Structural, Debug)]
pub enum RunEnd {
    CleanShutdown,
    Fatal(i32),
    Pending,
}

/// The lines emitted by a run of the poll loop over the given polls, in
/// order, up to the first shutdown or fault.
pub open spec fn run_lines(polls: Seq<PollOutcome>) -> Seq<Seq<char>>
    decreases polls.len(),
{
    if polls.len() == 0 {
        Seq::empty()
    } else {
        match polls.first() {
            PollOutcome::Delivered(evs) => rendered_lines(evs.deep_view()) + run_lines(
                polls.drop_first(),
            ),
            PollOutcome::Shutdown => Seq::empty(),
            PollOutcome::Fault(_) => Seq::empty(),
        }
    }
}

/// How a run of the poll loop over the given polls ends.
pub open spec fn run_end(polls: Seq<PollOutcome>) -> RunEnd
    decreases polls.len(),
{
    if polls.len() == 0 {
        RunEnd::Pending
    } else {
        match polls.first() {
            PollOutcome::Delivered(_) => run_end(polls.drop_first()),
            PollOutcome::Shutdown => RunEnd::CleanShutdown,
            PollOutcome::Fault(code) => RunEnd::Fatal(code),
        }
    }
}

/// Drive the poll loop over a sequence of observed polls: render every
/// delivered batch in order, finish cleanly on the shutdown signal, and
/// abort on any other failure. The shutdown signal ends the run as a
/// success, never as an error.
pub fn run(polls: Vec<PollOutcome>) -> (r: (Vec<String>, RunEnd))
    ensures
        r.0.deep_view() == run_lines(polls@),
        r.1 == run_end(polls@),
{
    let mut lines: Vec<String> = Vec::new();
    let mut i: usize = 0;
    proof {
        assert(polls@.skip(0) =~= polls@);
        assert(lines.deep_view() =~= Seq::<Seq<char>>::empty());
        assert(Seq::<Seq<char>>::empty() + run_lines(polls@) =~= run_lines(polls@));
    }
    while i < polls.len()
        invariant
            i <= polls@.len(),
            run_lines(polls@) == lines.deep_view() + run_lines(polls@.skip(i as int)),
            run_end(polls@) == run_end(polls@.skip(i as int)),
        decreases polls@.len() - i,
    {
        proof {
            assert(polls@.skip(i as int).first() == polls@[i as int]);
            assert(polls@.skip(i as int).drop_first() =~= polls@.skip(i + 1));
        }
        match &polls[i] {
            PollOutcome::Delivered(evs) => {
                let ghost pre = lines.deep_view();
                let ghost batch = rendered_lines(evs.deep_view());
                let mut rendered = render_events(evs);
                lines.append(&mut rendered);
                proof {
                    assert(lines.deep_view() =~~= pre + batch);
                    assert((pre + batch) + run_lines(polls@.skip(i + 1)) =~= pre + (batch
                        + run_lines(polls@.skip(i + 1))));
                }
            },
            PollOutcome::Shutdown => {
                proof {
                    assert(lines.deep_view() + Seq::<Seq<char>>::empty() =~= lines.deep_view());
                }
                return (lines, RunEnd::CleanShutdown);
            },
            PollOutcome::Fault(code) => {
                proof {
                    assert(lines.deep_view() + Seq::<Seq<char>>::empty() =~= lines.deep_view());
                }
                return (lines, RunEnd::Fatal(*code));
            },
        }
        i = i + 1;
    }
    proof {
        assert(polls@.skip(polls@.len() as int) =~= Seq::<PollOutcome>::empty());
        assert(lines.deep_view() + Seq::<Seq<char>>::empty() =~= lines.deep_view());
    }
    (lines, RunEnd::Pending)
}

} // verus!
