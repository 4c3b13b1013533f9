use execwatch::channel::BoundedChannel;
use execwatch::channel::ChannelError;
use execwatch::consumer::classify_poll_failure;
use execwatch::consumer::consume_step;
use execwatch::consumer::decode_event;
use execwatch::consumer::render_events;
use execwatch::consumer::run;
use execwatch::consumer::trim_event;
use execwatch::consumer::LoopStep;
use execwatch::consumer::PollOutcome;
use execwatch::consumer::RunEnd;
use execwatch::producer::on_syscall_entry;
use execwatch::producer::Outcome;
use execwatch::producer::ProbeResult;
use execwatch::producer::STR_SLOT_BYTES;
use execwatch::default_panic;

fn string_probe(s: &str) -> ProbeResult<Vec<u8>> {
    let mut bytes = s.as_bytes().to_vec();
    bytes.push(0);
    ProbeResult::Copied(bytes)
}

#[test]
fn reserve_fails_exactly_at_capacity() {
    let mut chan = BoundedChannel::new(16);
    let first = chan.reserve(8).expect("8 of 16 bytes must fit");
    assert_eq!(
        chan.reserve(9).map(|_| ()).unwrap_err(),
        ChannelError::CapacityExceeded
    );
    let second = chan.reserve(8).expect("the remaining 8 bytes must fit");
    assert!(chan.reserve(1).is_err());
    chan.discard(first);
    chan.discard(second);
    let whole = chan.reserve(16).expect("discarding must free every byte");
    chan.discard(whole);
}

#[test]
fn committed_bytes_count_against_capacity() {
    let mut chan = BoundedChannel::new(16);
    let mut slot = chan.reserve(12).expect("12 of 16 bytes must fit");
    slot.fill(&vec![1, 2, 3]);
    chan.commit(slot);
    // The committed event's three bytes stay charged until it is drained.
    assert!(chan.reserve(14).is_err());
    let free = chan.reserve(13).expect("13 of the remaining 13 bytes must fit");
    chan.discard(free);
    let drained = chan.poll();
    assert_eq!(drained, vec![vec![1, 2, 3]]);
    let whole = chan.reserve(16).expect("draining must free the event's bytes");
    chan.discard(whole);
}

#[test]
fn discard_of_unwritten_slot_is_safe() {
    let mut chan = BoundedChannel::new(8);
    let slot = chan.reserve(8).expect("8 of 8 bytes must fit");
    chan.discard(slot);
    assert!(chan.poll().is_empty());
}

#[test]
fn poll_delivers_in_commit_order() {
    let mut chan = BoundedChannel::new(64);
    let mut a = chan.reserve(8).unwrap();
    let mut b = chan.reserve(8).unwrap();
    b.fill(&b"second".to_vec());
    a.fill(&b"first".to_vec());
    chan.commit(a);
    chan.commit(b);
    let mut c = chan.reserve(8).unwrap();
    c.fill(&b"third".to_vec());
    chan.commit(c);
    let drained = chan.poll();
    assert_eq!(
        drained,
        vec![b"first".to_vec(), b"second".to_vec(), b"third".to_vec()]
    );
    assert!(chan.poll().is_empty());
}

#[test]
fn fill_truncates_to_slot_size() {
    let mut chan = BoundedChannel::new(8);
    let mut slot = chan.reserve(4).unwrap();
    slot.fill(&vec![9, 8, 7, 6, 5, 4]);
    chan.commit(slot);
    assert_eq!(chan.poll(), vec![vec![9, 8, 7, 6]]);
}

#[test]
fn producer_commits_the_probed_string() {
    let mut chan = BoundedChannel::new(0x10000);
    let outcome = on_syscall_entry(
        &mut chan,
        0x7fff_0000,
        ProbeResult::Copied(0x7fff_1000),
        string_probe("/bin/ls"),
    );
    assert_eq!(outcome, Outcome::Committed);
    let drained = chan.poll();
    assert_eq!(drained, vec![b"/bin/ls\0".to_vec()]);
}

#[test]
fn producer_truncates_an_overlong_string() {
    let mut chan = BoundedChannel::new(0x10000);
    let outcome = on_syscall_entry(
        &mut chan,
        0x1000,
        ProbeResult::Copied(0x2000),
        ProbeResult::Copied(vec![b'x'; STR_SLOT_BYTES + 0x100]),
    );
    assert_eq!(outcome, Outcome::Committed);
    let drained = chan.poll();
    assert_eq!(drained.len(), 1);
    assert_eq!(drained[0].len(), STR_SLOT_BYTES);
}

#[test]
fn null_argument_pointer_commits_nothing() {
    let mut chan = BoundedChannel::new(0x10000);
    let outcome = on_syscall_entry(
        &mut chan,
        0,
        ProbeResult::Copied(0x2000),
        string_probe("/bin/ls"),
    );
    assert_eq!(outcome, Outcome::NullArgument);
    assert!(chan.poll().is_empty());
}

#[test]
fn null_entry_pointer_commits_nothing() {
    let mut chan = BoundedChannel::new(0x10000);
    let outcome = on_syscall_entry(&mut chan, 0x1000, ProbeResult::Copied(0), string_probe("/bin/ls"));
    assert_eq!(outcome, Outcome::NullEntry);
    assert!(chan.poll().is_empty());
}

#[test]
fn failed_pointer_probe_commits_nothing() {
    let mut chan = BoundedChannel::new(0x10000);
    let outcome = on_syscall_entry(&mut chan, 0x1000, ProbeResult::Fault, string_probe("/bin/ls"));
    assert_eq!(outcome, Outcome::ProbeFault);
    assert!(chan.poll().is_empty());
}

#[test]
fn failed_string_probe_commits_nothing() {
    let mut chan = BoundedChannel::new(0x10000);
    let outcome = on_syscall_entry(
        &mut chan,
        0x1000,
        ProbeResult::Copied(0x2000),
        ProbeResult::Fault,
    );
    assert_eq!(outcome, Outcome::ProbeFault);
    assert!(chan.poll().is_empty());
}

#[test]
fn producer_leaves_no_reservation_behind() {
    let mut chan = BoundedChannel::new(0x10000);
    on_syscall_entry(&mut chan, 0, ProbeResult::Fault, ProbeResult::Fault);
    on_syscall_entry(&mut chan, 0x1000, ProbeResult::Fault, ProbeResult::Fault);
    on_syscall_entry(&mut chan, 0x1000, ProbeResult::Copied(0), ProbeResult::Fault);
    on_syscall_entry(&mut chan, 0x1000, ProbeResult::Copied(0x2000), ProbeResult::Fault);
    on_syscall_entry(&mut chan, 0x1000, ProbeResult::Copied(0x2000), string_probe("/bin/ls"));
    chan.poll();
    // Every invocation closed its reservations, so the full capacity is free.
    let whole = chan.reserve(0x10000).expect("no reservation may be leaked");
    chan.discard(whole);
}

#[test]
fn backpressure_drops_the_event_and_keeps_prior_events() {
    let mut chan = BoundedChannel::new(0x40);
    let mut prior = chan.reserve(0x10).unwrap();
    prior.fill(&b"/sbin/init\0".to_vec());
    chan.commit(prior);
    // The string slot is larger than what is left of the capacity.
    let outcome = on_syscall_entry(
        &mut chan,
        0x1000,
        ProbeResult::Copied(0x2000),
        string_probe("/usr/bin/env"),
    );
    assert_eq!(outcome, Outcome::Backpressure);
    let drained = chan.poll();
    assert_eq!(drained, vec![b"/sbin/init\0".to_vec()]);
}

#[test]
fn backpressure_when_even_the_pointer_slot_does_not_fit() {
    let mut chan = BoundedChannel::new(4);
    let outcome = on_syscall_entry(
        &mut chan,
        0x1000,
        ProbeResult::Copied(0x2000),
        string_probe("/bin/ls"),
    );
    assert_eq!(outcome, Outcome::Backpressure);
    assert!(chan.poll().is_empty());
}

#[test]
fn trim_removes_trailing_terminator_and_whitespace() {
    assert_eq!(trim_event(&b"/bin/ls\0".to_vec()), b"/bin/ls".to_vec());
    assert_eq!(trim_event(&b"/bin/ls\0\0\n\t ".to_vec()), b"/bin/ls".to_vec());
    assert_eq!(trim_event(&b"\0 \n".to_vec()), Vec::<u8>::new());
    assert_eq!(trim_event(&b" a b".to_vec()), b" a b".to_vec());
}

#[test]
fn decode_round_trip_yields_the_text() {
    let decoded = decode_event(&b"/bin/ls\0".to_vec()).expect("valid text must decode");
    assert_eq!(decoded, "/bin/ls");
}

#[test]
fn decode_rejects_invalid_text() {
    assert!(decode_event(&vec![0xff, 0xfe, 0x00]).is_none());
    assert!(decode_event(&vec![0xc3, 0x28]).is_none());
}

#[test]
fn render_skips_undecodable_events() {
    let events = vec![
        b"/bin/ls\0".to_vec(),
        vec![0xff, 0xfe],
        b"/bin/cat\n".to_vec(),
    ];
    let lines = render_events(&events);
    assert_eq!(lines, vec!["/bin/ls".to_string(), "/bin/cat".to_string()]);
}

#[test]
fn two_producers_one_poll_both_strings_once() {
    let mut chan = BoundedChannel::new(0x10000);
    let first = on_syscall_entry(
        &mut chan,
        0x7000_0000,
        ProbeResult::Copied(0x7000_1000),
        string_probe("/usr/bin/a"),
    );
    let second = on_syscall_entry(
        &mut chan,
        0x8000_0000,
        ProbeResult::Copied(0x8000_1000),
        string_probe("/usr/bin/b"),
    );
    assert_eq!(first, Outcome::Committed);
    assert_eq!(second, Outcome::Committed);
    let drained = chan.poll();
    let lines = render_events(&drained);
    assert_eq!(lines, vec!["/usr/bin/a".to_string(), "/usr/bin/b".to_string()]);
}

#[test]
fn shutdown_code_is_recognised() {
    assert!(matches!(classify_poll_failure(-4), PollOutcome::Shutdown));
    assert!(matches!(classify_poll_failure(-9), PollOutcome::Fault(-9)));
    assert!(matches!(classify_poll_failure(0), PollOutcome::Fault(0)));
}

#[test]
fn consume_step_resolves_each_poll_outcome() {
    let step = consume_step(PollOutcome::Delivered(vec![b"/bin/true\0".to_vec()]));
    match step {
        LoopStep::Emit(lines) => assert_eq!(lines, vec!["/bin/true".to_string()]),
        _ => panic!("delivered events must be emitted"),
    }
    assert!(matches!(consume_step(PollOutcome::Shutdown), LoopStep::Finish));
    assert!(matches!(consume_step(PollOutcome::Fault(-9)), LoopStep::Abort(-9)));
}

#[test]
fn run_finishes_cleanly_on_shutdown() {
    let polls = vec![
        PollOutcome::Delivered(vec![b"/bin/ls\0".to_vec()]),
        PollOutcome::Delivered(vec![]),
        PollOutcome::Shutdown,
        PollOutcome::Delivered(vec![b"/bin/late\0".to_vec()]),
    ];
    let (lines, end) = run(polls);
    assert_eq!(end, RunEnd::CleanShutdown);
    assert_eq!(lines, vec!["/bin/ls".to_string()]);
}

#[test]
fn run_aborts_on_any_other_failure() {
    let polls = vec![
        PollOutcome::Delivered(vec![b"/bin/ls\0".to_vec()]),
        PollOutcome::Fault(-9),
        PollOutcome::Shutdown,
    ];
    let (lines, end) = run(polls);
    assert_eq!(end, RunEnd::Fatal(-9));
    assert_eq!(lines, vec!["/bin/ls".to_string()]);
}

#[test]
fn run_reports_a_pending_trace() {
    let (lines, end) = run(vec![PollOutcome::Delivered(vec![])]);
    assert_eq!(end, RunEnd::Pending);
    assert!(lines.is_empty());
}

#[test]
fn hook_status_is_uniform() {
    let mut chan = BoundedChannel::new(0x10000);
    let committed = on_syscall_entry(
        &mut chan,
        0x1000,
        ProbeResult::Copied(0x2000),
        string_probe("/bin/ls"),
    );
    let rejected = on_syscall_entry(&mut chan, 0, ProbeResult::Fault, ProbeResult::Fault);
    assert_eq!(execwatch::producer::hook_status(committed), Err(0));
    assert_eq!(execwatch::producer::hook_status(rejected), Err(0));
}

#[test]
fn panic_fallback_returns() {
    default_panic();
}
