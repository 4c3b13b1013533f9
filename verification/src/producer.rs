//! The event producer: the bounded-time logic run once per tracked syscall
//! entry.
//!
//! On entry the hook reads the argument-vector pointer from a fixed offset
//! of the syscall context, probes the calling process's memory for the first
//! argument pointer and then for the argument string, and stages the string
//! into the shared channel. Both probes read foreign, untrusted memory and
//! may fail; the surrounding runtime performs them and hands their outcomes
//! to [`on_syscall_entry`], which makes every decision: when to reserve,
//! what to commit, and when to discard. Every reservation it opens is closed
//! before it returns, and nothing is committed unless both probes succeed on
//! a non-null pointer chain.

use vstd::prelude::*;

use crate::channel::BoundedChannel;
use crate::channel::ChannelModel;
use crate::channel::truncated;

verus! {

/// Size in bytes of the transient slot that stages the probed argument
/// pointer: one address-sized value.
pub const PTR_SLOT_BYTES: usize = 8;

/// Size in bytes of the slot that carries one argument string; longer
/// strings are truncated to this many bytes.
pub const STR_SLOT_BYTES: usize = 0x200;

/// The outcome of one bounded, non-faulting probe of foreign memory: either
/// the copied value or a clean failure.
pub enum ProbeResult<T> {
    Copied(T),
    Fault,
}

/// How one syscall entry was resolved. Exactly one of these holds; only
/// `Committed` publishes an event.
#[derive(Clone, Copy, PartialEq, Eq, Structural, Debug)]
pub enum Outcome {
    /// Both probes succeeded and the argument string was committed.
    Committed,
    /// The argument-vector pointer was null: a benign no-op.
    NullArgument,
    /// The first argument pointer read from foreign memory was null: a
    /// benign no-op.
    NullEntry,
    /// A reservation failed for want of capacity; the event is dropped.
    Backpressure,
    /// A foreign-memory probe failed; the reservation was discarded and the
    /// event dropped.
    ProbeFault,
}

/// The entry commits an event: the argument-vector pointer is non-null,
/// the pointer slot fits, the first probe copies a non-null pointer, the
/// string slot fits, and the string probe succeeds.
pub open spec fn commits_event(
    m: ChannelModel,
    argv: u64,
    ptr_probe: ProbeResult<u64>,
    str_probe: ProbeResult<Vec<u8>>,
) -> bool {
    &&& argv != 0
    &&& m.can_reserve(PTR_SLOT_BYTES as nat)
    &&& ptr_probe matches ProbeResult::Copied(entry) && entry != 0
    &&& m.can_reserve(STR_SLOT_BYTES as nat)
    &&& str_probe is Copied
}

/// The entry ends as a benign no-op because the probed first argument
/// pointer is null.
pub open spec fn ends_null_entry(m: ChannelModel, argv: u64, ptr_probe: ProbeResult<u64>) -> bool {
    &&& argv != 0
    &&& m.can_reserve(PTR_SLOT_BYTES as nat)
    &&& ptr_probe matches ProbeResult::Copied(entry) && entry == 0
}

/// The entry is dropped because a reservation failed: either the pointer
/// slot did not fit, or everything up to the string slot went well and the
/// string slot did not fit.
pub open spec fn ends_backpressure(
    m: ChannelModel,
    argv: u64,
    ptr_probe: ProbeResult<u64>,
) -> bool {
    &&& argv != 0
    &&& !(m.can_reserve(PTR_SLOT_BYTES as nat)
        && (ptr_probe matches ProbeResult::Copied(entry) && entry != 0 ==> m.can_reserve(
            STR_SLOT_BYTES as nat,
        )))
}

/// The entry is dropped because a probe of foreign memory failed: the first
/// probe, or the string probe after a successful first probe.
pub open spec fn ends_probe_fault(
    m: ChannelModel,
    argv: u64,
    ptr_probe: ProbeResult<u64>,
    str_probe: ProbeResult<Vec<u8>>,
) -> bool {
    &&& argv != 0
    &&& m.can_reserve(PTR_SLOT_BYTES as nat)
    &&& {
        ||| ptr_probe is Fault
        ||| (ptr_probe matches ProbeResult::Copied(entry) && entry != 0 && m.can_reserve(
            STR_SLOT_BYTES as nat,
        ) && str_probe is Fault)
    }
}

/// Resolve one tracked syscall entry against the shared channel.
///
/// `argv` is the address-sized value read from the fixed offset of the
/// syscall context; `ptr_probe` is the outcome of the bounded probe at
/// `argv` for the first argument pointer, and `str_probe` the outcome of
/// the bounded probe at that pointer for the argument string. Each probe
/// outcome is consulted only on the paths where the protocol reaches the
/// corresponding probe.
///
/// Every reservation opened here is committed or discarded before the call
/// returns, so the channel's open-reservation bytes end exactly where they
/// began. An event is committed exactly when the whole chain succeeds: the
/// committed payload is the probed string truncated to the string slot, and
/// on every other path the channel's events are untouched — in particular a
/// null argument pointer or a failed first probe never publishes anything.
pub fn on_syscall_entry(
    chan: &mut BoundedChannel,
    argv: u64,
    ptr_probe: ProbeResult<u64>,
    str_probe: ProbeResult<Vec<u8>>,
) -> (r: Outcome)
    requires
        old(chan).inv(),
    ensures
        final(chan).inv(),
        final(chan)@.capacity == old(chan)@.capacity,
        final(chan)@.reserved == old(chan)@.reserved,
        r is Committed <==> commits_event(old(chan)@, argv, ptr_probe, str_probe),
        r is Committed ==> (str_probe matches ProbeResult::Copied(s) && final(chan)@.events
            == old(chan)@.events.push(truncated(s@, STR_SLOT_BYTES as nat))),
        !(r is Committed) ==> final(chan)@.events == old(chan)@.events,
        r is NullArgument <==> argv == 0,
        r is NullEntry <==> ends_null_entry(old(chan)@, argv, ptr_probe),
        r is Backpressure <==> ends_backpressure(old(chan)@, argv, ptr_probe),
        r is ProbeFault <==> ends_probe_fault(old(chan)@, argv, ptr_probe, str_probe),
{
    if argv == 0 {
        return Outcome::NullArgument;
    }
    let ptr_slot = match chan.reserve(PTR_SLOT_BYTES) {
        Ok(slot) => slot,
        Err(_) => {
            return Outcome::Backpressure;
        },
    };
    let entry: u64 = match ptr_probe {
        ProbeResult::Copied(entry) => entry,
        ProbeResult::Fault => {
            chan.discard(ptr_slot);
            return Outcome::ProbeFault;
        },
    };
    // The probed value has served its purpose once it is read back out of
    // the slot; the slot itself is never published.
    chan.discard(ptr_slot);
    if entry == 0 {
        return Outcome::NullEntry;
    }
    let mut str_slot = match chan.reserve(STR_SLOT_BYTES) {
        Ok(slot) => slot,
        Err(_) => {
            return Outcome::Backpressure;
        },
    };
    match str_probe {
        ProbeResult::Copied(bytes) => {
            str_slot.fill(&bytes);
            chan.commit(str_slot);
            Outcome::Committed
        },
        ProbeResult::Fault => {
            chan.discard(str_slot);
            Outcome::ProbeFault
        },
    }
}

/// The flat status reported to the calling hook context. The platform takes
/// a single non-zero rejection code as "handled, do not continue default
/// syscall handling", not as a true error channel, so every outcome —
/// committed, no-op, backpressure or probe fault — signals the same code.
pub fn hook_status(outcome: Outcome) -> (r: Result<(), i32>)
    ensures
        r == Err::<(), i32>(0i32),
{
    let _ = outcome;
    Err(0)
}

} // verus!
