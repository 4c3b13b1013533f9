//! A fixed-capacity channel with a reserve / commit-or-discard protocol.
//!
//! Producers obtain an exclusive write slot with [`BoundedChannel::reserve`],
//! fill it, and then terminate it exactly once: [`BoundedChannel::commit`]
//! makes the slot's bytes visible to the consumer as one event,
//! [`BoundedChannel::discard`] releases the slot without publishing anything.
//! The consumer drains committed events, in commit order, with
//! [`BoundedChannel::poll`]. Capacity is accounted in bytes: the bytes held
//! by open reservations plus the bytes of committed-but-undelivered events
//! never exceed the channel's capacity, and `reserve` fails exactly when the
//! requested slot would not fit.

use vstd::prelude::*;

verus! {

/// The mathematical state of a channel: its byte capacity, the bytes held by
/// open reservations, and the committed-but-undelivered events in commit
/// order.
pub ghost struct ChannelModel {
    pub capacity: nat,
    pub reserved: nat,
    pub events: Seq<Seq<u8>>,
}

/// Total length in bytes of a sequence of events.
pub open spec fn sum_len(events: Seq<Seq<u8>>) -> nat
    decreases events.len(),
{
    if events.len() == 0 {
        0
    } else {
        sum_len(events.drop_last()) + events.last().len()
    }
}

pub proof fn lemma_sum_len_push(events: Seq<Seq<u8>>, e: Seq<u8>)
    ensures
        sum_len(events.push(e)) == sum_len(events) + e.len(),
{
    assert(events.push(e).drop_last() =~= events);
}

impl ChannelModel {
    /// Bytes currently charged against the capacity: open reservations plus
    /// committed-but-undelivered events.
    pub open spec fn in_flight(self) -> nat {
        self.reserved + sum_len(self.events)
    }

    /// The capacity invariant: bytes in flight never exceed the capacity.
    pub open spec fn wf(self) -> bool {
        self.in_flight() <= self.capacity
    }

    /// A slot of `size` bytes fits beside everything already in flight.
    pub open spec fn can_reserve(self, size: nat) -> bool {
        self.in_flight() + size <= self.capacity
    }

    pub open spec fn after_reserve(self, size: nat) -> ChannelModel {
        ChannelModel { reserved: self.reserved + size, ..self }
    }

    pub open spec fn after_discard(self, size: nat) -> ChannelModel {
        ChannelModel { reserved: (self.reserved - size) as nat, ..self }
    }

    pub open spec fn after_commit(self, size: nat, payload: Seq<u8>) -> ChannelModel {
        ChannelModel {
            reserved: (self.reserved - size) as nat,
            events: self.events.push(payload),
            ..self
        }
    }

    pub open spec fn after_drain(self) -> ChannelModel {
        ChannelModel { events: Seq::empty(), ..self }
    }
}

/// `payload` cut down to at most `cap` bytes, the prefix that a slot of
/// `cap` bytes can hold.
pub open spec fn truncated(payload: Seq<u8>, cap: nat) -> Seq<u8> {
    if payload.len() <= cap {
        payload
    } else {
        payload.take(cap as int)
    }
}

/// An exclusive write slot of fixed size handed out by `reserve`. A
/// reservation holds at most `slot_size` bytes and is consumed, exactly
/// once, by `commit` or `discard`.
pub struct Reservation {
    size: usize,
    data: Vec<u8>,
}

impl Reservation {
    /// The fixed size of the slot, charged against the channel's capacity.
    pub closed spec fn slot_size(&self) -> nat {
        self.size as nat
    }

    /// The bytes written into the slot so far.
    pub closed spec fn bytes(&self) -> Seq<u8> {
        self.data@
    }

    /// The slot never holds more bytes than its size.
    pub closed spec fn inv(&self) -> bool {
        self.data@.len() <= self.size
    }

    /// Copy `payload` into the slot, truncating to the slot size if it is
    /// longer; any earlier content is replaced.
    pub fn fill(&mut self, payload: &Vec<u8>)
        requires
            old(self).inv(),
        ensures
            final(self).inv(),
            final(self).slot_size() == old(self).slot_size(),
            final(self).bytes() == truncated(payload@, old(self).slot_size()),
    {
        let n: usize = if payload.len() <= self.size {
            payload.len()
        } else {
            self.size
        };
        let mut data: Vec<u8> = Vec::new();
        let mut i: usize = 0;
        while i < n
            invariant
                i <= n,
                n <= payload@.len(),
                n <= self.size,
                data@ =~= payload@.take(i as int),
            decreases n - i,
        {
            data.push(payload[i]);
            assert(data@ =~= payload@.take(i + 1));
            i = i + 1;
        }
        assert(payload@.len() <= self.size ==> payload@.take(n as int) =~= payload@);
        self.data = data;
    }
}

/// A failure of `reserve`: the requested slot does not fit beside the bytes
/// already in flight.
#[derive(Clone, Copy, PartialEq, Eq, Structural, Debug)]
pub enum ChannelError {
    CapacityExceeded,
}

/// A fixed-capacity byte channel carrying events from producers to one
/// consumer. See the module documentation for the protocol.
pub struct BoundedChannel {
    capacity: usize,
    reserved: usize,
    committed_bytes: usize,
    events: Vec<Vec<u8>>,
}

impl View for BoundedChannel {
    type V = ChannelModel;

    closed spec fn view(&self) -> ChannelModel {
        ChannelModel {
            capacity: self.capacity as nat,
            reserved: self.reserved as nat,
            events: self.events.deep_view(),
        }
    }
}

impl BoundedChannel {
    /// The internal accounting matches the model and the capacity invariant
    /// holds.
    pub closed spec fn inv(&self) -> bool {
        &&& self.committed_bytes as nat == sum_len(self@.events)
        &&& self@.wf()
    }

    /// A well-formed channel satisfies the capacity invariant of its model:
    /// bytes in open reservations plus committed-but-undelivered events
    /// never exceed the capacity.
    pub proof fn lemma_inv_wf(&self)
        requires
            self.inv(),
        ensures
            self@.wf(),
    {
    }

    /// An empty channel of the given byte capacity.
    pub fn new(capacity: usize) -> (r: BoundedChannel)
        ensures
            r.inv(),
            r@ == (ChannelModel {
                capacity: capacity as nat,
                reserved: 0,
                events: Seq::empty(),
            }),
    {
        let r = BoundedChannel { capacity, reserved: 0, committed_bytes: 0, events: Vec::new() };
        proof {
            assert(r@.events =~= Seq::<Seq<u8>>::empty());
        }
        r
    }

    /// Reserve an exclusive slot of `size` bytes. Never blocks: it succeeds
    /// exactly when the slot fits beside the bytes already in flight, and
    /// otherwise fails leaving the channel unchanged.
    pub fn reserve(&mut self, size: usize) -> (r: Result<Reservation, ChannelError>)
        requires
            old(self).inv(),
        ensures
            final(self).inv(),
            r is Ok <==> old(self)@.can_reserve(size as nat),
            r matches Ok(res) ==> {
                &&& final(self)@ == old(self)@.after_reserve(size as nat)
                &&& res.inv()
                &&& res.slot_size() == size as nat
                &&& res.bytes() == Seq::<u8>::empty()
            },
            r is Err ==> final(self)@ == old(self)@ && r == Err::<Reservation,
                ChannelError,
            >(ChannelError::CapacityExceeded),
    {
        let remaining: usize = self.capacity - self.reserved - self.committed_bytes;
        if size <= remaining {
            self.reserved = self.reserved + size;
            let res = Reservation { size, data: Vec::new() };
            Ok(res)
        } else {
            Err(ChannelError::CapacityExceeded)
        }
    }

    /// Release a reservation's capacity without publishing its bytes. Safe
    /// whether or not the slot was ever written.
    pub fn discard(&mut self, r: Reservation)
        requires
            old(self).inv(),
            r.slot_size() <= old(self)@.reserved,
        ensures
            final(self).inv(),
            final(self)@ == old(self)@.after_discard(r.slot_size()),
    {
        self.reserved = self.reserved - r.size;
    }

    /// Publish a reservation's bytes as one event, irrevocably, releasing
    /// the slot's capacity. The event takes its place at the end of the
    /// delivery order.
    pub fn commit(&mut self, r: Reservation)
        requires
            old(self).inv(),
            r.inv(),
            r.slot_size() <= old(self)@.reserved,
        ensures
            final(self).inv(),
            final(self)@ == old(self)@.after_commit(r.slot_size(), r.bytes()),
    {
        proof {
            lemma_sum_len_push(self@.events, r.bytes());
        }
        let Reservation { size, data } = r;
        self.reserved = self.reserved - size;
        self.committed_bytes = self.committed_bytes + data.len();
        let ghost old_view = self.events@;
        let ghost old_events = self.events.deep_view();
        let ghost payload = data@;
        self.events.push(data);
        proof {
            assert(self.events@ =~= old_view.push(data));
            assert(self.events.deep_view() =~~= old_events.push(payload));
        }
    }

    /// Drain every committed-but-undelivered event, in commit order. The
    /// channel keeps its capacity and its open reservations.
    pub fn poll(&mut self) -> (r: Vec<Vec<u8>>)
        requires
            old(self).inv(),
        ensures
            final(self).inv(),
            r.deep_view() == old(self)@.events,
            final(self)@ == old(self)@.after_drain(),
    {
        let mut out: Vec<Vec<u8>> = Vec::new();
        core::mem::swap(&mut out, &mut self.events);
        self.committed_bytes = 0;
        proof {
            assert(self.events.deep_view() =~= Seq::<Seq<u8>>::empty());
        }
        out
    }
}

/// Delivery preserves commit order: committing payload `a` and then payload
/// `b`, from any channel state, places `a` strictly before `b` in the event
/// sequence that `poll` later delivers.
pub proof fn lemma_commit_order(
    m: ChannelModel,
    sa: nat,
    a: Seq<u8>,
    sb: nat,
    b: Seq<u8>,
)
    ensures
        ({
            let after = m.after_commit(sa, a).after_commit(sb, b);
            &&& after.events.len() == m.events.len() + 2
            &&& after.events[m.events.len() as int] == a
            &&& after.events[m.events.len() as int + 1] == b
        }),
{
}

/// The capacity law: every protocol step keeps the bytes in open
/// reservations plus committed-but-undelivered events within the capacity.
/// `reserve` preserves it when the slot fits (and is refused otherwise),
/// `discard` and `commit` preserve it for any reservation the channel handed
/// out, and draining only frees capacity.
pub proof fn lemma_capacity_preserved(m: ChannelModel, size: nat, payload: Seq<u8>)
    requires
        m.wf(),
    ensures
        m.can_reserve(size) ==> m.after_reserve(size).wf(),
        size <= m.reserved ==> m.after_discard(size).wf(),
        size <= m.reserved && payload.len() <= size ==> m.after_commit(size, payload).wf(),
        m.after_drain().wf(),
{
    lemma_sum_len_push(m.events, payload);
}

} // verus!
