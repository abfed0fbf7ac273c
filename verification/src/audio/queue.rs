//! The bounded first-in first-out queue that connects a producer of audio
//! packets with its consumer.

use std::collections::VecDeque;
use vstd::prelude::*;

use crate::audio::{packet_views, AudioStreamPacket, PacketView};

verus! {

/// Whether a queue that holds `queue` and has room for `capacity` packets
/// accepts one more.
pub open spec fn accepts(queue: Seq<PacketView>, capacity: nat) -> bool {
    queue.len() < capacity
}

/// The contents after one push: the packet goes to the back if it is
/// accepted, and is dropped otherwise.
pub open spec fn after_push(queue: Seq<PacketView>, capacity: nat, packet: PacketView) -> Seq<
    PacketView,
> {
    if accepts(queue, capacity) {
        queue.push(packet)
    } else {
        queue
    }
}

/// The contents after pushing each of `packets` in turn.
pub open spec fn after_pushes(
    queue: Seq<PacketView>,
    capacity: nat,
    packets: Seq<PacketView>,
) -> Seq<PacketView>
    decreases packets.len(),
{
    if packets.len() == 0 {
        queue
    } else {
        after_push(after_pushes(queue, capacity, packets.drop_last()), capacity, packets.last())
    }
}

/// How many of the pushes of `packets`, made in turn, are refused.
pub open spec fn refused_pushes(
    queue: Seq<PacketView>,
    capacity: nat,
    packets: Seq<PacketView>,
) -> nat
    decreases packets.len(),
{
    if packets.len() == 0 {
        0
    } else {
        let earlier = packets.drop_last();
        let refused: nat = if accepts(after_pushes(queue, capacity, earlier), capacity) {
            0
        } else {
            1
        };
        refused_pushes(queue, capacity, earlier) + refused
    }
}

/// One operation on a queue, as a producer or a consumer issues it.
pub enum QueueOp {
    Push(PacketView),
    Drain,
}

/// What a run of operations leaves behind.
pub struct QueueRun {
    /// The packets still in the queue.
    pub queue: Seq<PacketView>,
    /// The packets that the pushes accepted, in the order of the pushes.
    pub accepted: Seq<PacketView>,
    /// The packets that the drains handed out, one drain after the other.
    pub drained: Seq<PacketView>,
}

/// The outcome of applying `ops` in turn to a queue that holds `queue`.
pub open spec fn run_ops(queue: Seq<PacketView>, capacity: nat, ops: Seq<QueueOp>) -> QueueRun
    decreases ops.len(),
{
    if ops.len() == 0 {
        QueueRun {
            queue,
            accepted: Seq::<PacketView>::empty(),
            drained: Seq::<PacketView>::empty(),
        }
    } else {
        let before = run_ops(queue, capacity, ops.drop_last());
        match ops.last() {
            QueueOp::Push(packet) => QueueRun {
                queue: after_push(before.queue, capacity, packet),
                accepted: if accepts(before.queue, capacity) {
                    before.accepted.push(packet)
                } else {
                    before.accepted
                },
                drained: before.drained,
            },
            QueueOp::Drain => QueueRun {
                queue: Seq::<PacketView>::empty(),
                accepted: before.accepted,
                drained: before.drained + before.queue,
            },
        }
    }
}

/// A queue never grows beyond its capacity: after any number of pushes it
/// holds the smaller of its capacity and what was offered to it, and the
/// pushes beyond the capacity are exactly the refused ones.
pub proof fn lemma_queue_bound(queue: Seq<PacketView>, capacity: nat, packets: Seq<PacketView>)
    requires
        queue.len() <= capacity,
    ensures
        after_pushes(queue, capacity, packets).len() <= capacity,
        after_pushes(queue, capacity, packets).len() == if queue.len() + packets.len()
            <= capacity {
            queue.len() + packets.len()
        } else {
            capacity
        },
        refused_pushes(queue, capacity, packets) == if queue.len() + packets.len() <= capacity {
            0
        } else {
            queue.len() + packets.len() - capacity
        },
    decreases packets.len(),
{
    if packets.len() > 0 {
        lemma_queue_bound(queue, capacity, packets.drop_last());
    }
}

/// The bound holds at every moment of a run of pushes, not only at its end.
pub proof fn lemma_queue_bound_throughout(
    queue: Seq<PacketView>,
    capacity: nat,
    packets: Seq<PacketView>,
    done: int,
)
    requires
        queue.len() <= capacity,
        0 <= done <= packets.len(),
    ensures
        after_pushes(queue, capacity, packets.take(done)).len() <= capacity,
{
    lemma_queue_bound(queue, capacity, packets.take(done));
}

/// Of more pushes into an empty queue than it has room for, exactly the
/// excess is refused, and the queue ends up full.
pub proof fn lemma_overflow_refuses_excess(capacity: nat, packets: Seq<PacketView>)
    requires
        packets.len() > capacity,
    ensures
        after_pushes(Seq::<PacketView>::empty(), capacity, packets).len() == capacity,
        refused_pushes(Seq::<PacketView>::empty(), capacity, packets) == packets.len() - capacity,
{
    lemma_queue_bound(Seq::<PacketView>::empty(), capacity, packets);
}

/// The packets that stay in the queue are the first ones offered: a full
/// queue drops the newest packet, never an older one.
pub proof fn lemma_pushes_keep_oldest(capacity: nat, packets: Seq<PacketView>)
    ensures
        after_pushes(Seq::<PacketView>::empty(), capacity, packets) == if packets.len()
            <= capacity {
            packets
        } else {
            packets.take(capacity as int)
        },
    decreases packets.len(),
{
    let empty = Seq::<PacketView>::empty();
    if packets.len() == 0 {
        assert(after_pushes(empty, capacity, packets) =~= packets);
    } else {
        let earlier = packets.drop_last();
        lemma_pushes_keep_oldest(capacity, earlier);
        if packets.len() <= capacity {
            assert(earlier.push(packets.last()) =~= packets);
        } else if earlier.len() <= capacity {
            assert(earlier =~= packets.take(capacity as int));
        } else {
            assert(earlier.take(capacity as int) =~= packets.take(capacity as int));
        }
    }
}

/// However pushes and drains are interleaved, every accepted packet leaves
/// the queue whole, exactly once and in the order of the pushes: what the
/// drains handed out, followed by what is still queued, is what was there
/// at the start followed by what was accepted.
pub proof fn lemma_drains_take_whole_packets(
    queue: Seq<PacketView>,
    capacity: nat,
    ops: Seq<QueueOp>,
)
    ensures
        run_ops(queue, capacity, ops).drained + run_ops(queue, capacity, ops).queue == queue
            + run_ops(queue, capacity, ops).accepted,
    decreases ops.len(),
{
    let end = run_ops(queue, capacity, ops);
    if ops.len() == 0 {
        assert(end.drained + end.queue =~= queue + end.accepted);
    } else {
        let before = run_ops(queue, capacity, ops.drop_last());
        lemma_drains_take_whole_packets(queue, capacity, ops.drop_last());
        match ops.last() {
            QueueOp::Push(packet) => {
                if accepts(before.queue, capacity) {
                    assert(end.drained + end.queue =~= (before.drained + before.queue).push(
                        packet,
                    ));
                    assert(queue + end.accepted =~= (queue + before.accepted).push(packet));
                }
            },
            QueueOp::Drain => {
                assert(end.drained + end.queue =~= before.drained + before.queue);
            },
        }
    }
}

/// A drain that follows a push hands the packet out with the rest; a drain
/// that precedes it leaves the packet in the queue. Either way the packet is
/// in exactly one of the two places, complete.
pub proof fn lemma_drain_includes_or_excludes(
    queue: Seq<PacketView>,
    capacity: nat,
    packet: PacketView,
)
    requires
        queue.len() < capacity,
    ensures
        run_ops(queue, capacity, seq![QueueOp::Push(packet), QueueOp::Drain]).drained
            == queue.push(packet),
        run_ops(queue, capacity, seq![QueueOp::Push(packet), QueueOp::Drain]).queue
            == Seq::<PacketView>::empty(),
        run_ops(queue, capacity, seq![QueueOp::Drain, QueueOp::Push(packet)]).drained == queue,
        run_ops(queue, capacity, seq![QueueOp::Drain, QueueOp::Push(packet)]).queue
            == seq![packet],
{
    let push_first = seq![QueueOp::Push(packet), QueueOp::Drain];
    let drain_first = seq![QueueOp::Drain, QueueOp::Push(packet)];
    assert(push_first.drop_last() =~= seq![QueueOp::Push(packet)]);
    assert(drain_first.drop_last() =~= seq![QueueOp::Drain]);
    assert(seq![QueueOp::Push(packet)].drop_last() =~= Seq::<QueueOp>::empty());
    assert(seq![QueueOp::Drain].drop_last() =~= Seq::<QueueOp>::empty());
    reveal_with_fuel(run_ops, 3);
    let a = run_ops(queue, capacity, push_first);
    let b = run_ops(queue, capacity, drain_first);
    assert(a.drained =~= queue.push(packet));
    assert(b.drained =~= queue);
    assert(b.queue =~= seq![packet]);
}

/// A queue of audio packets that never holds more than `capacity` of them.
/// A packet that arrives while the queue is full is dropped.
pub struct BoundedPacketQueue {
    packets: VecDeque<AudioStreamPacket>,
    capacity: usize,
}

impl BoundedPacketQueue {
    #[verifier::type_invariant]
    spec fn within_capacity(self) -> bool {
        self.packets@.len() <= self.capacity
    }

    /// The packets in the queue, oldest first.
    pub closed spec fn view(&self) -> Seq<PacketView> {
        packet_views(self.packets@)
    }

    /// The largest number of packets that the queue holds.
    pub closed spec fn spec_capacity(&self) -> nat {
        self.capacity as nat
    }

    /// An empty queue for at most `capacity` packets.
    pub fn new(capacity: usize) -> (queue: Self)
        ensures
            queue@ == Seq::<PacketView>::empty(),
            queue.spec_capacity() == capacity,
    {
        let queue = BoundedPacketQueue { packets: VecDeque::new(), capacity };
        assert(queue@ =~= Seq::<PacketView>::empty());
        queue
    }

    /// An empty queue for as many packets as fit in a window of
    /// `window_ms` milliseconds when each packet carries a frame of
    /// `frame_duration_ms` milliseconds. A frame duration of 0 gives no
    /// queue.
    pub fn with_window(window_ms: usize, frame_duration_ms: usize) -> (queue: Option<Self>)
        ensures
            queue is Some == (frame_duration_ms > 0),
            queue matches Some(q) ==> q@ == Seq::<PacketView>::empty() && q.spec_capacity()
                == window_ms / frame_duration_ms,
    {
        if frame_duration_ms == 0 {
            None
        } else {
            Some(Self::new(window_ms / frame_duration_ms))
        }
    }

    /// The largest number of packets that the queue holds.
    #[verifier::when_used_as_spec(spec_capacity_usize)]
    pub fn capacity(&self) -> (capacity: usize)
        ensures
            capacity == self.spec_capacity(),
    {
        self.capacity
    }

    /// The capacity as a machine integer.
    pub closed spec fn spec_capacity_usize(&self) -> usize {
        self.capacity
    }

    /// The number of packets in the queue.
    pub fn len(&self) -> (len: usize)
        ensures
            len == self@.len(),
            len <= self.spec_capacity(),
    {
        proof {
            use_type_invariant(self);
        }
        self.packets.len()
    }

    /// Appends `packet` unless the queue is full. Returns whether the packet
    /// was accepted; a refused packet is dropped and the queue is unchanged.
    pub fn push(&mut self, packet: AudioStreamPacket) -> (accepted: bool)
        ensures
            final(self).spec_capacity() == old(self).spec_capacity(),
            accepted == accepts(old(self)@, old(self).spec_capacity()),
            final(self)@ == after_push(old(self)@, old(self).spec_capacity(), packet@),
            final(self)@.len() <= final(self).spec_capacity(),
    {
        proof {
            use_type_invariant(&*self);
        }
        if self.packets.len() >= self.capacity {
            return false;
        }
        let mut packets: VecDeque<AudioStreamPacket> = VecDeque::new();
        std::mem::swap(&mut self.packets, &mut packets);
        let ghost before = packets@;
        packets.push_back(packet);
        assert(packet_views(packets@) =~= packet_views(before).push(packet@));
        std::mem::swap(&mut self.packets, &mut packets);
        true
    }

    /// Takes every packet out of the queue, oldest first, and leaves the
    /// queue empty.
    pub fn drain_all(&mut self) -> (drained: Vec<AudioStreamPacket>)
        ensures
            final(self).spec_capacity() == old(self).spec_capacity(),
            packet_views(drained@) == old(self)@,
            final(self)@ == Seq::<PacketView>::empty(),
    {
        let mut taken: VecDeque<AudioStreamPacket> = VecDeque::new();
        std::mem::swap(&mut self.packets, &mut taken);
        let ghost all = taken@;
        let mut drained: Vec<AudioStreamPacket> = Vec::new();
        while taken.len() > 0
            invariant
                drained@ + taken@ == all,
            decreases taken@.len(),
        {
            let ghost done = drained@;
            if let Some(packet) = taken.pop_front() {
                drained.push(packet);
                assert(drained@ + taken@ =~= done + seq![packet] + taken@);
            }
        }
        assert(drained@ =~= all);
        assert(final(self)@ =~= Seq::<PacketView>::empty());
        drained
    }
}

} // verus!
