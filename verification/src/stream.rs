//! The streams that share the datagram socket of a session, and the packets of a stream that
//! wait for their subscriber.

use std::collections::VecDeque;
use vstd::prelude::*;

verus! {

/// The streams of a session.
#[derive(Clone, Copy, PartialEq, Eq, Debug, Structural)]
pub enum StreamId {
    Video,
    Audio,
    Haptics,
    Tracking,
    Statistics,
}

/// Who sends on a stream.
#[derive(Clone, Copy, PartialEq, Eq, Debug, Structural)]
pub enum StreamDirection {
    /// The server sends, the client subscribes.
    ServerToClient,
    /// The client sends, the server subscribes.
    ClientToServer,
    /// Both send: game audio one way, the microphone the other.
    Both,
}

impl StreamId {
    /// The direction of a stream: video and haptics come from the server, tracking and
    /// statistics go to it, audio goes both ways.
    pub open spec fn spec_direction(self) -> StreamDirection {
        match self {
            StreamId::Video | StreamId::Haptics => StreamDirection::ServerToClient,
            StreamId::Tracking | StreamId::Statistics => StreamDirection::ClientToServer,
            StreamId::Audio => StreamDirection::Both,
        }
    }

    /// The direction of a stream.
    pub fn direction(self) -> (r: StreamDirection)
        ensures
            r == self.spec_direction(),
    {
        match self {
            StreamId::Video | StreamId::Haptics => StreamDirection::ServerToClient,
            StreamId::Tracking | StreamId::Statistics => StreamDirection::ClientToServer,
            StreamId::Audio => StreamDirection::Both,
        }
    }
}

/// What a queue of unread packets is: its bound and the packets, oldest first.
pub struct UnreadModel<T> {
    pub max_unread: usize,
    pub packets: Seq<T>,
}

impl<T> UnreadModel<T> {
    /// The queue holds no more packets than its bound.
    pub open spec fn within_bound(self) -> bool {
        self.packets.len() <= self.max_unread
    }

    /// Whether one more packet is one too many.
    pub open spec fn is_full(self) -> bool {
        self.packets.len() >= self.max_unread
    }

    /// The queue after a packet arrived: where it was full, the oldest packet is gone.
    pub open spec fn pushed(self, packet: T) -> UnreadModel<T> {
        UnreadModel {
            packets: if self.is_full() {
                self.packets.push(packet).drop_first()
            } else {
                self.packets.push(packet)
            },
            ..self
        }
    }

    /// The packet that leaves as another arrives: the oldest of a full queue, which is the
    /// arriving packet itself where the bound is zero.
    pub open spec fn displaced(self, packet: T) -> Option<T> {
        if self.is_full() {
            Some(self.packets.push(packet).first())
        } else {
            None
        }
    }
}

/// The packets of one stream that its subscriber has not read yet. The queue is bounded: a
/// packet that arrives at a full queue pushes the oldest one out.
pub struct UnreadPackets<T> {
    max_unread: usize,
    packets: VecDeque<T>,
}

impl<T> View for UnreadPackets<T> {
    type V = UnreadModel<T>;

    closed spec fn view(&self) -> UnreadModel<T> {
        UnreadModel { max_unread: self.max_unread, packets: self.packets@ }
    }
}

impl<T> UnreadPackets<T> {
    /// An empty queue for at most `max_unread` packets.
    pub fn new(max_unread: usize) -> (r: UnreadPackets<T>)
        ensures
            r@ == (UnreadModel::<T> { max_unread, packets: Seq::empty() }),
            r@.within_bound(),
    {
        UnreadPackets { max_unread, packets: VecDeque::new() }
    }

    /// The number of packets that wait.
    pub fn len(&self) -> (r: usize)
        ensures
            r == self@.packets.len(),
    {
        self.packets.len()
    }

    /// Takes in a packet and hands back the one that it pushed out, if any.
    pub fn push(&mut self, packet: T) -> (dropped: Option<T>)
        requires
            old(self)@.within_bound(),
        ensures
            final(self)@ == old(self)@.pushed(packet),
            dropped == old(self)@.displaced(packet),
            final(self)@.within_bound(),
    {
        let full = self.packets.len() >= self.max_unread;
        self.packets.push_back(packet);
        if full {
            let dropped = self.packets.pop_front();
            assert(self.packets@ =~= old(self)@.packets.push(packet).drop_first());
            dropped
        } else {
            None
        }
    }

    /// Hands out the oldest packet that waits, if any.
    pub fn pop(&mut self) -> (packet: Option<T>)
        ensures
            final(self)@.max_unread == old(self)@.max_unread,
            match packet {
                Some(oldest) => {
                    &&& old(self)@.packets.len() > 0
                    &&& oldest == old(self)@.packets.first()
                    &&& final(self)@.packets == old(self)@.packets.drop_first()
                },
                None => old(self)@.packets.len() == 0 && final(self)@ == old(self)@,
            },
            old(self)@.within_bound() ==> final(self)@.within_bound(),
    {
        let packet = self.packets.pop_front();
        proof {
            if packet is Some {
                assert(self.packets@ =~= old(self)@.packets.drop_first());
            }
        }
        packet
    }
}

/// An arrival keeps a queue within its bound. Where the bound is not zero, the packet that
/// arrived is the newest of the queue, and every other packet of the queue waited there
/// before.
pub proof fn lemma_queue_keeps_the_newest<T>(queue: UnreadModel<T>, packet: T)
    requires
        queue.within_bound(),
    ensures
        queue.pushed(packet).within_bound(),
        queue.max_unread > 0 ==> queue.pushed(packet).packets.last() == packet,
        queue.max_unread > 0 ==> queue.pushed(packet).packets.len() == if queue.is_full() {
            queue.packets.len()
        } else {
            queue.packets.len() + 1
        },
        forall|i: int|
            0 <= i < queue.pushed(packet).packets.len() - 1 ==> queue.packets.contains(
                #[trigger] queue.pushed(packet).packets[i],
            ),
{
    let after = queue.pushed(packet).packets;
    assert forall|i: int| 0 <= i < after.len() - 1 implies queue.packets.contains(
        #[trigger] after[i],
    ) by {
        if queue.is_full() {
            assert(after[i] == queue.packets[i + 1]);
        } else {
            assert(after[i] == queue.packets[i]);
        }
    }
}

} // verus!
