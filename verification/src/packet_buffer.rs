use std::collections::VecDeque;
use vstd::prelude::*;

verus! {

/// How far back, in presentation-time units of 1/60 s, the buffer keeps
/// packets: thirty seconds.
pub const RETENTION_PTS: i64 = 1800;

/// An encoded packet together with its presentation timestamp.
pub struct BufferedPacket<P> {
    pub payload: P,
    pub pts: i64,
}

/// The encoded packets of the most recent stretch of the recording, oldest
/// first.
pub struct PacketBuffer<P> {
    pub packets: VecDeque<BufferedPacket<P>>,
}

/// A packet is stale once the newest packet is more than the retention
/// window past it.
pub open spec fn is_stale(pts: i64, last_pts: i64) -> bool {
    last_pts - pts > RETENTION_PTS
}

/// The number of stale packets at the front of `s`, counted up to the first
/// packet that is not stale.
pub open spec fn stale_prefix_len<P>(s: Seq<BufferedPacket<P>>, last_pts: i64) -> nat
    decreases s.len(),
{
    if s.len() > 0 && is_stale(s[0].pts, last_pts) {
        1 + stale_prefix_len(s.drop_first(), last_pts)
    } else {
        0
    }
}

/// What remains of `s` once the stale packets at its front are dropped.
pub open spec fn retained<P>(s: Seq<BufferedPacket<P>>, last_pts: i64) -> Seq<BufferedPacket<P>> {
    s.skip(stale_prefix_len(s, last_pts) as int)
}

/// The packets are in presentation order.
pub open spec fn pts_ordered<P>(s: Seq<BufferedPacket<P>>) -> bool {
    forall|i: int, j: int| 0 <= i <= j < s.len() ==> s[i].pts <= s[j].pts
}

/// The stale prefix is made of stale packets and ends at the first packet
/// that is not stale.
pub proof fn lemma_stale_prefix<P>(s: Seq<BufferedPacket<P>>, last_pts: i64)
    ensures
        stale_prefix_len(s, last_pts) <= s.len(),
        forall|i: int| 0 <= i < stale_prefix_len(s, last_pts) ==> is_stale(#[trigger] s[i].pts, last_pts),
        stale_prefix_len(s, last_pts) < s.len() ==> !is_stale(s[stale_prefix_len(s, last_pts) as int].pts, last_pts),
    decreases s.len(),
{
    if s.len() > 0 && is_stale(s[0].pts, last_pts) {
        lemma_stale_prefix(s.drop_first(), last_pts);
        assert forall|i: int| 0 <= i < stale_prefix_len(s, last_pts) implies is_stale(#[trigger] s[i].pts, last_pts) by {
            if i > 0 {
                assert(s[i] == s.drop_first()[i - 1]);
            }
        }
    }
}

impl<P> PacketBuffer<P> {
    /// An empty buffer with room for a few dozen packets.
    pub fn new() -> (buffer: Self)
        ensures
            buffer.packets@ == Seq::<BufferedPacket<P>>::empty(),
    {
        PacketBuffer { packets: VecDeque::with_capacity(32) }
    }

    /// Appends a packet and drops, from the front, every packet that is
    /// stale relative to it, up to the first one that is not.
    pub fn push(&mut self, packet: BufferedPacket<P>)
        ensures
            final(self).packets@ == retained(old(self).packets@.push(packet), packet.pts),
    {
        let last_pts = packet.pts;
        self.packets.push_back(packet);

        let ghost all = self.packets@;
        let ghost mut dropped: nat = 0;
        while self.packets.len() > 0 && last_pts as i128 - self.packets[0].pts as i128 > RETENTION_PTS as i128
            invariant
                dropped <= all.len(),
                self.packets@ == all.skip(dropped as int),
                dropped + stale_prefix_len(self.packets@, last_pts) == stale_prefix_len(all, last_pts),
            decreases self.packets@.len(),
        {
            let ghost before = self.packets@;
            self.packets.pop_front();
            proof {
                assert(self.packets@ == before.drop_first());
                assert(all.skip(dropped + 1int) == all.skip(dropped as int).drop_first());
                dropped = dropped + 1;
            }
        }
    }
}

/// The newest packet always survives its own push.
pub proof fn lemma_newest_retained<P>(s: Seq<BufferedPacket<P>>, packet: BufferedPacket<P>)
    ensures
        retained(s.push(packet), packet.pts).len() > 0,
        retained(s.push(packet), packet.pts).last() == packet,
{
    let all = s.push(packet);
    lemma_stale_prefix(all, packet.pts);
    let k = stale_prefix_len(all, packet.pts);
    if k == all.len() {
        assert(is_stale(all[all.len() - 1].pts, packet.pts));
    }
}

/// A buffer kept in presentation order stays in order when a packet that
/// is no older than the others is pushed, and then holds exactly the
/// packets that are within the retention window of the newest one.
pub proof fn lemma_ordered_push_keeps_window<P>(s: Seq<BufferedPacket<P>>, packet: BufferedPacket<P>)
    requires
        pts_ordered(s),
        forall|i: int| 0 <= i < s.len() ==> #[trigger] s[i].pts <= packet.pts,
    ensures
        pts_ordered(retained(s.push(packet), packet.pts)),
        forall|i: int|
            0 <= i < retained(s.push(packet), packet.pts).len()
                ==> !is_stale(#[trigger] retained(s.push(packet), packet.pts)[i].pts, packet.pts),
        forall|i: int|
            0 <= i < s.push(packet).len() && !is_stale(#[trigger] s.push(packet)[i].pts, packet.pts)
                ==> retained(s.push(packet), packet.pts).contains(s.push(packet)[i]),
{
    let all = s.push(packet);
    let last = packet.pts;
    lemma_stale_prefix(all, last);
    let k = stale_prefix_len(all, last) as int;
    let r = retained(all, last);
    assert(pts_ordered(all)) by {
        assert forall|i: int, j: int| 0 <= i <= j < all.len() implies all[i].pts <= all[j].pts by {
            if j == s.len() {
                if i < s.len() {
                    assert(s[i].pts <= packet.pts);
                }
            } else {
                assert(all[i] == s[i] && all[j] == s[j]);
            }
        }
    }
    assert forall|i: int| 0 <= i < r.len() implies !is_stale(#[trigger] r[i].pts, last) by {
        assert(r[i] == all[k + i]);
        assert(all[k].pts <= all[k + i].pts);
    }
    assert forall|i: int| 0 <= i < all.len() && !is_stale(#[trigger] all[i].pts, last) implies r.contains(all[i]) by {
        assert(r[i - k] == all[i]);
    }
}

} // verus!
