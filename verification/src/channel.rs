//! The bounded first-in, first-out channel between the poller and the update
//! loop.
//!
//! A [`ChannelBridge`] is made whole: one value owns both ends. While it is
//! whole nobody else can reach the queue, so every operation has an exact
//! effect on the queued sequence, and the laws at the end of this file hold.
//!
//! [`ChannelBridge::split`] parts the bridge into a [`SnapshotSender`] for the
//! background thread and a [`SnapshotReceiver`] for the update loop. From then
//! on each side only knows its own half of the story: what the receiver finds
//! depends on what the sender did in the meantime, so the contracts of the
//! parted ends promise only what is true whatever the other side does.
//!
//! A full channel makes the background sender wait until the update loop has
//! drained it; the update loop itself never waits.

use crossbeam::channel::{Receiver, Sender};
use vstd::prelude::*;

use crate::snapshot::{views, SnapshotView, WeatherSnapshot};

verus! {

/// The capacity of the channel that the widget runs on.
pub const CHANNEL_CAPACITY: usize = 10;

/// The largest capacity a bridge can be asked for. The queue is allocated in
/// full when the bridge is made.
pub const MAX_CHANNEL_CAPACITY: usize = 65536;

#[verifier::external_type_specification]
#[verifier::external_body]
#[verifier::reject_recursive_types(T)]
pub struct ExSender<T>(Sender<T>);

#[verifier::external_type_specification]
#[verifier::external_body]
#[verifier::reject_recursive_types(T)]
pub struct ExReceiver<T>(Receiver<T>);

/// The snapshots that were in the channel behind a receiver when that
/// receiver was last used, oldest first. For a whole bridge that is what the
/// channel holds now, since nobody else can reach it. For a parted receiver
/// the sender may have queued more since, behind these.
pub uninterp spec fn queued(rx: Receiver<WeatherSnapshot>) -> Seq<SnapshotView>;

/// The snapshots that the channel has taken from a parted sender, in the order
/// in which they were sent. Only the sends of that sender add to it.
pub uninterp spec fn handed_over(tx: Sender<WeatherSnapshot>) -> Seq<SnapshotView>;

/// A bounded queue of snapshots with both ends in one hand.
pub struct ChannelBridge {
    tx: Sender<WeatherSnapshot>,
    rx: Receiver<WeatherSnapshot>,
    capacity: usize,
}

/// The sending end of a parted bridge.
pub struct SnapshotSender {
    tx: Sender<WeatherSnapshot>,
}

/// The receiving end of a parted bridge.
pub struct SnapshotReceiver {
    rx: Receiver<WeatherSnapshot>,
}

/// The queue after an attempt to add `item` to `queue` under `capacity`: the
/// item goes to the back if there is room, and is left out otherwise.
pub open spec fn offered(queue: Seq<SnapshotView>, capacity: nat, item: SnapshotView) -> Seq<
    SnapshotView,
> {
    if queue.len() < capacity {
        queue.push(item)
    } else {
        queue
    }
}

/// The queue after an attempt to add each of `items` in turn.
pub open spec fn offered_all(
    queue: Seq<SnapshotView>,
    capacity: nat,
    items: Seq<SnapshotView>,
) -> Seq<SnapshotView>
    decreases items.len(),
{
    if items.len() == 0 {
        queue
    } else {
        offered(offered_all(queue, capacity, items.drop_last()), capacity, items.last())
    }
}

/// Calls `crossbeam::channel::bounded`. The two ends it returns belong to one
/// new channel with room for `capacity` snapshots and nothing queued.
#[verifier::external_body]
fn open_channel(capacity: usize) -> (bridge: ChannelBridge)
    requires
        capacity <= MAX_CHANNEL_CAPACITY,
    ensures
        bridge.capacity == capacity,
        queued(bridge.rx) == Seq::<SnapshotView>::empty(),
{
    let (tx, rx) = crossbeam::channel::bounded(capacity);
    ChannelBridge { tx, rx, capacity }
}

/// Calls `Sender::try_send` on a whole bridge. With both ends held by the
/// caller the receiver is connected and nobody else sends or receives, so the
/// call appends the snapshot when fewer than `capacity` are queued, and hands
/// it back with the queue untouched when the channel is full.
#[verifier::external_body]
fn try_send_whole(bridge: &mut ChannelBridge, snapshot: WeatherSnapshot) -> (r: Result<
    (),
    WeatherSnapshot,
>)
    ensures
        final(bridge).capacity == old(bridge).capacity,
        queued(final(bridge).rx) == offered(
            queued(old(bridge).rx),
            old(bridge).capacity as nat,
            snapshot@,
        ),
        r is Ok <==> queued(old(bridge).rx).len() < old(bridge).capacity,
        r matches Err(back) ==> back@ == snapshot@,
{
    match bridge.tx.try_send(snapshot) {
        Ok(()) => Ok(()),
        Err(e) => Err(e.into_inner()),
    }
}

/// Calls `Receiver::try_recv` on a whole bridge. With both ends held by the
/// caller the sender is connected and nobody else sends or receives, so the
/// call takes the oldest queued snapshot, or returns nothing and changes
/// nothing when the queue is empty.
#[verifier::external_body]
fn try_recv_whole(bridge: &mut ChannelBridge) -> (r: Option<WeatherSnapshot>)
    ensures
        final(bridge).capacity == old(bridge).capacity,
        r is None <==> queued(old(bridge).rx).len() == 0,
        r is None ==> queued(final(bridge).rx) == queued(old(bridge).rx),
        r matches Some(first) ==> first@ == queued(old(bridge).rx).first() && queued(
            final(bridge).rx,
        ) == queued(old(bridge).rx).drop_first(),
{
    bridge.rx.try_recv().ok()
}

/// Calls `Sender::send` on a parted sender: waits while the channel is full,
/// and returns the snapshot when the receiving end is gone. The call returns
/// `Ok` only after it has written the snapshot into the channel, and an error
/// only without having written it; the error carries the snapshot. Which of
/// the two it is depends on the receiving side.
#[verifier::external_body]
fn send_parted(sender: &mut SnapshotSender, snapshot: WeatherSnapshot) -> (r: Result<
    (),
    WeatherSnapshot,
>)
    ensures
        r is Ok ==> handed_over(final(sender).tx) == handed_over(old(sender).tx).push(snapshot@),
        r matches Err(back) ==> back@ == snapshot@ && handed_over(final(sender).tx)
            == handed_over(old(sender).tx),
{
    match sender.tx.send(snapshot) {
        Ok(()) => Ok(()),
        Err(e) => Err(e.into_inner()),
    }
}

/// Calls `Receiver::try_iter` on a parted receiver and collects what it
/// yields. The iterator takes from the front of the channel until it finds the
/// channel empty, and this receiver is the only one that takes. So whatever
/// the sender has added in the meantime, what was in the channel when the
/// receiver was last used comes out first and in order, and at the moment the
/// call returns nothing of what it found is left.
#[verifier::external_body]
fn collect_parted(receiver: &mut SnapshotReceiver) -> (drained: Vec<WeatherSnapshot>)
    ensures
        queued(old(receiver).rx).is_prefix_of(views(drained@)),
        queued(final(receiver).rx) == Seq::<SnapshotView>::empty(),
{
    receiver.rx.try_iter().collect()
}

impl View for ChannelBridge {
    type V = Seq<SnapshotView>;

    /// The queued snapshots, oldest first.
    closed spec fn view(&self) -> Seq<SnapshotView> {
        queued(self.rx)
    }
}

impl ChannelBridge {
    /// The number of snapshots the bridge has room for.
    pub closed spec fn spec_capacity(&self) -> nat {
        self.capacity as nat
    }

    /// An empty bridge with room for [`CHANNEL_CAPACITY`] snapshots.
    pub fn new() -> (bridge: ChannelBridge)
        ensures
            bridge@ == Seq::<SnapshotView>::empty(),
            bridge.spec_capacity() == CHANNEL_CAPACITY,
    {
        open_channel(CHANNEL_CAPACITY)
    }

    /// An empty bridge with room for `capacity` snapshots.
    pub fn with_capacity(capacity: usize) -> (bridge: ChannelBridge)
        requires
            capacity <= MAX_CHANNEL_CAPACITY,
        ensures
            bridge@ == Seq::<SnapshotView>::empty(),
            bridge.spec_capacity() == capacity,
    {
        open_channel(capacity)
    }

    /// The number of snapshots the bridge has room for.
    pub fn capacity(&self) -> (capacity: usize)
        ensures
            capacity == self.spec_capacity(),
    {
        self.capacity
    }

    /// Queues `snapshot` behind everything already queued if there is room.
    /// A full bridge refuses it and hands it back; the queue is then as it
    /// was.
    pub fn try_send(&mut self, snapshot: WeatherSnapshot) -> (r: Result<(), WeatherSnapshot>)
        ensures
            final(self).spec_capacity() == old(self).spec_capacity(),
            final(self)@ == offered(old(self)@, old(self).spec_capacity(), snapshot@),
            r is Ok <==> old(self)@.len() < old(self).spec_capacity(),
            r matches Err(back) ==> back@ == snapshot@,
    {
        try_send_whole(self, snapshot)
    }

    /// Takes every queued snapshot out of the bridge, oldest first. An empty
    /// bridge gives an empty run. Never waits.
    pub fn try_drain(&mut self) -> (drained: Vec<WeatherSnapshot>)
        ensures
            views(drained@) == old(self)@,
            final(self)@ == Seq::<SnapshotView>::empty(),
            final(self).spec_capacity() == old(self).spec_capacity(),
    {
        let mut drained: Vec<WeatherSnapshot> = Vec::new();
        loop
            invariant
                views(drained@) + self@ == old(self)@,
                self.spec_capacity() == old(self).spec_capacity(),
            ensures
                self@.len() == 0,
            decreases self@.len(),
        {
            let ghost before = drained@;
            match try_recv_whole(self) {
                Some(snapshot) => {
                    drained.push(snapshot);
                    proof {
                        assert(views(drained@) == views(before).push(snapshot@));
                    }
                },
                None => {
                    break ;
                },
            }
        }
        proof {
            assert(self@ == Seq::<SnapshotView>::empty());
            assert(views(drained@) + self@ == views(drained@));
        }
        drained
    }

    /// Parts the bridge into its two ends, to be held by two threads. What is
    /// queued stays queued: the receiving end starts out with it.
    pub fn split(self) -> (ends: (SnapshotSender, SnapshotReceiver))
        ensures
            ends.1.queued_at_last_use() == self@,
    {
        (SnapshotSender { tx: self.tx }, SnapshotReceiver { rx: self.rx })
    }
}

impl SnapshotSender {
    /// The snapshots that the channel has taken from this end, in the order
    /// in which they were sent.
    pub closed spec fn handed_over(&self) -> Seq<SnapshotView> {
        handed_over(self.tx)
    }

    /// Queues `snapshot`, waiting for room while the channel is full: the
    /// channel has then taken it, after everything it took from this end
    /// before. When the receiving end no longer exists the snapshot is not
    /// queued and comes back as it was given. Which of the two happens is up
    /// to the receiving side.
    ///
    /// The wait ends when the receiving side drains the channel or goes away,
    /// so the sender belongs on a thread other than the one that drains.
    pub fn send(&mut self, snapshot: WeatherSnapshot) -> (r: Result<(), WeatherSnapshot>)
        ensures
            r is Ok ==> final(self).handed_over() == old(self).handed_over().push(snapshot@),
            r matches Err(back) ==> back@ == snapshot@ && final(self).handed_over() == old(
                self,
            ).handed_over(),
    {
        send_parted(self, snapshot)
    }
}

impl SnapshotReceiver {
    /// The snapshots that were in the channel when this end was last used,
    /// oldest first: when the bridge was parted, or when the last drain
    /// returned. The sender may have queued more since, behind these.
    pub closed spec fn queued_at_last_use(&self) -> Seq<SnapshotView> {
        queued(self.rx)
    }

    /// Takes the snapshots that are queued at this moment out of the channel,
    /// oldest first, without waiting. Returns an empty run when nothing is
    /// queued.
    ///
    /// What was in the channel when this end was last used comes out first,
    /// in the order in which it was queued; what the sender has added since
    /// follows. When the drain returns it has left nothing behind.
    pub fn try_drain(&mut self) -> (drained: Vec<WeatherSnapshot>)
        ensures
            old(self).queued_at_last_use().is_prefix_of(views(drained@)),
            final(self).queued_at_last_use() == Seq::<SnapshotView>::empty(),
    {
        collect_parted(self)
    }
}

/// Offering a run of snapshots to a queue keeps, after what was queued
/// already, as many of them as there is room for, in the order in which they
/// were offered; those that found the queue full are left out.
pub proof fn lemma_offered_all_keeps_what_fits(
    queue: Seq<SnapshotView>,
    capacity: nat,
    items: Seq<SnapshotView>,
)
    requires
        queue.len() <= capacity,
    ensures
        queue.len() + items.len() <= capacity ==> offered_all(queue, capacity, items) == queue
            + items,
        queue.len() + items.len() > capacity ==> offered_all(queue, capacity, items) == (queue
            + items).take(capacity as int),
    decreases items.len(),
{
    if items.len() > 0 {
        let front = items.drop_last();
        lemma_offered_all_keeps_what_fits(queue, capacity, front);
        assert(queue + items == (queue + front).push(items.last()));
        if queue.len() + front.len() > capacity {
            assert((queue + items).take(capacity as int) == (queue + front).take(capacity as int));
        } else if queue.len() + front.len() == capacity {
            assert((queue + items).take(capacity as int) == queue + front);
        }
    } else {
        assert(queue + items == queue);
    }
}

/// A queue never grows beyond its capacity: if it holds no more than that, it
/// holds no more after a snapshot, or a run of snapshots, has been offered to
/// it. A bridge starts empty and changes only by offers and drains, so it
/// never holds more than it has room for.
pub proof fn lemma_offered_within_capacity(
    queue: Seq<SnapshotView>,
    capacity: nat,
    item: SnapshotView,
    items: Seq<SnapshotView>,
)
    requires
        queue.len() <= capacity,
    ensures
        offered(queue, capacity, item).len() <= capacity,
        offered_all(queue, capacity, items).len() <= capacity,
{
    lemma_offered_all_keeps_what_fits(queue, capacity, items);
}

/// Snapshots sent in order into an empty bridge that has room for all of them
/// are queued exactly as sent, so the one drain that follows returns them in
/// that order: [`ChannelBridge::try_send`] queues by [`offered`], and
/// [`ChannelBridge::try_drain`] returns what is queued.
pub proof fn lemma_sent_in_order_drained_in_order(capacity: nat, sent: Seq<SnapshotView>)
    requires
        sent.len() <= capacity,
    ensures
        offered_all(Seq::<SnapshotView>::empty(), capacity, sent) == sent,
{
    lemma_offered_all_keeps_what_fits(Seq::<SnapshotView>::empty(), capacity, sent);
    assert(Seq::<SnapshotView>::empty() + sent == sent);
}

/// A full queue turns the newest snapshot away and stays as it was, so what
/// the receiver later sees skips exactly that snapshot.
pub proof fn lemma_full_queue_refuses(
    queue: Seq<SnapshotView>,
    capacity: nat,
    item: SnapshotView,
)
    requires
        queue.len() >= capacity,
    ensures
        offered(queue, capacity, item) == queue,
{
}

} // verus!
