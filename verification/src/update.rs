//! The per-tick update loop: drains the channel and decides what the screen
//! shows.
//!
//! The screen shows one temperature and, for every icon of the catalog, an
//! opacity. Each drained snapshot overwrites both, in the order in which the
//! snapshots were queued, so after a tick the screen shows the last snapshot
//! drained, and a tick that drains nothing changes nothing.

use vstd::prelude::*;

use crate::channel::{lemma_sent_in_order_drained_in_order, offered_all, SnapshotReceiver};
use crate::icons::{selected, IconSelector, Opacity};
use crate::render_plugin::{identifiers, ImageName};
use crate::snapshot::{views, SnapshotView, Temperature, WeatherSnapshot};

verus! {

/// The text in the temperature's place until the first snapshot arrives.
pub const PLACEHOLDER_TEXT: &'static str = "No Value";

/// What the screen shows: the temperature, if one has arrived yet, and the
/// opacity of each icon in catalog order.
pub struct DisplayView {
    pub temperature: Option<Temperature>,
    pub opacities: Seq<Opacity>,
}

/// The screen before any snapshot has arrived: no temperature, and every
/// icon of the catalog transparent.
pub open spec fn blank(catalog: Seq<Seq<char>>) -> DisplayView {
    DisplayView {
        temperature: None,
        opacities: Seq::new(catalog.len(), |i: int| Opacity::Transparent),
    }
}

/// The screen after `snapshot` has been applied: its temperature, and its
/// icon as the only opaque one.
pub open spec fn shown(catalog: Seq<Seq<char>>, snapshot: SnapshotView) -> DisplayView {
    DisplayView {
        temperature: Some(snapshot.temperature),
        opacities: selected(catalog, snapshot.icon_id),
    }
}

/// The screen after each of `snapshots` has been applied in turn, first to
/// last, to a screen that showed `display`. Applying a snapshot overwrites the
/// screen as a whole.
pub open spec fn shown_after_all(
    catalog: Seq<Seq<char>>,
    display: DisplayView,
    snapshots: Seq<SnapshotView>,
) -> DisplayView {
    snapshots.fold_left(
        display,
        |before: DisplayView, snapshot: SnapshotView| shown(catalog, snapshot),
    )
}

/// The foreground side of the widget. It owns the receiving end of the
/// channel, the icon catalog and what the screen shows.
pub struct UpdateLoop {
    receiver: SnapshotReceiver,
    catalog: Vec<ImageName>,
    temperature: Option<Temperature>,
    opacities: Vec<Opacity>,
}

impl UpdateLoop {
    /// The identifiers of the catalog, in catalog order.
    pub closed spec fn identifiers(&self) -> Seq<Seq<char>> {
        identifiers(self.catalog@)
    }

    /// What the screen shows.
    pub closed spec fn display(&self) -> DisplayView {
        DisplayView { temperature: self.temperature, opacities: self.opacities@ }
    }

    /// The snapshots that were waiting in the channel when the loop last
    /// looked, oldest first: when it was made, or when its last tick
    /// returned. The sender may have queued more since, behind these.
    pub closed spec fn pending(&self) -> Seq<SnapshotView> {
        self.receiver.queued_at_last_use()
    }

    /// An update loop over `catalog` that listens on `receiver`. The screen
    /// starts blank.
    pub fn new(receiver: SnapshotReceiver, catalog: Vec<ImageName>) -> (update: UpdateLoop)
        ensures
            update.identifiers() == identifiers(catalog@),
            update.display() == blank(identifiers(catalog@)),
            update.pending() == receiver.queued_at_last_use(),
    {
        let mut opacities: Vec<Opacity> = Vec::new();
        let mut i: usize = 0;
        while i < catalog.len()
            invariant
                i <= catalog@.len(),
                opacities@.len() == i,
                forall|j: int| 0 <= j < i ==> opacities@[j] == Opacity::Transparent,
            decreases catalog@.len() - i,
        {
            opacities.push(Opacity::Transparent);
            i += 1;
        }
        assert(opacities@ == blank(identifiers(catalog@)).opacities);
        UpdateLoop { receiver, catalog, temperature: None, opacities }
    }

    /// Shows `snapshot`: its temperature replaces the one on screen, and the
    /// icons are redrawn for its condition code. The channel is left alone.
    pub fn apply(&mut self, snapshot: &WeatherSnapshot)
        ensures
            final(self).identifiers() == old(self).identifiers(),
            final(self).pending() == old(self).pending(),
            final(self).display() == shown(old(self).identifiers(), snapshot@),
    {
        self.temperature = Some(snapshot.temperature());
        self.opacities = IconSelector::select(&self.catalog, snapshot.icon_id());
    }

    /// Shows each of `snapshots` in turn, first to last. The channel is left
    /// alone.
    pub fn apply_all(&mut self, snapshots: &Vec<WeatherSnapshot>)
        ensures
            final(self).identifiers() == old(self).identifiers(),
            final(self).pending() == old(self).pending(),
            final(self).display() == shown_after_all(
                old(self).identifiers(),
                old(self).display(),
                views(snapshots@),
            ),
    {
        let mut i: usize = 0;
        while i < snapshots.len()
            invariant
                i <= snapshots@.len(),
                self.identifiers() == old(self).identifiers(),
                self.pending() == old(self).pending(),
                self.display() == shown_after_all(
                    old(self).identifiers(),
                    old(self).display(),
                    views(snapshots@).take(i as int),
                ),
            decreases snapshots@.len() - i,
        {
            self.apply(&snapshots[i]);
            proof {
                let upto = views(snapshots@).take(i + 1);
                assert(upto.last() == snapshots@[i as int]@);
                assert(upto.drop_last() == views(snapshots@).take(i as int));
            }
            i += 1;
        }
        assert(views(snapshots@).take(i as int) == views(snapshots@));
    }

    /// One tick: takes what is queued out of the channel without waiting and
    /// shows it, oldest first. Returns the number of snapshots shown, which is
    /// the number of redraws the tick asks for.
    ///
    /// The run that is shown starts with the snapshots that were waiting when
    /// the loop last looked, in their order; what the sender has queued since
    /// follows. The screen ends as if exactly that run had been applied in
    /// order, and nothing of it is left in the channel.
    pub fn tick(&mut self) -> (shown_count: usize)
        ensures
            final(self).identifiers() == old(self).identifiers(),
            final(self).pending() == Seq::<SnapshotView>::empty(),
            shown_count >= old(self).pending().len(),
            exists|drained: Seq<SnapshotView>|
                {
                    &&& drained.len() == shown_count
                    &&& old(self).pending().is_prefix_of(drained)
                    &&& final(self).display() == #[trigger] shown_after_all(
                        old(self).identifiers(),
                        old(self).display(),
                        drained,
                    )
                },
    {
        let drained = self.receiver.try_drain();
        self.apply_all(&drained);
        proof {
            let applied = views(drained@);
            assert(applied.len() == drained@.len());
            assert(self.display() == shown_after_all(
                old(self).identifiers(),
                old(self).display(),
                applied,
            ));
        }
        drained.len()
    }

    /// The temperature on screen, if one has arrived yet.
    pub fn temperature(&self) -> (temperature: Option<Temperature>)
        ensures
            temperature == self.display().temperature,
    {
        self.temperature
    }

    /// The opacity of each icon, in catalog order.
    pub fn opacities(&self) -> (opacities: &Vec<Opacity>)
        ensures
            opacities@ == self.display().opacities,
    {
        &self.opacities
    }

    /// The icon catalog.
    pub fn catalog(&self) -> (catalog: &Vec<ImageName>)
        ensures
            identifiers(catalog@) == self.identifiers(),
    {
        &self.catalog
    }
}

/// Applying nothing leaves the screen as it was.
pub proof fn lemma_nothing_drained_nothing_changes(catalog: Seq<Seq<char>>, display: DisplayView)
    ensures
        shown_after_all(catalog, display, Seq::<SnapshotView>::empty()) == display,
{
}

/// After one or more snapshots have been applied the screen shows the last of
/// them and nothing of the others, nor of what it showed before.
pub proof fn lemma_last_snapshot_wins(
    catalog: Seq<Seq<char>>,
    display: DisplayView,
    snapshots: Seq<SnapshotView>,
)
    requires
        snapshots.len() > 0,
    ensures
        shown_after_all(catalog, display, snapshots) == shown(catalog, snapshots.last()),
{
}

/// Snapshots sent into an empty channel that has room for all of them, then
/// drained and applied in one tick, leave the screen showing the last one
/// sent.
pub proof fn lemma_tick_shows_last_sent(
    catalog: Seq<Seq<char>>,
    display: DisplayView,
    capacity: nat,
    sent: Seq<SnapshotView>,
)
    requires
        0 < sent.len() <= capacity,
    ensures
        shown_after_all(
            catalog,
            display,
            offered_all(Seq::<SnapshotView>::empty(), capacity, sent),
        ) == shown(catalog, sent.last()),
{
    lemma_sent_in_order_drained_in_order(capacity, sent);
}

/// The screen always has one opacity for each icon of the catalog.
pub proof fn lemma_one_opacity_per_icon(
    catalog: Seq<Seq<char>>,
    display: DisplayView,
    snapshots: Seq<SnapshotView>,
)
    requires
        display.opacities.len() == catalog.len(),
    ensures
        blank(catalog).opacities.len() == catalog.len(),
        shown_after_all(catalog, display, snapshots).opacities.len() == catalog.len(),
{
}

} // verus!
