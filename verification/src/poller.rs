//! The decisions of the background poller.
//!
//! The poller runs fetch cycles for as long as the program lives. The
//! program performs the network steps of a cycle and reports how far they
//! got; everything that follows from that is decided here: whether a snapshot
//! is published, which one, and how long to wait before the next cycle.
//! Nothing is kept from one cycle to the next.
//!
//! A cycle is followed by one wait. After a failure that wait is the
//! backoff; after a fetch that worked it is the polling interval.

use vstd::prelude::*;
use vstd::string::*;

use crate::channel::SnapshotSender;
use crate::forecast::{first_reading, reading_view, EntryView, FetchFailure, Forecast};
use crate::snapshot::{SnapshotView, WeatherSnapshot};

verus! {

/// The seconds between a cycle that fetched a forecast and the next cycle.
pub const POLL_INTERVAL_SECONDS: u64 = 60;

/// The seconds between a failed cycle and the next cycle.
pub const BACKOFF_SECONDS: u64 = 60;

/// The latitude of the place whose weather the widget shows, in degrees.
pub const LATITUDE: &'static str = "59.88369";

/// The longitude of that place, in degrees.
pub const LONGITUDE: &'static str = "10.80548";

/// The altitude of that place, in metres.
pub const ALTITUDE: &'static str = "166";

/// The text by which the poller names itself to the forecast service, which
/// turns away clients that do not.
pub const USER_AGENT: &'static str = "Something unique to me";

/// The address of the compact forecast for a place.
pub open spec fn forecast_url_of(
    latitude: Seq<char>,
    longitude: Seq<char>,
    altitude: Seq<char>,
) -> Seq<char> {
    "https://api.met.no/weatherapi/locationforecast/2.0/compact?lat="@ + latitude + "&lon="@
        + longitude + "&altitude="@ + altitude
}

/// How a fetch cycle ended.
#[derive(Clone, Copy, Debug, PartialEq, Eq, Structural)]
pub enum CycleEnd {
    /// A snapshot was handed to the channel.
    Published,
    /// No snapshot came out of the cycle.
    Failed(FetchFailure),
    /// A snapshot came out of the cycle, but the update loop no longer
    /// listens; the snapshot was dropped.
    ConsumerGone,
}

/// What the program does after a cycle: report how it ended, then wait.
#[derive(Clone, Copy, Debug, PartialEq, Eq, Structural)]
pub struct CycleReport {
    pub end: CycleEnd,
    pub wait_seconds: u64,
}

/// What a cycle has to publish: the reading of the forecast it fetched, or
/// the failure that kept it from fetching one.
pub open spec fn assessed(fetched: Result<Seq<EntryView>, FetchFailure>) -> Result<
    SnapshotView,
    FetchFailure,
> {
    match fetched {
        Ok(forecast) => first_reading(forecast),
        Err(failure) => Err(failure),
    }
}

/// What the network steps reported, with the forecast as its view.
pub open spec fn fetched_view(fetched: Result<Forecast, FetchFailure>) -> Result<
    Seq<EntryView>,
    FetchFailure,
> {
    match fetched {
        Ok(forecast) => Ok(forecast@),
        Err(failure) => Err(failure),
    }
}

/// The report of a cycle that failed with `failure`.
pub open spec fn failure_report(failure: FetchFailure) -> CycleReport {
    CycleReport { end: CycleEnd::Failed(failure), wait_seconds: BACKOFF_SECONDS }
}

/// The report of a cycle whose snapshot was handed to the channel; `sent`
/// says whether the channel took it.
pub open spec fn send_report(sent: bool) -> CycleReport {
    CycleReport {
        end: if sent {
            CycleEnd::Published
        } else {
            CycleEnd::ConsumerGone
        },
        wait_seconds: POLL_INTERVAL_SECONDS,
    }
}

/// The background side of the widget: turns what a fetch cycle brought into
/// at most one published snapshot.
pub struct Poller {
    sender: SnapshotSender,
}

impl Poller {
    /// The sending end through which this poller publishes.
    pub closed spec fn sender(&self) -> SnapshotSender {
        self.sender
    }

    /// The snapshots that this poller's end of the channel has handed over,
    /// in the order in which they were published.
    pub open spec fn published(&self) -> Seq<SnapshotView> {
        self.sender().handed_over()
    }

    /// A poller that publishes through `sender`.
    pub fn new(sender: SnapshotSender) -> (poller: Poller)
        ensures
            poller.sender() == sender,
    {
        Poller { sender }
    }

    /// The address that a cycle requests: the compact forecast for the place
    /// at the given coordinates.
    pub fn forecast_url(latitude: &str, longitude: &str, altitude: &str) -> (url: String)
        ensures
            url@ == forecast_url_of(latitude@, longitude@, altitude@),
    {
        String::from_str("https://api.met.no/weatherapi/locationforecast/2.0/compact?lat=").concat(
            latitude,
        ).concat("&lon=").concat(longitude).concat("&altitude=").concat(altitude)
    }

    /// What a cycle has to publish, given what its network steps reported.
    pub fn assess(fetched: &Result<Forecast, FetchFailure>) -> (reading: Result<
        WeatherSnapshot,
        FetchFailure,
    >)
        ensures
            reading_view(reading) == assessed(fetched_view(*fetched)),
    {
        match fetched {
            Ok(forecast) => forecast.first_reading(),
            Err(failure) => Err(*failure),
        }
    }

    /// The report of a cycle that failed.
    pub fn after_failure(failure: FetchFailure) -> (report: CycleReport)
        ensures
            report == failure_report(failure),
    {
        CycleReport { end: CycleEnd::Failed(failure), wait_seconds: BACKOFF_SECONDS }
    }

    /// The report of a cycle whose snapshot was handed to the channel.
    pub fn after_send(sent: bool) -> (report: CycleReport)
        ensures
            report == send_report(sent),
    {
        let end = if sent {
            CycleEnd::Published
        } else {
            CycleEnd::ConsumerGone
        };
        CycleReport { end, wait_seconds: POLL_INTERVAL_SECONDS }
    }

    /// Ends a fetch cycle. A cycle that failed publishes nothing. A cycle
    /// that brought a reading hands exactly that reading to the channel, once,
    /// waiting while the channel is full. The channel either takes it, behind
    /// everything published before, or turns it away because the update loop
    /// is gone; which of the two is up to the receiving side.
    pub fn finish_cycle(&mut self, fetched: Result<Forecast, FetchFailure>) -> (report:
        CycleReport)
        ensures
            match assessed(fetched_view(fetched)) {
                Err(failure) => {
                    &&& report == failure_report(failure)
                    &&& final(self).published() == old(self).published()
                },
                Ok(reading) => {
                    ||| report == send_report(true) && final(self).published() == old(
                        self,
                    ).published().push(reading)
                    ||| report == send_report(false) && final(self).published() == old(
                        self,
                    ).published()
                },
            },
    {
        match Self::assess(&fetched) {
            Err(failure) => Self::after_failure(failure),
            Ok(snapshot) => {
                match self.sender.send(snapshot) {
                    Ok(()) => Self::after_send(true),
                    Err(_) => Self::after_send(false),
                }
            },
        }
    }
}

/// A cycle publishes one snapshot at most, and only a cycle that reports
/// `Published` publishes any: what the poller had published before the cycle
/// is still there, in order, with the cycle's reading behind it or without.
pub proof fn lemma_one_snapshot_per_cycle(
    before: Seq<SnapshotView>,
    after: Seq<SnapshotView>,
    report: CycleReport,
    reading: SnapshotView,
)
    requires
        report == send_report(true) && after == before.push(reading) || report == send_report(
            false,
        ) && after == before,
    ensures
        before.is_prefix_of(after),
        after.len() <= before.len() + 1,
        after.len() == before.len() + 1 <==> report.end == CycleEnd::Published,
{
}

/// A cycle is followed by one wait of sixty seconds, however it ended: a
/// failure waits for the backoff in place of the polling interval, not on top
/// of it.
pub proof fn lemma_one_wait_per_cycle(failure: FetchFailure, sent: bool)
    ensures
        failure_report(failure).wait_seconds == 60,
        send_report(sent).wait_seconds == 60,
{
}

/// A cycle whose network steps failed has nothing to publish, and fails with
/// the failure that they reported.
pub proof fn lemma_failed_fetch_publishes_nothing(failure: FetchFailure)
    ensures
        assessed(Err(failure)) == Err::<SnapshotView, FetchFailure>(failure),
        failure_report(failure).end == CycleEnd::Failed(failure),
{
}

} // verus!
