//! The parsed forecast, reduced to what the poller reads from it.

use vstd::prelude::*;

use crate::snapshot::{SnapshotView, Temperature, WeatherSnapshot};

verus! {

/// Why a fetch cycle ended without a snapshot.
#[derive(Clone, Copy, Debug, PartialEq, Eq, Structural)]
pub enum FetchFailure {
    /// The transport could not be set up.
    ClientBuild,
    /// The request did not get an answer.
    Request,
    /// The body of the answer could not be decoded as text.
    BodyDecode,
    /// The body is not a forecast.
    JsonParse,
    /// The forecast has no time series entries.
    EmptyTimeseries,
    /// The first entry has no forecast for the next hour.
    MissingNextHour,
}

/// What an entry of the time series is, mathematically.
pub struct EntryView {
    pub air_temperature: Temperature,
    pub next_hour_symbol: Option<Seq<char>>,
}

/// One entry of the forecast's time series: the air temperature at that
/// instant and, where the forecast has one, the condition code for the hour
/// that follows.
#[derive(Clone, Debug, PartialEq, Eq)]
pub struct TimeseriesEntry {
    air_temperature: Temperature,
    next_hour_symbol: Option<String>,
}

impl View for TimeseriesEntry {
    type V = EntryView;

    closed spec fn view(&self) -> EntryView {
        EntryView {
            air_temperature: self.air_temperature,
            next_hour_symbol: match self.next_hour_symbol {
                Some(code) => Some(code@),
                None => None,
            },
        }
    }
}

impl TimeseriesEntry {
    /// An entry with the given temperature and next-hour condition code.
    pub fn new(air_temperature: Temperature, next_hour_symbol: Option<String>) -> (entry:
        TimeseriesEntry)
        ensures
            entry@.air_temperature == air_temperature,
            match next_hour_symbol {
                Some(code) => entry@.next_hour_symbol == Some(code@),
                None => entry@.next_hour_symbol is None,
            },
    {
        TimeseriesEntry { air_temperature, next_hour_symbol }
    }
}

/// A forecast: its time series, earliest entry first.
#[derive(Clone, Debug, PartialEq, Eq)]
pub struct Forecast {
    timeseries: Vec<TimeseriesEntry>,
}

impl View for Forecast {
    type V = Seq<EntryView>;

    closed spec fn view(&self) -> Seq<EntryView> {
        self.timeseries@.map_values(|entry: TimeseriesEntry| entry@)
    }
}

/// The snapshot that a forecast stands for: the temperature of its first
/// entry with that entry's condition code for the next hour. A forecast
/// without entries, or whose first entry lacks the next hour, stands for none.
pub open spec fn first_reading(forecast: Seq<EntryView>) -> Result<SnapshotView, FetchFailure> {
    if forecast.len() == 0 {
        Err(FetchFailure::EmptyTimeseries)
    } else {
        match forecast[0].next_hour_symbol {
            None => Err(FetchFailure::MissingNextHour),
            Some(code) => Ok(
                SnapshotView { temperature: forecast[0].air_temperature, icon_id: code },
            ),
        }
    }
}

/// A computed reading, with the snapshot as its view.
pub open spec fn reading_view(reading: Result<WeatherSnapshot, FetchFailure>) -> Result<
    SnapshotView,
    FetchFailure,
> {
    match reading {
        Ok(snapshot) => Ok(snapshot@),
        Err(failure) => Err(failure),
    }
}

impl Forecast {
    /// A forecast with the given time series.
    pub fn new(timeseries: Vec<TimeseriesEntry>) -> (forecast: Forecast)
        ensures
            forecast@ == timeseries@.map_values(|entry: TimeseriesEntry| entry@),
    {
        Forecast { timeseries }
    }

    /// The snapshot that this forecast stands for, or why it stands for none.
    pub fn first_reading(&self) -> (reading: Result<WeatherSnapshot, FetchFailure>)
        ensures
            reading_view(reading) == first_reading(self@),
    {
        if self.timeseries.len() == 0 {
            return Err(FetchFailure::EmptyTimeseries);
        }
        let first = &self.timeseries[0];
        assert(self@[0] == first@);
        match &first.next_hour_symbol {
            None => Err(FetchFailure::MissingNextHour),
            Some(code) => Ok(WeatherSnapshot::new(first.air_temperature, code.clone())),
        }
    }
}

/// A forecast stands for a snapshot exactly when it has a first entry and
/// that entry has a condition code for the next hour; later entries have no
/// part in it.
pub proof fn lemma_reading_depends_on_first_entry(forecast: Seq<EntryView>)
    ensures
        first_reading(forecast) is Ok <==> forecast.len() > 0 && forecast[0].next_hour_symbol
            is Some,
        forecast.len() > 0 ==> first_reading(forecast) == first_reading(forecast.take(1)),
{
}

} // verus!
