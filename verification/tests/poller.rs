use weather_widget::channel::ChannelBridge;
use weather_widget::forecast::{FetchFailure, Forecast, TimeseriesEntry};
use weather_widget::poller::{
    CycleEnd, CycleReport, Poller, BACKOFF_SECONDS, POLL_INTERVAL_SECONDS,
};
use weather_widget::snapshot::{Temperature, WeatherSnapshot};

fn reading(degrees: f32) -> Temperature {
    Temperature::from_bits(degrees.to_bits())
}

fn entry(degrees: f32, symbol: Option<&str>) -> TimeseriesEntry {
    TimeseriesEntry::new(reading(degrees), symbol.map(|s| s.to_string()))
}

#[test]
fn waits_are_sixty_seconds() {
    assert_eq!(POLL_INTERVAL_SECONDS, 60);
    assert_eq!(BACKOFF_SECONDS, 60);
}

#[test]
fn reading_is_taken_from_first_entry() {
    let forecast = Forecast::new(vec![
        entry(5.3, Some("clearsky_day")),
        entry(9.9, Some("rain")),
        entry(-1.0, None),
    ]);
    assert_eq!(
        forecast.first_reading(),
        Ok(WeatherSnapshot::new(reading(5.3), "clearsky_day".to_string()))
    );
}

#[test]
fn empty_timeseries_gives_no_reading() {
    assert_eq!(Forecast::new(Vec::new()).first_reading(), Err(FetchFailure::EmptyTimeseries));
}

#[test]
fn missing_next_hour_gives_no_reading() {
    let forecast = Forecast::new(vec![entry(5.3, None), entry(6.0, Some("rain"))]);
    assert_eq!(forecast.first_reading(), Err(FetchFailure::MissingNextHour));
}

#[test]
fn snapshot_keeps_what_it_was_made_of() {
    let s = WeatherSnapshot::new(reading(-12.5), "snow".to_string());
    assert_eq!(s.temperature(), reading(-12.5));
    assert_eq!(s.temperature().to_bits(), (-12.5f32).to_bits());
    assert_eq!(s.icon_id(), "snow");
}

#[test]
fn assess_passes_each_failure_on() {
    for failure in [
        FetchFailure::ClientBuild,
        FetchFailure::Request,
        FetchFailure::BodyDecode,
        FetchFailure::JsonParse,
        FetchFailure::EmptyTimeseries,
        FetchFailure::MissingNextHour,
    ] {
        assert_eq!(Poller::assess(&Err(failure)), Err(failure));
    }
}

#[test]
fn assess_reads_a_fetched_forecast() {
    let fetched = Ok(Forecast::new(vec![entry(1.5, Some("fog"))]));
    assert_eq!(Poller::assess(&fetched), Ok(WeatherSnapshot::new(reading(1.5), "fog".to_string())));
    assert_eq!(
        Poller::assess(&Ok(Forecast::new(Vec::new()))),
        Err(FetchFailure::EmptyTimeseries)
    );
    assert_eq!(
        Poller::assess(&Ok(Forecast::new(vec![entry(1.5, None)]))),
        Err(FetchFailure::MissingNextHour)
    );
}

#[test]
fn reports_after_failure_and_after_send() {
    assert_eq!(
        Poller::after_failure(FetchFailure::Request),
        CycleReport { end: CycleEnd::Failed(FetchFailure::Request), wait_seconds: 60 }
    );
    assert_eq!(
        Poller::after_send(true),
        CycleReport { end: CycleEnd::Published, wait_seconds: 60 }
    );
    assert_eq!(
        Poller::after_send(false),
        CycleReport { end: CycleEnd::ConsumerGone, wait_seconds: 60 }
    );
}

#[test]
fn successful_cycle_publishes_one_snapshot() {
    let (sender, mut receiver) = ChannelBridge::new().split();
    let mut poller = Poller::new(sender);
    let report = poller.finish_cycle(Ok(Forecast::new(vec![
        entry(5.3, Some("clearsky_day")),
        entry(7.0, Some("rain")),
    ])));
    assert_eq!(report, CycleReport { end: CycleEnd::Published, wait_seconds: 60 });
    assert_eq!(
        receiver.try_drain(),
        vec![WeatherSnapshot::new(reading(5.3), "clearsky_day".to_string())]
    );
}

#[test]
fn failed_cycle_publishes_nothing() {
    let (sender, mut receiver) = ChannelBridge::new().split();
    let mut poller = Poller::new(sender);
    for failure in [
        FetchFailure::ClientBuild,
        FetchFailure::Request,
        FetchFailure::BodyDecode,
        FetchFailure::JsonParse,
    ] {
        assert_eq!(
            poller.finish_cycle(Err(failure)),
            CycleReport { end: CycleEnd::Failed(failure), wait_seconds: 60 }
        );
    }
    assert_eq!(
        poller.finish_cycle(Ok(Forecast::new(Vec::new()))),
        CycleReport { end: CycleEnd::Failed(FetchFailure::EmptyTimeseries), wait_seconds: 60 }
    );
    assert_eq!(
        poller.finish_cycle(Ok(Forecast::new(vec![entry(3.0, None)]))),
        CycleReport { end: CycleEnd::Failed(FetchFailure::MissingNextHour), wait_seconds: 60 }
    );
    assert!(receiver.try_drain().is_empty());
}

#[test]
fn cycle_goes_on_when_the_update_loop_is_gone() {
    let (sender, receiver) = ChannelBridge::new().split();
    drop(receiver);
    let mut poller = Poller::new(sender);
    let fetched = Ok(Forecast::new(vec![entry(5.3, Some("rain"))]));
    assert_eq!(
        poller.finish_cycle(fetched.clone()),
        CycleReport { end: CycleEnd::ConsumerGone, wait_seconds: 60 }
    );
    assert_eq!(
        poller.finish_cycle(fetched),
        CycleReport { end: CycleEnd::ConsumerGone, wait_seconds: 60 }
    );
    assert_eq!(
        poller.finish_cycle(Err(FetchFailure::Request)),
        CycleReport { end: CycleEnd::Failed(FetchFailure::Request), wait_seconds: 60 }
    );
}

#[test]
fn cycles_publish_in_the_order_they_ran() {
    let (sender, mut receiver) = ChannelBridge::new().split();
    let mut poller = Poller::new(sender);
    for (degrees, icon) in [(1.0, "fog"), (2.0, "fog"), (3.5, "rain")] {
        poller.finish_cycle(Ok(Forecast::new(vec![entry(degrees, Some(icon))])));
    }
    assert_eq!(
        receiver.try_drain(),
        vec![
            WeatherSnapshot::new(reading(1.0), "fog".to_string()),
            WeatherSnapshot::new(reading(2.0), "fog".to_string()),
            WeatherSnapshot::new(reading(3.5), "rain".to_string())
        ]
    );
}

#[test]
fn forecast_url_names_the_place() {
    assert_eq!(
        Poller::forecast_url("59.88369", "10.80548", "166"),
        "https://api.met.no/weatherapi/locationforecast/2.0/compact?lat=59.88369&lon=10.80548&altitude=166"
    );
    assert_eq!(
        Poller::forecast_url("", "", ""),
        "https://api.met.no/weatherapi/locationforecast/2.0/compact?lat=&lon=&altitude="
    );
}

#[test]
fn compiled_in_place_and_client_name() {
    assert_eq!(
        Poller::forecast_url(
            weather_widget::poller::LATITUDE,
            weather_widget::poller::LONGITUDE,
            weather_widget::poller::ALTITUDE
        ),
        "https://api.met.no/weatherapi/locationforecast/2.0/compact?lat=59.88369&lon=10.80548&altitude=166"
    );
    assert_eq!(weather_widget::poller::USER_AGENT, "Something unique to me");
}
