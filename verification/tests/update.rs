use weather_widget::channel::{ChannelBridge, SnapshotSender};
use weather_widget::forecast::{FetchFailure, Forecast, TimeseriesEntry};
use weather_widget::icons::Opacity;
use weather_widget::poller::{CycleEnd, Poller};
use weather_widget::render_plugin::ImageName;
use weather_widget::snapshot::{Temperature, WeatherSnapshot};
use weather_widget::update::UpdateLoop;

fn snapshot(degrees: f32, icon: &str) -> WeatherSnapshot {
    WeatherSnapshot::new(Temperature::from_bits(degrees.to_bits()), icon.to_string())
}

fn widget(names: &[&str]) -> (SnapshotSender, UpdateLoop) {
    let (sender, receiver) = ChannelBridge::new().split();
    let catalog = names.iter().map(|n| ImageName { name: n.to_string() }).collect();
    (sender, UpdateLoop::new(receiver, catalog))
}

fn text(update: &UpdateLoop) -> String {
    match update.temperature() {
        Some(t) => format!("{:?}", f32::from_bits(t.to_bits())),
        None => "No Value".to_string(),
    }
}

fn alpha(update: &UpdateLoop, icon: &str) -> f32 {
    let i = update.catalog().iter().position(|e| e.name == icon).unwrap();
    match update.opacities()[i] {
        Opacity::Opaque => 1.0,
        Opacity::Transparent => 0.0,
    }
}

fn forecast(degrees: f32, icon: &str) -> Forecast {
    Forecast::new(vec![TimeseriesEntry::new(
        Temperature::from_bits(degrees.to_bits()),
        Some(icon.to_string()),
    )])
}

#[test]
fn screen_starts_blank() {
    let (_sender, update) = widget(&["clearsky_day", "cloudy", "rain"]);
    assert_eq!(update.temperature(), None);
    assert_eq!(text(&update), "No Value");
    assert_eq!(update.opacities(), &vec![Opacity::Transparent; 3]);
    assert_eq!(update.catalog().len(), 3);
}

#[test]
fn tick_without_snapshots_changes_nothing() {
    let (mut sender, mut update) = widget(&["clearsky_day", "cloudy", "rain"]);
    assert_eq!(update.tick(), 0);
    assert_eq!(update.temperature(), None);
    assert_eq!(update.opacities(), &vec![Opacity::Transparent; 3]);
    assert_eq!(sender.send(snapshot(5.3, "rain")), Ok(()));
    assert_eq!(update.tick(), 1);
    assert_eq!(update.tick(), 0);
    assert_eq!(text(&update), "5.3");
    assert_eq!(alpha(&update, "rain"), 1.0);
}

#[test]
fn scenario_fetched_snapshot_reaches_the_screen() {
    let (sender, mut update) = widget(&["clearsky_day", "cloudy", "rain"]);
    let mut poller = Poller::new(sender);
    let report = poller.finish_cycle(Ok(forecast(5.3, "clearsky_day")));
    assert_eq!(report.end, CycleEnd::Published);
    assert_eq!(update.tick(), 1);
    assert_eq!(text(&update), "5.3");
    assert_eq!(alpha(&update, "clearsky_day"), 1.0);
    assert_eq!(alpha(&update, "cloudy"), 0.0);
    assert_eq!(alpha(&update, "rain"), 0.0);
}

#[test]
fn scenario_failed_cycle_leaves_no_trace() {
    let (sender, mut update) = widget(&["clearsky_day", "cloudy", "rain"]);
    let mut poller = Poller::new(sender);
    let first = poller.finish_cycle(Err(FetchFailure::JsonParse));
    assert_eq!(first.end, CycleEnd::Failed(FetchFailure::JsonParse));
    assert_eq!(first.wait_seconds, 60);
    assert_eq!(update.tick(), 0);
    assert_eq!(text(&update), "No Value");
    assert_eq!(update.opacities(), &vec![Opacity::Transparent; 3]);
    let second = poller.finish_cycle(Ok(forecast(7.25, "rain")));
    assert_eq!(second.end, CycleEnd::Published);
    assert_eq!(second.wait_seconds, 60);
    assert_eq!(update.tick(), 1);
    assert_eq!(text(&update), "7.25");
    assert_eq!(alpha(&update, "rain"), 1.0);
    assert_eq!(alpha(&update, "clearsky_day"), 0.0);
    assert_eq!(alpha(&update, "cloudy"), 0.0);
}

#[test]
fn scenario_later_snapshot_overwrites_earlier() {
    let (mut sender, mut update) = widget(&["clearsky_day", "fog", "rain"]);
    assert_eq!(sender.send(snapshot(1.0, "fog")), Ok(()));
    assert_eq!(sender.send(snapshot(2.0, "fog")), Ok(()));
    assert_eq!(update.tick(), 2);
    assert_eq!(text(&update), "2.0");
    assert_eq!(alpha(&update, "fog"), 1.0);
    assert_eq!(alpha(&update, "clearsky_day"), 0.0);
    assert_eq!(alpha(&update, "rain"), 0.0);
}

#[test]
fn last_of_many_snapshots_is_shown() {
    let (mut sender, mut update) = widget(&["clearsky_day", "fog", "rain"]);
    assert_eq!(sender.send(snapshot(1.0, "fog")), Ok(()));
    assert_eq!(sender.send(snapshot(2.0, "rain")), Ok(()));
    assert_eq!(sender.send(snapshot(-3.5, "clearsky_day")), Ok(()));
    assert_eq!(update.tick(), 3);
    assert_eq!(text(&update), "-3.5");
    assert_eq!(
        update.opacities(),
        &vec![Opacity::Opaque, Opacity::Transparent, Opacity::Transparent]
    );
}

#[test]
fn unknown_condition_code_hides_every_icon() {
    let (mut sender, mut update) = widget(&["clearsky_day", "fog", "rain"]);
    assert_eq!(sender.send(snapshot(1.0, "fog")), Ok(()));
    assert_eq!(update.tick(), 1);
    assert_eq!(alpha(&update, "fog"), 1.0);
    assert_eq!(sender.send(snapshot(4.0, "heavysnow")), Ok(()));
    assert_eq!(update.tick(), 1);
    assert_eq!(text(&update), "4.0");
    assert_eq!(update.opacities(), &vec![Opacity::Transparent; 3]);
}

#[test]
fn apply_shows_one_snapshot() {
    let (_sender, mut update) = widget(&["clearsky_day", "fog", "rain"]);
    update.apply(&snapshot(0.5, "rain"));
    assert_eq!(update.temperature(), Some(Temperature::from_bits(0.5f32.to_bits())));
    assert_eq!(
        update.opacities(),
        &vec![Opacity::Transparent, Opacity::Transparent, Opacity::Opaque]
    );
}

#[test]
fn apply_all_with_nothing_keeps_the_screen() {
    let (_sender, mut update) = widget(&["clearsky_day", "fog", "rain"]);
    update.apply(&snapshot(0.5, "rain"));
    update.apply_all(&Vec::new());
    assert_eq!(text(&update), "0.5");
    assert_eq!(alpha(&update, "rain"), 1.0);
}

#[test]
fn apply_all_shows_the_last() {
    let (_sender, mut update) = widget(&["clearsky_day", "fog", "rain"]);
    update.apply_all(&vec![snapshot(1.0, "rain"), snapshot(2.0, "fog")]);
    assert_eq!(text(&update), "2.0");
    assert_eq!(
        update.opacities(),
        &vec![Opacity::Transparent, Opacity::Opaque, Opacity::Transparent]
    );
}

#[test]
fn tick_goes_on_after_the_poller_is_gone() {
    let (mut sender, mut update) = widget(&["fog"]);
    assert_eq!(sender.send(snapshot(1.0, "fog")), Ok(()));
    drop(sender);
    assert_eq!(update.tick(), 1);
    assert_eq!(update.tick(), 0);
    assert_eq!(text(&update), "1.0");
}
