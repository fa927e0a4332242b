//! The value that travels from the poller to the update loop.

use vstd::prelude::*;

verus! {

/// A temperature reading, held as the bit pattern of the single-precision
/// number that the display prints. The library only ever carries it through;
/// two readings are the same reading exactly when their bits agree.
#[derive(Clone, Copy, Debug, PartialEq, Eq, Structural)]
pub struct Temperature {
    pub bits: u32,
}

impl Temperature {
    /// The reading with the given bit pattern.
    pub fn from_bits(bits: u32) -> (t: Temperature)
        ensures
            t.bits == bits,
    {
        Temperature { bits }
    }

    /// The bit pattern of this reading.
    pub fn to_bits(self) -> (bits: u32)
        ensures
            bits == self.bits,
    {
        self.bits
    }
}

/// What a snapshot is, mathematically: a reading and the characters of a
/// condition code.
pub struct SnapshotView {
    pub temperature: Temperature,
    pub icon_id: Seq<char>,
}

/// The most recently fetched weather: a temperature and the identifier of the
/// icon that stands for the current condition. A snapshot cannot be changed
/// after it has been made.
#[derive(Clone, Debug, PartialEq, Eq)]
pub struct WeatherSnapshot {
    temperature: Temperature,
    icon_id: String,
}

impl View for WeatherSnapshot {
    type V = SnapshotView;

    closed spec fn view(&self) -> SnapshotView {
        SnapshotView { temperature: self.temperature, icon_id: self.icon_id@ }
    }
}

impl WeatherSnapshot {
    /// A snapshot of the given reading and condition code.
    pub fn new(temperature: Temperature, icon_id: String) -> (s: WeatherSnapshot)
        ensures
            s@.temperature == temperature,
            s@.icon_id == icon_id@,
    {
        WeatherSnapshot { temperature, icon_id }
    }

    /// The temperature of this snapshot.
    pub fn temperature(&self) -> (t: Temperature)
        ensures
            t == self@.temperature,
    {
        self.temperature
    }

    /// The condition code of this snapshot.
    pub fn icon_id(&self) -> (id: &String)
        ensures
            id@ == self@.icon_id,
    {
        &self.icon_id
    }
}

/// The views of a run of snapshots, in the same order.
pub open spec fn views(snapshots: Seq<WeatherSnapshot>) -> Seq<SnapshotView> {
    snapshots.map_values(|s: WeatherSnapshot| s@)
}

} // verus!
