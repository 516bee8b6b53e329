//! Measurement aggregator: the snapshot of latest readings shared by the two
//! schedules, and the calibration gate on the gas sensor's output.
//!
//! One mutable [`Measurements`] snapshot accumulates the most recent
//! successful reading per quantity. Two paths write to it: the fast (1 Hz)
//! schedule deposits gas readings once the calibration warm-up window has
//! passed, and the slow schedule merges the non-gas sensors' readings. The
//! slow schedule then takes the composite snapshot for submission and resets
//! it to all-absent, so a stale value is never submitted twice. "Absent" is a
//! first-class value meaning "no reading available this cycle", distinct from
//! zero.
//!
//! The snapshot and the sensor registry are guarded by one lock, held by the
//! caller around every function here that touches the snapshot (see the
//! `schedule` module); none of these functions blocks, submits or sleeps.

use vstd::prelude::*;

use crate::registry::Sensors;

verus! {

/// Number of elapsed fast-schedule ticks after which the gas sensor's output
/// is trusted: readings on ticks before this one are fed to the driver's
/// baseline algorithm but discarded; readings on this tick and later may enter
/// the snapshot.
pub const GAS_WARM_UP_TICKS: u64 = 32;

/// Latest value per measured quantity; `None` means no reading is available
/// this cycle. Temperature, humidity and illuminance carry fixed-point
/// milli-units so that every field is an exact integer.
#[derive(Clone, Copy, Debug, PartialEq, Eq, Structural)]
pub struct Measurements {
    /// Temperature in milli-degrees Celsius.
    pub temperature_millicelsius: Option<i32>,
    /// Relative humidity in milli-percent.
    pub humidity_millipercent: Option<i32>,
    /// Illuminance in milli-lux.
    pub illuminance_millilux: Option<u32>,
    /// CO2 equivalent in parts per million.
    pub co2eq_ppm: Option<u16>,
    /// Total volatile organic compounds in parts per billion.
    pub tvoc_ppb: Option<u16>,
}

/// The all-absent snapshot: no reading available for any quantity.
pub open spec fn absent_measurements() -> Measurements {
    Measurements {
        temperature_millicelsius: None,
        humidity_millipercent: None,
        illuminance_millilux: None,
        co2eq_ppm: None,
        tvoc_ppb: None,
    }
}

/// The snapshot after the slow schedule merged one cycle of non-gas reads
/// into `m`. A successful read overwrites its quantities; a failed read, or an
/// empty registry slot, leaves them untouched; the gas quantities are never
/// touched on this path.
pub open spec fn merged(
    m: Measurements,
    temp_humi_installed: bool,
    lux_installed: bool,
    temp_humi_read: Option<(i32, i32)>,
    lux_read: Option<u32>,
) -> Measurements {
    let with_temp_humi = match temp_humi_read {
        Some(th) if temp_humi_installed => Measurements {
            temperature_millicelsius: Some(th.0),
            humidity_millipercent: Some(th.1),
            ..m
        },
        _ => m,
    };
    match lux_read {
        Some(lux) if lux_installed => Measurements {
            illuminance_millilux: Some(lux),
            ..with_temp_humi
        },
        _ => with_temp_humi,
    }
}

/// The snapshot after one fast-schedule cycle whose gas reading was `reading`,
/// taken on tick `ticks`. The reading enters the snapshot exactly when the gas
/// sensor is installed, the reading succeeded, and the warm-up window has
/// passed; in every other case — and for every non-gas quantity — the snapshot
/// is unchanged.
pub open spec fn recorded(
    m: Measurements,
    gas_installed: bool,
    ticks: u64,
    reading: Option<(u16, u16)>,
) -> Measurements {
    match reading {
        Some(r) if gas_installed && ticks >= GAS_WARM_UP_TICKS => Measurements {
            co2eq_ppm: Some(r.0),
            tvoc_ppb: Some(r.1),
            ..m
        },
        _ => m,
    }
}

impl Measurements {
    /// True when no quantity holds a reading.
    pub open spec fn all_absent(self) -> bool {
        self == absent_measurements()
    }

    /// An all-absent snapshot.
    pub fn new() -> (m: Measurements)
        ensures
            m == absent_measurements(),
    {
        Measurements {
            temperature_millicelsius: None,
            humidity_millipercent: None,
            illuminance_millilux: None,
            co2eq_ppm: None,
            tvoc_ppb: None,
        }
    }

    /// Resets every quantity to absent.
    pub fn reset(&mut self)
        ensures
            *final(self) == absent_measurements(),
    {
        *self = Measurements::new();
    }

    /// Slow-schedule write path: merges one cycle of non-gas reads into the
    /// snapshot. A read for a sensor class whose registry slot is empty is
    /// ignored, so a sensor that failed initialization can never contribute.
    pub fn merge_reads<TH, LX, GS>(
        &mut self,
        sensors: &Sensors<TH, LX, GS>,
        temp_humi_read: Option<(i32, i32)>,
        lux_read: Option<u32>,
    )
        ensures
            *final(self) == merged(
                *old(self),
                sensors.temp_humi is Some,
                sensors.lux is Some,
                temp_humi_read,
                lux_read,
            ),
    {
        if sensors.temp_humi.is_some() {
            if let Some((temperature, humidity)) = temp_humi_read {
                self.temperature_millicelsius = Some(temperature);
                self.humidity_millipercent = Some(humidity);
            }
        }
        if sensors.lux.is_some() {
            if let Some(lux) = lux_read {
                self.illuminance_millilux = Some(lux);
            }
        }
    }

    /// Fast-schedule write path: records one gas reading taken on tick
    /// `ticks`. Before the warm-up window has passed the reading is discarded
    /// (the driver was still fed — feeding is the caller's unconditional 1 Hz
    /// duty); afterwards a successful reading overwrites the gas quantities.
    pub fn record_gas<TH, LX, GS>(
        &mut self,
        sensors: &Sensors<TH, LX, GS>,
        ticks: u64,
        reading: Option<(u16, u16)>,
    )
        ensures
            *final(self) == recorded(*old(self), sensors.gas is Some, ticks, reading),
    {
        if sensors.gas.is_some() && ticks >= GAS_WARM_UP_TICKS {
            if let Some((co2eq, tvoc)) = reading {
                self.co2eq_ppm = Some(co2eq);
                self.tvoc_ppb = Some(tvoc);
            }
        }
    }

    /// Read path of the slow schedule: hands out the composite snapshot for
    /// submission and resets the shared one to all-absent, so that no value is
    /// ever submitted twice.
    pub fn take_and_reset(&mut self) -> (snapshot: Measurements)
        ensures
            snapshot == *old(self),
            *final(self) == absent_measurements(),
    {
        let snapshot = *self;
        self.reset();
        snapshot
    }
}

/// Monotonically increasing count of elapsed fast-schedule ticks since
/// start-up; saturates instead of wrapping. It gates whether gas readings are
/// accepted into the snapshot.
#[derive(Clone, Copy, Debug, PartialEq, Eq, Structural)]
pub struct CalibrationCounter {
    /// Elapsed fast-schedule ticks.
    pub ticks: u64,
}

impl CalibrationCounter {
    /// A counter at zero: no fast-schedule tick has elapsed yet.
    pub fn new() -> (c: CalibrationCounter)
        ensures
            c.ticks == 0,
    {
        CalibrationCounter { ticks: 0 }
    }

    /// Counts one elapsed fast-schedule tick, saturating at the maximum.
    pub fn tick(&mut self)
        ensures
            final(self).ticks == (if old(self).ticks == u64::MAX {
                u64::MAX
            } else {
                (old(self).ticks + 1) as u64
            }),
    {
        self.ticks = self.ticks.saturating_add(1);
    }
}

/// An empty registry slot keeps its quantities out of the snapshot: with the
/// temperature/humidity slot empty, merging changes neither temperature nor
/// humidity; with the illuminance slot empty, merging does not change
/// illuminance; with the gas slot empty, a fast-schedule cycle changes nothing
/// at all. Together with the registry being populated only at start-up, a
/// sensor that failed initialization never appears in any snapshot.
pub proof fn lemma_empty_slot_never_contributes(
    m: Measurements,
    temp_humi_installed: bool,
    lux_installed: bool,
    temp_humi_read: Option<(i32, i32)>,
    lux_read: Option<u32>,
    ticks: u64,
    reading: Option<(u16, u16)>,
)
    ensures
        merged(m, false, lux_installed, temp_humi_read, lux_read).temperature_millicelsius
            == m.temperature_millicelsius,
        merged(m, false, lux_installed, temp_humi_read, lux_read).humidity_millipercent
            == m.humidity_millipercent,
        merged(m, temp_humi_installed, false, temp_humi_read, lux_read).illuminance_millilux
            == m.illuminance_millilux,
        recorded(m, false, ticks, reading) == m,
{
}

/// A failed read leaves every other quantity as it was: merging never touches
/// the gas quantities, a failed temperature/humidity read leaves temperature
/// and humidity as they were, and a failed illuminance read leaves illuminance
/// as it was — whatever the registry holds and whatever the other read
/// returned.
pub proof fn lemma_failed_read_leaves_others(
    m: Measurements,
    temp_humi_installed: bool,
    lux_installed: bool,
    temp_humi_read: Option<(i32, i32)>,
    lux_read: Option<u32>,
)
    ensures
        merged(m, temp_humi_installed, lux_installed, temp_humi_read, lux_read).co2eq_ppm
            == m.co2eq_ppm,
        merged(m, temp_humi_installed, lux_installed, temp_humi_read, lux_read).tvoc_ppb
            == m.tvoc_ppb,
        merged(m, temp_humi_installed, lux_installed, None, lux_read).temperature_millicelsius
            == m.temperature_millicelsius,
        merged(m, temp_humi_installed, lux_installed, None, lux_read).humidity_millipercent
            == m.humidity_millipercent,
        merged(m, temp_humi_installed, lux_installed, temp_humi_read, None).illuminance_millilux
            == m.illuminance_millilux,
{
}

} // verus!
