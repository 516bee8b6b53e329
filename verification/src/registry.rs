//! Sensor registry: the fixed-shape record of installed sensor drivers.
//!
//! One slot exists per sensor class — temperature/humidity, illuminance and
//! gas. A slot holds the driver instance when its initialization succeeded and
//! stays empty for the remainder of the run otherwise; an empty slot means
//! "not installed or not healthy", never an error at read time. The registry
//! is populated once at start-up and never structurally mutated afterwards:
//! reads mutate only the driver instances inside the slots.
//!
//! The driver types are type parameters: the surrounding binary instantiates
//! them with the vendor drivers, while the logic here depends only on whether
//! a slot is filled.

use vstd::prelude::*;

verus! {

/// Fixed start-up latency of the illuminance sensor in microseconds: after it
/// is enabled, this much time plus the configured integration time must pass
/// before the first read is meaningful.
pub const LUX_STARTUP_LATENCY_US: u32 = 4_000;

/// The registry: one optional slot per sensor class.
pub struct Sensors<TH, LX, GS> {
    /// Temperature/humidity sensor driver, when installed.
    pub temp_humi: Option<TH>,
    /// Illuminance sensor driver, when installed.
    pub lux: Option<LX>,
    /// Gas (CO2-equivalent / TVOC) sensor driver, when installed.
    pub gas: Option<GS>,
}

impl<TH, LX, GS> Sensors<TH, LX, GS> {
    /// An empty registry: no sensor installed.
    pub fn new() -> (sensors: Self)
        ensures
            sensors.temp_humi is None,
            sensors.lux is None,
            sensors.gas is None,
    {
        Sensors { temp_humi: None, lux: None, gas: None }
    }

    /// Finishes initialization of the temperature/humidity sensor: the driver
    /// enters its slot exactly when querying the device identifier succeeded.
    pub fn install_temp_humi(&mut self, driver: TH, identifier_ok: bool)
        ensures
            final(self).temp_humi == (if identifier_ok {
                Some(driver)
            } else {
                old(self).temp_humi
            }),
            final(self).lux == old(self).lux,
            final(self).gas == old(self).gas,
    {
        if identifier_ok {
            self.temp_humi = Some(driver);
        }
    }

    /// Finishes initialization of the illuminance sensor: the driver enters
    /// its slot exactly when setting the gain, setting the integration time
    /// and enabling the sensor all succeeded.
    pub fn install_lux(&mut self, driver: LX, gain_ok: bool, integration_ok: bool, enable_ok: bool)
        ensures
            final(self).lux == (if gain_ok && integration_ok && enable_ok {
                Some(driver)
            } else {
                old(self).lux
            }),
            final(self).temp_humi == old(self).temp_humi,
            final(self).gas == old(self).gas,
    {
        if gain_ok && integration_ok && enable_ok {
            self.lux = Some(driver);
        }
    }

    /// Finishes initialization of the gas sensor: the driver enters its slot
    /// exactly when reading the serial number and priming the baseline
    /// algorithm both succeeded.
    pub fn install_gas(&mut self, driver: GS, serial_ok: bool, init_ok: bool)
        ensures
            final(self).gas == (if serial_ok && init_ok {
                Some(driver)
            } else {
                old(self).gas
            }),
            final(self).temp_humi == old(self).temp_humi,
            final(self).lux == old(self).lux,
    {
        if serial_ok && init_ok {
            self.gas = Some(driver);
        }
    }
}

/// Quiescent period the illuminance sensor needs after being enabled, in
/// microseconds: the fixed start-up latency plus the configured integration
/// time. Only after waiting this long is its first reading meaningful.
pub fn lux_quiescent_us(integration_time_us: u32) -> (us: u32)
    requires
        integration_time_us + LUX_STARTUP_LATENCY_US <= u32::MAX,
    ensures
        us == integration_time_us + LUX_STARTUP_LATENCY_US,
{
    integration_time_us + LUX_STARTUP_LATENCY_US
}

} // verus!
