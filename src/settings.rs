use vstd::prelude::*;

use crate::controller::{Controller, ControllerView};
use crate::time_span::{saturating_product, TimeSpan, NANOS_PER_SEC};
use crate::water_pump::WaterPump;

verus! {

/// The configuration of one sensor and pump pair, fixed at startup.
pub struct SensorPumpPair {
    /// The pair's name, under which its readings are published.
    pub name: String,
    /// The converter channel the moisture sensor is wired to.
    pub sensor_channel: u8,
    /// Seconds between two reads of the sensor.
    pub sensor_polling_time_seconds: u64,
    /// Readings above this value mean the soil is too dry.
    pub watering_threshold: u16,
    /// Least seconds between two starts of watering.
    pub watering_throttle_seconds: u64,
    /// Most seconds the pump stays on after a start.
    pub watering_duration_seconds: u64,
    /// The GPIO pin that drives the pump.
    pub pump_pin: u64,
    /// When set, pump commands are recorded but never reach the hardware.
    pub dry_run: bool,
}

/// The whole configuration: the pairs, in order.
pub struct Configuration {
    pub sensors_pumps: Vec<SensorPumpPair>,
}

impl SensorPumpPair {
    /// The time between two reads of the sensor.
    pub fn polling_interval(&self) -> (r: TimeSpan)
        ensures
            r.nanos == saturating_product(self.sensor_polling_time_seconds, NANOS_PER_SEC),
    {
        TimeSpan::from_secs(self.sensor_polling_time_seconds)
    }

    /// A controller for this pair, driving `pump`.
    pub fn controller<P: WaterPump>(&self, pump: P) -> (r: Controller<P>)
        ensures
            r@ == (ControllerView {
                name: self.name@,
                threshold: self.watering_threshold,
                throttle: saturating_product(self.watering_throttle_seconds, NANOS_PER_SEC),
                duration: saturating_product(self.watering_duration_seconds, NANOS_PER_SEC),
                last_water_time: None,
                commands: pump.commands(),
            }),
    {
        Controller::new(
            self.name.clone(),
            self.watering_threshold,
            TimeSpan::from_secs(self.watering_throttle_seconds),
            TimeSpan::from_secs(self.watering_duration_seconds),
            pump,
        )
    }
}

} // verus!
