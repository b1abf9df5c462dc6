//! Sensor identity, raw readings, and the per-sensor latest-data record.
//!
//! All electrical values are fixed-point integers in micro-units
//! (microvolts, microamperes, microwatts).

use vstd::prelude::*;

verus! {

/// Kind of power sensor.
#[derive(Clone, Copy, Debug, PartialEq, Eq, Structural)]
pub enum SensorType {
    /// Unknown sensor type.
    Unknown,
    /// I2C power sensor (e.g. an INA3221 rail).
    I2C,
    /// System power supply.
    System,
}

/// The power domain a sensor is accounted to in the PS/PL summary.
///
/// Every sensor belongs to exactly one domain, so the instantaneous total
/// power decomposes exactly into the PS part plus the PL part.
#[derive(Clone, Copy, Debug, PartialEq, Eq, Structural)]
pub enum PowerDomain {
    /// Processing-system domain.
    ProcessingSystem,
    /// Programmable-logic domain.
    ProgrammableLogic,
}

/// Immutable identity of a discovered sensor: assigned once at discovery,
/// never changed afterwards. Indices into the registry are the positions in
/// the `Vec<SensorIdentity>` handed to the monitor's constructor.
#[derive(Clone, Debug)]
pub struct SensorIdentity {
    /// Sensor name.
    pub name: String,
    /// Sensor kind.
    pub kind: SensorType,
    /// Power domain the sensor is accounted to.
    pub domain: PowerDomain,
    /// Warning threshold in microwatts.
    pub warning_threshold: u64,
    /// Critical threshold in microwatts.
    pub critical_threshold: u64,
}

/// One raw reading for one sensor, produced per tick by the platform's
/// sensor I/O layer. A sensor that could not be read reports `online =
/// false` with zeroed numeric fields; it never aborts the tick.
#[derive(Clone, Debug)]
pub struct Reading {
    /// Bus voltage in microvolts.
    pub voltage: u64,
    /// Current in microamperes.
    pub current: u64,
    /// Power in microwatts.
    pub power: u64,
    /// Whether the sensor answered this tick.
    pub online: bool,
    /// Status text, if the sensor reports one.
    pub status: String,
}

/// Latest data for a single sensor, or for the aggregate "total" channel.
#[derive(Clone, Debug, PartialEq)]
pub struct SensorData {
    /// Sensor name.
    pub name: String,
    /// Sensor kind.
    pub kind: SensorType,
    /// Voltage in microvolts.
    pub voltage: u64,
    /// Current in microamperes.
    pub current: u64,
    /// Power in microwatts.
    pub power: u64,
    /// Whether the sensor was online at the last tick.
    pub online: bool,
    /// Status text from the last tick.
    pub status: String,
    /// Warning threshold in microwatts.
    pub warning_threshold: u64,
    /// Critical threshold in microwatts.
    pub critical_threshold: u64,
}

/// The latest-data record that one tick writes for one sensor: the reading's
/// values under the sensor's immutable identity.
pub open spec fn spec_sensor_data(id: SensorIdentity, rd: Reading) -> SensorData {
    SensorData {
        name: id.name,
        kind: id.kind,
        voltage: rd.voltage,
        current: rd.current,
        power: rd.power,
        online: rd.online,
        status: rd.status,
        warning_threshold: id.warning_threshold,
        critical_threshold: id.critical_threshold,
    }
}

impl SensorData {
    /// An owned copy of this record, equal to it.
    pub fn copy_of(&self) -> (r: SensorData)
        ensures
            r == *self,
    {
        SensorData {
            name: self.name.clone(),
            kind: self.kind,
            voltage: self.voltage,
            current: self.current,
            power: self.power,
            online: self.online,
            status: self.status.clone(),
            warning_threshold: self.warning_threshold,
            critical_threshold: self.critical_threshold,
        }
    }

    /// Builds the latest-data record of one tick from a sensor's identity
    /// and its reading of that tick.
    pub fn of_reading(id: &SensorIdentity, rd: &Reading) -> (r: SensorData)
        ensures
            r == spec_sensor_data(*id, *rd),
    {
        SensorData {
            name: id.name.clone(),
            kind: id.kind,
            voltage: rd.voltage,
            current: rd.current,
            power: rd.power,
            online: rd.online,
            status: rd.status.clone(),
            warning_threshold: id.warning_threshold,
            critical_threshold: id.critical_threshold,
        }
    }
}

} // verus!
