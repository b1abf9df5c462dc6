//! The monitor engine: sensor registry, the idle/running sampling state
//! machine, per-tick aggregation into an atomically replaced snapshot and
//! running statistics, and the synchronous query API.
//!
//! The periodic tick driver itself (a thread and a timer) is platform glue
//! and lives outside this crate: it calls [`PowerMonitor::process_tick`] once
//! per period with one reading per registered sensor. The engine never queues
//! ticks; a driver that overruns its period drops the missed ticks.

use vstd::prelude::*;
use vstd::string::StringExecFns;
use crate::aggregate::{
    domain_power, domain_power_upto, total_current, total_current_upto, total_power,
    total_power_upto,
};
use crate::errors::Error;
use crate::sensor::{
    spec_sensor_data, PowerDomain, Reading, SensorData, SensorIdentity, SensorType,
};
use crate::stats::{SensorStats, Stats};

verus! {

/// Most sensors a monitor accepts at construction. Keeps every per-tick sum
/// of `u64` micro-unit values inside `u64` range.
pub const MAX_SENSORS: usize = 1024;

/// Largest accepted per-sample value, in micro-units (one gigawatt, or the
/// analogue in microvolts or microamperes). The platform glue clamps raw
/// values to this bound before handing a reading to the engine.
pub const MAX_READING: u64 = 1_000_000_000_000_000;

/// Sampling frequency configured at construction, in hertz.
pub const DEFAULT_FREQUENCY_HZ: i32 = 1;

/// The published PS/PL/total instantaneous power breakdown of the latest
/// tick, in microwatts. `total_power` always equals
/// `ps_total_power + pl_total_power` exactly.
#[derive(Clone, Copy, Debug, PartialEq, Eq, Structural)]
pub struct PowerSummary {
    /// Power of the processing-system domain.
    pub ps_total_power: u64,
    /// Power of the programmable-logic domain.
    pub pl_total_power: u64,
    /// Power of both domains together.
    pub total_power: u64,
}

/// Running power statistics of the three summary scopes.
#[derive(Clone, Copy, Debug, PartialEq, Eq, Structural)]
pub struct PowerSummaryStats {
    /// Statistics of the processing-system domain power.
    pub ps_total_power: Stats,
    /// Statistics of the programmable-logic domain power.
    pub pl_total_power: Stats,
    /// Statistics of the total power.
    pub total_power: Stats,
}

/// An owned copy of the latest published snapshot: one record per sensor in
/// registry order, plus the aggregate "total" channel.
#[derive(Clone, Debug, PartialEq)]
pub struct PowerData {
    /// The aggregate channel of the latest tick.
    pub total: SensorData,
    /// Latest per-sensor records, in registry order.
    pub sensors: Vec<SensorData>,
    /// Number of sensors.
    pub sensor_count: i32,
}

/// An owned copy of the running statistics: one scope per sensor in registry
/// order, plus the aggregate "total" scope.
#[derive(Clone, Debug, PartialEq)]
pub struct PowerStats {
    /// The aggregate scope.
    pub total: SensorStats,
    /// Per-sensor scopes, in registry order.
    pub sensors: Vec<SensorStats>,
    /// Number of sensors.
    pub sensor_count: i32,
}

/// The zeroed, offline aggregate channel a monitor starts with.
pub open spec fn is_zero_total(d: SensorData) -> bool {
    &&& d.name@ == "total"@
    &&& d.kind == SensorType::Unknown
    &&& d.voltage == 0
    &&& d.current == 0
    &&& d.power == 0
    &&& !d.online
    &&& d.status@ == Seq::<char>::empty()
    &&& d.warning_threshold == 0
    &&& d.critical_threshold == 0
}

/// The aggregate channel one tick publishes: the instantaneous total power
/// and current of the online sensors, marked online. No single bus voltage
/// is meaningful for the aggregate, so it reads 0.
pub open spec fn is_tick_total(d: SensorData, rs: Seq<Reading>) -> bool {
    &&& d.name@ == "total"@
    &&& d.kind == SensorType::Unknown
    &&& d.voltage == 0
    &&& d.current == total_current(rs)
    &&& d.power == total_power(rs)
    &&& d.online
    &&& d.status@ == Seq::<char>::empty()
    &&& d.warning_threshold == 0
    &&& d.critical_threshold == 0
}

/// A per-sensor record before the first tick: the sensor's identity with
/// zeroed values, offline.
pub open spec fn is_initial_data(d: SensorData, id: SensorIdentity) -> bool {
    &&& d.name == id.name
    &&& d.kind == id.kind
    &&& d.voltage == 0
    &&& d.current == 0
    &&& d.power == 0
    &&& !d.online
    &&& d.status@ == Seq::<char>::empty()
    &&& d.warning_threshold == id.warning_threshold
    &&& d.critical_threshold == id.critical_threshold
}

/// A power monitor instance: the immutable sensor registry, the sampling
/// state machine, and the shared snapshot and statistics that each tick
/// replaces wholesale and every query reads.
#[derive(Debug)]
pub struct PowerMonitor {
    /// The sensor registry, fixed at construction.
    pub sensors: Vec<SensorIdentity>,
    /// Configured sampling frequency in hertz; always positive.
    pub frequency_hz: i32,
    /// Whether the sampling state machine is in the running state.
    pub running: bool,
    /// Ticks folded into the statistics since the last reset.
    pub ticks: u64,
    /// Latest per-sensor records, in registry order.
    pub latest: Vec<SensorData>,
    /// Latest aggregate channel.
    pub latest_total: SensorData,
    /// Latest PS/PL/total power breakdown.
    pub summary: PowerSummary,
    /// Running statistics per sensor, in registry order.
    pub sensor_stats: Vec<SensorStats>,
    /// Running statistics of the aggregate channel.
    pub total_stats: SensorStats,
    /// Running power statistics of the summary scopes.
    pub summary_stats: PowerSummaryStats,
}

impl PowerMonitor {
    /// The monitor's invariant: a non-empty registry of at most
    /// [`MAX_SENSORS`] sensors, a positive frequency, one latest record and
    /// one statistics scope per sensor under the sensor's name, every
    /// statistics scope well-formed with exactly `ticks` folded samples, and
    /// a summary whose total is exactly the PS part plus the PL part.
    pub open spec fn wf(self) -> bool {
        &&& 0 < self.sensors.len() <= MAX_SENSORS
        &&& self.frequency_hz > 0
        &&& self.latest.len() == self.sensors.len()
        &&& self.sensor_stats.len() == self.sensors.len()
        &&& (forall|i: int|
            0 <= i < self.sensors.len() ==> (#[trigger] self.sensor_stats[i]).wf_with_count(
                self.ticks,
            ))
        &&& (forall|i: int|
            0 <= i < self.sensors.len() ==> (#[trigger] self.sensor_stats[i]).name
                == self.sensors[i].name)
        &&& (forall|i: int|
            0 <= i < self.sensors.len() ==> (#[trigger] self.latest[i]).name
                == self.sensors[i].name)
        &&& self.total_stats.wf_with_count(self.ticks)
        &&& self.summary_stats.ps_total_power.wf()
        &&& self.summary_stats.pl_total_power.wf()
        &&& self.summary_stats.total_power.wf()
        &&& self.summary_stats.ps_total_power.count == self.ticks
        &&& self.summary_stats.pl_total_power.count == self.ticks
        &&& self.summary_stats.total_power.count == self.ticks
        &&& self.summary.total_power == self.summary.ps_total_power + self.summary.pl_total_power
    }

    /// One successful start transition of the sampling state machine.
    pub open spec fn spec_start(pre: PowerMonitor, post: PowerMonitor) -> bool {
        &&& !pre.running
        &&& post == (PowerMonitor { running: true, ..pre })
    }

    /// One successful stop transition of the sampling state machine.
    pub open spec fn spec_stop(pre: PowerMonitor, post: PowerMonitor) -> bool {
        &&& pre.running
        &&& post == (PowerMonitor { running: false, ..pre })
    }

    /// One successful frequency change; valid in either sampling state.
    pub open spec fn spec_set_frequency(pre: PowerMonitor, post: PowerMonitor, hz: i32) -> bool {
        &&& hz > 0
        &&& post == (PowerMonitor { frequency_hz: hz, ..pre })
    }

    /// Constructs a monitor over the sensors the platform discovered, in
    /// discovery order. Fails with `NoSensors` when the list is empty and
    /// with `InitFailed` when it exceeds [`MAX_SENSORS`]; otherwise the
    /// monitor starts idle, at [`DEFAULT_FREQUENCY_HZ`], with zeroed
    /// statistics and an all-offline snapshot.
    pub fn new(sensors: Vec<SensorIdentity>) -> (r: Result<PowerMonitor, Error>)
        ensures
            sensors@.len() == 0 ==> r == Err::<PowerMonitor, Error>(Error::NoSensors),
            sensors@.len() > MAX_SENSORS ==> r == Err::<PowerMonitor, Error>(Error::InitFailed),
            0 < sensors@.len() <= MAX_SENSORS ==> r is Ok,
            r matches Ok(m) ==> {
                &&& m.wf()
                &&& m.sensors@ == sensors@
                &&& m.frequency_hz == DEFAULT_FREQUENCY_HZ
                &&& !m.running
                &&& m.ticks == 0
                &&& (forall|i: int|
                    0 <= i < sensors@.len() ==> is_initial_data(
                        #[trigger] m.latest@[i],
                        sensors@[i],
                    ))
                &&& is_zero_total(m.latest_total)
                &&& m.summary == (PowerSummary {
                    ps_total_power: 0,
                    pl_total_power: 0,
                    total_power: 0,
                })
            },
    {
        if sensors.len() == 0 {
            return Err(Error::NoSensors);
        }
        if sensors.len() > MAX_SENSORS {
            return Err(Error::InitFailed);
        }
        let n = sensors.len();
        let mut latest: Vec<SensorData> = Vec::new();
        let mut sensor_stats: Vec<SensorStats> = Vec::new();
        let mut i: usize = 0;
        while i < n
            invariant
                n == sensors@.len(),
                i <= n,
                latest@.len() == i,
                sensor_stats@.len() == i,
                forall|j: int| 0 <= j < i ==> is_initial_data(#[trigger] latest@[j], sensors@[j]),
                forall|j: int|
                    0 <= j < i ==> (#[trigger] sensor_stats@[j]).name == sensors@[j].name
                        && sensor_stats@[j].wf_with_count(0),
            decreases n - i,
        {
            let id = &sensors[i];
            latest.push(
                SensorData {
                    name: id.name.clone(),
                    kind: id.kind,
                    voltage: 0,
                    current: 0,
                    power: 0,
                    online: false,
                    status: String::new(),
                    warning_threshold: id.warning_threshold,
                    critical_threshold: id.critical_threshold,
                },
            );
            sensor_stats.push(SensorStats::new_empty(id.name.clone()));
            i += 1;
        }
        Ok(
            PowerMonitor {
                sensors,
                frequency_hz: DEFAULT_FREQUENCY_HZ,
                running: false,
                ticks: 0,
                latest,
                latest_total: zero_total_data(),
                summary: PowerSummary { ps_total_power: 0, pl_total_power: 0, total_power: 0 },
                sensor_stats,
                total_stats: SensorStats::new_empty(String::from_str("total")),
                summary_stats: PowerSummaryStats {
                    ps_total_power: Stats::empty(),
                    pl_total_power: Stats::empty(),
                    total_power: Stats::empty(),
                },
            },
        )
    }

    /// Sets the sampling frequency. Valid in either sampling state; a
    /// non-positive frequency fails with `InvalidFrequency` and changes
    /// nothing. Takes effect on the driver's next scheduled tick.
    pub fn set_sampling_frequency(&mut self, frequency_hz: i32) -> (r: Result<(), Error>)
        requires
            old(self).wf(),
        ensures
            final(self).wf(),
            frequency_hz <= 0 ==> r == Err::<(), Error>(Error::InvalidFrequency) && *final(self)
                == *old(self),
            frequency_hz > 0 ==> r == Ok::<(), Error>(()) && PowerMonitor::spec_set_frequency(
                *old(self),
                *final(self),
                frequency_hz,
            ),
    {
        if frequency_hz <= 0 {
            return Err(Error::InvalidFrequency);
        }
        self.frequency_hz = frequency_hz;
        Ok(())
    }

    /// Reads the configured sampling frequency; never fails.
    pub fn get_sampling_frequency(&self) -> (r: Result<i32, Error>)
        ensures
            r == Ok::<i32, Error>(self.frequency_hz),
    {
        Ok(self.frequency_hz)
    }

    /// Starts sampling: idle to running. Fails with `AlreadyRunning`, and
    /// changes nothing, when sampling already runs. The platform's tick
    /// driver keys off the running state.
    pub fn start_sampling(&mut self) -> (r: Result<(), Error>)
        requires
            old(self).wf(),
        ensures
            final(self).wf(),
            old(self).running ==> r == Err::<(), Error>(Error::AlreadyRunning) && *final(self)
                == *old(self),
            !old(self).running ==> r == Ok::<(), Error>(()) && PowerMonitor::spec_start(
                *old(self),
                *final(self),
            ),
    {
        if self.running {
            return Err(Error::AlreadyRunning);
        }
        self.running = true;
        Ok(())
    }

    /// Stops sampling: running to idle. Fails with `NotRunning`, and changes
    /// nothing, when sampling is idle. The snapshot and statistics stay
    /// frozen at their last published values.
    pub fn stop_sampling(&mut self) -> (r: Result<(), Error>)
        requires
            old(self).wf(),
        ensures
            final(self).wf(),
            !old(self).running ==> r == Err::<(), Error>(Error::NotRunning) && *final(self)
                == *old(self),
            old(self).running ==> r == Ok::<(), Error>(()) && PowerMonitor::spec_stop(
                *old(self),
                *final(self),
            ),
    {
        if !self.running {
            return Err(Error::NotRunning);
        }
        self.running = false;
        Ok(())
    }

    /// Whether sampling is running; never fails.
    pub fn is_sampling(&self) -> (r: Result<bool, Error>)
        ensures
            r == Ok::<bool, Error>(self.running),
    {
        Ok(self.running)
    }

    /// Applies one sampling tick: publishes the snapshot built from the
    /// batch of readings (one per registered sensor, in registry order) and
    /// folds the batch into every statistics scope. The instantaneous total
    /// is the sum of the raw per-tick values of the online sensors, summed
    /// before any folding, so the published total equals the PS part plus
    /// the PL part exactly. Fails with `NotRunning`, and changes nothing,
    /// when sampling is idle.
    pub fn process_tick(&mut self, readings: &Vec<Reading>) -> (r: Result<(), Error>)
        requires
            old(self).wf(),
            readings@.len() == old(self).sensors@.len(),
            forall|i: int|
                0 <= i < readings@.len() ==> (#[trigger] readings@[i]).voltage <= MAX_READING
                    && readings@[i].current <= MAX_READING && readings@[i].power <= MAX_READING,
            old(self).ticks < u64::MAX,
        ensures
            final(self).wf(),
            !old(self).running ==> r == Err::<(), Error>(Error::NotRunning) && *final(self)
                == *old(self),
            old(self).running ==> {
                &&& r == Ok::<(), Error>(())
                &&& final(self).sensors == old(self).sensors
                &&& final(self).frequency_hz == old(self).frequency_hz
                &&& final(self).running
                &&& final(self).ticks == old(self).ticks + 1
                &&& final(self).latest@.len() == readings@.len()
                &&& (forall|i: int|
                    0 <= i < readings@.len() ==> (#[trigger] final(self).latest@[i])
                        == spec_sensor_data(old(self).sensors@[i], readings@[i]))
                &&& is_tick_total(final(self).latest_total, readings@)
                &&& final(self).summary.ps_total_power == domain_power(
                    old(self).sensors@,
                    readings@,
                    PowerDomain::ProcessingSystem,
                )
                &&& final(self).summary.pl_total_power == domain_power(
                    old(self).sensors@,
                    readings@,
                    PowerDomain::ProgrammableLogic,
                )
                &&& final(self).summary.total_power == total_power(readings@)
                &&& (forall|i: int|
                    0 <= i < readings@.len() ==> (#[trigger] final(self).sensor_stats@[i])
                        == old(self).sensor_stats@[i].spec_fold_reading(
                        readings@[i].voltage,
                        readings@[i].current,
                        readings@[i].power,
                    ))
                &&& final(self).total_stats == old(self).total_stats.spec_fold_reading(
                    0,
                    total_current(readings@) as u64,
                    total_power(readings@) as u64,
                )
                &&& final(self).summary_stats.ps_total_power == old(
                    self,
                ).summary_stats.ps_total_power.spec_fold(
                    domain_power(old(self).sensors@, readings@, PowerDomain::ProcessingSystem)
                        as u64,
                )
                &&& final(self).summary_stats.pl_total_power == old(
                    self,
                ).summary_stats.pl_total_power.spec_fold(
                    domain_power(old(self).sensors@, readings@, PowerDomain::ProgrammableLogic)
                        as u64,
                )
                &&& final(self).summary_stats.total_power == old(
                    self,
                ).summary_stats.total_power.spec_fold(total_power(readings@) as u64)
            },
    {
        if !self.running {
            return Err(Error::NotRunning);
        }
        let n = self.sensors.len();
        let mut new_latest: Vec<SensorData> = Vec::new();
        let mut new_stats: Vec<SensorStats> = Vec::new();
        let mut sum_p: u64 = 0;
        let mut sum_c: u64 = 0;
        let mut ps_p: u64 = 0;
        let mut pl_p: u64 = 0;
        let mut i: usize = 0;
        while i < n
            invariant
                old(self).wf(),
                old(self).ticks < u64::MAX,
                n == self.sensors@.len(),
                readings@.len() == n,
                forall|k: int|
                    0 <= k < readings@.len() ==> (#[trigger] readings@[k]).voltage <= MAX_READING
                        && readings@[k].current <= MAX_READING && readings@[k].power
                        <= MAX_READING,
                i <= n,
                new_latest@.len() == i,
                new_stats@.len() == i,
                *self == *old(self),
                forall|j: int|
                    0 <= j < i ==> (#[trigger] new_latest@[j]) == spec_sensor_data(
                        self.sensors@[j],
                        readings@[j],
                    ),
                forall|j: int|
                    0 <= j < i ==> (#[trigger] new_stats@[j])
                        == self.sensor_stats@[j].spec_fold_reading(
                        readings@[j].voltage,
                        readings@[j].current,
                        readings@[j].power,
                    ),
                forall|j: int|
                    0 <= j < i ==> (#[trigger] new_stats@[j]).wf_with_count(
                        (self.ticks + 1) as u64,
                    ),
                sum_p as int == total_power_upto(readings@, i as int),
                sum_c as int == total_current_upto(readings@, i as int),
                ps_p as int == domain_power_upto(
                    self.sensors@,
                    readings@,
                    PowerDomain::ProcessingSystem,
                    i as int,
                ),
                pl_p as int == domain_power_upto(
                    self.sensors@,
                    readings@,
                    PowerDomain::ProgrammableLogic,
                    i as int,
                ),
                sum_p == ps_p + pl_p,
                sum_p as int <= i as int * MAX_READING,
                sum_c as int <= i as int * MAX_READING,
            decreases n - i,
        {
            let rd = &readings[i];
            proof {
                assert(old(self).sensor_stats[i as int].wf_with_count(old(self).ticks));
            }
            new_latest.push(SensorData::of_reading(&self.sensors[i], rd));
            new_stats.push(self.sensor_stats[i].fold_reading(rd.voltage, rd.current, rd.power));
            if rd.online {
                sum_p = sum_p + rd.power;
                sum_c = sum_c + rd.current;
                match self.sensors[i].domain {
                    PowerDomain::ProcessingSystem => {
                        ps_p = ps_p + rd.power;
                    },
                    PowerDomain::ProgrammableLogic => {
                        pl_p = pl_p + rd.power;
                    },
                }
            }
            i += 1;
        }
        self.latest = new_latest;
        self.sensor_stats = new_stats;
        self.latest_total = SensorData {
            name: String::from_str("total"),
            kind: SensorType::Unknown,
            voltage: 0,
            current: sum_c,
            power: sum_p,
            online: true,
            status: String::new(),
            warning_threshold: 0,
            critical_threshold: 0,
        };
        self.summary = PowerSummary {
            ps_total_power: ps_p,
            pl_total_power: pl_p,
            total_power: sum_p,
        };
        self.total_stats = self.total_stats.fold_reading(0, sum_c, sum_p);
        self.summary_stats = PowerSummaryStats {
            ps_total_power: self.summary_stats.ps_total_power.fold(ps_p),
            pl_total_power: self.summary_stats.pl_total_power.fold(pl_p),
            total_power: self.summary_stats.total_power.fold(sum_p),
        };
        self.ticks = self.ticks + 1;
        Ok(())
    }

    /// Returns an owned copy of the most recently published snapshot; never
    /// fails. With no intervening tick, repeated calls return identical
    /// values, and the result is frozen at its last published value while
    /// sampling is idle.
    pub fn get_latest_data(&self) -> (r: Result<PowerData, Error>)
        requires
            self.wf(),
        ensures
            r is Ok,
            r matches Ok(d) ==> d.total == self.latest_total && d.sensors@ == self.latest@
                && d.sensor_count == self.sensors@.len(),
    {
        let n = self.latest.len();
        let mut sensors_out: Vec<SensorData> = Vec::new();
        let mut i: usize = 0;
        while i < n
            invariant
                i <= n,
                n == self.latest@.len(),
                sensors_out@.len() == i,
                forall|j: int| 0 <= j < i ==> (#[trigger] sensors_out@[j]) == self.latest@[j],
            decreases n - i,
        {
            sensors_out.push(self.latest[i].copy_of());
            i += 1;
        }
        proof {
            assert(sensors_out@ =~= self.latest@);
        }
        Ok(
            PowerData {
                total: self.latest_total.copy_of(),
                sensors: sensors_out,
                sensor_count: n as i32,
            },
        )
    }

    /// Returns an owned copy of the running statistics of every scope; never
    /// fails.
    pub fn get_statistics(&self) -> (r: Result<PowerStats, Error>)
        requires
            self.wf(),
        ensures
            r is Ok,
            r matches Ok(s) ==> s.total == self.total_stats && s.sensors@ == self.sensor_stats@
                && s.sensor_count == self.sensors@.len(),
    {
        let n = self.sensor_stats.len();
        let mut sensors_out: Vec<SensorStats> = Vec::new();
        let mut i: usize = 0;
        while i < n
            invariant
                i <= n,
                n == self.sensor_stats@.len(),
                sensors_out@.len() == i,
                forall|j: int| 0 <= j < i ==> (#[trigger] sensors_out@[j]) == self.sensor_stats@[j],
            decreases n - i,
        {
            sensors_out.push(self.sensor_stats[i].copy_of());
            i += 1;
        }
        proof {
            assert(sensors_out@ =~= self.sensor_stats@);
        }
        Ok(
            PowerStats {
                total: self.total_stats.copy_of(),
                sensors: sensors_out,
                sensor_count: n as i32,
            },
        )
    }

    /// Returns the latest PS/PL/total power breakdown; never fails.
    pub fn get_power_summary(&self) -> (r: Result<PowerSummary, Error>)
        ensures
            r == Ok::<PowerSummary, Error>(self.summary),
    {
        Ok(self.summary)
    }

    /// Returns the running power statistics of the summary scopes; never
    /// fails.
    pub fn get_power_summary_stats(&self) -> (r: Result<PowerSummaryStats, Error>)
        ensures
            r == Ok::<PowerSummaryStats, Error>(self.summary_stats),
    {
        Ok(self.summary_stats)
    }

    /// Clears the running statistics of every scope — the sample counts all
    /// read 0 again — without touching the snapshot, the summary, the
    /// registry or the sampling state. Succeeds even while sampling runs.
    pub fn reset_statistics(&mut self) -> (r: Result<(), Error>)
        requires
            old(self).wf(),
        ensures
            final(self).wf(),
            r == Ok::<(), Error>(()),
            final(self).ticks == 0,
            final(self).sensors == old(self).sensors,
            final(self).frequency_hz == old(self).frequency_hz,
            final(self).running == old(self).running,
            final(self).latest == old(self).latest,
            final(self).latest_total == old(self).latest_total,
            final(self).summary == old(self).summary,
            final(self).sensor_stats@.len() == old(self).sensor_stats@.len(),
            forall|i: int|
                0 <= i < old(self).sensor_stats@.len() ==> (#[trigger] final(self).sensor_stats@[i])
                    == old(self).sensor_stats@[i].spec_reset(),
            final(self).total_stats == old(self).total_stats.spec_reset(),
            final(self).summary_stats == (PowerSummaryStats {
                ps_total_power: Stats::spec_empty(),
                pl_total_power: Stats::spec_empty(),
                total_power: Stats::spec_empty(),
            }),
    {
        let n = self.sensor_stats.len();
        let mut new_stats: Vec<SensorStats> = Vec::new();
        let mut i: usize = 0;
        while i < n
            invariant
                i <= n,
                n == self.sensor_stats@.len(),
                new_stats@.len() == i,
                forall|j: int|
                    0 <= j < i ==> (#[trigger] new_stats@[j]) == self.sensor_stats@[j].spec_reset(),
            decreases n - i,
        {
            new_stats.push(self.sensor_stats[i].reset());
            i += 1;
        }
        self.sensor_stats = new_stats;
        self.total_stats = self.total_stats.reset();
        self.summary_stats = PowerSummaryStats {
            ps_total_power: Stats::empty(),
            pl_total_power: Stats::empty(),
            total_power: Stats::empty(),
        };
        self.ticks = 0;
        Ok(())
    }

    /// Number of registered sensors; never fails.
    pub fn get_sensor_count(&self) -> (r: Result<i32, Error>)
        requires
            self.wf(),
        ensures
            r == Ok::<i32, Error>(self.sensors@.len() as i32),
    {
        Ok(self.sensors.len() as i32)
    }

    /// Names of the registered sensors, in registry order; never fails.
    pub fn get_sensor_names(&self) -> (r: Result<Vec<String>, Error>)
        ensures
            r is Ok,
            r matches Ok(names) ==> names@.len() == self.sensors@.len() && (forall|i: int|
                0 <= i < self.sensors@.len() ==> (#[trigger] names@[i]) == self.sensors@[i].name),
    {
        let n = self.sensors.len();
        let mut names: Vec<String> = Vec::new();
        let mut i: usize = 0;
        while i < n
            invariant
                i <= n,
                n == self.sensors@.len(),
                names@.len() == i,
                forall|j: int| 0 <= j < i ==> (#[trigger] names@[j]) == self.sensors@[j].name,
            decreases n - i,
        {
            names.push(self.sensors[i].name.clone());
            i += 1;
        }
        Ok(names)
    }
}

/// The zeroed, offline aggregate channel a monitor starts with.
fn zero_total_data() -> (r: SensorData)
    ensures
        is_zero_total(r),
{
    SensorData {
        name: String::from_str("total"),
        kind: SensorType::Unknown,
        voltage: 0,
        current: 0,
        power: 0,
        online: false,
        status: String::new(),
        warning_threshold: 0,
        critical_threshold: 0,
    }
}

/// Law: after a successful frequency change to `hz`, the configured
/// frequency — which `get_sampling_frequency` returns — is exactly `hz`.
pub proof fn lemma_set_get_frequency(pre: PowerMonitor, post: PowerMonitor, hz: i32)
    requires
        PowerMonitor::spec_set_frequency(pre, post, hz),
    ensures
        post.frequency_hz == hz,
{
}

/// Law: after a successful start, the machine is running, so no second
/// start transition is possible before a stop — `start_sampling` then fails
/// with `AlreadyRunning`.
pub proof fn lemma_start_not_twice(pre: PowerMonitor, mid: PowerMonitor, post: PowerMonitor)
    requires
        PowerMonitor::spec_start(pre, mid),
    ensures
        mid.running,
        !PowerMonitor::spec_start(mid, post),
{
}

/// Law: after a successful stop, the machine is idle, so no second stop
/// transition is possible before a start — `stop_sampling` then fails with
/// `NotRunning`.
pub proof fn lemma_stop_not_twice(pre: PowerMonitor, mid: PowerMonitor, post: PowerMonitor)
    requires
        PowerMonitor::spec_stop(pre, mid),
    ensures
        !mid.running,
        !PowerMonitor::spec_stop(mid, post),
{
}

/// Law: every statistics scope folds exactly once per tick, so in every
/// well-formed monitor state all scopes report the same sample count — the
/// number of ticks since the last reset.
pub proof fn lemma_scope_counts_agree(m: PowerMonitor, i: int)
    requires
        m.wf(),
        0 <= i < m.sensors.len(),
    ensures
        m.sensor_stats[i].power.count == m.ticks,
        m.sensor_stats[i].voltage.count == m.ticks,
        m.sensor_stats[i].current.count == m.ticks,
        m.total_stats.power.count == m.ticks,
        m.summary_stats.ps_total_power.count == m.ticks,
        m.summary_stats.pl_total_power.count == m.ticks,
        m.summary_stats.total_power.count == m.ticks,
{
}

/// Law: in every well-formed monitor state — so in every published summary —
/// the total power equals the PS part plus the PL part exactly.
pub proof fn lemma_summary_decomposition(m: PowerMonitor)
    requires
        m.wf(),
    ensures
        m.summary.total_power == m.summary.ps_total_power + m.summary.pl_total_power,
{
}

} // verus!
