//! Per-tick aggregation: the instantaneous total power and current over all
//! online sensors, and the PS/PL power breakdown.
//!
//! The total of a tick is the sum of the raw per-tick values of the online
//! sensors — not an average of running statistics — so the published total
//! equals the published PS part plus the published PL part exactly.

use vstd::prelude::*;
use crate::sensor::{PowerDomain, Reading, SensorIdentity};

verus! {

/// What a reading contributes to a tick's total power: its power if the
/// sensor was online, else nothing.
pub open spec fn online_power(rd: Reading) -> int {
    if rd.online {
        rd.power as int
    } else {
        0
    }
}

/// What a reading contributes to a tick's total current.
pub open spec fn online_current(rd: Reading) -> int {
    if rd.online {
        rd.current as int
    } else {
        0
    }
}

/// Total power of the first `n` readings of a tick.
pub open spec fn total_power_upto(rs: Seq<Reading>, n: int) -> int
    decreases n,
{
    if n <= 0 {
        0
    } else {
        total_power_upto(rs, n - 1) + online_power(rs[n - 1])
    }
}

/// Instantaneous total power of one tick: the sum of the power of every
/// online sensor.
pub open spec fn total_power(rs: Seq<Reading>) -> int {
    total_power_upto(rs, rs.len() as int)
}

/// Total current of the first `n` readings of a tick.
pub open spec fn total_current_upto(rs: Seq<Reading>, n: int) -> int
    decreases n,
{
    if n <= 0 {
        0
    } else {
        total_current_upto(rs, n - 1) + online_current(rs[n - 1])
    }
}

/// Instantaneous total current of one tick.
pub open spec fn total_current(rs: Seq<Reading>) -> int {
    total_current_upto(rs, rs.len() as int)
}

/// Power of the first `n` readings whose sensor belongs to domain `d`.
pub open spec fn domain_power_upto(
    ids: Seq<SensorIdentity>,
    rs: Seq<Reading>,
    d: PowerDomain,
    n: int,
) -> int
    decreases n,
{
    if n <= 0 {
        0
    } else {
        domain_power_upto(ids, rs, d, n - 1) + if ids[n - 1].domain == d {
            online_power(rs[n - 1])
        } else {
            0
        }
    }
}

/// Instantaneous power of one tick accounted to domain `d`.
pub open spec fn domain_power(ids: Seq<SensorIdentity>, rs: Seq<Reading>, d: PowerDomain) -> int {
    domain_power_upto(ids, rs, d, rs.len() as int)
}

proof fn lemma_power_decomposition_upto(ids: Seq<SensorIdentity>, rs: Seq<Reading>, n: int)
    requires
        0 <= n <= rs.len(),
        rs.len() == ids.len(),
    ensures
        total_power_upto(rs, n) == domain_power_upto(
            ids,
            rs,
            PowerDomain::ProcessingSystem,
            n,
        ) + domain_power_upto(ids, rs, PowerDomain::ProgrammableLogic, n),
    decreases n,
{
    if n > 0 {
        lemma_power_decomposition_upto(ids, rs, n - 1);
    }
}

/// Law: every sensor is accounted to exactly one of the PS and PL domains,
/// so each tick's instantaneous total power is exactly the PS part plus the
/// PL part.
pub proof fn lemma_power_decomposition(ids: Seq<SensorIdentity>, rs: Seq<Reading>)
    requires
        rs.len() == ids.len(),
    ensures
        total_power(rs) == domain_power(ids, rs, PowerDomain::ProcessingSystem) + domain_power(
            ids,
            rs,
            PowerDomain::ProgrammableLogic,
        ),
{
    lemma_power_decomposition_upto(ids, rs, rs.len() as int);
}

} // verus!
