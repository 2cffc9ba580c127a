//! Health zones in the style of ISO 10816-3 and the threshold policy.
//!
//! RMS velocities are carried as fixed-point integers: one unit is one
//! millionth of a millimetre per second (so 1.4 mm/s is `1_400_000`).
use vstd::prelude::*;

verus! {

/// Number of fixed-point units in one mm/s.
pub const MICROS_PER_MM_S: u64 = 1_000_000;

/// Ordered severity of a machine's vibration, from good (A) to danger (D).
#[derive(Clone, Copy, Debug, PartialEq, Eq, Structural)]
pub enum MachineHealth {
    /// Good: newly commissioned machinery.
    ZoneA,
    /// Acceptable: unrestricted long-term operation.
    ZoneB,
    /// Unsatisfactory: limited operation, plan maintenance.
    ZoneC,
    /// Danger: high risk of damage.
    ZoneD,
}

impl MachineHealth {
    /// Severity rank: 0 for zone A up to 3 for zone D.
    pub open spec fn severity(self) -> nat {
        match self {
            MachineHealth::ZoneA => 0,
            MachineHealth::ZoneB => 1,
            MachineHealth::ZoneC => 2,
            MachineHealth::ZoneD => 3,
        }
    }

    /// Text of the zone as it is reported to the telemetry consumer.
    pub open spec fn label_spec(self) -> Seq<char> {
        match self {
            MachineHealth::ZoneA => "Zone A (Good)"@,
            MachineHealth::ZoneB => "Zone B (Acceptable)"@,
            MachineHealth::ZoneC => "Zone C (Unsatisfactory)"@,
            MachineHealth::ZoneD => "Zone D (Danger)"@,
        }
    }

    /// The zone's report text.
    pub fn label(self) -> (r: &'static str)
        ensures
            r@ == self.label_spec(),
    {
        match self {
            MachineHealth::ZoneA => "Zone A (Good)",
            MachineHealth::ZoneB => "Zone B (Acceptable)",
            MachineHealth::ZoneC => "Zone C (Unsatisfactory)",
            MachineHealth::ZoneD => "Zone D (Danger)",
        }
    }

    /// The zone's severity rank, 0 (A) to 3 (D).
    pub fn rank(self) -> (r: u8)
        ensures
            r as nat == self.severity(),
    {
        match self {
            MachineHealth::ZoneA => 0,
            MachineHealth::ZoneB => 1,
            MachineHealth::ZoneC => 2,
            MachineHealth::ZoneD => 3,
        }
    }
}

/// Lower bounds (inclusive) of zones B, C and D, in fixed-point units.
#[derive(Clone, Copy, Debug, PartialEq, Eq, Structural)]
pub struct ZoneThresholds {
    pub a_to_b: u64,
    pub b_to_c: u64,
    pub c_to_d: u64,
}

impl ZoneThresholds {
    /// The bounds are non-decreasing, so the zones are consecutive intervals.
    pub open spec fn wf(self) -> bool {
        self.a_to_b <= self.b_to_c && self.b_to_c <= self.c_to_d
    }

    /// The zone that an RMS velocity of `rms` units falls in:
    /// `[0, a_to_b)` is A, `[a_to_b, b_to_c)` is B, `[b_to_c, c_to_d)` is C,
    /// and everything from `c_to_d` up is D.
    pub open spec fn zone_of(self, rms: int) -> MachineHealth {
        if rms < self.a_to_b {
            MachineHealth::ZoneA
        } else if rms < self.b_to_c {
            MachineHealth::ZoneB
        } else if rms < self.c_to_d {
            MachineHealth::ZoneC
        } else {
            MachineHealth::ZoneD
        }
    }

    /// Thresholds for medium-size machines on rigid foundations:
    /// 1.4, 2.8 and 7.1 mm/s.
    pub fn iso_10816_class_ii() -> (r: ZoneThresholds)
        ensures
            r.a_to_b == 14 * MICROS_PER_MM_S / 10,
            r.b_to_c == 28 * MICROS_PER_MM_S / 10,
            r.c_to_d == 71 * MICROS_PER_MM_S / 10,
            r.wf(),
    {
        ZoneThresholds {
            a_to_b: 14 * MICROS_PER_MM_S / 10,
            b_to_c: 28 * MICROS_PER_MM_S / 10,
            c_to_d: 71 * MICROS_PER_MM_S / 10,
        }
    }

    /// Thresholds with the given lower bounds of zones B, C and D; `None`
    /// where they are not in non-decreasing order.
    pub fn new(a_to_b: u64, b_to_c: u64, c_to_d: u64) -> (r: Option<ZoneThresholds>)
        ensures
            r is Some <==> a_to_b <= b_to_c && b_to_c <= c_to_d,
            r matches Some(t) ==> t.a_to_b == a_to_b && t.b_to_c == b_to_c
                && t.c_to_d == c_to_d && t.wf(),
    {
        if a_to_b <= b_to_c && b_to_c <= c_to_d {
            Some(ZoneThresholds { a_to_b, b_to_c, c_to_d })
        } else {
            None
        }
    }

    /// Classifies an RMS velocity given in fixed-point units.
    pub fn classify(&self, rms_micros: u64) -> (r: MachineHealth)
        ensures
            r == self.zone_of(rms_micros as int),
    {
        if rms_micros < self.a_to_b {
            MachineHealth::ZoneA
        } else if rms_micros < self.b_to_c {
            MachineHealth::ZoneB
        } else if rms_micros < self.c_to_d {
            MachineHealth::ZoneC
        } else {
            MachineHealth::ZoneD
        }
    }
}

/// Severity never decreases as the RMS velocity grows: for well-formed
/// thresholds, a larger velocity lands in the same zone or a worse one.
pub proof fn lemma_zone_monotonic(t: ZoneThresholds, lo: int, hi: int)
    requires
        t.wf(),
        0 <= lo <= hi,
    ensures
        t.zone_of(lo).severity() <= t.zone_of(hi).severity(),
{
}

/// Every velocity lands in exactly the interval whose inclusive lower bound
/// it has reached and whose exclusive upper bound it has not.
pub proof fn lemma_zone_intervals(t: ZoneThresholds, rms: int)
    requires
        t.wf(),
        0 <= rms,
    ensures
        t.zone_of(rms) == MachineHealth::ZoneA <==> rms < t.a_to_b,
        t.zone_of(rms) == MachineHealth::ZoneB <==> t.a_to_b <= rms < t.b_to_c,
        t.zone_of(rms) == MachineHealth::ZoneC <==> t.b_to_c <= rms < t.c_to_d,
        t.zone_of(rms) == MachineHealth::ZoneD <==> t.c_to_d <= rms,
{
}

} // verus!
