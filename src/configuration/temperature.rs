//! Temperature compensation parameters.
use crate::error::DataError;
use crate::util::{
    check_range, check_scaling, check_scaling_unsigned, cites_violation, range_check,
    scaling_check, unsigned_scaling_check,
};
use vstd::prelude::*;

verus! {

/// The scaled values `(offset, slope, time_constant, slot)` of a
/// [`TemperatureOffset`] built from the given arguments, or the first bound
/// they violate.
pub open spec fn temperature_offset_check(offset: i16, slope: i16, time_constant: u16, slot: u16) -> Result<
    (i16, i16, u16, u16),
    DataError,
> {
    match scaling_check(offset, 200, "Temperature Offset", "°C") {
        Err(e) => Err(e),
        Ok(o) => match scaling_check(slope, 10000, "Temperature Slope", "") {
            Err(e) => Err(e),
            Ok(s) => match range_check(slot as int, 0, 4, "Temperature Offset Slot", "") {
                Err(e) => Err(e),
                Ok(()) => Ok((o, s, time_constant, slot)),
            },
        },
    }
}

/// Parameters that compensate the temperature effects of the sensor's
/// design-in: `T_compensated = T + slope * T + offset`. The sensor keeps up to
/// five such sets, in slots 0 to 4.
pub struct TemperatureOffset {
    offset: i16,
    slope: i16,
    time_constant: u16,
    slot: u16,
}

impl TemperatureOffset {
    #[verifier::type_invariant]
    spec fn slot_in_bounds(self) -> bool {
        self.slot <= 4
    }

    /// The scaled values `(offset, slope, time_constant, slot)`.
    pub closed spec fn values(self) -> (i16, i16, u16, u16) {
        (self.offset, self.slope, self.time_constant, self.slot)
    }

    /// Builds a temperature offset configuration:
    /// - `offset`: constant offset in °C, sent scaled by 200;
    /// - `slope`: normalized slope, sent scaled by 10,000;
    /// - `time_constant`: how fast the new slope and offset take effect;
    /// - `slot`: the slot to write, 0 to 4.
    pub fn new(offset: i16, slope: i16, time_constant: u16, slot: u16) -> (r: Result<
        TemperatureOffset,
        DataError,
    >)
        ensures
            match r {
                Ok(t) => temperature_offset_check(offset, slope, time_constant, slot) == Ok::<
                    (i16, i16, u16, u16),
                    DataError,
                >(t.values()),
                Err(e) => temperature_offset_check(offset, slope, time_constant, slot) == Err::<
                    (i16, i16, u16, u16),
                    DataError,
                >(e),
            },
            r is Ok <==> (-163 <= offset <= 163 && -3 <= slope <= 3 && slot <= 4),
            r matches Err(e) ==> cites_violation(e, offset as int) || cites_violation(e, slope as int)
                || cites_violation(e, slot as int),
    {
        assert(i16::MIN <= offset * 200 <= i16::MAX <==> -163 <= offset <= 163) by (nonlinear_arith);
        assert(i16::MIN <= slope * 10000 <= i16::MAX <==> -3 <= slope <= 3) by (nonlinear_arith);
        let offset = match check_scaling(offset, 200, "Temperature Offset", "°C") {
            Ok(v) => v,
            Err(e) => return Err(e),
        };
        let slope = match check_scaling(slope, 10000, "Temperature Slope", "") {
            Ok(v) => v,
            Err(e) => return Err(e),
        };
        match check_range(slot as i32, 0, 4, "Temperature Offset Slot", "") {
            Ok(()) => Ok(TemperatureOffset { offset, slope, time_constant, slot }),
            Err(e) => Err(e),
        }
    }
}

impl From<TemperatureOffset> for [u16; 4] {
    /// The words sent to the sensor: offset, slope, time constant and slot.
    fn from(value: TemperatureOffset) -> (r: [u16; 4])
        ensures
            r@ == seq![
                value.values().0 as u16,
                value.values().1 as u16,
                value.values().2,
                value.values().3,
            ],
    {
        let r: [u16; 4] = [value.offset as u16, value.slope as u16, value.time_constant, value.slot];
        proof {
            assert(r@ =~= seq![
                value.values().0 as u16,
                value.values().1 as u16,
                value.values().2,
                value.values().3,
            ]);
        }
        r
    }
}

impl vstd::std_specs::convert::FromSpecImpl<TemperatureOffset> for [u16; 4] {
    open spec fn obeys_from_spec() -> bool {
        true
    }

    closed spec fn from_spec(value: TemperatureOffset) -> [u16; 4] {
        [value.offset as u16, value.slope as u16, value.time_constant, value.slot]
    }
}

/// The scaled values `(k, p, t1, t2)` of a [`TemperatureAcceleration`] built
/// from the given arguments, or the first bound they violate.
pub open spec fn temperature_acceleration_check(k: u16, p: u16, t1: u16, t2: u16) -> Result<
    (u16, u16, u16, u16),
    DataError,
> {
    match unsigned_scaling_check(k, 10, "Temperature Acceleration K", "") {
        Err(e) => Err(e),
        Ok(k) => match unsigned_scaling_check(p, 10, "Temperature Acceleration P", "") {
            Err(e) => Err(e),
            Ok(p) => match unsigned_scaling_check(t1, 10, "Temperature Acceleration T1", "") {
                Err(e) => Err(e),
                Ok(t1) => match unsigned_scaling_check(t2, 10, "Temperature Acceleration T2", "") {
                    Err(e) => Err(e),
                    Ok(t2) => Ok((k, p, t1, t2)),
                },
            },
        },
    }
}

/// Temperature acceleration parameters of the RH/T engine.
pub struct TemperatureAcceleration {
    k: u16,
    p: u16,
    t1: u16,
    t2: u16,
}

impl TemperatureAcceleration {
    /// The scaled values `(k, p, t1, t2)`.
    pub closed spec fn values(self) -> (u16, u16, u16, u16) {
        (self.k, self.p, self.t1, self.t2)
    }

    /// Builds a temperature acceleration configuration; every parameter is
    /// sent scaled by 10.
    pub fn new(k: u16, p: u16, t1: u16, t2: u16) -> (r: Result<TemperatureAcceleration, DataError>)
        ensures
            match r {
                Ok(a) => temperature_acceleration_check(k, p, t1, t2) == Ok::<
                    (u16, u16, u16, u16),
                    DataError,
                >(a.values()),
                Err(e) => temperature_acceleration_check(k, p, t1, t2) == Err::<
                    (u16, u16, u16, u16),
                    DataError,
                >(e),
            },
            r is Ok <==> (k <= 6553 && p <= 6553 && t1 <= 6553 && t2 <= 6553),
            r matches Err(e) ==> cites_violation(e, k as int) || cites_violation(e, p as int)
                || cites_violation(e, t1 as int) || cites_violation(e, t2 as int),
    {
        let k = match check_scaling_unsigned(k, 10, "Temperature Acceleration K", "") {
            Ok(v) => v,
            Err(e) => return Err(e),
        };
        let p = match check_scaling_unsigned(p, 10, "Temperature Acceleration P", "") {
            Ok(v) => v,
            Err(e) => return Err(e),
        };
        let t1 = match check_scaling_unsigned(t1, 10, "Temperature Acceleration T1", "") {
            Ok(v) => v,
            Err(e) => return Err(e),
        };
        let t2 = match check_scaling_unsigned(t2, 10, "Temperature Acceleration T2", "") {
            Ok(v) => v,
            Err(e) => return Err(e),
        };
        Ok(TemperatureAcceleration { k, p, t1, t2 })
    }
}

impl From<TemperatureAcceleration> for [u16; 4] {
    /// The words sent to the sensor: k, p, t1 and t2.
    fn from(value: TemperatureAcceleration) -> (r: [u16; 4])
        ensures
            r@ == seq![value.values().0, value.values().1, value.values().2, value.values().3],
    {
        let r: [u16; 4] = [value.k, value.p, value.t1, value.t2];
        proof {
            assert(r@ =~= seq![
                value.values().0,
                value.values().1,
                value.values().2,
                value.values().3,
            ]);
        }
        r
    }
}

impl vstd::std_specs::convert::FromSpecImpl<TemperatureAcceleration> for [u16; 4] {
    open spec fn obeys_from_spec() -> bool {
        true
    }

    closed spec fn from_spec(value: TemperatureAcceleration) -> [u16; 4] {
        [value.k, value.p, value.t1, value.t2]
    }
}

} // verus!
