//! Values that configure the sensor's operation.
use crate::codec::{decode, decoded, frame};
use crate::error::DataError;
use crate::util::{check_range, cites_violation, range_check};
use vstd::prelude::*;

pub mod temperature;
pub mod tuning;

pub use temperature::{TemperatureAcceleration, TemperatureOffset};
pub use tuning::{NoxTuning, VocTuning};

verus! {

/// The reference CO2 concentration, in ppm, for a forced recalibration.
pub struct TargetCO2Concentration(u16);

impl TargetCO2Concentration {
    /// The concentration in ppm.
    pub closed spec fn ppm(self) -> u16 {
        self.0
    }
}

impl From<u16> for TargetCO2Concentration {
    fn from(value: u16) -> (r: TargetCO2Concentration)
        ensures
            r.ppm() == value,
    {
        TargetCO2Concentration(value)
    }
}

impl vstd::std_specs::convert::FromSpecImpl<u16> for TargetCO2Concentration {
    open spec fn obeys_from_spec() -> bool {
        true
    }

    closed spec fn from_spec(value: u16) -> TargetCO2Concentration {
        TargetCO2Concentration(value)
    }
}

impl From<TargetCO2Concentration> for u16 {
    fn from(value: TargetCO2Concentration) -> (r: u16)
        ensures
            r == value.ppm(),
    {
        value.0
    }
}

impl vstd::std_specs::convert::FromSpecImpl<TargetCO2Concentration> for u16 {
    open spec fn obeys_from_spec() -> bool {
        true
    }

    open spec fn from_spec(value: TargetCO2Concentration) -> u16 {
        value.ppm()
    }
}

/// The correction that a reply word to a forced recalibration stands for: the
/// word minus 0x8000 (modulo 2^16), or 0xFFFF where the word is 0xFFFF, which
/// marks a failed recalibration. A successful correction of -1 (reply word
/// 0x7FFF) also gives 0xFFFF, so failure is told by
/// [`Co2Correction::is_valid`], never by this value.
pub open spec fn correction_of(raw: u16) -> u16 {
    if raw == 0xFFFF {
        0xFFFF
    } else if raw >= 0x8000 {
        (raw - 0x8000) as u16
    } else {
        (raw + 0x8000) as u16
    }
}

/// The CO2 correction determined by a forced recalibration (FRC).
pub struct Co2Correction(u16);

impl Co2Correction {
    /// The word the sensor replied with; 0xFFFF if the recalibration failed.
    pub closed spec fn raw(self) -> u16 {
        self.0
    }

    /// Whether the recalibration succeeded.
    pub fn is_valid(&self) -> (r: bool)
        ensures
            r == (self.raw() != 0xFFFF),
    {
        self.0 != 0xFFFF
    }
}

impl TryFrom<&[u8]> for Co2Correction {
    type Error = DataError;

    /// Reads the correction from a reply of one word.
    fn try_from(data: &[u8]) -> (r: Result<Co2Correction, DataError>)
        ensures
            match r {
                Ok(c) => decoded(data@, 3) == Ok::<Seq<u16>, DataError>(seq![c.raw()]),
                Err(e) => decoded(data@, 3) == Err::<Seq<u16>, DataError>(e),
            },
    {
        match decode(data, 3) {
            Ok(words) => {
                proof {
                    assert(words@ =~= seq![words@[0]]);
                }
                Ok(Co2Correction(words[0]))
            },
            Err(e) => Err(e),
        }
    }
}

impl vstd::std_specs::convert::TryFromSpecImpl<&[u8]> for Co2Correction {
    open spec fn obeys_try_from_spec() -> bool {
        true
    }

    closed spec fn try_from_spec(data: &[u8]) -> Result<Co2Correction, DataError> {
        match decoded(data@, 3) {
            Ok(words) => Ok(Co2Correction(words[0])),
            Err(e) => Err(e),
        }
    }
}

impl From<Co2Correction> for u16 {
    /// The correction value (see [`correction_of`]). It cannot tell a failed
    /// recalibration from a correction of -1: test [`Co2Correction::is_valid`]
    /// for failure.
    fn from(value: Co2Correction) -> (r: u16)
        ensures
            r == correction_of(value.raw()),
    {
        let raw = value.0;
        if raw == 0xFFFF {
            0xFFFF
        } else if raw >= 0x8000 {
            raw - 0x8000
        } else {
            raw + 0x8000
        }
    }
}

impl vstd::std_specs::convert::FromSpecImpl<Co2Correction> for u16 {
    open spec fn obeys_from_spec() -> bool {
        true
    }

    open spec fn from_spec(value: Co2Correction) -> u16 {
        correction_of(value.raw())
    }
}

/// The ambient pressure for CO2 compensation, in hPa: 700 to 1,200, 1,013 by
/// default.
#[derive(Debug, PartialEq)]
pub struct AmbientPressure(u16);

/// The result of building an [`AmbientPressure`] of `hpa`: the pressure, or the
/// bounds it violates.
pub open spec fn pressure_check(hpa: u16) -> Result<u16, DataError> {
    match range_check(hpa as int, 700, 1200, "Ambient Pressure", "hPa") {
        Ok(()) => Ok(hpa),
        Err(e) => Err(e),
    }
}

/// The ambient pressure carried by a reply, or why the reply is rejected.
pub open spec fn parse_pressure(data: Seq<u8>) -> Result<u16, DataError> {
    match decoded(data, 3) {
        Ok(words) => pressure_check(words[0]),
        Err(e) => Err(e),
    }
}

impl AmbientPressure {
    #[verifier::type_invariant]
    spec fn in_bounds(self) -> bool {
        700 <= self.0 <= 1200
    }

    /// The pressure in hPa.
    pub closed spec fn hpa(self) -> u16 {
        self.0
    }
}

impl TryFrom<u16> for AmbientPressure {
    type Error = DataError;

    /// Builds an ambient pressure of `value` hPa, which must lie between 700
    /// and 1,200.
    fn try_from(value: u16) -> (r: Result<AmbientPressure, DataError>)
        ensures
            match r {
                Ok(p) => pressure_check(value) == Ok::<u16, DataError>(p.hpa()),
                Err(e) => pressure_check(value) == Err::<u16, DataError>(e),
            },
    {
        match check_range(value as i32, 700, 1200, "Ambient Pressure", "hPa") {
            Ok(()) => Ok(AmbientPressure(value)),
            Err(e) => Err(e),
        }
    }
}

impl vstd::std_specs::convert::TryFromSpecImpl<u16> for AmbientPressure {
    open spec fn obeys_try_from_spec() -> bool {
        true
    }

    closed spec fn try_from_spec(value: u16) -> Result<AmbientPressure, DataError> {
        match pressure_check(value) {
            Ok(hpa) => Ok(AmbientPressure(hpa)),
            Err(e) => Err(e),
        }
    }
}

impl TryFrom<&[u8]> for AmbientPressure {
    type Error = DataError;

    /// Reads the ambient pressure from a reply of one word; a value outside
    /// the bounds is rejected.
    fn try_from(data: &[u8]) -> (r: Result<AmbientPressure, DataError>)
        ensures
            match r {
                Ok(p) => parse_pressure(data@) == Ok::<u16, DataError>(p.hpa()),
                Err(e) => parse_pressure(data@) == Err::<u16, DataError>(e),
            },
    {
        match decode(data, 3) {
            Ok(words) => AmbientPressure::try_from(words[0]),
            Err(e) => Err(e),
        }
    }
}

impl vstd::std_specs::convert::TryFromSpecImpl<&[u8]> for AmbientPressure {
    open spec fn obeys_try_from_spec() -> bool {
        true
    }

    closed spec fn try_from_spec(data: &[u8]) -> Result<AmbientPressure, DataError> {
        match parse_pressure(data@) {
            Ok(hpa) => Ok(AmbientPressure(hpa)),
            Err(e) => Err(e),
        }
    }
}

impl From<AmbientPressure> for u16 {
    fn from(value: AmbientPressure) -> (r: u16)
        ensures
            r == value.hpa(),
            700 <= r <= 1200,
    {
        proof {
            use_type_invariant(&value);
        }
        value.0
    }
}

impl vstd::std_specs::convert::FromSpecImpl<AmbientPressure> for u16 {
    open spec fn obeys_from_spec() -> bool {
        true
    }

    open spec fn from_spec(value: AmbientPressure) -> u16 {
        value.hpa()
    }
}

impl Default for AmbientPressure {
    /// 1,013 hPa.
    fn default() -> (r: AmbientPressure)
        ensures
            r.hpa() == 1013,
    {
        AmbientPressure(1013)
    }
}

/// The sensor's altitude above sea level for CO2 compensation, in m: 0 to
/// 3,000, 0 by default.
#[derive(Debug, PartialEq)]
pub struct SensorAltitude(u16);

/// The result of building a [`SensorAltitude`] of `meters`: the altitude, or
/// the bounds it violates.
pub open spec fn altitude_check(meters: u16) -> Result<u16, DataError> {
    match range_check(meters as int, 0, 3000, "Sensor Altitude", "m") {
        Ok(()) => Ok(meters),
        Err(e) => Err(e),
    }
}

/// The sensor altitude carried by a reply, or why the reply is rejected.
pub open spec fn parse_altitude(data: Seq<u8>) -> Result<u16, DataError> {
    match decoded(data, 3) {
        Ok(words) => altitude_check(words[0]),
        Err(e) => Err(e),
    }
}

impl SensorAltitude {
    #[verifier::type_invariant]
    spec fn in_bounds(self) -> bool {
        self.0 <= 3000
    }

    /// The altitude in m.
    pub closed spec fn meters(self) -> u16 {
        self.0
    }
}

impl TryFrom<u16> for SensorAltitude {
    type Error = DataError;

    /// Builds a sensor altitude of `value` m, which must lie between 0 and
    /// 3,000.
    fn try_from(value: u16) -> (r: Result<SensorAltitude, DataError>)
        ensures
            match r {
                Ok(a) => altitude_check(value) == Ok::<u16, DataError>(a.meters()),
                Err(e) => altitude_check(value) == Err::<u16, DataError>(e),
            },
    {
        match check_range(value as i32, 0, 3000, "Sensor Altitude", "m") {
            Ok(()) => Ok(SensorAltitude(value)),
            Err(e) => Err(e),
        }
    }
}

impl vstd::std_specs::convert::TryFromSpecImpl<u16> for SensorAltitude {
    open spec fn obeys_try_from_spec() -> bool {
        true
    }

    closed spec fn try_from_spec(value: u16) -> Result<SensorAltitude, DataError> {
        match altitude_check(value) {
            Ok(m) => Ok(SensorAltitude(m)),
            Err(e) => Err(e),
        }
    }
}

impl TryFrom<&[u8]> for SensorAltitude {
    type Error = DataError;

    /// Reads the sensor altitude from a reply of one word; a value outside the
    /// bounds is rejected.
    fn try_from(data: &[u8]) -> (r: Result<SensorAltitude, DataError>)
        ensures
            match r {
                Ok(a) => parse_altitude(data@) == Ok::<u16, DataError>(a.meters()),
                Err(e) => parse_altitude(data@) == Err::<u16, DataError>(e),
            },
    {
        match decode(data, 3) {
            Ok(words) => SensorAltitude::try_from(words[0]),
            Err(e) => Err(e),
        }
    }
}

impl vstd::std_specs::convert::TryFromSpecImpl<&[u8]> for SensorAltitude {
    open spec fn obeys_try_from_spec() -> bool {
        true
    }

    closed spec fn try_from_spec(data: &[u8]) -> Result<SensorAltitude, DataError> {
        match parse_altitude(data@) {
            Ok(m) => Ok(SensorAltitude(m)),
            Err(e) => Err(e),
        }
    }
}

impl From<SensorAltitude> for u16 {
    fn from(value: SensorAltitude) -> (r: u16)
        ensures
            r == value.meters(),
            r <= 3000,
    {
        proof {
            use_type_invariant(&value);
        }
        value.0
    }
}

impl vstd::std_specs::convert::FromSpecImpl<SensorAltitude> for u16 {
    open spec fn obeys_from_spec() -> bool {
        true
    }

    open spec fn from_spec(value: SensorAltitude) -> u16 {
        value.meters()
    }
}

impl Default for SensorAltitude {
    /// 0 m.
    fn default() -> (r: SensorAltitude)
        ensures
            r.meters() == 0,
    {
        SensorAltitude(0)
    }
}

/// An ambient pressure is accepted exactly within 700 to 1,200 hPa, and is
/// then read back unchanged from a reply that carries it; outside, the error
/// gives bounds that the value violates.
pub proof fn lemma_pressure_round_trip(hpa: u16)
    ensures
        pressure_check(hpa) is Ok <==> 700 <= hpa <= 1200,
        pressure_check(hpa) is Ok ==> parse_pressure(frame(seq![hpa])) == Ok::<u16, DataError>(hpa),
        pressure_check(hpa) is Err ==> cites_violation(pressure_check(hpa)->Err_0, hpa as int),
{
    crate::codec::lemma_decode_encode(0, seq![hpa]);
}

/// A sensor altitude is accepted exactly within 0 to 3,000 m, and is then read
/// back unchanged from a reply that carries it; outside, the error gives
/// bounds that the value violates.
pub proof fn lemma_altitude_round_trip(meters: u16)
    ensures
        altitude_check(meters) is Ok <==> meters <= 3000,
        altitude_check(meters) is Ok ==> parse_altitude(frame(seq![meters])) == Ok::<u16, DataError>(
            meters,
        ),
        altitude_check(meters) is Err ==> cites_violation(altitude_check(meters)->Err_0, meters as int),
{
    crate::codec::lemma_decode_encode(0, seq![meters]);
}

} // verus!
