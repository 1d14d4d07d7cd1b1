//! The session with one sensor: which operations the operating state allows,
//! the request each operation sends, and how the state moves on.
//!
//! Bus traffic is left to the caller. For an operation it asks
//! [`Sen66::begin`] for the [`Request`], writes its frame to [`ADDRESS`],
//! waits its delay, reads `reply_len` bytes where that is not zero and hands
//! them to the reply's parser; after a successful write it calls
//! [`Sen66::complete`].
use crate::codec::{decode, decoded, encode_request, request_frame};
use crate::command::Command;
use crate::configuration::temperature::{TemperatureAcceleration, TemperatureOffset};
use crate::configuration::tuning::{tuning_words, NoxTuning, VocTuning};
use crate::configuration::{AmbientPressure, Co2Correction, SensorAltitude, TargetCO2Concentration};
use crate::data::state::{asc_word, voc_state_words, AscState, SensorState, VocAlgorithmState};
use crate::error::Sen66Error;
use vstd::prelude::*;

verus! {

/// The sensor's fixed 7-bit bus address.
pub const ADDRESS: u8 = 0x6B;

/// An operation on the sensor, with the values it sends.
pub enum Operation {
    /// Start continuous measurement (idle state only).
    StartMeasurement,
    /// Stop measurement (measuring state only).
    StopMeasurement,
    /// Ask whether a new measurement is ready (measuring state only).
    IsDataReady,
    /// Read a [`Measurement`](crate::data::Measurement) (measuring state only).
    ReadMeasuredValues,
    /// Read a [`RawMeasurement`](crate::data::RawMeasurement) (measuring state only).
    ReadMeasuredRawValues,
    /// Read the [`Concentrations`](crate::data::Concentrations) (measuring state only).
    ReadNumberConcentrations,
    /// Write temperature offset parameters.
    SetTemperatureOffset(TemperatureOffset),
    /// Write temperature acceleration parameters (idle state only).
    SetTemperatureAcceleration(TemperatureAcceleration),
    /// Read the product name.
    GetProductName,
    /// Read the serial number.
    GetSerialNumber,
    /// Read the device status register.
    ReadDeviceStatus,
    /// Read the device status register and clear it.
    ReadAndClearDeviceStatus,
    /// Reset the device (idle state only).
    ResetDevice,
    /// Run the fan cleaning (idle state only).
    StartFanCleaning,
    /// Switch on the RH/T sensor's heater (idle state only).
    ActivateShtHeater,
    /// Read the VOC tuning parameters (idle state only).
    GetVocTuningParameters,
    /// Write the VOC tuning parameters (idle state only).
    SetVocTuningParameters(VocTuning),
    /// Read the VOC algorithm state.
    GetVocAlgorithmState,
    /// Write the VOC algorithm state (idle state only).
    SetVocAlgorithmState(VocAlgorithmState),
    /// Read the NOx tuning parameters (idle state only).
    GetNoxTuningParameters,
    /// Write the NOx tuning parameters (idle state only).
    SetNoxTuningParameters(NoxTuning),
    /// Recalibrate the CO2 channel against a reference (idle state only).
    PerformForcedCo2Recalibration(TargetCO2Concentration),
    /// Read whether CO2 self-calibration is enabled (idle state only).
    GetCo2AscState,
    /// Enable or disable CO2 self-calibration (idle state only).
    SetCo2AscState(AscState),
    /// Read the ambient pressure.
    GetAmbientPressure,
    /// Write the ambient pressure.
    SetAmbientPressure(AmbientPressure),
    /// Read the sensor altitude (idle state only).
    GetSensorAltitude,
    /// Write the sensor altitude (idle state only).
    SetSensorAltitude(SensorAltitude),
}

impl Operation {
    /// The command the operation sends.
    pub open spec fn command(self) -> Command {
        match self {
            Operation::StartMeasurement => Command::StartContinuousMeasurement,
            Operation::StopMeasurement => Command::StopMeasurement,
            Operation::IsDataReady => Command::GetDataReady,
            Operation::ReadMeasuredValues => Command::ReadMeasurement,
            Operation::ReadMeasuredRawValues => Command::ReadRawMeasurement,
            Operation::ReadNumberConcentrations => Command::ReadNumberConcentrationValues,
            Operation::SetTemperatureOffset(_) => Command::SetTemperatureOffsetParameters,
            Operation::SetTemperatureAcceleration(_) => Command::SetTemperatureAccelerationParameters,
            Operation::GetProductName => Command::GetProductName,
            Operation::GetSerialNumber => Command::GetSerialNumber,
            Operation::ReadDeviceStatus => Command::GetDeviceStatus,
            Operation::ReadAndClearDeviceStatus => Command::ReadAndClearDeviceStatus,
            Operation::ResetDevice => Command::ResetDevice,
            Operation::StartFanCleaning => Command::StartFanCleaning,
            Operation::ActivateShtHeater => Command::ActivateShtHeater,
            Operation::GetVocTuningParameters => Command::SetReadVocTuningParameters,
            Operation::SetVocTuningParameters(_) => Command::SetReadVocTuningParameters,
            Operation::GetVocAlgorithmState => Command::SetReadVocAlgorithmState,
            Operation::SetVocAlgorithmState(_) => Command::SetReadVocAlgorithmState,
            Operation::GetNoxTuningParameters => Command::SetReadNoxTuningParameters,
            Operation::SetNoxTuningParameters(_) => Command::SetReadNoxTuningParameters,
            Operation::PerformForcedCo2Recalibration(_) => Command::ForcedRecalibration,
            Operation::GetCo2AscState => Command::SetReadCo2AutomaticSelfCalibration,
            Operation::SetCo2AscState(_) => Command::SetReadCo2AutomaticSelfCalibration,
            Operation::GetAmbientPressure => Command::SetReadAmbientPreassure,
            Operation::SetAmbientPressure(_) => Command::SetReadAmbientPreassure,
            Operation::GetSensorAltitude => Command::SetReadSensorAltitude,
            Operation::SetSensorAltitude(_) => Command::SetReadSensorAltitude,
        }
    }

    /// The state the operation needs; `None` where it runs in either.
    pub open spec fn required_state(self) -> Option<SensorState> {
        match self {
            Operation::StartMeasurement | Operation::SetTemperatureAcceleration(_)
            | Operation::ResetDevice | Operation::StartFanCleaning | Operation::ActivateShtHeater
            | Operation::GetVocTuningParameters | Operation::SetVocTuningParameters(_)
            | Operation::SetVocAlgorithmState(_) | Operation::GetNoxTuningParameters
            | Operation::SetNoxTuningParameters(_) | Operation::PerformForcedCo2Recalibration(_)
            | Operation::GetCo2AscState | Operation::SetCo2AscState(_)
            | Operation::GetSensorAltitude | Operation::SetSensorAltitude(
                _,
            ) => Some(SensorState::Idle),
            Operation::StopMeasurement | Operation::IsDataReady | Operation::ReadMeasuredValues
            | Operation::ReadMeasuredRawValues | Operation::ReadNumberConcentrations => Some(
                SensorState::Measuring,
            ),
            _ => None,
        }
    }

    /// The data words the operation sends after its opcode.
    pub open spec fn words(self) -> Seq<u16> {
        match self {
            Operation::SetTemperatureOffset(t) => seq![
                t.values().0 as u16,
                t.values().1 as u16,
                t.values().2,
                t.values().3,
            ],
            Operation::SetTemperatureAcceleration(a) => seq![
                a.values().0,
                a.values().1,
                a.values().2,
                a.values().3,
            ],
            Operation::SetVocTuningParameters(t) => tuning_words(t.values()),
            Operation::SetVocAlgorithmState(s) => voc_state_words(s)@,
            Operation::SetNoxTuningParameters(t) => tuning_words(t.values()),
            Operation::PerformForcedCo2Recalibration(c) => seq![c.ppm()],
            Operation::SetCo2AscState(s) => seq![asc_word(s)],
            Operation::SetAmbientPressure(p) => seq![p.hpa()],
            Operation::SetSensorAltitude(a) => seq![a.meters()],
            _ => seq![],
        }
    }

    /// The length in bytes of the reply the operation reads; 0 where it reads
    /// none.
    pub open spec fn reply_len(self) -> nat {
        match self {
            Operation::IsDataReady => 3,
            Operation::ReadMeasuredValues => 27,
            Operation::ReadMeasuredRawValues => 15,
            Operation::ReadNumberConcentrations => 15,
            Operation::GetProductName => 48,
            Operation::GetSerialNumber => 48,
            Operation::ReadDeviceStatus => 6,
            Operation::ReadAndClearDeviceStatus => 6,
            Operation::GetVocTuningParameters => 18,
            Operation::GetVocAlgorithmState => 12,
            Operation::GetNoxTuningParameters => 18,
            Operation::PerformForcedCo2Recalibration(_) => 3,
            Operation::GetCo2AscState => 3,
            Operation::GetAmbientPressure => 3,
            Operation::GetSensorAltitude => 3,
            _ => 0,
        }
    }
}

/// Whether an operation that needs `required` may run in state `state`.
pub open spec fn permitted(state: SensorState, required: Option<SensorState>) -> bool {
    match required {
        Some(s) => s == state,
        None => true,
    }
}

/// The name of a state, as a wrong-state error gives it.
pub open spec fn state_name(state: SensorState) -> &'static str {
    match state {
        SensorState::Idle => "Idle",
        SensorState::Measuring => "Measuring",
    }
}

/// The state after `command` was written successfully in state `state`.
pub open spec fn next_state(state: SensorState, command: Command) -> SensorState {
    match command {
        Command::StartContinuousMeasurement => SensorState::Measuring,
        Command::StopMeasurement => SensorState::Idle,
        _ => state,
    }
}

/// What the caller sends for one operation, and what it reads back. Only
/// [`Sen66::begin`] builds one, so a request has always passed the state check.
pub struct Request {
    command: Command,
    frame: Vec<u8>,
    delay_ms: u32,
    reply_len: usize,
}

impl Request {
    /// The command sent.
    pub closed spec fn sent_command(&self) -> Command {
        self.command
    }

    /// The bytes to write: opcode, then the data words with their checksums.
    pub closed spec fn bytes(&self) -> Seq<u8> {
        self.frame@
    }

    /// Milliseconds to wait after the write: the command's execution time.
    pub closed spec fn wait_ms(&self) -> u32 {
        self.delay_ms
    }

    /// The number of bytes to read after the wait; 0 where nothing is read.
    pub closed spec fn read_len(&self) -> usize {
        self.reply_len
    }

    /// The command sent.
    pub fn command(&self) -> (r: Command)
        ensures
            r == self.sent_command(),
    {
        self.command
    }

    /// The bytes to write: opcode, then the data words with their checksums.
    pub fn frame(&self) -> (r: &[u8])
        ensures
            r@ == self.bytes(),
    {
        self.frame.as_slice()
    }

    /// Milliseconds to wait after the write: the command's execution time.
    pub fn delay_ms(&self) -> (r: u32)
        ensures
            r == self.wait_ms(),
    {
        self.delay_ms
    }

    /// The number of bytes to read after the wait; 0 where nothing is read.
    pub fn reply_len(&self) -> (r: usize)
        ensures
            r == self.read_len(),
    {
        self.reply_len
    }
}

/// The session with one SEN66: the bus, the delay provider and the operating
/// state, which starts out idle.
pub struct Sen66<DELAY, I2C> {
    delay: DELAY,
    i2c: I2C,
    state: SensorState,
}

impl<DELAY, I2C> Sen66<DELAY, I2C> {
    /// The operating state the session is in.
    pub closed spec fn session_state(self) -> SensorState {
        self.state
    }

    /// The delay provider and the bus the session holds.
    pub closed spec fn parts(self) -> (DELAY, I2C) {
        (self.delay, self.i2c)
    }

    /// Opens a session over `i2c`, waiting with `delay`; the sensor is taken
    /// to be idle.
    pub fn new(delay: DELAY, i2c: I2C) -> (r: Self)
        ensures
            r.session_state() == SensorState::Idle,
            r.parts() == (delay, i2c),
    {
        Sen66 { delay, i2c, state: SensorState::Idle }
    }

    /// The operating state the session is in.
    pub fn state(&self) -> (r: SensorState)
        ensures
            r == self.session_state(),
    {
        self.state
    }

    /// Checks that `op` may run in the current state and builds its request.
    /// Where the state does not allow it, fails with the name of the state the
    /// sensor has to be brought to; nothing is then to be sent.
    pub fn begin<E>(&self, op: Operation) -> (r: Result<Request, Sen66Error<E>>)
        ensures
            r is Ok <==> permitted(self.session_state(), op.required_state()),
            !permitted(self.session_state(), op.required_state()) ==> r == Err::<
                Request,
                Sen66Error<E>,
            >(Sen66Error::WrongState(state_name(op.required_state()->Some_0))),
            r matches Ok(req) ==> {
                &&& req.sent_command() == op.command()
                &&& req.bytes() == request_frame(op.command().opcode(), op.words())
                &&& req.wait_ms() == op.command().execution_time()
                &&& req.read_len() == op.reply_len()
            },
    {
        let required = required_state(&op);
        match required {
            Some(s) => {
                if s != self.state {
                    return Err(
                        Sen66Error::WrongState(
                            match s {
                                SensorState::Idle => "Idle",
                                SensorState::Measuring => "Measuring",
                            },
                        ),
                    );
                }
            },
            None => {},
        }
        Ok(build_request(op))
    }

    /// Records that the write of `request` succeeded: starting measurement
    /// moves the session to measuring, stopping it moves it back to idle.
    pub fn complete(&mut self, request: &Request)
        ensures
            final(self).session_state() == next_state(
                old(self).session_state(),
                request.sent_command(),
            ),
            final(self).parts() == old(self).parts(),
    {
        match request.command {
            Command::StartContinuousMeasurement => self.state = SensorState::Measuring,
            Command::StopMeasurement => self.state = SensorState::Idle,
            _ => {},
        }
    }

    /// The operation to run before the session is shut down: stopping
    /// measurement where the sensor measures, none where it is idle.
    pub fn shutdown_operation(&self) -> (r: Option<Operation>)
        ensures
            self.session_state() == SensorState::Measuring ==> r matches Some(
                Operation::StopMeasurement,
            ),
            self.session_state() == SensorState::Idle ==> r is None,
    {
        match self.state {
            SensorState::Measuring => Some(Operation::StopMeasurement),
            SensorState::Idle => None,
        }
    }

    /// The delay provider and the bus, to carry out a request.
    pub fn transport(&mut self) -> (r: (&mut DELAY, &mut I2C))
        ensures
            *r.0 == old(self).parts().0,
            *r.1 == old(self).parts().1,
            final(self).parts() == (*final(r.0), *final(r.1)),
            final(self).session_state() == old(self).session_state(),
    {
        (&mut self.delay, &mut self.i2c)
    }

    /// Ends the session at once, whatever the state, and hands back the delay
    /// provider and the bus.
    pub fn kill(self) -> (r: (DELAY, I2C))
        ensures
            r == self.parts(),
    {
        (self.delay, self.i2c)
    }
}

fn required_state(op: &Operation) -> (r: Option<SensorState>)
    ensures
        r == op.required_state(),
{
    match op {
        Operation::StartMeasurement | Operation::SetTemperatureAcceleration(_)
        | Operation::ResetDevice | Operation::StartFanCleaning | Operation::ActivateShtHeater
        | Operation::GetVocTuningParameters | Operation::SetVocTuningParameters(_)
        | Operation::SetVocAlgorithmState(_) | Operation::GetNoxTuningParameters
        | Operation::SetNoxTuningParameters(_) | Operation::PerformForcedCo2Recalibration(_)
        | Operation::GetCo2AscState | Operation::SetCo2AscState(_) | Operation::GetSensorAltitude
        | Operation::SetSensorAltitude(_) => Some(SensorState::Idle),
        Operation::StopMeasurement | Operation::IsDataReady | Operation::ReadMeasuredValues
        | Operation::ReadMeasuredRawValues | Operation::ReadNumberConcentrations => Some(
            SensorState::Measuring,
        ),
        _ => None,
    }
}

fn request(command: Command, words: &[u16], reply_len: usize) -> (r: Request)
    ensures
        r.sent_command() == command,
        r.bytes() == request_frame(command.opcode(), words@),
        r.wait_ms() == command.execution_time(),
        r.read_len() == reply_len,
{
    Request {
        command,
        frame: encode_request(command, words),
        delay_ms: command.execution_time_ms(),
        reply_len,
    }
}

fn build_request(op: Operation) -> (r: Request)
    ensures
        r.sent_command() == op.command(),
        r.bytes() == request_frame(op.command().opcode(), op.words()),
        r.wait_ms() == op.command().execution_time(),
        r.read_len() == op.reply_len(),
{
    let none: [u16; 0] = [];
    proof {
        assert(none@ =~= Seq::<u16>::empty());
    }
    match op {
        Operation::StartMeasurement => request(
            Command::StartContinuousMeasurement,
            none.as_slice(),
            0,
        ),
        Operation::StopMeasurement => request(Command::StopMeasurement, none.as_slice(), 0),
        Operation::IsDataReady => request(Command::GetDataReady, none.as_slice(), 3),
        Operation::ReadMeasuredValues => request(Command::ReadMeasurement, none.as_slice(), 27),
        Operation::ReadMeasuredRawValues => request(
            Command::ReadRawMeasurement,
            none.as_slice(),
            15,
        ),
        Operation::ReadNumberConcentrations => request(
            Command::ReadNumberConcentrationValues,
            none.as_slice(),
            15,
        ),
        Operation::SetTemperatureOffset(t) => {
            let w: [u16; 4] = <[u16; 4]>::from(t);
            request(Command::SetTemperatureOffsetParameters, w.as_slice(), 0)
        },
        Operation::SetTemperatureAcceleration(a) => {
            let w: [u16; 4] = <[u16; 4]>::from(a);
            request(Command::SetTemperatureAccelerationParameters, w.as_slice(), 0)
        },
        Operation::GetProductName => request(Command::GetProductName, none.as_slice(), 48),
        Operation::GetSerialNumber => request(Command::GetSerialNumber, none.as_slice(), 48),
        Operation::ReadDeviceStatus => request(Command::GetDeviceStatus, none.as_slice(), 6),
        Operation::ReadAndClearDeviceStatus => request(
            Command::ReadAndClearDeviceStatus,
            none.as_slice(),
            6,
        ),
        Operation::ResetDevice => request(Command::ResetDevice, none.as_slice(), 0),
        Operation::StartFanCleaning => request(Command::StartFanCleaning, none.as_slice(), 0),
        Operation::ActivateShtHeater => request(Command::ActivateShtHeater, none.as_slice(), 0),
        Operation::GetVocTuningParameters => request(
            Command::SetReadVocTuningParameters,
            none.as_slice(),
            18,
        ),
        Operation::SetVocTuningParameters(t) => {
            let w: [u16; 6] = <[u16; 6]>::from(t);
            request(Command::SetReadVocTuningParameters, w.as_slice(), 0)
        },
        Operation::GetVocAlgorithmState => request(
            Command::SetReadVocAlgorithmState,
            none.as_slice(),
            12,
        ),
        Operation::SetVocAlgorithmState(s) => {
            let w: [u16; 4] = <[u16; 4]>::from(s);
            request(Command::SetReadVocAlgorithmState, w.as_slice(), 0)
        },
        Operation::GetNoxTuningParameters => request(
            Command::SetReadNoxTuningParameters,
            none.as_slice(),
            18,
        ),
        Operation::SetNoxTuningParameters(t) => {
            let w: [u16; 6] = <[u16; 6]>::from(t);
            request(Command::SetReadNoxTuningParameters, w.as_slice(), 0)
        },
        Operation::PerformForcedCo2Recalibration(c) => {
            let w: [u16; 1] = [u16::from(c)];
            proof {
                assert(w@ =~= seq![c.ppm()]);
            }
            request(Command::ForcedRecalibration, w.as_slice(), 3)
        },
        Operation::GetCo2AscState => request(
            Command::SetReadCo2AutomaticSelfCalibration,
            none.as_slice(),
            3,
        ),
        Operation::SetCo2AscState(s) => {
            let w: [u16; 1] = [u16::from(s)];
            proof {
                assert(w@ =~= seq![asc_word(s)]);
            }
            request(Command::SetReadCo2AutomaticSelfCalibration, w.as_slice(), 0)
        },
        Operation::GetAmbientPressure => request(
            Command::SetReadAmbientPreassure,
            none.as_slice(),
            3,
        ),
        Operation::SetAmbientPressure(p) => {
            let w: [u16; 1] = [u16::from(p)];
            proof {
                assert(w@ =~= seq![p.hpa()]);
            }
            request(Command::SetReadAmbientPreassure, w.as_slice(), 0)
        },
        Operation::GetSensorAltitude => request(
            Command::SetReadSensorAltitude,
            none.as_slice(),
            3,
        ),
        Operation::SetSensorAltitude(a) => {
            let w: [u16; 1] = [u16::from(a)];
            proof {
                assert(w@ =~= seq![a.meters()]);
            }
            request(Command::SetReadSensorAltitude, w.as_slice(), 0)
        },
    }
}

/// The outcome of a forced recalibration, from the reply the sensor sent: the
/// correction, a failed recalibration where the reply word is 0xFFFF, or the
/// reason the reply is rejected.
pub fn forced_recalibration_result<E>(reply: &[u8]) -> (r: Result<Co2Correction, Sen66Error<E>>)
    ensures
        decoded(reply@, 3) matches Err(e) ==> r == Err::<Co2Correction, Sen66Error<E>>(
            Sen66Error::DataError(e),
        ),
        decoded(reply@, 3) matches Ok(w) ==> (w[0] == 0xFFFF ==> r == Err::<
            Co2Correction,
            Sen66Error<E>,
        >(Sen66Error::FailedCo2Recalibration)),
        decoded(reply@, 3) matches Ok(w) ==> (w[0] != 0xFFFF ==> (r matches Ok(c) && c.raw()
            == w[0])),
{
    match Co2Correction::try_from(reply) {
        Ok(c) => {
            if c.is_valid() {
                Ok(c)
            } else {
                Err(Sen66Error::FailedCo2Recalibration)
            }
        },
        Err(e) => Err(Sen66Error::DataError(e)),
    }
}

} // verus!
