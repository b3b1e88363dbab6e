use vstd::prelude::*;
use crate::calibration::{Coefficients, decodes_to, decoded, decode_coefficients};
use crate::compensation::{
    Ratio, Temperature, raw_reading_of, celsius_of, fahrenheit_of, raw_temperature,
    compensate_temperature,
};
use crate::oversampling::{
    Channel, OversampleRate, scale_factor_of, is_supported, config_register_of, control_byte_of,
    scale_factor, config_register, control_byte,
};
use crate::poller::{PollStep, poll_step_of, check_temperature_status};
use crate::registers::{
    PROD_ID_REG_ADDR, COEFFS_ADDR, COEFFS_LEN, PRESSURE_CONFIG_ADDR, TEMP_CONFIG_ADDR,
    MEAS_CFG_ADDR, CFG_REG_ADDR, TEMP_ADDR, TEMP_LEN, RESET_ADDR, SOFT_RESET, PRODUCT_ID,
    MEASURE_TEMPERATURE, GENERAL_CONFIG, POLL_BACKOFF_MS,
};

verus! {

/// Why an operation of the driver did not complete.
#[derive(Clone, Copy, Debug, PartialEq, Eq, Structural)]
pub enum SensorError {
    /// The bus transaction failed.
    Bus,
    /// The product id register did not hold the id of this sensor.
    ProductIdMismatch,
    /// The conversion did not become ready within the attempt cap.
    MeasurementTimeout,
    /// No configuration byte is defined for the requested rate.
    UnsupportedConfiguration,
    /// Pressure compensation is not available.
    NotImplemented,
}

/// A bus transaction the caller is asked to perform.
#[derive(Clone, Copy, Debug, PartialEq, Eq, Structural)]
pub enum Command {
    /// Write `value` into `register`.
    Write { register: u8, value: u8 },
    /// Read `len` bytes starting at `register`.
    Read { register: u8, len: usize },
    /// Suspend for `millis` milliseconds.
    Wait { millis: u64 },
}

/// How the transaction last asked for went.
pub enum Event {
    /// A `Write` completed.
    Written,
    /// A `Read` completed with these bytes.
    Data(Vec<u8>),
    /// A `Wait` elapsed.
    Waited,
    /// The transaction failed on the bus.
    BusFailed,
}

/// What the driver wants next after an event.
#[derive(Clone, Copy, Debug, PartialEq, Eq, Structural)]
pub enum Outcome {
    /// Perform this transaction and report how it went.
    Issue(Command),
    /// Initialization finished; the driver is ready.
    Initialized,
    /// The oversampling rate was written and its scale factor stored.
    Configured,
    /// A temperature measurement finished.
    Measured(Temperature),
    /// The operation ended with this error.
    Failed(SensorError),
}

/// Steps of the initialization sequence, each named after the transaction in flight.
#[derive(Clone, Copy, Debug, PartialEq, Eq, Structural)]
pub enum InitStep {
    ProductId,
    Coefficients,
    GeneralConfig,
    TemperatureRate,
    PressureRate,
}

/// Steps of a temperature measurement, each named after the transaction in flight.
#[derive(Clone, Copy, Debug, PartialEq, Eq, Structural)]
pub enum MeasureStep {
    /// The conversion is being started.
    Trigger,
    /// A status read is in flight; holds the number of earlier status reads.
    Status(u8),
    /// The back-off is running; holds the number of status reads made.
    Backoff(u8),
    /// The result registers are being read.
    Data,
}

/// Where the driver stands.
#[derive(Clone, Copy, Debug, PartialEq, Eq, Structural)]
pub enum SensorState {
    Uninitialized,
    Initializing(InitStep),
    Ready,
    /// A rate is being written to a channel's configuration register.
    Configuring(Channel, OversampleRate),
    Measuring(MeasureStep),
    Faulted,
}

/// A DPS310 sensor driver: calibration, per-channel scale factors and the
/// state of the operation in flight.
#[derive(Clone, Copy, Debug, PartialEq, Eq, Structural)]
pub struct DPS310 {
    pub coefficients: Coefficients,
    pub temperature_scale_factor: i32,
    pub pressure_scale_factor: i32,
    pub state: SensorState,
}

/// The rate applied to both channels during initialization.
pub open spec fn default_rate() -> OversampleRate {
    OversampleRate::Four
}

/// Whether `sf` can serve as a divisor of the temperature formula.
pub open spec fn usable_scale_factor(sf: i32) -> bool {
    0 < sf <= 8388608
}

/// The transaction in flight in `state`, if any.
pub open spec fn command_of(state: SensorState) -> Option<Command> {
    match state {
        SensorState::Initializing(InitStep::ProductId) =>
            Some(Command::Read { register: 0x0D, len: 1 }),
        SensorState::Initializing(InitStep::Coefficients) =>
            Some(Command::Read { register: 0x10, len: 18 }),
        SensorState::Initializing(InitStep::GeneralConfig) =>
            Some(Command::Write { register: 0x09, value: 0x00 }),
        SensorState::Initializing(InitStep::TemperatureRate) =>
            Some(Command::Write { register: 0x07, value: control_byte_of(Channel::Temperature, default_rate()) }),
        SensorState::Initializing(InitStep::PressureRate) =>
            Some(Command::Write { register: 0x06, value: control_byte_of(Channel::Pressure, default_rate()) }),
        SensorState::Configuring(channel, rate) =>
            Some(Command::Write { register: config_register_of(channel), value: control_byte_of(channel, rate) }),
        SensorState::Measuring(MeasureStep::Trigger) =>
            Some(Command::Write { register: 0x08, value: 0x02 }),
        SensorState::Measuring(MeasureStep::Status(_)) =>
            Some(Command::Read { register: 0x08, len: 1 }),
        SensorState::Measuring(MeasureStep::Backoff(_)) =>
            Some(Command::Wait { millis: 100 }),
        SensorState::Measuring(MeasureStep::Data) =>
            Some(Command::Read { register: 0x03, len: 3 }),
        _ => None,
    }
}

/// Whether `event` reports on the transaction `command`.
pub open spec fn answers(command: Command, event: Event) -> bool {
    match event {
        Event::BusFailed => true,
        Event::Written => command is Write,
        Event::Waited => command is Wait,
        Event::Data(d) => command is Read && d@.len() == command->Read_len,
    }
}

/// The temperature reading the formula gives, as exact ratios.
pub open spec fn temperature_of(c: Coefficients, raw: int, sf: i32) -> Temperature {
    let (n, d) = celsius_of(c.c0 as int, c.c1 as int, raw, sf as int);
    let (fnum, fden) = fahrenheit_of(n, d);
    Temperature {
        raw: raw as i32,
        celsius: Ratio { numerator: n as i64, denominator: d as i64 },
        fahrenheit: Ratio { numerator: fnum as i64, denominator: fden as i64 },
    }
}

impl DPS310 {
    /// The driver's internal invariant.
    pub open spec fn wf(self) -> bool {
        &&& -2048 <= self.coefficients.c0 < 2048
        &&& -2048 <= self.coefficients.c1 < 2048
        &&& match self.state {
            SensorState::Ready | SensorState::Configuring(_, _) | SensorState::Measuring(_)
            | SensorState::Initializing(InitStep::PressureRate) =>
                usable_scale_factor(self.temperature_scale_factor),
            _ => true,
        }
        &&& match self.state {
            SensorState::Configuring(_, rate) => is_supported(rate),
            SensorState::Measuring(MeasureStep::Status(a)) => a < 5,
            SensorState::Measuring(MeasureStep::Backoff(a)) => a < 5,
            _ => true,
        }
    }

    /// Whether the driver can start a new operation.
    pub open spec fn is_idle(self) -> bool {
        self.state is Uninitialized || self.state is Ready || self.state is Faulted
    }

    /// Whether `event` reports on the transaction the driver has in flight.
    pub open spec fn awaits(self, event: Event) -> bool {
        match command_of(self.state) {
            Some(c) => answers(c, event),
            None => false,
        }
    }

    /// The driver after the product id register read `id`.
    pub open spec fn after_product_id(self, id: u8) -> (DPS310, Outcome) {
        if id == 0x10 {
            (
                DPS310 { state: SensorState::Initializing(InitStep::Coefficients), ..self },
                Outcome::Issue(Command::Read { register: 0x10, len: 18 }),
            )
        } else {
            (DPS310 { state: SensorState::Faulted, ..self }, Outcome::Failed(SensorError::ProductIdMismatch))
        }
    }

    /// The driver after a failed transaction: an interrupted initialization
    /// has to start over, any other operation leaves the driver ready.
    pub open spec fn after_bus_failure(self) -> (DPS310, Outcome) {
        let state = if self.state is Initializing { SensorState::Uninitialized } else { SensorState::Ready };
        (DPS310 { state, ..self }, Outcome::Failed(SensorError::Bus))
    }

    /// The driver after a status read returned `status`, `a` reads having come before.
    pub open spec fn after_status(self, a: u8, status: u8) -> (DPS310, Outcome) {
        match poll_step_of(a, status) {
            PollStep::Ready => (
                DPS310 { state: SensorState::Measuring(MeasureStep::Data), ..self },
                Outcome::Issue(Command::Read { register: 0x03, len: 3 }),
            ),
            PollStep::Retry(n) => (
                DPS310 { state: SensorState::Measuring(MeasureStep::Backoff(n)), ..self },
                Outcome::Issue(Command::Wait { millis: 100 }),
            ),
            PollStep::TimedOut => (
                DPS310 { state: SensorState::Ready, ..self },
                Outcome::Failed(SensorError::MeasurementTimeout),
            ),
        }
    }

    /// The driver and the outcome after `event`, for an event that answers
    /// the transaction in flight.
    pub open spec fn next(self, event: Event) -> (DPS310, Outcome) {
        match event {
            Event::BusFailed => self.after_bus_failure(),
            Event::Data(d) => match self.state {
                SensorState::Initializing(InitStep::ProductId) => self.after_product_id(d@[0]),
                SensorState::Initializing(InitStep::Coefficients) => (
                    DPS310 {
                        coefficients: decoded(d@),
                        state: SensorState::Initializing(InitStep::GeneralConfig),
                        ..self
                    },
                    Outcome::Issue(Command::Write { register: 0x09, value: 0x00 }),
                ),
                SensorState::Measuring(MeasureStep::Status(a)) => self.after_status(a, d@[0]),
                SensorState::Measuring(MeasureStep::Data) => (
                    DPS310 { state: SensorState::Ready, ..self },
                    Outcome::Measured(
                        temperature_of(self.coefficients, raw_reading_of(d@), self.temperature_scale_factor),
                    ),
                ),
                _ => (self, Outcome::Failed(SensorError::Bus)),
            },
            Event::Written => match self.state {
                SensorState::Initializing(InitStep::GeneralConfig) => (
                    DPS310 { state: SensorState::Initializing(InitStep::TemperatureRate), ..self },
                    Outcome::Issue(Command::Write {
                        register: 0x07,
                        value: control_byte_of(Channel::Temperature, default_rate()),
                    }),
                ),
                SensorState::Initializing(InitStep::TemperatureRate) => (
                    DPS310 {
                        temperature_scale_factor: scale_factor_of(default_rate()),
                        state: SensorState::Initializing(InitStep::PressureRate),
                        ..self
                    },
                    Outcome::Issue(Command::Write {
                        register: 0x06,
                        value: control_byte_of(Channel::Pressure, default_rate()),
                    }),
                ),
                SensorState::Initializing(InitStep::PressureRate) => (
                    DPS310 {
                        pressure_scale_factor: scale_factor_of(default_rate()),
                        state: SensorState::Ready,
                        ..self
                    },
                    Outcome::Initialized,
                ),
                SensorState::Configuring(Channel::Temperature, rate) => (
                    DPS310 {
                        temperature_scale_factor: scale_factor_of(rate),
                        state: SensorState::Ready,
                        ..self
                    },
                    Outcome::Configured,
                ),
                SensorState::Configuring(Channel::Pressure, rate) => (
                    DPS310 { pressure_scale_factor: scale_factor_of(rate), state: SensorState::Ready, ..self },
                    Outcome::Configured,
                ),
                SensorState::Measuring(MeasureStep::Trigger) => (
                    DPS310 { state: SensorState::Measuring(MeasureStep::Status(0)), ..self },
                    Outcome::Issue(Command::Read { register: 0x08, len: 1 }),
                ),
                _ => (self, Outcome::Failed(SensorError::Bus)),
            },
            Event::Waited => match self.state {
                SensorState::Measuring(MeasureStep::Backoff(a)) => (
                    DPS310 { state: SensorState::Measuring(MeasureStep::Status(a)), ..self },
                    Outcome::Issue(Command::Read { register: 0x08, len: 1 }),
                ),
                _ => (self, Outcome::Failed(SensorError::Bus)),
            },
        }
    }

    /// Creates a driver that has not talked to the sensor yet.
    pub fn new() -> (r: DPS310)
        ensures
            r.wf(),
            r.state == SensorState::Uninitialized,
            r.temperature_scale_factor == 0,
            r.pressure_scale_factor == 0,
    {
        DPS310 {
            coefficients: Coefficients {
                c0: 0,
                c1: 0,
                c00: 0,
                c10: 0,
                c01: 0,
                c11: 0,
                c20: 0,
                c21: 0,
                c30: 0,
            },
            temperature_scale_factor: 0,
            pressure_scale_factor: 0,
            state: SensorState::Uninitialized,
        }
    }

    /// Starts the initialization sequence: product id check, calibration
    /// read, general configuration, then the default rate on both channels.
    pub fn initialize_sensor(&mut self) -> (c: Command)
        requires
            old(self).wf(),
            old(self).is_idle(),
        ensures
            final(self).wf(),
            *final(self) == (DPS310 { state: SensorState::Initializing(InitStep::ProductId), ..*old(self) }),
            c == (Command::Read { register: 0x0D, len: 1 }),
    {
        self.state = SensorState::Initializing(InitStep::ProductId);
        Command::Read { register: PROD_ID_REG_ADDR, len: 1 }
    }

    /// Asks for a soft reset of the sensor; the driver has to be initialized again.
    pub fn reset_sensor(&mut self) -> (c: Command)
        requires
            old(self).wf(),
            old(self).is_idle(),
        ensures
            final(self).wf(),
            *final(self) == (DPS310 { state: SensorState::Uninitialized, ..*old(self) }),
            c == (Command::Write { register: 0x0C, value: 0x09 }),
    {
        self.state = SensorState::Uninitialized;
        Command::Write { register: RESET_ADDR, value: SOFT_RESET }
    }

    /// Starts writing `rate` to `channel`'s configuration register; the
    /// scale factor is stored once the write is reported done. A rate
    /// without a configuration byte is refused and nothing is written.
    pub fn set_oversampling(&mut self, channel: Channel, rate: OversampleRate) -> (r: Result<Command, SensorError>)
        requires
            old(self).wf(),
            old(self).state == SensorState::Ready,
        ensures
            final(self).wf(),
            is_supported(rate) ==> r == Ok::<Command, SensorError>(Command::Write {
                register: config_register_of(channel),
                value: control_byte_of(channel, rate),
            }) && *final(self) == (DPS310 { state: SensorState::Configuring(channel, rate), ..*old(self) }),
            !is_supported(rate) ==> r == Err::<Command, SensorError>(SensorError::UnsupportedConfiguration)
                && *final(self) == *old(self),
    {
        match control_byte(channel, rate) {
            Some(value) => {
                self.state = SensorState::Configuring(channel, rate);
                Ok(Command::Write { register: config_register(channel), value })
            },
            None => Err(SensorError::UnsupportedConfiguration),
        }
    }

    /// Starts writing `rate` to the temperature configuration register.
    pub fn set_temperature_oversampling_rate(&mut self, rate: OversampleRate) -> (r: Result<Command, SensorError>)
        requires
            old(self).wf(),
            old(self).state == SensorState::Ready,
        ensures
            final(self).wf(),
            is_supported(rate) ==> r == Ok::<Command, SensorError>(Command::Write {
                register: 0x07,
                value: control_byte_of(Channel::Temperature, rate),
            }) && *final(self) == (DPS310 { state: SensorState::Configuring(Channel::Temperature, rate), ..*old(self) }),
            !is_supported(rate) ==> r == Err::<Command, SensorError>(SensorError::UnsupportedConfiguration)
                && *final(self) == *old(self),
    {
        self.set_oversampling(Channel::Temperature, rate)
    }

    /// Starts writing `rate` to the pressure configuration register.
    pub fn set_pressure_oversampling_rate(&mut self, rate: OversampleRate) -> (r: Result<Command, SensorError>)
        requires
            old(self).wf(),
            old(self).state == SensorState::Ready,
        ensures
            final(self).wf(),
            is_supported(rate) ==> r == Ok::<Command, SensorError>(Command::Write {
                register: 0x06,
                value: control_byte_of(Channel::Pressure, rate),
            }) && *final(self) == (DPS310 { state: SensorState::Configuring(Channel::Pressure, rate), ..*old(self) }),
            !is_supported(rate) ==> r == Err::<Command, SensorError>(SensorError::UnsupportedConfiguration)
                && *final(self) == *old(self),
    {
        self.set_oversampling(Channel::Pressure, rate)
    }

    /// Starts a temperature measurement by triggering a conversion.
    pub fn read_temperature(&mut self) -> (c: Command)
        requires
            old(self).wf(),
            old(self).state == SensorState::Ready,
        ensures
            final(self).wf(),
            *final(self) == (DPS310 { state: SensorState::Measuring(MeasureStep::Trigger), ..*old(self) }),
            c == (Command::Write { register: 0x08, value: 0x02 }),
    {
        self.state = SensorState::Measuring(MeasureStep::Trigger);
        Command::Write { register: MEAS_CFG_ADDR, value: MEASURE_TEMPERATURE }
    }

    /// Pressure compensation is not available: always fails.
    pub fn read_pressure(&self) -> (r: Result<Ratio, SensorError>)
        ensures
            r == Err::<Ratio, SensorError>(SensorError::NotImplemented),
    {
        Err(SensorError::NotImplemented)
    }

    /// Checks the product id read during initialization. On a mismatch the
    /// driver is faulted and the calibration block is never asked for.
    pub fn read_product_id(&mut self, id: u8) -> (r: Outcome)
        requires
            old(self).wf(),
            old(self).state == SensorState::Initializing(InitStep::ProductId),
        ensures
            final(self).wf(),
            (*final(self), r) == old(self).after_product_id(id),
    {
        if id == PRODUCT_ID {
            self.state = SensorState::Initializing(InitStep::Coefficients);
            Outcome::Issue(Command::Read { register: COEFFS_ADDR, len: COEFFS_LEN })
        } else {
            self.state = SensorState::Faulted;
            Outcome::Failed(SensorError::ProductIdMismatch)
        }
    }

    /// Decodes and stores the calibration block read during initialization,
    /// then asks for the general configuration write.
    pub fn initialize_coeffs(&mut self, raw: &[u8]) -> (r: Outcome)
        requires
            old(self).wf(),
            old(self).state == SensorState::Initializing(InitStep::Coefficients),
            raw@.len() == 18,
        ensures
            final(self).wf(),
            decodes_to(raw@, final(self).coefficients),
            final(self).state == SensorState::Initializing(InitStep::GeneralConfig),
            final(self).temperature_scale_factor == old(self).temperature_scale_factor,
            final(self).pressure_scale_factor == old(self).pressure_scale_factor,
            r == Outcome::Issue(Command::Write { register: 0x09, value: 0x00 }),
    {
        self.coefficients = decode_coefficients(raw);
        self.state = SensorState::Initializing(InitStep::GeneralConfig);
        Outcome::Issue(Command::Write { register: CFG_REG_ADDR, value: GENERAL_CONFIG })
    }
}

/// A product id other than the expected one faults the driver with
/// `ProductIdMismatch`: the calibration is left as it was and no further
/// transaction is asked for.
pub proof fn lemma_wrong_product_id_faults(s: DPS310, reply: Vec<u8>)
    requires
        s.wf(),
        s.state == SensorState::Initializing(InitStep::ProductId),
        s.awaits(Event::Data(reply)),
        reply@[0] != 0x10,
    ensures
        s.next(Event::Data(reply)).1 == Outcome::Failed(SensorError::ProductIdMismatch),
        s.next(Event::Data(reply)).0.state == SensorState::Faulted,
        s.next(Event::Data(reply)).0.coefficients == s.coefficients,
        command_of(s.next(Event::Data(reply)).0.state) is None,
{
}

/// Setting a supported rate on a channel writes the rate's configuration byte
/// to that channel's register and, once the write is reported done, stores
/// the rate's scale factor for that channel and for no other.
pub proof fn lemma_rate_write_stores_scale_factor(s: DPS310, channel: Channel, rate: OversampleRate)
    requires
        s.wf(),
        s.state == SensorState::Ready,
        is_supported(rate),
    ensures
        ({
            let c = DPS310 { state: SensorState::Configuring(channel, rate), ..s };
            let (t, o) = c.next(Event::Written);
            &&& command_of(c.state) == Some(Command::Write {
                register: config_register_of(channel),
                value: control_byte_of(channel, rate),
            })
            &&& o == Outcome::Configured
            &&& t.state == SensorState::Ready
            &&& t.coefficients == s.coefficients
            &&& channel == Channel::Temperature ==> t.temperature_scale_factor == scale_factor_of(rate)
                && t.pressure_scale_factor == s.pressure_scale_factor
            &&& channel == Channel::Pressure ==> t.pressure_scale_factor == scale_factor_of(rate)
                && t.temperature_scale_factor == s.temperature_scale_factor
        }),
{
}

/// The configuration byte of each supported rate and the scale factor of
/// every rate, as the vendor documents them.
pub proof fn lemma_rate_table()
    ensures
        control_byte_of(Channel::Temperature, OversampleRate::One) == 0x80,
        control_byte_of(Channel::Temperature, OversampleRate::Two) == 0x81,
        control_byte_of(Channel::Temperature, OversampleRate::Four) == 0x82,
        control_byte_of(Channel::Temperature, OversampleRate::Eight) == 0x83,
        control_byte_of(Channel::Pressure, OversampleRate::One) == 0x00,
        control_byte_of(Channel::Pressure, OversampleRate::Two) == 0x01,
        control_byte_of(Channel::Pressure, OversampleRate::Four) == 0x02,
        control_byte_of(Channel::Pressure, OversampleRate::Eight) == 0x03,
        forall|rate: OversampleRate| is_supported(rate) <==> (
            rate == OversampleRate::One || rate == OversampleRate::Two
            || rate == OversampleRate::Four || rate == OversampleRate::Eight),
{
}

impl DPS310 {
    /// The transaction the driver has in flight, if any.
    pub fn pending(&self) -> (r: Option<Command>)
        requires
            self.wf(),
        ensures
            r == command_of(self.state),
    {
        match self.state {
            SensorState::Initializing(InitStep::ProductId) =>
                Some(Command::Read { register: PROD_ID_REG_ADDR, len: 1 }),
            SensorState::Initializing(InitStep::Coefficients) =>
                Some(Command::Read { register: COEFFS_ADDR, len: COEFFS_LEN }),
            SensorState::Initializing(InitStep::GeneralConfig) =>
                Some(Command::Write { register: CFG_REG_ADDR, value: GENERAL_CONFIG }),
            SensorState::Initializing(InitStep::TemperatureRate) =>
                Some(Command::Write { register: TEMP_CONFIG_ADDR, value: 0x82 }),
            SensorState::Initializing(InitStep::PressureRate) =>
                Some(Command::Write { register: PRESSURE_CONFIG_ADDR, value: 0x02 }),
            SensorState::Configuring(channel, rate) => match control_byte(channel, rate) {
                Some(value) => Some(Command::Write { register: config_register(channel), value }),
                None => None,
            },
            SensorState::Measuring(MeasureStep::Trigger) =>
                Some(Command::Write { register: MEAS_CFG_ADDR, value: MEASURE_TEMPERATURE }),
            SensorState::Measuring(MeasureStep::Status(_)) =>
                Some(Command::Read { register: MEAS_CFG_ADDR, len: 1 }),
            SensorState::Measuring(MeasureStep::Backoff(_)) =>
                Some(Command::Wait { millis: POLL_BACKOFF_MS }),
            SensorState::Measuring(MeasureStep::Data) =>
                Some(Command::Read { register: TEMP_ADDR, len: TEMP_LEN }),
            _ => None,
        }
    }

    /// Whether `event` reports on the transaction the driver has in flight.
    pub fn accepts(&self, event: &Event) -> (r: bool)
        requires
            self.wf(),
        ensures
            r == self.awaits(*event),
    {
        match self.pending() {
            None => false,
            Some(command) => match event {
                Event::BusFailed => true,
                Event::Written => matches!(command, Command::Write { .. }),
                Event::Waited => matches!(command, Command::Wait { .. }),
                Event::Data(d) => match command {
                    Command::Read { len, .. } => d.len() == len,
                    _ => false,
                },
            },
        }
    }

    /// Takes the outcome of the transaction in flight and says what comes next.
    pub fn handle(&mut self, event: Event) -> (r: Outcome)
        requires
            old(self).wf(),
            old(self).awaits(event),
        ensures
            final(self).wf(),
            (*final(self), r) == old(self).next(event),
    {
        match event {
            Event::BusFailed => {
                if matches!(self.state, SensorState::Initializing(_)) {
                    self.state = SensorState::Uninitialized;
                } else {
                    self.state = SensorState::Ready;
                }
                Outcome::Failed(SensorError::Bus)
            },
            Event::Data(d) => match self.state {
                SensorState::Initializing(InitStep::ProductId) => self.read_product_id(d[0]),
                SensorState::Initializing(InitStep::Coefficients) => self.initialize_coeffs(d.as_slice()),
                SensorState::Measuring(MeasureStep::Status(a)) => {
                    match check_temperature_status(a, d[0]) {
                        PollStep::Ready => {
                            self.state = SensorState::Measuring(MeasureStep::Data);
                            Outcome::Issue(Command::Read { register: TEMP_ADDR, len: TEMP_LEN })
                        },
                        PollStep::Retry(n) => {
                            self.state = SensorState::Measuring(MeasureStep::Backoff(n));
                            Outcome::Issue(Command::Wait { millis: POLL_BACKOFF_MS })
                        },
                        PollStep::TimedOut => {
                            self.state = SensorState::Ready;
                            Outcome::Failed(SensorError::MeasurementTimeout)
                        },
                    }
                },
                SensorState::Measuring(MeasureStep::Data) => {
                    let raw = raw_temperature(d.as_slice());
                    let t = compensate_temperature(
                        self.coefficients.c0,
                        self.coefficients.c1,
                        raw,
                        self.temperature_scale_factor,
                    );
                    self.state = SensorState::Ready;
                    Outcome::Measured(t)
                },
                _ => Outcome::Failed(SensorError::Bus),
            },
            Event::Written => match self.state {
                SensorState::Initializing(InitStep::GeneralConfig) => {
                    self.state = SensorState::Initializing(InitStep::TemperatureRate);
                    Outcome::Issue(Command::Write { register: TEMP_CONFIG_ADDR, value: 0x82 })
                },
                SensorState::Initializing(InitStep::TemperatureRate) => {
                    self.temperature_scale_factor = scale_factor(OversampleRate::Four);
                    self.state = SensorState::Initializing(InitStep::PressureRate);
                    Outcome::Issue(Command::Write { register: PRESSURE_CONFIG_ADDR, value: 0x02 })
                },
                SensorState::Initializing(InitStep::PressureRate) => {
                    self.pressure_scale_factor = scale_factor(OversampleRate::Four);
                    self.state = SensorState::Ready;
                    Outcome::Initialized
                },
                SensorState::Configuring(Channel::Temperature, rate) => {
                    self.temperature_scale_factor = scale_factor(rate);
                    self.state = SensorState::Ready;
                    Outcome::Configured
                },
                SensorState::Configuring(Channel::Pressure, rate) => {
                    self.pressure_scale_factor = scale_factor(rate);
                    self.state = SensorState::Ready;
                    Outcome::Configured
                },
                SensorState::Measuring(MeasureStep::Trigger) => {
                    self.state = SensorState::Measuring(MeasureStep::Status(0));
                    Outcome::Issue(Command::Read { register: MEAS_CFG_ADDR, len: 1 })
                },
                _ => Outcome::Failed(SensorError::Bus),
            },
            Event::Waited => match self.state {
                SensorState::Measuring(MeasureStep::Backoff(a)) => {
                    self.state = SensorState::Measuring(MeasureStep::Status(a));
                    Outcome::Issue(Command::Read { register: MEAS_CFG_ADDR, len: 1 })
                },
                _ => Outcome::Failed(SensorError::Bus),
            },
        }
    }
}

} // verus!
