use dps310::oversampling::OversampleRate;
use dps310::sensor::{
    Command, Event, InitStep, MeasureStep, Outcome, SensorError, SensorState, DPS310,
};

/// A sensor on a bus, answering from fixed register contents.
struct MockBus {
    product_id: u8,
    coefficients: [u8; 18],
    statuses: Vec<u8>,
    temperature: [u8; 3],
    fail_on: Option<usize>,
    writes: Vec<(u8, u8)>,
    reads: Vec<u8>,
    status_reads: usize,
    waits: usize,
    transactions: usize,
}

impl MockBus {
    fn new(product_id: u8, coefficients: [u8; 18]) -> MockBus {
        MockBus {
            product_id,
            coefficients,
            statuses: Vec::new(),
            temperature: [0; 3],
            fail_on: None,
            writes: Vec::new(),
            reads: Vec::new(),
            status_reads: 0,
            waits: 0,
            transactions: 0,
        }
    }

    fn perform(&mut self, command: Command) -> Event {
        self.transactions += 1;
        if self.fail_on == Some(self.transactions) {
            return Event::BusFailed;
        }
        match command {
            Command::Write { register, value } => {
                self.writes.push((register, value));
                Event::Written
            }
            Command::Wait { .. } => {
                self.waits += 1;
                Event::Waited
            }
            Command::Read { register, len } => {
                self.reads.push(register);
                let data = match register {
                    0x0D => vec![self.product_id],
                    0x10 => self.coefficients.to_vec(),
                    0x08 => {
                        let s = self.statuses.get(self.status_reads).copied().unwrap_or(0);
                        self.status_reads += 1;
                        vec![s]
                    }
                    0x03 => self.temperature.to_vec(),
                    _ => vec![0; len],
                };
                assert_eq!(data.len(), len);
                Event::Data(data)
            }
        }
    }
}

fn drive(driver: &mut DPS310, first: Command, bus: &mut MockBus) -> Outcome {
    let mut command = first;
    loop {
        let event = bus.perform(command);
        assert!(driver.accepts(&event));
        match driver.handle(event) {
            Outcome::Issue(next) => {
                assert_eq!(driver.pending(), Some(next));
                command = next;
            }
            done => {
                assert_eq!(driver.pending(), None);
                return done;
            }
        }
    }
}

/// c0 = 100, c1 = 200, the rest zero.
fn fixture() -> [u8; 18] {
    let mut raw = [0u8; 18];
    raw[0] = 0x06;
    raw[1] = 0x40;
    raw[2] = 0xC8;
    raw
}

fn ready_driver(bus: &mut MockBus) -> DPS310 {
    let mut driver = DPS310::new();
    let first = driver.initialize_sensor();
    assert_eq!(drive(&mut driver, first, bus), Outcome::Initialized);
    driver
}

#[test]
fn initialization_sequence() {
    let mut bus = MockBus::new(0x10, fixture());
    let driver = ready_driver(&mut bus);
    assert_eq!(driver.state, SensorState::Ready);
    assert_eq!(driver.coefficients.c0, 100);
    assert_eq!(driver.coefficients.c1, 200);
    assert_eq!(driver.temperature_scale_factor, 3670016);
    assert_eq!(driver.pressure_scale_factor, 3670016);
    assert_eq!(bus.reads, vec![0x0D, 0x10]);
    assert_eq!(bus.writes, vec![(0x09, 0x00), (0x07, 0x82), (0x06, 0x02)]);
}

#[test]
fn wrong_product_id_stops_initialization() {
    let mut bus = MockBus::new(0x11, fixture());
    let mut driver = DPS310::new();
    let first = driver.initialize_sensor();
    assert_eq!(first, Command::Read { register: 0x0D, len: 1 });
    assert_eq!(
        drive(&mut driver, first, &mut bus),
        Outcome::Failed(SensorError::ProductIdMismatch)
    );
    assert_eq!(driver.state, SensorState::Faulted);
    assert_eq!(bus.reads, vec![0x0D]);
    assert!(bus.writes.is_empty());
    assert_eq!(driver.coefficients.c0, 0);
}

#[test]
fn read_product_id_checks_the_id() {
    let mut driver = DPS310::new();
    driver.initialize_sensor();
    assert_eq!(
        driver.read_product_id(0x10),
        Outcome::Issue(Command::Read { register: 0x10, len: 18 })
    );
    assert_eq!(driver.state, SensorState::Initializing(InitStep::Coefficients));
    let mut other = DPS310::new();
    other.initialize_sensor();
    assert_eq!(
        other.read_product_id(0x00),
        Outcome::Failed(SensorError::ProductIdMismatch)
    );
}

#[test]
fn initialize_coeffs_stores_decoded_values() {
    let mut driver = DPS310::new();
    driver.initialize_sensor();
    driver.read_product_id(0x10);
    let outcome = driver.initialize_coeffs(&fixture());
    assert_eq!(outcome, Outcome::Issue(Command::Write { register: 0x09, value: 0x00 }));
    assert_eq!(driver.coefficients.c0, 100);
    assert_eq!(driver.coefficients.c1, 200);
}

#[test]
fn bus_failure_during_initialization_starts_over() {
    let mut bus = MockBus::new(0x10, fixture());
    bus.fail_on = Some(2);
    let mut driver = DPS310::new();
    let first = driver.initialize_sensor();
    assert_eq!(drive(&mut driver, first, &mut bus), Outcome::Failed(SensorError::Bus));
    assert_eq!(driver.state, SensorState::Uninitialized);
}

#[test]
fn supported_rates_write_and_store() {
    let cases = [
        (OversampleRate::One, 0x80, 0x00, 524288),
        (OversampleRate::Two, 0x81, 0x01, 1572864),
        (OversampleRate::Four, 0x82, 0x02, 3670016),
        (OversampleRate::Eight, 0x83, 0x03, 7864320),
    ];
    for (rate, temp_byte, pressure_byte, sf) in cases {
        let mut bus = MockBus::new(0x10, fixture());
        let mut driver = ready_driver(&mut bus);
        bus.writes.clear();

        let c = driver.set_temperature_oversampling_rate(rate).unwrap();
        assert_eq!(c, Command::Write { register: 0x07, value: temp_byte });
        assert_eq!(drive(&mut driver, c, &mut bus), Outcome::Configured);
        assert_eq!(driver.temperature_scale_factor, sf);
        assert_eq!(driver.pressure_scale_factor, 3670016);

        let c = driver.set_pressure_oversampling_rate(rate).unwrap();
        assert_eq!(c, Command::Write { register: 0x06, value: pressure_byte });
        assert_eq!(drive(&mut driver, c, &mut bus), Outcome::Configured);
        assert_eq!(driver.pressure_scale_factor, sf);
        assert_eq!(bus.writes, vec![(0x07, temp_byte), (0x06, pressure_byte)]);
    }
}

#[test]
fn unsupported_rates_are_refused_without_a_write() {
    let rates = [
        OversampleRate::Sixteen,
        OversampleRate::ThirtyTwo,
        OversampleRate::SixtyFour,
        OversampleRate::OneHundredTwentyEight,
    ];
    for rate in rates {
        let mut bus = MockBus::new(0x10, fixture());
        let mut driver = ready_driver(&mut bus);
        let before = driver;
        assert_eq!(
            driver.set_temperature_oversampling_rate(rate),
            Err(SensorError::UnsupportedConfiguration)
        );
        assert_eq!(
            driver.set_pressure_oversampling_rate(rate),
            Err(SensorError::UnsupportedConfiguration)
        );
        assert_eq!(driver, before);
        assert_eq!(driver.pending(), None);
    }
}

#[test]
fn failed_rate_write_keeps_scale_factor() {
    let mut bus = MockBus::new(0x10, fixture());
    let mut driver = ready_driver(&mut bus);
    bus.fail_on = Some(bus.transactions + 1);
    let c = driver.set_temperature_oversampling_rate(OversampleRate::One).unwrap();
    assert_eq!(drive(&mut driver, c, &mut bus), Outcome::Failed(SensorError::Bus));
    assert_eq!(driver.state, SensorState::Ready);
    assert_eq!(driver.temperature_scale_factor, 3670016);
}

#[test]
fn measurement_ready_on_fifth_poll() {
    let mut bus = MockBus::new(0x10, fixture());
    let mut driver = ready_driver(&mut bus);
    let c = driver.set_temperature_oversampling_rate(OversampleRate::Eight).unwrap();
    drive(&mut driver, c, &mut bus);
    bus.statuses = vec![0x00, 0x00, 0x00, 0x00, 0x20];
    bus.temperature = [0x0F, 0x42, 0x40];
    let first = driver.read_temperature();
    assert_eq!(first, Command::Write { register: 0x08, value: 0x02 });
    let outcome = drive(&mut driver, first, &mut bus);
    assert_eq!(bus.status_reads, 5);
    assert_eq!(bus.waits, 4);
    match outcome {
        Outcome::Measured(t) => {
            assert_eq!(t.raw, 1_000_000);
            assert_eq!(t.celsius.numerator, 1_186_432_000);
            assert_eq!(t.celsius.denominator, 15_728_640);
            let celsius = t.celsius.numerator as f64 / t.celsius.denominator as f64;
            assert!((celsius - 75.4313151041).abs() < 1e-9);
        }
        other => panic!("unexpected outcome {:?}", other),
    }
    assert_eq!(driver.state, SensorState::Ready);
}

#[test]
fn measurement_times_out_after_five_polls() {
    let mut bus = MockBus::new(0x10, fixture());
    let mut driver = ready_driver(&mut bus);
    bus.statuses = vec![0x00; 10];
    let first = driver.read_temperature();
    assert_eq!(
        drive(&mut driver, first, &mut bus),
        Outcome::Failed(SensorError::MeasurementTimeout)
    );
    assert_eq!(bus.status_reads, 5);
    assert!(!bus.reads.contains(&0x03));
    assert_eq!(driver.state, SensorState::Ready);
}

#[test]
fn measurement_state_follows_the_poll() {
    let mut driver = ready_driver(&mut MockBus::new(0x10, fixture()));
    driver.read_temperature();
    assert_eq!(driver.handle(Event::Written), Outcome::Issue(Command::Read { register: 0x08, len: 1 }));
    assert_eq!(driver.state, SensorState::Measuring(MeasureStep::Status(0)));
    assert_eq!(driver.handle(Event::Data(vec![0])), Outcome::Issue(Command::Wait { millis: 100 }));
    assert_eq!(driver.state, SensorState::Measuring(MeasureStep::Backoff(1)));
    assert!(!driver.accepts(&Event::Written));
    assert!(!driver.accepts(&Event::Data(vec![0])));
    assert!(driver.accepts(&Event::Waited));
}

#[test]
fn read_pressure_is_not_implemented() {
    let driver = ready_driver(&mut MockBus::new(0x10, fixture()));
    assert_eq!(driver.read_pressure(), Err(SensorError::NotImplemented));
}

#[test]
fn reset_writes_soft_reset_command() {
    let mut driver = ready_driver(&mut MockBus::new(0x10, fixture()));
    assert_eq!(driver.reset_sensor(), Command::Write { register: 0x0C, value: 0x09 });
    assert_eq!(driver.state, SensorState::Uninitialized);
}
