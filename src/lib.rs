//! Driver logic for a DPS310 barometric pressure and temperature sensor.
//!
//! The driver never touches the bus itself: it tells its caller which
//! register transaction to perform next and consumes the outcome, so that
//! every decision it takes is a plain function of the bytes it was handed.
pub mod registers;
pub mod twos;
pub mod calibration;
pub mod oversampling;
pub mod poller;
pub mod compensation;
pub mod sensor;
