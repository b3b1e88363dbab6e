use vstd::prelude::*;

verus! {

/// Fixed 7-bit bus address of the sensor.
pub const SENSOR_ADDR: u8 = 0x77;

/// Product identification register.
pub const PROD_ID_REG_ADDR: u8 = 0x0D;

/// First of the eighteen calibration coefficient registers.
pub const COEFFS_ADDR: u8 = 0x10;

/// Number of calibration bytes starting at `COEFFS_ADDR`.
pub const COEFFS_LEN: usize = 18;

/// Pressure measurement configuration register.
pub const PRESSURE_CONFIG_ADDR: u8 = 0x06;

/// Temperature measurement configuration register.
pub const TEMP_CONFIG_ADDR: u8 = 0x07;

/// Measurement configuration and status register.
pub const MEAS_CFG_ADDR: u8 = 0x08;

/// General configuration register.
pub const CFG_REG_ADDR: u8 = 0x09;

/// First of the three temperature result registers.
pub const TEMP_ADDR: u8 = 0x03;

/// Number of temperature result bytes starting at `TEMP_ADDR`.
pub const TEMP_LEN: usize = 3;

/// First of the three pressure result registers.
pub const PRESSURE_ADDR: u8 = 0x00;

/// Soft reset register.
pub const RESET_ADDR: u8 = 0x0C;

/// Value written to `RESET_ADDR` to trigger a soft reset.
pub const SOFT_RESET: u8 = 0x09;

/// Product id that identifies this sensor model.
pub const PRODUCT_ID: u8 = 0x10;

/// Value written to `MEAS_CFG_ADDR` to start a single temperature conversion.
pub const MEASURE_TEMPERATURE: u8 = 0x02;

/// Value written to `CFG_REG_ADDR` during initialization.
pub const GENERAL_CONFIG: u8 = 0x00;

/// Bit of the status register that is set once a temperature result is readable.
pub const TEMP_READY_BIT: u8 = 0x20;

/// Number of status reads before a measurement is given up.
pub const MAX_POLL_ATTEMPTS: u8 = 5;

/// Pause between two status reads, in milliseconds.
pub const POLL_BACKOFF_MS: u64 = 100;

} // verus!
