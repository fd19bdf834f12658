//! Drivers for a few sensors, each on top of any [`I2CDevice`](crate::device::I2CDevice).
//!
//! A driver here says what goes over the bus and what the bytes that come
//! back mean. Where a sensor needs time between two transactions, the driver
//! offers the two halves and the wait in between is the caller's. Where a
//! sensor's datasheet goes on in fractions, the driver stops at the integers.
pub mod adxl345_accelerometer;
pub mod bmp180_barometer;
pub mod l3g_gyro;
pub mod mpl115a2_barometer;
pub mod nunchuck;
