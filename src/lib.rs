//! Controller logic for a small soldering-iron board: the two-wire bus
//! transaction engine, a simulated bus with one slave and what transfers do
//! on it, the drivers of the accelerometer and of the display that issue bus
//! writes, and the user-interface state machine.

pub mod i2c;
pub mod laws;
pub mod mma8652fc;
pub mod sim;
pub mod ssd1306;
pub mod state;
