//! Motion controller for a small wheeled robot.
//!
//! The crate translates high-level movement intents — a drive gear and a
//! steering diversion — into the output states of a two-phase motor driver
//! and a steering servo, and sequences them over time through an
//! interruptible task queue with a brake-interrupt/resume protocol.
//! It also carries the register-level protocol of an inductive
//! metal-detector chip and the scoring half of the camera line analysis.
//!
//! All hardware access (GPIO, the I2C bus, the camera) lives outside this
//! crate: callers acquire the pins, perform the waits, and hand the
//! scheduler the clock readings it asks for.

pub mod drive;
pub mod metal_sensor;
pub mod view;
