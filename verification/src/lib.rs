//! Software-driven breathing LED: a torn-read-free 64-bit timer reader, a
//! fixed-point PWM duty computation and a triangle-wave envelope, all as pure
//! decisions over plain integers so that the hardware loop around them stays
//! a few lines of register access.

pub mod config;
pub mod engine;
pub mod envelope;
pub mod gpio;
pub mod pwm;
pub mod timer;
pub mod uart;
pub mod wave;
