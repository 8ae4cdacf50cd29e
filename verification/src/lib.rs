//! A verified model of a cooperative button-and-blink control loop.
//!
//! The library covers the logic of a single-threaded, cooperatively
//! scheduled control program: an input multiplexer that reports which of
//! three monitored lines fired, a debounced action dispatcher that runs
//! exactly one handler per trigger, a growable event buffer owned by the
//! dispatcher, and a background blinker that alternates an output level.
//! The hardware waits, timers and pin I/O live outside the library; the
//! surrounding program performs them and feeds the resulting events in.

pub mod blinker;
pub mod buffer;
pub mod dispatcher;
pub mod schedule;
pub mod trigger;
