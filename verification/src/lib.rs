//! Fault-tolerant polling of a three-channel pressure sensor.
//!
//! A transport hands over raw frames, the frame codec turns them into
//! validated readings, the sample bus keeps the most recent reading for any
//! number of consumers, and the poll loop decides, tick by tick, when to
//! read, when to give a transport up and how long to wait before opening it
//! again.

pub mod bus;
pub mod config;
pub mod frame;
pub mod loggers;
pub mod model;
pub mod poll;
