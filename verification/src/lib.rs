//! Motion-control core of a single-axis solar tracker.
//!
//! The crate holds the decisions of the tracker: unit conversions, the
//! quadrature decoder, the debounced limit-switch gate, the rate-limited
//! position store, the ramped stepper driver and the tracking controller.
//! Every function is pure with respect to hardware: pins, clocks and storage
//! are sampled by the caller and handed in as plain values.

pub mod boot;
pub mod clock;
pub mod closed_loop;
pub mod config;
pub mod error;
pub mod hal_devices;
pub mod homing;
pub mod limit_switch;
pub mod motion;
pub mod ota;
pub mod position_store;
pub mod quadrature;
pub mod rtc;
pub mod states;
pub mod stepper;
pub mod tracking;
pub mod units;
