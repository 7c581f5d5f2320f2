//! Verified core of the ATM auto runner: parsing of `adb` output, the test
//! catalogue read from `TestInfo.xml`, the per-device test sequence and the
//! shared application state.

pub mod text;
pub mod model;
pub mod state;
pub mod platform;
pub mod regex_engine;
pub mod catalog;
pub mod devices;
pub mod launch;
pub mod runner;
pub mod clock;
pub mod protocol;
