//! Status display driver library for a small I2C OLED panel, with a
//! multiplexer-aware channel-selection core: a TCA9548A-class I2C
//! multiplexer and a downstream display share one physical bus, and this
//! crate provides the shared bus handle, the channel-select protocol and
//! the pure status-formatting logic, each with a verified contract.
pub mod args;
pub mod bus;
pub mod handle;
pub mod mux;
pub mod status;
pub mod text;
