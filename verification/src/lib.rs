//! Control core of a networked I/O appliance.
//!
//! Inbound protocol commands are translated into actuator state (LEDs,
//! relays, a fan) and physical input events (a hardware button, the CPU
//! temperature) are translated back into outbound protocol messages.
//! This crate holds the verified core: the per-LED blink state machine,
//! the button debouncer and selection gesture, the fan hysteresis
//! controller, the protocol translator and the orchestrator that drains
//! its action queue under a hardware lock.  Transport, pin access and
//! the reactor that drives everything live outside the library and talk
//! to it through plain values.

pub mod digits;
pub mod error;
pub mod gpio;
pub mod json;
pub mod logic;
pub mod system_intergration;
pub mod timer;
pub mod transport;
