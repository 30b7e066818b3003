//! Debounced, cancellable shutdown of remote devices, driven by door-lock
//! observations delivered over a publish/subscribe bus.

pub mod action;
pub mod calendar;
pub mod hass;
pub mod mqtt;
pub mod scheduler;
