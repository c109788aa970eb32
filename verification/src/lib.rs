//! A controller for Time-Sensitive Networking in the fully centralized model of IEEE 802.1Q:
//! it keeps the Streams that user configurations ask for, has a scheduler compute gate control
//! lists for them, and decides what to write to which Bridge.

pub mod cnc;
