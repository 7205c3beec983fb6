//! Synchronization core for a five-channel physical mixer console: the wire
//! protocol between the device and the host, the device-side pending-update
//! bookkeeping, and the host-side channel engine that binds audio streams to
//! physical channels.

pub mod channel;
pub mod common;
pub mod config;
pub mod connection;
pub mod dispatch;
pub mod display;
pub mod faders;
pub mod icon;
pub mod level;
pub mod mute;
pub mod mute_sync;
pub mod pa;
pub mod pending;
pub mod status_leds;
pub mod usb;
pub mod waveshare;
