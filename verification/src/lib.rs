//! Core runtime of a battery-powered wearable display badge.
//!
//! The library owns the render and input hot path: a row-major RGB565
//! framebuffer, dirty-rectangle extraction and the bus-level window-write
//! protocol that streams changed pixels to the panel, and the touch state
//! machine that turns raw controller samples into pointer events.  Hardware
//! access (SPI, I2C, GPIO, sockets, persistent storage) lives outside the
//! library; every function here computes on plain values and carries a
//! contract.

pub mod platform;

pub mod framebuffer;

pub mod region;

pub mod transfer;

pub mod bus;

pub mod touch;

pub mod dns;

pub mod text;

pub mod logger;

pub mod profile;

pub mod sysinfo;

pub mod storage;

