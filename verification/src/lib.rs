//! A verified session engine for a connection-oriented,
//! characteristic-addressed radio link (a Bluetooth-Low-Energy-style
//! transport).
//!
//! The library models the logic of one device session: building scan
//! filters from a catalog of protocol descriptions, resolving logical
//! endpoints onto the characteristics a live device actually exposes,
//! serializing concurrent read/write/subscribe/unsubscribe commands
//! through a single dispatch loop, and fanning session events out to
//! any number of subscribers. Every decision the engine takes is a
//! verified function from plain values to plain values; the platform
//! calls themselves (connecting, scanning, the characteristic I/O)
//! are performed by an unverified shell that feeds their outcomes
//! back into the engine.

pub mod connector;
pub mod discovery;
pub mod endpoint;
pub mod endpoint_map;
pub mod error;
pub mod facade;
pub mod laws;
pub mod session;
pub mod specifier;
