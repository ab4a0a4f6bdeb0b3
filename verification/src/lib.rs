//! Verified core of Freemouse, a self-hosted software KVM switch that shares one
//! mouse, keyboard and clipboard between machines on a local network.

pub mod capture;
pub mod clipboard;
pub mod connection;
pub mod crypto;
pub mod file_transfer;
pub mod frame;
pub mod grab;
pub mod handshake;
pub mod layout;
pub mod network;
pub mod pin;
pub mod router;
pub mod tour;
pub mod sim_keys;
