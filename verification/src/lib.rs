//! Core engines of a virtual LAN carried over an untrusted network: the
//! relay's session and routing rules, and the edge's tunnel controller.

pub mod access;
pub mod action;
pub mod client;
pub mod command;
pub mod daemon;
pub mod db;
pub mod error;
pub mod octets;
pub mod packet;
pub mod relay;
pub mod routing;
pub mod tun;
pub mod wire;
