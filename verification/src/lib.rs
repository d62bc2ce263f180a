//! Verified core of the per-user agent.
//!
//! The crate holds the rules that the agent follows: who may do what, which
//! identifiers may be used again, what a peer message leads to, and in which
//! order effects are carried out. Sockets, native input, files and clocks stay
//! outside; they hand plain values in and carry out the actions that come back.

pub mod agent_commands;
pub mod agent_core;
pub mod agent_operations;
pub mod agent_status;
pub mod clipboard_port;
pub mod clipboard_runtime;
pub mod device_identity;
pub mod displays;
pub mod grants;
pub mod id_set;
pub mod identifiers;
pub mod input;
pub mod keychain;
pub mod local_ipc;
pub mod native_bridge;
pub mod pairing_run;
pub mod peer_book;
pub mod peer_records;
pub mod peer_transfers;
pub mod platform_port;
pub mod platform_readiness;
pub mod random;
pub mod reconnect;
pub mod routes;
pub mod runtime;
pub mod safety_stop;
pub mod secret;
pub mod session_commands;
pub mod session_control;
pub mod session_core;
pub mod session_effects;
pub mod session_link;
pub mod session_loop;
pub mod session_model;
pub mod session_refresh;
pub mod session_safety;
pub mod session_wire;
pub mod storage;
pub mod storage_codec;
pub mod text;
pub mod topology_runtime;
pub mod transfer_laws;
pub mod transfer_model;
pub mod transfer_runtime;
pub mod transfer_status;
pub mod transfer_worker;
pub mod trust_store;
pub mod virtual_platform;
pub mod wire_index;
