//! Core of a real-time state-synchronization service for a shared
//! tabletop-game session.  Clients send `Instruction`s; the server mutates
//! the single authoritative `Bitd` domain store, persists the affected
//! records, and fans a coordinate-only `SyncRequest` out to every
//! connection, which re-reads the store and renders an `UpdatePacket`.
//!
//! This crate holds the verified parts: the entity model, the domain store,
//! the instruction dispatch and the update-packet encoder.  Transport,
//! serialization and file handling live outside it.

pub mod clock;
pub mod dash;
pub mod ids;
pub mod packet;
pub mod player;
pub mod protocol;
pub mod store;
