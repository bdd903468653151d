//! Coordination service ("broker") for an overlay proxy network: issues
//! anonymous, unlinkable access credentials through blind signatures,
//! authenticates and catalogs relay infrastructure, and assembles candidate
//! network paths for a client/exit pair.
pub mod broker;
pub mod catalog;
pub mod codec;
pub mod keyring;
pub mod outside;
pub mod registry;
pub mod routes;
pub mod tokens;
pub mod types;
pub mod wrap;

