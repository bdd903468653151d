//! Plain data model of the broker: account levels, credentials, descriptors,
//! endpoints and the error taxonomy.
use vstd::prelude::*;

verus! {

/// Which signing-key family and catalog policy applies to an account.
#[derive(Clone, Copy, PartialEq, Eq, Structural, Debug)]
pub enum AccountLevel {
    Free,
    Plus,
}

/// How a user proves eligibility for a bearer token. Currently a single
/// placeholder variant; each variant maps to a stable user identifier.
#[derive(Clone, Copy, PartialEq, Eq, Structural, Debug)]
pub enum Credential {
    TestDummy,
}

/// Client-facing authentication outcome.
#[derive(Clone, Copy, PartialEq, Eq, Structural, Debug)]
pub enum AuthError {
    /// The token is structurally invalid, unknown, or expired.
    Forbidden,
    /// The limiter rejected the caller, or a storage fault was masked.
    RateLimited,
}

/// Why a descriptor registration was rejected.
#[derive(Clone, Copy, PartialEq, Eq, Structural, Debug)]
pub enum RegisterError {
    /// The message-authentication tag does not match the shared secret.
    BadMac,
    /// The exit's self-signature does not verify against its embedded key.
    BadSignature,
    /// The descriptor carries a country code outside the known alphabet.
    BadCountry,
}

/// Why route resolution was refused.
#[derive(Clone, Copy, PartialEq, Eq, Structural, Debug)]
pub enum RouteError {
    /// The unblinded (token, signature) pair verifies under neither level.
    Authentication,
}

/// A socket endpoint: an IPv4 address with a port.
#[derive(Clone, Copy, PartialEq, Eq, Structural, Debug)]
pub struct Endpoint {
    pub ip: u32,
    pub port: u16,
}

/// A two-letter country code, held as its two bytes.
#[derive(Clone, Copy, PartialEq, Eq, Structural, Debug)]
pub struct CountryCode {
    pub a: u8,
    pub b: u8,
}

/// What an exit relay announces about itself. Identified by the exit's own
/// asymmetric public key, which travels in the signed wrapper around it.
#[derive(Clone, Debug)]
pub struct ExitDescriptor {
    /// Client-facing listen endpoint.
    pub c2e_listen: Endpoint,
    /// Bridge-facing listen endpoint.
    pub b2e_listen: Endpoint,
    pub country: CountryCode,
    /// City display label, as a byte string.
    pub city: Vec<u8>,
    /// Load metric, in per-mille of capacity.
    pub load: u32,
    /// Unix timestamp after which the descriptor is stale.
    pub expiry: u64,
}

/// What a bridge relay announces about itself. Identified by its control
/// listen endpoint; authenticated only by the shared operator secret.
#[derive(Clone, Debug)]
pub struct BridgeDescriptor {
    pub control_listen: Endpoint,
    /// Cookie secret clients present to the bridge.
    pub control_cookie: Vec<u8>,
    /// Pool identifier grouping bridges of one kind.
    pub pool: Vec<u8>,
    pub expiry: u64,
}

/// One persisted exit record: the exit's identity key with its descriptor.
#[derive(Clone, Debug)]
pub struct ExitRow {
    /// The exit's 32-byte ed25519 identity key.
    pub pubkey: Vec<u8>,
    pub desc: ExitDescriptor,
}

/// One entry of the static country-to-city display table.
#[derive(Clone, Debug)]
pub struct CityEntry {
    pub country: CountryCode,
    pub name: Vec<u8>,
}

/// One independently viable path to a destination exit, produced by the
/// path-construction collaborator from a bridge descriptor.
#[derive(Clone, Debug)]
pub struct RouteCandidate {
    /// The bridge this path enters through.
    pub bridge: Endpoint,
    /// The exit the path leads to.
    pub exit: Endpoint,
    /// Opaque dialing instructions handed back by the bridge.
    pub payload: Vec<u8>,
}

/// An unordered race set of candidates: the consumer attempts all of them
/// concurrently and keeps the first that completes a handshake.
#[derive(Clone, Debug)]
pub struct RouteSet {
    pub candidates: Vec<RouteCandidate>,
}

} // verus!
