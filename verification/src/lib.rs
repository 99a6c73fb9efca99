//! Core logic of a three-party (buyer, merchant, escrow) 2-of-3 multisig
//! escrow service: the order lifecycle state machine, the keyed order store,
//! the settlement transaction builder, and the two-round signing session
//! coordinator. Wallet/key derivation, chain connectivity and the transport
//! layer are external collaborators and stay outside this library.

pub mod builder;
pub mod codec;
pub mod dto;
pub mod errors;
pub mod order;
pub mod registry;
pub mod session;
pub mod status;
pub mod store;

pub use errors::EscrowError;
pub use status::OrderStatus;
pub use status::Outcome;
