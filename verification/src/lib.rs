//! An escrow ledger for the Soroban ledger host.
//!
//! A buyer locks funds for a farmer. The funds are released to the farmer
//! when the buyer confirms receipt, or go back to the buyer once 96 hours
//! have passed without a confirmation. [`CyloEscrow`] holds the orders and
//! carries out the operations; [`state::EscrowState`] is the mathematical
//! value that it stands for, with the rules of every operation; `laws` holds
//! what follows from the rules for every escrow.
//!
//! Funds move through token contracts and the time is the ledger's: both
//! come from the Soroban SDK, behind the declarations of `host`.

pub mod cylo_escrow;
pub mod cylo_escrow_types;
pub mod errors;
pub mod events;
pub mod funds;
pub mod host;
pub mod index;
pub mod laws;
pub mod state;

pub use crate::cylo_escrow::CyloEscrow;
pub use crate::cylo_escrow_types::{AdminData, Order, OrderStatus, EXPIRATION_PERIOD};
pub use crate::errors::CyloEscrowErrors;
pub use crate::events::{
    ContractInitialized, EscrowEvent, OrderConfirmed, OrderCreated, OrderRefunded,
};
