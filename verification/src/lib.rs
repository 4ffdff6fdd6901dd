//! A conditional value-escrow engine.
//!
//! A depositor locks a fixed amount of a fungible asset for a recipient,
//! bound to an opaque condition string and an expiry time.  The recipient
//! attests fulfillment; a fulfilled escrow is released to the recipient
//! before expiry, and an unfulfilled escrow is refunded to the depositor
//! after expiry.  Two bounded registries log created escrows and completed
//! releases for enumeration.
//!
//! The asset ledger itself is modelled here as a verified in-memory store
//! of token accounts; its transfer operation carries the contract of the
//! external transfer capability (insufficient funds and authority checks).

pub mod conditional;
pub mod errors;
pub mod escrow;
pub mod laws;
pub mod ledger;
pub mod registry;
