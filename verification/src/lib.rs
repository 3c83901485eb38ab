//! A pooled-asset vault with share-based accounting, and a guard for forwarding swap
//! requests to an external program.
//!
//! The library decides and keeps the books; it moves no tokens and invokes no program.
//! A host reads the accounts, hands their contents over as plain values, performs the
//! token movements and invocations the library asks for, and stores what comes back.
//!
//! - `state` holds the stored records, the share arithmetic of the vault, and the laws
//!   that arithmetic obeys.
//! - `utils` holds the fee and profit calculations.
//! - `guard` holds what both guarded swaps share: the stages, the actions handed to the
//!   host, the allow list and the reconciliation of balances; `guard_laws` states what
//!   the two swap machines guarantee.
//! - `instructions` holds one function per operation, with the accounts it works on.
//! - `error`, `events` and `token` hold the refusals, the notifications and the requests
//!   to the token collaborator.

pub mod address;
pub mod error;
pub mod events;
pub mod guard;
pub mod guard_laws;
pub mod instructions;
pub mod state;
pub mod token;
pub mod utils;
