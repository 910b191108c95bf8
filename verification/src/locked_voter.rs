//! Token locking and time-decayed vote-escrow voting power.

pub mod events;
pub mod instructions;
pub mod locker;
pub mod lock_permissionless;
pub mod lock_with_whitelist;
pub mod lock_with_whitelist_entry;
pub mod state;
pub mod supply;
