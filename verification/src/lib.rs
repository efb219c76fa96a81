//! Two-tier governance safety core: a per-subDAO timelock that holds approved
//! proposals for a veto window, and the admission logic that creates the
//! parent organization's veto ("overrule") proposals.
//!
//! The surrounding execution substrate (message delivery, durable storage,
//! cross-contract queries) is out of scope; every operation here is a pure
//! state transition over plain values, with query results handed in by the
//! caller.

pub mod decimal;
pub mod overrule;
pub mod timelock;
pub mod types;
