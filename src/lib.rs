//! Gas-metered hash precompiles for an EVM runtime, with an address-keyed
//! registry that can gate precompiles off before their fork activates.

pub mod gas;
pub mod address;
pub mod output;
pub mod hash;
pub mod registry;
