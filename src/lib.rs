//! A car-rental contract skeleton: its entry points record the contract's
//! administrator and payment token in the instance storage of the running
//! contract.
pub mod contract;
pub mod host;
pub mod interfaces;
