//! Delegated transfer authority over a custodial token account.
//!
//! An owner creates one delegation record per transfer authority. The record
//! names a deactivate authority and a bounded list of allowed destinations.
//! The operations here decide who may do what in which state, and describe
//! the ledger instruction that the host then executes with the record's
//! derived identity as signer.
pub mod address;
pub mod derivation;
pub mod delegate_proxy;
pub mod program;
pub mod laws;
pub mod errors;

pub use address::Address;
pub use errors::Errors;
pub use delegate_proxy::DelegateProxy;
pub use program::{
    Activate, ApproveInstruction, Deactivate, Initialize, LedgerAccount, ProxyApprove, ProxyTransfer,
    TransferInstruction, activate, deactivate, initialize, proxy_approve, proxy_transfer,
};
