use vstd::prelude::*;
use crate::address::Address;
use crate::errors::Errors;
use crate::derivation::{canonical_address, find_address};
use crate::delegate_proxy::{
    DelegateProxy, MAX_TARGETS, address_matches, check_proxy_address, is_canonical_address,
    pad_targets, padded_targets, proxy_seed_prefix, proxy_seeds, proxy_signer_seeds, seed_prefix,
};

verus! {

/// The accounts of `initialize`: the signing owner, who pays for the record,
/// and the address presented for the new record.
#[derive(Clone, Copy, Debug)]
pub struct Initialize {
    pub owner: Address,
    pub delegate_proxy: Address,
}

/// A ledger account as the operations see it: its address and the asset it holds.
#[derive(Clone, Copy, Debug)]
pub struct LedgerAccount {
    pub key: Address,
    pub mint: Address,
}

/// The accounts of `proxy_transfer`: the signing transfer authority, the
/// record's address, and the source and destination ledger accounts.
#[derive(Clone, Copy, Debug)]
pub struct ProxyTransfer {
    pub transfer_authority: Address,
    pub delegate_proxy: Address,
    pub from: LedgerAccount,
    pub to: LedgerAccount,
}

/// The accounts of `proxy_approve`: the signer, who must be the record's
/// owner (and, for the ledger, the owner of the token account), the transfer
/// authority that locates the record, the record's address, and the token
/// account whose spending rights are granted.
#[derive(Clone, Copy, Debug)]
pub struct ProxyApprove {
    pub owner: Address,
    pub transfer_authority: Address,
    pub delegate_proxy: Address,
    pub token_account: Address,
}

/// The accounts of `deactivate`: the signer, the transfer authority that
/// locates the record, and the record's address.
#[derive(Clone, Copy, Debug)]
pub struct Deactivate {
    pub signer: Address,
    pub transfer_authority: Address,
    pub delegate_proxy: Address,
}

/// The accounts of `activate`: the signer, the transfer authority that
/// locates the record, and the record's address.
#[derive(Clone, Copy, Debug)]
pub struct Activate {
    pub signer: Address,
    pub transfer_authority: Address,
    pub delegate_proxy: Address,
}

/// A ledger transfer of `amount` from `from` to `to`, authorized by the
/// record at `authority`, which signs with `signer_seeds`.
#[derive(Debug)]
pub struct TransferInstruction {
    pub from: Address,
    pub to: Address,
    pub authority: Address,
    pub amount: u64,
    pub signer_seeds: Vec<Vec<u8>>,
}

/// A ledger approval that lets `delegate` spend `amount` out of `to`,
/// authorized by the token account's owner `authority`; the record signs
/// with `signer_seeds`.
#[derive(Debug)]
pub struct ApproveInstruction {
    pub to: Address,
    pub delegate: Address,
    pub authority: Address,
    pub amount: u64,
    pub signer_seeds: Vec<Vec<u8>>,
}

/// Why `initialize` fails, or `None` where it succeeds.
pub open spec fn initialize_error(
    accounts: Initialize,
    transfer_authority: Address,
    deactivate_authority: Address,
    targets: Seq<Address>,
    program_id: Seq<u8>,
) -> Option<Errors> {
    if accounts.owner@ == transfer_authority@ || accounts.owner@ == deactivate_authority@
        || transfer_authority@ == deactivate_authority@ {
        Some(Errors::SameAccounts)
    } else if !is_canonical_address(accounts.delegate_proxy@, transfer_authority@, program_id) {
        Some(Errors::WrongParameters)
    } else if targets.len() == 0 {
        Some(Errors::EmptyAllowList)
    } else if targets.len() > 10 {
        Some(Errors::AllowListTooLong)
    } else {
        None
    }
}

/// `p` is the record that a successful `initialize` creates.
pub open spec fn is_new_record(
    p: DelegateProxy,
    owner: Address,
    transfer_authority: Address,
    deactivate_authority: Address,
    targets: Seq<Address>,
    program_id: Seq<u8>,
) -> bool {
    &&& p.active
    &&& canonical_address(seed_prefix(transfer_authority@), program_id) matches Some((_, b)) && b == p.bump
    &&& p.owner == owner
    &&& p.transfer_authority == transfer_authority
    &&& p.deactivate_authority == deactivate_authority
    &&& padded_targets(p.allowed_transfer_targets, targets)
}

/// Why `proxy_transfer` fails on record `p`, or `None` where it succeeds.
pub open spec fn transfer_error(p: DelegateProxy, accounts: ProxyTransfer, program_id: Seq<u8>) -> Option<Errors> {
    if !address_matches(accounts.delegate_proxy@, accounts.transfer_authority@, p.bump, program_id) {
        Some(Errors::WrongParameters)
    } else if p.transfer_authority@ != accounts.transfer_authority@ {
        Some(Errors::UnknownAccount)
    } else if !p.allows(accounts.to.key@) {
        Some(Errors::UnknownAccount)
    } else if !p.active {
        Some(Errors::DeactivatedProxy)
    } else if accounts.to.mint@ != accounts.from.mint@ {
        Some(Errors::MintsMismatch)
    } else {
        None
    }
}

/// Why `proxy_approve` fails on record `p`, or `None` where it succeeds.
///
/// A signer other than the record's owner is refused with `WrongParameters`.
pub open spec fn approve_error(p: DelegateProxy, accounts: ProxyApprove, program_id: Seq<u8>) -> Option<Errors> {
    if accounts.owner@ != p.owner@ {
        Some(Errors::WrongParameters)
    } else if !address_matches(accounts.delegate_proxy@, accounts.transfer_authority@, p.bump, program_id) {
        Some(Errors::WrongParameters)
    } else {
        None
    }
}

/// Why `deactivate` fails on record `p`, or `None` where it succeeds.
pub open spec fn deactivate_error(p: DelegateProxy, accounts: Deactivate, program_id: Seq<u8>) -> Option<Errors> {
    if p.deactivate_authority@ != accounts.signer@ && p.owner@ != accounts.signer@ {
        Some(Errors::WrongDeactivateAccount)
    } else if !address_matches(accounts.delegate_proxy@, accounts.transfer_authority@, p.bump, program_id) {
        Some(Errors::WrongParameters)
    } else {
        None
    }
}

/// Why `activate` fails on record `p`, or `None` where it succeeds.
pub open spec fn activate_error(p: DelegateProxy, accounts: Activate, program_id: Seq<u8>) -> Option<Errors> {
    if p.owner@ != accounts.signer@ {
        Some(Errors::NotAllowedToActivate)
    } else if !address_matches(accounts.delegate_proxy@, accounts.transfer_authority@, p.bump, program_id) {
        Some(Errors::WrongParameters)
    } else {
        None
    }
}

/// Creates the delegation record of `transfer_authority`, owned by the
/// signer, with `remaining_accounts` as its allowed destinations.
///
/// The presented record address must be the canonical program address of
/// the namespace tag and `transfer_authority`; its bump is kept in the record.
pub fn initialize(
    accounts: &Initialize,
    transfer_authority: Address,
    deactivate_authority: Address,
    remaining_accounts: &Vec<Address>,
    program_id: &Address,
) -> (r: Result<DelegateProxy, Errors>)
    ensures
        match r {
            Ok(p) => {
                &&& initialize_error(*accounts, transfer_authority, deactivate_authority, remaining_accounts@, program_id@) is None
                &&& is_new_record(p, accounts.owner, transfer_authority, deactivate_authority, remaining_accounts@, program_id@)
            },
            Err(e) => initialize_error(*accounts, transfer_authority, deactivate_authority, remaining_accounts@, program_id@) == Some(e),
        },
{
    if accounts.owner == transfer_authority || accounts.owner == deactivate_authority
        || transfer_authority == deactivate_authority {
        return Err(Errors::SameAccounts);
    }
    let seeds = proxy_seed_prefix(&transfer_authority);
    let bump = match find_address(&seeds, program_id) {
        Some((key, bump)) => {
            if !(key == accounts.delegate_proxy) {
                return Err(Errors::WrongParameters);
            }
            bump
        },
        None => {
            return Err(Errors::WrongParameters);
        },
    };
    if remaining_accounts.len() < 1 {
        return Err(Errors::EmptyAllowList);
    }
    if remaining_accounts.len() > MAX_TARGETS {
        return Err(Errors::AllowListTooLong);
    }
    let allowed_transfer_targets = pad_targets(remaining_accounts);
    Ok(DelegateProxy {
        active: true,
        bump,
        owner: accounts.owner,
        transfer_authority,
        deactivate_authority,
        allowed_transfer_targets,
    })
}

/// Authorizes a transfer of `amount` from `accounts.from` to `accounts.to`
/// through record `proxy`, and returns the ledger instruction to execute.
pub fn proxy_transfer(
    proxy: &DelegateProxy,
    accounts: &ProxyTransfer,
    amount: u64,
    program_id: &Address,
) -> (r: Result<TransferInstruction, Errors>)
    ensures
        match r {
            Ok(ix) => {
                &&& transfer_error(*proxy, *accounts, program_id@) is None
                &&& ix.from == accounts.from.key
                &&& ix.to == accounts.to.key
                &&& ix.authority == accounts.delegate_proxy
                &&& ix.amount == amount
                &&& ix.signer_seeds.deep_view() == proxy_seeds(proxy.transfer_authority@, proxy.bump)
            },
            Err(e) => transfer_error(*proxy, *accounts, program_id@) == Some(e),
        },
{
    if !check_proxy_address(&accounts.delegate_proxy, &accounts.transfer_authority, proxy.bump, program_id) {
        return Err(Errors::WrongParameters);
    }
    if !(proxy.transfer_authority == accounts.transfer_authority) {
        return Err(Errors::UnknownAccount);
    }
    if !proxy.allows_target(&accounts.to.key) {
        return Err(Errors::UnknownAccount);
    }
    if !proxy.active {
        return Err(Errors::DeactivatedProxy);
    }
    if !(accounts.to.mint == accounts.from.mint) {
        return Err(Errors::MintsMismatch);
    }
    Ok(TransferInstruction {
        from: accounts.from.key,
        to: accounts.to.key,
        authority: accounts.delegate_proxy,
        amount,
        signer_seeds: proxy_signer_seeds(&proxy.transfer_authority, proxy.bump),
    })
}

/// Authorizes the record's owner to let record `proxy` spend `amount` out of
/// `accounts.token_account`, and returns the ledger instruction to execute.
/// A signer other than the record's owner gets `WrongParameters`. Allowed
/// whether or not the record is active.
pub fn proxy_approve(
    proxy: &DelegateProxy,
    accounts: &ProxyApprove,
    amount: u64,
    program_id: &Address,
) -> (r: Result<ApproveInstruction, Errors>)
    ensures
        match r {
            Ok(ix) => {
                &&& approve_error(*proxy, *accounts, program_id@) is None
                &&& ix.to == accounts.token_account
                &&& ix.delegate == accounts.delegate_proxy
                &&& ix.authority == accounts.owner
                &&& ix.amount == amount
                &&& ix.signer_seeds.deep_view() == proxy_seeds(proxy.transfer_authority@, proxy.bump)
            },
            Err(e) => approve_error(*proxy, *accounts, program_id@) == Some(e),
        },
{
    if !(accounts.owner == proxy.owner) {
        return Err(Errors::WrongParameters);
    }
    if !check_proxy_address(&accounts.delegate_proxy, &accounts.transfer_authority, proxy.bump, program_id) {
        return Err(Errors::WrongParameters);
    }
    Ok(ApproveInstruction {
        to: accounts.token_account,
        delegate: accounts.delegate_proxy,
        authority: accounts.owner,
        amount,
        signer_seeds: proxy_signer_seeds(&proxy.transfer_authority, proxy.bump),
    })
}

/// Suspends transfers through record `proxy`; the signer must be its
/// deactivate authority or its owner. On failure the record is unchanged.
pub fn deactivate(proxy: &mut DelegateProxy, accounts: &Deactivate, program_id: &Address) -> (r: Result<(), Errors>)
    ensures
        match r {
            Ok(_) => {
                &&& deactivate_error(*old(proxy), *accounts, program_id@) is None
                &&& *final(proxy) == old(proxy).with_active(false)
            },
            Err(e) => {
                &&& deactivate_error(*old(proxy), *accounts, program_id@) == Some(e)
                &&& *final(proxy) == *old(proxy)
            },
        },
{
    if !(proxy.deactivate_authority == accounts.signer) && !(proxy.owner == accounts.signer) {
        return Err(Errors::WrongDeactivateAccount);
    }
    if !check_proxy_address(&accounts.delegate_proxy, &accounts.transfer_authority, proxy.bump, program_id) {
        return Err(Errors::WrongParameters);
    }
    proxy.active = false;
    Ok(())
}

/// Resumes transfers through record `proxy`; the signer must be its owner.
/// On failure the record is unchanged.
pub fn activate(proxy: &mut DelegateProxy, accounts: &Activate, program_id: &Address) -> (r: Result<(), Errors>)
    ensures
        match r {
            Ok(_) => {
                &&& activate_error(*old(proxy), *accounts, program_id@) is None
                &&& *final(proxy) == old(proxy).with_active(true)
            },
            Err(e) => {
                &&& activate_error(*old(proxy), *accounts, program_id@) == Some(e)
                &&& *final(proxy) == *old(proxy)
            },
        },
{
    if !(proxy.owner == accounts.signer) {
        return Err(Errors::NotAllowedToActivate);
    }
    if !check_proxy_address(&accounts.delegate_proxy, &accounts.transfer_authority, proxy.bump, program_id) {
        return Err(Errors::WrongParameters);
    }
    proxy.active = true;
    Ok(())
}

} // verus!
