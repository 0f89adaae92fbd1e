//! Properties of the operations, proved over the spec functions that their
//! contracts are stated in.
use vstd::prelude::*;
use crate::address::{Address, zero_bytes};
use crate::errors::Errors;
use crate::delegate_proxy::{DelegateProxy, address_matches, is_canonical_address, proxy_seeds, seed_prefix};
use crate::derivation::{canonical_address, is_canonical_bump, program_address};
use crate::program::{
    Activate, Deactivate, Initialize, ProxyTransfer, activate_error, deactivate_error, initialize_error,
    is_new_record, transfer_error,
};

verus! {

/// With three distinct principals, the canonical record address and one to
/// ten destinations, `initialize` succeeds, and the record it creates is
/// active and holds exactly those destinations in its first slots.
pub proof fn lemma_initialize_valid(
    accounts: Initialize,
    transfer_authority: Address,
    deactivate_authority: Address,
    targets: Seq<Address>,
    program_id: Seq<u8>,
    p: DelegateProxy,
)
    requires
        accounts.owner@ != transfer_authority@,
        accounts.owner@ != deactivate_authority@,
        transfer_authority@ != deactivate_authority@,
        is_canonical_address(accounts.delegate_proxy@, transfer_authority@, program_id),
        1 <= targets.len() <= 10,
        is_new_record(p, accounts.owner, transfer_authority, deactivate_authority, targets, program_id),
    ensures
        initialize_error(accounts, transfer_authority, deactivate_authority, targets, program_id) is None,
        p.active,
        forall|i: int| 0 <= i < targets.len() ==> #[trigger] p.allowed_transfer_targets@[i] == targets[i],
{
    assert forall|i: int| 0 <= i < targets.len() implies #[trigger] p.allowed_transfer_targets@[i] == targets[i] by {
        assert(0 <= i < 10);
    }
}

/// With distinct principals and the canonical record address, an empty list
/// of destinations fails with `EmptyAllowList` and one of more than ten with
/// `AllowListTooLong`.
pub proof fn lemma_initialize_list_bounds(
    accounts: Initialize,
    transfer_authority: Address,
    deactivate_authority: Address,
    targets: Seq<Address>,
    program_id: Seq<u8>,
)
    requires
        accounts.owner@ != transfer_authority@,
        accounts.owner@ != deactivate_authority@,
        transfer_authority@ != deactivate_authority@,
        is_canonical_address(accounts.delegate_proxy@, transfer_authority@, program_id),
    ensures
        targets.len() == 0 ==> initialize_error(accounts, transfer_authority, deactivate_authority, targets, program_id)
            == Some(Errors::EmptyAllowList),
        targets.len() > 10 ==> initialize_error(accounts, transfer_authority, deactivate_authority, targets, program_id)
            == Some(Errors::AllowListTooLong),
{
}

/// Where any two of owner, transfer authority and deactivate authority
/// coincide, `initialize` fails with `SameAccounts`.
pub proof fn lemma_initialize_same_accounts(
    accounts: Initialize,
    transfer_authority: Address,
    deactivate_authority: Address,
    targets: Seq<Address>,
    program_id: Seq<u8>,
)
    requires
        accounts.owner@ == transfer_authority@ || accounts.owner@ == deactivate_authority@
            || transfer_authority@ == deactivate_authority@,
    ensures
        initialize_error(accounts, transfer_authority, deactivate_authority, targets, program_id)
            == Some(Errors::SameAccounts),
{
}

/// A transfer through an active record, signed by its transfer authority at
/// the record's own address, to an allowed destination of the same asset,
/// succeeds.
pub proof fn lemma_transfer_allowed(p: DelegateProxy, accounts: ProxyTransfer, program_id: Seq<u8>)
    requires
        address_matches(accounts.delegate_proxy@, accounts.transfer_authority@, p.bump, program_id),
        p.transfer_authority@ == accounts.transfer_authority@,
        p.allows(accounts.to.key@),
        p.active,
        accounts.to.mint@ == accounts.from.mint@,
    ensures
        transfer_error(p, accounts, program_id) is None,
{
}

/// A transfer at the record's own address to a destination that the record
/// does not allow fails with `UnknownAccount`, whatever the record's state.
pub proof fn lemma_transfer_unknown_target(p: DelegateProxy, accounts: ProxyTransfer, program_id: Seq<u8>)
    requires
        address_matches(accounts.delegate_proxy@, accounts.transfer_authority@, p.bump, program_id),
        !p.allows(accounts.to.key@),
    ensures
        transfer_error(p, accounts, program_id) == Some(Errors::UnknownAccount),
{
}

/// A transfer at the record's own address to the zero identity, the sentinel
/// of an unused allow-list slot, fails with `UnknownAccount`.
pub proof fn lemma_transfer_to_unused_slot(p: DelegateProxy, accounts: ProxyTransfer, program_id: Seq<u8>)
    requires
        address_matches(accounts.delegate_proxy@, accounts.transfer_authority@, p.bump, program_id),
        accounts.to.key@ == zero_bytes(),
    ensures
        transfer_error(p, accounts, program_id) == Some(Errors::UnknownAccount),
{
}

/// A transfer through an inactive record fails with `DeactivatedProxy`, even
/// by its transfer authority to an allowed destination.
pub proof fn lemma_transfer_deactivated(p: DelegateProxy, accounts: ProxyTransfer, program_id: Seq<u8>)
    requires
        address_matches(accounts.delegate_proxy@, accounts.transfer_authority@, p.bump, program_id),
        p.transfer_authority@ == accounts.transfer_authority@,
        p.allows(accounts.to.key@),
        !p.active,
    ensures
        transfer_error(p, accounts, program_id) == Some(Errors::DeactivatedProxy),
{
}

/// After a successful `deactivate` and then a successful `activate`, a
/// transfer between accounts of the same asset that failed with
/// `DeactivatedProxy` succeeds with the same arguments.
pub proof fn lemma_reactivation_restores_transfer(
    p: DelegateProxy,
    off: Deactivate,
    on: Activate,
    accounts: ProxyTransfer,
    program_id: Seq<u8>,
)
    requires
        deactivate_error(p, off, program_id) is None,
        activate_error(p.with_active(false), on, program_id) is None,
        transfer_error(p.with_active(false), accounts, program_id) == Some(Errors::DeactivatedProxy),
        accounts.to.mint@ == accounts.from.mint@,
    ensures
        transfer_error(p.with_active(false).with_active(true), accounts, program_id) is None,
{
    let q = p.with_active(false).with_active(true);
    assert(q.allowed_transfer_targets == p.with_active(false).allowed_transfer_targets);
    if !q.allows(accounts.to.key@) {
        assert(!p.with_active(false).allows(accounts.to.key@));
    }
}

/// `deactivate` by a signer that is neither the owner nor the deactivate
/// authority fails with `WrongDeactivateAccount`.
pub proof fn lemma_deactivate_unauthorized(p: DelegateProxy, accounts: Deactivate, program_id: Seq<u8>)
    requires
        accounts.signer@ != p.owner@,
        accounts.signer@ != p.deactivate_authority@,
    ensures
        deactivate_error(p, accounts, program_id) == Some(Errors::WrongDeactivateAccount),
{
}

/// `activate` by a signer other than the owner fails with `NotAllowedToActivate`.
pub proof fn lemma_activate_unauthorized(p: DelegateProxy, accounts: Activate, program_id: Seq<u8>)
    requires
        accounts.signer@ != p.owner@,
    ensures
        activate_error(p, accounts, program_id) == Some(Errors::NotAllowedToActivate),
{
}

/// The address at which `initialize` created a record is the one that every
/// later operation re-derives from the same transfer authority and the bump
/// kept in the record.
pub proof fn lemma_rederived_address(
    key: Seq<u8>,
    p: DelegateProxy,
    owner: Address,
    transfer_authority: Address,
    deactivate_authority: Address,
    targets: Seq<Address>,
    program_id: Seq<u8>,
)
    requires
        is_canonical_address(key, transfer_authority@, program_id),
        is_new_record(p, owner, transfer_authority, deactivate_authority, targets, program_id),
    ensures
        address_matches(key, transfer_authority@, p.bump, program_id),
        address_matches(key, p.transfer_authority@, p.bump, program_id),
{
    let s = seed_prefix(transfer_authority@);
    let b = choose|b: u8| is_canonical_bump(s, program_id, b);
    assert(canonical_address(s, program_id) == Some((
        program_address(s.push(seq![b]), program_id)->0, b)));
    assert(s.push(seq![b]) =~= proxy_seeds(transfer_authority@, b));
}

/// Distinct transfer authorities locate their records with distinct seeds,
/// whatever the bumps.
pub proof fn lemma_distinct_authorities_distinct_seeds(
    a: Address,
    b: Address,
    bump_a: u8,
    bump_b: u8,
)
    requires
        a@ != b@,
    ensures
        proxy_seeds(a@, bump_a) != proxy_seeds(b@, bump_b),
        seed_prefix(a@) != seed_prefix(b@),
{
    assert(proxy_seeds(a@, bump_a)[1] == a@);
    assert(proxy_seeds(b@, bump_b)[1] == b@);
    assert(seed_prefix(a@)[1] == a@);
    assert(seed_prefix(b@)[1] == b@);
}

} // verus!
