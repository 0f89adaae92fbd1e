use anchor_lang::prelude::Pubkey;
use delegate_proxy::delegate_proxy::{check_proxy_address, proxy_seed_prefix, proxy_signer_seeds};
use delegate_proxy::derivation::find_address;
use delegate_proxy::{
    activate, deactivate, initialize, proxy_approve, proxy_transfer, Activate, Address, Deactivate,
    DelegateProxy, Errors, Initialize, LedgerAccount, ProxyApprove, ProxyTransfer,
};

fn addr(b: u8) -> Address {
    Address::new([b; 32])
}

fn program_id() -> Address {
    addr(200)
}

fn pda(ta: &Address) -> (Address, u8) {
    find_address(&proxy_seed_prefix(ta), &program_id()).expect("a bump exists")
}

const OWNER: u8 = 1;
const TA: u8 = 2;
const DA: u8 = 3;
const X: u8 = 10;
const MINT: u8 = 50;

fn init_with(targets: Vec<Address>) -> Result<DelegateProxy, Errors> {
    let (key, _) = pda(&addr(TA));
    let accounts = Initialize { owner: addr(OWNER), delegate_proxy: key };
    initialize(&accounts, addr(TA), addr(DA), &targets, &program_id())
}

fn record() -> DelegateProxy {
    init_with(vec![addr(X)]).expect("valid initialization")
}

fn transfer_accounts(to: u8, to_mint: u8) -> ProxyTransfer {
    let (key, _) = pda(&addr(TA));
    ProxyTransfer {
        transfer_authority: addr(TA),
        delegate_proxy: key,
        from: LedgerAccount { key: addr(20), mint: addr(MINT) },
        to: LedgerAccount { key: addr(to), mint: addr(to_mint) },
    }
}

fn deactivate_accounts(signer: u8) -> Deactivate {
    Deactivate { signer: addr(signer), transfer_authority: addr(TA), delegate_proxy: pda(&addr(TA)).0 }
}

fn activate_accounts(signer: u8) -> Activate {
    Activate { signer: addr(signer), transfer_authority: addr(TA), delegate_proxy: pda(&addr(TA)).0 }
}

#[test]
fn derivation_matches_solana() {
    let pid = Pubkey::new_from_array(program_id().bytes);
    let ta = addr(TA);
    let (expected, expected_bump) =
        Pubkey::find_program_address(&[b"delegate-proxy", ta.bytes.as_ref()], &pid);
    let (key, bump) = pda(&ta);
    assert_eq!(key.bytes, expected.to_bytes());
    assert_eq!(bump, expected_bump);
    assert_ne!(key, program_id());
    assert!(check_proxy_address(&key, &ta, bump, &program_id()));
    assert!(!check_proxy_address(&program_id(), &ta, bump, &program_id()));
}

#[test]
fn derivation_is_deterministic_and_distinct() {
    assert_eq!(pda(&addr(TA)), pda(&addr(TA)));
    assert_ne!(pda(&addr(TA)).0, pda(&addr(DA)).0);
}

#[test]
fn signer_seeds_hold_tag_authority_and_bump() {
    let seeds = proxy_signer_seeds(&addr(TA), 254);
    assert_eq!(seeds, vec![b"delegate-proxy".to_vec(), vec![TA; 32], vec![254u8]]);
    assert_eq!(DelegateProxy::DELEGATE_PROXY_SEED.to_vec(), b"delegate-proxy".to_vec());
    assert_eq!(DelegateProxy::LEN, 426);
}

#[test]
fn initialize_creates_active_record() {
    let targets = vec![addr(X), addr(11), addr(12)];
    let p = init_with(targets.clone()).unwrap();
    assert!(p.active);
    assert_eq!(p.bump, pda(&addr(TA)).1);
    assert_eq!(p.owner, addr(OWNER));
    assert_eq!(p.transfer_authority, addr(TA));
    assert_eq!(p.deactivate_authority, addr(DA));
    assert_eq!(&p.allowed_transfer_targets[..3], &targets[..]);
    for slot in &p.allowed_transfer_targets[3..] {
        assert_eq!(*slot, Address::default());
    }
}

#[test]
fn initialize_accepts_ten_targets() {
    let targets: Vec<Address> = (0..10u8).map(|i| addr(100 + i)).collect();
    let p = init_with(targets.clone()).unwrap();
    assert_eq!(p.allowed_transfer_targets.to_vec(), targets);
}

#[test]
fn initialize_empty_allow_list() {
    assert_eq!(init_with(vec![]).unwrap_err(), Errors::EmptyAllowList);
}

#[test]
fn initialize_allow_list_too_long() {
    let targets: Vec<Address> = (0..11u8).map(|i| addr(100 + i)).collect();
    assert_eq!(init_with(targets).unwrap_err(), Errors::AllowListTooLong);
}

#[test]
fn initialize_same_accounts() {
    let targets = vec![addr(X)];
    let cases = [(OWNER, OWNER, DA), (OWNER, TA, OWNER), (OWNER, TA, TA)];
    for (owner, ta, da) in cases {
        let accounts = Initialize { owner: addr(owner), delegate_proxy: pda(&addr(ta)).0 };
        let r = initialize(&accounts, addr(ta), addr(da), &targets, &program_id());
        assert_eq!(r.unwrap_err(), Errors::SameAccounts);
    }
}

#[test]
fn initialize_wrong_record_address() {
    let accounts = Initialize { owner: addr(OWNER), delegate_proxy: pda(&addr(DA)).0 };
    let r = initialize(&accounts, addr(TA), addr(DA), &vec![addr(X)], &program_id());
    assert_eq!(r.unwrap_err(), Errors::WrongParameters);
}

#[test]
fn proxy_transfer_to_listed_target() {
    let p = record();
    let accounts = transfer_accounts(X, MINT);
    let ix = proxy_transfer(&p, &accounts, 50, &program_id()).unwrap();
    assert_eq!(ix.from, addr(20));
    assert_eq!(ix.to, addr(X));
    assert_eq!(ix.authority, pda(&addr(TA)).0);
    assert_eq!(ix.amount, 50);
    assert_eq!(ix.signer_seeds, vec![b"delegate-proxy".to_vec(), vec![TA; 32], vec![p.bump]]);
}

#[test]
fn proxy_transfer_unlisted_target() {
    let mut p = record();
    let accounts = transfer_accounts(11, MINT);
    assert_eq!(proxy_transfer(&p, &accounts, 1, &program_id()).unwrap_err(), Errors::UnknownAccount);
    deactivate(&mut p, &deactivate_accounts(DA), &program_id()).unwrap();
    assert_eq!(proxy_transfer(&p, &accounts, 1, &program_id()).unwrap_err(), Errors::UnknownAccount);
}

#[test]
fn proxy_transfer_to_unused_slot() {
    let p = record();
    let mut accounts = transfer_accounts(X, MINT);
    accounts.to = LedgerAccount { key: Address::zero(), mint: addr(MINT) };
    assert_eq!(proxy_transfer(&p, &accounts, 1, &program_id()).unwrap_err(), Errors::UnknownAccount);
}

#[test]
fn proxy_transfer_by_other_authority() {
    let mut p = record();
    p.transfer_authority = addr(4);
    let accounts = transfer_accounts(X, MINT);
    assert_eq!(proxy_transfer(&p, &accounts, 1, &program_id()).unwrap_err(), Errors::UnknownAccount);
}

#[test]
fn proxy_transfer_wrong_record_address() {
    let p = record();
    let mut accounts = transfer_accounts(X, MINT);
    accounts.transfer_authority = addr(DA);
    assert_eq!(proxy_transfer(&p, &accounts, 1, &program_id()).unwrap_err(), Errors::WrongParameters);
}

#[test]
fn proxy_transfer_while_deactivated() {
    let mut p = record();
    deactivate(&mut p, &deactivate_accounts(DA), &program_id()).unwrap();
    assert!(!p.active);
    let accounts = transfer_accounts(X, MINT);
    assert_eq!(proxy_transfer(&p, &accounts, 1, &program_id()).unwrap_err(), Errors::DeactivatedProxy);
}

#[test]
fn proxy_transfer_mints_mismatch() {
    let p = record();
    let accounts = transfer_accounts(X, MINT + 1);
    assert_eq!(proxy_transfer(&p, &accounts, 1, &program_id()).unwrap_err(), Errors::MintsMismatch);
}

#[test]
fn reactivation_restores_transfer() {
    let mut p = record();
    let accounts = transfer_accounts(X, MINT);
    deactivate(&mut p, &deactivate_accounts(OWNER), &program_id()).unwrap();
    assert_eq!(proxy_transfer(&p, &accounts, 7, &program_id()).unwrap_err(), Errors::DeactivatedProxy);
    activate(&mut p, &activate_accounts(OWNER), &program_id()).unwrap();
    assert!(p.active);
    assert_eq!(proxy_transfer(&p, &accounts, 7, &program_id()).unwrap().amount, 7);
}

#[test]
fn deactivate_by_stranger() {
    let mut p = record();
    for signer in [TA, 99] {
        let r = deactivate(&mut p, &deactivate_accounts(signer), &program_id());
        assert_eq!(r.unwrap_err(), Errors::WrongDeactivateAccount);
        assert!(p.active);
    }
}

#[test]
fn deactivate_is_idempotent() {
    let mut p = record();
    deactivate(&mut p, &deactivate_accounts(DA), &program_id()).unwrap();
    deactivate(&mut p, &deactivate_accounts(DA), &program_id()).unwrap();
    assert!(!p.active);
}

#[test]
fn deactivate_wrong_record_address() {
    let mut p = record();
    let mut accounts = deactivate_accounts(DA);
    accounts.transfer_authority = addr(OWNER);
    assert_eq!(deactivate(&mut p, &accounts, &program_id()).unwrap_err(), Errors::WrongParameters);
    assert!(p.active);
}

#[test]
fn activate_by_non_owner() {
    let mut p = record();
    deactivate(&mut p, &deactivate_accounts(DA), &program_id()).unwrap();
    for signer in [DA, TA, 99] {
        let r = activate(&mut p, &activate_accounts(signer), &program_id());
        assert_eq!(r.unwrap_err(), Errors::NotAllowedToActivate);
        assert!(!p.active);
    }
}

#[test]
fn activate_is_idempotent() {
    let mut p = record();
    activate(&mut p, &activate_accounts(OWNER), &program_id()).unwrap();
    assert!(p.active);
}

#[test]
fn proxy_approve_while_deactivated() {
    let mut p = record();
    deactivate(&mut p, &deactivate_accounts(DA), &program_id()).unwrap();
    let accounts = ProxyApprove {
        owner: addr(OWNER),
        transfer_authority: addr(TA),
        delegate_proxy: pda(&addr(TA)).0,
        token_account: addr(20),
    };
    let ix = proxy_approve(&p, &accounts, 500, &program_id()).unwrap();
    assert_eq!(ix.to, addr(20));
    assert_eq!(ix.delegate, pda(&addr(TA)).0);
    assert_eq!(ix.authority, addr(OWNER));
    assert_eq!(ix.amount, 500);
    assert_eq!(ix.signer_seeds, vec![b"delegate-proxy".to_vec(), vec![TA; 32], vec![p.bump]]);
}

#[test]
fn proxy_approve_by_non_owner() {
    let p = record();
    for signer in [TA, DA, 99] {
        let accounts = ProxyApprove {
            owner: addr(signer),
            transfer_authority: addr(TA),
            delegate_proxy: pda(&addr(TA)).0,
            token_account: addr(20),
        };
        assert_eq!(proxy_approve(&p, &accounts, 5, &program_id()).unwrap_err(), Errors::WrongParameters);
    }
}

#[test]
fn proxy_approve_wrong_record_address() {
    let p = record();
    let accounts = ProxyApprove {
        owner: addr(OWNER),
        transfer_authority: addr(TA),
        delegate_proxy: addr(77),
        token_account: addr(20),
    };
    assert_eq!(proxy_approve(&p, &accounts, 5, &program_id()).unwrap_err(), Errors::WrongParameters);
}

#[test]
fn owner_deactivates_and_reactivates_scenario() {
    let a = 20u8;
    let mut balances = std::collections::HashMap::new();
    balances.insert(addr(a), 100u64);
    balances.insert(addr(X), 0u64);
    let apply = |ix: &delegate_proxy::TransferInstruction, b: &mut std::collections::HashMap<Address, u64>| {
        *b.get_mut(&ix.from).unwrap() -= ix.amount;
        *b.get_mut(&ix.to).unwrap() += ix.amount;
    };
    let mut p = record();
    let accounts = transfer_accounts(X, MINT);
    let ix = proxy_transfer(&p, &accounts, 50, &program_id()).unwrap();
    apply(&ix, &mut balances);
    assert_eq!(balances[&addr(a)], 50);
    assert_eq!(balances[&addr(X)], 50);
    deactivate(&mut p, &deactivate_accounts(DA), &program_id()).unwrap();
    assert!(!p.active);
    assert_eq!(proxy_transfer(&p, &accounts, 50, &program_id()).unwrap_err(), Errors::DeactivatedProxy);
    activate(&mut p, &activate_accounts(OWNER), &program_id()).unwrap();
    assert!(p.active);
    let ix = proxy_transfer(&p, &accounts, 50, &program_id()).unwrap();
    apply(&ix, &mut balances);
    assert_eq!(balances[&addr(a)], 0);
    assert_eq!(balances[&addr(X)], 100);
}

#[test]
fn error_messages() {
    assert_eq!(Errors::DeactivatedProxy.message(), "Proxy is deactivated");
    assert_eq!(Errors::SameAccounts.message(), "Transfer authority should be different from Deactivate authority");
    assert_eq!(Errors::NotAllowedToActivate.message(), "Not allowed to activate");
}

#[test]
fn address_bytes_and_equality() {
    let a = Address::new([3u8; 32]);
    assert_eq!(a.to_vec(), vec![3u8; 32]);
    assert_eq!(Address::zero(), Address::default());
    let mut b = a;
    b.bytes[31] = 4;
    assert_ne!(a, b);
}
