use vstd::prelude::*;
use crate::address::{Address, zero_bytes};
use crate::derivation::{program_address, canonical_address, create_program_address};

verus! {

/// The most destinations a record allows.
pub const MAX_TARGETS: usize = 10;

/// A delegation record: who owns it, who may transfer through it, who may
/// suspend it, whether transfers are allowed now, and where they may go.
///
/// The record lives at the program address derived from the namespace tag
/// and the transfer authority, with `bump` as the last seed.
#[derive(Clone, Copy, Debug)]
pub struct DelegateProxy {
    pub active: bool,
    pub bump: u8,
    pub owner: Address,
    pub transfer_authority: Address,
    pub deactivate_authority: Address,
    /// The allowed destinations, padded to the end with the zero identity.
    pub allowed_transfer_targets: [Address; 10],
}

impl DelegateProxy {
    /// The namespace tag, the first seed of every record address: the ASCII
    /// bytes of `delegate-proxy`.
    pub const DELEGATE_PROXY_SEED: [u8; 14] = [
        100, 101, 108, 101, 103, 97, 116, 101, 45, 112, 114, 111, 120, 121,
    ];

    /// Bytes a record takes in account storage, its 8-byte discriminator included.
    pub const LEN: usize = 8 + 1 + 1 + 32 + 32 + 32 + (32 * 10);

    /// `to` is an allowed destination of the record: it stands in one of the
    /// ten slots and is not the zero identity, the sentinel of an unused slot.
    /// A zero entry in the list supplied at creation is read as a sentinel too.
    pub open spec fn allows(self, to: Seq<u8>) -> bool {
        &&& to != zero_bytes()
        &&& exists|i: int| 0 <= i < 10 && (#[trigger] self.allowed_transfer_targets@[i])@ == to
    }

    /// The record with `active` set to `flag` and all else kept.
    pub open spec fn with_active(self, flag: bool) -> DelegateProxy {
        DelegateProxy { active: flag, ..self }
    }

    /// Whether `to` is an allowed destination of the record.
    pub fn allows_target(&self, to: &Address) -> (r: bool)
        ensures
            r == self.allows(to@),
    {
        if *to == Address::zero() {
            return false;
        }
        let mut i: usize = 0;
        while i < MAX_TARGETS
            invariant
                i <= MAX_TARGETS,
                to@ != zero_bytes(),
                forall|j: int| 0 <= j < i ==> (#[trigger] self.allowed_transfer_targets@[j])@ != to@,
            decreases MAX_TARGETS - i,
        {
            if self.allowed_transfer_targets[i] == *to {
                return true;
            }
            i = i + 1;
        }
        false
    }
}

/// The namespace tag as a sequence.
pub open spec fn seed_tag() -> Seq<u8> {
    DelegateProxy::DELEGATE_PROXY_SEED@
}

/// The seeds that locate the record of `transfer_authority`, bump not included.
pub open spec fn seed_prefix(transfer_authority: Seq<u8>) -> Seq<Seq<u8>> {
    seq![seed_tag(), transfer_authority]
}

/// The seeds that sign for the record of `transfer_authority`.
pub open spec fn proxy_seeds(transfer_authority: Seq<u8>, bump: u8) -> Seq<Seq<u8>> {
    seq![seed_tag(), transfer_authority, seq![bump]]
}

/// `key` is the address derived for `transfer_authority` with `bump`.
pub open spec fn address_matches(key: Seq<u8>, transfer_authority: Seq<u8>, bump: u8, program_id: Seq<u8>) -> bool {
    program_address(proxy_seeds(transfer_authority, bump), program_id) == Some(key)
}

/// `key` is the canonical address for `transfer_authority`.
pub open spec fn is_canonical_address(key: Seq<u8>, transfer_authority: Seq<u8>, program_id: Seq<u8>) -> bool {
    match canonical_address(seed_prefix(transfer_authority), program_id) {
        Some((k, _)) => k == key,
        None => false,
    }
}

/// The namespace tag as a vector.
pub fn seed_tag_vec() -> (r: Vec<u8>)
    ensures
        r@ == seed_tag(),
{
    let tag = DelegateProxy::DELEGATE_PROXY_SEED;
    let mut r: Vec<u8> = Vec::new();
    let mut i: usize = 0;
    while i < 14
        invariant
            i <= 14,
            tag@ == seed_tag(),
            r@ == tag@.subrange(0, i as int),
        decreases 14 - i,
    {
        r.push(tag[i]);
        i = i + 1;
        assert(r@ =~= tag@.subrange(0, i as int));
    }
    assert(r@ =~= tag@);
    r
}

/// The seeds that locate the record of `transfer_authority`, bump not included.
pub fn proxy_seed_prefix(transfer_authority: &Address) -> (r: Vec<Vec<u8>>)
    ensures
        r.deep_view() == seed_prefix(transfer_authority@),
{
    let mut r: Vec<Vec<u8>> = Vec::new();
    r.push(seed_tag_vec());
    r.push(transfer_authority.to_vec());
    assert(r.deep_view() =~~= seed_prefix(transfer_authority@));
    r
}

/// The seeds with which the record of `transfer_authority` signs.
pub fn proxy_signer_seeds(transfer_authority: &Address, bump: u8) -> (r: Vec<Vec<u8>>)
    ensures
        r.deep_view() == proxy_seeds(transfer_authority@, bump),
{
    let mut b: Vec<u8> = Vec::new();
    b.push(bump);
    assert(b@ =~= seq![bump]);
    let mut r: Vec<Vec<u8>> = Vec::new();
    r.push(seed_tag_vec());
    r.push(transfer_authority.to_vec());
    r.push(b);
    assert(r.deep_view() =~~= proxy_seeds(transfer_authority@, bump));
    r
}

/// Whether `key` is the record address of `transfer_authority` with `bump`.
pub fn check_proxy_address(key: &Address, transfer_authority: &Address, bump: u8, program_id: &Address) -> (r: bool)
    ensures
        r == address_matches(key@, transfer_authority@, bump, program_id@),
{
    let seeds = proxy_signer_seeds(transfer_authority, bump);
    match create_program_address(&seeds, program_id) {
        Some(k) => k == *key,
        None => false,
    }
}

/// The zero identity in every slot but the first `targets.len()`, which hold
/// `targets` in order.
pub open spec fn padded_targets(slots: [Address; 10], targets: Seq<Address>) -> bool {
    forall|i: int|
        0 <= i < 10 ==> if i < targets.len() {
            #[trigger] slots@[i] == targets[i]
        } else {
            slots@[i]@ == zero_bytes()
        }
}

/// The allow-list `targets` laid out in the record's ten slots.
pub fn pad_targets(targets: &Vec<Address>) -> (r: [Address; 10])
    requires
        targets@.len() <= 10,
    ensures
        padded_targets(r, targets@),
{
    let mut slots: [Address; 10] = [Address::zero(); 10];
    let mut i: usize = 0;
    while i < targets.len()
        invariant
            i <= targets@.len() <= 10,
            forall|j: int| 0 <= j < i ==> #[trigger] slots@[j] == targets@[j],
            forall|j: int| i <= j < 10 ==> (#[trigger] slots@[j])@ == zero_bytes(),
        decreases targets@.len() - i,
    {
        slots[i] = targets[i];
        i = i + 1;
    }
    slots
}

} // verus!
