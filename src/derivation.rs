use vstd::prelude::*;
use crate::address::Address;
use anchor_lang::prelude::Pubkey;

verus! {

/// The program address derived from `seeds` under `program_id`, or `None`
/// where no such address exists (a seed too long, too many seeds, or a hash
/// that lies on the ed25519 curve).
pub uninterp spec fn program_address(seeds: Seq<Seq<u8>>, program_id: Seq<u8>) -> Option<Seq<u8>>;

/// `bump` appended to `seeds` gives a program address.
pub open spec fn bump_derives(seeds: Seq<Seq<u8>>, program_id: Seq<u8>, bump: u8) -> bool {
    program_address(seeds.push(seq![bump]), program_id) is Some
}

/// `bump` is the largest bump from 1 upwards that gives a program address.
pub open spec fn is_canonical_bump(seeds: Seq<Seq<u8>>, program_id: Seq<u8>, bump: u8) -> bool {
    &&& 1 <= bump
    &&& bump_derives(seeds, program_id, bump)
    &&& forall|c: u8| bump < c ==> !#[trigger] bump_derives(seeds, program_id, c)
}

/// The canonical address and bump for `seeds`, if any bump gives an address.
pub open spec fn canonical_address(seeds: Seq<Seq<u8>>, program_id: Seq<u8>) -> Option<(Seq<u8>, u8)> {
    if exists|b: u8| is_canonical_bump(seeds, program_id, b) {
        let b = choose|b: u8| is_canonical_bump(seeds, program_id, b);
        Some((program_address(seeds.push(seq![b]), program_id)->0, b))
    } else {
        None
    }
}

/// Relies on `Pubkey::create_program_address`: the address is a function of
/// the seeds and the program id; any error is reported here as `None`.
#[verifier::external_body]
pub(crate) fn create_program_address(seeds: &Vec<Vec<u8>>, program_id: &Address) -> (r: Option<Address>)
    ensures
        match r {
            Some(k) => program_address(seeds.deep_view(), program_id@) == Some(k@),
            None => program_address(seeds.deep_view(), program_id@) is None,
        },
{
    let parts: Vec<&[u8]> = seeds.iter().map(|s| s.as_slice()).collect();
    let pid = Pubkey::new_from_array(program_id.bytes);
    match Pubkey::create_program_address(&parts, &pid) {
        Ok(k) => Some(Address { bytes: k.to_bytes() }),
        Err(_) => None,
    }
}

/// Relies on `Pubkey::try_find_program_address`: it appends the bumps 255,
/// 254, ..., 1 in turn as a last seed and returns the first that
/// `create_program_address` accepts, with its address; `None` if none does.
#[verifier::external_body]
fn try_find_program_address(seeds: &Vec<Vec<u8>>, program_id: &Address) -> (r: Option<(Address, u8)>)
    ensures
        match r {
            Some((k, b)) => {
                &&& is_canonical_bump(seeds.deep_view(), program_id@, b)
                &&& program_address(seeds.deep_view().push(seq![b]), program_id@) == Some(k@)
            },
            None => forall|c: u8| 1 <= c ==> !#[trigger] bump_derives(seeds.deep_view(), program_id@, c),
        },
{
    let parts: Vec<&[u8]> = seeds.iter().map(|s| s.as_slice()).collect();
    let pid = Pubkey::new_from_array(program_id.bytes);
    match Pubkey::try_find_program_address(&parts, &pid) {
        Some((k, b)) => Some((Address { bytes: k.to_bytes() }, b)),
        None => None,
    }
}

proof fn lemma_canonical_unique(seeds: Seq<Seq<u8>>, program_id: Seq<u8>, b1: u8, b2: u8)
    requires
        is_canonical_bump(seeds, program_id, b1),
        is_canonical_bump(seeds, program_id, b2),
    ensures
        b1 == b2,
{
    if b1 < b2 {
        assert(bump_derives(seeds, program_id, b2));
    } else if b2 < b1 {
        assert(bump_derives(seeds, program_id, b1));
    }
}

/// The canonical address and bump of `seeds`: the largest bump that gives an
/// address, and that address.
pub fn find_address(seeds: &Vec<Vec<u8>>, program_id: &Address) -> (r: Option<(Address, u8)>)
    ensures
        match r {
            Some((k, b)) => canonical_address(seeds.deep_view(), program_id@) == Some((k@, b)),
            None => canonical_address(seeds.deep_view(), program_id@) is None,
        },
{
    let r = try_find_program_address(seeds, program_id);
    proof {
        let s = seeds.deep_view();
        match r {
            Some((k, b)) => {
                let c = choose|c: u8| is_canonical_bump(s, program_id@, c);
                lemma_canonical_unique(s, program_id@, b, c);
            },
            None => {
                assert forall|c: u8| !is_canonical_bump(s, program_id@, c) by {
                    if 1 <= c {
                        assert(!bump_derives(s, program_id@, c));
                    }
                }
            },
        }
    }
    r
}

} // verus!
