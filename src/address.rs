//! Address derivation: the seed conventions of each cell kind, and the calls
//! into the runtime's derivation that turn seeds into addresses.
use vstd::prelude::*;

use crate::codec::{be_u64, lemma_be_u64_injective, u64_to_be_bytes};
use crate::state::{comment_tag, StudComment};

verus! {

/// The address (and bump) that the runtime derives from `seeds` for the
/// program `program_id`; `None` when no bump gives an address off the curve.
pub uninterp spec fn program_address(seeds: Seq<Seq<u8>>, program_id: Seq<u8>) -> Option<(Seq<u8>, u8)>;

/// The associated token account of `wallet` for the token mint `mint`.
pub uninterp spec fn associated_token_address(wallet: Seq<u8>, mint: Seq<u8>) -> Seq<u8>;

/// Whether `key` is the token program's id.
pub uninterp spec fn is_token_program(key: Seq<u8>) -> bool;

/// Relies on solana_program's `Pubkey::try_find_program_address`: it scans bumps
/// from 255 down and returns the first address, with its bump, that the seeds
/// give off the curve, or `None`; the result depends on the seeds and the
/// program id alone, and the call does not panic.
#[verifier::external_body]
fn try_find_program_address(seeds: &Vec<Vec<u8>>, program_id: &[u8; 32]) -> (r: Option<([u8; 32], u8)>)
    ensures
        match r {
            Some((a, b)) => program_address(seeds.deep_view(), program_id@) == Some((a@, b)),
            None => program_address(seeds.deep_view(), program_id@) is None,
        },
{
    let refs: Vec<&[u8]> = seeds.iter().map(|s| s.as_slice()).collect();
    let id = solana_program::pubkey::Pubkey::new_from_array(*program_id);
    solana_program::pubkey::Pubkey::try_find_program_address(&refs, &id).map(|(a, b)| (a.to_bytes(), b))
}

/// Relies on spl_associated_token_account's `get_associated_token_address`: the
/// address derived from the wallet, the token program id and the mint, a
/// function of its two arguments. (It panics only if no bump yields an address,
/// which the runtime treats as impossible.)
#[verifier::external_body]
pub(crate) fn get_associated_token_address(wallet: &[u8; 32], mint: &[u8; 32]) -> (r: [u8; 32])
    ensures
        r@ == associated_token_address(wallet@, mint@),
{
    let w = solana_program::pubkey::Pubkey::new_from_array(*wallet);
    let m = solana_program::pubkey::Pubkey::new_from_array(*mint);
    spl_associated_token_account::get_associated_token_address(&w, &m).to_bytes()
}

/// Relies on spl_token's `check_id`: whether the key equals the token program's id.
#[verifier::external_body]
pub(crate) fn check_token_program(key: &[u8; 32]) -> (r: bool)
    ensures
        r == is_token_program(key@),
{
    spl_token::check_id(&solana_program::pubkey::Pubkey::new_from_array(*key))
}

/// The ASCII bytes of "token_mint": the seed of the reward mint.
pub open spec fn token_mint_tag() -> Seq<u8> {
    seq![116u8, 111u8, 107u8, 101u8, 110u8, 95u8, 109u8, 105u8, 110u8, 116u8]
}

/// The ASCII bytes of "token_auth": the seed of the reward mint's authority.
pub open spec fn token_auth_tag() -> Seq<u8> {
    seq![116u8, 111u8, 107u8, 101u8, 110u8, 95u8, 97u8, 117u8, 116u8, 104u8]
}

/// Seeds of an actor's primary record.
pub open spec fn record_seeds(owner: Seq<u8>) -> Seq<Seq<u8>> {
    seq![owner]
}

/// Seeds of a primary record's comment counter.
pub open spec fn counter_seeds(record: Seq<u8>) -> Seq<Seq<u8>> {
    seq![record, comment_tag()]
}

/// Seeds of the comment made while the counter stood at `counter`.
pub open spec fn comment_seeds(record: Seq<u8>, counter: u64) -> Seq<Seq<u8>> {
    seq![record, be_u64(counter)]
}

pub open spec fn mint_seeds() -> Seq<Seq<u8>> {
    seq![token_mint_tag()]
}

pub open spec fn authority_seeds() -> Seq<Seq<u8>> {
    seq![token_auth_tag()]
}

/// `key` is the address derived from `seeds` for `program_id`.
pub open spec fn derives_to(seeds: Seq<Seq<u8>>, program_id: Seq<u8>, key: Seq<u8>) -> bool {
    program_address(seeds, program_id) matches Some((a, _)) && a == key
}

/// The bump of a derivation that succeeded.
pub open spec fn bump_of(seeds: Seq<Seq<u8>>, program_id: Seq<u8>) -> u8 {
    program_address(seeds, program_id).unwrap().1
}

/// Derivation depends on nothing but its inputs: equal seeds for the same
/// program give the same address and bump, every time.
pub proof fn lemma_derivation_deterministic(
    s1: Seq<Seq<u8>>,
    s2: Seq<Seq<u8>>,
    prog_a: Seq<u8>,
    prog_b: Seq<u8>,
)
    requires
        s1 == s2,
        prog_a == prog_b,
    ensures
        program_address(s1, prog_a) == program_address(s2, prog_b),
{
}

/// Comments made at different counter values are derived from different
/// seeds, and no comment's seeds are the counter's own.
pub proof fn lemma_comment_seeds_distinct(record: Seq<u8>, a: u64, b: u64)
    ensures
        a != b ==> comment_seeds(record, a) != comment_seeds(record, b),
        comment_seeds(record, a) != counter_seeds(record),
{
    if a != b {
        lemma_be_u64_injective(a, b);
        assert(comment_seeds(record, a)[1] != comment_seeds(record, b)[1]);
    }
    assert(comment_seeds(record, a)[1].len() != counter_seeds(record)[1].len());
}

/// Whether two identities are equal.
pub fn same_key(a: &[u8; 32], b: &[u8; 32]) -> (r: bool)
    ensures
        r == (a@ == b@),
{
    let mut i: usize = 0;
    while i < 32
        invariant
            i <= 32,
            a@.len() == 32,
            b@.len() == 32,
            forall|j: int| 0 <= j < i ==> a@[j] == b@[j],
        decreases 32 - i,
    {
        if a[i] != b[i] {
            return false;
        }
        i = i + 1;
    }
    assert(a@ =~= b@);
    true
}

/// Derives the address for `seeds` and checks that `key` is it; on success,
/// the bump that signs for the address.
pub fn expect_address(seeds: &Vec<Vec<u8>>, program_id: &[u8; 32], key: &[u8; 32]) -> (r: Option<u8>)
    ensures
        r is Some <==> derives_to(seeds.deep_view(), program_id@, key@),
        r matches Some(b) ==> program_address(seeds.deep_view(), program_id@) == Some((key@, b)),
{
    match try_find_program_address(seeds, program_id) {
        None => None,
        Some((a, b)) => {
            if same_key(&a, key) {
                Some(b)
            } else {
                None
            }
        },
    }
}

pub fn key_bytes(k: &[u8; 32]) -> (r: Vec<u8>)
    ensures
        r@ == k@,
{
    vstd::slice::slice_to_vec(k.as_slice())
}

pub proof fn lemma_bytes_deep_view(v: Vec<u8>)
    ensures
        v.deep_view() == v@,
{
    assert(v.deep_view() =~= v@);
}

pub fn record_seed_list(owner: &[u8; 32]) -> (r: Vec<Vec<u8>>)
    ensures
        r.deep_view() == record_seeds(owner@),
{
    let a = key_bytes(owner);
    proof {
        lemma_bytes_deep_view(a);
    }
    let r: Vec<Vec<u8>> = vec![a];
    assert(r.deep_view() =~= record_seeds(owner@));
    r
}

pub fn counter_seed_list(record: &[u8; 32]) -> (r: Vec<Vec<u8>>)
    ensures
        r.deep_view() == counter_seeds(record@),
{
    let a = key_bytes(record);
    let b = StudComment::discriminator_bytes();
    proof {
        lemma_bytes_deep_view(a);
        lemma_bytes_deep_view(b);
    }
    let r: Vec<Vec<u8>> = vec![a, b];
    assert(r.deep_view() =~= counter_seeds(record@));
    r
}

pub fn comment_seed_list(record: &[u8; 32], counter: u64) -> (r: Vec<Vec<u8>>)
    ensures
        r.deep_view() == comment_seeds(record@, counter),
{
    let a = key_bytes(record);
    let b = u64_to_be_bytes(counter);
    proof {
        lemma_bytes_deep_view(a);
        lemma_bytes_deep_view(b);
    }
    let r: Vec<Vec<u8>> = vec![a, b];
    assert(r.deep_view() =~= comment_seeds(record@, counter));
    r
}

pub fn mint_seed_list() -> (r: Vec<Vec<u8>>)
    ensures
        r.deep_view() == mint_seeds(),
{
    let t: Vec<u8> = vec![116u8, 111u8, 107u8, 101u8, 110u8, 95u8, 109u8, 105u8, 110u8, 116u8];
    assert(t@ =~= token_mint_tag());
    proof {
        lemma_bytes_deep_view(t);
    }
    let r: Vec<Vec<u8>> = vec![t];
    assert(r.deep_view() =~= mint_seeds());
    r
}

pub fn authority_seed_list() -> (r: Vec<Vec<u8>>)
    ensures
        r.deep_view() == authority_seeds(),
{
    let t: Vec<u8> = vec![116u8, 111u8, 107u8, 101u8, 110u8, 95u8, 97u8, 117u8, 116u8, 104u8];
    assert(t@ =~= token_auth_tag());
    proof {
        lemma_bytes_deep_view(t);
    }
    let r: Vec<Vec<u8>> = vec![t];
    assert(r.deep_view() =~= authority_seeds());
    r
}

} // verus!
