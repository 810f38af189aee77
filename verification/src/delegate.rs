use vstd::prelude::*;
use anchor_lang::prelude::Pubkey;
use crate::identity::Identity;

verus! {

/// The program address that the address derivation finds for `seeds` under
/// `program_id`, together with its bump seed; `None` where it finds none.
pub uninterp spec fn program_address(seeds: Seq<Seq<u8>>, program_id: Seq<u8>) -> Option<
    (Seq<u8>, u8),
>;

/// The bytes of each seed, in order.
pub open spec fn seed_bytes(seeds: Seq<Vec<u8>>) -> Seq<Seq<u8>> {
    seeds.map_values(|seed: Vec<u8>| seed@)
}

/// A derived address and its bump seed, the address as bytes.
pub open spec fn derived_view(found: Option<(Identity, u8)>) -> Option<(Seq<u8>, u8)> {
    match found {
        Some((address, bump)) => Some((address@, bump)),
        None => None,
    }
}

/// Calls `Pubkey::try_find_program_address`, which never panics: it answers
/// `None` where no bump seed leads to an address, or where there are too
/// many seeds or one is too long. The derivation hashes the seeds, a bump
/// seed and the program id and reads nothing else, so the same arguments
/// always give the same answer; the contract gives that answer a name and
/// claims nothing more about it. Not proved: believed of the outside code.
#[verifier::external_body]
pub(crate) fn try_find_program_address(seeds: &Vec<Vec<u8>>, program_id: &Identity) -> (found:
    Option<(Identity, u8)>)
    ensures
        derived_view(found) == program_address(seed_bytes(seeds@), program_id@),
{
    let slices: Vec<&[u8]> = seeds.iter().map(|seed| seed.as_slice()).collect();
    let program = Pubkey::new_from_array(program_id.bytes);
    Pubkey::try_find_program_address(&slices, &program).map(
        |(address, bump)| (Identity { bytes: address.to_bytes() }, bump),
    )
}

/// The domain-separation tag of delegate addresses: the ASCII bytes of
/// `delegate`.
pub open spec fn delegate_tag() -> Seq<u8> {
    seq![100u8, 101u8, 108u8, 101u8, 103u8, 97u8, 116u8, 101u8]
}

/// The seeds from which an account's delegate for a mint is derived.
pub open spec fn delegate_seeds(user_account_key: Identity, mint: Identity) -> Seq<Seq<u8>> {
    seq![delegate_tag(), user_account_key@, mint@]
}

/// The delegate that belongs to an account and a mint under a program, with
/// its bump seed.
pub open spec fn delegate_address(
    user_account_key: Identity,
    mint: Identity,
    program_id: Identity,
) -> Option<(Seq<u8>, u8)> {
    program_address(delegate_seeds(user_account_key, mint), program_id@)
}

/// `supplied` is the address in `expected`.
pub open spec fn is_expected_delegate(expected: Option<(Seq<u8>, u8)>, supplied: Identity) -> bool {
    expected matches Some((address, _)) && address == supplied@
}

/// The seeds of an account's delegate for a mint.
pub fn build_delegate_seeds(user_account_key: &Identity, mint: &Identity) -> (seeds: Vec<Vec<u8>>)
    ensures
        seed_bytes(seeds@) == delegate_seeds(*user_account_key, *mint),
{
    let tag: Vec<u8> = vec![100u8, 101u8, 108u8, 101u8, 103u8, 97u8, 116u8, 101u8];
    assert(tag@ =~= delegate_tag());
    let mut seeds: Vec<Vec<u8>> = Vec::new();
    seeds.push(tag);
    seeds.push(user_account_key.to_vec());
    seeds.push(mint.to_vec());
    assert(seed_bytes(seeds@) =~= delegate_seeds(*user_account_key, *mint));
    seeds
}

/// The seeds that authorize in the delegate's name: the delegate's seeds
/// followed by its bump seed.
pub fn build_signer_seeds(user_account_key: &Identity, mint: &Identity, bump: u8) -> (seeds: Vec<
    Vec<u8>,
>)
    ensures
        seed_bytes(seeds@) == delegate_seeds(*user_account_key, *mint).push(seq![bump]),
{
    let mut seeds = build_delegate_seeds(user_account_key, mint);
    let last: Vec<u8> = vec![bump];
    assert(last@ =~= seq![bump]);
    seeds.push(last);
    assert(seed_bytes(seeds@) =~= delegate_seeds(*user_account_key, *mint).push(seq![bump]));
    seeds
}

/// Derives the delegate of an account and a mint under `program_id`.
pub fn find_delegate_address(
    user_account_key: &Identity,
    mint: &Identity,
    program_id: &Identity,
) -> (found: Option<(Identity, u8)>)
    ensures
        derived_view(found) == delegate_address(*user_account_key, *mint, *program_id),
{
    let seeds = build_delegate_seeds(user_account_key, mint);
    try_find_program_address(&seeds, program_id)
}

/// Compares a supplied delegate with the derived one.
pub fn matches_delegate(expected: &Option<(Identity, u8)>, supplied: &Identity) -> (r: bool)
    ensures
        r == is_expected_delegate(derived_view(*expected), *supplied),
{
    match expected {
        Some((address, _)) => {
            proof {
                Identity::lemma_view_injective(*address, *supplied);
            }
            *address == *supplied
        },
        None => false,
    }
}

} // verus!
