use vstd::prelude::*;

use anchor_lang::prelude::Pubkey;

use crate::identity::Identity;

verus! {

/// The address, if any, that `create_program_address` derives from these
/// seeds (the bump seed included) under the program.
pub uninterp spec fn program_address(seeds: Seq<Seq<u8>>, program_id: Seq<u8>) -> Option<Seq<u8>>;

/// The address and bump seed, if any, that `try_find_program_address` finds
/// for these seeds under the program.
pub uninterp spec fn found_program_address(seeds: Seq<Seq<u8>>, program_id: Seq<u8>) -> Option<
    (Seq<u8>, u8),
>;

/// The seeds as byte sequences.
pub open spec fn seeds_view(seeds: Seq<Vec<u8>>) -> Seq<Seq<u8>> {
    seeds.map_values(|s: Vec<u8>| s@)
}

/// Relies on `Pubkey::create_program_address`: hashes the seeds and the
/// program id and rejects results on the curve or over-long seeds; the
/// outcome depends on its arguments alone.
#[verifier::external_body]
fn create_address(seeds: &Vec<Vec<u8>>, program_id: &Identity) -> (r: Option<Identity>)
    ensures
        r is Some <==> program_address(seeds_view(seeds@), program_id@) is Some,
        r matches Some(a) ==> program_address(seeds_view(seeds@), program_id@) == Some(a@),
{
    let refs: Vec<&[u8]> = seeds.iter().map(|s| s.as_slice()).collect();
    let program = Pubkey::new_from_array(program_id.bytes);
    match Pubkey::create_program_address(&refs, &program) {
        Ok(a) => Some(Identity { bytes: a.to_bytes() }),
        Err(_) => None,
    }
}

/// Relies on `Pubkey::try_find_program_address`: tries bump seeds from 255
/// down and returns the first for which `create_program_address`, given the
/// seeds followed by that bump, yields an address.
#[verifier::external_body]
fn find_address(seeds: &Vec<Vec<u8>>, program_id: &Identity) -> (r: Option<(Identity, u8)>)
    ensures
        r is Some <==> found_program_address(seeds_view(seeds@), program_id@) is Some,
        r matches Some((a, b)) ==> {
            &&& found_program_address(seeds_view(seeds@), program_id@) == Some((a@, b))
            &&& program_address(seeds_view(seeds@).push(seq![b]), program_id@) == Some(a@)
        },
{
    let refs: Vec<&[u8]> = seeds.iter().map(|s| s.as_slice()).collect();
    let program = Pubkey::new_from_array(program_id.bytes);
    match Pubkey::try_find_program_address(&refs, &program) {
        Some((a, b)) => Some((Identity { bytes: a.to_bytes() }, b)),
        None => None,
    }
}

/// Whether `key` is the address derived from `seeds` and `bump` under the program.
pub open spec fn derives(program_id: Seq<u8>, seeds: Seq<Seq<u8>>, bump: u8, key: Seq<u8>) -> bool {
    program_address(seeds.push(seq![bump]), program_id) == Some(key)
}

/// The ASCII bytes of `escrow`.
pub open spec fn escrow_label() -> Seq<u8> {
    seq![101u8, 115u8, 99u8, 114u8, 111u8, 119u8]
}

/// The ASCII bytes of `token_account`.
pub open spec fn custody_label() -> Seq<u8> {
    seq![116u8, 111u8, 107u8, 101u8, 110u8, 95u8, 97u8, 99u8, 99u8, 111u8, 117u8, 110u8, 116u8]
}

/// The ASCII bytes of `item`.
pub open spec fn item_label() -> Seq<u8> {
    seq![105u8, 116u8, 101u8, 109u8]
}

/// The ASCII bytes of `exhibition`.
pub open spec fn exhibition_label() -> Seq<u8> {
    seq![101u8, 120u8, 104u8, 105u8, 98u8, 105u8, 116u8, 105u8, 111u8, 110u8]
}

/// Seeds of the escrow authority of the exhibition hosted by `property`.
pub open spec fn escrow_seeds(property: Seq<u8>) -> Seq<Seq<u8>> {
    seq![escrow_label(), property]
}

/// Seeds of the custody account that holds a unit of `mint`.
pub open spec fn custody_seeds(mint: Seq<u8>) -> Seq<Seq<u8>> {
    seq![custody_label(), mint]
}

/// Seeds of the record of the item of `mint` in an exhibition.
pub open spec fn item_seeds(exhibition: Seq<u8>, mint: Seq<u8>) -> Seq<Seq<u8>> {
    seq![item_label(), exhibition, mint]
}

/// Seeds of the exhibition hosted by `property`.
pub open spec fn exhibition_seeds(property: Seq<u8>) -> Seq<Seq<u8>> {
    seq![exhibition_label(), property]
}

/// A label followed by one identity.
fn labelled(label: Vec<u8>, key: &Identity) -> (r: Vec<Vec<u8>>)
    ensures
        seeds_view(r@) == seq![label@, key@],
{
    let mut r: Vec<Vec<u8>> = Vec::new();
    r.push(label);
    r.push(key.to_seed());
    assert(seeds_view(r@) =~= seq![label@, key@]);
    r
}

/// The seeds of the escrow authority of the exhibition hosted by `property`.
pub fn escrow_seed_list(property: &Identity) -> (r: Vec<Vec<u8>>)
    ensures
        seeds_view(r@) == escrow_seeds(property@),
{
    let label: Vec<u8> = vec![101u8, 115u8, 99u8, 114u8, 111u8, 119u8];
    assert(label@ =~= escrow_label());
    labelled(label, property)
}

/// The seeds of the custody account for a unit of `mint`.
pub fn custody_seed_list(mint: &Identity) -> (r: Vec<Vec<u8>>)
    ensures
        seeds_view(r@) == custody_seeds(mint@),
{
    let label: Vec<u8> = vec![
        116u8, 111u8, 107u8, 101u8, 110u8, 95u8, 97u8, 99u8, 99u8, 111u8, 117u8, 110u8, 116u8
    ];
    assert(label@ =~= custody_label());
    labelled(label, mint)
}

/// The seeds of the record of the exhibition hosted by `property`.
pub fn exhibition_seed_list(property: &Identity) -> (r: Vec<Vec<u8>>)
    ensures
        seeds_view(r@) == exhibition_seeds(property@),
{
    let label: Vec<u8> = vec![101u8, 120u8, 104u8, 105u8, 98u8, 105u8, 116u8, 105u8, 111u8, 110u8];
    assert(label@ =~= exhibition_label());
    labelled(label, property)
}

/// The seeds of the record of the item of `mint` in an exhibition.
pub fn item_seed_list(exhibition: &Identity, mint: &Identity) -> (r: Vec<Vec<u8>>)
    ensures
        seeds_view(r@) == item_seeds(exhibition@, mint@),
{
    let label: Vec<u8> = vec![105u8, 116u8, 101u8, 109u8];
    assert(label@ =~= item_label());
    let mut r: Vec<Vec<u8>> = Vec::new();
    r.push(label);
    r.push(exhibition.to_seed());
    r.push(mint.to_seed());
    assert(seeds_view(r@) =~= item_seeds(exhibition@, mint@));
    r
}

/// Checks that `key` is the address derived from `seeds` and `bump`.
pub fn check_derivation(program_id: &Identity, seeds: Vec<Vec<u8>>, bump: u8, key: &Identity) -> (r:
    bool)
    ensures
        r == derives(program_id@, seeds_view(seeds@), bump, key@),
{
    let mut with_bump = seeds;
    let ghost before = with_bump@;
    with_bump.push(vec![bump]);
    proof {
        let b: Vec<u8> = with_bump@[before.len() as int];
        assert(b@ =~= seq![bump]);
        assert(seeds_view(with_bump@) =~= seeds_view(before).push(seq![bump]));
    }
    match create_address(&with_bump, program_id) {
        Some(a) => a.same_as(key),
        None => false,
    }
}

/// Finds the escrow authority of the exhibition hosted by `property`, with
/// the bump seed that proves the derivation.
pub fn find_escrow_authority(program_id: &Identity, property: &Identity) -> (r: Option<
    (Identity, u8),
>)
    ensures
        r is Some <==> found_program_address(escrow_seeds(property@), program_id@) is Some,
        r matches Some((a, b)) ==> {
            &&& found_program_address(escrow_seeds(property@), program_id@) == Some((a@, b))
            &&& derives(program_id@, escrow_seeds(property@), b, a@)
        },
{
    let seeds = escrow_seed_list(property);
    find_address(&seeds, program_id)
}

/// Finds the custody account for a unit of `mint`, with its bump seed.
pub fn find_custody_account(program_id: &Identity, mint: &Identity) -> (r: Option<(Identity, u8)>)
    ensures
        r is Some <==> found_program_address(custody_seeds(mint@), program_id@) is Some,
        r matches Some((a, b)) ==> {
            &&& found_program_address(custody_seeds(mint@), program_id@) == Some((a@, b))
            &&& derives(program_id@, custody_seeds(mint@), b, a@)
        },
{
    let seeds = custody_seed_list(mint);
    find_address(&seeds, program_id)
}

/// Finds the record address of the exhibition hosted by `property`, with its bump seed.
pub fn find_exhibition_address(program_id: &Identity, property: &Identity) -> (r: Option<
    (Identity, u8),
>)
    ensures
        r is Some <==> found_program_address(exhibition_seeds(property@), program_id@) is Some,
        r matches Some((a, b)) ==> {
            &&& found_program_address(exhibition_seeds(property@), program_id@) == Some((a@, b))
            &&& derives(program_id@, exhibition_seeds(property@), b, a@)
        },
{
    let seeds = exhibition_seed_list(property);
    find_address(&seeds, program_id)
}

/// Finds the record address of the item of `mint` in an exhibition, with its bump seed.
pub fn find_item_address(program_id: &Identity, exhibition: &Identity, mint: &Identity) -> (r: Option<
    (Identity, u8),
>)
    ensures
        r is Some <==> found_program_address(item_seeds(exhibition@, mint@), program_id@) is Some,
        r matches Some((a, b)) ==> {
            &&& found_program_address(item_seeds(exhibition@, mint@), program_id@) == Some((a@, b))
            &&& derives(program_id@, item_seeds(exhibition@, mint@), b, a@)
        },
{
    let seeds = item_seed_list(exhibition, mint);
    find_address(&seeds, program_id)
}

} // verus!
