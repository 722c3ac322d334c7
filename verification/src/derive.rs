//! Program-derived address computation: deterministic addresses owned by a
//! program rather than a private key, found by the bump-seed search.
use vstd::prelude::*;
use crate::addr::Address;
use crate::programs::bubblegum_program;
use crate::programs::bubblegum_program_id;
use crate::programs::token_metadata_program;
use crate::programs::token_metadata_program_id;

verus! {

/// What the bump-seed search yields for a program id and seed list: the
/// derived 32-byte address and its bump seed, or `None` in the
/// statistically improbable event that no bump yields a valid address or
/// where a seed is over the program's length limits. A deterministic
/// function of the program id and seeds alone.
pub uninterp spec fn pda(program: Seq<u8>, seeds: Seq<Seq<u8>>) -> Option<(Seq<u8>, u8)>;

/// Relies on solana_sdk `Pubkey::try_find_program_address`: the result is a
/// deterministic function of the seeds and program id alone, total, and
/// `None` exactly where no bump seed yields a valid derived address.
#[verifier::external_body]
fn find_pda(seeds: &Vec<Vec<u8>>, program: &Address) -> (r: Option<(Address, u8)>)
    ensures
        match r {
            Some(p) => pda(program@, seeds.deep_view()) == Some((p.0@, p.1)) && p.0@.len() == 32,
            None => pda(program@, seeds.deep_view()) is None,
        },
{
    let refs: Vec<&[u8]> = seeds.iter().map(|s| s.as_slice()).collect();
    let p = solana_sdk::pubkey::Pubkey::new_from_array(program.to_bytes());
    solana_sdk::pubkey::Pubkey::try_find_program_address(refs.as_slice(), &p)
        .map(|(a, b)| (Address::from_bytes(a.to_bytes()), b))
}

/// Derives a program-owned address from a program id and seed bytes.
/// Pure and deterministic: identical inputs always yield the identical
/// address and bump seed.
pub fn derive_program_address(program: &Address, seeds: &Vec<Vec<u8>>) -> (r: Option<(Address, u8)>)
    ensures
        match r {
            Some(p) => pda(program@, seeds.deep_view()) == Some((p.0@, p.1)) && p.0@.len() == 32,
            None => pda(program@, seeds.deep_view()) is None,
        },
{
    find_pda(seeds, program)
}

/// Derivation is a pure function: identical program and seed inputs always
/// yield the identical result.
pub proof fn lemma_derivation_deterministic(
    p1: Seq<u8>,
    s1: Seq<Seq<u8>>,
    p2: Seq<u8>,
    s2: Seq<Seq<u8>>,
)
    requires
        p1 == p2,
        s1 == s2,
    ensures
        pda(p1, s1) == pda(p2, s2),
{
}

/// The deep view of a seed vector is its per-element byte view.
proof fn lemma_seed_deep_view(v: Vec<Vec<u8>>)
    ensures
        v.deep_view().len() == v@.len(),
        forall|i: int| 0 <= i < v@.len() ==> v.deep_view()[i] == v@[i]@,
{
    assert forall|i: int| 0 <= i < v@.len() implies v.deep_view()[i] == v@[i]@ by {
        assert(v.deep_view()[i] == v@[i].deep_view());
        assert(v@[i].deep_view() =~= v@[i]@);
    }
}

/// The constant seed `"metadata"` of the token-metadata program's PDAs.
pub open spec fn metadata_seed() -> Seq<u8> {
    seq![109u8, 101, 116, 97, 100, 97, 116, 97]
}

/// The constant seed `"edition"` of master-edition PDAs.
pub open spec fn edition_seed() -> Seq<u8> {
    seq![101u8, 100, 105, 116, 105, 111, 110]
}

/// The constant seed `"collection_cpi"` of the bubblegum program-signer PDA.
pub open spec fn collection_cpi_seed() -> Seq<u8> {
    seq![99u8, 111, 108, 108, 101, 99, 116, 105, 111, 110, 95, 99, 112, 105]
}

fn metadata_seed_vec() -> (r: Vec<u8>)
    ensures
        r@ == metadata_seed(),
{
    let mut v: Vec<u8> = Vec::new();
    v.push(109);
    v.push(101);
    v.push(116);
    v.push(97);
    v.push(100);
    v.push(97);
    v.push(116);
    v.push(97);
    assert(v@ =~= metadata_seed());
    v
}

fn edition_seed_vec() -> (r: Vec<u8>)
    ensures
        r@ == edition_seed(),
{
    let mut v: Vec<u8> = Vec::new();
    v.push(101);
    v.push(100);
    v.push(105);
    v.push(116);
    v.push(105);
    v.push(111);
    v.push(110);
    assert(v@ =~= edition_seed());
    v
}

fn collection_cpi_seed_vec() -> (r: Vec<u8>)
    ensures
        r@ == collection_cpi_seed(),
{
    let mut v: Vec<u8> = Vec::new();
    v.push(99);
    v.push(111);
    v.push(108);
    v.push(108);
    v.push(101);
    v.push(99);
    v.push(116);
    v.push(105);
    v.push(111);
    v.push(110);
    v.push(95);
    v.push(99);
    v.push(112);
    v.push(105);
    assert(v@ =~= collection_cpi_seed());
    v
}

/// The seeds of a mint's metadata-account PDA.
pub open spec fn metadata_pda_seeds(mint: Seq<u8>) -> Seq<Seq<u8>> {
    seq![metadata_seed(), token_metadata_program_id(), mint]
}

/// The seeds of a mint's master-edition PDA.
pub open spec fn edition_pda_seeds(mint: Seq<u8>) -> Seq<Seq<u8>> {
    seq![metadata_seed(), token_metadata_program_id(), mint, edition_seed()]
}

/// The seeds of a merkle tree's tree-authority PDA.
pub open spec fn tree_authority_seeds(tree: Seq<u8>) -> Seq<Seq<u8>> {
    seq![tree]
}

/// The seeds of the bubblegum program-signer PDA.
pub open spec fn bubblegum_signer_seeds() -> Seq<Seq<u8>> {
    seq![collection_cpi_seed()]
}

/// The metadata-account PDA for a mint: seeds
/// `["metadata", token-metadata id, mint]` under the token-metadata program.
pub fn metadata_pda(mint: &Address) -> (r: Option<(Address, u8)>)
    ensures
        match r {
            Some(p) => pda(token_metadata_program_id(), metadata_pda_seeds(mint@)) == Some(
                (p.0@, p.1),
            ) && p.0@.len() == 32,
            None => pda(token_metadata_program_id(), metadata_pda_seeds(mint@)) is None,
        },
{
    let mut seeds: Vec<Vec<u8>> = Vec::new();
    seeds.push(metadata_seed_vec());
    seeds.push(token_metadata_program().to_vec());
    seeds.push(mint.to_vec());
    proof {
        lemma_seed_deep_view(seeds);
        assert(seeds.deep_view() =~= metadata_pda_seeds(mint@));
    }
    find_pda(&seeds, &token_metadata_program())
}

/// The master-edition PDA for a mint: seeds
/// `["metadata", token-metadata id, mint, "edition"]`.
pub fn master_edition_pda(mint: &Address) -> (r: Option<(Address, u8)>)
    ensures
        match r {
            Some(p) => pda(token_metadata_program_id(), edition_pda_seeds(mint@)) == Some(
                (p.0@, p.1),
            ) && p.0@.len() == 32,
            None => pda(token_metadata_program_id(), edition_pda_seeds(mint@)) is None,
        },
{
    let mut seeds: Vec<Vec<u8>> = Vec::new();
    seeds.push(metadata_seed_vec());
    seeds.push(token_metadata_program().to_vec());
    seeds.push(mint.to_vec());
    seeds.push(edition_seed_vec());
    proof {
        lemma_seed_deep_view(seeds);
        assert(seeds.deep_view() =~= edition_pda_seeds(mint@));
    }
    find_pda(&seeds, &token_metadata_program())
}

/// The tree-authority PDA for a merkle tree: the tree address as single
/// seed, under the bubblegum program.
pub fn tree_authority_pda(tree: &Address) -> (r: Option<(Address, u8)>)
    ensures
        match r {
            Some(p) => pda(bubblegum_program_id(), tree_authority_seeds(tree@)) == Some(
                (p.0@, p.1),
            ) && p.0@.len() == 32,
            None => pda(bubblegum_program_id(), tree_authority_seeds(tree@)) is None,
        },
{
    let mut seeds: Vec<Vec<u8>> = Vec::new();
    seeds.push(tree.to_vec());
    proof {
        lemma_seed_deep_view(seeds);
        assert(seeds.deep_view() =~= tree_authority_seeds(tree@));
    }
    find_pda(&seeds, &bubblegum_program())
}

/// The bubblegum program-signer PDA: the constant seed `"collection_cpi"`
/// under the bubblegum program.
pub fn bubblegum_signer_pda() -> (r: Option<(Address, u8)>)
    ensures
        match r {
            Some(p) => pda(bubblegum_program_id(), bubblegum_signer_seeds()) == Some((p.0@, p.1))
                && p.0@.len() == 32,
            None => pda(bubblegum_program_id(), bubblegum_signer_seeds()) is None,
        },
{
    let mut seeds: Vec<Vec<u8>> = Vec::new();
    seeds.push(collection_cpi_seed_vec());
    proof {
        lemma_seed_deep_view(seeds);
        assert(seeds.deep_view() =~= bubblegum_signer_seeds());
    }
    find_pda(&seeds, &bubblegum_program())
}

} // verus!
