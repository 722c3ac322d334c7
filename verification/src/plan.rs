//! Planning of the two single-shot operations: deriving the program-owned
//! addresses and producing the ordered instruction list each operation
//! submits. Ordering matters: the metadata account must exist before the
//! master-edition instruction that references it, so the planner fixes it.
use vstd::prelude::*;
use crate::addr::Address;
use crate::builders::CollectionConfig;
use crate::builders::TreeConfig;
use crate::builders::build_create_master_edition;
use crate::builders::build_create_metadata;
use crate::builders::build_create_tree;
use crate::builders::collection_config_sizes_ok;
use crate::builders::create_master_edition_model;
use crate::builders::create_metadata_model;
use crate::builders::create_tree_model;
use crate::derive::edition_pda_seeds;
use crate::derive::master_edition_pda;
use crate::derive::metadata_pda;
use crate::derive::metadata_pda_seeds;
use crate::derive::pda;
use crate::derive::tree_authority_pda;
use crate::derive::tree_authority_seeds;
use crate::errors::CnftError;
use crate::instruction::Instruction;
use crate::programs::bubblegum_program_id;
use crate::programs::token_metadata_program_id;

verus! {

/// The outputs of planning a collection creation: the mint, its derived
/// metadata and master-edition addresses, and the two instructions in
/// submission order.
pub struct CollectionPlan {
    pub mint: Address,
    pub metadata: Address,
    pub master_edition: Address,
    pub instructions: Vec<Instruction>,
}

/// Derives the metadata and master-edition addresses for a collection mint
/// and produces the two instructions that create them, metadata first.
pub fn plan_create_collection(payer: &Address, mint: &Address, cfg: &CollectionConfig) -> (r:
    Result<CollectionPlan, CnftError>)
    requires
        collection_config_sizes_ok(*cfg),
    ensures
        match r {
            Ok(p) => {
                &&& p.mint == *mint
                &&& pda(token_metadata_program_id(), metadata_pda_seeds(mint@)) matches Some(md)
                    && p.metadata@ == md.0
                &&& pda(token_metadata_program_id(), edition_pda_seeds(mint@)) matches Some(ed)
                    && p.master_edition@ == ed.0
                &&& p.instructions@.len() == 2
                &&& p.instructions@[0]@ == create_metadata_model(p.metadata@, mint@, payer@, *cfg)
                &&& p.instructions@[1]@ == create_master_edition_model(
                    p.master_edition@,
                    mint@,
                    p.metadata@,
                    payer@,
                )
            },
            Err(e) => {
                &&& e == CnftError::DerivationFailed
                &&& (pda(token_metadata_program_id(), metadata_pda_seeds(mint@)) is None || pda(
                    token_metadata_program_id(),
                    edition_pda_seeds(mint@),
                ) is None)
            },
        },
{
    let metadata = match metadata_pda(mint) {
        Some(p) => p.0,
        None => {
            return Err(CnftError::DerivationFailed);
        }
    };
    let master_edition = match master_edition_pda(mint) {
        Some(p) => p.0,
        None => {
            return Err(CnftError::DerivationFailed);
        }
    };
    let mut instructions: Vec<Instruction> = Vec::new();
    instructions.push(build_create_metadata(&metadata, mint, payer, cfg));
    instructions.push(build_create_master_edition(&master_edition, mint, &metadata, payer));
    Ok(CollectionPlan { mint: *mint, metadata, master_edition, instructions })
}

/// The outputs of planning a tree creation: the tree address, its derived
/// tree-authority address, and the instruction that configures the tree.
pub struct TreePlan {
    pub tree: Address,
    pub tree_authority: Address,
    pub instruction: Instruction,
}

/// Derives the tree-authority address for a fresh merkle tree and produces
/// the instruction that creates its on-chain configuration.
pub fn plan_create_tree(payer: &Address, tree: &Address, cfg: &TreeConfig) -> (r: Result<
    TreePlan,
    CnftError,
>)
    ensures
        match r {
            Ok(p) => {
                &&& p.tree == *tree
                &&& pda(bubblegum_program_id(), tree_authority_seeds(tree@)) matches Some(ta)
                    && p.tree_authority@ == ta.0
                &&& p.instruction@ == create_tree_model(p.tree_authority@, tree@, payer@, *cfg)
            },
            Err(e) => {
                &&& e == CnftError::DerivationFailed
                &&& pda(bubblegum_program_id(), tree_authority_seeds(tree@)) is None
            },
        },
{
    let tree_authority = match tree_authority_pda(tree) {
        Some(p) => p.0,
        None => {
            return Err(CnftError::DerivationFailed);
        }
    };
    let instruction = build_create_tree(&tree_authority, tree, payer, cfg);
    Ok(TreePlan { tree: *tree, tree_authority, instruction })
}

} // verus!
