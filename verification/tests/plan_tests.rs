//! Tests of the single-shot operation planners: derived addresses and
//! instruction ordering.
use cnft::Address;
use cnft::builders::CollectionConfig;
use cnft::builders::TreeConfig;
use cnft::plan::plan_create_collection;
use cnft::plan::plan_create_tree;
use solana_sdk::pubkey::Pubkey;

fn addr_unique() -> Address {
    Address::from_bytes(Pubkey::new_unique().to_bytes())
}

#[test]
fn collection_plan_orders_metadata_before_edition() {
    let payer = addr_unique();
    let mint = addr_unique();
    let cfg = CollectionConfig {
        name: String::from("Collection").into_bytes(),
        symbol: String::from("COLL").into_bytes(),
        uri: String::new().into_bytes(),
        seller_fee_basis_points: 0,
        creators: None,
    };
    let plan = plan_create_collection(&payer, &mint, &cfg).unwrap();
    assert_eq!(plan.mint.to_bytes(), mint.to_bytes());

    let mint_pk = Pubkey::new_from_array(mint.to_bytes());
    let (metadata, _) = mpl_token_metadata::accounts::Metadata::find_pda(&mint_pk);
    let (edition, _) = mpl_token_metadata::accounts::MasterEdition::find_pda(&mint_pk);
    assert_eq!(plan.metadata.to_bytes(), metadata.to_bytes());
    assert_eq!(plan.master_edition.to_bytes(), edition.to_bytes());

    assert_eq!(plan.instructions.len(), 2);
    // First the metadata account, then the master edition referencing it.
    assert_eq!(plan.instructions[0].data[0], 33);
    assert_eq!(plan.instructions[1].data[0], 17);
    assert_eq!(
        plan.instructions[0].accounts[0].address.to_bytes(),
        metadata.to_bytes()
    );
    assert_eq!(
        plan.instructions[1].accounts[0].address.to_bytes(),
        edition.to_bytes()
    );
}

#[test]
fn tree_plan_derives_the_tree_authority() {
    let payer = addr_unique();
    let tree = addr_unique();
    let cfg = TreeConfig { max_depth: 14, max_buffer_size: 64 };
    let plan = plan_create_tree(&payer, &tree, &cfg).unwrap();
    assert_eq!(plan.tree.to_bytes(), tree.to_bytes());

    let tree_pk = Pubkey::new_from_array(tree.to_bytes());
    let (authority, _) =
        Pubkey::find_program_address(&[tree_pk.as_ref()], &mpl_bubblegum::ID);
    assert_eq!(plan.tree_authority.to_bytes(), authority.to_bytes());
    assert_eq!(
        plan.instruction.accounts[0].address.to_bytes(),
        authority.to_bytes()
    );
    assert_eq!(plan.instruction.program.to_bytes(), mpl_bubblegum::ID.to_bytes());
}
