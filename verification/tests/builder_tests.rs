//! Differential tests: every instruction the verified builders produce is
//! compared byte for byte against the reference client crates' builders.
use cnft::Address;
use cnft::Instruction;
use cnft::builders::CollectionConfig;
use cnft::builders::CreatorShare;
use cnft::builders::MintItemConfig;
use cnft::builders::TreeConfig;
use cnft::builders::build_create_master_edition;
use cnft::builders::build_create_metadata;
use cnft::builders::build_create_tree;
use cnft::builders::build_mint_to_collection;
use cnft::programs;
use solana_sdk::pubkey::Pubkey;

fn pk(a: &Address) -> Pubkey {
    Pubkey::new_from_array(a.to_bytes())
}

fn addr(seed: u8) -> Address {
    Address::from_bytes([seed; 32])
}

fn assert_same(ours: &Instruction, reference: &solana_sdk::instruction::Instruction) {
    assert_eq!(ours.program.to_bytes(), reference.program_id.to_bytes());
    assert_eq!(ours.accounts.len(), reference.accounts.len());
    for (a, b) in ours.accounts.iter().zip(reference.accounts.iter()) {
        assert_eq!(a.address.to_bytes(), b.pubkey.to_bytes());
        assert_eq!(a.is_signer, b.is_signer);
        assert_eq!(a.is_writable, b.is_writable);
    }
    assert_eq!(ours.data, reference.data);
}

#[test]
fn program_ids_match_reference_crates() {
    assert_eq!(
        programs::token_metadata_program().to_bytes(),
        mpl_token_metadata::ID.to_bytes()
    );
    assert_eq!(programs::bubblegum_program().to_bytes(), mpl_bubblegum::ID.to_bytes());
    assert_eq!(programs::token_program().to_bytes(), spl_token::id().to_bytes());
    assert_eq!(programs::noop_program().to_bytes(), spl_noop::id().to_bytes());
    assert_eq!(
        programs::compression_program().to_bytes(),
        mpl_bubblegum::programs::SPL_ACCOUNT_COMPRESSION_ID.to_bytes()
    );
    assert_eq!(
        programs::system_program().to_bytes(),
        solana_sdk::system_program::id().to_bytes()
    );
    assert_eq!(
        programs::rent_sysvar().to_bytes(),
        solana_sdk::sysvar::rent::id().to_bytes()
    );
}

#[test]
fn create_metadata_matches_reference() {
    let metadata = addr(1);
    let mint = addr(2);
    let payer = addr(3);
    let creators = vec![
        CreatorShare { address: addr(4), verified: false, share: 60 },
        CreatorShare { address: addr(5), verified: true, share: 40 },
    ];
    let cfg = CollectionConfig {
        name: String::from("My Collection").into_bytes(),
        symbol: String::from("COLL").into_bytes(),
        uri: String::from("https://example.com/meta.json").into_bytes(),
        seller_fee_basis_points: 250,
        creators: Some(creators),
    };
    let ours = build_create_metadata(&metadata, &mint, &payer, &cfg);

    let reference = mpl_token_metadata::instructions::CreateMetadataAccountV3 {
        metadata: pk(&metadata),
        mint: pk(&mint),
        mint_authority: pk(&payer),
        payer: pk(&payer),
        update_authority: (pk(&payer), true),
        system_program: solana_sdk::system_program::id(),
        rent: Some(solana_sdk::sysvar::rent::id()),
    }
    .instruction(mpl_token_metadata::instructions::CreateMetadataAccountV3InstructionArgs {
        data: mpl_token_metadata::types::DataV2 {
            name: String::from("My Collection"),
            symbol: String::from("COLL"),
            uri: String::from("https://example.com/meta.json"),
            seller_fee_basis_points: 250,
            creators: Some(vec![
                mpl_token_metadata::types::Creator {
                    address: pk(&addr(4)),
                    verified: false,
                    share: 60,
                },
                mpl_token_metadata::types::Creator {
                    address: pk(&addr(5)),
                    verified: true,
                    share: 40,
                },
            ]),
            collection: Some(mpl_token_metadata::types::Collection {
                key: pk(&mint),
                verified: false,
            }),
            uses: Some(mpl_token_metadata::types::Uses {
                use_method: mpl_token_metadata::types::UseMethod::Multiple,
                remaining: 0,
                total: 0,
            }),
        },
        is_mutable: true,
        collection_details: Some(mpl_token_metadata::types::CollectionDetails::V1 { size: 0 }),
    });
    assert_same(&ours, &reference);
}

#[test]
fn create_metadata_no_creators_payload() {
    // Collection config {name: "Test", symbol: "TST", fee 500, no creators}:
    // the payload encodes seller_fee_basis_points = 500 and creators = none.
    let metadata = addr(1);
    let mint = addr(2);
    let payer = addr(3);
    let cfg = CollectionConfig {
        name: String::from("Test").into_bytes(),
        symbol: String::from("TST").into_bytes(),
        uri: String::new().into_bytes(),
        seller_fee_basis_points: 500,
        creators: None,
    };
    let ours = build_create_metadata(&metadata, &mint, &payer, &cfg);
    // discriminator, "Test", "TST", empty uri, then the fee and creator tag.
    let fee_off: usize = 1 + (4 + 4) + (4 + 3) + 4;
    assert_eq!(ours.data[fee_off], 244); // 500 = 0x01f4, little endian
    assert_eq!(ours.data[fee_off + 1], 1);
    assert_eq!(ours.data[fee_off + 2], 0); // creators: none

    let reference = mpl_token_metadata::instructions::CreateMetadataAccountV3 {
        metadata: pk(&metadata),
        mint: pk(&mint),
        mint_authority: pk(&payer),
        payer: pk(&payer),
        update_authority: (pk(&payer), true),
        system_program: solana_sdk::system_program::id(),
        rent: Some(solana_sdk::sysvar::rent::id()),
    }
    .instruction(mpl_token_metadata::instructions::CreateMetadataAccountV3InstructionArgs {
        data: mpl_token_metadata::types::DataV2 {
            name: String::from("Test"),
            symbol: String::from("TST"),
            uri: String::new(),
            seller_fee_basis_points: 500,
            creators: None,
            collection: Some(mpl_token_metadata::types::Collection {
                key: pk(&mint),
                verified: false,
            }),
            uses: Some(mpl_token_metadata::types::Uses {
                use_method: mpl_token_metadata::types::UseMethod::Multiple,
                remaining: 0,
                total: 0,
            }),
        },
        is_mutable: true,
        collection_details: Some(mpl_token_metadata::types::CollectionDetails::V1 { size: 0 }),
    });
    assert_same(&ours, &reference);
}

#[test]
fn create_master_edition_matches_reference() {
    let edition = addr(11);
    let mint = addr(12);
    let metadata = addr(13);
    let payer = addr(14);
    let ours = build_create_master_edition(&edition, &mint, &metadata, &payer);

    let reference = mpl_token_metadata::instructions::CreateMasterEditionV3 {
        edition: pk(&edition),
        mint: pk(&mint),
        update_authority: pk(&payer),
        mint_authority: pk(&payer),
        metadata: pk(&metadata),
        payer: pk(&payer),
        token_program: spl_token::id(),
        system_program: solana_sdk::system_program::id(),
        rent: Some(solana_sdk::sysvar::rent::id()),
    }
    .instruction(mpl_token_metadata::instructions::CreateMasterEditionV3InstructionArgs {
        max_supply: Some(0),
    });
    assert_same(&ours, &reference);
}

#[test]
fn create_tree_matches_reference() {
    // Tree config {max_depth: 14, max_buffer_size: 64}: the payload encodes
    // those two integers and public = true.
    let tree_authority = addr(21);
    let tree = addr(22);
    let payer = addr(23);
    let cfg = TreeConfig { max_depth: 14, max_buffer_size: 64 };
    let ours = build_create_tree(&tree_authority, &tree, &payer, &cfg);

    assert_eq!(&ours.data[8..12], &[14, 0, 0, 0]);
    assert_eq!(&ours.data[12..16], &[64, 0, 0, 0]);
    assert_eq!(&ours.data[16..18], &[1, 1]); // public = Some(true)

    let reference = mpl_bubblegum::instructions::CreateTreeConfig {
        tree_config: pk(&tree_authority),
        merkle_tree: pk(&tree),
        payer: pk(&payer),
        tree_creator: pk(&payer),
        log_wrapper: spl_noop::id(),
        compression_program: mpl_bubblegum::programs::SPL_ACCOUNT_COMPRESSION_ID,
        system_program: solana_sdk::system_program::id(),
    }
    .instruction(mpl_bubblegum::instructions::CreateTreeConfigInstructionArgs {
        max_depth: 14,
        max_buffer_size: 64,
        public: Some(true),
    });
    assert_same(&ours, &reference);
}

#[test]
fn mint_to_collection_matches_reference() {
    let tree_authority = addr(31);
    let recipient = addr(32);
    let tree = addr(33);
    let payer = addr(34);
    let collection_mint = addr(35);
    let collection_metadata = addr(36);
    let collection_edition = addr(37);
    let bubblegum_signer = addr(38);
    let item = MintItemConfig {
        name: String::from("NFT Item").into_bytes(),
        symbol: String::from("ITM").into_bytes(),
        uri: String::from("https://example.com/item.json").into_bytes(),
        seller_fee_basis_points: 100,
        creators: vec![CreatorShare { address: addr(39), verified: false, share: 100 }],
    };
    let ours = build_mint_to_collection(
        &tree_authority,
        &recipient,
        &tree,
        &payer,
        &collection_mint,
        &collection_metadata,
        &collection_edition,
        &bubblegum_signer,
        &item,
    );

    let reference = mpl_bubblegum::instructions::MintToCollectionV1 {
        tree_config: pk(&tree_authority),
        leaf_owner: pk(&recipient),
        leaf_delegate: pk(&recipient),
        merkle_tree: pk(&tree),
        payer: pk(&payer),
        tree_creator_or_delegate: pk(&payer),
        collection_authority: pk(&payer),
        collection_authority_record_pda: None,
        collection_mint: pk(&collection_mint),
        collection_metadata: pk(&collection_metadata),
        collection_edition: pk(&collection_edition),
        bubblegum_signer: pk(&bubblegum_signer),
        log_wrapper: spl_noop::id(),
        compression_program: mpl_bubblegum::programs::SPL_ACCOUNT_COMPRESSION_ID,
        token_metadata_program: mpl_token_metadata::ID,
        system_program: solana_sdk::system_program::id(),
    }
    .instruction(mpl_bubblegum::instructions::MintToCollectionV1InstructionArgs {
        metadata: mpl_bubblegum::types::MetadataArgs {
            name: String::from("NFT Item"),
            symbol: String::from("ITM"),
            uri: String::from("https://example.com/item.json"),
            seller_fee_basis_points: 100,
            primary_sale_happened: false,
            is_mutable: true,
            edition_nonce: None,
            token_standard: Some(mpl_bubblegum::types::TokenStandard::NonFungible),
            collection: Some(mpl_bubblegum::types::Collection {
                verified: false,
                key: pk(&collection_mint),
            }),
            uses: None,
            token_program_version: mpl_bubblegum::types::TokenProgramVersion::Original,
            creators: vec![mpl_bubblegum::types::Creator {
                address: pk(&addr(39)),
                verified: false,
                share: 100,
            }],
        },
    });
    assert_same(&ours, &reference);
}

#[test]
fn builders_are_referentially_transparent() {
    let cfg = TreeConfig { max_depth: 20, max_buffer_size: 256 };
    let a = build_create_tree(&addr(1), &addr(2), &addr(3), &cfg);
    let b = build_create_tree(&addr(1), &addr(2), &addr(3), &cfg);
    assert_eq!(a.program.to_bytes(), b.program.to_bytes());
    assert_eq!(a.data, b.data);
    assert_eq!(a.accounts.len(), b.accounts.len());
    for (x, y) in a.accounts.iter().zip(b.accounts.iter()) {
        assert_eq!(x.address.to_bytes(), y.address.to_bytes());
        assert_eq!(x.is_signer, y.is_signer);
        assert_eq!(x.is_writable, y.is_writable);
    }
}
