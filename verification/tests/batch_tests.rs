//! Tests of the batch mint sequencer: sequencing in input order, the
//! abort-on-first-failure policy, and pre-flight address validation.
use cnft::Address;
use cnft::CnftError;
use cnft::batch::MintBatch;
use cnft::builders::MintItemConfig;
use solana_sdk::pubkey::Pubkey;

fn item() -> MintItemConfig {
    MintItemConfig {
        name: String::from("NFT Item").into_bytes(),
        symbol: String::from("ITM").into_bytes(),
        uri: String::from("https://example.com/item.json").into_bytes(),
        seller_fee_basis_points: 0,
        creators: Vec::new(),
    }
}

fn payer() -> Address {
    Address::from_bytes([3u8; 32])
}

fn unique() -> String {
    Pubkey::new_unique().to_string()
}

#[test]
fn new_rejects_bad_collection_string() {
    let r = MintBatch::new(&payer(), &String::from("???"), &unique(), item(), Vec::new());
    assert_eq!(r.err(), Some(CnftError::InvalidCollection));
}

#[test]
fn new_rejects_bad_tree_string() {
    let r = MintBatch::new(&payer(), &unique(), &String::from("bad tree"), item(), Vec::new());
    assert_eq!(r.err(), Some(CnftError::InvalidTree));
}

#[test]
fn full_batch_yields_one_signature_per_recipient() {
    // Three recipients whose submissions all confirm: exactly three
    // attempts, in input order, and exactly three signatures.
    let recipients = vec![unique(), unique(), unique()];
    let mut batch =
        MintBatch::new(&payer(), &unique(), &unique(), item(), recipients.clone()).unwrap();
    let mut attempts = 0usize;
    let mut built_for: Vec<Vec<u8>> = Vec::new();
    while !batch.is_done() {
        let ix = batch.next_instruction().unwrap();
        // account 1 is the leaf owner: the recipient of this attempt.
        built_for.push(ix.accounts[1].address.to_bytes().to_vec());
        attempts += 1;
        batch.record_success(format!("sig-{attempts}"));
    }
    assert_eq!(attempts, 3);
    let expected: Vec<Vec<u8>> = recipients
        .iter()
        .map(|r| Address::parse(r).unwrap().to_bytes().to_vec())
        .collect();
    assert_eq!(built_for, expected);
    let signatures = batch.finish();
    assert_eq!(
        signatures,
        vec![String::from("sig-1"), String::from("sig-2"), String::from("sig-3")]
    );
}

#[test]
fn batch_aborts_on_first_failure() {
    // Recipient 2 of 4 fails: exactly two attempts happen, the failure
    // carries the first signature only, and recipients 3 and 4 are never
    // attempted.
    let recipients = vec![unique(), unique(), unique(), unique()];
    let mut batch = MintBatch::new(&payer(), &unique(), &unique(), item(), recipients).unwrap();
    let mut attempts = 0usize;
    let failure = loop {
        assert!(!batch.is_done());
        let _ix = batch.next_instruction().unwrap();
        attempts += 1;
        if attempts == 2 {
            // The ledger rejects this submission: the batch aborts.
            break batch.into_failure(CnftError::SubmissionFailed(String::from(
                "simulation failed",
            )));
        }
        batch.record_success(format!("sig-{attempts}"));
    };
    assert_eq!(attempts, 2);
    assert_eq!(failure.completed, vec![String::from("sig-1")]);
    assert_eq!(
        failure.error,
        CnftError::SubmissionFailed(String::from("simulation failed"))
    );
}

#[test]
fn bad_recipient_fails_before_any_submission() {
    // A recipient that does not decode causes InvalidAddress from the
    // instruction builder itself, before any network call could be made.
    let recipients = vec![unique(), String::from("not base58 at all"), unique()];
    let mut batch = MintBatch::new(&payer(), &unique(), &unique(), item(), recipients).unwrap();
    let first = batch.next_instruction();
    assert!(first.is_ok());
    batch.record_success(String::from("sig-1"));
    let second = batch.next_instruction();
    assert_eq!(second.err(), Some(CnftError::InvalidAddress));
    // The batch aborts, returning only the signature collected so far.
    let failure = batch.into_failure(CnftError::InvalidAddress);
    assert_eq!(failure.completed, vec![String::from("sig-1")]);
    assert_eq!(failure.error, CnftError::InvalidAddress);
}

#[test]
fn batch_instruction_matches_standalone_builder() {
    let collection = unique();
    let tree = unique();
    let recipient = unique();
    let batch = MintBatch::new(
        &payer(),
        &collection,
        &tree,
        item(),
        vec![recipient.clone()],
    )
    .unwrap();
    let ix = batch.next_instruction().unwrap();

    let collection_a = Address::parse(&collection).unwrap();
    let tree_a = Address::parse(&tree).unwrap();
    let recipient_a = Address::parse(&recipient).unwrap();
    let (tree_authority, _) = cnft::derive::tree_authority_pda(&tree_a).unwrap();
    let (metadata, _) = cnft::derive::metadata_pda(&collection_a).unwrap();
    let (edition, _) = cnft::derive::master_edition_pda(&collection_a).unwrap();
    let (signer_pda, _) = cnft::derive::bubblegum_signer_pda().unwrap();
    let expected = cnft::builders::build_mint_to_collection(
        &tree_authority,
        &recipient_a,
        &tree_a,
        &payer(),
        &collection_a,
        &metadata,
        &edition,
        &signer_pda,
        &item(),
    );
    assert_eq!(ix.data, expected.data);
    assert_eq!(ix.program.to_bytes(), expected.program.to_bytes());
    assert_eq!(ix.accounts.len(), expected.accounts.len());
    for (a, b) in ix.accounts.iter().zip(expected.accounts.iter()) {
        assert_eq!(a.address.to_bytes(), b.address.to_bytes());
        assert_eq!(a.is_signer, b.is_signer);
        assert_eq!(a.is_writable, b.is_writable);
    }
}
