//! The four instruction builders, one per on-chain operation. Each is a
//! pure function whose contract pins the produced instruction down byte for
//! byte: the target program, the exact account list with its read/write and
//! signer flags, and the exact argument payload.
use vstd::prelude::*;
use crate::addr::Address;
use crate::encode::bool_byte;
use crate::encode::len_prefixed;
use crate::encode::push_address;
use crate::encode::push_bool;
use crate::encode::push_len_prefixed;
use crate::encode::push_u16_le;
use crate::encode::push_u32_le;
use crate::encode::push_u64_le;
use crate::encode::u16_le;
use crate::encode::u32_le;
use crate::encode::u64_le;
use crate::instruction::AccountMeta;
use crate::instruction::AccountModel;
use crate::instruction::InstrModel;
use crate::instruction::Instruction;
use crate::programs::bubblegum_program;
use crate::programs::bubblegum_program_id;
use crate::programs::compression_program;
use crate::programs::compression_program_id;
use crate::programs::noop_program;
use crate::programs::noop_program_id;
use crate::programs::rent_sysvar;
use crate::programs::rent_sysvar_id;
use crate::programs::system_program;
use crate::programs::system_program_id;
use crate::programs::token_metadata_program;
use crate::programs::token_metadata_program_id;
use crate::programs::token_program;
use crate::programs::token_program_id;

verus! {

/// A royalty-split entry: beneficiary address, verified flag, and its
/// percentage share (0-100 by domain convention, not enforced here).
#[derive(Clone, Debug)]
pub struct CreatorShare {
    pub address: Address,
    pub verified: bool,
    pub share: u8,
}

/// Configuration of a collection's metadata. Text fields hold the UTF-8
/// bytes of the name, symbol and metadata URI.
#[derive(Clone, Debug)]
pub struct CollectionConfig {
    pub name: Vec<u8>,
    pub symbol: Vec<u8>,
    pub uri: Vec<u8>,
    pub seller_fee_basis_points: u16,
    pub creators: Option<Vec<CreatorShare>>,
}

/// Structural parameters of a state-compressed merkle tree.
#[derive(Clone, Copy, Debug)]
pub struct TreeConfig {
    pub max_depth: u32,
    pub max_buffer_size: u32,
}

/// Per-leaf metadata for minting one compressed NFT into a collection.
#[derive(Clone, Debug)]
pub struct MintItemConfig {
    pub name: Vec<u8>,
    pub symbol: Vec<u8>,
    pub uri: Vec<u8>,
    pub seller_fee_basis_points: u16,
    pub creators: Vec<CreatorShare>,
}

/// Field lengths small enough for their u32 length prefixes.
pub open spec fn collection_config_sizes_ok(cfg: CollectionConfig) -> bool {
    &&& cfg.name@.len() <= u32::MAX
    &&& cfg.symbol@.len() <= u32::MAX
    &&& cfg.uri@.len() <= u32::MAX
    &&& match cfg.creators {
        Some(cs) => cs@.len() <= u32::MAX,
        None => true,
    }
}

/// Field lengths small enough for their u32 length prefixes.
pub open spec fn mint_item_sizes_ok(item: MintItemConfig) -> bool {
    &&& item.name@.len() <= u32::MAX
    &&& item.symbol@.len() <= u32::MAX
    &&& item.uri@.len() <= u32::MAX
    &&& item.creators@.len() <= u32::MAX
}

/// A creator entry on the wire: 32-byte address, verified flag, share.
pub open spec fn creator_bytes(c: CreatorShare) -> Seq<u8> {
    c.address@ + seq![bool_byte(c.verified), c.share]
}

/// The concatenated wire forms of a sequence of creator entries.
pub open spec fn creator_entries(s: Seq<CreatorShare>) -> Seq<u8>
    decreases s.len(),
{
    if s.len() == 0 {
        Seq::empty()
    } else {
        creator_bytes(s[0]) + creator_entries(s.drop_first())
    }
}

/// A creator list on the wire: u32 count, then each entry in order.
pub open spec fn creator_list_bytes(s: Seq<CreatorShare>) -> Seq<u8> {
    u32_le(s.len() as u32) + creator_entries(s)
}

/// An optional creator list on the wire: tag byte, then the list if any.
pub open spec fn creators_option_bytes(o: Option<Vec<CreatorShare>>) -> Seq<u8> {
    match o {
        None => seq![0u8],
        Some(cs) => seq![1u8] + creator_list_bytes(cs@),
    }
}

proof fn lemma_creator_entries_push(s: Seq<CreatorShare>, x: CreatorShare)
    ensures
        creator_entries(s.push(x)) == creator_entries(s) + creator_bytes(x),
    decreases s.len(),
{
    if s.len() == 0 {
        let t = s.push(x);
        assert(t[0] == x);
        assert(t.drop_first() =~= Seq::<CreatorShare>::empty());
        assert(creator_entries(t.drop_first()) =~= Seq::<u8>::empty());
        assert(creator_entries(t) =~= creator_bytes(x));
        assert(creator_entries(s) =~= Seq::<u8>::empty());
        assert(creator_entries(s.push(x)) =~= creator_entries(s) + creator_bytes(x));
    } else {
        assert(s.push(x).drop_first() =~= s.drop_first().push(x));
        lemma_creator_entries_push(s.drop_first(), x);
        assert(s.push(x)[0] == s[0]);
        assert(creator_entries(s.push(x)) =~= creator_entries(s) + creator_bytes(x));
    }
}

fn push_creator(out: &mut Vec<u8>, c: &CreatorShare)
    ensures
        final(out)@ == old(out)@ + creator_bytes(*c),
{
    push_address(out, &c.address);
    push_bool(out, c.verified);
    out.push(c.share);
    assert(out@ =~= old(out)@ + creator_bytes(*c));
}

/// Appends a creator list: its u32 count, then each entry in order.
fn push_creator_list(out: &mut Vec<u8>, s: &Vec<CreatorShare>)
    requires
        s@.len() <= u32::MAX,
    ensures
        final(out)@ == old(out)@ + creator_list_bytes(s@),
{
    push_u32_le(out, s.len() as u32);
    let ghost prefix = out@;
    let mut i: usize = 0;
    while i < s.len()
        invariant
            i <= s@.len(),
            out@ == prefix + creator_entries(s@.subrange(0, i as int)),
        decreases s@.len() - i,
    {
        push_creator(out, &s[i]);
        i = i + 1;
        proof {
            assert(s@.subrange(0, i as int) =~= s@.subrange(0, i as int - 1).push(
                s@[i as int - 1],
            ));
            lemma_creator_entries_push(s@.subrange(0, i as int - 1), s@[i as int - 1]);
        }
    }
    assert(s@.subrange(0, s@.len() as int) =~= s@);
}

/// The argument payload of the create-collection-metadata instruction: the
/// discriminator byte, the metadata record (name, symbol, URI, royalty
/// basis points, optional creators, a collection reference to the mint
/// itself, a multiple-use marker), the mutability flag, and a collection
/// details record of size zero.
pub open spec fn create_metadata_data(mint: Seq<u8>, cfg: CollectionConfig) -> Seq<u8> {
    seq![33u8] + len_prefixed(cfg.name@) + len_prefixed(cfg.symbol@) + len_prefixed(cfg.uri@)
        + u16_le(cfg.seller_fee_basis_points) + creators_option_bytes(cfg.creators) + seq![
        1u8,
        0u8,
    ] + mint + seq![1u8, 1u8] + u64_le(0) + u64_le(0) + seq![1u8] + seq![1u8, 0u8] + u64_le(0)
}

/// The account list of the create-collection-metadata instruction, in the
/// exact order the token-metadata program mandates.
pub open spec fn create_metadata_accounts(
    metadata: Seq<u8>,
    mint: Seq<u8>,
    payer: Seq<u8>,
) -> Seq<AccountModel> {
    seq![
        AccountModel { address: metadata, is_signer: false, is_writable: true },
        AccountModel { address: mint, is_signer: false, is_writable: false },
        AccountModel { address: payer, is_signer: true, is_writable: false },
        AccountModel { address: payer, is_signer: true, is_writable: true },
        AccountModel { address: payer, is_signer: true, is_writable: false },
        AccountModel { address: system_program_id(), is_signer: false, is_writable: false },
        AccountModel { address: rent_sysvar_id(), is_signer: false, is_writable: false },
    ]
}

/// The whole create-collection-metadata instruction as a model.
pub open spec fn create_metadata_model(
    metadata: Seq<u8>,
    mint: Seq<u8>,
    payer: Seq<u8>,
    cfg: CollectionConfig,
) -> InstrModel {
    InstrModel {
        program: token_metadata_program_id(),
        accounts: create_metadata_accounts(metadata, mint, payer),
        data: create_metadata_data(mint, cfg),
    }
}

/// Builds the create-collection-metadata instruction. The payer is also
/// mint authority and update authority; the collection reference points at
/// the mint itself, unverified, and the collection-details marker declares
/// a collection root of initial size zero.
pub fn build_create_metadata(
    metadata: &Address,
    mint: &Address,
    payer: &Address,
    cfg: &CollectionConfig,
) -> (r: Instruction)
    requires
        collection_config_sizes_ok(*cfg),
    ensures
        r@ == create_metadata_model(metadata@, mint@, payer@, *cfg),
{
    let mut accounts: Vec<AccountMeta> = Vec::new();
    accounts.push(AccountMeta::writable(*metadata, false));
    accounts.push(AccountMeta::readonly(*mint, false));
    accounts.push(AccountMeta::readonly(*payer, true));
    accounts.push(AccountMeta::writable(*payer, true));
    accounts.push(AccountMeta::readonly(*payer, true));
    accounts.push(AccountMeta::readonly(system_program(), false));
    accounts.push(AccountMeta::readonly(rent_sysvar(), false));

    let mut data: Vec<u8> = Vec::new();
    data.push(33);
    push_len_prefixed(&mut data, &cfg.name);
    push_len_prefixed(&mut data, &cfg.symbol);
    push_len_prefixed(&mut data, &cfg.uri);
    push_u16_le(&mut data, cfg.seller_fee_basis_points);
    match &cfg.creators {
        Some(cs) => {
            data.push(1);
            push_creator_list(&mut data, cs);
        }
        None => {
            data.push(0);
        }
    }
    data.push(1);
    data.push(0);
    push_address(&mut data, mint);
    data.push(1);
    data.push(1);
    push_u64_le(&mut data, 0);
    push_u64_le(&mut data, 0);
    data.push(1);
    data.push(1);
    data.push(0);
    push_u64_le(&mut data, 0);

    let r = Instruction { program: token_metadata_program(), accounts, data };
    proof {
        assert(r@.accounts =~= create_metadata_accounts(metadata@, mint@, payer@));
        assert(r@.data =~= create_metadata_data(mint@, *cfg));
        assert(r@ =~~= create_metadata_model(metadata@, mint@, payer@, *cfg));
    }
    r
}

/// The argument payload of the create-master-edition instruction: the
/// discriminator byte and a maximum supply of zero (non-printable).
pub open spec fn create_master_edition_data() -> Seq<u8> {
    seq![17u8] + seq![1u8] + u64_le(0)
}

/// The account list of the create-master-edition instruction.
pub open spec fn create_master_edition_accounts(
    edition: Seq<u8>,
    mint: Seq<u8>,
    metadata: Seq<u8>,
    payer: Seq<u8>,
) -> Seq<AccountModel> {
    seq![
        AccountModel { address: edition, is_signer: false, is_writable: true },
        AccountModel { address: mint, is_signer: false, is_writable: true },
        AccountModel { address: payer, is_signer: true, is_writable: false },
        AccountModel { address: payer, is_signer: true, is_writable: false },
        AccountModel { address: payer, is_signer: true, is_writable: true },
        AccountModel { address: metadata, is_signer: false, is_writable: true },
        AccountModel { address: token_program_id(), is_signer: false, is_writable: false },
        AccountModel { address: system_program_id(), is_signer: false, is_writable: false },
        AccountModel { address: rent_sysvar_id(), is_signer: false, is_writable: false },
    ]
}

/// The whole create-master-edition instruction as a model.
pub open spec fn create_master_edition_model(
    edition: Seq<u8>,
    mint: Seq<u8>,
    metadata: Seq<u8>,
    payer: Seq<u8>,
) -> InstrModel {
    InstrModel {
        program: token_metadata_program_id(),
        accounts: create_master_edition_accounts(edition, mint, metadata, payer),
        data: create_master_edition_data(),
    }
}

/// Builds the create-master-edition instruction for a collection mint. The
/// payer is also update authority and mint authority; maximum supply is
/// zero, so the collection mint is non-printable.
pub fn build_create_master_edition(
    edition: &Address,
    mint: &Address,
    metadata: &Address,
    payer: &Address,
) -> (r: Instruction)
    ensures
        r@ == create_master_edition_model(edition@, mint@, metadata@, payer@),
{
    let mut accounts: Vec<AccountMeta> = Vec::new();
    accounts.push(AccountMeta::writable(*edition, false));
    accounts.push(AccountMeta::writable(*mint, false));
    accounts.push(AccountMeta::readonly(*payer, true));
    accounts.push(AccountMeta::readonly(*payer, true));
    accounts.push(AccountMeta::writable(*payer, true));
    accounts.push(AccountMeta::writable(*metadata, false));
    accounts.push(AccountMeta::readonly(token_program(), false));
    accounts.push(AccountMeta::readonly(system_program(), false));
    accounts.push(AccountMeta::readonly(rent_sysvar(), false));

    let mut data: Vec<u8> = Vec::new();
    data.push(17);
    data.push(1);
    push_u64_le(&mut data, 0);

    let r = Instruction { program: token_metadata_program(), accounts, data };
    proof {
        assert(r@.accounts =~= create_master_edition_accounts(edition@, mint@, metadata@, payer@));
        assert(r@.data =~= create_master_edition_data());
        assert(r@ =~~= create_master_edition_model(edition@, mint@, metadata@, payer@));
    }
    r
}

/// The argument payload of the create-tree-config instruction: the 8-byte
/// discriminator, max depth, max buffer size, and a public flag of true.
pub open spec fn create_tree_data(cfg: TreeConfig) -> Seq<u8> {
    seq![165u8, 83, 136, 142, 89, 202, 47, 220] + u32_le(cfg.max_depth) + u32_le(
        cfg.max_buffer_size,
    ) + seq![1u8, 1u8]
}

/// The account list of the create-tree-config instruction.
pub open spec fn create_tree_accounts(
    tree_authority: Seq<u8>,
    tree: Seq<u8>,
    payer: Seq<u8>,
) -> Seq<AccountModel> {
    seq![
        AccountModel { address: tree_authority, is_signer: false, is_writable: true },
        AccountModel { address: tree, is_signer: false, is_writable: true },
        AccountModel { address: payer, is_signer: true, is_writable: true },
        AccountModel { address: payer, is_signer: true, is_writable: false },
        AccountModel { address: noop_program_id(), is_signer: false, is_writable: false },
        AccountModel { address: compression_program_id(), is_signer: false, is_writable: false },
        AccountModel { address: system_program_id(), is_signer: false, is_writable: false },
    ]
}

/// The whole create-tree-config instruction as a model.
pub open spec fn create_tree_model(
    tree_authority: Seq<u8>,
    tree: Seq<u8>,
    payer: Seq<u8>,
    cfg: TreeConfig,
) -> InstrModel {
    InstrModel {
        program: bubblegum_program_id(),
        accounts: create_tree_accounts(tree_authority, tree, payer),
        data: create_tree_data(cfg),
    }
}

/// Builds the create-tree-config instruction. The payer is also the tree
/// creator, and the tree is declared public.
pub fn build_create_tree(
    tree_authority: &Address,
    tree: &Address,
    payer: &Address,
    cfg: &TreeConfig,
) -> (r: Instruction)
    ensures
        r@ == create_tree_model(tree_authority@, tree@, payer@, *cfg),
{
    let mut accounts: Vec<AccountMeta> = Vec::new();
    accounts.push(AccountMeta::writable(*tree_authority, false));
    accounts.push(AccountMeta::writable(*tree, false));
    accounts.push(AccountMeta::writable(*payer, true));
    accounts.push(AccountMeta::readonly(*payer, true));
    accounts.push(AccountMeta::readonly(noop_program(), false));
    accounts.push(AccountMeta::readonly(compression_program(), false));
    accounts.push(AccountMeta::readonly(system_program(), false));

    let mut data: Vec<u8> = Vec::new();
    data.push(165);
    data.push(83);
    data.push(136);
    data.push(142);
    data.push(89);
    data.push(202);
    data.push(47);
    data.push(220);
    push_u32_le(&mut data, cfg.max_depth);
    push_u32_le(&mut data, cfg.max_buffer_size);
    data.push(1);
    data.push(1);

    let r = Instruction { program: bubblegum_program(), accounts, data };
    proof {
        assert(r@.accounts =~= create_tree_accounts(tree_authority@, tree@, payer@));
        assert(r@.data =~= create_tree_data(*cfg));
        assert(r@ =~~= create_tree_model(tree_authority@, tree@, payer@, *cfg));
    }
    r
}

/// The argument payload of the mint-to-collection instruction: the 8-byte
/// discriminator, then the leaf metadata (name, symbol, URI, royalty basis
/// points, not-yet-sold and mutable flags, no edition nonce, non-fungible
/// standard, an unverified reference to the collection mint, no uses, the
/// original token-program version, and the creator list).
pub open spec fn mint_to_collection_data(collection_mint: Seq<u8>, item: MintItemConfig) -> Seq<
    u8,
> {
    seq![153u8, 18, 178, 47, 197, 158, 86, 15] + len_prefixed(item.name@) + len_prefixed(
        item.symbol@,
    ) + len_prefixed(item.uri@) + u16_le(item.seller_fee_basis_points) + seq![0u8] + seq![1u8]
        + seq![0u8] + seq![1u8, 0u8] + seq![1u8, 0u8] + collection_mint + seq![0u8] + seq![0u8]
        + creator_list_bytes(item.creators@)
}

/// The account list of the mint-to-collection instruction. The recipient is
/// both leaf owner and leaf delegate; the payer is also tree delegate and
/// collection authority; the slot for a collection-authority record holds
/// the bubblegum program id, meaning no such record is used.
pub open spec fn mint_to_collection_accounts(
    tree_authority: Seq<u8>,
    recipient: Seq<u8>,
    tree: Seq<u8>,
    payer: Seq<u8>,
    collection_mint: Seq<u8>,
    collection_metadata: Seq<u8>,
    collection_edition: Seq<u8>,
    bubblegum_signer: Seq<u8>,
) -> Seq<AccountModel> {
    seq![
        AccountModel { address: tree_authority, is_signer: false, is_writable: true },
        AccountModel { address: recipient, is_signer: false, is_writable: false },
        AccountModel { address: recipient, is_signer: false, is_writable: false },
        AccountModel { address: tree, is_signer: false, is_writable: true },
        AccountModel { address: payer, is_signer: true, is_writable: false },
        AccountModel { address: payer, is_signer: true, is_writable: false },
        AccountModel { address: payer, is_signer: true, is_writable: false },
        AccountModel { address: bubblegum_program_id(), is_signer: false, is_writable: false },
        AccountModel { address: collection_mint, is_signer: false, is_writable: false },
        AccountModel { address: collection_metadata, is_signer: false, is_writable: true },
        AccountModel { address: collection_edition, is_signer: false, is_writable: false },
        AccountModel { address: bubblegum_signer, is_signer: false, is_writable: false },
        AccountModel { address: noop_program_id(), is_signer: false, is_writable: false },
        AccountModel { address: compression_program_id(), is_signer: false, is_writable: false },
        AccountModel { address: token_metadata_program_id(), is_signer: false, is_writable: false },
        AccountModel { address: system_program_id(), is_signer: false, is_writable: false },
    ]
}

/// The whole mint-to-collection instruction as a model.
pub open spec fn mint_to_collection_model(
    tree_authority: Seq<u8>,
    recipient: Seq<u8>,
    tree: Seq<u8>,
    payer: Seq<u8>,
    collection_mint: Seq<u8>,
    collection_metadata: Seq<u8>,
    collection_edition: Seq<u8>,
    bubblegum_signer: Seq<u8>,
    item: MintItemConfig,
) -> InstrModel {
    InstrModel {
        program: bubblegum_program_id(),
        accounts: mint_to_collection_accounts(
            tree_authority,
            recipient,
            tree,
            payer,
            collection_mint,
            collection_metadata,
            collection_edition,
            bubblegum_signer,
        ),
        data: mint_to_collection_data(collection_mint, item),
    }
}

/// Builds the mint-to-collection instruction for one recipient.
#[verifier::rlimit(100)]
pub fn build_mint_to_collection(
    tree_authority: &Address,
    recipient: &Address,
    tree: &Address,
    payer: &Address,
    collection_mint: &Address,
    collection_metadata: &Address,
    collection_edition: &Address,
    bubblegum_signer: &Address,
    item: &MintItemConfig,
) -> (r: Instruction)
    requires
        mint_item_sizes_ok(*item),
    ensures
        r@ == mint_to_collection_model(
            tree_authority@,
            recipient@,
            tree@,
            payer@,
            collection_mint@,
            collection_metadata@,
            collection_edition@,
            bubblegum_signer@,
            *item,
        ),
{
    let mut accounts: Vec<AccountMeta> = Vec::new();
    accounts.push(AccountMeta::writable(*tree_authority, false));
    accounts.push(AccountMeta::readonly(*recipient, false));
    accounts.push(AccountMeta::readonly(*recipient, false));
    accounts.push(AccountMeta::writable(*tree, false));
    accounts.push(AccountMeta::readonly(*payer, true));
    accounts.push(AccountMeta::readonly(*payer, true));
    accounts.push(AccountMeta::readonly(*payer, true));
    accounts.push(AccountMeta::readonly(bubblegum_program(), false));
    accounts.push(AccountMeta::readonly(*collection_mint, false));
    accounts.push(AccountMeta::writable(*collection_metadata, false));
    accounts.push(AccountMeta::readonly(*collection_edition, false));
    accounts.push(AccountMeta::readonly(*bubblegum_signer, false));
    accounts.push(AccountMeta::readonly(noop_program(), false));
    accounts.push(AccountMeta::readonly(compression_program(), false));
    accounts.push(AccountMeta::readonly(token_metadata_program(), false));
    accounts.push(AccountMeta::readonly(system_program(), false));

    let mut data: Vec<u8> = Vec::new();
    data.push(153);
    data.push(18);
    data.push(178);
    data.push(47);
    data.push(197);
    data.push(158);
    data.push(86);
    data.push(15);
    push_len_prefixed(&mut data, &item.name);
    push_len_prefixed(&mut data, &item.symbol);
    push_len_prefixed(&mut data, &item.uri);
    push_u16_le(&mut data, item.seller_fee_basis_points);
    data.push(0);
    data.push(1);
    data.push(0);
    data.push(1);
    data.push(0);
    data.push(1);
    data.push(0);
    push_address(&mut data, collection_mint);
    data.push(0);
    data.push(0);
    push_creator_list(&mut data, &item.creators);

    let r = Instruction { program: bubblegum_program(), accounts, data };
    proof {
        assert(r@.accounts =~= mint_to_collection_accounts(
            tree_authority@,
            recipient@,
            tree@,
            payer@,
            collection_mint@,
            collection_metadata@,
            collection_edition@,
            bubblegum_signer@,
        ));
        assert(r@.data =~= mint_to_collection_data(collection_mint@, *item));
        assert(r@ =~~= mint_to_collection_model(
            tree_authority@,
            recipient@,
            tree@,
            payer@,
            collection_mint@,
            collection_metadata@,
            collection_edition@,
            bubblegum_signer@,
            *item,
        ));
    }
    r
}

/// Instruction builders are referentially transparent: any two instructions
/// whose views equal the same builder model — i.e. built from identical
/// typed inputs — agree byte for byte on program, account list and
/// argument payload.
pub proof fn lemma_builder_referential_transparency(a: Instruction, b: Instruction, m: InstrModel)
    requires
        a@ == m,
        b@ == m,
    ensures
        a@.program == b@.program,
        a@.accounts == b@.accounts,
        a@.data == b@.data,
{
}

} // verus!
