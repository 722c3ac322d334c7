//! The batch mint sequencer: recipients are processed strictly in input
//! order, one at a time. For each recipient the caller asks this state
//! machine for the mint instruction, submits it, and reports the outcome
//! back; the first failure aborts the whole batch, returning only the
//! signatures collected so far.
use vstd::prelude::*;
use crate::addr::Address;
use crate::addr::base58_decode;
use crate::builders::MintItemConfig;
use crate::builders::build_mint_to_collection;
use crate::builders::mint_item_sizes_ok;
use crate::builders::mint_to_collection_model;
use crate::derive::bubblegum_signer_pda;
use crate::derive::bubblegum_signer_seeds;
use crate::derive::edition_pda_seeds;
use crate::derive::master_edition_pda;
use crate::derive::metadata_pda;
use crate::derive::metadata_pda_seeds;
use crate::derive::pda;
use crate::derive::tree_authority_pda;
use crate::derive::tree_authority_seeds;
use crate::errors::CnftError;
use crate::instruction::Instruction;
use crate::programs::bubblegum_program_id;
use crate::programs::token_metadata_program_id;

verus! {

/// What a failed batch returns: the signatures of the recipients confirmed
/// before the failure, in input order, and the error that stopped it.
pub struct BatchFailure {
    pub completed: Vec<String>,
    pub error: CnftError,
}

/// The spec-level state of a mint batch.
#[verifier::ext_equal]
pub ghost struct BatchModel {
    pub payer: Seq<u8>,
    pub tree: Seq<u8>,
    pub tree_authority: Seq<u8>,
    pub collection_mint: Seq<u8>,
    pub collection_metadata: Seq<u8>,
    pub collection_edition: Seq<u8>,
    pub bubblegum_signer: Seq<u8>,
    pub item: MintItemConfig,
    pub recipients: Seq<String>,
    pub next: nat,
    pub signatures: Seq<String>,
}

/// The batch mint sequencer's state: the resolved addresses, the shared
/// per-leaf configuration, the recipient list, and the progress so far.
pub struct MintBatch {
    payer: Address,
    tree: Address,
    tree_authority: Address,
    collection_mint: Address,
    collection_metadata: Address,
    collection_edition: Address,
    bubblegum_signer: Address,
    item: MintItemConfig,
    recipients: Vec<String>,
    next: usize,
    signatures: Vec<String>,
}

impl View for MintBatch {
    type V = BatchModel;

    closed spec fn view(&self) -> BatchModel {
        BatchModel {
            payer: self.payer@,
            tree: self.tree@,
            tree_authority: self.tree_authority@,
            collection_mint: self.collection_mint@,
            collection_metadata: self.collection_metadata@,
            collection_edition: self.collection_edition@,
            bubblegum_signer: self.bubblegum_signer@,
            item: self.item,
            recipients: self.recipients@,
            next: self.next as nat,
            signatures: self.signatures@,
        }
    }
}

/// All inputs a batch needs resolve: both address strings decode and every
/// program-derived address exists.
pub open spec fn batch_inputs_ok(collection_mint: Seq<char>, tree: Seq<char>) -> bool {
    &&& base58_decode(collection_mint) is Some
    &&& base58_decode(tree) is Some
    &&& pda(bubblegum_program_id(), tree_authority_seeds(base58_decode(tree).unwrap())) is Some
    &&& pda(
        token_metadata_program_id(),
        metadata_pda_seeds(base58_decode(collection_mint).unwrap()),
    ) is Some
    &&& pda(
        token_metadata_program_id(),
        edition_pda_seeds(base58_decode(collection_mint).unwrap()),
    ) is Some
    &&& pda(bubblegum_program_id(), bubblegum_signer_seeds()) is Some
}

impl MintBatch {
    /// A well-formed batch: its per-leaf configuration fits the length
    /// prefixes, progress never passes the recipient list, and exactly one
    /// signature has been collected per processed recipient.
    pub open spec fn wf(&self) -> bool {
        &&& mint_item_sizes_ok(self@.item)
        &&& self@.next <= self@.recipients.len()
        &&& self@.signatures.len() == self@.next
    }

    /// Whether every recipient has been processed.
    pub fn is_done(&self) -> (r: bool)
        ensures
            r == (self@.next == self@.recipients.len()),
    {
        self.next == self.recipients.len()
    }

    /// Starts a batch. Fails with `InvalidCollection` or `InvalidTree`
    /// exactly where the respective address string does not decode, and
    /// with `DerivationFailed` where a program-derived address cannot be
    /// found; succeeds exactly where all inputs resolve.
    pub fn new(
        payer: &Address,
        collection_mint: &String,
        merkle_tree: &String,
        item: MintItemConfig,
        recipients: Vec<String>,
    ) -> (r: Result<MintBatch, CnftError>)
        requires
            mint_item_sizes_ok(item),
        ensures
            r is Ok <==> batch_inputs_ok(collection_mint@, merkle_tree@),
            match r {
                Ok(b) => {
                    &&& b.wf()
                    &&& b@.payer == payer@
                    &&& base58_decode(collection_mint@) == Some(b@.collection_mint)
                    &&& base58_decode(merkle_tree@) == Some(b@.tree)
                    &&& pda(bubblegum_program_id(), tree_authority_seeds(b@.tree)) matches Some(p)
                        && p.0 == b@.tree_authority
                    &&& pda(token_metadata_program_id(), metadata_pda_seeds(b@.collection_mint))
                        matches Some(p) && p.0 == b@.collection_metadata
                    &&& pda(token_metadata_program_id(), edition_pda_seeds(b@.collection_mint))
                        matches Some(p) && p.0 == b@.collection_edition
                    &&& pda(bubblegum_program_id(), bubblegum_signer_seeds()) matches Some(p)
                        && p.0 == b@.bubblegum_signer
                    &&& b@.item == item
                    &&& b@.recipients == recipients@
                    &&& b@.next == 0
                    &&& b@.signatures == Seq::<String>::empty()
                },
                Err(e) => {
                    ||| (e == CnftError::InvalidCollection && base58_decode(
                        collection_mint@,
                    ) is None)
                    ||| (e == CnftError::InvalidTree && base58_decode(merkle_tree@) is None)
                    ||| e == CnftError::DerivationFailed
                },
            },
    {
        let collection = match Address::parse(collection_mint.as_str()) {
            Some(a) => a,
            None => {
                return Err(CnftError::InvalidCollection);
            }
        };
        let tree = match Address::parse(merkle_tree.as_str()) {
            Some(a) => a,
            None => {
                return Err(CnftError::InvalidTree);
            }
        };
        let tree_authority = match tree_authority_pda(&tree) {
            Some(p) => p.0,
            None => {
                return Err(CnftError::DerivationFailed);
            }
        };
        let collection_metadata = match metadata_pda(&collection) {
            Some(p) => p.0,
            None => {
                return Err(CnftError::DerivationFailed);
            }
        };
        let collection_edition = match master_edition_pda(&collection) {
            Some(p) => p.0,
            None => {
                return Err(CnftError::DerivationFailed);
            }
        };
        let bubblegum_signer = match bubblegum_signer_pda() {
            Some(p) => p.0,
            None => {
                return Err(CnftError::DerivationFailed);
            }
        };
        Ok(
            MintBatch {
                payer: *payer,
                tree,
                tree_authority,
                collection_mint: collection,
                collection_metadata,
                collection_edition,
                bubblegum_signer,
                item,
                recipients,
                next: 0,
                signatures: Vec::new(),
            },
        )
    }

    /// Builds the mint instruction for the current recipient. Fails with
    /// `InvalidAddress`, before any network call, exactly where the
    /// recipient string does not decode as an address.
    pub fn next_instruction(&self) -> (r: Result<Instruction, CnftError>)
        requires
            self.wf(),
            self@.next < self@.recipients.len(),
        ensures
            match r {
                Ok(ix) => {
                    &&& base58_decode(self@.recipients[self@.next as int]@) matches Some(rec)
                        && ix@ == mint_to_collection_model(
                        self@.tree_authority,
                        rec,
                        self@.tree,
                        self@.payer,
                        self@.collection_mint,
                        self@.collection_metadata,
                        self@.collection_edition,
                        self@.bubblegum_signer,
                        self@.item,
                    )
                },
                Err(e) => {
                    &&& e == CnftError::InvalidAddress
                    &&& base58_decode(self@.recipients[self@.next as int]@) is None
                },
            },
    {
        let recipient_str = &self.recipients[self.next];
        let recipient = match Address::parse(recipient_str.as_str()) {
            Some(a) => a,
            None => {
                return Err(CnftError::InvalidAddress);
            }
        };
        Ok(
            build_mint_to_collection(
                &self.tree_authority,
                &recipient,
                &self.tree,
                &self.payer,
                &self.collection_mint,
                &self.collection_metadata,
                &self.collection_edition,
                &self.bubblegum_signer,
                &self.item,
            ),
        )
    }

    /// Records a confirmed submission for the current recipient: progress
    /// advances by one and its signature is appended, in input order.
    pub fn record_success(&mut self, signature: String)
        requires
            old(self).wf(),
            old(self)@.next < old(self)@.recipients.len(),
        ensures
            final(self).wf(),
            final(self)@ == confirmed_step(old(self)@, signature),
    {
        let bound = self.recipients.len();
        assert(self.next < bound);
        self.next = self.next + 1;
        self.signatures.push(signature);
        assert(self@ =~~= confirmed_step(old(self)@, signature));
    }

    /// The signatures collected so far, in input order.
    pub fn signatures(&self) -> (r: &Vec<String>)
        ensures
            r@ == self@.signatures,
    {
        &self.signatures
    }

    /// Ends a completed batch, yielding one signature per recipient, in
    /// input order.
    pub fn finish(self) -> (r: Vec<String>)
        requires
            self.wf(),
            self@.next == self@.recipients.len(),
        ensures
            r@ == self@.signatures,
            r@.len() == self@.recipients.len(),
    {
        self.signatures
    }

    /// Aborts the batch on its first failure: the caller receives the
    /// signatures collected so far and the stopping error, and no further
    /// recipient is attempted.
    pub fn into_failure(self, error: CnftError) -> (r: BatchFailure)
        ensures
            r.completed@ == self@.signatures,
            r.error == error,
    {
        BatchFailure { completed: self.signatures, error }
    }
}

/// One confirmed submission, as `record_success` performs it: progress
/// advances by one and the signature is appended.
pub open spec fn confirmed_step(m: BatchModel, signature: String) -> BatchModel {
    BatchModel { next: m.next + 1, signatures: m.signatures.push(signature), ..m }
}

/// Driving a batch under the abort-on-first-failure policy, given the
/// outcome the ledger would hand each remaining submission in order
/// (`Some` a signature, `None` a failure): each confirmed outcome is one
/// `confirmed_step`; the first failed outcome, or the end of the recipient
/// list, stops the run. Yields the number of submissions attempted and the
/// final state.
pub open spec fn drive(m: BatchModel, outcomes: Seq<Option<String>>) -> (nat, BatchModel)
    decreases m.recipients.len() - m.next, outcomes.len(),
{
    if m.next >= m.recipients.len() || outcomes.len() == 0 {
        (0, m)
    } else {
        match outcomes[0] {
            None => (1, m),
            Some(sig) => {
                let rest = drive(confirmed_step(m, sig), outcomes.drop_first());
                ((1 + rest.0) as nat, rest.1)
            },
        }
    }
}

/// The signatures of the confirmed outcomes, in order.
pub open spec fn confirmed_signatures(outcomes: Seq<Option<String>>) -> Seq<String> {
    outcomes.map_values(|o: Option<String>| o.unwrap())
}

proof fn lemma_drive_confirmed_general(m: BatchModel, outcomes: Seq<Option<String>>)
    requires
        m.next <= m.recipients.len(),
        outcomes.len() == m.recipients.len() - m.next,
        forall|i: int| 0 <= i < outcomes.len() ==> outcomes[i] is Some,
    ensures
        drive(m, outcomes).0 == outcomes.len(),
        drive(m, outcomes).1.next == m.recipients.len(),
        drive(m, outcomes).1.signatures == m.signatures + confirmed_signatures(outcomes),
        drive(m, outcomes).1.recipients == m.recipients,
    decreases outcomes.len(),
{
    if outcomes.len() == 0 {
        assert(m.signatures + confirmed_signatures(outcomes) =~= m.signatures);
    } else {
        let sig = outcomes[0].unwrap();
        let stepped = confirmed_step(m, sig);
        lemma_drive_confirmed_general(stepped, outcomes.drop_first());
        assert(stepped.signatures + confirmed_signatures(outcomes.drop_first())
            =~= m.signatures + confirmed_signatures(outcomes));
    }
}

proof fn lemma_drive_abort_general(m: BatchModel, outcomes: Seq<Option<String>>, k: nat)
    requires
        m.next <= m.recipients.len(),
        outcomes.len() <= m.recipients.len() - m.next,
        1 <= k <= outcomes.len(),
        forall|i: int| 0 <= i < k - 1 ==> outcomes[i] is Some,
        outcomes[k - 1] is None,
    ensures
        drive(m, outcomes).0 == k,
        drive(m, outcomes).1.next == m.next + k - 1,
        drive(m, outcomes).1.signatures == m.signatures + confirmed_signatures(
            outcomes.subrange(0, k - 1),
        ),
        drive(m, outcomes).1.recipients == m.recipients,
    decreases k,
{
    if k == 1 {
        assert(m.signatures + confirmed_signatures(outcomes.subrange(0, 0)) =~= m.signatures);
    } else {
        let sig = outcomes[0].unwrap();
        let stepped = confirmed_step(m, sig);
        lemma_drive_abort_general(stepped, outcomes.drop_first(), (k - 1) as nat);
        assert(outcomes.drop_first().subrange(0, k - 2) =~= outcomes.subrange(
            1,
            k - 1,
        ));
        assert(stepped.signatures + confirmed_signatures(outcomes.subrange(1, k - 1))
            =~= m.signatures + confirmed_signatures(outcomes.subrange(0, k - 1)));
    }
}

/// Batch sequencing invariant: for a batch of N recipients whose
/// submissions all confirm, the sequencer performs exactly N attempts,
/// strictly in input order, and collects exactly the N signatures.
pub proof fn lemma_sequencer_all_confirmed(m: BatchModel, outcomes: Seq<Option<String>>)
    requires
        m.next == 0,
        m.signatures.len() == 0,
        outcomes.len() == m.recipients.len(),
        forall|i: int| 0 <= i < outcomes.len() ==> outcomes[i] is Some,
    ensures
        drive(m, outcomes).0 == m.recipients.len(),
        drive(m, outcomes).1.next == m.recipients.len(),
        drive(m, outcomes).1.signatures.len() == m.recipients.len(),
        forall|i: int|
            0 <= i < outcomes.len() ==> drive(m, outcomes).1.signatures[i] == outcomes[i].unwrap(),
{
    lemma_drive_confirmed_general(m, outcomes);
    assert(drive(m, outcomes).1.signatures =~= confirmed_signatures(outcomes));
}

/// Failure-abort invariant: where recipient k (1-based) is the first whose
/// submission fails, the sequencer performs exactly k attempts, collects
/// exactly the first k-1 signatures, and never attempts recipients after k.
pub proof fn lemma_sequencer_aborts(m: BatchModel, outcomes: Seq<Option<String>>, k: nat)
    requires
        m.next == 0,
        m.signatures.len() == 0,
        outcomes.len() == m.recipients.len(),
        1 <= k <= outcomes.len(),
        forall|i: int| 0 <= i < k - 1 ==> outcomes[i] is Some,
        outcomes[k - 1] is None,
    ensures
        drive(m, outcomes).0 == k,
        drive(m, outcomes).1.next == k - 1,
        drive(m, outcomes).1.signatures.len() == k - 1,
        forall|i: int|
            0 <= i < k - 1 ==> drive(m, outcomes).1.signatures[i] == outcomes[i].unwrap(),
{
    lemma_drive_abort_general(m, outcomes, k);
    assert(drive(m, outcomes).1.signatures =~= confirmed_signatures(outcomes.subrange(0, k - 1)));
}

} // verus!
