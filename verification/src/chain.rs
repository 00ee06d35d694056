//! Chains: appending a block to the tail, checking hashes and links from
//! the first block on, and classifying the signatures.

use crate::block::{genesis_marker, sealed_as, Block, BlockView, BuildError};
use crate::clock::now_rfc3339;
use crate::keys::{SigningKey, VerifyingKey};
use vstd::prelude::*;
use vstd::string::*;

verus! {

/// The first fault that validation found.
#[derive(Debug, Clone, Copy, PartialEq, Eq)]
pub enum ChainError {
    /// There is no block at all.
    EmptyChain,
    /// The block at this position does not hash to its stored hash.
    HashMismatch(usize),
    /// The block at this position does not name the hash of the one before.
    BrokenLink(usize),
}

/// What is known of one block's signature.
#[derive(Debug, Clone, Copy, PartialEq, Eq)]
pub enum SignatureStatus {
    /// The block carries no signature.
    Unsigned,
    /// The block carries a signature that checks out.
    Valid,
    /// The block carries a signature that does not check out.
    Invalid,
}

/// The views of the blocks of a chain, in order.
pub open spec fn chain_view(chain: Seq<Block>) -> Seq<BlockView> {
    Seq::new(chain.len(), |i: int| chain[i]@)
}

/// The block at `i` names the hash of the block before it. The first block
/// has none before it and is exempt.
pub open spec fn linked_at(chain: Seq<BlockView>, i: int) -> bool {
    i > 0 ==> chain[i].prev_hash == chain[i - 1].hash
}

/// The block at `i` passes both checks.
pub open spec fn sound_at(chain: Seq<BlockView>, i: int) -> bool {
    chain[i].hash_consistent() && linked_at(chain, i)
}

/// Every block before position `n` passes both checks.
pub open spec fn sound_before(chain: Seq<BlockView>, n: int) -> bool {
    forall|j: int| 0 <= j < n ==> sound_at(chain, j)
}

/// `outcome` is the verdict on `chain`: success for a chain that is not
/// empty and sound throughout, else the first fault in chain order, the
/// hash being checked before the link at each block.
pub open spec fn validates_as(chain: Seq<BlockView>, outcome: Result<(), ChainError>) -> bool {
    match outcome {
        Ok(_) => chain.len() > 0 && sound_before(chain, chain.len() as int),
        Err(ChainError::EmptyChain) => chain.len() == 0,
        Err(ChainError::HashMismatch(i)) => {
            &&& i < chain.len()
            &&& sound_before(chain, i as int)
            &&& !chain[i as int].hash_consistent()
        },
        Err(ChainError::BrokenLink(i)) => {
            &&& i < chain.len()
            &&& sound_before(chain, i as int)
            &&& chain[i as int].hash_consistent()
            &&& !linked_at(chain, i as int)
        },
    }
}

/// The `prev_hash` that the next block of `chain` has to carry.
pub open spec fn tail_hash(chain: Seq<BlockView>) -> Seq<char> {
    if chain.len() == 0 {
        genesis_marker()
    } else {
        chain.last().hash
    }
}

/// Every block of `chain` was appended in turn: it hashes to its stored
/// hash and names the tail that the chain had before it.
pub open spec fn built_by_appending(chain: Seq<BlockView>) -> bool {
    forall|i: int|
        0 <= i < chain.len() ==> {
            &&& (#[trigger] chain[i]).hash_consistent()
            &&& chain[i].prev_hash == tail_hash(chain.take(i))
        }
}

impl BlockView {
    /// The status of this block's signature: unsigned where it carries no
    /// signature, else valid or invalid as the signature check finds.
    pub open spec fn signature_status(self) -> SignatureStatus {
        if self.signature is None {
            SignatureStatus::Unsigned
        } else if self.signature_verifies() {
            SignatureStatus::Valid
        } else {
            SignatureStatus::Invalid
        }
    }
}

/// A chain has one verdict only.
pub proof fn lemma_verdict_is_unique(
    chain: Seq<BlockView>,
    first: Result<(), ChainError>,
    second: Result<(), ChainError>,
)
    requires
        validates_as(chain, first),
        validates_as(chain, second),
    ensures
        first == second,
{
    let at = |outcome: Result<(), ChainError>| -> int
        {
            match outcome {
                Err(ChainError::HashMismatch(i)) => i as int,
                Err(ChainError::BrokenLink(i)) => i as int,
                _ => chain.len() as int,
            }
        };
    if at(first) < at(second) {
        assert(sound_at(chain, at(first)));
    } else if at(second) < at(first) {
        assert(sound_at(chain, at(second)));
    }
    if first is Ok {
        // Both are `Ok`, and the unit value inside is the same.
        let inside_first: () = first->Ok_0;
        let inside_second: () = second->Ok_0;
        assert(inside_first == inside_second);
    }
}

/// Chain linkage: a chain whose blocks were appended in turn, each naming
/// the hash of the tail before it, validates.
pub proof fn lemma_built_chain_validates(chain: Seq<BlockView>)
    requires
        chain.len() > 0,
        built_by_appending(chain),
    ensures
        validates_as(chain, Ok(())),
{
    assert forall|j: int| 0 <= j < chain.len() implies sound_at(chain, j) by {
        assert(chain[j].hash_consistent());
        if j > 0 {
            assert(chain.take(j).last() == chain[j - 1]);
        }
    }
}

/// Appending to a chain that is empty or validates a block that hashes to
/// its stored hash and names the tail gives a chain that validates.
pub proof fn lemma_append_keeps_valid(chain: Seq<BlockView>, block: BlockView)
    requires
        chain.len() == 0 || validates_as(chain, Ok(())),
        block.hash_consistent(),
        block.prev_hash == tail_hash(chain),
    ensures
        validates_as(chain.push(block), Ok(())),
{
    let longer = chain.push(block);
    assert forall|j: int| 0 <= j < longer.len() implies sound_at(longer, j) by {
        if j < chain.len() {
            assert(sound_at(chain, j));
        }
    }
}

/// Tamper detection, first half: in a chain that validates, a block
/// replaced by one that no longer hashes to its stored hash is reported as
/// a hash mismatch at its position.
pub proof fn lemma_altered_block_is_reported(chain: Seq<BlockView>, i: usize, altered: BlockView)
    requires
        validates_as(chain, Ok(())),
        i < chain.len(),
        !altered.hash_consistent(),
    ensures
        validates_as(chain.update(i as int, altered), Err(ChainError::HashMismatch(i))),
{
    let changed = chain.update(i as int, altered);
    assert forall|j: int| 0 <= j < i implies sound_at(changed, j) by {
        assert(sound_at(chain, j));
    }
}

/// Tamper detection, second half: in a chain that validates, a block past
/// the first replaced by one that hashes to its stored hash but names
/// another hash than that of the block before it is reported as a broken
/// link at its position.
pub proof fn lemma_relinked_block_is_reported(chain: Seq<BlockView>, i: usize, altered: BlockView)
    requires
        validates_as(chain, Ok(())),
        0 < i < chain.len(),
        altered.hash_consistent(),
        altered.prev_hash != chain[i - 1].hash,
    ensures
        validates_as(chain.update(i as int, altered), Err(ChainError::BrokenLink(i))),
{
    let changed = chain.update(i as int, altered);
    assert forall|j: int| 0 <= j < i implies sound_at(changed, j) by {
        assert(sound_at(chain, j));
    }
}

/// The signature check reads hash, signature and public key only: blocks
/// that agree on these get the same answer, whatever their other fields.
pub proof fn lemma_signature_ignores_content(a: BlockView, b: BlockView)
    requires
        a.hash == b.hash,
        a.signature == b.signature,
        a.public_key == b.public_key,
    ensures
        a.signature_verifies() == b.signature_verifies(),
        a.signature_status() == b.signature_status(),
{
}

/// The hash check reads neither signature nor public key: blocks that
/// agree on everything else get the same answer.
pub proof fn lemma_hash_ignores_signature(a: BlockView, b: BlockView)
    requires
        a.index == b.index,
        a.timestamp == b.timestamp,
        a.data == b.data,
        a.prev_hash == b.prev_hash,
        a.nonce == b.nonce,
        a.hash == b.hash,
    ensures
        a.hash_consistent() == b.hash_consistent(),
{
}

/// Checks every block's hash and every link, from the first block on, and
/// reports the first fault.
pub fn validate_chain(chain: &Vec<Block>) -> (outcome: Result<(), ChainError>)
    ensures
        validates_as(chain_view(chain@), outcome),
{
    let ghost blocks = chain_view(chain@);
    if chain.len() == 0 {
        return Err(ChainError::EmptyChain);
    }
    let mut i: usize = 0;
    while i < chain.len()
        invariant
            i <= chain.len(),
            blocks == chain_view(chain@),
            sound_before(blocks, i as int),
        decreases chain.len() - i,
    {
        let block = &chain[i];
        assert(blocks[i as int] == block@);
        let recalculated = block.calculate_hash();
        if !(block.hash == recalculated) {
            return Err(ChainError::HashMismatch(i));
        }
        if i > 0 {
            let prev = &chain[i - 1];
            assert(blocks[i - 1] == prev@);
            if !(block.prev_hash == prev.hash) {
                return Err(ChainError::BrokenLink(i));
            }
        }
        assert(sound_at(blocks, i as int));
        i += 1;
    }
    Ok(())
}

impl Block {
    /// Classifies this block's signature: unsigned where there is none,
    /// else valid or invalid as [`Block::verify_signature`] finds.
    pub fn signature_status(&self) -> (status: SignatureStatus)
        ensures
            status == self@.signature_status(),
    {
        if self.signature.is_none() {
            SignatureStatus::Unsigned
        } else if self.verify_signature() {
            SignatureStatus::Valid
        } else {
            SignatureStatus::Invalid
        }
    }
}

/// Classifies the signature of every block, each on its own: the report has
/// one entry per block, in chain order.
pub fn validate_signatures(chain: &Vec<Block>) -> (report: Vec<SignatureStatus>)
    ensures
        report@.len() == chain@.len(),
        forall|i: int| 0 <= i < chain@.len() ==> report@[i] == chain@[i]@.signature_status(),
{
    let mut report: Vec<SignatureStatus> = Vec::new();
    let mut i: usize = 0;
    while i < chain.len()
        invariant
            i <= chain.len(),
            report@.len() == i,
            forall|j: int| 0 <= j < i ==> report@[j] == chain@[j]@.signature_status(),
        decreases chain.len() - i,
    {
        report.push(chain[i].signature_status());
        i += 1;
    }
    report
}

/// The `prev_hash` for the next block: the tail's hash, or the genesis
/// marker on an empty chain.
pub fn next_prev_hash(chain: &Vec<Block>) -> (prev_hash: String)
    ensures
        prev_hash@ == tail_hash(chain_view(chain@)),
{
    if chain.len() == 0 {
        String::from_str("GENESIS")
    } else {
        chain[chain.len() - 1].hash.clone()
    }
}

/// `added` and `after` are what appending a block to `before` comes to.
///
/// The block is built from the next index, the given timestamp and payload
/// and the tail's hash, at `difficulty`, exactly as [`sealed_as`] says. Where
/// it cannot be built the chain stays as it was. Where it is built, it is
/// signed as [`Block::sign`] does if both keys are at hand, and follows the
/// old blocks, which are untouched.
pub open spec fn appended_as(
    before: Seq<Block>,
    after: Seq<Block>,
    timestamp: Seq<char>,
    data: Seq<char>,
    difficulty: nat,
    signing_key: Option<Seq<u8>>,
    verifying_key: Option<Seq<u8>>,
    added: Result<(), BuildError>,
) -> bool {
    let index = before.len();
    let prev_hash = tail_hash(chain_view(before));
    match added {
        Ok(_) => {
            let block = after.last()@;
            let built = BlockView { signature: None, public_key: None, ..block };
            &&& after.len() == before.len() + 1
            &&& after.take(before.len() as int) == before
            &&& sealed_as(index, timestamp, data, prev_hash, difficulty, Ok(built))
            &&& block == match (signing_key, verifying_key) {
                (Some(scalar), Some(point)) => built.signed_with(scalar, point),
                _ => built,
            }
        },
        Err(e) => {
            &&& after == before
            &&& sealed_as(index, timestamp, data, prev_hash, difficulty, Err(e))
        },
    }
}

/// Appends a block with the given timestamp and payload to the chain.
///
/// The block takes the next index and the tail's hash, is mined to
/// `difficulty`, and is signed if both keys are given. Where the block
/// cannot be built the chain is left as it was. A chain that was empty or
/// validated still validates afterwards.
pub fn add_block_at(
    chain: &mut Vec<Block>,
    timestamp: String,
    data: String,
    difficulty: usize,
    signing_key: Option<&SigningKey>,
    verifying_key: Option<&VerifyingKey>,
) -> (added: Result<(), BuildError>)
    ensures
        appended_as(
            old(chain)@,
            final(chain)@,
            timestamp@,
            data@,
            difficulty as nat,
            key_view(signing_key),
            point_view(verifying_key),
            added,
        ),
        added is Ok && (old(chain)@.len() == 0 || validates_as(chain_view(old(chain)@), Ok(())))
            ==> validates_as(chain_view(final(chain)@), Ok(())),
{
    let index = chain.len() as u64;
    let prev_hash = next_prev_hash(chain);
    let mut block = match Block::seal(index, timestamp, data, prev_hash, difficulty) {
        Ok(block) => block,
        Err(e) => {
            return Err(e);
        },
    };
    let ghost built = block@;
    match (signing_key, verifying_key) {
        (Some(key), Some(pubkey)) => {
            block.sign(key, pubkey);
        },
        _ => {},
    }
    proof {
        let before = chain_view(chain@);
        lemma_hash_ignores_signature(built, block@);
        if before.len() == 0 || validates_as(before, Ok(())) {
            lemma_append_keeps_valid(before, block@);
        }
        assert(chain_view(chain@.push(block)) =~= before.push(block@));
        assert(chain@.push(block).take(chain@.len() as int) =~= chain@);
        assert(BlockView { signature: None, public_key: None, ..block@ } == built);
    }
    chain.push(block);
    Ok(())
}

/// The view of an optional signing key.
pub open spec fn key_view(key: Option<&SigningKey>) -> Option<Seq<u8>> {
    match key {
        Some(k) => Some(k@),
        None => None,
    }
}

/// The view of an optional verifying key.
pub open spec fn point_view(key: Option<&VerifyingKey>) -> Option<Seq<u8>> {
    match key {
        Some(k) => Some(k@),
        None => None,
    }
}

/// Appends a block stamped with the current time to the chain.
///
/// Whatever the clock says, the outcome is the one that [`add_block_at`]
/// gives for that timestamp.
pub fn add_block(
    chain: &mut Vec<Block>,
    data: String,
    difficulty: usize,
    signing_key: Option<&SigningKey>,
    verifying_key: Option<&VerifyingKey>,
) -> (added: Result<(), BuildError>)
    ensures
        exists|timestamp: Seq<char>| #[trigger]
            appended_as(
                old(chain)@,
                final(chain)@,
                timestamp,
                data@,
                difficulty as nat,
                key_view(signing_key),
                point_view(verifying_key),
                added,
            ),
        added is Ok && (old(chain)@.len() == 0 || validates_as(chain_view(old(chain)@), Ok(())))
            ==> validates_as(chain_view(final(chain)@), Ok(())),
{
    let timestamp = now_rfc3339();
    let ghost stamped = timestamp@;
    let added = add_block_at(chain, timestamp, data, difficulty, signing_key, verifying_key);
    assert(appended_as(
        old(chain)@,
        chain@,
        stamped,
        data@,
        difficulty as nat,
        key_view(signing_key),
        point_view(verifying_key),
        added,
    ));
    added
}

} // verus!
