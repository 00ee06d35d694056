//! Blocks: their data, the record that is hashed, and the builder that
//! seals a block, searching for a nonce when a difficulty is asked for.

use crate::clock::now_rfc3339;
use crate::decimal::{decimal, u64_to_decimal};
use crate::hashing::{digest, digest_of, is_digest_text, DIGEST_HEX_LEN};
use vstd::prelude::*;
use vstd::string::*;
use vstd::utf8::*;

verus! {

/// One entry of the ledger.
///
/// A block is plain data: one read back from storage may have been altered,
/// and the predicates on [`BlockView`] say what a sound block looks like.
/// The nonce is part of the hashed record exactly when the block carries
/// one, so a block built without mining hashes its first four fields only.
#[derive(Debug, Clone, PartialEq, Eq)]
pub struct Block {
    /// Position in the chain, counted from zero.
    pub index: u64,
    /// When the block was made; informational, but part of the hashed record.
    pub timestamp: String,
    /// The payload, never interpreted.
    pub data: String,
    /// The hash of the block before this one, or `"GENESIS"` for the first.
    pub prev_hash: String,
    /// The nonce found by mining; absent on a block built without mining.
    pub nonce: Option<u64>,
    /// The digest of this block's record.
    pub hash: String,
    /// The signature over `hash`, in hexadecimal DER, once signed.
    pub signature: Option<String>,
    /// The signer's public key, as a hexadecimal uncompressed point.
    pub public_key: Option<String>,
}

/// What a block is, mathematically.
pub struct BlockView {
    pub index: nat,
    pub timestamp: Seq<char>,
    pub data: Seq<char>,
    pub prev_hash: Seq<char>,
    pub nonce: Option<nat>,
    pub hash: Seq<char>,
    pub signature: Option<Seq<char>>,
    pub public_key: Option<Seq<char>>,
}

/// Why a block could not be built.
#[derive(Debug, Clone, Copy, PartialEq, Eq)]
pub enum BuildError {
    /// More leading zeros were asked for than a digest has characters.
    DifficultyTooLarge,
    /// No nonce that was allowed to be tried meets the target.
    NonceSpaceExhausted,
}

/// The `prev_hash` of the first block of a chain.
pub open spec fn genesis_marker() -> Seq<char> {
    "GENESIS"@
}

/// The view of an optional string.
pub open spec fn text_view(text: Option<String>) -> Option<Seq<char>> {
    match text {
        Some(s) => Some(s@),
        None => None,
    }
}

/// The view of an optional nonce.
pub open spec fn nonce_view(nonce: Option<u64>) -> Option<nat> {
    match nonce {
        Some(n) => Some(n as nat),
        None => None,
    }
}

/// The text that is hashed for a block: index, timestamp, payload and
/// previous hash run together, followed by the nonce where there is one.
pub open spec fn record_text(
    index: nat,
    timestamp: Seq<char>,
    data: Seq<char>,
    prev_hash: Seq<char>,
    nonce: Option<nat>,
) -> Seq<char> {
    let fixed = decimal(index) + timestamp + data + prev_hash;
    match nonce {
        Some(n) => fixed + decimal(n),
        None => fixed,
    }
}

/// The digest of the record made of the given fields.
pub open spec fn record_digest(
    index: nat,
    timestamp: Seq<char>,
    data: Seq<char>,
    prev_hash: Seq<char>,
    nonce: Option<nat>,
) -> Seq<char> {
    digest_of(encode_utf8(record_text(index, timestamp, data, prev_hash, nonce)))
}

/// `text` starts with `count` characters `'0'`.
pub open spec fn leading_zeros(text: Seq<char>, count: nat) -> bool {
    &&& count <= text.len()
    &&& forall|i: int| 0 <= i < count ==> text[i] == '0'
}

/// With `nonce`, the given fields hash to a digest that meets `difficulty`.
pub open spec fn nonce_solves(
    index: nat,
    timestamp: Seq<char>,
    data: Seq<char>,
    prev_hash: Seq<char>,
    difficulty: nat,
    nonce: nat,
) -> bool {
    leading_zeros(record_digest(index, timestamp, data, prev_hash, Some(nonce)), difficulty)
}

/// `nonce` solves the puzzle, and no smaller nonce does.
pub open spec fn least_solution(
    index: nat,
    timestamp: Seq<char>,
    data: Seq<char>,
    prev_hash: Seq<char>,
    difficulty: nat,
    nonce: nat,
) -> bool {
    &&& nonce_solves(index, timestamp, data, prev_hash, difficulty, nonce)
    &&& forall|m: nat|
        m < nonce ==> !#[trigger] nonce_solves(index, timestamp, data, prev_hash, difficulty, m)
}

/// No nonce from zero up to `last_nonce` solves the puzzle.
pub open spec fn no_solution(
    index: nat,
    timestamp: Seq<char>,
    data: Seq<char>,
    prev_hash: Seq<char>,
    difficulty: nat,
    last_nonce: nat,
) -> bool {
    forall|m: nat|
        m <= last_nonce ==> !#[trigger] nonce_solves(
            index,
            timestamp,
            data,
            prev_hash,
            difficulty,
            m,
        )
}

/// `outcome` is what building a block from the given fields at `difficulty`
/// comes to when nonces up to `last_nonce` may be tried.
///
/// A difficulty above the length of a digest is refused. With difficulty
/// zero the block carries no nonce. Otherwise it carries the least nonce
/// that solves the puzzle, and building fails if there is none up to
/// `last_nonce`. A block that is built holds the given fields, hashes to
/// its stored hash, and carries neither signature nor public key.
pub open spec fn sealed_within(
    index: nat,
    timestamp: Seq<char>,
    data: Seq<char>,
    prev_hash: Seq<char>,
    difficulty: nat,
    last_nonce: nat,
    outcome: Result<BlockView, BuildError>,
) -> bool {
    match outcome {
        Ok(block) => {
            &&& difficulty <= DIGEST_HEX_LEN
            &&& block.fresh_from(index, timestamp, data, prev_hash)
            &&& if difficulty == 0 {
                block.nonce is None
            } else {
                &&& block.nonce matches Some(n)
                &&& n <= last_nonce
                &&& least_solution(index, timestamp, data, prev_hash, difficulty, n)
            }
        },
        Err(BuildError::DifficultyTooLarge) => difficulty > DIGEST_HEX_LEN,
        Err(BuildError::NonceSpaceExhausted) => {
            &&& 0 < difficulty <= DIGEST_HEX_LEN
            &&& no_solution(index, timestamp, data, prev_hash, difficulty, last_nonce)
        },
    }
}

/// `outcome` is what building a block from the given fields at `difficulty`
/// comes to when every nonce of 64 bits may be tried.
pub open spec fn sealed_as(
    index: nat,
    timestamp: Seq<char>,
    data: Seq<char>,
    prev_hash: Seq<char>,
    difficulty: nat,
    outcome: Result<BlockView, BuildError>,
) -> bool {
    sealed_within(index, timestamp, data, prev_hash, difficulty, u64::MAX as nat, outcome)
}

/// Building from given fields, at a given difficulty and with a given last
/// nonce, has one outcome only.
pub proof fn lemma_seal_is_unique(
    index: nat,
    timestamp: Seq<char>,
    data: Seq<char>,
    prev_hash: Seq<char>,
    difficulty: nat,
    last_nonce: nat,
    first: Result<BlockView, BuildError>,
    second: Result<BlockView, BuildError>,
)
    requires
        sealed_within(index, timestamp, data, prev_hash, difficulty, last_nonce, first),
        sealed_within(index, timestamp, data, prev_hash, difficulty, last_nonce, second),
    ensures
        first == second,
{
    if difficulty > 0 {
        if first is Ok {
            let n = first->Ok_0.nonce->0;
            assert(nonce_solves(index, timestamp, data, prev_hash, difficulty, n));
        }
        if second is Ok {
            let m = second->Ok_0.nonce->0;
            assert(nonce_solves(index, timestamp, data, prev_hash, difficulty, m));
        }
    }
}

/// A block that is built meets the difficulty it was built at.
pub proof fn lemma_sealed_block_meets_difficulty(
    index: nat,
    timestamp: Seq<char>,
    data: Seq<char>,
    prev_hash: Seq<char>,
    difficulty: nat,
    last_nonce: nat,
    block: BlockView,
)
    requires
        sealed_within(index, timestamp, data, prev_hash, difficulty, last_nonce, Ok(block)),
    ensures
        leading_zeros(block.hash, difficulty),
        block.well_formed(),
{
}

/// The outcome of a build, with the block taken by its view.
pub open spec fn outcome_view(built: Result<Block, BuildError>) -> Result<BlockView, BuildError> {
    match built {
        Ok(block) => Ok(block@),
        Err(e) => Err(e),
    }
}

impl View for Block {
    type V = BlockView;

    open spec fn view(&self) -> BlockView {
        BlockView {
            index: self.index as nat,
            timestamp: self.timestamp@,
            data: self.data@,
            prev_hash: self.prev_hash@,
            nonce: nonce_view(self.nonce),
            hash: self.hash@,
            signature: text_view(self.signature),
            public_key: text_view(self.public_key),
        }
    }
}

impl BlockView {
    /// The digest that this block's own fields hash to.
    pub open spec fn expected_hash(self) -> Seq<char> {
        record_digest(self.index, self.timestamp, self.data, self.prev_hash, self.nonce)
    }

    /// The stored hash is the digest of the block's own fields.
    pub open spec fn hash_consistent(self) -> bool {
        self.hash == self.expected_hash()
    }

    /// Signature and public key are both present or both absent.
    pub open spec fn seal_paired(self) -> bool {
        self.signature is Some <==> self.public_key is Some
    }

    /// What holds of every block that this library made: its hash is that
    /// of its own fields, and signature and public key come together.
    pub open spec fn well_formed(self) -> bool {
        self.hash_consistent() && self.seal_paired()
    }

    /// A block as the builder leaves it: the given fields, a consistent
    /// hash, and neither signature nor public key.
    pub open spec fn fresh_from(
        self,
        index: nat,
        timestamp: Seq<char>,
        data: Seq<char>,
        prev_hash: Seq<char>,
    ) -> bool {
        &&& self.index == index
        &&& self.timestamp == timestamp
        &&& self.data == data
        &&& self.prev_hash == prev_hash
        &&& self.signature is None
        &&& self.public_key is None
        &&& self.hash_consistent()
    }
}

/// Builds the record of a block from its fields.
fn record(index: u64, timestamp: &str, data: &str, prev_hash: &str, nonce: Option<u64>) -> (text:
    String)
    ensures
        text@ == record_text(index as nat, timestamp@, data@, prev_hash@, nonce_view(nonce)),
{
    let mut text = u64_to_decimal(index);
    text.append(timestamp);
    text.append(data);
    text.append(prev_hash);
    match nonce {
        Some(n) => {
            let digits = u64_to_decimal(n);
            text.append(digits.as_str());
        },
        None => {},
    }
    text
}

/// Tells whether `hash` starts with `difficulty` characters `'0'`.
pub fn meets_difficulty(hash: &str, difficulty: usize) -> (ok: bool)
    ensures
        ok == leading_zeros(hash@, difficulty as nat),
{
    if difficulty > hash.unicode_len() {
        return false;
    }
    let mut i: usize = 0;
    while i < difficulty
        invariant
            i <= difficulty <= hash@.len(),
            forall|j: int| 0 <= j < i ==> hash@[j] == '0',
        decreases difficulty - i,
    {
        if hash.get_char(i) != '0' {
            return false;
        }
        i += 1;
    }
    true
}

impl Block {
    /// The digest of a record given as text.
    pub fn calculate_hash_raw(record: &str) -> (hash: String)
        ensures
            hash@ == digest_of(encode_utf8(record@)),
            is_digest_text(hash@),
    {
        digest(record.as_bytes())
    }

    /// Recomputes the digest of this block's own fields.
    pub fn calculate_hash(&self) -> (hash: String)
        ensures
            hash@ == self@.expected_hash(),
            is_digest_text(hash@),
    {
        let text = record(
            self.index,
            self.timestamp.as_str(),
            self.data.as_str(),
            self.prev_hash.as_str(),
            self.nonce,
        );
        Self::calculate_hash_raw(text.as_str())
    }

    /// Builds a block without mining: one hash over the four fields, no
    /// nonce, no signature.
    pub fn unmined(index: u64, timestamp: String, data: String, prev_hash: String) -> (block:
        Block)
        ensures
            block@.fresh_from(index as nat, timestamp@, data@, prev_hash@),
            block@.nonce is None,
            block@.well_formed(),
    {
        let text = record(index, timestamp.as_str(), data.as_str(), prev_hash.as_str(), None);
        let hash = Self::calculate_hash_raw(text.as_str());
        Block { index, timestamp, data, prev_hash, nonce: None, hash, signature: None, public_key: None }
    }

    /// Builds a block whose hash starts with `difficulty` zeros, trying
    /// nonces from zero up to `last_nonce` and no further.
    ///
    /// With `difficulty` zero nothing is searched: the block is the one
    /// [`Block::unmined`] gives. Otherwise the block carries the least nonce
    /// that meets the target. A difficulty above the length of a digest is
    /// refused before any hashing, and the search gives up after
    /// `last_nonce`, so the caller decides how long it may run.
    pub fn seal_within(
        index: u64,
        timestamp: String,
        data: String,
        prev_hash: String,
        difficulty: usize,
        last_nonce: u64,
    ) -> (built: Result<Block, BuildError>)
        ensures
            sealed_within(
                index as nat,
                timestamp@,
                data@,
                prev_hash@,
                difficulty as nat,
                last_nonce as nat,
                outcome_view(built),
            ),
            built matches Ok(block) ==> leading_zeros(block@.hash, difficulty as nat),
    {
        if difficulty > DIGEST_HEX_LEN {
            return Err(BuildError::DifficultyTooLarge);
        }
        if difficulty == 0 {
            return Ok(Self::unmined(index, timestamp, data, prev_hash));
        }
        let mut nonce: u64 = 0;
        loop
            invariant
                0 < difficulty <= DIGEST_HEX_LEN,
                nonce <= last_nonce,
                forall|m: nat|
                    m < nonce ==> !#[trigger] nonce_solves(
                        index as nat,
                        timestamp@,
                        data@,
                        prev_hash@,
                        difficulty as nat,
                        m,
                    ),
            decreases last_nonce - nonce,
        {
            let text = record(
                index,
                timestamp.as_str(),
                data.as_str(),
                prev_hash.as_str(),
                Some(nonce),
            );
            let hash = Self::calculate_hash_raw(text.as_str());
            if meets_difficulty(hash.as_str(), difficulty) {
                return Ok(
                    Block {
                        index,
                        timestamp,
                        data,
                        prev_hash,
                        nonce: Some(nonce),
                        hash,
                        signature: None,
                        public_key: None,
                    },
                );
            }
            if nonce == last_nonce {
                return Err(BuildError::NonceSpaceExhausted);
            }
            nonce += 1;
        }
    }

    /// Builds a block whose hash starts with `difficulty` zeros, trying
    /// every nonce of 64 bits if need be.
    ///
    /// The search has no other bound: at a high difficulty it runs for as
    /// long as it takes. See [`Block::seal_within`] for a search that stops
    /// at a chosen nonce.
    pub fn seal(
        index: u64,
        timestamp: String,
        data: String,
        prev_hash: String,
        difficulty: usize,
    ) -> (built: Result<Block, BuildError>)
        ensures
            sealed_as(
                index as nat,
                timestamp@,
                data@,
                prev_hash@,
                difficulty as nat,
                outcome_view(built),
            ),
            built matches Ok(block) ==> leading_zeros(block@.hash, difficulty as nat),
    {
        Self::seal_within(index, timestamp, data, prev_hash, difficulty, u64::MAX)
    }

    /// Builds an unmined block stamped with the current time.
    pub fn new(index: u64, data: String, prev_hash: String) -> (block: Block)
        ensures
            block@.fresh_from(index as nat, block@.timestamp, data@, prev_hash@),
            block@.nonce is None,
            block@.well_formed(),
    {
        Self::unmined(index, now_rfc3339(), data, prev_hash)
    }

    /// Builds a block stamped with the current time, mined to `difficulty`.
    ///
    /// Whatever the clock says, the outcome is the one that [`Block::seal`]
    /// gives for that timestamp.
    pub fn build(index: u64, data: String, prev_hash: String, difficulty: usize) -> (built: Result<
        Block,
        BuildError,
    >)
        ensures
            exists|timestamp: Seq<char>| #[trigger]
                sealed_as(
                    index as nat,
                    timestamp,
                    data@,
                    prev_hash@,
                    difficulty as nat,
                    outcome_view(built),
                ),
            built matches Ok(block) ==> leading_zeros(block@.hash, difficulty as nat),
    {
        let timestamp = now_rfc3339();
        let ghost stamped = timestamp@;
        let built = Self::seal(index, timestamp, data, prev_hash, difficulty);
        assert(sealed_as(
            index as nat,
            stamped,
            data@,
            prev_hash@,
            difficulty as nat,
            outcome_view(built),
        ));
        built
    }
}

} // verus!
