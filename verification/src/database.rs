//! The questions that the block data service answers, and its answers.

use vstd::prelude::*;
use vstd::arithmetic::power::pow;
use vstd::arithmetic::power::lemma_pow_positive;
use vstd::arithmetic::div_mod::lemma_div_denominator;
use crate::header::ExtendedBlockHeader;

verus! {

/// Number of bytes in a block identifier.
pub const HASH_SIZE: usize = 32;

/// A question to the data service.
#[derive(Clone, Copy, Debug, PartialEq, Eq, Structural)]
pub enum DatabaseRequest {
    /// The header of the block at this height.
    BlockExtendedHeaderAt(u64),
    /// The identifier of the block at this height.
    BlockHashAt(u64),
    /// The headers of the blocks at heights `start`, `start + 1`, .. below `end`.
    BlockExtendedHeaderRange { start: u64, end: u64 },
    /// The number of blocks in the chain and the identifier of the top one.
    ChainHeight,
    /// The coins generated by the blocks up to this height.
    GeneratedCoinsToHeight(u64),
}

/// An answer of the data service.
#[derive(Clone, Debug, PartialEq, Eq)]
pub enum DatabaseResponse {
    BlockExtendedHeader(ExtendedBlockHeader),
    BlockHash([u8; 32]),
    BlockExtendedHeaderInRange(Vec<ExtendedBlockHeader>),
    ChainHeight(u64, [u8; 32]),
    GeneratedCoins(u64),
}

/// The mathematical content of a [`DatabaseResponse`].
pub enum DatabaseResponseView {
    BlockExtendedHeader(ExtendedBlockHeader),
    BlockHash(Seq<u8>),
    BlockExtendedHeaderInRange(Seq<ExtendedBlockHeader>),
    ChainHeight(u64, Seq<u8>),
    GeneratedCoins(u64),
}

impl View for DatabaseResponse {
    type V = DatabaseResponseView;

    open spec fn view(&self) -> DatabaseResponseView {
        match *self {
            DatabaseResponse::BlockExtendedHeader(header) => DatabaseResponseView::BlockExtendedHeader(header),
            DatabaseResponse::BlockHash(hash) => DatabaseResponseView::BlockHash(hash@),
            DatabaseResponse::BlockExtendedHeaderInRange(headers) => DatabaseResponseView::BlockExtendedHeaderInRange(headers@),
            DatabaseResponse::ChainHeight(height, hash) => DatabaseResponseView::ChainHeight(height, hash@),
            DatabaseResponse::GeneratedCoins(coins) => DatabaseResponseView::GeneratedCoins(coins),
        }
    }
}

/// Why the data service gave no answer.
#[derive(Clone, Copy, Debug, PartialEq, Eq, Structural)]
pub enum DatabaseError {
    /// The chain has no block at the height asked for.
    BlockNotInDatabase,
}

impl DatabaseError {
    /// The error in words.
    pub fn message(&self) -> (text: String)
        ensures
            text@ == "block not in database!"@,
    {
        match self {
            DatabaseError::BlockNotInDatabase => String::from_str("block not in database!"),
        }
    }
}

/// Byte `i` of `value`, counting from the least significant one.
pub open spec fn le_byte(value: u64, i: nat) -> u8 {
    (value as int / pow(256, i) % 256) as u8
}

/// The identifier that stands for a height where no real block hash is at
/// hand: the eight bytes of the height, least significant first, and zeros.
pub open spec fn height_hash(height: u64) -> Seq<u8> {
    Seq::new(HASH_SIZE as nat, |i: int| if i < 8 { le_byte(height, i as nat) } else { 0u8 })
}

/// Computes [`height_hash`].
pub fn hash_of_height(height: u64) -> (hash: [u8; 32])
    ensures
        hash@ == height_hash(height),
{
    let mut hash = [0u8; 32];
    let mut rest: u64 = height;
    let mut i: usize = 0;
    proof {
        reveal(pow);
    }
    while i < 8
        invariant
            i <= 8,
            rest as int == height as int / pow(256, i as nat),
            forall|j: int| 0 <= j < i ==> hash@[j] == le_byte(height, j as nat),
            forall|j: int| i <= j < 32 ==> hash@[j] == 0u8,
        decreases 8 - i,
    {
        proof {
            lemma_pow_positive(256, i as nat);
            lemma_div_denominator(height as int, pow(256, i as nat), 256);
            reveal(pow);
            assert(pow(256, (i + 1) as nat) == 256 * pow(256, i as nat));
            assert(pow(256, i as nat) * 256 == 256 * pow(256, i as nat)) by (nonlinear_arith);
        }
        hash[i] = (rest % 256) as u8;
        rest = rest / 256;
        i += 1;
    }
    assert(hash@ =~= height_hash(height));
    hash
}

} // verus!
