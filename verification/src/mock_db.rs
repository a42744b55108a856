//! A data service that keeps its chain in memory.
//!
//! It is filled block by block through [`DummyDatabaseBuilder`] and then
//! answers the requests of [`DatabaseRequest`] from what it was given. A
//! field that a block left open reads as the lowest value of its type.

use vstd::prelude::*;
use vstd::std_specs::convert::FromSpecImpl;
use crate::database::DatabaseError;
use crate::database::DatabaseRequest;
use crate::database::DatabaseResponse;
use crate::database::DatabaseResponseView;
use crate::database::hash_of_height;
use crate::database::height_hash;
use crate::header::ExtendedBlockHeader;
use crate::header::HardFork;

verus! {

/// A block header of which only some fields have been decided.
#[derive(Debug, Clone, Copy)]
pub struct DummyBlockExtendedHeader {
    pub version: Option<HardFork>,
    pub vote: Option<HardFork>,
    pub timestamp: Option<u64>,
    pub cumulative_difficulty: Option<u128>,
    pub block_weight: Option<usize>,
    pub long_term_weight: Option<usize>,
}

/// The header that a partly decided one stands for: each open field takes
/// the first hard fork, or zero.
pub open spec fn header_of(value: DummyBlockExtendedHeader) -> ExtendedBlockHeader {
    ExtendedBlockHeader {
        version: value.version.unwrap_or(HardFork::V1),
        vote: value.vote.unwrap_or(HardFork::V1),
        timestamp: value.timestamp.unwrap_or(0),
        cumulative_difficulty: value.cumulative_difficulty.unwrap_or(0),
        block_weight: value.block_weight.unwrap_or(0),
        long_term_weight: value.long_term_weight.unwrap_or(0),
    }
}

impl From<DummyBlockExtendedHeader> for ExtendedBlockHeader {
    fn from(value: DummyBlockExtendedHeader) -> (header: ExtendedBlockHeader) {
        ExtendedBlockHeader {
            version: value.version.unwrap_or(HardFork::V1),
            vote: value.vote.unwrap_or(HardFork::V1),
            timestamp: value.timestamp.unwrap_or(0),
            cumulative_difficulty: value.cumulative_difficulty.unwrap_or(0),
            block_weight: value.block_weight.unwrap_or(0),
            long_term_weight: value.long_term_weight.unwrap_or(0),
        }
    }
}

impl FromSpecImpl<DummyBlockExtendedHeader> for ExtendedBlockHeader {
    open spec fn obeys_from_spec() -> bool {
        true
    }

    open spec fn from_spec(value: DummyBlockExtendedHeader) -> ExtendedBlockHeader {
        header_of(value)
    }
}

impl Default for DummyBlockExtendedHeader {
    fn default() -> (header: DummyBlockExtendedHeader)
        ensures
            header == (DummyBlockExtendedHeader {
                version: None,
                vote: None,
                timestamp: None,
                cumulative_difficulty: None,
                block_weight: None,
                long_term_weight: None,
            }),
    {
        DummyBlockExtendedHeader {
            version: None,
            vote: None,
            timestamp: None,
            cumulative_difficulty: None,
            block_weight: None,
            long_term_weight: None,
        }
    }
}

impl DummyBlockExtendedHeader {
    /// Decides the two weights and leaves the other fields as they are.
    pub fn with_weight_into(self, weight: usize, long_term_weight: usize) -> (header: DummyBlockExtendedHeader)
        ensures
            header == (DummyBlockExtendedHeader {
                block_weight: Some(weight),
                long_term_weight: Some(long_term_weight),
                ..self
            }),
    {
        let mut header = self;
        header.block_weight = Some(weight);
        header.long_term_weight = Some(long_term_weight);
        header
    }

    /// Decides version and vote and leaves the other fields as they are.
    pub fn with_hard_fork_info(self, version: HardFork, vote: HardFork) -> (header: DummyBlockExtendedHeader)
        ensures
            header == (DummyBlockExtendedHeader { version: Some(version), vote: Some(vote), ..self }),
    {
        let mut header = self;
        header.vote = Some(vote);
        header.version = Some(version);
        header
    }

    /// Decides timestamp and cumulative difficulty and leaves the other
    /// fields as they are.
    pub fn with_difficulty_info(self, timestamp: u64, cumulative_difficulty: u128) -> (header: DummyBlockExtendedHeader)
        ensures
            header == (DummyBlockExtendedHeader {
                timestamp: Some(timestamp),
                cumulative_difficulty: Some(cumulative_difficulty),
                ..self
            }),
    {
        let mut header = self;
        header.timestamp = Some(timestamp);
        header.cumulative_difficulty = Some(cumulative_difficulty);
        header
    }
}

/// Collects the blocks of a [`DummyDatabase`], lowest height first.
#[derive(Debug)]
pub struct DummyDatabaseBuilder {
    blocks: Vec<DummyBlockExtendedHeader>,
}

impl View for DummyDatabaseBuilder {
    type V = Seq<DummyBlockExtendedHeader>;

    closed spec fn view(&self) -> Seq<DummyBlockExtendedHeader> {
        self.blocks@
    }
}

impl Default for DummyDatabaseBuilder {
    fn default() -> (builder: DummyDatabaseBuilder)
        ensures
            builder@ == Seq::<DummyBlockExtendedHeader>::empty(),
    {
        DummyDatabaseBuilder { blocks: Vec::new() }
    }
}

impl DummyDatabaseBuilder {
    /// Puts `block` on top of the chain.
    pub fn add_block(&mut self, block: DummyBlockExtendedHeader)
        ensures
            final(self)@ == old(self)@.push(block),
    {
        self.blocks.push(block);
    }

    /// The database that holds the blocks added so far.
    pub fn finish(self) -> (database: DummyDatabase)
        ensures
            database@ == self@,
    {
        DummyDatabase { blocks: self.blocks }
    }
}

/// An in-memory chain that answers [`DatabaseRequest`]s. The block at height
/// `h` is the one that was added after `h` others.
#[derive(Clone)]
pub struct DummyDatabase {
    blocks: Vec<DummyBlockExtendedHeader>,
}

impl View for DummyDatabase {
    type V = Seq<DummyBlockExtendedHeader>;

    closed spec fn view(&self) -> Seq<DummyBlockExtendedHeader> {
        self.blocks@
    }
}

/// The headers of the blocks of `blocks` at the heights from `start` up to,
/// not including, `end`, as far as the chain reaches.
pub open spec fn headers_in_range(blocks: Seq<DummyBlockExtendedHeader>, start: u64, end: u64) -> Seq<
    ExtendedBlockHeader,
> {
    let stop = if end <= blocks.len() {
        end as int
    } else {
        blocks.len() as int
    };
    if start < stop {
        Seq::new((stop - start) as nat, |i: int| header_of(blocks[start + i]))
    } else {
        Seq::empty()
    }
}

/// What a database holding `blocks` answers to `request`.
pub open spec fn answer(blocks: Seq<DummyBlockExtendedHeader>, request: DatabaseRequest) -> Result<
    DatabaseResponseView,
    DatabaseError,
> {
    match request {
        DatabaseRequest::BlockExtendedHeaderAt(height) => {
            if height < blocks.len() {
                Ok(DatabaseResponseView::BlockExtendedHeader(header_of(blocks[height as int])))
            } else {
                Err(DatabaseError::BlockNotInDatabase)
            }
        },
        DatabaseRequest::BlockHashAt(height) => Ok(DatabaseResponseView::BlockHash(height_hash(height))),
        DatabaseRequest::BlockExtendedHeaderRange { start, end } => Ok(
            DatabaseResponseView::BlockExtendedHeaderInRange(headers_in_range(blocks, start, end)),
        ),
        DatabaseRequest::ChainHeight => Ok(
            DatabaseResponseView::ChainHeight(blocks.len() as u64, height_hash(blocks.len() as u64)),
        ),
        DatabaseRequest::GeneratedCoinsToHeight(_) => Ok(DatabaseResponseView::GeneratedCoins(0)),
    }
}

impl DummyDatabase {
    /// Answers `request` from the blocks held. Only a header asked for at a
    /// height that the chain has not reached is refused.
    pub fn call(&self, request: DatabaseRequest) -> (response: Result<DatabaseResponse, DatabaseError>)
        ensures
            match response {
                Ok(found) => answer(self@, request) == Ok::<DatabaseResponseView, DatabaseError>(found@),
                Err(error) => answer(self@, request) == Err::<DatabaseResponseView, DatabaseError>(error),
            },
    {
        let len: u64 = self.blocks.len() as u64;
        match request {
            DatabaseRequest::BlockExtendedHeaderAt(height) => {
                if height < len {
                    Ok(DatabaseResponse::BlockExtendedHeader(ExtendedBlockHeader::from(self.blocks[height as usize])))
                } else {
                    Err(DatabaseError::BlockNotInDatabase)
                }
            },
            DatabaseRequest::BlockHashAt(height) => Ok(DatabaseResponse::BlockHash(hash_of_height(height))),
            DatabaseRequest::BlockExtendedHeaderRange { start, end } => {
                let stop: u64 = if end <= len {
                    end
                } else {
                    len
                };
                let mut headers: Vec<ExtendedBlockHeader> = Vec::new();
                if start < stop {
                    let mut at: u64 = start;
                    while at < stop
                        invariant
                            start <= at <= stop <= self.blocks.len(),
                            headers@.len() == at - start,
                            forall|i: int|
                                0 <= i < headers@.len() ==> headers@[i] == header_of(self.blocks@[start + i]),
                        decreases stop - at,
                    {
                        headers.push(ExtendedBlockHeader::from(self.blocks[at as usize]));
                        at += 1;
                    }
                }
                assert(headers@ =~= headers_in_range(self@, start, end));
                Ok(DatabaseResponse::BlockExtendedHeaderInRange(headers))
            },
            DatabaseRequest::ChainHeight => Ok(DatabaseResponse::ChainHeight(len, hash_of_height(len))),
            DatabaseRequest::GeneratedCoinsToHeight(_) => Ok(DatabaseResponse::GeneratedCoins(0)),
        }
    }
}

} // verus!
