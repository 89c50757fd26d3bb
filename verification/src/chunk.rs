//! Reconstruction of the persisted chunk store of a room's history, for the
//! debug view: walk the chunk chain strictly backward from its tail,
//! collecting chunks, until the anchor record is found or the head is
//! reached.

use vstd::prelude::*;

verus! {

/// One persisted record, as far as the engine reads it: the identifier of
/// the event it holds, if the record carries one.
#[derive(Clone, Copy, PartialEq, Eq, Debug)]
pub struct ChunkRecord {
    pub event_id: Option<u64>,
}

/// The content of one persisted chunk: either a run of records or a gap
/// placeholder reduced to its continuation token.
#[derive(Clone, PartialEq, Eq, Debug)]
pub enum ChunkContent {
    Items { records: Vec<ChunkRecord> },
    Gap { prev_token: String },
}

/// One chunk of the append-only history log, addressed by a monotonically
/// increasing identifier within its room.
#[derive(Clone, PartialEq, Eq, Debug)]
pub struct Chunk {
    pub identifier: u64,
    pub content: ChunkContent,
}

/// Whether this chunk is an item chunk holding a record with the given
/// event identifier. A gap chunk holds no records.
pub open spec fn chunk_contains_record(chunk: Chunk, anchor: u64) -> bool {
    match chunk.content {
        ChunkContent::Items { records } => exists|i: int|
            0 <= i < records@.len() && records@[i].event_id == Some(anchor),
        ChunkContent::Gap { prev_token: _ } => false,
    }
}

/// The chunks collected by walking a chain `[head .. tail]` strictly
/// backward from its tail: each visited chunk is appended in walk order
/// (tail first), and the walk stops immediately after appending a chunk that
/// contains the anchor record, or at the head of the chain.
pub open spec fn walk_from_tail(chain: Seq<Chunk>, anchor: u64) -> Seq<Chunk>
    decreases chain.len(),
{
    if chain.len() == 0 {
        Seq::empty()
    } else {
        let tail = chain.last();
        if chunk_contains_record(tail, anchor) {
            seq![tail]
        } else {
            seq![tail] + walk_from_tail(chain.drop_last(), anchor)
        }
    }
}

/// The reconstructed debug view for a chain and an optional anchor: with no
/// anchor record known there is nothing to anchor to and the view is empty;
/// otherwise it is the backward walk from the tail.
pub open spec fn reconstruction(chain: Seq<Chunk>, anchor: Option<u64>) -> Seq<Chunk> {
    match anchor {
        Option::Some(a) => walk_from_tail(chain, a),
        Option::None => Seq::empty(),
    }
}

/// If the anchor record lives in the chunk at position `k` and in no chunk
/// after it, the walk yields exactly the chunks from the tail back to
/// position `k`, inclusive, in that order.
pub proof fn lemma_walk_stops_at_anchor(chain: Seq<Chunk>, anchor: u64, k: int)
    requires
        0 <= k < chain.len(),
        chunk_contains_record(chain[k], anchor),
        forall|j: int| k < j < chain.len() ==> !chunk_contains_record(chain[j], anchor),
    ensures
        walk_from_tail(chain, anchor) == chain.subrange(k, chain.len() as int).reverse(),
    decreases chain.len(),
{
    let tail = chain.last();
    if k == chain.len() - 1 {
        assert(walk_from_tail(chain, anchor) == seq![tail]);
        assert(chain.subrange(k, chain.len() as int).reverse() =~= seq![tail]);
    } else {
        assert(!chunk_contains_record(tail, anchor));
        lemma_walk_stops_at_anchor(chain.drop_last(), anchor, k);
        assert(chain.drop_last().subrange(k, chain.len() - 1) =~= chain.subrange(
            k,
            chain.len() - 1,
        ));
        assert(seq![tail] + chain.subrange(k, chain.len() - 1).reverse() =~= chain.subrange(
            k,
            chain.len() as int,
        ).reverse());
    }
}

/// If the anchor record is absent from every chunk, the walk reaches the
/// head naturally and yields the entire chain, tail first.
pub proof fn lemma_walk_exhausts_chain(chain: Seq<Chunk>, anchor: u64)
    requires
        forall|j: int| 0 <= j < chain.len() ==> !chunk_contains_record(chain[j], anchor),
    ensures
        walk_from_tail(chain, anchor) == chain.reverse(),
    decreases chain.len(),
{
    if chain.len() == 0 {
        assert(chain.reverse() =~= Seq::<Chunk>::empty());
    } else {
        lemma_walk_exhausts_chain(chain.drop_last(), anchor);
        assert(seq![chain.last()] + chain.drop_last().reverse() =~= chain.reverse());
    }
}

/// Whether some record in the run carries the given event identifier.
fn records_hold_anchor(records: &Vec<ChunkRecord>, anchor: u64) -> (r: bool)
    ensures
        r == exists|i: int| 0 <= i < records@.len() && records@[i].event_id == Some(anchor),
{
    let mut i: usize = 0;
    while i < records.len()
        invariant
            i <= records@.len(),
            forall|j: int| 0 <= j < i ==> records@[j].event_id != Some(anchor),
        decreases records@.len() - i,
    {
        match records[i].event_id {
            Option::Some(id) => {
                if id == anchor {
                    assert(records@[i as int].event_id == Some(anchor));
                    return true;
                }
            }
            Option::None => {}
        }
        i = i + 1;
    }
    false
}

/// Whether this chunk holds a record with the given event identifier.
pub fn chunk_holds_record(chunk: &Chunk, anchor: u64) -> (r: bool)
    ensures
        r == chunk_contains_record(*chunk, anchor),
{
    match &chunk.content {
        ChunkContent::Items { records } => records_hold_anchor(records, anchor),
        ChunkContent::Gap { prev_token: _ } => false,
    }
}

/// Reconstructs the debug view from a fully loaded chain `[head .. tail]`
/// and the anchor record of the live sequence. The chain is consumed from
/// its tail; the walk stops immediately after taking a chunk that contains
/// the anchor, or when the head has been taken.
#[verifier::loop_isolation(false)]
pub fn reconstruct_chunks(chain: Vec<Chunk>, anchor: Option<u64>) -> (r: Vec<Chunk>)
    ensures
        r@ == reconstruction(chain@, anchor),
{
    let mut chain = chain;
    let mut collected: Vec<Chunk> = Vec::new();
    let anchor_id = match anchor {
        Option::Some(a) => a,
        Option::None => {
            assert(collected@ =~= reconstruction(chain@, anchor));
            return collected;
        }
    };
    let ghost full = chain@;
    while chain.len() > 0
        invariant
            collected@ + walk_from_tail(chain@, anchor_id) == walk_from_tail(full, anchor_id),
        decreases chain.len(),
    {
        let ghost pre = chain@;
        let chunk = chain.pop().unwrap();
        let found = chunk_holds_record(&chunk, anchor_id);
        collected.push(chunk);
        if found {
            proof {
                assert(walk_from_tail(pre, anchor_id) =~= seq![pre.last()]);
                assert(collected@ =~= walk_from_tail(full, anchor_id));
            }
            return collected;
        }
        proof {
            assert(collected@ + walk_from_tail(chain@, anchor_id) =~= walk_from_tail(
                full,
                anchor_id,
            ));
        }
    }
    proof {
        assert(walk_from_tail(chain@, anchor_id) =~= Seq::<Chunk>::empty());
        assert(collected@ =~= walk_from_tail(full, anchor_id));
    }
    collected
}

} // verus!
