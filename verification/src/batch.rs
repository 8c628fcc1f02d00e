//! Batch chunking.
//!
//! A round's full distribution list is partitioned into chunks sized so a
//! serialized batch stays under the network buffer budget (4 MiB at about
//! 512 bytes per transaction).  Chunks are submitted sequentially, each
//! independently signed against the then-current reference.

use vstd::prelude::*;
use crate::scheduler::Distribution;

verus! {

/// Transactions per submitted chunk: a 4 MiB network buffer at 512 bytes
/// per transaction.
pub const FUND_CHUNK_LEN: usize = 4 * 1024 * 1024 / 512;

/// The distribution list a sequence of chunks carries, in submission order.
pub open spec fn chunks_concat(cs: Seq<Vec<Distribution>>) -> Seq<Distribution>
    decreases cs.len(),
{
    if cs.len() == 0 {
        Seq::<Distribution>::empty()
    } else {
        chunks_concat(cs.drop_last()) + cs.last()@
    }
}

/// Partitions a distribution list into chunks of at most `chunk_len`
/// entries: every chunk but the last is full, none is empty, and their
/// concatenation is the original list.
pub fn split_into_chunks(v: Vec<Distribution>, chunk_len: usize) -> (r: Vec<Vec<Distribution>>)
    requires
        chunk_len >= 1,
    ensures
        chunks_concat(r@) == v@,
        forall|i: int| 0 <= i < r@.len() ==> 1 <= (#[trigger] r@[i])@.len() <= chunk_len,
        forall|i: int| 0 <= i < r@.len() - 1 ==> (#[trigger] r@[i])@.len() == chunk_len,
{
    let ghost full: Seq<Distribution> = v@;
    let mut v = v;
    let mut chunks: Vec<Vec<Distribution>> = Vec::new();
    let mut cur: Vec<Distribution> = Vec::new();
    proof {
        assert(chunks_concat(chunks@) + cur@ + v@ =~= full);
    }
    while v.len() > 0
        invariant
            chunks_concat(chunks@) + cur@ + v@ == full,
            cur@.len() < chunk_len,
            chunk_len >= 1,
            forall|i: int| 0 <= i < chunks@.len() ==> (#[trigger] chunks@[i])@.len() == chunk_len,
        decreases v@.len(),
    {
        let e = v.remove(0);
        proof {
            assert(chunks_concat(chunks@) + (cur@ + seq![e]) + v@ =~= full);
        }
        cur.push(e);
        if cur.len() == chunk_len {
            let ghost before = chunks@;
            proof {
                assert(before.push(cur).drop_last() =~= before);
            }
            chunks.push(cur);
            cur = Vec::new();
            proof {
                assert(chunks_concat(chunks@) + cur@ + v@ =~= full);
            }
        }
    }
    if cur.len() > 0 {
        let ghost before = chunks@;
        proof {
            assert(before.push(cur).drop_last() =~= before);
        }
        chunks.push(cur);
    }
    proof {
        assert(chunks_concat(chunks@) =~= full);
    }
    chunks
}

} // verus!
