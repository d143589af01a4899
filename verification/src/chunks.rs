//! Bookkeeping of the chunks a long recording is cut into: which chunks
//! are still being processed, which are done (kept in chunk order), and how
//! the finished chunks become the final file.

use vstd::prelude::*;
use vstd::string::*;

use crate::args::texts;
use crate::text::owned;

verus! {

/// The chunk length used when none is given: five minutes.
pub const DEFAULT_CHUNK_DURATION_SECS: u64 = 300;

/// A finished chunk: its index and its file.
pub open spec fn chunk_view(c: (u32, String)) -> (u32, Seq<char>) {
    (c.0, c.1@)
}

/// Chunks in order of their index.
pub open spec fn in_chunk_order(s: Seq<(u32, Seq<char>)>) -> bool {
    forall|a: int, b: int| 0 <= a < b < s.len() ==> #[trigger] s[a].0 <= #[trigger] s[b].0
}

/// A finished stretch of a long recording, ready to be merged and encoded
/// while the recording goes on.
pub struct AudioChunk {
    pub chunk_index: u32,
    pub loopback_path: String,
    pub mic_path: String,
    pub output_path: String,
    pub loopback_has_audio: bool,
    pub mic_has_audio: bool,
}

/// The chunks of a recording: those handed out for processing and those
/// whose processing is finished.
pub struct ChunkLedger {
    completed: Vec<(u32, String)>,
    pending: Vec<u32>,
}

impl ChunkLedger {
    /// The finished chunks, in the ledger's order.
    pub closed spec fn completed_view(&self) -> Seq<(u32, Seq<char>)> {
        self.completed@.map_values(|c: (u32, String)| chunk_view(c))
    }

    /// The chunks being processed, in the order they were handed out.
    pub closed spec fn pending_view(&self) -> Seq<u32> {
        self.pending@
    }

    /// The finished chunks are kept in chunk order.
    pub open spec fn wf(&self) -> bool {
        in_chunk_order(self.completed_view())
    }

    /// An empty ledger.
    pub fn new() -> (r: Self)
        ensures
            r.wf(),
            r.completed_view() == Seq::<(u32, Seq<char>)>::empty(),
            r.pending_view() == Seq::<u32>::empty(),
    {
        let r = ChunkLedger { completed: Vec::new(), pending: Vec::new() };
        assert(r.completed_view() =~= Seq::<(u32, Seq<char>)>::empty());
        r
    }

    /// Records that `chunk` was handed out for processing.
    pub fn submit_chunk(&mut self, chunk: &AudioChunk)
        requires
            old(self).wf(),
        ensures
            final(self).wf(),
            final(self).completed_view() == old(self).completed_view(),
            final(self).pending_view() == old(self).pending_view().push(chunk.chunk_index),
    {
        self.pending.push(chunk.chunk_index);
    }

    /// Hands back the chunks being processed, in the order they were
    /// handed out, and forgets them; their outcomes are then recorded one
    /// by one.
    pub fn take_pending(&mut self) -> (r: Vec<u32>)
        requires
            old(self).wf(),
        ensures
            final(self).wf(),
            r@ == old(self).pending_view(),
            final(self).pending_view() == Seq::<u32>::empty(),
            final(self).completed_view() == old(self).completed_view(),
    {
        let mut taken: Vec<u32> = Vec::new();
        std::mem::swap(&mut taken, &mut self.pending);
        taken
    }

    /// Adds a finished chunk. It goes after every chunk with an index not
    /// above its own and before the others, so the ledger stays in chunk
    /// order and chunks with equal index keep the order they came in.
    pub fn add_completed_chunk(&mut self, index: u32, path: String)
        requires
            old(self).wf(),
        ensures
            final(self).wf(),
            final(self).pending_view() == old(self).pending_view(),
            exists|p: int|
                0 <= p <= old(self).completed_view().len() && final(self).completed_view()
                    == old(self).completed_view().insert(p, (index, path@)) && (forall|k: int|
                    0 <= k < p ==> #[trigger] old(self).completed_view()[k].0 <= index) && (forall|
                    k: int,
                |
                    p <= k < old(self).completed_view().len() ==> #[trigger] old(
                        self,
                    ).completed_view()[k].0 > index),
    {
        let ghost before = self.completed_view();
        let mut p: usize = 0;
        while p < self.completed.len() && self.completed[p].0 <= index
            invariant
                p <= self.completed@.len(),
                self.completed_view() == before,
                in_chunk_order(before),
                forall|k: int| 0 <= k < p ==> #[trigger] before[k].0 <= index,
            decreases self.completed.len() - p,
        {
            p = p + 1;
        }
        proof {
            assert forall|k: int| p <= k < before.len() implies #[trigger] before[k].0 > index by {
                assert(before[p as int] == chunk_view(self.completed@[p as int]));
                if k > p {
                    assert(before[p as int].0 <= before[k].0);
                }
            }
            before.insert_ensures(p as int, (index, path@));
        }
        let ghost path_view = path@;
        self.completed.insert(p, (index, path));
        proof {
            let after = self.completed_view();
            assert(after =~= before.insert(p as int, (index, path_view)));
            assert forall|a: int, b: int| 0 <= a < b < after.len() implies #[trigger] after[a].0
                <= #[trigger] after[b].0 by {
                if b < p {
                    assert(after[a] == before[a] && after[b] == before[b]);
                } else if b == p {
                    assert(after[a] == before[a]);
                } else if a < p {
                    assert(after[a] == before[a] && after[b] == before[b - 1]);
                } else if a == p {
                    assert(after[b] == before[b - 1]);
                } else {
                    assert(after[a] == before[a - 1] && after[b] == before[b - 1]);
                }
            }
        }
    }

    /// Number of chunks, finished or not.
    pub fn total_chunks(&self) -> (r: usize)
        requires
            self.completed_view().len() + self.pending_view().len() <= usize::MAX,
        ensures
            r == self.completed_view().len() + self.pending_view().len(),
    {
        self.completed.len() + self.pending.len()
    }

    /// What becomes of the finished chunks: an error when there is none,
    /// the one file moved into place, or all files joined in chunk order.
    pub fn concat_plan(&self) -> (r: Result<ConcatPlan, ChunkError>)
        ensures
            self.completed_view().len() == 0 <==> r == Err::<ConcatPlan, ChunkError>(
                ChunkError::NoChunks,
            ),
            self.completed_view().len() == 1 ==> (r matches Ok(ConcatPlan::MoveSingle(p)) && p@
                == self.completed_view()[0].1),
            self.completed_view().len() > 1 ==> (r matches Ok(ConcatPlan::Concatenate(ps)) && texts(
                ps@,
            ) == self.completed_view().map_values(|c: (u32, Seq<char>)| c.1)),
    {
        let n = self.completed.len();
        if n == 0 {
            return Err(ChunkError::NoChunks);
        }
        if n == 1 {
            return Ok(ConcatPlan::MoveSingle(self.completed[0].1.clone()));
        }
        let mut ps: Vec<String> = Vec::new();
        let mut i: usize = 0;
        while i < n
            invariant
                n == self.completed@.len(),
                i <= n,
                ps@.len() == i,
                forall|k: int| 0 <= k < i ==> #[trigger] ps@[k]@ == self.completed@[k].1@,
            decreases n - i,
        {
            ps.push(self.completed[i].1.clone());
            i = i + 1;
        }
        proof {
            let names = self.completed_view().map_values(|c: (u32, Seq<char>)| c.1);
            assert forall|k: int| 0 <= k < n implies #[trigger] texts(ps@)[k] == names[k] by {
                assert(ps@[k]@ == self.completed@[k].1@);
            }
            assert(texts(ps@) =~= names);
        }
        Ok(ConcatPlan::Concatenate(ps))
    }
}

/// How the finished chunks become the final file.
#[derive(Debug)]
pub enum ConcatPlan {
    /// A single chunk: moved to the final path.
    MoveSingle(String),
    /// Several chunks: joined, in this order, without re-encoding.
    Concatenate(Vec<String>),
}

/// What can go wrong with the chunks.
#[derive(Debug, Clone, Copy, PartialEq, Eq, Structural)]
pub enum ChunkError {
    /// There is no finished chunk to join.
    NoChunks,
}

impl ChunkError {
    /// The error's message.
    pub fn to_string(&self) -> (r: String)
        ensures
            r@ == "No chunks to concatenate"@,
    {
        owned("No chunks to concatenate")
    }
}

} // verus!
