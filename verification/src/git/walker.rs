//! The chunked history walk. The repository side discovers commits one by
//! one; a `ChunkBuffer` groups them into bounded chunks for streaming, and
//! its ghost state proves that the emitted chunks, concatenated in order,
//! are exactly the commits pushed, in arrival order.

use vstd::prelude::*;
use vstd::seq_lib::*;
use crate::git::commit::Commit;
use crate::git::repository::Repository;

verus! {

/// Plans a chunked walk over the history of one repository.
#[derive(Debug)]
pub struct CommitWalker {
    pub repo: Repository,
    pub chunk_size: usize,
}

impl CommitWalker {
    /// A walker over `repo` with the default chunk size.
    pub fn new(repo: Repository) -> (r: Self)
        ensures
            r.repo == repo,
            r.chunk_size == 100,
    {
        CommitWalker { repo, chunk_size: 100 }
    }

    /// Sets the chunk size for loading commits.
    pub fn with_chunk_size(self, size: usize) -> (r: Self)
        ensures
            r.repo == self.repo,
            r.chunk_size == size,
    {
        CommitWalker { chunk_size: size, ..self }
    }

    /// A fresh buffer for one walk. A configured chunk size of zero behaves
    /// as one: every commit then forms its own chunk.
    pub fn buffer(&self) -> (r: ChunkBuffer)
        ensures
            r.wf(),
            r.chunk_size == (if self.chunk_size == 0 {
                1usize
            } else {
                self.chunk_size
            }),
            r.pushed@ == Seq::<Commit>::empty(),
            r.emitted@ == Seq::<Seq<Commit>>::empty(),
    {
        let size = if self.chunk_size == 0 {
            1
        } else {
            self.chunk_size
        };
        ChunkBuffer::new(size)
    }
}

/// Groups a stream of commits into chunks of a fixed maximum size.
///
/// The ghost fields record the full arrival order (`pushed`) and every chunk
/// handed out so far (`emitted`); the well-formedness invariant ties them
/// together, so that after `finish` the concatenation of all emitted chunks
/// equals the pushed sequence exactly.
pub struct ChunkBuffer {
    pub chunk_size: usize,
    pub buf: Vec<Commit>,
    pub pushed: Ghost<Seq<Commit>>,
    pub emitted: Ghost<Seq<Seq<Commit>>>,
}

impl ChunkBuffer {
    pub open spec fn wf(&self) -> bool {
        &&& self.chunk_size >= 1
        &&& self.buf@.len() < self.chunk_size
        &&& self.emitted@.flatten() + self.buf@ == self.pushed@
    }

    /// An empty buffer for chunks of at most `chunk_size` commits.
    pub fn new(chunk_size: usize) -> (r: Self)
        requires
            chunk_size >= 1,
        ensures
            r.wf(),
            r.chunk_size == chunk_size,
            r.pushed@ == Seq::<Commit>::empty(),
            r.emitted@ == Seq::<Seq<Commit>>::empty(),
    {
        let r = ChunkBuffer {
            chunk_size,
            buf: Vec::new(),
            pushed: Ghost(Seq::empty()),
            emitted: Ghost(Seq::empty()),
        };
        proof {
            r.emitted@.lemma_flatten_and_flatten_alt_are_equivalent();
            assert(r.emitted@.flatten() + r.buf@ =~= r.pushed@);
        }
        r
    }

    /// Accepts the next commit in arrival order. Returns a full chunk
    /// exactly when the commit completes one.
    pub fn push(&mut self, c: Commit) -> (r: Option<Vec<Commit>>)
        requires
            old(self).wf(),
        ensures
            final(self).wf(),
            final(self).chunk_size == old(self).chunk_size,
            final(self).pushed@ == old(self).pushed@.push(c),
            match r {
                Some(chunk) => {
                    &&& chunk@.len() == old(self).chunk_size
                    &&& final(self).emitted@ == old(self).emitted@.push(chunk@)
                    &&& final(self).buf@.len() == 0
                },
                None => {
                    &&& final(self).emitted@ == old(self).emitted@
                    &&& final(self).buf@ == old(self).buf@.push(c)
                },
            },
    {
        self.buf.push(c);
        proof {
            self.pushed@ = self.pushed@.push(c);
        }
        if self.buf.len() == self.chunk_size {
            let mut chunk: Vec<Commit> = Vec::new();
            core::mem::swap(&mut chunk, &mut self.buf);
            proof {
                self.emitted@ = self.emitted@.push(chunk@);
                lemma_flatten_push(old(self).emitted@, chunk@);
                assert(chunk@ == old(self).buf@.push(c));
                assert(self.emitted@.flatten() + self.buf@ =~= self.pushed@);
            }
            Some(chunk)
        } else {
            proof {
                assert(self.emitted@.flatten() + self.buf@ =~= self.pushed@);
            }
            None
        }
    }

    /// Ends the stream, handing out whatever partial chunk remains. After
    /// this call the emitted chunks concatenate to exactly the pushed
    /// commits, in arrival order.
    pub fn finish(&mut self) -> (r: Option<Vec<Commit>>)
        requires
            old(self).wf(),
        ensures
            final(self).wf(),
            final(self).chunk_size == old(self).chunk_size,
            final(self).pushed@ == old(self).pushed@,
            final(self).buf@.len() == 0,
            final(self).emitted@.flatten() == final(self).pushed@,
            match r {
                Some(chunk) => {
                    &&& chunk@ == old(self).buf@
                    &&& 0 < chunk@.len() < old(self).chunk_size
                    &&& final(self).emitted@ == old(self).emitted@.push(chunk@)
                },
                None => {
                    &&& old(self).buf@.len() == 0
                    &&& final(self).emitted@ == old(self).emitted@
                },
            },
    {
        if self.buf.len() == 0 {
            proof {
                assert(self.emitted@.flatten() =~= self.pushed@);
            }
            return None;
        }
        let mut chunk: Vec<Commit> = Vec::new();
        core::mem::swap(&mut chunk, &mut self.buf);
        proof {
            self.emitted@ = self.emitted@.push(chunk@);
            lemma_flatten_push(old(self).emitted@, chunk@);
            assert(self.emitted@.flatten() + self.buf@ =~= self.pushed@);
            assert(self.emitted@.flatten() =~= self.pushed@);
        }
        Some(chunk)
    }
}

/// Appending one more chunk extends the flattening by exactly that chunk.
pub proof fn lemma_flatten_push(chunks: Seq<Seq<Commit>>, chunk: Seq<Commit>)
    ensures
        chunks.push(chunk).flatten() == chunks.flatten() + chunk,
{
    chunks.lemma_flatten_and_flatten_alt_are_equivalent();
    chunks.push(chunk).lemma_flatten_and_flatten_alt_are_equivalent();
    assert(chunks.push(chunk).drop_last() =~= chunks);
    assert(chunks.push(chunk).flatten_alt() == chunks.flatten_alt() + chunk);
}

} // verus!
