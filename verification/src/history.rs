//! Bounded, FIFO-evicting store of the most recent device chunks.
//!
//! The buffer keeps at most `cap` chunks.  A push past that bound evicts
//! the oldest surviving chunk, so index 0 is always the oldest entry and
//! the buffer holds exactly the most recent pushes, in arrival order.

use vstd::prelude::*;

verus! {

/// The abstract contents of a vector of byte chunks: one `Seq<u8>` per chunk,
/// in the same order.
pub open spec fn chunks_view(v: Vec<Vec<u8>>) -> Seq<Seq<u8>> {
    Seq::new(v@.len(), |i: int| v@[i]@)
}

/// One push into a buffer of capacity `cap`: the chunk is appended, and the
/// oldest chunk is evicted first when the buffer is already full.
pub open spec fn push_model(s: Seq<Seq<u8>>, cap: nat, c: Seq<u8>) -> Seq<Seq<u8>> {
    if s.len() < cap {
        s.push(c)
    } else {
        s.skip(1).push(c)
    }
}

/// A whole sequence of pushes, oldest first.
pub open spec fn push_all_model(s: Seq<Seq<u8>>, cap: nat, cs: Seq<Seq<u8>>) -> Seq<Seq<u8>>
    decreases cs.len(),
{
    if cs.len() == 0 {
        s
    } else {
        push_all_model(push_model(s, cap, cs[0]), cap, cs.skip(1))
    }
}

/// The visible tail: the last `k` chunks, or all of them when `k` is at
/// least the current length.
pub open spec fn tail_model(s: Seq<Seq<u8>>, k: nat) -> Seq<Seq<u8>> {
    if k >= s.len() {
        s
    } else {
        s.skip(s.len() - k)
    }
}

/// Bounded ring of byte chunks, insertion order kept, oldest first.
pub struct HistoryBuffer {
    chunks: Vec<Vec<u8>>,
    capacity: usize,
}

impl HistoryBuffer {
    /// The chunks currently held, oldest first.
    pub closed spec fn view(&self) -> Seq<Seq<u8>> {
        chunks_view(self.chunks)
    }

    /// The fixed capacity the buffer was created with.
    pub closed spec fn cap(&self) -> nat {
        self.capacity as nat
    }

    /// The buffer never holds more than its capacity.
    pub open spec fn wf(&self) -> bool {
        1 <= self.cap() && self@.len() <= self.cap()
    }

    /// Creates an empty buffer of the given fixed capacity.
    pub fn new(capacity: usize) -> (buf: HistoryBuffer)
        requires
            1 <= capacity,
        ensures
            buf.wf(),
            buf.cap() == capacity,
            buf@ == Seq::<Seq<u8>>::empty(),
    {
        let buf = HistoryBuffer { chunks: Vec::new(), capacity };
        proof {
            assert(buf@ =~= Seq::<Seq<u8>>::empty());
        }
        buf
    }

    /// The number of chunks currently held.
    pub fn len(&self) -> (n: usize)
        ensures
            n == self@.len(),
    {
        self.chunks.len()
    }

    /// The fixed capacity.
    pub fn capacity(&self) -> (c: usize)
        ensures
            c == self.cap(),
    {
        self.capacity
    }

    /// Appends a chunk, evicting the oldest chunk if the buffer is full.
    /// Never fails.
    pub fn push(&mut self, chunk: Vec<u8>)
        requires
            old(self).wf(),
        ensures
            final(self).wf(),
            final(self).cap() == old(self).cap(),
            final(self)@ == push_model(old(self)@, old(self).cap(), chunk@),
    {
        if self.chunks.len() == self.capacity {
            self.chunks.remove(0);
            proof {
                assert(chunks_view(self.chunks) =~= old(self)@.skip(1));
            }
        }
        let ghost before = chunks_view(self.chunks);
        self.chunks.push(chunk);
        proof {
            assert(chunks_view(self.chunks) =~= before.push(chunk@));
        }
    }

    /// Returns copies of the last `max_rows` chunks (or all of them when the
    /// buffer is shorter), in arrival order.
    pub fn visible_slice(&self, max_rows: usize) -> (rows: Vec<Vec<u8>>)
        ensures
            chunks_view(rows) == tail_model(self@, max_rows as nat),
    {
        let len = self.chunks.len();
        let k = if max_rows < len {
            max_rows
        } else {
            len
        };
        let start = len - k;
        let mut rows: Vec<Vec<u8>> = Vec::new();
        let mut i = start;
        while i < len
            invariant
                start <= i <= len,
                len == self.chunks.len(),
                chunks_view(rows) =~= self@.subrange(start as int, i as int),
            decreases len - i,
        {
            let row = vstd::slice::slice_to_vec(self.chunks[i].as_slice());
            let ghost before = chunks_view(rows);
            rows.push(row);
            proof {
                assert(chunks_view(rows) =~= before.push(row@));
                assert(before.push(self@[i as int]) =~= self@.subrange(start as int, i + 1));
            }
            i = i + 1;
        }
        proof {
            assert(chunks_view(rows) =~= tail_model(self@, max_rows as nat));
        }
        rows
    }
}

/// A buffer fed more chunks than its capacity holds exactly the last
/// `cap` of them: starting from any well-formed contents `s`, pushing the
/// chunks `cs` in order leaves exactly the tail of `s + cs` that fits.
pub proof fn lemma_push_all_is_tail(s: Seq<Seq<u8>>, cap: nat, cs: Seq<Seq<u8>>)
    requires
        1 <= cap,
        s.len() <= cap,
    ensures
        push_all_model(s, cap, cs) == tail_model(s + cs, cap),
    decreases cs.len(),
{
    if cs.len() == 0 {
        assert(s + cs =~= s);
    } else {
        let s1 = push_model(s, cap, cs[0]);
        assert(s1.len() <= cap);
        lemma_push_all_is_tail(s1, cap, cs.skip(1));
        if s.len() < cap {
            assert(s1 + cs.skip(1) =~= s + cs);
        } else {
            assert(s1 + cs.skip(1) =~= (s + cs).skip(1));
            let t = s + cs;
            assert(t.len() == cap + cs.len());
            assert(tail_model(t.skip(1), cap) =~= tail_model(t, cap));
        }
    }
}

/// The saturated case: after at least `cap` pushes into an initially empty
/// buffer, the length is exactly `cap` and the contents are exactly the
/// last `cap` pushed chunks, in arrival order.
pub proof fn lemma_pushes_beyond_capacity(cap: nat, cs: Seq<Seq<u8>>)
    requires
        1 <= cap,
        cs.len() >= cap,
    ensures
        push_all_model(Seq::<Seq<u8>>::empty(), cap, cs).len() == cap,
        push_all_model(Seq::<Seq<u8>>::empty(), cap, cs) == cs.skip(cs.len() - cap),
{
    lemma_push_all_is_tail(Seq::<Seq<u8>>::empty(), cap, cs);
    assert(Seq::<Seq<u8>>::empty() + cs =~= cs);
}

} // verus!
