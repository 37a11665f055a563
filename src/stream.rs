//! Lazy, restartable production of a table's encoding, one byte at a time.
use vstd::prelude::*;

use crate::endian::{encode_words, word_bytes, ConstTable, EndianWrapper, Endianness};

verus! {

/// The words of `vals` encoded front to back: the order in which a lazy
/// reader produces them.
pub open spec fn stream_words(vals: Seq<nat>, w: nat, e: Endianness) -> Seq<u8>
    decreases vals.len(),
{
    if vals.len() == 0 {
        Seq::empty()
    } else {
        word_bytes(vals[0], w, e) + stream_words(vals.drop_first(), w, e)
    }
}

/// The eager encoding splits off its first word like the lazy one.
proof fn lemma_encode_words_front(vals: Seq<nat>, w: nat, e: Endianness)
    requires
        vals.len() > 0,
    ensures
        encode_words(vals, w, e) =~= word_bytes(vals[0], w, e) + encode_words(
            vals.drop_first(),
            w,
            e,
        ),
    decreases vals.len(),
{
    if vals.len() == 1 {
        assert(vals.drop_last() =~= Seq::<nat>::empty());
        assert(vals.drop_first() =~= Seq::<nat>::empty());
    } else {
        lemma_encode_words_front(vals.drop_last(), w, e);
        assert(vals.drop_last().drop_first() =~= vals.drop_first().drop_last());
    }
}

/// Reading a table lazily from its start yields exactly its eager encoding,
/// whatever the table and the byte order.
pub proof fn lemma_lazy_matches_eager(vals: Seq<nat>, w: nat, e: Endianness)
    ensures
        stream_words(vals, w, e) == encode_words(vals, w, e),
    decreases vals.len(),
{
    if vals.len() > 0 {
        lemma_lazy_matches_eager(vals.drop_first(), w, e);
        lemma_encode_words_front(vals, w, e);
    }
}

/// Produces the encoding of a constant table one byte at a time.
pub struct ByteIterator {
    source: ConstTable,
    order: Endianness,
    /// The number of elements already taken from `source`.
    index: usize,
    /// The encoding of the element taken last.
    buf: Vec<u8>,
    /// The number of bytes of `buf` already produced.
    offset: usize,
}

impl ByteIterator {
    pub closed spec fn wf(&self) -> bool {
        &&& self.index <= self.source.values().len()
        &&& self.offset <= self.buf.len()
    }

    /// The table being encoded.
    pub closed spec fn table(&self) -> ConstTable {
        self.source
    }

    /// The byte order of the encoding.
    pub closed spec fn order(&self) -> Endianness {
        self.order
    }

    /// The bytes still to come, in order.
    pub closed spec fn remaining(&self) -> Seq<u8> {
        let vals = self.source.values();
        self.buf@.subrange(self.offset as int, self.buf.len() as int) + stream_words(
            vals.subrange(self.index as int, vals.len() as int),
            self.source.width(),
            self.order,
        )
    }

    /// Starts producing the encoding of `w`'s table in byte order `e`.
    pub fn new(w: EndianWrapper, e: Endianness) -> (r: Self)
        ensures
            r.wf(),
            r.table() == w.0,
            r.order() == e,
            r.remaining() == stream_words(w.0.values(), w.0.width(), e),
    {
        let r = ByteIterator { source: w.0, order: e, index: 0, buf: Vec::new(), offset: 0 };
        proof {
            let vals = r.source.values();
            assert(vals.subrange(0, vals.len() as int) =~= vals);
            assert(r.remaining() =~= stream_words(vals, r.source.width(), e));
        }
        r
    }

    /// Goes back to the start of the encoding.
    pub fn restart(&mut self)
        ensures
            final(self).wf(),
            final(self).table() == old(self).table(),
            final(self).order() == old(self).order(),
            final(self).remaining() == stream_words(
                old(self).table().values(),
                old(self).table().width(),
                old(self).order(),
            ),
    {
        self.index = 0;
        self.buf = Vec::new();
        self.offset = 0;
        proof {
            let vals = self.source.values();
            assert(vals.subrange(0, vals.len() as int) =~= vals);
            assert(self.remaining() =~= stream_words(vals, self.source.width(), self.order));
        }
    }

    /// Produces the next byte of the encoding, or `None` once it is used up.
    pub fn next(&mut self) -> (r: Option<u8>)
        requires
            old(self).wf(),
        ensures
            final(self).wf(),
            final(self).table() == old(self).table(),
            final(self).order() == old(self).order(),
            old(self).remaining().len() == 0 ==> r is None && final(self).remaining()
                == old(self).remaining(),
            old(self).remaining().len() > 0 ==> r == Some(old(self).remaining()[0])
                && final(self).remaining() == old(self).remaining().drop_first(),
    {
        let ghost before = self.remaining();
        let ghost vals = self.source.values();
        let ghost w = self.source.width();
        if self.offset < self.buf.len() {
            let b = self.buf[self.offset];
            self.offset = self.offset + 1;
            proof {
                assert(self.remaining() =~= before.drop_first());
            }
            return Some(b);
        }
        if self.index >= self.source.len() {
            proof {
                assert(vals.subrange(self.index as int, vals.len() as int) =~= Seq::<nat>::empty());
                assert(before =~= Seq::<u8>::empty());
            }
            return None;
        }
        proof {
            let rest = vals.subrange(self.index as int, vals.len() as int);
            assert(rest.drop_first() =~= vals.subrange(self.index + 1, vals.len() as int));
            assert(before =~= word_bytes(vals[self.index as int], w, self.order) + stream_words(
                rest.drop_first(),
                w,
                self.order,
            ));
        }
        self.buf = self.source.element_bytes(self.index, self.order);
        self.index = self.index + 1;
        self.offset = 1;
        proof {
            assert(self.remaining() =~= before.drop_first());
        }
        Some(self.buf[0])
    }

    /// Produces every byte still to come.
    pub fn collect_remaining(&mut self) -> (r: Vec<u8>)
        requires
            old(self).wf(),
        ensures
            final(self).wf(),
            final(self).table() == old(self).table(),
            final(self).order() == old(self).order(),
            r@ == old(self).remaining(),
            final(self).remaining().len() == 0,
    {
        let ghost start = self.remaining();
        let mut out: Vec<u8> = Vec::new();
        let mut done = false;
        while !done
            invariant
                self.wf(),
                self.table() == old(self).table(),
                self.order() == old(self).order(),
                start == old(self).remaining(),
                out@ + self.remaining() == start,
                done ==> self.remaining().len() == 0,
            decreases self.remaining().len() + if done { 0int } else { 1int },
        {
            let ghost prev = self.remaining();
            match self.next() {
                Some(b) => {
                    out.push(b);
                    proof {
                        assert(out@ + self.remaining() =~= start);
                    }
                },
                None => {
                    done = true;
                },
            }
        }
        proof {
            assert(out@ =~= start);
        }
        out
    }
}

} // verus!
