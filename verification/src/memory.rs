//! Byte-addressed memory: the interface the processor runs against, a null
//! memory, and a memory backed by a byte vector.

use vstd::prelude::*;

verus! {

/// The 16-bit value whose bytes, least significant first, are `b0`, `b1`.
pub open spec fn le16(b0: u8, b1: u8) -> u16 {
    (b0 as u16) | ((b1 as u16) << 8)
}

/// The 32-bit value whose bytes, least significant first, are `b0` to `b3`.
pub open spec fn le32(b0: u8, b1: u8, b2: u8, b3: u8) -> u32 {
    (b0 as u32) | ((b1 as u32) << 8) | ((b2 as u32) << 16) | ((b3 as u32) << 24)
}

/// The 32-bit value whose bytes, most significant first, are `b0` to `b3`.
pub open spec fn be32(b0: u8, b1: u8, b2: u8, b3: u8) -> u32 {
    ((b0 as u32) << 24) | ((b1 as u32) << 16) | ((b2 as u32) << 8) | (b3 as u32)
}

/// The bytes of a halfword, least significant first.
pub open spec fn halfword_bytes(v: u16) -> Seq<u8> {
    seq![v as u8, (v >> 8) as u8]
}

/// The bytes of a word, least significant first.
pub open spec fn word_bytes(v: u32) -> Seq<u8> {
    seq![v as u8, (v >> 8) as u8, (v >> 16) as u8, (v >> 24) as u8]
}

/// The bytes of an instruction word, most significant first.
pub open spec fn inst_bytes(v: u32) -> Seq<u8> {
    seq![(v >> 24) as u8, (v >> 16) as u8, (v >> 8) as u8, v as u8]
}

/// The byte that a read finds at `a` after a store of `bytes` at `addr`,
/// where `before` was found there until then: in a memory that keeps stores
/// the addresses from `addr` on read as `bytes`; every other read is as
/// before.
pub open spec fn byte_after_store(before: u8, kept: bool, a: int, addr: int, bytes: Seq<u8>) -> u8 {
    if kept && addr <= a < addr + bytes.len() {
        bytes[a - addr]
    } else {
        before
    }
}

/// A flat byte-addressed store.
///
/// A memory is described by its length, by the byte that a read finds at
/// each address, by the accesses that it serves, and by whether it keeps
/// what is stored. Data is little-endian; instruction words are big-endian.
/// An access that the memory does not serve is an error of the caller.
pub trait Memory {
    /// The length in bytes.
    spec fn spec_len(&self) -> nat;

    /// Whether the memory serves an access of `width` bytes at `addr`.
    spec fn accepts(&self, addr: int, width: int) -> bool;

    /// The byte that a read finds at `addr`.
    spec fn byte_at(&self, addr: int) -> u8;

    /// Whether a store changes what later reads find.
    spec fn keeps_stores(&self) -> bool;

    /// Read an instruction located at `addr`.
    fn read_inst(&self, addr: usize) -> (r: u32)
        requires
            self.accepts(addr as int, 4),
        ensures
            r == be32(
                self.byte_at(addr as int),
                self.byte_at(addr + 1),
                self.byte_at(addr + 2),
                self.byte_at(addr + 3),
            ),
    ;

    /// Read the byte located at `addr`.
    fn read_byte(&self, addr: usize) -> (r: u8)
        requires
            self.accepts(addr as int, 1),
        ensures
            r == self.byte_at(addr as int),
    ;

    /// Read the halfword located at `addr`.
    fn read_halfword(&self, addr: usize) -> (r: u16)
        requires
            self.accepts(addr as int, 2),
        ensures
            r == le16(self.byte_at(addr as int), self.byte_at(addr + 1)),
    ;

    /// Read the word located at `addr`.
    fn read_word(&self, addr: usize) -> (r: u32)
        requires
            self.accepts(addr as int, 4),
        ensures
            r == le32(
                self.byte_at(addr as int),
                self.byte_at(addr + 1),
                self.byte_at(addr + 2),
                self.byte_at(addr + 3),
            ),
    ;

    /// Write an instruction at `addr`.
    fn write_inst(&mut self, addr: usize, data: u32)
        requires
            old(self).accepts(addr as int, 4),
        ensures
            final(self).spec_len() == old(self).spec_len(),
            final(self).keeps_stores() == old(self).keeps_stores(),
            forall|a: int, w: int| #[trigger] final(self).accepts(a, w) == old(self).accepts(a, w),
            forall|a: int| #[trigger]
                final(self).byte_at(a) == byte_after_store(
                    old(self).byte_at(a),
                    old(self).keeps_stores(),
                    a,
                    addr as int,
                    inst_bytes(data),
                ),
    ;

    /// Write a byte at `addr`.
    fn write_byte(&mut self, addr: usize, data: u8)
        requires
            old(self).accepts(addr as int, 1),
        ensures
            final(self).spec_len() == old(self).spec_len(),
            final(self).keeps_stores() == old(self).keeps_stores(),
            forall|a: int, w: int| #[trigger] final(self).accepts(a, w) == old(self).accepts(a, w),
            forall|a: int| #[trigger]
                final(self).byte_at(a) == byte_after_store(
                    old(self).byte_at(a),
                    old(self).keeps_stores(),
                    a,
                    addr as int,
                    seq![data],
                ),
    ;

    /// Write a halfword at `addr`.
    fn write_halfword(&mut self, addr: usize, data: u16)
        requires
            old(self).accepts(addr as int, 2),
        ensures
            final(self).spec_len() == old(self).spec_len(),
            final(self).keeps_stores() == old(self).keeps_stores(),
            forall|a: int, w: int| #[trigger] final(self).accepts(a, w) == old(self).accepts(a, w),
            forall|a: int| #[trigger]
                final(self).byte_at(a) == byte_after_store(
                    old(self).byte_at(a),
                    old(self).keeps_stores(),
                    a,
                    addr as int,
                    halfword_bytes(data),
                ),
    ;

    /// Write a word at `addr`.
    fn write_word(&mut self, addr: usize, data: u32)
        requires
            old(self).accepts(addr as int, 4),
        ensures
            final(self).spec_len() == old(self).spec_len(),
            final(self).keeps_stores() == old(self).keeps_stores(),
            forall|a: int, w: int| #[trigger] final(self).accepts(a, w) == old(self).accepts(a, w),
            forall|a: int| #[trigger]
                final(self).byte_at(a) == byte_after_store(
                    old(self).byte_at(a),
                    old(self).keeps_stores(),
                    a,
                    addr as int,
                    word_bytes(data),
                ),
    ;

    /// Get the memory size in bytes. Every access that lies inside the
    /// length is served.
    fn len(&self) -> (n: usize)
        ensures
            n == self.spec_len(),
            forall|a: int, w: int|
                0 <= a && 0 <= w && a + w <= n ==> #[trigger] self.accepts(a, w),
    ;
}

/// The halfword that a little-endian read of `m` finds at `addr`.
pub open spec fn halfword_at<M: Memory>(m: M, addr: int) -> u16 {
    le16(m.byte_at(addr), m.byte_at(addr + 1))
}

/// The word that a little-endian read of `m` finds at `addr`.
pub open spec fn word_at<M: Memory>(m: M, addr: int) -> u32 {
    le32(m.byte_at(addr), m.byte_at(addr + 1), m.byte_at(addr + 2), m.byte_at(addr + 3))
}

/// The instruction word that a big-endian read of `m` finds at `addr`.
pub open spec fn inst_at<M: Memory>(m: M, addr: int) -> u32 {
    be32(m.byte_at(addr), m.byte_at(addr + 1), m.byte_at(addr + 2), m.byte_at(addr + 3))
}

/// `post` serves the same accesses as `pre`, with the same length, and
/// keeps stores where `pre` does.
pub open spec fn same_shape<M: Memory>(pre: M, post: M) -> bool {
    &&& post.spec_len() == pre.spec_len()
    &&& post.keeps_stores() == pre.keeps_stores()
    &&& forall|a: int, w: int| #[trigger] post.accepts(a, w) == pre.accepts(a, w)
}

/// `post` is `pre` after a store of `bytes` at `addr`.
pub open spec fn stored<M: Memory>(pre: M, post: M, addr: int, bytes: Seq<u8>) -> bool {
    &&& same_shape(pre, post)
    &&& forall|a: int| #[trigger]
        post.byte_at(a) == byte_after_store(pre.byte_at(a), pre.keeps_stores(), a, addr, bytes)
}

/// `post` reads everywhere as `pre` does.
pub open spec fn same_contents<M: Memory>(pre: M, post: M) -> bool {
    &&& same_shape(pre, post)
    &&& forall|a: int| #[trigger] post.byte_at(a) == pre.byte_at(a)
}

/// A byte stored and read back is the byte stored, in a memory that keeps
/// stores.
pub proof fn lemma_byte_round_trip<M: Memory>(pre: M, post: M, addr: int, v: u8)
    requires
        pre.keeps_stores(),
        stored(pre, post, addr, seq![v]),
    ensures
        post.byte_at(addr) == v,
{
}

/// A halfword stored and read back, both little-endian, is the halfword
/// stored, in a memory that keeps stores.
pub proof fn lemma_halfword_round_trip<M: Memory>(pre: M, post: M, addr: int, v: u16)
    requires
        pre.keeps_stores(),
        stored(pre, post, addr, halfword_bytes(v)),
    ensures
        halfword_at(post, addr) == v,
{
    assert(post.byte_at(addr) == v as u8);
    assert(post.byte_at(addr + 1) == (v >> 8) as u8);
    assert(le16(v as u8, (v >> 8) as u8) == v) by (bit_vector);
}

/// A word stored and read back, both little-endian, is the word stored, in
/// a memory that keeps stores.
pub proof fn lemma_word_round_trip<M: Memory>(pre: M, post: M, addr: int, v: u32)
    requires
        pre.keeps_stores(),
        stored(pre, post, addr, word_bytes(v)),
    ensures
        word_at(post, addr) == v,
{
    assert(post.byte_at(addr) == v as u8);
    assert(post.byte_at(addr + 1) == (v >> 8) as u8);
    assert(post.byte_at(addr + 2) == (v >> 16) as u8);
    assert(post.byte_at(addr + 3) == (v >> 24) as u8);
    assert(le32(v as u8, (v >> 8) as u8, (v >> 16) as u8, (v >> 24) as u8) == v) by (bit_vector);
}

/// An instruction word stored and fetched, both big-endian, is the word
/// stored, in a memory that keeps stores.
pub proof fn lemma_inst_round_trip<M: Memory>(pre: M, post: M, addr: int, v: u32)
    requires
        pre.keeps_stores(),
        stored(pre, post, addr, inst_bytes(v)),
    ensures
        inst_at(post, addr) == v,
{
    assert(post.byte_at(addr) == (v >> 24) as u8);
    assert(post.byte_at(addr + 1) == (v >> 16) as u8);
    assert(post.byte_at(addr + 2) == (v >> 8) as u8);
    assert(post.byte_at(addr + 3) == v as u8);
    assert(be32((v >> 24) as u8, (v >> 16) as u8, (v >> 8) as u8, v as u8) == v) by (bit_vector);
}

/// A memory without contents: every read finds zero and every store is
/// ignored, at any address.
///
/// Its length is zero. A processor goes by the length, so over this memory
/// it raises the access fault on every fetch, load and store and never
/// reaches the reads and writes below; they serve callers that use the
/// memory directly.
#[derive(Debug)]
pub struct EmptyMemory;

impl Memory for EmptyMemory {
    open spec fn spec_len(&self) -> nat {
        0
    }

    open spec fn accepts(&self, addr: int, width: int) -> bool {
        true
    }

    open spec fn byte_at(&self, addr: int) -> u8 {
        0
    }

    open spec fn keeps_stores(&self) -> bool {
        false
    }

    fn read_inst(&self, _addr: usize) -> (r: u32)
        ensures
            r == 0,
    {
        assert(be32(0, 0, 0, 0) == 0) by (bit_vector);
        0
    }

    fn read_byte(&self, _addr: usize) -> (r: u8)
        ensures
            r == 0,
    {
        0
    }

    fn read_halfword(&self, _addr: usize) -> (r: u16)
        ensures
            r == 0,
    {
        assert(le16(0, 0) == 0) by (bit_vector);
        0
    }

    fn read_word(&self, _addr: usize) -> (r: u32)
        ensures
            r == 0,
    {
        assert(le32(0, 0, 0, 0) == 0) by (bit_vector);
        0
    }

    fn write_inst(&mut self, _addr: usize, _data: u32) {
    }

    fn write_byte(&mut self, _addr: usize, _data: u8) {
    }

    fn write_halfword(&mut self, _addr: usize, _data: u16) {
    }

    fn write_word(&mut self, _addr: usize, _data: u32) {
    }

    fn len(&self) -> (n: usize) {
        0
    }
}

/// A memory backed by a vector of bytes, of the length it was made with.
#[derive(Debug)]
pub struct VectorMemory {
    memory: Vec<u8>,
}

impl View for VectorMemory {
    type V = Seq<u8>;

    closed spec fn view(&self) -> Seq<u8> {
        self.memory@
    }
}

impl VectorMemory {
    /// A memory of `size` zero bytes.
    pub fn new(size: usize) -> (r: Self)
        ensures
            r@.len() == size,
            forall|i: int| 0 <= i < size ==> r@[i] == 0,
    {
        let mut memory: Vec<u8> = Vec::with_capacity(size);
        memory.resize(size, 0);
        Self { memory }
    }

    /// The length fits the machine's address type.
    proof fn lemma_len_fits(&self)
        ensures
            self@.len() <= usize::MAX,
    {
        assert(self.memory.len() == self.memory@.len());
    }

    /// Read the byte located at `addr`.
    fn read_lb(&self, addr: usize) -> (r: u8)
        requires
            addr < self@.len(),
        ensures
            r == self@[addr as int],
    {
        self.memory[addr]
    }

    /// Read the little-endian halfword located at `addr`.
    fn read_lh(&self, addr: usize) -> (r: u16)
        requires
            addr + 2 <= self@.len(),
        ensures
            r == le16(self@[addr as int], self@[addr + 1]),
    {
        proof {
            self.lemma_len_fits();
        }
        (self.memory[addr] as u16) | (self.memory[addr + 1] as u16) << 8
    }

    /// Read the big-endian word located at `addr`.
    fn read_bw(&self, addr: usize) -> (r: u32)
        requires
            addr + 4 <= self@.len(),
        ensures
            r == be32(self@[addr as int], self@[addr + 1], self@[addr + 2], self@[addr + 3]),
    {
        proof {
            self.lemma_len_fits();
        }
        (self.memory[addr] as u32) << 24
            | (self.memory[addr + 1] as u32) << 16
            | (self.memory[addr + 2] as u32) << 8
            | (self.memory[addr + 3] as u32)
    }

    /// Read the little-endian word located at `addr`.
    fn read_lw(&self, addr: usize) -> (r: u32)
        requires
            addr + 4 <= self@.len(),
        ensures
            r == le32(self@[addr as int], self@[addr + 1], self@[addr + 2], self@[addr + 3]),
    {
        proof {
            self.lemma_len_fits();
        }
        (self.memory[addr] as u32)
            | (self.memory[addr + 1] as u32) << 8
            | (self.memory[addr + 2] as u32) << 16
            | (self.memory[addr + 3] as u32) << 24
    }

    /// Write a byte at `addr`.
    fn write_lb(&mut self, addr: usize, val: u8)
        requires
            addr < old(self)@.len(),
        ensures
            final(self)@ == old(self)@.update(addr as int, val),
    {
        self.memory[addr] = val;
    }

    /// Write a little-endian halfword at `addr`.
    fn write_lh(&mut self, addr: usize, val: u16)
        requires
            addr + 2 <= old(self)@.len(),
        ensures
            final(self)@ == old(self)@.update(addr as int, val as u8).update(
                addr + 1,
                (val >> 8) as u8,
            ),
    {
        proof {
            self.lemma_len_fits();
        }
        self.memory[addr] = val as u8;
        self.memory[addr + 1] = (val >> 8) as u8;
    }

    /// Write a big-endian word at `addr`.
    fn write_bw(&mut self, addr: usize, val: u32)
        requires
            addr + 4 <= old(self)@.len(),
        ensures
            final(self)@ == old(self)@.update(addr as int, (val >> 24) as u8).update(
                addr + 1,
                (val >> 16) as u8,
            ).update(addr + 2, (val >> 8) as u8).update(addr + 3, val as u8),
    {
        proof {
            self.lemma_len_fits();
        }
        self.memory[addr] = (val >> 24) as u8;
        self.memory[addr + 1] = (val >> 16) as u8;
        self.memory[addr + 2] = (val >> 8) as u8;
        self.memory[addr + 3] = val as u8;
    }

    /// Write a little-endian word at `addr`.
    fn write_lw(&mut self, addr: usize, val: u32)
        requires
            addr + 4 <= old(self)@.len(),
        ensures
            final(self)@ == old(self)@.update(addr as int, val as u8).update(
                addr + 1,
                (val >> 8) as u8,
            ).update(addr + 2, (val >> 16) as u8).update(addr + 3, (val >> 24) as u8),
    {
        proof {
            self.lemma_len_fits();
        }
        self.memory[addr] = val as u8;
        self.memory[addr + 1] = (val >> 8) as u8;
        self.memory[addr + 2] = (val >> 16) as u8;
        self.memory[addr + 3] = (val >> 24) as u8;
    }

    /// Write an instruction word at `addr`, most significant byte first.
    pub fn write_inst(&mut self, addr: usize, inst: u32)
        requires
            addr + 4 <= old(self)@.len(),
        ensures
            final(self)@ == old(self)@.update(addr as int, (inst >> 24) as u8).update(
                addr + 1,
                (inst >> 16) as u8,
            ).update(addr + 2, (inst >> 8) as u8).update(addr + 3, inst as u8),
    {
        self.write_bw(addr, inst);
    }
}

impl Memory for VectorMemory {
    open spec fn spec_len(&self) -> nat {
        self@.len()
    }

    open spec fn accepts(&self, addr: int, width: int) -> bool {
        0 <= addr && 0 <= width && addr + width <= self@.len()
    }

    open spec fn byte_at(&self, addr: int) -> u8 {
        if 0 <= addr < self@.len() {
            self@[addr]
        } else {
            0
        }
    }

    open spec fn keeps_stores(&self) -> bool {
        true
    }

    fn read_inst(&self, addr: usize) -> (r: u32) {
        self.read_bw(addr)
    }

    fn read_byte(&self, addr: usize) -> (r: u8) {
        self.read_lb(addr)
    }

    fn read_halfword(&self, addr: usize) -> (r: u16) {
        self.read_lh(addr)
    }

    fn read_word(&self, addr: usize) -> (r: u32) {
        self.read_lw(addr)
    }

    fn write_inst(&mut self, addr: usize, data: u32) {
        self.write_bw(addr, data);
    }

    fn write_byte(&mut self, addr: usize, data: u8) {
        self.write_lb(addr, data);
    }

    fn write_halfword(&mut self, addr: usize, data: u16) {
        self.write_lh(addr, data);
    }

    fn write_word(&mut self, addr: usize, data: u32) {
        self.write_lw(addr, data);
    }

    fn len(&self) -> (n: usize) {
        self.memory.len()
    }
}

impl From<Vec<u8>> for VectorMemory {
    /// A memory that holds the given bytes.
    fn from(memory: Vec<u8>) -> (r: Self)
        ensures
            r@ == memory@,
    {
        Self { memory }
    }
}

impl vstd::std_specs::convert::FromSpecImpl<Vec<u8>> for VectorMemory {
    open spec fn obeys_from_spec() -> bool {
        true
    }

    closed spec fn from_spec(memory: Vec<u8>) -> Self {
        VectorMemory { memory }
    }
}

} // verus!
