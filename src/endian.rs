//! Byte-order-aware encoding of fixed-width integers and integer tables.
use vstd::arithmetic::power::pow;
use vstd::prelude::*;

use byteorder::{BigEndian, ByteOrder, LittleEndian};

verus! {

/// The order in which the bytes of a multi-byte integer are laid out.
#[derive(Debug, Clone, Copy, PartialEq, Eq, Structural)]
pub enum Endianness {
    LittleEndian,
    BigEndian,
}

impl Endianness {
    /// The short name of the byte order.
    pub fn label(&self) -> (r: &'static str)
        ensures
            r@ == (match self {
                Endianness::LittleEndian => "LE"@,
                Endianness::BigEndian => "BE"@,
            }),
    {
        match self {
            Endianness::LittleEndian => "LE",
            Endianness::BigEndian => "BE",
        }
    }
}

/// Byte number `k` of `v`, counting from the least significant byte.
pub open spec fn byte_at(v: nat, k: nat) -> u8 {
    ((v as int / pow(256, k)) % 256) as u8
}

/// The `w` bytes that encode `v` in byte order `e`.
pub open spec fn word_bytes(v: nat, w: nat, e: Endianness) -> Seq<u8> {
    Seq::new(
        w,
        |j: int|
            match e {
                Endianness::LittleEndian => byte_at(v, j as nat),
                Endianness::BigEndian => byte_at(v, (w - 1 - j) as nat),
            },
    )
}

/// Relies on byteorder's `LittleEndian::write_u16`: the 2 bytes of `n`, least
/// significant first.
#[verifier::external_body]
fn write_u16_le(n: u16) -> (r: Vec<u8>)
    ensures
        r@ == word_bytes(n as nat, 2, Endianness::LittleEndian),
{
    let mut buf = vec![0u8; 2];
    LittleEndian::write_u16(&mut buf, n);
    buf
}

/// Relies on byteorder's `BigEndian::write_u16`: the 2 bytes of `n`, most
/// significant first.
#[verifier::external_body]
fn write_u16_be(n: u16) -> (r: Vec<u8>)
    ensures
        r@ == word_bytes(n as nat, 2, Endianness::BigEndian),
{
    let mut buf = vec![0u8; 2];
    BigEndian::write_u16(&mut buf, n);
    buf
}

/// Relies on byteorder's `LittleEndian::write_u32`: the 4 bytes of `n`, least
/// significant first.
#[verifier::external_body]
fn write_u32_le(n: u32) -> (r: Vec<u8>)
    ensures
        r@ == word_bytes(n as nat, 4, Endianness::LittleEndian),
{
    let mut buf = vec![0u8; 4];
    LittleEndian::write_u32(&mut buf, n);
    buf
}

/// Relies on byteorder's `BigEndian::write_u32`: the 4 bytes of `n`, most
/// significant first.
#[verifier::external_body]
fn write_u32_be(n: u32) -> (r: Vec<u8>)
    ensures
        r@ == word_bytes(n as nat, 4, Endianness::BigEndian),
{
    let mut buf = vec![0u8; 4];
    BigEndian::write_u32(&mut buf, n);
    buf
}

/// Relies on byteorder's `LittleEndian::write_u64`: the 8 bytes of `n`, least
/// significant first.
#[verifier::external_body]
fn write_u64_le(n: u64) -> (r: Vec<u8>)
    ensures
        r@ == word_bytes(n as nat, 8, Endianness::LittleEndian),
{
    let mut buf = vec![0u8; 8];
    LittleEndian::write_u64(&mut buf, n);
    buf
}

/// Relies on byteorder's `BigEndian::write_u64`: the 8 bytes of `n`, most
/// significant first.
#[verifier::external_body]
fn write_u64_be(n: u64) -> (r: Vec<u8>)
    ensures
        r@ == word_bytes(n as nat, 8, Endianness::BigEndian),
{
    let mut buf = vec![0u8; 8];
    BigEndian::write_u64(&mut buf, n);
    buf
}

/// A table of constants, all of one integer width.
pub enum ConstTable {
    U8(Vec<u8>),
    U16(Vec<u16>),
    U32(Vec<u32>),
    U64(Vec<u64>),
}

impl ConstTable {
    /// The width of one element, in bytes.
    pub open spec fn width(&self) -> nat {
        match self {
            ConstTable::U8(_) => 1,
            ConstTable::U16(_) => 2,
            ConstTable::U32(_) => 4,
            ConstTable::U64(_) => 8,
        }
    }

    /// The elements, in table order.
    pub open spec fn values(&self) -> Seq<nat> {
        match self {
            ConstTable::U8(v) => v@.map_values(|x: u8| x as nat),
            ConstTable::U16(v) => v@.map_values(|x: u16| x as nat),
            ConstTable::U32(v) => v@.map_values(|x: u32| x as nat),
            ConstTable::U64(v) => v@.map_values(|x: u64| x as nat),
        }
    }

    /// The table encoded in byte order `e`.
    pub open spec fn encoding(&self, e: Endianness) -> Seq<u8> {
        encode_words(self.values(), self.width(), e)
    }

    /// The number of elements.
    pub fn len(&self) -> (r: usize)
        ensures
            r == self.values().len(),
    {
        match self {
            ConstTable::U8(v) => v.len(),
            ConstTable::U16(v) => v.len(),
            ConstTable::U32(v) => v.len(),
            ConstTable::U64(v) => v.len(),
        }
    }

    /// The width of one element, in bytes.
    pub fn element_width(&self) -> (r: usize)
        ensures
            r == self.width(),
    {
        match self {
            ConstTable::U8(_) => 1,
            ConstTable::U16(_) => 2,
            ConstTable::U32(_) => 4,
            ConstTable::U64(_) => 8,
        }
    }

    /// The bytes of element `i` in byte order `e`.
    pub fn element_bytes(&self, i: usize, e: Endianness) -> (r: Vec<u8>)
        requires
            i < self.values().len(),
        ensures
            r@ == word_bytes(self.values()[i as int], self.width(), e),
    {
        match self {
            ConstTable::U8(v) => {
                let b = v[i];
                proof {
                    lemma_single_byte(b, e);
                }
                vec![b]
            },
            ConstTable::U16(v) => match e {
                Endianness::LittleEndian => write_u16_le(v[i]),
                Endianness::BigEndian => write_u16_be(v[i]),
            },
            ConstTable::U32(v) => match e {
                Endianness::LittleEndian => write_u32_le(v[i]),
                Endianness::BigEndian => write_u32_be(v[i]),
            },
            ConstTable::U64(v) => match e {
                Endianness::LittleEndian => write_u64_le(v[i]),
                Endianness::BigEndian => write_u64_be(v[i]),
            },
        }
    }
}

/// The words of `vals`, each `w` bytes wide, encoded one after another in
/// byte order `e`.
pub open spec fn encode_words(vals: Seq<nat>, w: nat, e: Endianness) -> Seq<u8>
    decreases vals.len(),
{
    if vals.len() == 0 {
        Seq::empty()
    } else {
        encode_words(vals.drop_last(), w, e) + word_bytes(vals.last(), w, e)
    }
}

/// A single byte encodes as itself whatever the byte order.
proof fn lemma_single_byte(b: u8, e: Endianness)
    ensures
        word_bytes(b as nat, 1, e) =~= seq![b],
{
    assert(pow(256, 0) == 1) by {
        vstd::arithmetic::power::lemma_pow0(256);
    }
}

/// Encoding `n` words of `w` bytes each gives `n * w` bytes.
pub proof fn lemma_encoding_length(vals: Seq<nat>, w: nat, e: Endianness)
    ensures
        encode_words(vals, w, e).len() == vals.len() * w,
    decreases vals.len(),
{
    if vals.len() > 0 {
        lemma_encoding_length(vals.drop_last(), w, e);
        assert(vals.len() * w == (vals.len() - 1) * w + w) by (nonlinear_arith);
    }
}

/// A view of a constant table that encodes it as a whole in either byte
/// order.
pub struct EndianWrapper(pub ConstTable);

/// Things that encode themselves as a vector of bytes in a given byte order.
pub trait AsByteVec {
    /// The bytes that encoding in byte order `e` gives.
    spec fn byte_view(&self, e: Endianness) -> Seq<u8>;

    /// Encodes `self` in byte order `e`.
    fn as_byte_vec(&self, e: Endianness) -> (r: Vec<u8>)
        ensures
            r@ == self.byte_view(e),
    ;
}

impl AsByteVec for EndianWrapper {
    open spec fn byte_view(&self, e: Endianness) -> Seq<u8> {
        self.0.encoding(e)
    }

    fn as_byte_vec(&self, e: Endianness) -> (r: Vec<u8>) {
        let table = &self.0;
        let n = table.len();
        let mut v: Vec<u8> = Vec::new();
        let mut i: usize = 0;
        while i < n
            invariant
                n == table.values().len(),
                i <= n,
                v@ == encode_words(table.values().subrange(0, i as int), table.width(), e),
            decreases n - i,
        {
            let mut bytes = table.element_bytes(i, e);
            v.append(&mut bytes);
            proof {
                let vals = table.values();
                assert(vals.subrange(0, i + 1).drop_last() =~= vals.subrange(0, i as int));
            }
            i = i + 1;
        }
        proof {
            assert(table.values().subrange(0, n as int) =~= table.values());
        }
        v
    }
}

} // verus!
