//! Packing integers into binary strings and unpacking them, as PHP's `pack`
//! and `unpack` exchange them.
//!
//! Values are laid out one after the other, each in little-endian byte
//! order, the in-memory layout on the platforms the engine is built for.

use vstd::prelude::*;

use crate::string::ZendStr;

verus! {

/// The bytes of the values, one after the other.
pub open spec fn pack_bytes<T: Pack>(s: Seq<T>) -> Seq<u8>
    decreases s.len(),
{
    if s.len() == 0 {
        Seq::empty()
    } else {
        pack_bytes(s.drop_last()) + T::encode(s.last())
    }
}

/// The values read from the bytes: one per full group of the type's width,
/// trailing bytes ignored.
pub open spec fn unpack_values<T: Pack>(b: Seq<u8>) -> Seq<T> {
    Seq::new(
        b.len() / T::width(),
        |i: int| T::decode(b.subrange(i * T::width(), i * T::width() + T::width())),
    )
}

/// Types whose values can be packed into a binary string and unpacked from
/// one.
pub trait Pack: Sized + Copy {
    /// The number of bytes of a value.
    spec fn width() -> nat;

    /// The bytes of a value.
    spec fn encode(v: Self) -> Seq<u8>;

    /// The value of bytes.
    spec fn decode(b: Seq<u8>) -> Self;

    /// A value takes as many bytes as the width, which is between 1 and 8,
    /// and decoding its bytes gives it back.
    proof fn lemma_codec(v: Self)
        ensures
            0 < Self::width() <= 8,
            Self::encode(v).len() == Self::width(),
            Self::decode(Self::encode(v)) == v,
    ;

    /// The number of bytes of a value.
    fn byte_width() -> (r: usize)
        ensures
            r == Self::width(),
    ;

    /// Appends the bytes of the value.
    fn write_bytes(self, out: &mut Vec<u8>)
        ensures
            final(out)@ == old(out)@ + Self::encode(self),
    ;

    /// Reads a value from the bytes starting at `start`.
    fn read_bytes(b: &[u8], start: usize) -> (r: Self)
        requires
            start + Self::width() <= b@.len(),
        ensures
            r == Self::decode(b@.subrange(start as int, start + Self::width())),
    ;
}

impl Pack for u8 {
    open spec fn width() -> nat {
        1
    }

    open spec fn encode(v: u8) -> Seq<u8> {
        le_bytes(v as u64, 1)
    }

    open spec fn decode(b: Seq<u8>) -> u8 {
        le_value(b) as u8
    }

    proof fn lemma_codec(v: u8) {
        reveal_with_fuel(pow256, 9);
        lemma_le_roundtrip(v as u64, 1);
        assert(((v as u64) % 256) as u8 == v) by (bit_vector);
    }

    fn byte_width() -> (r: usize) {
        1
    }

    fn write_bytes(self, out: &mut Vec<u8>) {
        push_le(self as u64, 1, out);
    }

    fn read_bytes(b: &[u8], start: usize) -> (r: u8) {
        read_le(b, start, 1) as u8
    }
}

impl Pack for i8 {
    open spec fn width() -> nat {
        1
    }

    open spec fn encode(v: i8) -> Seq<u8> {
        le_bytes(v as u64, 1)
    }

    open spec fn decode(b: Seq<u8>) -> i8 {
        le_value(b) as i8
    }

    proof fn lemma_codec(v: i8) {
        reveal_with_fuel(pow256, 9);
        lemma_le_roundtrip(v as u64, 1);
        assert(((v as u64) % 256) as i8 == v) by (bit_vector);
    }

    fn byte_width() -> (r: usize) {
        1
    }

    fn write_bytes(self, out: &mut Vec<u8>) {
        push_le(self as u64, 1, out);
    }

    fn read_bytes(b: &[u8], start: usize) -> (r: i8) {
        read_le(b, start, 1) as i8
    }
}

impl Pack for u16 {
    open spec fn width() -> nat {
        2
    }

    open spec fn encode(v: u16) -> Seq<u8> {
        le_bytes(v as u64, 2)
    }

    open spec fn decode(b: Seq<u8>) -> u16 {
        le_value(b) as u16
    }

    proof fn lemma_codec(v: u16) {
        reveal_with_fuel(pow256, 9);
        lemma_le_roundtrip(v as u64, 2);
        assert(((v as u64) % 65536) as u16 == v) by (bit_vector);
    }

    fn byte_width() -> (r: usize) {
        2
    }

    fn write_bytes(self, out: &mut Vec<u8>) {
        push_le(self as u64, 2, out);
    }

    fn read_bytes(b: &[u8], start: usize) -> (r: u16) {
        read_le(b, start, 2) as u16
    }
}

impl Pack for i16 {
    open spec fn width() -> nat {
        2
    }

    open spec fn encode(v: i16) -> Seq<u8> {
        le_bytes(v as u64, 2)
    }

    open spec fn decode(b: Seq<u8>) -> i16 {
        le_value(b) as i16
    }

    proof fn lemma_codec(v: i16) {
        reveal_with_fuel(pow256, 9);
        lemma_le_roundtrip(v as u64, 2);
        assert(((v as u64) % 65536) as i16 == v) by (bit_vector);
    }

    fn byte_width() -> (r: usize) {
        2
    }

    fn write_bytes(self, out: &mut Vec<u8>) {
        push_le(self as u64, 2, out);
    }

    fn read_bytes(b: &[u8], start: usize) -> (r: i16) {
        read_le(b, start, 2) as i16
    }
}

impl Pack for u32 {
    open spec fn width() -> nat {
        4
    }

    open spec fn encode(v: u32) -> Seq<u8> {
        le_bytes(v as u64, 4)
    }

    open spec fn decode(b: Seq<u8>) -> u32 {
        le_value(b) as u32
    }

    proof fn lemma_codec(v: u32) {
        reveal_with_fuel(pow256, 9);
        lemma_le_roundtrip(v as u64, 4);
        assert(((v as u64) % 4294967296) as u32 == v) by (bit_vector);
    }

    fn byte_width() -> (r: usize) {
        4
    }

    fn write_bytes(self, out: &mut Vec<u8>) {
        push_le(self as u64, 4, out);
    }

    fn read_bytes(b: &[u8], start: usize) -> (r: u32) {
        read_le(b, start, 4) as u32
    }
}

impl Pack for i32 {
    open spec fn width() -> nat {
        4
    }

    open spec fn encode(v: i32) -> Seq<u8> {
        le_bytes(v as u64, 4)
    }

    open spec fn decode(b: Seq<u8>) -> i32 {
        le_value(b) as i32
    }

    proof fn lemma_codec(v: i32) {
        reveal_with_fuel(pow256, 9);
        lemma_le_roundtrip(v as u64, 4);
        assert(((v as u64) % 4294967296) as i32 == v) by (bit_vector);
    }

    fn byte_width() -> (r: usize) {
        4
    }

    fn write_bytes(self, out: &mut Vec<u8>) {
        push_le(self as u64, 4, out);
    }

    fn read_bytes(b: &[u8], start: usize) -> (r: i32) {
        read_le(b, start, 4) as i32
    }
}

impl Pack for u64 {
    open spec fn width() -> nat {
        8
    }

    open spec fn encode(v: u64) -> Seq<u8> {
        le_bytes(v as u64, 8)
    }

    open spec fn decode(b: Seq<u8>) -> u64 {
        le_value(b) as u64
    }

    proof fn lemma_codec(v: u64) {
        reveal_with_fuel(pow256, 9);
        lemma_le_roundtrip(v as u64, 8);
        assert((v as u64) as u64 == v) by (bit_vector);
    }

    fn byte_width() -> (r: usize) {
        8
    }

    fn write_bytes(self, out: &mut Vec<u8>) {
        push_le(self as u64, 8, out);
    }

    fn read_bytes(b: &[u8], start: usize) -> (r: u64) {
        read_le(b, start, 8) as u64
    }
}

impl Pack for i64 {
    open spec fn width() -> nat {
        8
    }

    open spec fn encode(v: i64) -> Seq<u8> {
        le_bytes(v as u64, 8)
    }

    open spec fn decode(b: Seq<u8>) -> i64 {
        le_value(b) as i64
    }

    proof fn lemma_codec(v: i64) {
        reveal_with_fuel(pow256, 9);
        lemma_le_roundtrip(v as u64, 8);
        assert((v as u64) as i64 == v) by (bit_vector);
    }

    fn byte_width() -> (r: usize) {
        8
    }

    fn write_bytes(self, out: &mut Vec<u8>) {
        push_le(self as u64, 8, out);
    }

    fn read_bytes(b: &[u8], start: usize) -> (r: i64) {
        read_le(b, start, 8) as i64
    }
}

/// Packs the values into a binary string.
pub fn pack_into<T: Pack>(vec: Vec<T>) -> (r: ZendStr)
    ensures
        r@ == pack_bytes(vec@),
        !r.is_persistent(),
        !r.is_interned(),
{
    let mut out: Vec<u8> = Vec::new();
    let mut i: usize = 0;
    while i < vec.len()
        invariant
            i <= vec@.len(),
            out@ == pack_bytes(vec@.take(i as int)),
        decreases vec@.len() - i,
    {
        proof {
            assert(vec@.take(i + 1).drop_last() =~= vec@.take(i as int));
        }
        vec[i].write_bytes(&mut out);
        i = i + 1;
    }
    assert(vec@.take(vec@.len() as int) =~= vec@);
    ZendStr::new(out.as_slice(), false)
}

/// Unpacks the values of a binary string; trailing bytes that do not
/// make a whole value are ignored.
pub fn unpack_into<T: Pack>(s: &ZendStr) -> (r: Vec<T>)
    ensures
        r@ == unpack_values::<T>(s@),
{
    let b = s.as_bytes();
    let w = T::byte_width();
    proof {
        let v = T::decode(Seq::empty());
        T::lemma_codec(v);
    }
    let blen = b.len();
    let n = blen / w;
    let mut out: Vec<T> = Vec::new();
    let mut i: usize = 0;
    let mut start: usize = 0;
    while i < n
        invariant
            0 < w <= 8,
            w == T::width(),
            n == b@.len() / (w as nat),
            blen == b@.len(),
            i <= n,
            start == i * w,
            b@ == s@,
            out@.len() == i,
            forall|j: int| 0 <= j < i ==> #[trigger] out@[j] == unpack_values::<T>(s@)[j],
        decreases n - i,
    {
        proof {
            assert(start + w <= b@.len()) by (nonlinear_arith)
                requires
                    start == i * w,
                    i < n,
                    n == b@.len() / (w as nat),
                    0 < w,
            ;
        }
        let v = T::read_bytes(b, start);
        out.push(v);
        i = i + 1;
        start = start + w;
        proof {
            assert(start == i * w) by (nonlinear_arith)
                requires
                    start == (i - 1) * w + w,
            ;
        }
    }
    assert(out@ =~= unpack_values::<T>(s@));
    out
}

/// The bytes of values take the width of the type for each value.
proof fn lemma_pack_len<T: Pack>(s: Seq<T>)
    ensures
        pack_bytes(s).len() == s.len() * T::width(),
    decreases s.len(),
{
    if s.len() > 0 {
        lemma_pack_len(s.drop_last());
        T::lemma_codec(s.last());
        assert((s.len() - 1) * T::width() + T::width() == s.len() * T::width()) by (nonlinear_arith);
    } else {
        T::lemma_codec(T::decode(Seq::empty()));
    }
}

/// The bytes of the `i`-th value sit at `i` times the width.
proof fn lemma_pack_segment<T: Pack>(s: Seq<T>, i: int)
    requires
        0 <= i < s.len(),
    ensures
        pack_bytes(s).subrange(i * T::width(), i * T::width() + T::width()) == T::encode(s[i]),
    decreases s.len(),
{
    let w = T::width();
    let init = s.drop_last();
    lemma_pack_len(init);
    T::lemma_codec(s.last());
    T::lemma_codec(s[i]);
    if i == s.len() - 1 {
        assert(i * w == init.len() * w);
        assert(pack_bytes(s).subrange(i * w, i * w + w) =~= T::encode(s.last()));
    } else {
        lemma_pack_segment(init, i);
        assert(i * w + w <= init.len() * w) by (nonlinear_arith)
            requires
                i + 1 <= init.len(),
                0 < w,
        ;
        assert(0 <= i * w) by (nonlinear_arith)
            requires
                0 <= i,
                0 < w,
        ;
        assert(pack_bytes(s).subrange(i * w, i * w + w) =~= pack_bytes(init).subrange(
            i * w,
            i * w + w,
        ));
    }
}

/// Unpacking the bytes of packed values gives the values back.
pub proof fn pack_unpack_roundtrip<T: Pack>(s: Seq<T>)
    ensures
        unpack_values::<T>(pack_bytes(s)) == s,
{
    let w = T::width();
    T::lemma_codec(T::decode(Seq::empty()));
    lemma_pack_len(s);
    assert((s.len() * w) / w == s.len()) by (nonlinear_arith)
        requires
            0 < w,
    ;
    let u = unpack_values::<T>(pack_bytes(s));
    assert forall|i: int| 0 <= i < s.len() implies u[i] == s[i] by {
        lemma_pack_segment(s, i);
        T::lemma_codec(s[i]);
    }
    assert(u =~= s);
}

/// The bytes of a value of `width` bytes, least significant first.
pub open spec fn le_bytes(v: u64, width: nat) -> Seq<u8> {
    Seq::new(width, |i: int| ((v >> (8 * i) as u64) & 0xff) as u8)
}

/// The value of little-endian bytes, least significant first.
pub open spec fn le_value(b: Seq<u8>) -> u64
    decreases b.len(),
{
    if b.len() == 0 {
        0
    } else {
        (b[0] as u64) | (le_value(b.drop_first()) << 8u64)
    }
}

/// Appends the `width` low-order bytes of a value, least significant first.
fn push_le(v: u64, width: usize, out: &mut Vec<u8>)
    requires
        width <= 8,
    ensures
        final(out)@ == old(out)@ + le_bytes(v, width as nat),
{
    let mut k: usize = 0;
    while k < width
        invariant
            k <= width <= 8,
            out@ == old(out)@ + le_bytes(v, k as nat),
        decreases width - k,
    {
        let shift: u64 = 8 * (k as u64);
        out.push(((v >> shift) & 0xff) as u8);
        k = k + 1;
        assert(out@ =~= old(out)@ + le_bytes(v, k as nat));
    }
}

/// Reads `width` bytes as a little-endian value.
fn read_le(b: &[u8], start: usize, width: usize) -> (r: u64)
    requires
        width <= 8,
        start + width <= b@.len(),
    ensures
        r == le_value(b@.subrange(start as int, start + width)),
{
    let blen = b.len();
    let mut acc: u64 = 0;
    let mut k: usize = width;
    while k > 0
        invariant
            k <= width <= 8,
            start + width <= b@.len(),
            blen == b@.len(),
            acc == le_value(b@.subrange(start + k, start + width)),
        decreases k,
    {
        k = k - 1;
        let byte = b[start + k];
        proof {
            let tail = b@.subrange(start + k + 1, start + width);
            let s = b@.subrange(start + k, start + width);
            assert(s.drop_first() =~= tail);
            assert(s[0] == byte);
        }
        acc = (byte as u64) | (acc << 8u64);
    }
    acc
}

/// Decoding the little-endian bytes of a value gives its `width` low-order
/// bytes back.
proof fn lemma_le_roundtrip(v: u64, width: nat)
    requires
        width <= 8,
    ensures
        le_bytes(v, width).len() == width,
        le_value(le_bytes(v, width)) == (if width == 8 {
            v
        } else {
            v % pow256(width)
        }),
    decreases width,
{
    if width > 0 {
        let rest = le_bytes(v >> 8u64, (width - 1) as nat);
        assert(le_bytes(v, width).drop_first() =~= rest) by {
            assert forall|i: int| 0 <= i < width - 1 implies rest[i] == le_bytes(v, width)[i + 1] by {
                let sh = (8 * i) as u64;
                let sh1 = (8 * (i + 1)) as u64;
                assert(((v >> 8u64) >> sh) == v >> sh1) by (bit_vector)
                    requires
                        sh1 == sh + 8,
                        sh < 56,
                ;
            }
        }
        lemma_le_roundtrip(v >> 8u64, (width - 1) as nat);
        let b0 = le_bytes(v, width)[0];
        assert(b0 == ((v >> 0u64) & 0xff) as u8);
        let low = (v & 0xff) as u8;
        assert(v >> 0u64 == v) by (bit_vector);
        lemma_le_step(v, width);
    }
}

/// `256` raised to the power `n`.
pub open spec fn pow256(n: nat) -> u64
    decreases n,
{
    if n == 0 {
        1
    } else if n >= 8 {
        0
    } else {
        (256 * pow256((n - 1) as nat)) as u64
    }
}

proof fn lemma_le_step(v: u64, width: nat)
    requires
        0 < width <= 8,
        le_value(le_bytes(v >> 8u64, (width - 1) as nat)) == (if width - 1 == 8 {
            v >> 8u64
        } else {
            (v >> 8u64) % pow256((width - 1) as nat)
        }),
        le_bytes(v, width).drop_first() =~= le_bytes(v >> 8u64, (width - 1) as nat),
    ensures
        le_value(le_bytes(v, width)) == (if width == 8 {
            v
        } else {
            v % pow256(width)
        }),
{
    reveal_with_fuel(pow256, 9);
    let b = le_bytes(v, width);
    let b0: u8 = ((v >> 0u64) & 0xff) as u8;
    assert(b[0] == b0);
    assert(le_value(b) == (b0 as u64) | (le_value(b.drop_first()) << 8u64));
    let t = le_value(b.drop_first());
    assert(v >> 0u64 == v) by (bit_vector);
    if width == 1 {
        assert(t == (v >> 8u64) % 1);
        assert(((v & 0xff) as u8 as u64) | (((v >> 8u64) % 1) << 8u64) == v % 256) by (bit_vector);
    } else if width == 2 {
        assert(((v & 0xff) as u8 as u64) | (((v >> 8u64) % 256) << 8u64) == v % 65536) by (bit_vector);
    } else if width == 3 {
        assert(((v & 0xff) as u8 as u64) | (((v >> 8u64) % 65536) << 8u64) == v % 16777216) by (bit_vector);
    } else if width == 4 {
        assert(((v & 0xff) as u8 as u64) | (((v >> 8u64) % 16777216) << 8u64) == v % 4294967296) by (bit_vector);
    } else if width == 5 {
        assert(((v & 0xff) as u8 as u64) | (((v >> 8u64) % 4294967296) << 8u64) == v % 1099511627776) by (bit_vector);
    } else if width == 6 {
        assert(((v & 0xff) as u8 as u64) | (((v >> 8u64) % 1099511627776) << 8u64) == v % 281474976710656) by (bit_vector);
    } else if width == 7 {
        assert(((v & 0xff) as u8 as u64) | (((v >> 8u64) % 281474976710656) << 8u64) == v % 72057594037927936) by (bit_vector);
    } else {
        assert(((v & 0xff) as u8 as u64) | (((v >> 8u64) % 72057594037927936) << 8u64) == v) by (bit_vector);
    }
}

} // verus!
