//! Byte views of values that are copied into device buffers.
//!
//! A value is transferable when it has a fixed, padding-free byte layout
//! (`FixedLayout`), or when it is a contiguous sequence of such values.
//! Integers are laid out little-endian; aggregates lay out their members in
//! declaration order, with no padding between them.
use vstd::prelude::*;
use vstd::bytes::{
    lemma_auto_spec_u32_to_from_le_bytes, spec_u32_from_le_bytes, spec_u32_to_le_bytes,
    u32_from_le_bytes, u32_to_le_bytes,
};
use vstd::slice::slice_subrange;
use crate::ssbo::{read_at, write_at, BufferModel, DeviceBuffer, Transfer};

verus! {

/// A plain-data type whose values all occupy the same number of bytes.
pub trait FixedLayout: Sized {
    /// The static size of the type, in bytes.
    spec fn layout_size() -> nat;

    /// The bytes of this value, in layout order.
    spec fn layout_bytes(&self) -> Seq<u8>;

    proof fn lemma_layout_len(&self)
        ensures
            self.layout_bytes().len() == Self::layout_size(),
    ;

    /// Values with the same bytes are the same value.
    proof fn lemma_layout_injective(&self, other: &Self)
        requires
            self.layout_bytes() == other.layout_bytes(),
        ensures
            *self == *other,
    ;

    /// Appends the bytes of this value to `out`.
    fn write_layout(&self, out: &mut Vec<u8>)
        ensures
            final(out)@ == old(out)@ + self.layout_bytes(),
    ;

    /// Reads a value from the bytes of `src` that start at `start`; also
    /// returns the position just after them.
    fn read_layout(src: &[u8], start: usize) -> (r: (Self, usize))
        requires
            start + Self::layout_size() <= src@.len(),
        ensures
            r.1 == start + Self::layout_size(),
            r.0.layout_bytes() == src@.subrange(start as int, r.1 as int),
    ;
}

/// Bytes that start with the layout of a value: when two such byte strings
/// are equal, so are the values' bytes and so are the bytes after them.
pub proof fn lemma_split_bytes<A: FixedLayout>(a1: A, a2: A, rest1: Seq<u8>, rest2: Seq<u8>)
    requires
        a1.layout_bytes() + rest1 == a2.layout_bytes() + rest2,
    ensures
        a1.layout_bytes() == a2.layout_bytes(),
        rest1 == rest2,
{
    a1.lemma_layout_len();
    a2.lemma_layout_len();
    let s = a1.layout_bytes() + rest1;
    let n = a1.layout_bytes().len() as int;
    assert(a1.layout_bytes() =~= s.subrange(0, n));
    assert(a2.layout_bytes() =~= s.subrange(0, n));
    assert(rest1 =~= s.subrange(n, s.len() as int));
    assert(rest2 =~= s.subrange(n, s.len() as int));
}

impl FixedLayout for u32 {
    open spec fn layout_size() -> nat {
        4
    }

    open spec fn layout_bytes(&self) -> Seq<u8> {
        spec_u32_to_le_bytes(*self)
    }

    proof fn lemma_layout_len(&self) {
        lemma_auto_spec_u32_to_from_le_bytes();
    }

    proof fn lemma_layout_injective(&self, other: &u32) {
        lemma_auto_spec_u32_to_from_le_bytes();
        assert(spec_u32_to_le_bytes(*self).len() == 4);
        assert(spec_u32_to_le_bytes(*other).len() == 4);
    }

    fn write_layout(&self, out: &mut Vec<u8>) {
        let mut b = u32_to_le_bytes(*self);
        out.append(&mut b);
    }

    fn read_layout(src: &[u8], start: usize) -> (r: (u32, usize)) {
        let avail = src.len();
        assert(start + 4 <= avail);
        let end = start + 4;
        let part = slice_subrange(src, start, end);
        let v = u32_from_le_bytes(part);
        proof {
            lemma_auto_spec_u32_to_from_le_bytes();
        }
        (v, end)
    }
}

impl FixedLayout for i32 {
    open spec fn layout_size() -> nat {
        4
    }

    /// The two's-complement bits of the value.
    open spec fn layout_bytes(&self) -> Seq<u8> {
        spec_u32_to_le_bytes(*self as u32)
    }

    proof fn lemma_layout_len(&self) {
        lemma_auto_spec_u32_to_from_le_bytes();
    }

    proof fn lemma_layout_injective(&self, other: &i32) {
        lemma_auto_spec_u32_to_from_le_bytes();
        let (x, y) = (*self, *other);
        assert(spec_u32_to_le_bytes(x as u32).len() == 4);
        assert(spec_u32_to_le_bytes(y as u32).len() == 4);
        assert(spec_u32_from_le_bytes(spec_u32_to_le_bytes(x as u32)) == x as u32);
        assert(spec_u32_from_le_bytes(spec_u32_to_le_bytes(y as u32)) == y as u32);
        assert(x as u32 == y as u32 ==> x == y) by (bit_vector);
    }

    fn write_layout(&self, out: &mut Vec<u8>) {
        let bits = *self as u32;
        let mut b = u32_to_le_bytes(bits);
        out.append(&mut b);
    }

    fn read_layout(src: &[u8], start: usize) -> (r: (i32, usize)) {
        let avail = src.len();
        assert(start + 4 <= avail);
        let end = start + 4;
        let part = slice_subrange(src, start, end);
        let bits = u32_from_le_bytes(part);
        let v = bits as i32;
        proof {
            lemma_auto_spec_u32_to_from_le_bytes();
            assert((bits as i32) as u32 == bits) by (bit_vector);
        }
        (v, end)
    }
}

impl FixedLayout for u8 {
    open spec fn layout_size() -> nat {
        1
    }

    open spec fn layout_bytes(&self) -> Seq<u8> {
        seq![*self]
    }

    proof fn lemma_layout_len(&self) {
    }

    proof fn lemma_layout_injective(&self, other: &u8) {
        assert(self.layout_bytes()[0] == *self);
        assert(other.layout_bytes()[0] == *other);
    }

    fn write_layout(&self, out: &mut Vec<u8>) {
        out.push(*self);
    }

    fn read_layout(src: &[u8], start: usize) -> (r: (u8, usize)) {
        let avail = src.len();
        assert(start + 1 <= avail);
        let v = src[start];
        assert(seq![v] =~= src@.subrange(start as int, start + 1));
        (v, start + 1)
    }
}

/// A pair is laid out as its first member followed by its second, with no
/// padding in between.
impl<A: FixedLayout, B: FixedLayout> FixedLayout for (A, B) {
    open spec fn layout_size() -> nat {
        A::layout_size() + B::layout_size()
    }

    open spec fn layout_bytes(&self) -> Seq<u8> {
        self.0.layout_bytes() + self.1.layout_bytes()
    }

    proof fn lemma_layout_len(&self) {
        self.0.lemma_layout_len();
        self.1.lemma_layout_len();
    }

    proof fn lemma_layout_injective(&self, other: &(A, B)) {
        lemma_split_bytes(self.0, other.0, self.1.layout_bytes(), other.1.layout_bytes());
        self.0.lemma_layout_injective(&other.0);
        self.1.lemma_layout_injective(&other.1);
    }

    fn write_layout(&self, out: &mut Vec<u8>) {
        self.0.write_layout(out);
        self.1.write_layout(out);
        assert(out@ =~= old(out)@ + self.layout_bytes());
    }

    fn read_layout(src: &[u8], start: usize) -> (r: ((A, B), usize)) {
        let (a, mid) = A::read_layout(src, start);
        let (b, end) = B::read_layout(src, mid);
        assert(a.layout_bytes() + b.layout_bytes() =~= src@.subrange(start as int, end as int));
        ((a, b), end)
    }
}

/// A value that can be copied into a device buffer byte for byte.
pub trait GpuSsbo: Sized {
    /// The bytes that a transfer of this value copies.
    spec fn byte_view(&self) -> Seq<u8>;

    /// Appends the byte view of this value to `out`.
    fn write_bytes(&self, out: &mut Vec<u8>)
        ensures
            final(out)@ == old(out)@ + self.byte_view(),
    ;

    /// Overwrites this value in place with the bytes of `src` that start at
    /// `start`; the value keeps its size.
    fn read_bytes(&mut self, src: &[u8], start: usize)
        requires
            start + old(self).byte_view().len() <= src@.len(),
        ensures
            final(self).byte_view() == src@.subrange(
                start as int,
                start + old(self).byte_view().len(),
            ),
    ;

    /// The byte view of this value, as an owned buffer.
    fn raw(&self) -> (r: Vec<u8>)
        ensures
            r@ == self.byte_view(),
    {
        let mut out: Vec<u8> = Vec::new();
        self.write_bytes(&mut out);
        assert(out@ =~= self.byte_view());
        out
    }

    /// Copies this value into `ssbo` at byte `offset`.
    /// Returns the copy, for the driver.
    fn save_to(&self, ssbo: &mut DeviceBuffer, offset: usize) -> (r: Transfer)
        requires
            offset + self.byte_view().len() <= old(ssbo)@.bytes.len(),
        ensures
            final(ssbo)@ == (BufferModel {
                bytes: write_at(old(ssbo)@.bytes, offset as int, self.byte_view()),
                ..old(ssbo)@
            }),
            r.offset == offset,
            r.bytes@ == self.byte_view(),
    {
        ssbo.write(offset, self.raw())
    }

    /// Overwrites this value with the bytes of `ssbo` at byte `offset`.
    fn load_from(&mut self, ssbo: &DeviceBuffer, offset: usize)
        requires
            offset + old(self).byte_view().len() <= ssbo@.bytes.len(),
        ensures
            final(self).byte_view() == read_at(
                ssbo@.bytes,
                offset as int,
                old(self).byte_view().len() as int,
            ),
    {
        self.read_bytes(ssbo.bytes(), offset);
    }

    /// Creates a buffer that holds a copy of this value.
    fn create_ssbo(&self, binding: u32, usage: u32) -> (r: DeviceBuffer)
        ensures
            r@.binding == binding,
            r@.usage == usage,
            r@.bytes == self.byte_view(),
    {
        DeviceBuffer::from_bytes(binding, self.raw(), usage)
    }
}

impl<T: FixedLayout> GpuSsbo for T {
    open spec fn byte_view(&self) -> Seq<u8> {
        self.layout_bytes()
    }

    fn write_bytes(&self, out: &mut Vec<u8>) {
        self.write_layout(out);
    }

    fn read_bytes(&mut self, src: &[u8], start: usize) {
        proof {
            self.lemma_layout_len();
        }
        let (v, _end) = T::read_layout(src, start);
        *self = v;
    }
}

/// The bytes of a sequence: its elements' bytes, one after the other.
pub open spec fn seq_layout<T: FixedLayout>(s: Seq<T>) -> Seq<u8>
    decreases s.len(),
{
    if s.len() == 0 {
        Seq::empty()
    } else {
        seq_layout(s.drop_last()) + s.last().layout_bytes()
    }
}

pub proof fn lemma_seq_layout_len<T: FixedLayout>(s: Seq<T>)
    ensures
        seq_layout(s).len() == s.len() * T::layout_size(),
    decreases s.len(),
{
    if s.len() > 0 {
        lemma_seq_layout_len(s.drop_last());
        s.last().lemma_layout_len();
        assert((s.len() - 1) * T::layout_size() + T::layout_size() == s.len() * T::layout_size())
            by (nonlinear_arith);
    }
}

/// Sequences of one length with the same bytes hold the same elements.
pub proof fn lemma_seq_layout_injective<T: FixedLayout>(s1: Seq<T>, s2: Seq<T>)
    requires
        s1.len() == s2.len(),
        seq_layout(s1) == seq_layout(s2),
    ensures
        s1 == s2,
    decreases s1.len(),
{
    if s1.len() > 0 {
        let (p1, p2) = (s1.drop_last(), s2.drop_last());
        lemma_seq_layout_len(p1);
        lemma_seq_layout_len(p2);
        let whole = seq_layout(s1);
        let n = seq_layout(p1).len() as int;
        assert(seq_layout(p1) =~= whole.subrange(0, n));
        assert(seq_layout(p2) =~= whole.subrange(0, n));
        assert(s1.last().layout_bytes() =~= whole.subrange(n, whole.len() as int));
        assert(s2.last().layout_bytes() =~= whole.subrange(n, whole.len() as int));
        lemma_seq_layout_injective(p1, p2);
        s1.last().lemma_layout_injective(&s2.last());
        assert(s1 =~= p1.push(s1.last()));
        assert(s2 =~= p2.push(s2.last()));
    } else {
        assert(s1 =~= s2);
    }
}

proof fn lemma_seq_layout_push<T: FixedLayout>(s: Seq<T>, i: int)
    requires
        0 <= i < s.len(),
    ensures
        seq_layout(s.subrange(0, i + 1)) == seq_layout(s.subrange(0, i)) + s[i].layout_bytes(),
{
    let t = s.subrange(0, i + 1);
    assert(t.drop_last() =~= s.subrange(0, i));
}

proof fn lemma_seq_layout_chunks<T: FixedLayout>(s: Seq<T>, src: Seq<u8>, start: int)
    requires
        0 <= start,
        start + s.len() * T::layout_size() <= src.len(),
        forall|j: int|
            0 <= j < s.len() ==> #[trigger] s[j].layout_bytes() == src.subrange(
                start + j * T::layout_size(),
                start + j * T::layout_size() + T::layout_size(),
            ),
    ensures
        seq_layout(s) == src.subrange(start, start + s.len() * T::layout_size()),
    decreases s.len(),
{
    let n = s.len();
    let sz = T::layout_size();
    if n == 0 {
        assert(seq_layout(s) =~= src.subrange(start, start));
    } else {
        let p = s.drop_last();
        assert((n - 1) * sz + sz == n * sz) by (nonlinear_arith);
        assert((n - 1) * sz <= n * sz) by (nonlinear_arith)
            requires
                n >= 1,
        ;
        assert forall|j: int| 0 <= j < p.len() implies #[trigger] p[j].layout_bytes()
            == src.subrange(start + j * sz, start + j * sz + sz) by {
            assert(p[j] == s[j]);
        }
        lemma_seq_layout_chunks(p, src, start);
        assert(s[n - 1] == s.last());
        assert(seq_layout(s) =~= src.subrange(start, start + n * sz));
    }
}

/// A sequence transfers the bytes of its live elements only.
impl<T: FixedLayout> GpuSsbo for Vec<T> {
    open spec fn byte_view(&self) -> Seq<u8> {
        seq_layout(self@)
    }

    fn write_bytes(&self, out: &mut Vec<u8>) {
        let n = self.len();
        let mut i: usize = 0;
        assert(self@.subrange(0, 0).len() == 0);
        assert(out@ =~= old(out)@ + seq_layout(self@.subrange(0, 0)));
        while i < n
            invariant
                n == self@.len(),
                i <= n,
                out@ == old(out)@ + seq_layout(self@.subrange(0, i as int)),
            decreases n - i,
        {
            proof {
                lemma_seq_layout_push(self@, i as int);
            }
            self[i].write_layout(out);
            assert(out@ =~= old(out)@ + seq_layout(self@.subrange(0, i + 1)));
            i = i + 1;
        }
        assert(self@.subrange(0, n as int) =~= self@);
    }

    fn read_bytes(&mut self, src: &[u8], start: usize)
        ensures
            final(self)@.len() == old(self)@.len(),
    {
        let ghost sz = T::layout_size();
        let n = self.len();
        proof {
            lemma_seq_layout_len(self@);
        }
        let mut i: usize = 0;
        let mut pos: usize = start;
        while i < n
            invariant
                n == self@.len(),
                i <= n,
                sz == T::layout_size(),
                start + n * sz <= src@.len(),
                pos == start + i * sz,
                forall|j: int|
                    0 <= j < i ==> #[trigger] self@[j].layout_bytes() == src@.subrange(
                        start + j * sz,
                        start + j * sz + sz,
                    ),
            decreases n - i,
        {
            assert(i * sz + sz <= n * sz) by (nonlinear_arith)
                requires
                    i < n,
            ;
            assert((i + 1) * sz == i * sz + sz) by (nonlinear_arith);
            let (v, next) = T::read_layout(src, pos);
            self.set(i, v);
            pos = next;
            i = i + 1;
        }
        proof {
            lemma_seq_layout_chunks(self@, src@, start as int);
        }
    }
}

} // verus!
