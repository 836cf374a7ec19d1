//! Shader storage buffers: device-resident byte storage with typed uploads
//! and downloads.
//!
//! A `DeviceBuffer` holds the byte image of one storage block of the device:
//! its binding index, its usage hint and its bytes. Its capacity is fixed when
//! it is created. The graphics layer mirrors every `Transfer` that an upload
//! returns into the driver's buffer, and hands back the bytes that the device
//! wrote through `record_device_write`.
use vstd::prelude::*;
use std::ops::{Deref, DerefMut};
use crate::gpu::{lemma_seq_layout_injective, lemma_seq_layout_len, FixedLayout, GpuSsbo};

verus! {

/// The bytes of `bytes` after `data` is copied over them at `offset`.
pub open spec fn write_at(bytes: Seq<u8>, offset: int, data: Seq<u8>) -> Seq<u8> {
    bytes.subrange(0, offset) + data + bytes.subrange(offset + data.len(), bytes.len() as int)
}

/// The `len` bytes of `bytes` that start at `offset`.
pub open spec fn read_at(bytes: Seq<u8>, offset: int, len: int) -> Seq<u8> {
    bytes.subrange(offset, offset + len)
}

/// What a buffer is: where it is bound, how it is used, and what it holds.
pub ghost struct BufferModel {
    pub binding: u32,
    pub usage: u32,
    pub bytes: Seq<u8>,
}

/// A copy of `bytes` into device memory at byte `offset`.
pub struct Transfer {
    pub offset: usize,
    pub bytes: Vec<u8>,
}

/// A device storage buffer of fixed capacity.
pub struct DeviceBuffer {
    binding: u32,
    usage: u32,
    contents: Vec<u8>,
}

impl View for DeviceBuffer {
    type V = BufferModel;

    closed spec fn view(&self) -> BufferModel {
        BufferModel { binding: self.binding, usage: self.usage, bytes: self.contents@ }
    }
}

/// Copies `data` over the bytes of `dst` that start at `offset`.
fn copy_into(dst: &mut Vec<u8>, offset: usize, data: &[u8])
    requires
        offset + data@.len() <= old(dst)@.len(),
    ensures
        final(dst)@ == write_at(old(dst)@, offset as int, data@),
{
    let n = data.len();
    let cap = dst.len();
    let mut i: usize = 0;
    while i < n
        invariant
            n == data@.len(),
            i <= n,
            offset + n <= cap,
            dst@.len() == cap,
            cap == old(dst)@.len(),
            forall|k: int|
                0 <= k < dst@.len() ==> #[trigger] dst@[k] == if offset <= k < offset + i {
                    data@[k - offset]
                } else {
                    old(dst)@[k]
                },
        decreases n - i,
    {
        dst.set(offset + i, data[i]);
        i = i + 1;
    }
    assert(dst@ =~= write_at(old(dst)@, offset as int, data@));
}

impl DeviceBuffer {
    /// Allocates a buffer sized to the byte view of `value` and fills it with
    /// those bytes.
    pub fn create_from<T: GpuSsbo>(binding: u32, value: &T, usage: u32) -> (r: DeviceBuffer)
        ensures
            r@.binding == binding,
            r@.usage == usage,
            r@.bytes == value.byte_view(),
    {
        DeviceBuffer::from_bytes(binding, value.raw(), usage)
    }

    /// Allocates a buffer that holds exactly `bytes`.
    pub fn from_bytes(binding: u32, bytes: Vec<u8>, usage: u32) -> (r: DeviceBuffer)
        ensures
            r@.binding == binding,
            r@.usage == usage,
            r@.bytes == bytes@,
    {
        DeviceBuffer { binding, usage, contents: bytes }
    }

    /// Allocates a buffer of `size` bytes whose contents are not yet defined.
    pub fn create_empty(binding: u32, size: usize, usage: u32) -> (r: DeviceBuffer)
        ensures
            r@.binding == binding,
            r@.usage == usage,
            r@.bytes.len() == size,
    {
        let contents: Vec<u8> = vec![0u8; size];
        DeviceBuffer { binding, usage, contents }
    }

    pub fn binding(&self) -> (r: u32)
        ensures
            r == self@.binding,
    {
        self.binding
    }

    pub fn usage(&self) -> (r: u32)
        ensures
            r == self@.usage,
    {
        self.usage
    }

    /// The capacity of the buffer, in bytes.
    pub fn capacity(&self) -> (r: usize)
        ensures
            r == self@.bytes.len(),
    {
        self.contents.len()
    }

    /// The whole contents of the buffer.
    pub fn bytes(&self) -> (r: &[u8])
        ensures
            r@ == self@.bytes,
    {
        self.contents.as_slice()
    }

    /// Copies the byte view of `value` into the buffer at `offset`; returns
    /// the copy, for the driver.
    pub fn upload<T: GpuSsbo>(&mut self, value: &T, offset: usize) -> (r: Transfer)
        requires
            offset + value.byte_view().len() <= old(self)@.bytes.len(),
        ensures
            final(self)@ == (BufferModel {
                bytes: write_at(old(self)@.bytes, offset as int, value.byte_view()),
                ..old(self)@
            }),
            r.offset == offset,
            r.bytes@ == value.byte_view(),
    {
        self.write(offset, value.raw())
    }

    /// Copies `bytes` into the buffer at `offset`; returns the copy, for the
    /// driver.
    pub fn write(&mut self, offset: usize, bytes: Vec<u8>) -> (r: Transfer)
        requires
            offset + bytes@.len() <= old(self)@.bytes.len(),
        ensures
            final(self)@ == (BufferModel {
                bytes: write_at(old(self)@.bytes, offset as int, bytes@),
                ..old(self)@
            }),
            r.offset == offset,
            r.bytes@ == bytes@,
    {
        copy_into(&mut self.contents, offset, bytes.as_slice());
        Transfer { offset, bytes }
    }

    /// Overwrites `value` in place with the buffer's bytes at `offset`; the
    /// value keeps its size.
    pub fn download<T: GpuSsbo>(&self, value: &mut T, offset: usize)
        requires
            offset + old(value).byte_view().len() <= self@.bytes.len(),
        ensures
            final(value).byte_view() == read_at(
                self@.bytes,
                offset as int,
                old(value).byte_view().len() as int,
            ),
    {
        value.read_bytes(self.contents.as_slice(), offset);
    }

    /// Records bytes that the device itself wrote into the buffer at
    /// `offset`, such as the output of a compute dispatch.
    pub fn record_device_write(&mut self, offset: usize, data: &[u8])
        requires
            offset + data@.len() <= old(self)@.bytes.len(),
        ensures
            final(self)@ == (BufferModel {
                bytes: write_at(old(self)@.bytes, offset as int, data@),
                ..old(self)@
            }),
    {
        copy_into(&mut self.contents, offset, data);
    }
}

/// A value uploaded at the start of a buffer and downloaded from there into a
/// value of the same size comes back byte for byte.
pub proof fn lemma_round_trip<T: GpuSsbo>(bytes: Seq<u8>, v: T, v2: T)
    requires
        v.byte_view().len() <= bytes.len(),
        v2.byte_view().len() == v.byte_view().len(),
    ensures
        read_at(write_at(bytes, 0, v.byte_view()), 0, v2.byte_view().len() as int)
            == v.byte_view(),
{
    assert(read_at(write_at(bytes, 0, v.byte_view()), 0, v2.byte_view().len() as int)
        =~= v.byte_view());
}

/// A value of fixed layout uploaded at the start of a buffer and downloaded
/// from there is the value that was uploaded.
pub proof fn lemma_round_trip_value<T: FixedLayout>(bytes: Seq<u8>, v: T, v2: T)
    requires
        T::layout_size() <= bytes.len(),
        v2.byte_view() == read_at(write_at(bytes, 0, v.byte_view()), 0, T::layout_size() as int),
    ensures
        v2 == v,
{
    v.lemma_layout_len();
    assert(read_at(write_at(bytes, 0, v.byte_view()), 0, T::layout_size() as int)
        =~= v.byte_view());
    v2.lemma_layout_injective(&v);
}

/// A sequence uploaded at the start of a buffer and downloaded from there
/// into a sequence of the same length holds the elements that were uploaded.
pub proof fn lemma_round_trip_sequence<T: FixedLayout>(bytes: Seq<u8>, v: Vec<T>, v2: Vec<T>)
    requires
        v.byte_view().len() <= bytes.len(),
        v2@.len() == v@.len(),
        v2.byte_view() == read_at(
            write_at(bytes, 0, v.byte_view()),
            0,
            v.byte_view().len() as int,
        ),
    ensures
        v2@ == v@,
{
    assert(read_at(write_at(bytes, 0, v.byte_view()), 0, v.byte_view().len() as int)
        =~= v.byte_view());
    lemma_seq_layout_injective(v2@, v@);
}

/// Uploading a sequence of `n` elements of size `s` copies exactly `n * s`
/// bytes: the bytes of the buffer outside that span keep their values.
pub proof fn lemma_sequence_transfer_len<T: FixedLayout>(v: Vec<T>, bytes: Seq<u8>, offset: int)
    requires
        0 <= offset,
        offset + v@.len() * T::layout_size() <= bytes.len(),
    ensures
        v.byte_view().len() == v@.len() * T::layout_size(),
        write_at(bytes, offset, v.byte_view()).len() == bytes.len(),
        forall|k: int|
            0 <= k < bytes.len() && !(offset <= k < offset + v@.len() * T::layout_size())
                ==> #[trigger] write_at(bytes, offset, v.byte_view())[k] == bytes[k],
{
    lemma_seq_layout_len(v@);
}

/// Two values uploaded side by side, the second at the size of the first,
/// into a buffer that holds exactly both, can each be read back unchanged.
pub proof fn lemma_adjacent_uploads<A: GpuSsbo, B: GpuSsbo>(bytes: Seq<u8>, a: A, b: B)
    requires
        bytes.len() == a.byte_view().len() + b.byte_view().len(),
    ensures
        ({
            let after = write_at(
                write_at(bytes, 0, a.byte_view()),
                a.byte_view().len() as int,
                b.byte_view(),
            );
            &&& read_at(after, 0, a.byte_view().len() as int) == a.byte_view()
            &&& read_at(after, a.byte_view().len() as int, b.byte_view().len() as int)
                == b.byte_view()
        }),
{
    let la = a.byte_view().len() as int;
    let first = write_at(bytes, 0, a.byte_view());
    let after = write_at(first, la, b.byte_view());
    assert(first.len() == bytes.len());
    assert(read_at(after, 0, la) =~= a.byte_view());
    assert(read_at(after, la, b.byte_view().len() as int) =~= b.byte_view());
}

/// A download leaves the buffer as it is, so downloads at one offset into
/// values of one size all give the same bytes.
pub proof fn lemma_repeated_download<T: GpuSsbo>(
    buffer: BufferModel,
    first: T,
    second: T,
    offset: int,
)
    requires
        0 <= offset,
        offset + first.byte_view().len() <= buffer.bytes.len(),
        second.byte_view().len() == first.byte_view().len(),
    ensures
        read_at(buffer.bytes, offset, first.byte_view().len() as int) == read_at(
            buffer.bytes,
            offset,
            second.byte_view().len() as int,
        ),
{
}

/// A storage buffer together with the host value that it mirrors.
pub struct SSBO<T> {
    pub buffer: DeviceBuffer,
    pub content: T,
}

impl<T: GpuSsbo> Deref for SSBO<T> {
    type Target = T;

    fn deref(&self) -> (r: &T)
        ensures
            *r == self.content,
    {
        &self.content
    }
}

impl<T: GpuSsbo> DerefMut for SSBO<T> {
    fn deref_mut(&mut self) -> (r: &mut T)
        ensures
            *r == old(self).content,
            final(self).buffer == old(self).buffer,
            final(self).content == *final(r),
    {
        &mut self.content
    }
}

impl<T: GpuSsbo> SSBO<T> {
    /// Creates a buffer sized to `object`, copies the object into it, and
    /// keeps the object as the buffer's host-side content.
    pub fn create_from(binding: u32, object: T, usage: u32) -> (r: SSBO<T>)
        ensures
            r.buffer@.binding == binding,
            r.buffer@.usage == usage,
            r.buffer@.bytes == object.byte_view(),
            r.content == object,
    {
        let buffer = DeviceBuffer::create_from(binding, &object, usage);
        SSBO { buffer, content: object }
    }

    /// Sends the content to the device, at the start of the buffer.
    pub fn update(&mut self) -> (r: Transfer)
        requires
            old(self).content.byte_view().len() <= old(self).buffer@.bytes.len(),
        ensures
            final(self).content == old(self).content,
            final(self).buffer@ == (BufferModel {
                bytes: write_at(old(self).buffer@.bytes, 0, old(self).content.byte_view()),
                ..old(self).buffer@
            }),
            r.offset == 0,
            r.bytes@ == old(self).content.byte_view(),
    {
        self.buffer.upload(&self.content, 0)
    }

    /// Reads the start of the buffer back into the content.
    pub fn load(&mut self)
        requires
            old(self).content.byte_view().len() <= old(self).buffer@.bytes.len(),
        ensures
            final(self).buffer == old(self).buffer,
            final(self).content.byte_view() == read_at(
                old(self).buffer@.bytes,
                0,
                old(self).content.byte_view().len() as int,
            ),
    {
        self.buffer.download(&mut self.content, 0);
    }
}

} // verus!
