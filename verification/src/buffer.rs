//! Typed buffers: the host-side image of a device buffer that holds a fixed
//! number of elements of one type.
//!
//! A [`Buffer`] never touches a device. It keeps the bytes the device copy is
//! meant to hold, and every change to them comes back as a [`BufferWrite`]
//! for whoever owns the device queue to carry out.
use crate::pod::{
    encode_all, encode_slice, lemma_encode_all_concat, lemma_encode_all_injective,
    lemma_encode_all_len, Pod,
};
use vstd::prelude::*;

verus! {

/// The buffer may be mapped for reading.
pub const MAP_READ: u32 = 1;

/// The buffer may be mapped for writing.
pub const MAP_WRITE: u32 = 2;

/// The buffer may be the source of a copy.
pub const COPY_SRC: u32 = 4;

/// The buffer may be the destination of a copy or of a queue write.
pub const COPY_DST: u32 = 8;

/// The buffer may be bound as an index buffer.
pub const INDEX: u32 = 16;

/// The buffer may be bound as a vertex buffer.
pub const VERTEX: u32 = 32;

/// The buffer may be bound as a uniform.
pub const UNIFORM: u32 = 64;

/// The buffer may be bound as storage.
pub const STORAGE: u32 = 128;

/// The buffer may hold the arguments of an indirect draw.
pub const INDIRECT: u32 = 256;

/// What a buffer may be used for: a set of the usage bits above.
#[derive(Clone, Copy, Debug, PartialEq, Eq, Structural)]
pub struct BufferUsages {
    pub bits: u32,
}

impl BufferUsages {
    /// The usage set with exactly the given bits.
    pub fn from_bits(bits: u32) -> (usage: Self)
        ensures
            usage.bits == bits,
    {
        BufferUsages { bits }
    }

    /// The bits of this usage set.
    pub fn bits(&self) -> (bits: u32)
        ensures
            bits == self.bits,
    {
        self.bits
    }

    /// Every usage that is in `self` or in `other`.
    pub fn union(self, other: BufferUsages) -> (usage: Self)
        ensures
            usage.bits == self.bits | other.bits,
    {
        BufferUsages { bits: self.bits | other.bits }
    }

    /// Whether every usage in `other` is also in `self`.
    pub fn contains(self, other: BufferUsages) -> (all: bool)
        ensures
            all == (self.bits & other.bits == other.bits),
    {
        self.bits & other.bits == other.bits
    }
}

/// What `contents` holds after `data` has been written over it from
/// place `at` on.
pub open spec fn overwrite<A>(contents: Seq<A>, at: int, data: Seq<A>) -> Seq<A>
    recommends
        0 <= at,
        at + data.len() <= contents.len(),
{
    contents.subrange(0, at) + data + contents.subrange(at + data.len(), contents.len() as int)
}

/// One write for the device queue: `data` goes into the device buffer from
/// byte `offset` on.
#[derive(Debug, PartialEq, Eq)]
pub struct BufferWrite {
    pub offset: u64,
    pub data: Vec<u8>,
}

/// A buffer of `len` elements of type `T`.
pub struct Buffer<T> {
    /// The bytes the device copy holds.
    contents: Vec<u8>,
    /// The number of elements.
    len: usize,
    /// What the device copy may be used for.
    usage: BufferUsages,
    /// The elements the bytes stand for.
    elements: Ghost<Seq<T>>,
}

impl<T> View for Buffer<T> {
    type V = Seq<u8>;

    /// The bytes of the buffer.
    closed spec fn view(&self) -> Seq<u8> {
        self.contents@
    }
}

impl<T: Pod> Buffer<T> {
    /// The elements of the buffer.
    pub closed spec fn spec_elements(&self) -> Seq<T> {
        self.elements@
    }

    /// The number of elements.
    pub closed spec fn spec_len(&self) -> nat {
        self.len as nat
    }

    /// What the device copy may be used for.
    pub closed spec fn spec_usage(&self) -> BufferUsages {
        self.usage
    }

    /// The buffer holds `spec_len()` elements, and its bytes are exactly
    /// theirs.
    pub open spec fn wf(&self) -> bool {
        &&& self.spec_elements().len() == self.spec_len()
        &&& self@ == encode_all(self.spec_elements())
        &&& self@.len() == self.spec_len() * T::spec_size()
    }

    /// A buffer that holds `data`, for the given usage.
    pub fn new(data: &[T], usage: BufferUsages) -> (buffer: Self)
        ensures
            buffer.wf(),
            buffer.spec_elements() == data@,
            buffer.spec_len() == data@.len(),
            buffer.spec_usage() == usage,
            buffer@ == encode_all(data@),
    {
        let contents = encode_slice(data);
        Buffer { contents, len: data.len(), usage, elements: Ghost(data@) }
    }

    /// A buffer of per-instance data: it holds `data` and is used as a
    /// vertex buffer.
    pub fn instance(data: &[T]) -> (buffer: Self)
        ensures
            buffer.wf(),
            buffer.spec_elements() == data@,
            buffer.spec_len() == data@.len(),
            buffer.spec_usage().bits == VERTEX,
            buffer@ == encode_all(data@),
    {
        Self::new(data, BufferUsages::from_bits(VERTEX))
    }

    /// Writes `data` over the elements from `offset` on. The size of the
    /// buffer does not change, and the write is issued whether or not it
    /// changes any byte.
    pub fn update(&mut self, data: &[T], offset: usize) -> (write: BufferWrite)
        requires
            old(self).wf(),
            offset + data@.len() <= old(self).spec_len(),
        ensures
            final(self).wf(),
            final(self).spec_len() == old(self).spec_len(),
            final(self).spec_usage() == old(self).spec_usage(),
            final(self).spec_elements() == overwrite(
                old(self).spec_elements(),
                offset as int,
                data@,
            ),
            final(self)@ == overwrite(old(self)@, offset * T::spec_size(), encode_all(data@)),
            write.offset == offset * T::spec_size(),
            write.data@ == encode_all(data@),
    {
        let bytes = encode_slice(data);
        let size = T::size();
        let ghost before = self.contents@;
        let total = self.contents.len();
        proof {
            assert(offset * size + bytes@.len() <= before.len()) by (nonlinear_arith)
                requires
                    bytes@.len() == data@.len() * size,
                    before.len() == self.len * size,
                    offset + data@.len() <= self.len,
            ;
            assert(0 <= offset * size) by (nonlinear_arith);
        }
        let start: usize = offset * size;
        let mut i: usize = 0;
        proof {
            assert(bytes@.subrange(0, 0) =~= Seq::<u8>::empty());
            assert(self.contents@ =~= overwrite(before, start as int, Seq::<u8>::empty()));
        }
        while i < bytes.len()
            invariant
                0 <= i <= bytes@.len(),
                start + bytes@.len() <= before.len(),
                before.len() == total,
                self.contents@.len() == before.len(),
                self.contents@ == overwrite(before, start as int, bytes@.subrange(0, i as int)),
                self.len == old(self).len,
                self.usage == old(self).usage,
                self.elements == old(self).elements,
            decreases bytes@.len() - i,
        {
            self.contents.set(start + i, bytes[i]);
            proof {
                assert(self.contents@ =~= overwrite(
                    before,
                    start as int,
                    bytes@.subrange(0, i + 1),
                ));
            }
            i += 1;
        }
        proof {
            assert(bytes@.subrange(0, i as int) =~= bytes@);
            assert(self.contents@ =~= overwrite(before, start as int, bytes@));
            lemma_overwrite_elements(self.elements@, offset as int, data@);
        }
        self.elements = Ghost(overwrite(self.elements@, offset as int, data@));
        BufferWrite { offset: start as u64, data: bytes }
    }

    /// The number of elements in the buffer.
    pub fn len(&self) -> (len: usize)
        ensures
            len == self.spec_len(),
    {
        self.len
    }

    /// The number of bytes in the buffer.
    pub fn size(&self) -> (size: usize)
        ensures
            size == self@.len(),
    {
        self.contents.len()
    }

    /// What the device copy may be used for.
    pub fn usage(&self) -> (usage: BufferUsages)
        ensures
            usage == self.spec_usage(),
    {
        self.usage
    }

    /// The bytes of the buffer, as the device copy holds them.
    pub fn data(&self) -> (bytes: &[u8])
        ensures
            bytes@ == self@,
    {
        self.contents.as_slice()
    }
}

/// A write leaves every byte outside its range as it was, puts its data
/// inside the range, and keeps the length.
pub proof fn lemma_overwrite_is_local<A>(contents: Seq<A>, at: int, data: Seq<A>)
    requires
        0 <= at,
        at + data.len() <= contents.len(),
    ensures
        overwrite(contents, at, data).len() == contents.len(),
        forall|i: int|
            0 <= i < at || at + data.len() <= i < contents.len() ==> overwrite(
                contents,
                at,
                data,
            )[i] == contents[i],
        forall|i: int| at <= i < at + data.len() ==> overwrite(contents, at, data)[i] == data[i - at],
{
}

/// Writing the bytes of `data` over the bytes of `items`, from the first
/// byte of element `offset` on, gives the bytes of `items` with `data`
/// written over its elements from `offset` on.
pub proof fn lemma_overwrite_elements<T: Pod>(items: Seq<T>, offset: int, data: Seq<T>)
    requires
        0 <= offset,
        offset + data.len() <= items.len(),
    ensures
        overwrite(items, offset, data).len() == items.len(),
        overwrite(encode_all(items), offset * T::spec_size(), encode_all(data)) == encode_all(
            overwrite(items, offset, data),
        ),
{
    let size = T::spec_size();
    let head = items.subrange(0, offset);
    let mid = items.subrange(offset, offset + data.len());
    let tail = items.subrange(offset + data.len(), items.len() as int);
    assert(items =~= head + mid + tail);
    lemma_encode_all_concat(head + mid, tail);
    lemma_encode_all_concat(head, mid);
    lemma_encode_all_concat(head + data, tail);
    lemma_encode_all_concat(head, data);
    lemma_encode_all_len(head);
    lemma_encode_all_len(mid);
    lemma_encode_all_len(data);
    lemma_encode_all_len(tail);
    assert(head.len() * size == offset * size);
    assert(mid.len() * size == data.len() * size);
    let old_bytes = encode_all(head) + encode_all(mid) + encode_all(tail);
    assert(old_bytes.subrange(0, offset * size) =~= encode_all(head));
    assert(old_bytes.subrange(
        offset * size + encode_all(data).len(),
        old_bytes.len() as int,
    ) =~= encode_all(tail));
}

/// An update of the elements from `offset` on changes only the bytes of
/// those elements: in a buffer of `len` elements, every byte before
/// `offset * spec_size()` and every byte from
/// `(offset + data.len()) * spec_size()` on is as it was, and the bytes in
/// between are those of `data`.
pub proof fn lemma_update_is_local<T: Pod>(contents: Seq<u8>, len: nat, data: Seq<T>, offset: nat)
    requires
        contents.len() == len * T::spec_size(),
        offset + data.len() <= len,
    ensures
        ({
            let first = (offset * T::spec_size()) as int;
            let end = ((offset + data.len()) * T::spec_size()) as int;
            let after = overwrite(contents, first, encode_all(data));
            &&& 0 <= first <= end <= contents.len()
            &&& after.len() == contents.len()
            &&& after.subrange(0, first) == contents.subrange(0, first)
            &&& after.subrange(end, contents.len() as int) == contents.subrange(
                end,
                contents.len() as int,
            )
            &&& after.subrange(first, end) == encode_all(data)
        }),
{
    let size = T::spec_size();
    let first = (offset * size) as int;
    let end = ((offset + data.len()) * size) as int;
    lemma_encode_all_len(data);
    assert(end == first + data.len() * size) by (nonlinear_arith)
        requires
            first == offset * size,
            end == (offset + data.len()) * size,
    ;
    assert(end <= len * size) by (nonlinear_arith)
        requires
            end == (offset + data.len()) * size,
            offset + data.len() <= len,
    ;
    assert(0 <= first) by (nonlinear_arith)
        requires
            first == offset * size,
    ;
    let after = overwrite(contents, first, encode_all(data));
    assert(after.subrange(0, first) =~= contents.subrange(0, first));
    assert(after.subrange(end, contents.len() as int) =~= contents.subrange(
        end,
        contents.len() as int,
    ));
    assert(after.subrange(first, end) =~= encode_all(data));
}

/// Two sequences of elements that fill a buffer with the same bytes are the
/// same sequence: the bytes read back say what was written.
pub proof fn lemma_contents_determine_elements<T: Pod>(a: Seq<T>, b: Seq<T>)
    requires
        T::spec_size() > 0,
        encode_all(a) == encode_all(b),
    ensures
        a == b,
{
    lemma_encode_all_injective(a, b);
}

} // verus!
