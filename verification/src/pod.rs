//! Fixed-layout element types and the bytes a device reads for them.
//!
//! Every multi-byte quantity is laid out least significant byte first, with
//! no padding between the fields of an element or between the elements of a
//! sequence.
use vstd::prelude::*;

verus! {

/// The two bytes of a 16-bit word, least significant first.
pub open spec fn le_bytes_u16(x: u16) -> Seq<u8> {
    seq![(x % 256) as u8, (x / 256) as u8]
}

/// The four bytes of a 32-bit word, least significant first.
pub open spec fn le_bytes_u32(x: u32) -> Seq<u8> {
    seq![
        (x % 256) as u8,
        (x / 256 % 256) as u8,
        (x / 256 / 256 % 256) as u8,
        (x / 256 / 256 / 256) as u8,
    ]
}

/// The 16-bit word that two bytes spell, least significant first.
pub open spec fn u16_from_le_bytes(b: Seq<u8>) -> u16
    recommends
        b.len() == 2,
{
    (b[0] + 256 * b[1]) as u16
}

/// The 32-bit word that four bytes spell, least significant first.
pub open spec fn u32_from_le_bytes(b: Seq<u8>) -> u32
    recommends
        b.len() == 4,
{
    (b[0] + 256 * b[1] + 65536 * b[2] + 16777216 * b[3]) as u32
}

/// Reading back the bytes of a 16-bit word gives the word.
pub proof fn lemma_u16_round_trip(x: u16)
    ensures
        le_bytes_u16(x).len() == 2,
        u16_from_le_bytes(le_bytes_u16(x)) == x,
{
}

/// Reading back the bytes of a 32-bit word gives the word.
pub proof fn lemma_u32_round_trip(x: u32)
    ensures
        le_bytes_u32(x).len() == 4,
        u32_from_le_bytes(le_bytes_u32(x)) == x,
{
    let q1 = x / 256;
    let q2 = q1 / 256;
    let q3 = q2 / 256;
    assert(x == 256 * q1 + x % 256);
    assert(q1 == 256 * q2 + q1 % 256);
    assert(q2 == 256 * q3 + q2 % 256);
    assert(q3 < 256);
    let b = le_bytes_u32(x);
    assert(b[0] == x % 256);
    assert(b[1] == q1 % 256);
    assert(b[2] == q2 % 256);
    assert(b[3] == q3);
}

/// Appends the four bytes of `x` to `out`.
pub fn push_u32(out: &mut Vec<u8>, x: u32)
    ensures
        final(out)@ == old(out)@ + le_bytes_u32(x),
{
    out.push((x % 256) as u8);
    out.push((x / 256 % 256) as u8);
    out.push((x / 256 / 256 % 256) as u8);
    out.push((x / 256 / 256 / 256) as u8);
    assert(out@ =~= old(out)@ + le_bytes_u32(x));
}

/// Appends the two bytes of `x` to `out`.
pub fn push_u16(out: &mut Vec<u8>, x: u16)
    ensures
        final(out)@ == old(out)@ + le_bytes_u16(x),
{
    out.push((x % 256) as u8);
    out.push((x / 256) as u8);
    assert(out@ =~= old(out)@ + le_bytes_u16(x));
}

/// A plain element of fixed size that can be handed to a device as raw bytes.
pub trait Pod: Sized {
    /// The number of bytes one element occupies.
    spec fn spec_size() -> nat;

    /// The bytes of this element, in the order the device reads them.
    spec fn bytes(&self) -> Seq<u8>;

    /// Every element occupies exactly `spec_size()` bytes.
    proof fn lemma_bytes_len(&self)
        ensures
            self.bytes().len() == Self::spec_size(),
    ;

    /// Two elements with the same bytes are the same element.
    proof fn lemma_bytes_injective(&self, other: &Self)
        requires
            self.bytes() == other.bytes(),
        ensures
            *self == *other,
    ;

    /// The number of bytes one element occupies.
    fn size() -> (n: usize)
        ensures
            n == Self::spec_size(),
    ;

    /// Appends the bytes of this element to `out`.
    fn write_bytes(&self, out: &mut Vec<u8>)
        ensures
            final(out)@ == old(out)@ + self.bytes(),
    ;
}

impl Pod for u16 {
    open spec fn spec_size() -> nat {
        2
    }

    open spec fn bytes(&self) -> Seq<u8> {
        le_bytes_u16(*self)
    }

    proof fn lemma_bytes_len(&self) {
    }

    proof fn lemma_bytes_injective(&self, other: &Self) {
        lemma_u16_round_trip(*self);
        lemma_u16_round_trip(*other);
    }

    fn size() -> (n: usize) {
        2
    }

    fn write_bytes(&self, out: &mut Vec<u8>) {
        push_u16(out, *self);
    }
}

impl Pod for u32 {
    open spec fn spec_size() -> nat {
        4
    }

    open spec fn bytes(&self) -> Seq<u8> {
        le_bytes_u32(*self)
    }

    proof fn lemma_bytes_len(&self) {
    }

    proof fn lemma_bytes_injective(&self, other: &Self) {
        lemma_u32_round_trip(*self);
        lemma_u32_round_trip(*other);
    }

    fn size() -> (n: usize) {
        4
    }

    fn write_bytes(&self, out: &mut Vec<u8>) {
        push_u32(out, *self);
    }
}

/// The bytes of a sequence of elements: the bytes of each, one after another.
pub open spec fn encode_all<T: Pod>(items: Seq<T>) -> Seq<u8>
    decreases items.len(),
{
    if items.len() == 0 {
        Seq::empty()
    } else {
        encode_all(items.drop_last()) + items.last().bytes()
    }
}

/// A sequence of `n` elements occupies `n * spec_size()` bytes.
pub proof fn lemma_encode_all_len<T: Pod>(items: Seq<T>)
    ensures
        encode_all(items).len() == items.len() * T::spec_size(),
    decreases items.len(),
{
    if items.len() > 0 {
        lemma_encode_all_len(items.drop_last());
        items.last().lemma_bytes_len();
        assert(items.len() * T::spec_size() == (items.len() - 1) * T::spec_size()
            + T::spec_size()) by (nonlinear_arith);
    } else {
        assert(items.len() * T::spec_size() == 0) by (nonlinear_arith)
            requires
                items.len() == 0,
        ;
    }
}

/// The bytes of a sequence of one element are the bytes of the element.
pub proof fn lemma_encode_one<T: Pod>(item: T)
    ensures
        encode_all(seq![item]) == item.bytes(),
{
    let one = seq![item];
    assert(one.drop_last() =~= Seq::<T>::empty());
    assert(encode_all(one.drop_last()) =~= Seq::<u8>::empty());
    assert(one.last() == item);
    assert(encode_all(one) =~= item.bytes());
}

/// The bytes of two sequences laid end to end are the bytes of the first
/// followed by the bytes of the second.
pub proof fn lemma_encode_all_concat<T: Pod>(a: Seq<T>, b: Seq<T>)
    ensures
        encode_all(a + b) == encode_all(a) + encode_all(b),
    decreases b.len(),
{
    if b.len() == 0 {
        assert(a + b =~= a);
        assert(encode_all(a) + encode_all(b) =~= encode_all(a));
    } else {
        lemma_encode_all_concat(a, b.drop_last());
        assert((a + b).drop_last() =~= a + b.drop_last());
        assert((a + b).last() == b.last());
        assert(encode_all(a + b) =~= encode_all(a) + encode_all(b));
    }
}

/// Element `i` of a sequence occupies the bytes from `i * spec_size()` up to
/// `(i + 1) * spec_size()`, and nothing else.
pub proof fn lemma_encode_all_element<T: Pod>(items: Seq<T>, i: int)
    requires
        0 <= i < items.len(),
    ensures
        0 <= i * T::spec_size(),
        (i + 1) * T::spec_size() <= encode_all(items).len(),
        encode_all(items).subrange(i * T::spec_size(), (i + 1) * T::spec_size())
            == items[i].bytes(),
{
    let head = items.subrange(0, i);
    let one = items.subrange(i, i + 1);
    let tail = items.subrange(i + 1, items.len() as int);
    assert(items =~= head + one + tail);
    lemma_encode_all_concat(head + one, tail);
    lemma_encode_all_concat(head, one);
    lemma_encode_all_len(head);
    lemma_encode_all_len(one);
    lemma_encode_all_len(tail);
    lemma_encode_all_len(items);
    assert(one =~= seq![items[i]]);
    lemma_encode_one(items[i]);
    let sz = T::spec_size();
    assert(head.len() * sz == i * sz);
    assert(one.len() * sz == sz) by (nonlinear_arith)
        requires
            one.len() == 1,
    ;
    assert((i + 1) * sz == i * sz + sz) by (nonlinear_arith);
    assert(0 <= i * sz) by (nonlinear_arith)
        requires
            0 <= i,
            0 <= sz,
    ;
    assert(encode_all(items).subrange(i * sz, (i + 1) * sz) =~= items[i].bytes());
}

/// Two sequences with the same bytes are the same sequence, as long as an
/// element occupies at least one byte.
pub proof fn lemma_encode_all_injective<T: Pod>(a: Seq<T>, b: Seq<T>)
    requires
        T::spec_size() > 0,
        encode_all(a) == encode_all(b),
    ensures
        a == b,
{
    lemma_encode_all_len(a);
    lemma_encode_all_len(b);
    let sz = T::spec_size();
    assert(a.len() == b.len()) by (nonlinear_arith)
        requires
            a.len() * sz == b.len() * sz,
            sz > 0,
    ;
    assert forall|i: int| 0 <= i < a.len() implies a[i] == b[i] by {
        lemma_encode_all_element(a, i);
        lemma_encode_all_element(b, i);
        a[i].lemma_bytes_injective(&b[i]);
    }
    assert(a =~= b);
}

/// The bytes of `items`, in order.
pub fn encode_slice<T: Pod>(items: &[T]) -> (out: Vec<u8>)
    ensures
        out@ == encode_all(items@),
        out@.len() == items@.len() * T::spec_size(),
{
    let mut out: Vec<u8> = Vec::new();
    let mut i: usize = 0;
    assert(items@.subrange(0, 0) =~= Seq::<T>::empty());
    while i < items.len()
        invariant
            0 <= i <= items@.len(),
            out@ == encode_all(items@.subrange(0, i as int)),
        decreases items@.len() - i,
    {
        items[i].write_bytes(&mut out);
        proof {
            let next = items@.subrange(0, i + 1);
            assert(next.drop_last() =~= items@.subrange(0, i as int));
            assert(next.last() == items@[i as int]);
        }
        i += 1;
    }
    proof {
        assert(items@.subrange(0, i as int) =~= items@);
        lemma_encode_all_len(items@);
    }
    out
}

} // verus!
