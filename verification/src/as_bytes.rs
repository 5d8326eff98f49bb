//! Byte views: how a header or an element is laid out in device memory.

use vstd::bytes::*;
use vstd::layout::*;
use vstd::prelude::*;

verus! {

/// A record that can be handed to the device: it has a byte image whose
/// length is the size of the type.
///
/// Integers are laid out little-endian, as every device that `wgpu` drives
/// reads them.
pub trait AsBytes: Sized {
    /// The bytes of the value, in the order in which the device holds them.
    ///
    /// Every verified implementation defines it. The body here stands for no
    /// particular bytes; it lets an implementation that is not verified
    /// leave the function out.
    open spec fn byte_image(&self) -> Seq<u8> {
        arbitrary()
    }

    /// The byte image as a vector.
    fn as_bytes(&self) -> (bytes: Vec<u8>)
        ensures
            bytes@ == self.byte_image(),
            bytes@.len() == size_of::<Self>(),
    ;
}

impl AsBytes for () {
    open spec fn byte_image(&self) -> Seq<u8> {
        Seq::empty()
    }

    fn as_bytes(&self) -> (bytes: Vec<u8>) {
        broadcast use layout_of_unit_tuple;

        Vec::new()
    }
}

impl AsBytes for u8 {
    open spec fn byte_image(&self) -> Seq<u8> {
        seq![*self]
    }

    fn as_bytes(&self) -> (bytes: Vec<u8>) {
        broadcast use layout_of_primitives;

        let mut bytes: Vec<u8> = Vec::new();
        bytes.push(*self);
        assert(bytes@ =~= seq![*self]);
        bytes
    }
}

impl AsBytes for u16 {
    open spec fn byte_image(&self) -> Seq<u8> {
        spec_u16_to_le_bytes(*self)
    }

    fn as_bytes(&self) -> (bytes: Vec<u8>) {
        broadcast use layout_of_primitives;

        u16_to_le_bytes(*self)
    }
}

impl AsBytes for u32 {
    open spec fn byte_image(&self) -> Seq<u8> {
        spec_u32_to_le_bytes(*self)
    }

    fn as_bytes(&self) -> (bytes: Vec<u8>) {
        broadcast use layout_of_primitives;

        u32_to_le_bytes(*self)
    }
}

impl AsBytes for u64 {
    open spec fn byte_image(&self) -> Seq<u8> {
        spec_u64_to_le_bytes(*self)
    }

    fn as_bytes(&self) -> (bytes: Vec<u8>) {
        broadcast use layout_of_primitives;

        u64_to_le_bytes(*self)
    }
}

/// The byte images of `items`, one after the other.
pub open spec fn flat_image<T: AsBytes>(items: Seq<T>) -> Seq<u8>
    decreases items.len(),
{
    if items.len() == 0 {
        Seq::empty()
    } else {
        flat_image(items.drop_last()) + items.last().byte_image()
    }
}

/// The flat image of a prefix grows by the image of the next item.
pub proof fn lemma_flat_image_step<T: AsBytes>(items: Seq<T>, i: int)
    requires
        0 <= i < items.len(),
    ensures
        flat_image(items.take(i + 1)) == flat_image(items.take(i)) + items[i].byte_image(),
{
    assert(items.take(i + 1).drop_last() =~= items.take(i));
}

/// The byte images of the elements of `data`, one after the other: what the
/// device holds for a run of elements.
pub fn slice_as_bytes<T: AsBytes>(data: &[T]) -> (bytes: Vec<u8>)
    ensures
        bytes@ == flat_image(data@),
        bytes@.len() == data@.len() * size_of::<T>(),
{
    let mut bytes: Vec<u8> = Vec::new();
    let mut i: usize = 0;
    assert(data@.take(0) =~= Seq::<T>::empty());
    while i < data.len()
        invariant
            i <= data@.len(),
            bytes@ == flat_image(data@.take(i as int)),
            bytes@.len() == i * size_of::<T>(),
        decreases data@.len() - i,
    {
        let mut item: Vec<u8> = data[i].as_bytes();
        proof {
            lemma_flat_image_step(data@, i as int);
            assert((i + 1) * size_of::<T>() == i * size_of::<T>() + size_of::<T>())
                by (nonlinear_arith);
        }
        bytes.append(&mut item);
        i = i + 1;
    }
    assert(data@.take(data@.len() as int) =~= data@);
    bytes
}

/// The image of a buffer that starts with `header` and goes on with
/// `elements`: the bytes of the header, then those of each element.
pub fn record_image<Header: AsBytes, T: AsBytes>(header: &Header, elements: &[T]) -> (bytes: Vec<u8>)
    ensures
        bytes@ == header.byte_image() + flat_image(elements@),
        header.byte_image().len() == size_of::<Header>(),
        flat_image(elements@).len() == elements@.len() * size_of::<T>(),
{
    let mut bytes = header.as_bytes();
    let mut tail = slice_as_bytes(elements);
    bytes.append(&mut tail);
    bytes
}

} // verus!
