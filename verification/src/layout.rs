//! The layout of a buffer: one header record, then the elements, densely
//! packed.

use vstd::layout::*;
use vstd::prelude::*;

verus! {

/// Size and alignment of the header type and of the element type.
#[derive(Clone, Copy, Debug, PartialEq, Eq, Structural)]
pub struct BufferLayout {
    pub header_size: u64,
    pub header_align: u64,
    pub element_size: u64,
    pub element_align: u64,
}

/// The layout of a buffer with header type `Header` and element type `T`.
pub open spec fn layout_of<Header, T>() -> BufferLayout {
    BufferLayout {
        header_size: size_of::<Header>() as u64,
        header_align: align_of::<Header>() as u64,
        element_size: size_of::<T>() as u64,
        element_align: align_of::<T>() as u64,
    }
}

impl BufferLayout {
    /// The alignment contract: the elements, which start right behind the
    /// header, are aligned without padding. This holds when either alignment
    /// is trivial or the header's alignment is a multiple of the element's.
    pub open spec fn aligned(&self) -> bool {
        ||| self.header_align <= 1
        ||| self.element_align <= 1
        ||| self.header_align % self.element_align == 0
    }

    /// The byte offset of the element with the given index.
    pub open spec fn offset_of(&self, index: nat) -> nat {
        self.header_size as nat + (self.element_size as nat) * index
    }

    /// The bytes that `count` elements take.
    pub open spec fn bytes_of(&self, count: nat) -> nat {
        (self.element_size as nat) * count
    }

    /// The first byte of a snapshot's copy: the start of the allocation where
    /// the header is copied too, the first element where it is not.
    pub open spec fn copy_start(&self, copy_header: bool) -> nat {
        if copy_header {
            0
        } else {
            self.header_size as nat
        }
    }

    /// The length of a snapshot's copy of `len` elements: from `copy_start`
    /// to the end of the last element.
    pub open spec fn copy_len(&self, len: nat, copy_header: bool) -> nat {
        (self.offset_of(len) - self.copy_start(copy_header)) as nat
    }

    /// Every offset and every run of elements of this layout is a multiple
    /// of four bytes.
    pub open spec fn word_sized(&self) -> bool {
        self.header_size % 4 == 0 && self.element_size % 4 == 0
    }

    /// The layout of header type `Header` and element type `T`.
    pub fn of<Header, T>() -> (layout: BufferLayout)
        ensures
            layout == layout_of::<Header, T>(),
            layout.header_size == size_of::<Header>(),
            layout.header_align == align_of::<Header>(),
            layout.element_size == size_of::<T>(),
            layout.element_align == align_of::<T>(),
    {
        BufferLayout {
            header_size: core::mem::size_of::<Header>() as u64,
            header_align: core::mem::align_of::<Header>() as u64,
            element_size: core::mem::size_of::<T>() as u64,
            element_align: core::mem::align_of::<T>() as u64,
        }
    }

    /// Whether the alignment contract holds.
    pub fn is_aligned(&self) -> (ok: bool)
        ensures
            ok == self.aligned(),
    {
        self.header_align <= 1 || self.element_align <= 1 || self.header_align
            % self.element_align == 0
    }

    /// The byte offset of the element with the given index.
    pub fn element_offset(&self, index: u64) -> (offset: u64)
        requires
            self.offset_of(index as nat) <= u64::MAX,
        ensures
            offset == self.offset_of(index as nat),
    {
        self.header_size + self.element_size * index
    }

    /// The byte offset of the element with the given index, or `None` where
    /// it does not fit in a `u64`.
    pub fn checked_element_offset(&self, index: u64) -> (offset: Option<u64>)
        ensures
            self.offset_of(index as nat) <= u64::MAX ==> offset == Some(
                self.offset_of(index as nat) as u64,
            ),
            self.offset_of(index as nat) > u64::MAX ==> offset.is_none(),
    {
        match self.element_size.checked_mul(index) {
            Some(bytes) => self.header_size.checked_add(bytes),
            None => None,
        }
    }

    /// The byte range that a snapshot of `len` elements copies: where it
    /// starts and how long it is.
    pub fn copy_region(&self, len: u64, copy_header: bool) -> (region: (u64, u64))
        requires
            self.offset_of(len as nat) <= u64::MAX,
        ensures
            region.0 == self.copy_start(copy_header),
            region.1 == self.copy_len(len as nat, copy_header),
            region.0 + region.1 == self.offset_of(len as nat),
    {
        let end = self.element_offset(len);
        if copy_header {
            (0, end)
        } else {
            (self.header_size, end - self.header_size)
        }
    }

    /// The bytes that `count` elements take.
    pub fn element_bytes(&self, count: u64) -> (bytes: u64)
        requires
            self.bytes_of(count as nat) <= u64::MAX,
        ensures
            bytes == self.bytes_of(count as nat),
    {
        self.element_size * count
    }
}

/// Offsets grow with the index.
pub proof fn lemma_offset_monotonic(layout: BufferLayout, i: nat, j: nat)
    requires
        i <= j,
    ensures
        layout.offset_of(i) <= layout.offset_of(j),
        layout.offset_of(j) == layout.offset_of(i) + layout.bytes_of((j - i) as nat),
{
    let e = layout.element_size as nat;
    assert(e * i <= e * j) by (nonlinear_arith)
        requires
            i <= j,
    ;
    assert(e * j == e * i + e * ((j - i) as nat)) by (nonlinear_arith)
        requires
            i <= j,
    ;
}

/// In a layout whose header and elements are multiples of four bytes, so is
/// every offset and every run of elements.
pub proof fn lemma_word_sized(layout: BufferLayout, index: nat)
    requires
        layout.word_sized(),
    ensures
        layout.offset_of(index) % 4 == 0,
        layout.bytes_of(index) % 4 == 0,
{
    let e = layout.element_size as nat;
    let h = layout.header_size as nat;
    let k = e / 4;
    assert(e * index == (k * index) * 4) by (nonlinear_arith)
        requires
            e == 4 * k,
    ;
    vstd::arithmetic::div_mod::lemma_mod_multiples_basic((k * index) as int, 4);
}

} // verus!
