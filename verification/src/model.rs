//! The vector as plain values: its layout, its counts, the size of its
//! allocation and its usage bits, how each operation changes them, and what
//! each operation does to the bytes of the allocation.

use crate::device::{has_copy_flags, usage_copies, COPY_ALIGNMENT, COPY_DST, COPY_SRC};
use crate::image::{
    copied_image, lemma_copied_image, lemma_write_at, lemma_write_at_elsewhere, write_at, zeros,
};
use crate::growth::{
    grown_capacity_spec, lemma_grown_capacity_bounds, lemma_grown_capacity_fits,
};
use crate::layout::{lemma_offset_monotonic, lemma_word_sized, BufferLayout};
use crate::plan::{fits, growth_fits, PushStategy};
use vstd::arithmetic::power2::is_pow2;
use vstd::prelude::*;

verus! {

/// What a vector is, apart from the bytes of its allocation.
pub struct BufferVecView {
    /// Sizes and alignments of the header and element types.
    pub layout: BufferLayout,
    /// The number of committed elements.
    pub len: nat,
    /// The number of elements the allocation has room for.
    pub capacity: nat,
    /// The byte length of the allocation.
    pub allocation_size: nat,
    /// The bits of the usage set of the allocation.
    pub usage: u32,
}

impl BufferVecView {
    /// The invariant of a vector: the committed elements fit the capacity,
    /// the layout keeps the alignment contract, the allocation holds exactly
    /// the header and `capacity` elements, and the usage set allows copies
    /// in both directions.
    pub open spec fn wf(self) -> bool {
        &&& self.len <= self.capacity
        &&& self.capacity <= u64::MAX
        &&& self.layout.aligned()
        &&& self.allocation_size == self.layout.offset_of(self.capacity)
        &&& self.allocation_size <= u64::MAX
        &&& has_copy_flags(self.usage)
    }

    /// Whether `count` more elements fit without a new allocation.
    pub open spec fn fits(self, count: nat) -> bool {
        fits(self.len, self.capacity, count)
    }

    /// What an append of `count` elements reports.
    pub open spec fn push_strategy(self, count: nat) -> PushStategy {
        if self.fits(count) {
            PushStategy::InPlace
        } else {
            PushStategy::Realloc
        }
    }

    /// The vector after an append of `count` elements. Where they fit, only
    /// the length changes. Where they do not, the capacity grows and the
    /// allocation is a new one of exactly the grown size.
    pub open spec fn after_push(self, count: nat) -> BufferVecView {
        if self.fits(count) {
            BufferVecView { len: self.len + count, ..self }
        } else {
            let capacity = grown_capacity_spec(self.capacity, count);
            BufferVecView {
                len: self.len + count,
                capacity,
                allocation_size: self.layout.offset_of(capacity),
                ..self
            }
        }
    }

    /// The vector after appends of the given counts, one after the other.
    pub open spec fn after_pushes(self, counts: Seq<nat>) -> BufferVecView
        decreases counts.len(),
    {
        if counts.len() == 0 {
            self
        } else {
            self.after_pushes(counts.drop_last()).after_push(counts.last())
        }
    }

    /// The vector after `clear`: no committed elements, all else unchanged.
    pub open spec fn after_clear(self) -> BufferVecView {
        BufferVecView { len: 0, ..self }
    }

    /// The snapshot that `copy_new` makes: the same elements in an
    /// allocation that is sized by the length, not by the capacity.
    pub open spec fn snapshot(self) -> BufferVecView {
        BufferVecView {
            capacity: self.len,
            allocation_size: self.layout.offset_of(self.len),
            ..self
        }
    }

    /// The header bytes of an image.
    pub open spec fn header_of(self, image: Seq<u8>) -> Seq<u8> {
        image.subrange(0, self.layout.header_size as int)
    }

    /// The bytes of the elements `from..to` of an image.
    pub open spec fn elements_of(self, image: Seq<u8>, from: nat, to: nat) -> Seq<u8> {
        image.subrange(self.layout.offset_of(from) as int, self.layout.offset_of(to) as int)
    }

    /// The image after an append of `count` elements whose bytes are
    /// `batch`. Where they fit, the batch is written behind the committed
    /// elements. Where they do not, the image is that of a new allocation:
    /// zero but for the batch, which stands at the same offset.
    pub open spec fn pushed_image(self, image: Seq<u8>, count: nat, batch: Seq<u8>) -> Seq<u8> {
        if self.fits(count) {
            write_at(image, self.layout.offset_of(self.len), batch)
        } else {
            write_at(
                zeros(self.layout.offset_of(grown_capacity_spec(self.capacity, count))),
                self.layout.offset_of(self.len),
                batch,
            )
        }
    }

    /// The image after a partial write of `batch` from element `start` on.
    pub open spec fn written_image(self, image: Seq<u8>, start: nat, batch: Seq<u8>) -> Seq<u8> {
        write_at(image, self.layout.offset_of(start), batch)
    }

    /// The image of a snapshot: as long as the header and the committed
    /// elements, with the copied bytes where the source has them and zero
    /// before.
    pub open spec fn snapshot_image(self, image: Seq<u8>, copy_header: bool) -> Seq<u8> {
        copied_image(
            image,
            self.layout.offset_of(self.len),
            self.layout.copy_start(copy_header),
            self.layout.offset_of(self.len),
        )
    }

    /// What the device asks of an append of `count` elements: the write
    /// starts at, and is as long as, a multiple of the copy alignment. Where
    /// the capacity has to grow, the doubled counts fit in a `u64` and the
    /// grown allocation is within `limit`, the largest buffer that the
    /// device makes.
    pub open spec fn can_push(self, count: nat, limit: u64) -> bool {
        &&& self.layout.offset_of(self.len) % (COPY_ALIGNMENT as nat) == 0
        &&& self.layout.bytes_of(count) % (COPY_ALIGNMENT as nat) == 0
        &&& !self.fits(count) ==> {
            &&& growth_fits(self.layout, self.capacity, count)
            &&& self.layout.offset_of(grown_capacity_spec(self.capacity, count)) <= limit
        }
    }

    /// What a partial write of `count` elements from index `start` asks: the
    /// range lies inside the committed elements, and the device's copy
    /// alignment holds of where the write starts and of how long it is.
    pub open spec fn can_write(self, start: nat, count: nat) -> bool {
        &&& start + count <= self.len
        &&& self.layout.offset_of(start) % (COPY_ALIGNMENT as nat) == 0
        &&& self.layout.bytes_of(count) % (COPY_ALIGNMENT as nat) == 0
    }

    /// What the device asks of `copy_new`: the copied range, which ends with
    /// the last committed element, starts at, and is as long as, a multiple
    /// of the copy alignment, the snapshot is within `limit`, the largest
    /// buffer that the device makes, and the usage set is one that every
    /// device copies.
    pub open spec fn can_copy(self, copy_header: bool, limit: u64) -> bool {
        &&& self.layout.copy_start(copy_header) % (COPY_ALIGNMENT as nat) == 0
        &&& self.layout.copy_len(self.len, copy_header) % (COPY_ALIGNMENT as nat) == 0
        &&& self.layout.offset_of(self.len) <= limit
        &&& usage_copies(self.usage)
    }
}

/// A usage set to which both copy flags were added holds both, and a set
/// that holds both holds each.
pub proof fn lemma_copy_flags(bits: u32)
    ensures
        has_copy_flags(bits | COPY_SRC | COPY_DST),
        has_copy_flags(bits) ==> bits & COPY_SRC == COPY_SRC && bits & COPY_DST == COPY_DST,
{
    assert((bits | 4u32 | 8u32) & (4u32 | 8u32) == 4u32 | 8u32) by (bit_vector);
    assert(bits & (4u32 | 8u32) == 4u32 | 8u32 ==> bits & 4u32 == 4u32 && bits & 8u32 == 8u32)
        by (bit_vector);
}

/// The sum of the counts.
pub open spec fn total(counts: Seq<nat>) -> nat
    decreases counts.len(),
{
    if counts.len() == 0 {
        0
    } else {
        total(counts.drop_last()) + counts.last()
    }
}

/// An append that the device accepts leaves a well-formed vector.
pub proof fn lemma_push_keeps_wf(v: BufferVecView, count: nat, limit: u64)
    requires
        v.wf(),
        v.can_push(count, limit),
    ensures
        v.after_push(count).wf(),
{
    if !v.fits(count) {
        lemma_grown_capacity_bounds(v.capacity, v.len, count);
        lemma_grown_capacity_fits(v.capacity, count);
    }
}

/// An append that fits the remaining capacity is made in place: the length
/// grows by exactly the appended count, and the capacity and the allocation
/// stay as they were.
pub proof fn lemma_push_in_place(v: BufferVecView, count: nat)
    requires
        v.fits(count),
    ensures
        v.push_strategy(count) == PushStategy::InPlace,
        v.after_push(count).len == v.len + count,
        v.after_push(count).capacity == v.capacity,
        v.after_push(count).allocation_size == v.allocation_size,
        v.after_push(count).usage == v.usage,
        v.after_push(count).layout == v.layout,
{
}

/// A run of appends whose counts together fit the free capacity: every one
/// is made in place, the length grows by the sum of the counts, and the
/// capacity and the allocation stay as they were.
pub proof fn lemma_pushes_within_capacity(v: BufferVecView, counts: Seq<nat>)
    requires
        v.len + total(counts) <= v.capacity,
    ensures
        forall|i: int|
            0 <= i < counts.len() ==> #[trigger] v.after_pushes(counts.take(i)).push_strategy(
                counts[i],
            ) == PushStategy::InPlace,
        forall|i: int|
            0 <= i < counts.len() ==> #[trigger] v.after_pushes(counts.take(i + 1)).len
                == v.after_pushes(counts.take(i)).len + counts[i],
        v.after_pushes(counts).len == v.len + total(counts),
        v.after_pushes(counts).capacity == v.capacity,
        v.after_pushes(counts).allocation_size == v.allocation_size,
        v.after_pushes(counts).usage == v.usage,
    decreases counts.len(),
{
    if counts.len() > 0 {
        let front = counts.drop_last();
        lemma_pushes_within_capacity(v, front);
        assert forall|i: int| 0 <= i < counts.len() implies #[trigger] v.after_pushes(
            counts.take(i),
        ).push_strategy(counts[i]) == PushStategy::InPlace by {
            if i < front.len() {
                assert(counts.take(i) =~= front.take(i));
                assert(counts[i] == front[i]);
            } else {
                assert(counts.take(i) =~= front);
            }
        }
        assert forall|i: int| 0 <= i < counts.len() implies #[trigger] v.after_pushes(
            counts.take(i + 1),
        ).len == v.after_pushes(counts.take(i)).len + counts[i] by {
            if i < front.len() {
                assert(counts.take(i) =~= front.take(i));
                assert(counts.take(i + 1) =~= front.take(i + 1));
                assert(counts[i] == front[i]);
            } else {
                assert(counts.take(i) =~= front);
                assert(counts.take(i + 1) =~= counts);
            }
        }
    }
}

/// Where every append of a run fits the capacity that is free at its turn,
/// the counts together fit the capacity that was free at the start.
pub proof fn lemma_fitting_pushes_fit_together(v: BufferVecView, counts: Seq<nat>)
    requires
        v.len <= v.capacity,
        forall|i: int|
            0 <= i < counts.len() ==> #[trigger] v.after_pushes(counts.take(i)).fits(counts[i]),
    ensures
        v.len + total(counts) <= v.capacity,
    decreases counts.len(),
{
    if counts.len() > 0 {
        let front = counts.drop_last();
        assert forall|i: int| 0 <= i < front.len() implies #[trigger] v.after_pushes(
            front.take(i),
        ).fits(front[i]) by {
            assert(counts.take(i) =~= front.take(i));
            assert(counts[i] == front[i]);
            assert(v.after_pushes(counts.take(i)).fits(counts[i]));
        }
        lemma_fitting_pushes_fit_together(v, front);
        lemma_pushes_within_capacity(v, front);
        assert(counts.take(counts.len() - 1) =~= front);
        assert(v.after_pushes(counts.take(counts.len() - 1)).fits(counts[counts.len() - 1]));
    }
}

/// A run of appends each of which fits the capacity that is free at its
/// turn: every one is made in place, each adds exactly its count to the
/// length, and the capacity and the allocation stay as they were.
pub proof fn lemma_pushes_in_place(v: BufferVecView, counts: Seq<nat>)
    requires
        v.len <= v.capacity,
        forall|i: int|
            0 <= i < counts.len() ==> #[trigger] v.after_pushes(counts.take(i)).fits(counts[i]),
    ensures
        forall|i: int|
            0 <= i < counts.len() ==> #[trigger] v.after_pushes(counts.take(i)).push_strategy(
                counts[i],
            ) == PushStategy::InPlace,
        forall|i: int|
            0 <= i < counts.len() ==> #[trigger] v.after_pushes(counts.take(i + 1)).len
                == v.after_pushes(counts.take(i)).len + counts[i],
        v.after_pushes(counts).len == v.len + total(counts),
        v.after_pushes(counts).capacity == v.capacity,
        v.after_pushes(counts).allocation_size == v.allocation_size,
        v.after_pushes(counts).usage == v.usage,
{
    lemma_fitting_pushes_fit_together(v, counts);
    lemma_pushes_within_capacity(v, counts);
}

/// An append that exceeds the remaining capacity reallocates. The new
/// capacity is a power of two that is at least twice the old capacity, at
/// least twice the appended count, and at least the new length; the new
/// allocation holds exactly the header and that many elements.
pub proof fn lemma_push_realloc(v: BufferVecView, count: nat)
    requires
        v.len <= v.capacity,
        !v.fits(count),
    ensures
        v.push_strategy(count) == PushStategy::Realloc,
        is_pow2(v.after_push(count).capacity as int),
        v.after_push(count).capacity >= 2 * v.capacity,
        v.after_push(count).capacity >= 2 * count,
        v.after_push(count).capacity >= v.len + count,
        v.after_push(count).len == v.len + count,
        v.after_push(count).allocation_size == v.layout.offset_of(v.after_push(count).capacity),
        v.after_push(count).usage == v.usage,
{
    lemma_grown_capacity_bounds(v.capacity, v.len, count);
}

/// `clear` leaves no committed elements, keeps the capacity, the allocation
/// and the usage set, and a second `clear` changes nothing.
pub proof fn lemma_clear(v: BufferVecView)
    ensures
        v.after_clear().len == 0,
        v.after_clear().capacity == v.capacity,
        v.after_clear().allocation_size == v.allocation_size,
        v.after_clear().usage == v.usage,
        v.after_clear().after_clear() == v.after_clear(),
        v.wf() ==> v.after_clear().wf(),
{
}

/// After `clear` an append goes as into a vector of the same capacity that
/// never held an element: it is made in place exactly where the count fits
/// the whole capacity, and the two vectors end up the same.
pub proof fn lemma_push_after_clear(v: BufferVecView, fresh: BufferVecView, count: nat)
    requires
        fresh.len == 0,
        fresh.capacity == v.capacity,
        fresh.layout == v.layout,
        fresh.allocation_size == v.allocation_size,
        fresh.usage == v.usage,
    ensures
        v.after_clear().push_strategy(count) == fresh.push_strategy(count),
        v.after_clear().after_push(count) == fresh.after_push(count),
        v.after_clear().push_strategy(count) == PushStategy::InPlace <==> count <= v.capacity,
        v.after_clear().after_push(count).len == count,
{
}

/// A snapshot holds as many elements as the source, has no spare capacity,
/// and its allocation holds exactly the header and those elements.
pub proof fn lemma_snapshot(v: BufferVecView)
    requires
        v.wf(),
    ensures
        v.snapshot().wf(),
        v.snapshot().len == v.len,
        v.snapshot().capacity == v.len,
        v.snapshot().allocation_size == v.layout.offset_of(v.len),
        v.snapshot().usage == v.usage,
{
    lemma_offset_monotonic(v.layout, v.len, v.capacity);
}

/// A partial write inside the committed elements starts behind the header
/// and ends no later than the last committed element: it touches neither the
/// header nor the spare capacity, and never leaves the allocation.
pub proof fn lemma_write_stays_inside(v: BufferVecView, start: nat, count: nat)
    requires
        v.wf(),
        start + count <= v.len,
    ensures
        v.layout.header_size <= v.layout.offset_of(start),
        v.layout.offset_of(start) + v.layout.bytes_of(count) == v.layout.offset_of(start + count),
        v.layout.offset_of(start + count) <= v.layout.offset_of(v.len),
        v.layout.offset_of(v.len) <= v.allocation_size,
{
    lemma_offset_monotonic(v.layout, 0, start);
    lemma_offset_monotonic(v.layout, start, start + count);
    lemma_offset_monotonic(v.layout, start + count, v.len);
    lemma_offset_monotonic(v.layout, v.len, v.capacity);
}

/// What a snapshot copies ends with the last committed element and lies in
/// the source and in the snapshot, at the same place in both. With the
/// header it starts with the allocation and so is all of the snapshot;
/// without it, it starts with the first element and is all but the
/// snapshot's header.
pub proof fn lemma_copy_region(v: BufferVecView, copy_header: bool)
    requires
        v.wf(),
    ensures
        v.layout.copy_start(copy_header) + v.layout.copy_len(v.len, copy_header)
            == v.snapshot().allocation_size,
        v.snapshot().allocation_size <= v.allocation_size,
        v.layout.copy_start(true) == 0,
        v.layout.copy_start(false) == v.layout.header_size,
        v.layout.copy_len(v.len, false) == v.layout.bytes_of(v.len),
{
    lemma_offset_monotonic(v.layout, 0, v.len);
    lemma_offset_monotonic(v.layout, v.len, v.capacity);
}

/// After an append in place the batch stands behind the elements that were
/// committed before, and the header and those elements are as they were.
pub proof fn lemma_pushed_image_in_place(v: BufferVecView, image: Seq<u8>, count: nat, batch: Seq<u8>)
    requires
        v.wf(),
        image.len() == v.allocation_size,
        v.fits(count),
        batch.len() == v.layout.bytes_of(count),
    ensures
        v.pushed_image(image, count, batch).len() == image.len(),
        v.elements_of(v.pushed_image(image, count, batch), v.len, v.len + count) == batch,
        v.header_of(v.pushed_image(image, count, batch)) == v.header_of(image),
        v.elements_of(v.pushed_image(image, count, batch), 0, v.len) == v.elements_of(
            image,
            0,
            v.len,
        ),
{
    lemma_offset_monotonic(v.layout, 0, v.len);
    lemma_offset_monotonic(v.layout, v.len, v.len + count);
    lemma_offset_monotonic(v.layout, v.len + count, v.capacity);
    let offset = v.layout.offset_of(v.len);
    lemma_write_at(image, offset, batch);
    lemma_write_at_elsewhere(image, offset, batch, 0, v.layout.header_size as nat);
    lemma_write_at_elsewhere(image, offset, batch, v.layout.offset_of(0), offset);
}

/// After a reallocating append the image is that of the new allocation: the
/// batch stands at the offset behind the elements that were committed
/// before, and every other byte, the header and those elements among them,
/// is zero.
pub proof fn lemma_pushed_image_realloc(v: BufferVecView, image: Seq<u8>, count: nat, batch: Seq<u8>)
    requires
        v.wf(),
        !v.fits(count),
        batch.len() == v.layout.bytes_of(count),
    ensures
        v.pushed_image(image, count, batch).len() == v.after_push(count).allocation_size,
        v.elements_of(v.pushed_image(image, count, batch), v.len, v.len + count) == batch,
        forall|i: int|
            0 <= i < v.layout.offset_of(v.len) || v.layout.offset_of(v.len + count) <= i
                < v.after_push(count).allocation_size ==> v.pushed_image(image, count, batch)[i]
                == 0,
{
    lemma_grown_capacity_bounds(v.capacity, v.len, count);
    let grown = grown_capacity_spec(v.capacity, count);
    lemma_offset_monotonic(v.layout, v.len, v.len + count);
    lemma_offset_monotonic(v.layout, v.len + count, grown);
    lemma_write_at(zeros(v.layout.offset_of(grown)), v.layout.offset_of(v.len), batch);
}

/// After a partial write inside the committed elements the written range
/// reads as exactly the new bytes, and the header and every other element
/// read as before.
pub proof fn lemma_written_image(v: BufferVecView, image: Seq<u8>, start: nat, count: nat, batch: Seq<u8>)
    requires
        v.wf(),
        image.len() == v.allocation_size,
        start + count <= v.len,
        batch.len() == v.layout.bytes_of(count),
    ensures
        v.written_image(image, start, batch).len() == image.len(),
        v.elements_of(v.written_image(image, start, batch), start, start + count) == batch,
        v.header_of(v.written_image(image, start, batch)) == v.header_of(image),
        v.elements_of(v.written_image(image, start, batch), 0, start) == v.elements_of(
            image,
            0,
            start,
        ),
        v.elements_of(v.written_image(image, start, batch), start + count, v.len) == v.elements_of(
            image,
            start + count,
            v.len,
        ),
{
    lemma_write_stays_inside(v, start, count);
    lemma_offset_monotonic(v.layout, 0, start);
    let offset = v.layout.offset_of(start);
    lemma_write_at(image, offset, batch);
    lemma_write_at_elsewhere(image, offset, batch, 0, v.layout.header_size as nat);
    lemma_write_at_elsewhere(image, offset, batch, v.layout.offset_of(0), offset);
    lemma_write_at_elsewhere(
        image,
        offset,
        batch,
        v.layout.offset_of(start + count),
        v.layout.offset_of(v.len),
    );
}

/// A snapshot is as long as the header and the committed elements, and its
/// elements are byte for byte those of the source. With the header copied
/// its header is that of the source too, so that the whole snapshot is the
/// source up to the last committed element; without, its header is zero.
pub proof fn lemma_snapshot_image(v: BufferVecView, image: Seq<u8>, copy_header: bool)
    requires
        v.wf(),
        image.len() == v.allocation_size,
    ensures
        v.snapshot_image(image, copy_header).len() == v.snapshot().allocation_size,
        v.elements_of(v.snapshot_image(image, copy_header), 0, v.len) == v.elements_of(
            image,
            0,
            v.len,
        ),
        copy_header ==> v.header_of(v.snapshot_image(image, copy_header)) == v.header_of(image),
        copy_header ==> v.snapshot_image(image, copy_header) == image.subrange(
            0,
            v.layout.offset_of(v.len) as int,
        ),
        !copy_header ==> forall|i: int|
            0 <= i < v.layout.header_size ==> v.snapshot_image(image, copy_header)[i] == 0,
{
    lemma_offset_monotonic(v.layout, 0, v.len);
    lemma_offset_monotonic(v.layout, v.len, v.capacity);
    let end = v.layout.offset_of(v.len);
    let start = v.layout.copy_start(copy_header);
    lemma_copied_image(image, end, start, end);
    let copy = v.snapshot_image(image, copy_header);
    assert(v.elements_of(copy, 0, v.len) =~= v.elements_of(image, 0, v.len));
    if copy_header {
        assert(copy =~= image.subrange(0, end as int));
        assert(v.header_of(copy) =~= v.header_of(image));
    }
}

/// With a header and elements whose sizes are multiples of four bytes the
/// device's alignment rules hold of every append that fits, of every partial
/// write inside the committed elements, and of every snapshot: of appends
/// that grow and of snapshots only the size is left to ask for.
pub proof fn lemma_word_sized_layout(v: BufferVecView, start: nat, count: nat, limit: u64)
    requires
        v.layout.word_sized(),
    ensures
        v.fits(count) ==> v.can_push(count, limit),
        growth_fits(v.layout, v.capacity, count) && v.layout.offset_of(
            grown_capacity_spec(v.capacity, count),
        ) <= limit ==> v.can_push(count, limit),
        start + count <= v.len ==> v.can_write(start, count),
        v.layout.offset_of(v.len) <= limit && usage_copies(v.usage) ==> v.can_copy(true, limit)
            && v.can_copy(false, limit),
{
    lemma_word_sized(v.layout, v.len);
    lemma_word_sized(v.layout, start);
    lemma_word_sized(v.layout, count);
    lemma_offset_monotonic(v.layout, 0, v.len);
}

} // verus!
