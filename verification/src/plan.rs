//! What an append asks of the device, decided from plain values before any
//! device call is made.

use crate::device::{COPY_ALIGNMENT, MAP_ALIGNMENT};
use crate::growth::{
    grown_capacity, grown_capacity_spec, lemma_grown_capacity_bounds, MAX_GROWTH_INPUT,
};
use crate::layout::{lemma_offset_monotonic, BufferLayout};
use vstd::prelude::*;

verus! {

/// Whether an append wrote into the existing allocation or made a new one.
/// After `Realloc` every handle to the old allocation is stale.
#[derive(Clone, Copy, Debug, PartialEq, Eq, Structural)]
pub enum PushStategy {
    InPlace,
    Realloc,
}

/// How the elements of a reallocating append reach the new allocation.
#[derive(Clone, Copy, Debug, PartialEq, Eq, Structural)]
pub enum UploadStrategy {
    /// Written by the host into the new allocation while it is mapped at
    /// creation, where the device's mapping rules allow it, and through the
    /// queue where they do not.
    Mapped,
    /// Written through the queue.
    Queued,
}

/// What one append does: where the batch goes, and what the vector is
/// afterwards.
#[derive(Clone, Copy, Debug, PartialEq, Eq, Structural)]
pub struct PushPlan {
    /// Whether the batch goes into the existing allocation or into a new
    /// one.
    pub strategy: PushStategy,
    /// The byte offset at which the batch is written.
    pub offset: u64,
    /// The length of the batch in bytes.
    pub bytes: u64,
    /// The number of committed elements afterwards.
    pub len: u64,
    /// The capacity afterwards.
    pub capacity: u64,
    /// The byte length of the allocation afterwards.
    pub allocation_size: u64,
    /// Whether the batch is written by the host into a new allocation that
    /// is mapped at creation, and not through the queue.
    pub mapped: bool,
}

/// Whether `count` more elements fit a vector of `len` elements and the
/// given capacity without a new allocation.
pub open spec fn fits(len: nat, capacity: nat, count: nat) -> bool {
    count <= capacity - len
}

/// Whether the growth step for an append of `count` elements stays within a
/// `u64`: both doubled counts do, and so does the size of the grown
/// allocation.
pub open spec fn growth_fits(layout: BufferLayout, capacity: nat, count: nat) -> bool {
    &&& capacity <= MAX_GROWTH_INPUT
    &&& count <= MAX_GROWTH_INPUT
    &&& layout.offset_of(grown_capacity_spec(capacity, count)) <= u64::MAX
}

/// Whether the host may write a batch at `offset` into a new allocation of
/// `size` bytes while it is mapped at creation: the size is a multiple of
/// the copy alignment and the offset a multiple of the map alignment.
pub open spec fn mappable(size: nat, offset: nat) -> bool {
    size % (COPY_ALIGNMENT as nat) == 0 && offset % (MAP_ALIGNMENT as nat) == 0
}

/// The plan of an append of `count` elements to a vector of `len` elements
/// with the given capacity and allocation.
///
/// The batch always goes behind the committed elements. Where it fits, the
/// allocation stays and only the length grows. Where it does not, the
/// capacity grows and the allocation is a new one that holds exactly the
/// header and the grown capacity; the host fills it while mapped where that
/// was asked for and the device's mapping rules allow it.
pub open spec fn push_plan(
    layout: BufferLayout,
    len: nat,
    capacity: nat,
    allocation_size: nat,
    upload: UploadStrategy,
    count: nat,
) -> PushPlan {
    let offset = layout.offset_of(len);
    if fits(len, capacity, count) {
        PushPlan {
            strategy: PushStategy::InPlace,
            offset: offset as u64,
            bytes: layout.bytes_of(count) as u64,
            len: (len + count) as u64,
            capacity: capacity as u64,
            allocation_size: allocation_size as u64,
            mapped: false,
        }
    } else {
        let grown = grown_capacity_spec(capacity, count);
        let size = layout.offset_of(grown);
        PushPlan {
            strategy: PushStategy::Realloc,
            offset: offset as u64,
            bytes: layout.bytes_of(count) as u64,
            len: (len + count) as u64,
            capacity: grown as u64,
            allocation_size: size as u64,
            mapped: upload == UploadStrategy::Mapped && mappable(size, offset),
        }
    }
}

/// The plan of an append of `count` elements.
pub fn plan_push(
    layout: &BufferLayout,
    len: u64,
    capacity: u64,
    allocation_size: u64,
    upload: UploadStrategy,
    count: u64,
) -> (plan: PushPlan)
    requires
        len <= capacity,
        layout.offset_of(capacity as nat) <= allocation_size,
        !fits(len as nat, capacity as nat, count as nat) ==> growth_fits(
            *layout,
            capacity as nat,
            count as nat,
        ),
    ensures
        plan == push_plan(
            *layout,
            len as nat,
            capacity as nat,
            allocation_size as nat,
            upload,
            count as nat,
        ),
        plan.offset == layout.offset_of(len as nat),
        plan.bytes == layout.bytes_of(count as nat),
        plan.len == len + count,
        plan.offset + plan.bytes == layout.offset_of((len + count) as nat),
        plan.offset + plan.bytes <= plan.allocation_size,
        plan.len <= plan.capacity,
        layout.offset_of(plan.capacity as nat) <= plan.allocation_size,
        plan.strategy == PushStategy::Realloc ==> plan.allocation_size == layout.offset_of(
            plan.capacity as nat,
        ) && plan.capacity == grown_capacity_spec(capacity as nat, count as nat),
{
    proof {
        lemma_offset_monotonic(*layout, len as nat, capacity as nat);
    }
    let offset = layout.element_offset(len);
    if count <= capacity - len {
        proof {
            lemma_offset_monotonic(*layout, 0, count as nat);
            lemma_offset_monotonic(*layout, len as nat, (len + count) as nat);
            lemma_offset_monotonic(*layout, (len + count) as nat, capacity as nat);
        }
        PushPlan {
            strategy: PushStategy::InPlace,
            offset,
            bytes: layout.element_bytes(count),
            len: len + count,
            capacity,
            allocation_size,
            mapped: false,
        }
    } else {
        let grown = grown_capacity(capacity, count);
        proof {
            lemma_grown_capacity_bounds(capacity as nat, len as nat, count as nat);
            lemma_offset_monotonic(*layout, 0, count as nat);
            lemma_offset_monotonic(*layout, len as nat, (len + count) as nat);
            lemma_offset_monotonic(*layout, (len + count) as nat, grown as nat);
        }
        let size = layout.element_offset(grown);
        let mapped = match upload {
            UploadStrategy::Mapped => size % COPY_ALIGNMENT == 0 && offset % MAP_ALIGNMENT == 0,
            UploadStrategy::Queued => false,
        };
        PushPlan {
            strategy: PushStategy::Realloc,
            offset,
            bytes: layout.element_bytes(count),
            len: len + count,
            capacity: grown,
            allocation_size: size,
            mapped,
        }
    }
}

} // verus!
