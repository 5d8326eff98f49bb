//! The growable vector in device memory.

use crate::as_bytes::{flat_image, record_image, slice_as_bytes, AsBytes};
use crate::device::{
    bits_of, buffer_size, buffer_usage, copy_to_new_buffer, create_buffer, create_buffer_init,
    device_features, device_max_buffer_size, features_of, is_usage_accepted, is_usage_copied,
    max_buffer_size, DeviceFeatures, queue_device, unmap, usage_accepted, usage_bits,
    usage_of, write_buffer, write_mapped, Allocation, COPY_ALIGNMENT, COPY_DST, COPY_SRC,
};
use crate::growth::{grown_capacity, MAX_GROWTH_INPUT};
use crate::image::{lemma_padded_exact, lemma_write_whole};
use crate::layout::{layout_of, lemma_offset_monotonic, BufferLayout};
use crate::model::{
    lemma_copy_flags, lemma_pushed_image_in_place, lemma_pushed_image_realloc,
    lemma_snapshot_image, lemma_written_image, BufferVecView,
};
use crate::plan::{plan_push, PushStategy, UploadStrategy};
use core::marker::PhantomData;
use vstd::layout::*;
use vstd::prelude::*;

verus! {

/// A device, the queue that was made with it, and how this platform
/// uploads.
pub struct GlobalRenderResources {
    device: wgpu::Device,
    queue: wgpu::Queue,
    strategy: UploadStrategy,
}

impl GlobalRenderResources {
    /// The queue is the device's own.
    #[verifier::type_invariant]
    spec fn paired(self) -> bool {
        queue_device(self.queue) == self.device
    }

    /// The device.
    pub closed spec fn device_value(&self) -> wgpu::Device {
        self.device
    }

    /// The queue.
    pub closed spec fn queue_value(&self) -> wgpu::Queue {
        self.queue
    }

    /// How this platform uploads.
    pub closed spec fn strategy_value(&self) -> UploadStrategy {
        self.strategy
    }

    /// The resources of a device and the queue that was made with it.
    /// `wgpu` has no way to tell at run time whether a queue is a device's
    /// own, so the caller says that it is.
    pub fn new(device: wgpu::Device, queue: wgpu::Queue, strategy: UploadStrategy) -> (resources:
        Self)
        requires
            queue_device(queue) == device,
        ensures
            resources.device_value() == device,
            resources.queue_value() == queue,
            resources.strategy_value() == strategy,
    {
        GlobalRenderResources { device, queue, strategy }
    }

    /// The device.
    pub fn device(&self) -> (device: &wgpu::Device)
        ensures
            *device == self.device_value(),
    {
        &self.device
    }

    /// The queue.
    pub fn queue(&self) -> (queue: &wgpu::Queue)
        ensures
            *queue == self.queue_value(),
    {
        &self.queue
    }

    /// How this platform uploads.
    pub fn strategy(&self) -> (strategy: UploadStrategy)
        ensures
            strategy == self.strategy_value(),
    {
        self.strategy
    }
}

/// A vector in device memory: one `Header`, then the committed elements of
/// type `T`, in a single allocation that has room for `capacity` of them.
/// Does not contain a bind group.
pub struct BufferVec<Header, T> {
    allocation: Allocation,
    len: u64,
    capacity: u64,
    usage: wgpu::BufferUsages,
    _marker: PhantomData<(Header, T)>,
}

impl<Header, T> View for BufferVec<Header, T> {
    type V = BufferVecView;

    closed spec fn view(&self) -> BufferVecView {
        BufferVecView {
            layout: layout_of::<Header, T>(),
            len: self.len as nat,
            capacity: self.capacity as nat,
            allocation_size: self.allocation.size(),
            usage: usage_bits(self.usage),
        }
    }
}

impl<Header, T> BufferVec<Header, T> where Header: AsBytes, T: AsBytes {
    /// The invariant: the view is well formed, the sizes of both types fit
    /// the layout's fields, the allocation was made with the usage set that
    /// the vector records, which its device accepts, it is not mapped, and
    /// the image is as long as the allocation.
    pub closed spec fn wf(&self) -> bool {
        &&& self@.wf()
        &&& self@.layout.header_size == size_of::<Header>()
        &&& self@.layout.element_size == size_of::<T>()
        &&& self.allocation.usage() == usage_bits(self.usage)
        &&& usage_accepted(self@.usage, features_of(self.allocation.device()))
        &&& self.allocation.image().len() == self.allocation.size()
        &&& !self.allocation.mapped()
    }

    /// The handle of the device allocation.
    pub closed spec fn handle(&self) -> wgpu::Buffer {
        self.allocation.handle()
    }

    /// The bytes of the device allocation, as this vector has written them.
    pub closed spec fn image(&self) -> Seq<u8> {
        self.allocation.image()
    }

    /// The device that made the allocation.
    pub closed spec fn device(&self) -> wgpu::Device {
        self.allocation.device()
    }

    /// What the invariant says of the view, of the allocation and of the
    /// image.
    pub proof fn lemma_wf(&self)
        requires
            self.wf(),
        ensures
            self@.wf(),
            self@.layout == layout_of::<Header, T>(),
            self@.layout.header_size == size_of::<Header>(),
            self@.layout.element_size == size_of::<T>(),
            self@.allocation_size == buffer_size(self.handle()),
            self@.usage == buffer_usage(self.handle()),
            usage_accepted(self@.usage, features_of(self.device())),
            self.image().len() == self@.allocation_size,
    {
    }

    /// What a constructor asks for a vector of `len` elements: the two types
    /// keep the alignment contract, the device accepts the usage set with
    /// both copy flags added, and the allocation, which is exactly the
    /// header and the elements, is within `limit`, the largest buffer that
    /// the device makes, and a multiple of the copy alignment, as the device
    /// asks of a buffer that the host fills at creation.
    pub open spec fn can_allocate(usage: u32, len: nat, limit: u64, features: DeviceFeatures) -> bool {
        &&& layout_of::<Header, T>().aligned()
        &&& usage_accepted(usage | COPY_SRC | COPY_DST, features)
        &&& layout_of::<Header, T>().offset_of(len) <= limit
        &&& layout_of::<Header, T>().offset_of(len) % (COPY_ALIGNMENT as nat) == 0
    }

    /// `can_allocate` on a device, for a usage set.
    pub open spec fn can_allocate_for(device: wgpu::Device, usage: u32, len: nat) -> bool {
        Self::can_allocate(
            usage,
            len,
            device_max_buffer_size(device),
            features_of(device),
        )
    }

    /// What `vec` is when it was made on `device` from `header` and
    /// `elements` with the given usage set: as many committed elements as
    /// there are, no spare capacity, an allocation of exactly the header and
    /// the elements, and an image that is the header's bytes and then the
    /// elements'.
    pub open spec fn made_of(
        vec: Self,
        device: wgpu::Device,
        usage: u32,
        header: Header,
        elements: Seq<T>,
    ) -> bool {
        &&& vec.wf()
        &&& vec.device() == device
        &&& vec@ == (BufferVecView {
            layout: layout_of::<Header, T>(),
            len: elements.len(),
            capacity: elements.len(),
            allocation_size: layout_of::<Header, T>().offset_of(elements.len()),
            usage: usage | COPY_SRC | COPY_DST,
        })
        &&& vec.image() == header.byte_image() + flat_image(elements)
        &&& vec@.header_of(vec.image()) == header.byte_image()
        &&& vec@.elements_of(vec.image(), 0, elements.len()) == flat_image(elements)
    }

    /// Whether a constructor can make a vector of `len` elements on this
    /// device: `can_allocate_for`, computed.
    pub fn can_allocate_on(device: &wgpu::Device, usage: &wgpu::BufferUsages, len: u64) -> (ok:
        bool)
        ensures
            ok == Self::can_allocate_for(*device, usage_bits(*usage), len as nat),
    {
        let layout = BufferLayout::of::<Header, T>();
        let bits = bits_of(usage) | COPY_SRC | COPY_DST;
        if !layout.is_aligned() || !is_usage_accepted(bits, device_features(device)) {
            return false;
        }
        match layout.checked_element_offset(len) {
            Some(size) => size <= max_buffer_size(device) && size % COPY_ALIGNMENT == 0,
            None => false,
        }
    }

    /// An empty vector: an allocation that holds the header and no elements.
    /// The usage set is the given one with both copy flags added.
    pub fn new(device: &wgpu::Device, usage: wgpu::BufferUsages, header: Header) -> (vec: Self)
        requires
            Self::can_allocate_for(*device, usage_bits(usage), 0),
        ensures
            Self::made_of(vec, *device, usage_bits(usage), header, Seq::empty()),
            vec@.len == 0,
            vec@.capacity == 0,
            vec@.allocation_size == size_of::<Header>(),
            vec.image() == header.byte_image(),
    {
        let layout = BufferLayout::of::<Header, T>();
        let copyable = usage_of(bits_of(&usage) | COPY_SRC | COPY_DST);
        let bytes = header.as_bytes();
        proof {
            assert(layout.offset_of(0) == layout.header_size);
            lemma_padded_exact(bytes@);
        }
        let allocation = create_buffer_init(device, bytes.as_slice(), &copyable);
        proof {
            lemma_copy_flags(usage_bits(usage));
            assert(header.byte_image() + flat_image(Seq::<T>::empty()) =~= header.byte_image());
            assert(bytes@.subrange(0, bytes@.len() as int) =~= bytes@);
            assert(bytes@.subrange(bytes@.len() as int, bytes@.len() as int) =~= Seq::<
                u8,
            >::empty());
        }
        BufferVec { allocation, len: 0, capacity: 0, usage: copyable, _marker: PhantomData }
    }

    /// An empty vector, or `None` where `new` cannot make one: where the two
    /// types break the alignment contract, the device refuses the usage set,
    /// or the header is larger than the device's largest buffer or no
    /// multiple of the copy alignment.
    pub fn try_new(device: &wgpu::Device, usage: wgpu::BufferUsages, header: Header) -> (vec:
        Option<Self>)
        ensures
            vec.is_some() == Self::can_allocate_for(*device, usage_bits(usage), 0),
            vec matches Some(made) ==> Self::made_of(
                made,
                *device,
                usage_bits(usage),
                header,
                Seq::empty(),
            ) && made.image() == header.byte_image(),
    {
        if Self::can_allocate_on(device, &usage, 0) {
            Some(Self::new(device, usage, header))
        } else {
            None
        }
    }

    /// The vector that holds `header` and `elements`, filled by the host
    /// while its allocation is mapped at creation.
    fn with_data(
        device: &wgpu::Device,
        usage: wgpu::BufferUsages,
        header: &Header,
        elements: &[T],
    ) -> (vec: Self)
        requires
            Self::can_allocate_for(*device, usage_bits(usage), elements@.len()),
        ensures
            Self::made_of(vec, *device, usage_bits(usage), *header, elements@),
    {
        let layout = BufferLayout::of::<Header, T>();
        let len = elements.len() as u64;
        let copyable = usage_of(bits_of(&usage) | COPY_SRC | COPY_DST);
        let image = record_image(header, elements);
        proof {
            assert(layout.offset_of(0) == layout.header_size);
            assert(elements@.len() * size_of::<T>() == layout.bytes_of(len as nat))
                by (nonlinear_arith)
                requires
                    layout.bytes_of(len as nat) == size_of::<T>() * elements@.len(),
            ;
            assert(image@.len() == layout.offset_of(len as nat));
        }
        let size = image.len() as u64;
        let mut allocation = create_buffer(device, size, &copyable, true);
        write_mapped(&mut allocation, 0, size, image.as_slice());
        unmap(&mut allocation);
        proof {
            lemma_copy_flags(usage_bits(usage));
            lemma_write_whole(image@);
            let head = header.byte_image();
            let tail = flat_image(elements@);
            assert(image@.subrange(0, head.len() as int) =~= head);
            assert(image@.subrange(head.len() as int, image@.len() as int) =~= tail);
        }
        BufferVec { allocation, len, capacity: len, usage: copyable, _marker: PhantomData }
    }

    /// A vector of `len` elements that starts with the header and the
    /// elements that `fill` gives for that count: one allocation of exactly
    /// their size, filled by the host while it is mapped at creation. The
    /// usage set is the given one with both copy flags added.
    pub fn new_with_data<F>(
        device: &wgpu::Device,
        usage: wgpu::BufferUsages,
        len: u64,
        fill: F,
    ) -> (vec: Self) where F: FnOnce(u64) -> (Header, Vec<T>)
        requires
            Self::can_allocate_for(*device, usage_bits(usage), len as nat),
            fill.requires((len,)),
            forall|filled: (Header, Vec<T>)| #[trigger]
                fill.ensures((len,), filled) ==> filled.1@.len() == len,
        ensures
            vec@.len == len,
            vec@.capacity == len,
            vec@.allocation_size == layout_of::<Header, T>().offset_of(len as nat),
            exists|filled: (Header, Vec<T>)|
                #![trigger fill.ensures((len,), filled)]
                fill.ensures((len,), filled) && Self::made_of(
                    vec,
                    *device,
                    usage_bits(usage),
                    filled.0,
                    filled.1@,
                ),
    {
        let filled = fill(len);
        Self::with_data(device, usage, &filled.0, filled.1.as_slice())
    }

    /// A vector of `len` elements, or `None` where `new_with_data` cannot
    /// make one: where the two types break the alignment contract, the
    /// device refuses the usage set, the allocation is too large or no
    /// multiple of the copy alignment, or `fill` gives another number of
    /// elements than it was asked for. `fill` is not called where the vector
    /// cannot be made whatever it gives.
    pub fn try_new_with_data<F>(
        device: &wgpu::Device,
        usage: wgpu::BufferUsages,
        len: u64,
        fill: F,
    ) -> (vec: Option<Self>) where F: FnOnce(u64) -> (Header, Vec<T>)
        requires
            fill.requires((len,)),
        ensures
            !Self::can_allocate_for(*device, usage_bits(usage), len as nat) ==> vec.is_none(),
            Self::can_allocate_for(*device, usage_bits(usage), len as nat) && (forall|
                filled: (Header, Vec<T>),
            | #[trigger]
                fill.ensures((len,), filled) ==> filled.1@.len() == len) ==> vec.is_some(),
            vec matches Some(made) ==> made@.len == len && made@.capacity == len && exists|
                filled: (Header, Vec<T>),
            |
                #![trigger fill.ensures((len,), filled)]
                fill.ensures((len,), filled) && Self::made_of(
                    made,
                    *device,
                    usage_bits(usage),
                    filled.0,
                    filled.1@,
                ),
    {
        if !Self::can_allocate_on(device, &usage, len) {
            return None;
        }
        let filled = fill(len);
        if filled.1.len() as u64 != len {
            return None;
        }
        Some(Self::with_data(device, usage, &filled.0, filled.1.as_slice()))
    }

    /// The number of elements currently stored; it never exceeds the
    /// capacity.
    pub fn len(&self) -> (len: u64)
        ensures
            len == self@.len,
    {
        self.len
    }

    /// The number of elements that the allocation could store, however many
    /// it holds now.
    pub fn capacity(&self) -> (capacity: u64)
        ensures
            capacity == self@.capacity,
    {
        self.capacity
    }

    /// The device allocation, for binding.
    pub fn inner_buffer(&self) -> (buffer: &wgpu::Buffer)
        ensures
            *buffer == self.handle(),
            buffer_size(*buffer) == self@.allocation_size,
    {
        self.allocation.buffer()
    }

    /// The byte length of the device allocation.
    pub fn allocation_size(&self) -> (size: u64)
        ensures
            size == self@.allocation_size,
    {
        self.allocation.byte_size()
    }

    /// Marks the vector as empty without touching the allocation or its
    /// bytes.
    pub fn clear(&mut self)
        ensures
            final(self)@ == old(self)@.after_clear(),
            final(self).handle() == old(self).handle(),
            final(self).image() == old(self).image(),
            final(self).device() == old(self).device(),
            old(self).wf() ==> final(self).wf(),
    {
        self.len = 0;
    }

    /// What `self` is after an append of `data` to `before` that reported
    /// `strategy`: the report is in place exactly where the data fits, the
    /// view is that after the append, the image is the pushed image, in
    /// which the data stands behind the elements that were committed before,
    /// and an append in place keeps the handle.
    pub open spec fn is_push_of(&self, before: &Self, data: Seq<T>, strategy: PushStategy) -> bool {
        &&& self.wf()
        &&& self.device() == before.device()
        &&& self@ == before@.after_push(data.len())
        &&& self.image() == before@.pushed_image(before.image(), data.len(), flat_image(data))
        &&& flat_image(data).len() == before@.layout.bytes_of(data.len())
        &&& before@.elements_of(self.image(), before@.len, before@.len + data.len())
            == flat_image(data)
        &&& strategy == before@.push_strategy(data.len())
        &&& strategy == PushStategy::InPlace ==> self.handle() == before.handle()
    }

    /// Appends `data`. Where it fits the remaining capacity it is written
    /// through the queue into the allocation, behind the committed elements.
    /// Otherwise the capacity grows, and the data goes to the same offset of
    /// a new allocation of exactly the grown size, which replaces the old
    /// one; neither the header nor the elements committed before are carried
    /// over. The result says which of the two happened.
    #[must_use]
    pub fn push_small(
        &mut self,
        gpu_resources: &GlobalRenderResources,
        _encoder: &mut wgpu::CommandEncoder,
        data: &[T],
    ) -> (strategy: PushStategy)
        requires
            old(self).wf(),
            old(self).device() == gpu_resources.device_value(),
            old(self)@.can_push(data@.len(), device_max_buffer_size(gpu_resources.device_value())),
        ensures
            final(self).is_push_of(old(self), data@, strategy),
    {
        let layout = BufferLayout::of::<Header, T>();
        let plan = plan_push(
            &layout,
            self.len,
            self.capacity,
            self.allocation.byte_size(),
            gpu_resources.strategy,
            data.len() as u64,
        );
        let bytes = slice_as_bytes(data);
        proof {
            use_type_invariant(gpu_resources);
            lemma_copy_flags(usage_bits(self.usage));
            if self@.fits(data@.len()) {
                lemma_pushed_image_in_place(self@, self.image(), data@.len(), bytes@);
            } else {
                lemma_pushed_image_realloc(self@, self.image(), data@.len(), bytes@);
            }
        }
        match plan.strategy {
            PushStategy::InPlace => {
                write_buffer(
                    &gpu_resources.queue,
                    &mut self.allocation,
                    plan.offset,
                    bytes.as_slice(),
                );
            },
            PushStategy::Realloc => {
                let mut allocation = create_buffer(
                    &gpu_resources.device,
                    plan.allocation_size,
                    &self.usage,
                    plan.mapped,
                );
                if plan.mapped {
                    let end = plan.offset + plan.bytes;
                    write_mapped(&mut allocation, plan.offset, end, bytes.as_slice());
                    unmap(&mut allocation);
                } else {
                    write_buffer(
                        &gpu_resources.queue,
                        &mut allocation,
                        plan.offset,
                        bytes.as_slice(),
                    );
                }
                self.allocation = allocation;
                self.capacity = plan.capacity;
            },
        }
        self.len = plan.len;
        plan.strategy
    }

    /// Whether `push_small` can take `count` elements on this device:
    /// `can_push` of the view, computed.
    pub fn can_push_small(&self, gpu_resources: &GlobalRenderResources, count: u64) -> (ok: bool)
        requires
            self.wf(),
        ensures
            ok == self@.can_push(count as nat, device_max_buffer_size(gpu_resources.device_value())),
    {
        let layout = BufferLayout::of::<Header, T>();
        proof {
            lemma_offset_monotonic(layout, self.len as nat, self.capacity as nat);
        }
        let offset = layout.element_offset(self.len);
        if count <= self.capacity - self.len {
            proof {
                lemma_offset_monotonic(layout, 0, count as nat);
                lemma_offset_monotonic(layout, count as nat, self.capacity as nat);
            }
            offset % COPY_ALIGNMENT == 0 && layout.element_bytes(count) % COPY_ALIGNMENT == 0
        } else if self.capacity > MAX_GROWTH_INPUT || count > MAX_GROWTH_INPUT {
            false
        } else {
            let grown = grown_capacity(self.capacity, count);
            proof {
                crate::growth::lemma_grown_capacity_bounds(
                    self.capacity as nat,
                    self.len as nat,
                    count as nat,
                );
                lemma_offset_monotonic(layout, 0, count as nat);
                lemma_offset_monotonic(layout, count as nat, grown as nat);
            }
            match layout.checked_element_offset(grown) {
                Some(size) => size <= max_buffer_size(&gpu_resources.device) && offset
                    % COPY_ALIGNMENT == 0 && layout.element_bytes(count) % COPY_ALIGNMENT == 0,
                None => false,
            }
        }
    }

    /// Appends `data` where `push_small` can take it, and says what it
    /// reported. Where it cannot, nothing is written and the vector stays as
    /// it was. The resources are those of the vector's device.
    pub fn try_push_small(
        &mut self,
        gpu_resources: &GlobalRenderResources,
        encoder: &mut wgpu::CommandEncoder,
        data: &[T],
    ) -> (pushed: Option<PushStategy>)
        requires
            old(self).wf(),
            old(self).device() == gpu_resources.device_value(),
        ensures
            pushed.is_some() == old(self)@.can_push(
                data@.len(),
                device_max_buffer_size(gpu_resources.device_value()),
            ),
            pushed matches Some(strategy) ==> final(self).is_push_of(old(self), data@, strategy),
            pushed.is_none() ==> *final(self) == *old(self),
    {
        if self.can_push_small(gpu_resources, data.len() as u64) {
            Some(self.push_small(gpu_resources, encoder, data))
        } else {
            None
        }
    }

    /// What `self` is after a partial write of `data` from `starting_index`
    /// on to `before`: the same vector in the same allocation, with an image
    /// in which the written range reads as exactly the new bytes.
    pub open spec fn is_write_of(&self, before: &Self, starting_index: nat, data: Seq<T>) -> bool {
        &&& self.wf()
        &&& self.device() == before.device()
        &&& self@ == before@
        &&& self.handle() == before.handle()
        &&& self.image() == before@.written_image(
            before.image(),
            starting_index,
            flat_image(data),
        )
        &&& flat_image(data).len() == before@.layout.bytes_of(data.len())
        &&& before@.elements_of(self.image(), starting_index, starting_index + data.len())
            == flat_image(data)
    }

    /// Whether `write_partial_small` can write `count` elements from
    /// `starting_index` on: `can_write` of the view, computed.
    pub fn can_write_partial_small(&self, starting_index: u64, count: u64) -> (ok: bool)
        requires
            self.wf(),
        ensures
            ok == self@.can_write(starting_index as nat, count as nat),
    {
        let layout = BufferLayout::of::<Header, T>();
        match starting_index.checked_add(count) {
            Some(end) => {
                if end <= self.len {
                    proof {
                        lemma_offset_monotonic(layout, starting_index as nat, self.len as nat);
                        lemma_offset_monotonic(layout, 0, count as nat);
                        lemma_offset_monotonic(layout, count as nat, self.len as nat);
                        lemma_offset_monotonic(layout, self.len as nat, self.capacity as nat);
                    }
                    layout.element_offset(starting_index) % COPY_ALIGNMENT == 0
                        && layout.element_bytes(count) % COPY_ALIGNMENT == 0
                } else {
                    false
                }
            },
            None => false,
        }
    }

    /// Overwrites committed elements, from `starting_index` on, with `data`,
    /// through the queue. Nothing is allocated and the vector keeps its
    /// length.
    pub fn write_partial_small(
        &mut self,
        gpu_resources: &GlobalRenderResources,
        starting_index: u64,
        data: &[T],
    )
        requires
            old(self).wf(),
            old(self).device() == gpu_resources.device_value(),
            old(self)@.can_write(starting_index as nat, data@.len()),
        ensures
            final(self).is_write_of(old(self), starting_index as nat, data@),
    {
        let layout = BufferLayout::of::<Header, T>();
        let count = data.len() as u64;
        proof {
            use_type_invariant(gpu_resources);
            lemma_copy_flags(usage_bits(self.usage));
            lemma_offset_monotonic(layout, starting_index as nat, (starting_index + count) as nat);
            lemma_offset_monotonic(layout, (starting_index + count) as nat, self.len as nat);
            lemma_offset_monotonic(layout, self.len as nat, self.capacity as nat);
        }
        let offset = layout.element_offset(starting_index);
        let bytes = slice_as_bytes(data);
        proof {
            lemma_written_image(self@, self.image(), starting_index as nat, data@.len(), bytes@);
        }
        write_buffer(&gpu_resources.queue, &mut self.allocation, offset, bytes.as_slice());
    }

    /// Overwrites committed elements where `write_partial_small` can, and
    /// says whether it did. Where the range leaves the committed elements,
    /// or is off the copy alignment, no write is queued: the length, the
    /// capacity and every byte of the allocation stay as they were. The
    /// resources are those of the vector's device.
    pub fn try_write_partial_small(
        &mut self,
        gpu_resources: &GlobalRenderResources,
        starting_index: u64,
        data: &[T],
    ) -> (written: bool)
        requires
            old(self).wf(),
            old(self).device() == gpu_resources.device_value(),
        ensures
            written == old(self)@.can_write(starting_index as nat, data@.len()),
            written ==> final(self).is_write_of(old(self), starting_index as nat, data@),
            !written ==> *final(self) == *old(self),
    {
        if self.can_write_partial_small(starting_index, data.len() as u64) {
            self.write_partial_small(gpu_resources, starting_index, data);
            true
        } else {
            false
        }
    }

    /// What `copy` is as a snapshot of `self`: a vector of the same device
    /// in an allocation of its own that is sized by the length, whose
    /// elements are byte for byte those of `self`, and whose header is too
    /// where it was copied.
    pub open spec fn is_snapshot(&self, copy: &Self, copy_header: bool) -> bool {
        &&& copy.wf()
        &&& copy.device() == self.device()
        &&& copy@ == self@.snapshot()
        &&& copy.handle() != self.handle()
        &&& copy.image() == self@.snapshot_image(self.image(), copy_header)
        &&& self@.elements_of(copy.image(), 0, self@.len) == self@.elements_of(
            self.image(),
            0,
            self@.len,
        )
        &&& copy_header ==> self@.header_of(copy.image()) == self@.header_of(self.image())
    }

    /// Whether `copy_new` can make a snapshot on this device: `can_copy` of
    /// the view, computed.
    pub fn can_copy_new(&self, render_resources: &GlobalRenderResources, copy_header: bool) -> (ok:
        bool)
        requires
            self.wf(),
        ensures
            ok == self@.can_copy(
                copy_header,
                device_max_buffer_size(render_resources.device_value()),
            ),
    {
        let layout = BufferLayout::of::<Header, T>();
        proof {
            lemma_offset_monotonic(layout, self.len as nat, self.capacity as nat);
        }
        let (offset, copy_size) = layout.copy_region(self.len, copy_header);
        offset % COPY_ALIGNMENT == 0 && copy_size % COPY_ALIGNMENT == 0 && layout.element_offset(
            self.len,
        ) <= max_buffer_size(&render_resources.device) && is_usage_copied(bits_of(&self.usage))
    }

    /// A snapshot in a new allocation that is sized by the length: the
    /// device copies the committed elements, and the header too where
    /// `copy_header` is set. Without it the header bytes of the snapshot are
    /// left as the device made them.
    pub fn copy_new(&self, render_resources: &GlobalRenderResources, copy_header: bool) -> (copy:
        Self)
        requires
            self.wf(),
            self.device() == render_resources.device_value(),
            self@.can_copy(copy_header, device_max_buffer_size(render_resources.device_value())),
        ensures
            self.is_snapshot(&copy, copy_header),
    {
        let layout = BufferLayout::of::<Header, T>();
        proof {
            use_type_invariant(render_resources);
            lemma_snapshot_image(self@, self.image(), copy_header);
            lemma_copy_flags(usage_bits(self.usage));
            lemma_offset_monotonic(layout, 0, self.len as nat);
            lemma_offset_monotonic(layout, self.len as nat, self.capacity as nat);
            let bits = usage_bits(self.usage);
            assert(bits | bits == bits) by (bit_vector);
        }
        let size = layout.element_offset(self.len);
        let (offset, copy_size) = layout.copy_region(self.len, copy_header);
        let allocation = copy_to_new_buffer(
            &render_resources.device,
            &render_resources.queue,
            &self.allocation,
            size,
            &self.usage,
            offset,
            copy_size,
        );
        BufferVec {
            allocation,
            len: self.len,
            capacity: self.len,
            usage: self.usage,
            _marker: PhantomData,
        }
    }

    /// A snapshot where `copy_new` can make one, and `None` where it cannot.
    /// The resources are those of the vector's device.
    pub fn try_copy_new(&self, render_resources: &GlobalRenderResources, copy_header: bool) -> (copy:
        Option<Self>)
        requires
            self.wf(),
            self.device() == render_resources.device_value(),
        ensures
            copy.is_some() == self@.can_copy(
                copy_header,
                device_max_buffer_size(render_resources.device_value()),
            ),
            copy matches Some(made) ==> self.is_snapshot(&made, copy_header),
    {
        if self.can_copy_new(render_resources, copy_header) {
            Some(self.copy_new(render_resources, copy_header))
        } else {
            None
        }
    }
}

} // verus!
