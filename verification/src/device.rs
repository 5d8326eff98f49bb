//! The boundary to `wgpu`: the device types this crate passes around, an
//! allocation together with the bytes that were put into it, and the few
//! device calls the vector makes.
//!
//! The functions marked `external_body` are not proved. Each contract
//! restates what `wgpu` documents or what its validation checks: a usage set
//! that the device refuses, a size beyond the device's limit, an offset or a
//! length off the alignment, a range outside the buffer, a buffer in the
//! wrong mapping state, and a buffer or a queue of another device are all
//! left out by `requires`. What remains is what no contract can speak of: a
//! device that is lost or out of memory, and a buffer that other code has
//! mapped or destroyed through its handle. `wgpu` reports these to the
//! device's error handler.

use crate::image::{copied_image, padded_image, padded_size, write_at, zeros};
use vstd::prelude::*;

verus! {

#[verifier::external_type_specification]
#[verifier::external_body]
pub struct ExDevice(wgpu::Device);

#[verifier::external_type_specification]
#[verifier::external_body]
pub struct ExQueue(wgpu::Queue);

#[verifier::external_type_specification]
#[verifier::external_body]
pub struct ExBuffer(wgpu::Buffer);

#[verifier::external_type_specification]
#[verifier::external_body]
pub struct ExBufferUsages(wgpu::BufferUsages);

#[verifier::external_type_specification]
#[verifier::external_body]
pub struct ExCommandEncoder(wgpu::CommandEncoder);

/// `wgpu::COPY_BUFFER_ALIGNMENT`: offsets and sizes of queued writes and of
/// buffer-to-buffer copies are multiples of it.
pub const COPY_ALIGNMENT: u64 = 4;

/// `wgpu::MAP_ALIGNMENT`: a mapped range starts at a multiple of it.
pub const MAP_ALIGNMENT: u64 = 8;

/// The bit of `wgpu::BufferUsages::MAP_READ`.
pub const MAP_READ: u32 = 1;

/// The bit of `wgpu::BufferUsages::MAP_WRITE`.
pub const MAP_WRITE: u32 = 2;

/// The bit of `wgpu::BufferUsages::COPY_SRC`.
pub const COPY_SRC: u32 = 4;

/// The bit of `wgpu::BufferUsages::COPY_DST`.
pub const COPY_DST: u32 = 8;

/// The bit of `wgpu::BufferUsages::INDEX`.
pub const INDEX: u32 = 16;

/// The bits of `wgpu::BufferUsages::VERTEX`, `UNIFORM` and `STORAGE`: the
/// usages next to which not every device copies an `INDEX` buffer.
pub const INDEX_PARTNERS: u32 = 224;

/// The bits of the usages whose buffers a device makes whatever its other
/// features and limits are: the two mapping usages, `COPY_SRC`, `COPY_DST`,
/// `INDEX`, `VERTEX`, `UNIFORM` and `STORAGE`.
pub const PLAIN_USAGES: u32 = 255;

/// The bits of `wgpu::BufferUsages::BLAS_INPUT` and `TLAS_INPUT`: the usages
/// of a device with ray queries.
pub const RAY_USAGES: u32 = 3072;

/// The byte length a buffer was created with: what `wgpu::Buffer::size`
/// returns.
pub uninterp spec fn buffer_size(buffer: wgpu::Buffer) -> u64;

/// The bits of the usage set a buffer was created with: what
/// `wgpu::Buffer::usage` returns, taken by `bits`.
pub uninterp spec fn buffer_usage(buffer: wgpu::Buffer) -> u32;

/// The bits of a usage set: what `wgpu::BufferUsages::bits` returns.
pub uninterp spec fn usage_bits(usage: wgpu::BufferUsages) -> u32;

/// The largest buffer that a device makes: the `max_buffer_size` of what
/// `wgpu::Device::limits` returns.
pub uninterp spec fn device_max_buffer_size(device: wgpu::Device) -> u64;

/// Whether a device maps buffers that have other usages too: whether what
/// `wgpu::Device::features` returns holds `MAPPABLE_PRIMARY_BUFFERS`.
pub uninterp spec fn device_maps_primary_buffers(device: wgpu::Device) -> bool;

/// The device that a queue was made with.
pub uninterp spec fn queue_device(queue: wgpu::Queue) -> wgpu::Device;

/// Whether a device has ray queries: whether what `wgpu::Device::features`
/// returns holds `EXPERIMENTAL_RAY_QUERY`.
pub uninterp spec fn device_has_ray_queries(device: wgpu::Device) -> bool;

/// The features of a device that decide which usage sets it accepts.
#[derive(Clone, Copy, Debug, PartialEq, Eq, Structural)]
pub struct DeviceFeatures {
    /// Whether the device maps buffers that have other usages too.
    pub maps_primary_buffers: bool,
    /// Whether the device has ray queries.
    pub ray_queries: bool,
}

/// The features of a device.
pub open spec fn features_of(device: wgpu::Device) -> DeviceFeatures {
    DeviceFeatures {
        maps_primary_buffers: device_maps_primary_buffers(device),
        ray_queries: device_has_ray_queries(device),
    }
}

/// The features of a device.
pub fn device_features(device: &wgpu::Device) -> (features: DeviceFeatures)
    ensures
        features == features_of(*device),
{
    DeviceFeatures {
        maps_primary_buffers: maps_primary_buffers(device),
        ray_queries: has_ray_queries(device),
    }
}

/// Whether a device with these features makes a buffer with this usage set:
/// the set is not empty and holds plain usages and, on a device with ray
/// queries, ray usages only, and on a device that does not map primary
/// buffers `MAP_WRITE` stands with nothing but `COPY_SRC` and `MAP_READ`
/// with nothing but `COPY_DST`. `INDIRECT` and `QUERY_RESOLVE` are left out:
/// whether a device takes them depends on what it does not tell.
pub open spec fn usage_accepted(bits: u32, features: DeviceFeatures) -> bool {
    &&& bits != 0
    &&& bits & !(PLAIN_USAGES | RAY_USAGES) == 0
    &&& features.ray_queries || bits & RAY_USAGES == 0
    &&& features.maps_primary_buffers || bits & MAP_WRITE == 0 || bits & !(MAP_WRITE | COPY_SRC)
        == 0
    &&& features.maps_primary_buffers || bits & MAP_READ == 0 || bits & !(MAP_READ | COPY_DST)
        == 0
}

/// Whether a device with these features makes a buffer with this usage set.
pub fn is_usage_accepted(bits: u32, features: DeviceFeatures) -> (ok: bool)
    ensures
        ok == usage_accepted(bits, features),
{
    let known = bits != 0 && bits & !(PLAIN_USAGES | RAY_USAGES) == 0;
    let rays = features.ray_queries || bits & RAY_USAGES == 0;
    let writes = features.maps_primary_buffers || bits & MAP_WRITE == 0 || bits & !(MAP_WRITE
        | COPY_SRC) == 0;
    let reads = features.maps_primary_buffers || bits & MAP_READ == 0 || bits & !(MAP_READ
        | COPY_DST) == 0;
    known && rays && writes && reads
}

/// Whether every device copies from or to buffers with these usages: they
/// do not hold `INDEX` together with `VERTEX`, `UNIFORM` or `STORAGE`.
pub open spec fn usage_copies(bits: u32) -> bool {
    bits & INDEX == 0 || bits & INDEX_PARTNERS == 0
}

/// Whether every device copies from or to buffers with these usages.
pub fn is_usage_copied(bits: u32) -> (ok: bool)
    ensures
        ok == usage_copies(bits),
{
    bits & INDEX == 0 || bits & INDEX_PARTNERS == 0
}

/// Whether a usage set holds both copy flags.
pub open spec fn has_copy_flags(bits: u32) -> bool {
    bits & (COPY_SRC | COPY_DST) == COPY_SRC | COPY_DST
}

/// A device buffer together with the bytes that were put into it.
///
/// The handle is all that exists when the program runs. The image records
/// what the device calls of this module have written, byte for byte: it is
/// what every command that is submitted from now on finds in the buffer, as
/// long as nothing writes to the buffer but through this value. Nothing ever
/// reads it back from the device.
pub struct Allocation {
    buffer: wgpu::Buffer,
    image: Ghost<Seq<u8>>,
    mapped: Ghost<bool>,
    device: Ghost<wgpu::Device>,
}

impl Allocation {
    /// The buffer handle.
    pub closed spec fn handle(&self) -> wgpu::Buffer {
        self.buffer
    }

    /// The bytes of the buffer.
    pub closed spec fn image(&self) -> Seq<u8> {
        self.image@
    }

    /// Whether the buffer is mapped for the host, as it is from a creation
    /// that maps it until it is unmapped. The device takes writes and copies
    /// only while it is not.
    pub closed spec fn mapped(&self) -> bool {
        self.mapped@
    }

    /// The device that made the buffer.
    pub closed spec fn device(&self) -> wgpu::Device {
        self.device@
    }

    /// The byte length that the buffer was created with.
    pub open spec fn size(&self) -> nat {
        buffer_size(self.handle()) as nat
    }

    /// The bits of the usage set that the buffer was created with.
    pub open spec fn usage(&self) -> u32 {
        buffer_usage(self.handle())
    }

    /// The buffer handle.
    pub fn buffer(&self) -> (buffer: &wgpu::Buffer)
        ensures
            *buffer == self.handle(),
    {
        &self.buffer
    }

    /// The byte length that the buffer was created with.
    pub fn byte_size(&self) -> (size: u64)
        ensures
            size == self.size(),
    {
        size_of_buffer(&self.buffer)
    }
}

/// `wgpu::Buffer::size`: the length in bytes that the buffer was created
/// with.
#[verifier::external_body]
fn size_of_buffer(buffer: &wgpu::Buffer) -> (size: u64)
    ensures
        size == buffer_size(*buffer),
{
    buffer.size()
}

/// `wgpu::Device::limits`: the largest buffer that the device makes.
#[verifier::external_body]
pub(crate) fn max_buffer_size(device: &wgpu::Device) -> (max: u64)
    ensures
        max == device_max_buffer_size(*device),
{
    device.limits().max_buffer_size
}

/// `wgpu::Device::features`: whether the device maps primary buffers.
#[verifier::external_body]
pub(crate) fn maps_primary_buffers(device: &wgpu::Device) -> (maps: bool)
    ensures
        maps == device_maps_primary_buffers(*device),
{
    device.features().contains(wgpu::Features::MAPPABLE_PRIMARY_BUFFERS)
}

/// `wgpu::Device::features`: whether the device has ray queries.
#[verifier::external_body]
pub(crate) fn has_ray_queries(device: &wgpu::Device) -> (has: bool)
    ensures
        has == device_has_ray_queries(*device),
{
    device.features().contains(wgpu::Features::EXPERIMENTAL_RAY_QUERY)
}

/// `wgpu::BufferUsages::bits`: the bits of a usage set.
#[verifier::external_body]
pub(crate) fn bits_of(usage: &wgpu::BufferUsages) -> (bits: u32)
    ensures
        bits == usage_bits(*usage),
{
    usage.bits()
}

/// `wgpu::BufferUsages::from_bits_retain`: the usage set with exactly the
/// given bits.
#[verifier::external_body]
pub(crate) fn usage_of(bits: u32) -> (usage: wgpu::BufferUsages)
    ensures
        usage_bits(usage) == bits,
{
    wgpu::BufferUsages::from_bits_retain(bits)
}

/// `wgpu::util::DeviceExt::create_buffer_init`: a new, unmapped buffer of
/// the device that starts with `contents`. Its length is that of `contents`
/// rounded up to a multiple of `COPY_ALIGNMENT`, the bytes behind the
/// contents are zero, and it records the usage set it was given. The
/// rounding adds 3 to the length, so the length leaves room for that. `wgpu`
/// asks for a usage set that the device accepts and for a size within the
/// device's limit.
#[verifier::external_body]
pub(crate) fn create_buffer_init(
    device: &wgpu::Device,
    contents: &[u8],
    usage: &wgpu::BufferUsages,
) -> (allocation: Allocation)
    requires
        contents@.len() + 3 <= u64::MAX,
        padded_size(contents@.len()) <= device_max_buffer_size(*device),
        usage_accepted(usage_bits(*usage), features_of(*device)),
    ensures
        buffer_size(allocation.handle()) == padded_size(contents@.len()),
        buffer_usage(allocation.handle()) == usage_bits(*usage),
        allocation.image() == padded_image(contents@),
        !allocation.mapped(),
        allocation.device() == *device,
{
    let buffer = wgpu::util::DeviceExt::create_buffer_init(
        device,
        &wgpu::util::BufferInitDescriptor { label: None, contents, usage: *usage },
    );
    Allocation {
        buffer,
        image: Ghost(padded_image(contents@)),
        mapped: Ghost(false),
        device: Ghost(*device),
    }
}

/// `wgpu::Device::create_buffer`: a new buffer of the device, of `size`
/// bytes, all zero, which records the size and the usage set it was given,
/// and which is mapped for the host where that was asked for. `wgpu` asks
/// for a usage set that the device accepts, for a size within the device's
/// limit, and, of a buffer that is mapped at creation, for a size that is a
/// multiple of `COPY_ALIGNMENT`.
#[verifier::external_body]
pub(crate) fn create_buffer(
    device: &wgpu::Device,
    size: u64,
    usage: &wgpu::BufferUsages,
    mapped_at_creation: bool,
) -> (allocation: Allocation)
    requires
        size <= device_max_buffer_size(*device),
        usage_accepted(usage_bits(*usage), features_of(*device)),
        mapped_at_creation ==> size % COPY_ALIGNMENT == 0,
    ensures
        buffer_size(allocation.handle()) == size,
        buffer_usage(allocation.handle()) == usage_bits(*usage),
        allocation.image() == zeros(size as nat),
        allocation.mapped() == mapped_at_creation,
        allocation.device() == *device,
{
    let buffer = device.create_buffer(
        &wgpu::BufferDescriptor { label: None, size, usage: *usage, mapped_at_creation },
    );
    Allocation {
        buffer,
        image: Ghost(zeros(size as nat)),
        mapped: Ghost(mapped_at_creation),
        device: Ghost(*device),
    }
}

/// `wgpu::Buffer::get_mapped_range_mut` for the bytes `offset..end`, and
/// `wgpu::BufferViewMut::copy_from_slice` into that view, which ends with
/// the call: the host writes `data` into a mapped buffer. `wgpu` asks that
/// the buffer is mapped, that the range starts at a multiple of
/// `MAP_ALIGNMENT`, has a length that is a multiple of `COPY_ALIGNMENT` and
/// lies inside the buffer, and that the data is as long as the range. With
/// these it refuses the range only where it has refused the allocation
/// itself, which it has then reported to the device's error handler; the
/// write is left out there.
#[verifier::external_body]
pub(crate) fn write_mapped(allocation: &mut Allocation, offset: u64, end: u64, data: &[u8])
    requires
        old(allocation).mapped(),
        offset % MAP_ALIGNMENT == 0,
        data@.len() % (COPY_ALIGNMENT as nat) == 0,
        offset + data@.len() == end,
        end <= old(allocation).size(),
    ensures
        final(allocation).handle() == old(allocation).handle(),
        final(allocation).device() == old(allocation).device(),
        final(allocation).mapped(),
        final(allocation).image() == write_at(old(allocation).image(), offset as nat, data@),
{
    if let Ok(mut view) = allocation.buffer.get_mapped_range_mut(offset..end) {
        view.copy_from_slice(data);
    }
    allocation.image = Ghost(write_at(allocation.image@, offset as nat, data@));
}

/// `wgpu::Buffer::unmap`: hands a mapped buffer to the device, with the
/// bytes that the host has written. `wgpu` asks that the buffer is mapped
/// and that no view of it is left, and no view outlives `write_mapped`.
#[verifier::external_body]
pub(crate) fn unmap(allocation: &mut Allocation)
    requires
        old(allocation).mapped(),
    ensures
        final(allocation).handle() == old(allocation).handle(),
        final(allocation).device() == old(allocation).device(),
        final(allocation).image() == old(allocation).image(),
        !final(allocation).mapped(),
{
    allocation.buffer.unmap();
    allocation.mapped = Ghost(false);
}

/// `wgpu::Queue::write_buffer`: schedules a write of `data` into the buffer
/// at `offset`, ahead of every command that is submitted later. The handle
/// stays the same. `wgpu` asks that the queue is that of the buffer's
/// device, that the buffer is not mapped and allows `COPY_DST`, that the
/// offset and the length are multiples of `COPY_ALIGNMENT`, and that the
/// write lies inside the buffer.
#[verifier::external_body]
pub(crate) fn write_buffer(
    queue: &wgpu::Queue,
    allocation: &mut Allocation,
    offset: u64,
    data: &[u8],
)
    requires
        queue_device(*queue) == old(allocation).device(),
        !old(allocation).mapped(),
        old(allocation).usage() & COPY_DST == COPY_DST,
        offset % COPY_ALIGNMENT == 0,
        data@.len() % (COPY_ALIGNMENT as nat) == 0,
        offset + data@.len() <= old(allocation).size(),
    ensures
        final(allocation).handle() == old(allocation).handle(),
        final(allocation).device() == queue_device(*queue),
        !final(allocation).mapped(),
        final(allocation).image() == write_at(old(allocation).image(), offset as nat, data@),
{
    queue.write_buffer(&allocation.buffer, offset, data);
    allocation.image = Ghost(write_at(allocation.image@, offset as nat, data@));
}

/// A device-side copy into a new buffer: `wgpu::Device::create_buffer` for a
/// buffer of `size` bytes, `wgpu::CommandEncoder::copy_buffer_to_buffer` for
/// `copy_size` bytes at `offset` of `source` to the same offset of the new
/// buffer, and `wgpu::Queue::submit` of that one command. The calls stand
/// together because only here is the target known to be a buffer of its own:
/// `wgpu` refuses a copy within one buffer, and a new buffer is none of those
/// that exist. `wgpu` asks that the queue and the source are of the device,
/// for a usage set that the device accepts and a size within its limit, for
/// usages of source and target that every device copies, that the source is
/// not mapped and allows `COPY_SRC` and the target `COPY_DST`, that the
/// offset and the copied length are multiples of `COPY_ALIGNMENT`, and that
/// the range lies inside both buffers. The new buffer is of the same device
/// and records the size and the usage set it was given; it holds the copied
/// bytes and is zero elsewhere.
#[verifier::external_body]
pub(crate) fn copy_to_new_buffer(
    device: &wgpu::Device,
    queue: &wgpu::Queue,
    source: &Allocation,
    size: u64,
    usage: &wgpu::BufferUsages,
    offset: u64,
    copy_size: u64,
) -> (allocation: Allocation)
    requires
        queue_device(*queue) == *device,
        source.device() == *device,
        size <= device_max_buffer_size(*device),
        usage_accepted(usage_bits(*usage), features_of(*device)),
        usage_copies(source.usage() | usage_bits(*usage)),
        !source.mapped(),
        source.usage() & COPY_SRC == COPY_SRC,
        usage_bits(*usage) & COPY_DST == COPY_DST,
        offset % COPY_ALIGNMENT == 0,
        copy_size % COPY_ALIGNMENT == 0,
        offset + copy_size <= source.size(),
        offset + copy_size <= size,
        source.image().len() == source.size(),
    ensures
        allocation.handle() != source.handle(),
        allocation.device() == queue_device(*queue),
        buffer_size(allocation.handle()) == size,
        buffer_usage(allocation.handle()) == usage_bits(*usage),
        !allocation.mapped(),
        allocation.image() == copied_image(
            source.image(),
            size as nat,
            offset as nat,
            (offset + copy_size) as nat,
        ),
{
    let buffer = device.create_buffer(
        &wgpu::BufferDescriptor { label: None, size, usage: *usage, mapped_at_creation: false },
    );
    let mut encoder = device.create_command_encoder(&wgpu::CommandEncoderDescriptor { label: None });
    encoder.copy_buffer_to_buffer(&source.buffer, offset, &buffer, offset, copy_size);
    queue.submit(Some(encoder.finish()));
    let image = Ghost(
        copied_image(source.image@, size as nat, offset as nat, (offset + copy_size) as nat),
    );
    Allocation { buffer, image, mapped: Ghost(false), device: Ghost(*device) }
}

} // verus!
