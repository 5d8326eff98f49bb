use buffer_vec::device::{
    is_usage_accepted, is_usage_copied, DeviceFeatures, COPY_ALIGNMENT, COPY_DST, COPY_SRC, INDEX,
    INDEX_PARTNERS, MAP_ALIGNMENT, MAP_READ, MAP_WRITE, PLAIN_USAGES, RAY_USAGES,
};
use buffer_vec::{BufferLayout, BufferVec, GlobalRenderResources, PushStategy, UploadStrategy};

fn resources(strategy: UploadStrategy) -> GlobalRenderResources {
    let (device, queue) = wgpu::Device::noop(&wgpu::DeviceDescriptor::default());
    GlobalRenderResources::new(device, queue, strategy)
}

fn encoder(resources: &GlobalRenderResources) -> wgpu::CommandEncoder {
    resources.device().create_command_encoder(&wgpu::CommandEncoderDescriptor { label: None })
}

/// What the device holds in `buffer`, once everything queued so far has run.
fn read_back(resources: &GlobalRenderResources, buffer: &wgpu::Buffer) -> Vec<u8> {
    let size = buffer.size();
    let staging = resources.device().create_buffer(&wgpu::BufferDescriptor {
        label: None,
        size,
        usage: wgpu::BufferUsages::MAP_READ | wgpu::BufferUsages::COPY_DST,
        mapped_at_creation: false,
    });
    let mut copy = encoder(resources);
    copy.copy_buffer_to_buffer(buffer, 0, &staging, 0, size);
    resources.queue().submit(Some(copy.finish()));
    staging.map_async(wgpu::MapMode::Read, .., |result| result.unwrap());
    resources.device().poll(wgpu::PollType::wait_indefinitely()).unwrap();
    let bytes = staging.get_mapped_range(..).unwrap().to_vec();
    bytes
}

fn words(values: &[u32]) -> Vec<u8> {
    values.iter().flat_map(|value| value.to_le_bytes()).collect()
}

fn long_words(values: &[u64]) -> Vec<u8> {
    values.iter().flat_map(|value| value.to_le_bytes()).collect()
}

fn scenario(strategy: UploadStrategy) -> (GlobalRenderResources, BufferVec<u32, u32>) {
    let resources = resources(strategy);
    let vec = BufferVec::<u32, u32>::new_with_data(
        resources.device(),
        wgpu::BufferUsages::STORAGE,
        4,
        |_| (7, vec![1, 2, 3, 4]),
    );
    (resources, vec)
}

#[test]
fn device_constants_are_those_of_wgpu() {
    assert_eq!(COPY_ALIGNMENT, wgpu::COPY_BUFFER_ALIGNMENT);
    assert_eq!(MAP_ALIGNMENT, wgpu::MAP_ALIGNMENT);
    assert_eq!(COPY_SRC, wgpu::BufferUsages::COPY_SRC.bits());
    assert_eq!(COPY_DST, wgpu::BufferUsages::COPY_DST.bits());
    assert_eq!(INDEX, wgpu::BufferUsages::INDEX.bits());
    assert_eq!(MAP_READ, wgpu::BufferUsages::MAP_READ.bits());
    assert_eq!(MAP_WRITE, wgpu::BufferUsages::MAP_WRITE.bits());
    let partners = wgpu::BufferUsages::VERTEX
        | wgpu::BufferUsages::UNIFORM
        | wgpu::BufferUsages::STORAGE;
    assert_eq!(INDEX_PARTNERS, partners.bits());
    let plain = partners
        | wgpu::BufferUsages::INDEX
        | wgpu::BufferUsages::COPY_SRC
        | wgpu::BufferUsages::COPY_DST
        | wgpu::BufferUsages::MAP_READ
        | wgpu::BufferUsages::MAP_WRITE;
    assert_eq!(PLAIN_USAGES, plain.bits());
    let rays = wgpu::BufferUsages::BLAS_INPUT | wgpu::BufferUsages::TLAS_INPUT;
    assert_eq!(RAY_USAGES, rays.bits());
}

#[test]
fn usage_sets_that_a_device_accepts() {
    let bits = |usage: wgpu::BufferUsages| usage.bits();
    let plain = DeviceFeatures { maps_primary_buffers: false, ray_queries: false };
    let mapping = DeviceFeatures { maps_primary_buffers: true, ray_queries: false };
    let rays = DeviceFeatures { maps_primary_buffers: false, ray_queries: true };
    for features in [plain, mapping, rays] {
        assert!(is_usage_accepted(bits(wgpu::BufferUsages::COPY_DST), features));
        assert!(is_usage_accepted(
            bits(wgpu::BufferUsages::INDEX | wgpu::BufferUsages::VERTEX),
            features
        ));
        assert!(is_usage_accepted(
            bits(wgpu::BufferUsages::MAP_READ | wgpu::BufferUsages::COPY_DST),
            features
        ));
        assert!(is_usage_accepted(
            bits(wgpu::BufferUsages::MAP_WRITE | wgpu::BufferUsages::COPY_SRC),
            features
        ));
        assert!(is_usage_accepted(bits(wgpu::BufferUsages::MAP_WRITE), features));
        assert!(!is_usage_accepted(0, features));
        assert!(!is_usage_accepted(bits(wgpu::BufferUsages::INDIRECT), features));
        assert!(!is_usage_accepted(bits(wgpu::BufferUsages::QUERY_RESOLVE), features));
        assert!(!is_usage_accepted(1 << 20, features));
        assert!(!is_usage_accepted(u32::MAX, features));
    }
    let both = wgpu::BufferUsages::COPY_SRC | wgpu::BufferUsages::COPY_DST;
    for features in [plain, rays] {
        assert!(!is_usage_accepted(bits(wgpu::BufferUsages::MAP_READ | both), features));
        assert!(!is_usage_accepted(bits(wgpu::BufferUsages::MAP_WRITE | both), features));
        assert!(!is_usage_accepted(
            bits(wgpu::BufferUsages::MAP_WRITE | wgpu::BufferUsages::STORAGE),
            features
        ));
        assert!(!is_usage_accepted(PLAIN_USAGES, features));
    }
    assert!(is_usage_accepted(bits(wgpu::BufferUsages::MAP_READ | both), mapping));
    assert!(is_usage_accepted(bits(wgpu::BufferUsages::MAP_WRITE | both), mapping));
    assert!(is_usage_accepted(PLAIN_USAGES, mapping));
    for features in [plain, mapping] {
        assert!(!is_usage_accepted(bits(wgpu::BufferUsages::BLAS_INPUT), features));
        assert!(!is_usage_accepted(bits(wgpu::BufferUsages::TLAS_INPUT | both), features));
    }
    assert!(is_usage_accepted(bits(wgpu::BufferUsages::BLAS_INPUT), rays));
    assert!(is_usage_accepted(bits(wgpu::BufferUsages::TLAS_INPUT | both), rays));
    assert!(is_usage_accepted(RAY_USAGES, rays));
}

#[test]
fn usage_sets_that_every_device_copies() {
    let bits = |usage: wgpu::BufferUsages| usage.bits();
    assert!(is_usage_copied(bits(wgpu::BufferUsages::INDEX | wgpu::BufferUsages::COPY_SRC)));
    assert!(is_usage_copied(bits(wgpu::BufferUsages::VERTEX | wgpu::BufferUsages::STORAGE)));
    assert!(is_usage_copied(0));
    assert!(!is_usage_copied(bits(wgpu::BufferUsages::INDEX | wgpu::BufferUsages::VERTEX)));
    assert!(!is_usage_copied(bits(wgpu::BufferUsages::INDEX | wgpu::BufferUsages::UNIFORM)));
    assert!(!is_usage_copied(bits(wgpu::BufferUsages::INDEX | wgpu::BufferUsages::STORAGE)));
}

#[test]
fn try_new_refuses_what_the_device_refuses() {
    let resources = resources(UploadStrategy::Queued);
    let made = BufferVec::<u32, u32>::try_new(resources.device(), wgpu::BufferUsages::VERTEX, 7);
    let made = made.expect("a vertex buffer can be made");
    assert_eq!((made.len(), made.capacity(), made.allocation_size()), (0, 0, 4));
    assert_eq!(read_back(&resources, made.inner_buffer()), words(&[7]));
    let bare = BufferVec::<u32, u32>::try_new(resources.device(), wgpu::BufferUsages::empty(), 7);
    assert_eq!(
        bare.expect("the copy flags are added").inner_buffer().usage(),
        wgpu::BufferUsages::COPY_DST | wgpu::BufferUsages::COPY_SRC
    );
    let index = wgpu::BufferUsages::INDEX | wgpu::BufferUsages::VERTEX;
    let indexed = BufferVec::<u32, u32>::try_new(resources.device(), index, 7);
    let indexed = indexed.expect("an index and vertex buffer can be made");
    assert!(indexed.inner_buffer().usage().contains(index));
    assert!(!indexed.can_copy_new(&resources, true));
    assert!(indexed.try_copy_new(&resources, true).is_none());
    for refused in [
        wgpu::BufferUsages::MAP_READ,
        wgpu::BufferUsages::MAP_WRITE,
        wgpu::BufferUsages::INDIRECT,
        wgpu::BufferUsages::QUERY_RESOLVE,
        wgpu::BufferUsages::BLAS_INPUT,
    ] {
        assert!(BufferVec::<u32, u32>::try_new(resources.device(), refused, 7).is_none());
        assert!(!BufferVec::<u32, u32>::can_allocate_on(resources.device(), &refused, 0));
    }
}

#[test]
fn an_allocation_off_the_copy_alignment_is_refused() {
    let resources = resources(UploadStrategy::Queued);
    let usage = wgpu::BufferUsages::STORAGE;
    assert!(BufferVec::<u8, u8>::try_new(resources.device(), usage, 9).is_none());
    assert!(BufferVec::<u8, u32>::try_new(resources.device(), usage, 9).is_none());
    assert!(BufferVec::<u16, u16>::try_new(resources.device(), usage, 9).is_none());
    assert!(!BufferVec::<u8, u16>::can_allocate_on(resources.device(), &usage, 2));
    assert!(BufferVec::<u8, u8>::can_allocate_on(resources.device(), &usage, 3));
    assert!(!BufferVec::<u32, u16>::can_allocate_on(resources.device(), &usage, 1));
    assert!(BufferVec::<u32, u16>::can_allocate_on(resources.device(), &usage, 2));
    let mut called = false;
    let refused = BufferVec::<u8, u16>::try_new_with_data(resources.device(), usage, 2, |_| {
        called = true;
        (1, vec![2, 3])
    });
    assert!(refused.is_none());
    assert!(!called);
    let exact = BufferVec::<u8, u8>::try_new_with_data(resources.device(), usage, 3, |_| {
        (1, vec![2, 3, 4])
    });
    let exact = exact.expect("four bytes can be filled");
    assert_eq!((exact.len(), exact.capacity(), exact.allocation_size()), (3, 3, 4));
    assert_eq!(read_back(&resources, exact.inner_buffer()), vec![1, 2, 3, 4]);
}

#[test]
fn the_allocation_is_exactly_the_header_and_the_capacity() {
    let resources = resources(UploadStrategy::Queued);
    let usage = wgpu::BufferUsages::STORAGE;
    let mut vec = BufferVec::<u64, u32>::new(resources.device(), usage, 9);
    assert_eq!(vec.allocation_size(), 8 + 4 * vec.capacity());
    for batch in [&[1u32, 2][..], &[3], &[4, 5, 6, 7, 8], &[]] {
        let _ = vec.push_small(&resources, &mut encoder(&resources), batch);
        assert_eq!(vec.allocation_size(), 8 + 4 * vec.capacity());
        assert_eq!(vec.inner_buffer().size(), 8 + 4 * vec.capacity());
    }
    let copy = vec.copy_new(&resources, false);
    assert_eq!(copy.allocation_size(), 8 + 4 * copy.capacity());
    let filled = BufferVec::<u64, u32>::new_with_data(resources.device(), usage, 6, |_| {
        (9, vec![1, 2, 3, 4, 5, 6])
    });
    assert_eq!(filled.allocation_size(), 8 + 4 * 6);
    let empty = BufferVec::<(), u32>::new_with_data(resources.device(), usage, 0, |_| {
        ((), Vec::new())
    });
    assert_eq!((empty.len(), empty.capacity(), empty.allocation_size()), (0, 0, 0));
}

#[test]
fn constructors_keep_to_the_largest_buffer_of_the_device() {
    let resources = resources(UploadStrategy::Queued);
    let limit = resources.device().limits().max_buffer_size;
    let usage = wgpu::BufferUsages::STORAGE;
    assert!(BufferVec::<u32, u32>::can_allocate_on(resources.device(), &usage, 0));
    assert!(BufferVec::<u32, u32>::can_allocate_on(resources.device(), &usage, limit / 4 - 1));
    assert!(!BufferVec::<u32, u32>::can_allocate_on(resources.device(), &usage, limit / 4));
    assert!(!BufferVec::<u32, u32>::can_allocate_on(resources.device(), &usage, u64::MAX));
    assert!(BufferVec::<u8, u8>::can_allocate_on(resources.device(), &usage, limit - 1));
    assert!(!BufferVec::<u8, u8>::can_allocate_on(resources.device(), &usage, limit));
    let mut called = false;
    let refused = BufferVec::<u32, u32>::try_new_with_data(
        resources.device(),
        usage,
        limit / 4,
        |_| {
            called = true;
            (7, Vec::new())
        },
    );
    assert!(refused.is_none());
    assert!(!called);
}

#[test]
fn try_new_with_data_counts_what_the_fill_gives() {
    let resources = resources(UploadStrategy::Queued);
    let usage = wgpu::BufferUsages::STORAGE;
    let made = BufferVec::<u32, u32>::try_new_with_data(resources.device(), usage, 2, |_| {
        (7, vec![1, 2])
    });
    let made = made.expect("two elements were asked for and given");
    assert_eq!((made.len(), made.capacity()), (2, 2));
    assert_eq!(read_back(&resources, made.inner_buffer()), words(&[7, 1, 2]));
    let short = BufferVec::<u32, u32>::try_new_with_data(resources.device(), usage, 2, |_| {
        (7, vec![1])
    });
    assert!(short.is_none());
    let long = BufferVec::<u32, u32>::try_new_with_data(resources.device(), usage, 2, |_| {
        (7, vec![1, 2, 3])
    });
    assert!(long.is_none());
}

#[test]
fn new_is_empty_and_holds_the_header() {
    let resources = resources(UploadStrategy::Queued);
    let vec = BufferVec::<u32, u32>::new(resources.device(), wgpu::BufferUsages::VERTEX, 7);
    assert_eq!(vec.len(), 0);
    assert_eq!(vec.capacity(), 0);
    assert_eq!(vec.allocation_size(), 4);
    assert_eq!(vec.inner_buffer().size(), 4);
    assert_eq!(read_back(&resources, vec.inner_buffer()), words(&[7]));
}

#[test]
fn new_adds_both_copy_flags_to_the_usage() {
    let resources = resources(UploadStrategy::Queued);
    let vec = BufferVec::<u32, u32>::new(resources.device(), wgpu::BufferUsages::VERTEX, 7);
    assert_eq!(
        vec.inner_buffer().usage(),
        wgpu::BufferUsages::VERTEX | wgpu::BufferUsages::COPY_DST | wgpu::BufferUsages::COPY_SRC
    );
    let plain = BufferVec::<u32, u32>::new(resources.device(), wgpu::BufferUsages::COPY_DST, 7);
    assert_eq!(
        plain.inner_buffer().usage(),
        wgpu::BufferUsages::COPY_DST | wgpu::BufferUsages::COPY_SRC
    );
}

#[test]
fn new_with_a_unit_header_allocates_nothing() {
    let resources = resources(UploadStrategy::Queued);
    let vec = BufferVec::<(), u32>::new(resources.device(), wgpu::BufferUsages::STORAGE, ());
    assert_eq!(vec.len(), 0);
    assert_eq!(vec.capacity(), 0);
    assert_eq!(vec.allocation_size(), 0);
}

#[test]
fn new_with_data_holds_header_and_elements() {
    let (resources, vec) = scenario(UploadStrategy::Queued);
    assert_eq!(vec.len(), 4);
    assert_eq!(vec.capacity(), 4);
    assert_eq!(vec.allocation_size(), 20);
    assert_eq!(read_back(&resources, vec.inner_buffer()), words(&[7, 1, 2, 3, 4]));
    assert!(vec.inner_buffer().usage().contains(
        wgpu::BufferUsages::STORAGE | wgpu::BufferUsages::COPY_DST | wgpu::BufferUsages::COPY_SRC
    ));
}

#[test]
fn new_with_data_passes_the_count_to_the_fill() {
    let resources = resources(UploadStrategy::Queued);
    let vec = BufferVec::<u32, u32>::new_with_data(
        resources.device(),
        wgpu::BufferUsages::STORAGE,
        3,
        |count| (count as u32, (10..10 + count as u32).collect()),
    );
    assert_eq!(vec.len(), 3);
    assert_eq!(vec.capacity(), 3);
    assert_eq!(read_back(&resources, vec.inner_buffer()), words(&[3, 10, 11, 12]));
}

#[test]
fn new_with_data_of_no_elements() {
    let resources = resources(UploadStrategy::Queued);
    let vec = BufferVec::<u32, u32>::new_with_data(
        resources.device(),
        wgpu::BufferUsages::STORAGE,
        0,
        |_| (7, Vec::new()),
    );
    assert_eq!(vec.len(), 0);
    assert_eq!(vec.capacity(), 0);
    assert_eq!(read_back(&resources, vec.inner_buffer()), words(&[7]));
}

#[test]
fn push_beyond_capacity_reallocates_queued() {
    let (resources, mut vec) = scenario(UploadStrategy::Queued);
    let strategy = vec.push_small(&resources, &mut encoder(&resources), &[5, 6]);
    assert_eq!(strategy, PushStategy::Realloc);
    assert_eq!(vec.capacity(), 8);
    assert_eq!(vec.len(), 6);
    assert_eq!(vec.allocation_size(), 36);
}

#[test]
fn push_beyond_capacity_reallocates_mapped() {
    let (resources, mut vec) = scenario(UploadStrategy::Mapped);
    let strategy = vec.push_small(&resources, &mut encoder(&resources), &[5, 6]);
    assert_eq!(strategy, PushStategy::Realloc);
    assert_eq!(vec.capacity(), 8);
    assert_eq!(vec.len(), 6);
    assert_eq!(vec.allocation_size(), 36);
}

#[test]
fn reallocation_carries_only_the_new_batch() {
    for strategy in [UploadStrategy::Queued, UploadStrategy::Mapped] {
        let (resources, mut vec) = scenario(strategy);
        let _ = vec.push_small(&resources, &mut encoder(&resources), &[5, 6]);
        assert_eq!(
            read_back(&resources, vec.inner_buffer()),
            words(&[0, 0, 0, 0, 0, 5, 6, 0, 0])
        );
    }
}

#[test]
fn reallocation_keeps_the_usage() {
    let (resources, mut vec) = scenario(UploadStrategy::Queued);
    let before = vec.inner_buffer().usage();
    let _ = vec.push_small(&resources, &mut encoder(&resources), &[5, 6]);
    assert_eq!(vec.inner_buffer().usage(), before);
}

#[test]
fn mapped_and_queued_uploads_agree() {
    let mut images = Vec::new();
    for strategy in [UploadStrategy::Queued, UploadStrategy::Mapped] {
        let resources = resources(strategy);
        let mut vec = BufferVec::<u64, u64>::new(resources.device(), wgpu::BufferUsages::STORAGE, 9);
        let first = vec.push_small(&resources, &mut encoder(&resources), &[1, 2, 3]);
        assert_eq!(first, PushStategy::Realloc);
        assert_eq!(vec.capacity(), 8);
        assert_eq!(vec.len(), 3);
        assert_eq!(vec.allocation_size(), 72);
        images.push(read_back(&resources, vec.inner_buffer()));
    }
    assert_eq!(images[0], long_words(&[0, 1, 2, 3, 0, 0, 0, 0, 0]));
    assert_eq!(images[1], images[0]);
}

#[test]
fn pushes_that_fit_are_made_in_place() {
    let resources = resources(UploadStrategy::Queued);
    let mut vec = BufferVec::<u32, u32>::new(resources.device(), wgpu::BufferUsages::STORAGE, 7);
    let first = vec.push_small(&resources, &mut encoder(&resources), &[1, 2, 3]);
    assert_eq!(first, PushStategy::Realloc);
    assert_eq!((vec.len(), vec.capacity()), (3, 8));
    let buffer = vec.inner_buffer().clone();
    let mut expected_len = 3;
    for batch in [&[4u32][..], &[5, 6], &[], &[7, 8]] {
        let strategy = vec.push_small(&resources, &mut encoder(&resources), batch);
        expected_len += batch.len() as u64;
        assert_eq!(strategy, PushStategy::InPlace);
        assert_eq!(vec.len(), expected_len);
        assert_eq!(vec.capacity(), 8);
        assert_eq!(vec.inner_buffer(), &buffer);
    }
    assert_eq!(vec.len(), 8);
    assert_eq!(
        read_back(&resources, vec.inner_buffer()),
        words(&[0, 1, 2, 3, 4, 5, 6, 7, 8])
    );
    let full = vec.push_small(&resources, &mut encoder(&resources), &[9]);
    assert_eq!(full, PushStategy::Realloc);
    assert_eq!((vec.len(), vec.capacity()), (9, 16));
    assert_ne!(vec.inner_buffer(), &buffer);
}

#[test]
fn a_large_batch_sets_the_capacity() {
    let resources = resources(UploadStrategy::Queued);
    let mut vec = BufferVec::<u32, u32>::new(resources.device(), wgpu::BufferUsages::STORAGE, 7);
    let batch: Vec<u32> = (0..20).collect();
    let strategy = vec.push_small(&resources, &mut encoder(&resources), &batch);
    assert_eq!(strategy, PushStategy::Realloc);
    assert_eq!((vec.len(), vec.capacity()), (20, 64));
    assert_eq!(vec.allocation_size(), 4 + 64 * 4);
}

#[test]
fn write_partial_overwrites_committed_elements() {
    let (resources, mut vec) = scenario(UploadStrategy::Queued);
    vec.write_partial_small(&resources, 1, &[20, 30]);
    assert_eq!(vec.len(), 4);
    assert_eq!(vec.capacity(), 4);
    assert_eq!(read_back(&resources, vec.inner_buffer()), words(&[7, 1, 20, 30, 4]));
    vec.write_partial_small(&resources, 0, &[10, 11, 12, 13]);
    assert_eq!(read_back(&resources, vec.inner_buffer()), words(&[7, 10, 11, 12, 13]));
    vec.write_partial_small(&resources, 3, &[40]);
    vec.write_partial_small(&resources, 4, &[]);
    assert_eq!(read_back(&resources, vec.inner_buffer()), words(&[7, 10, 11, 12, 40]));
    assert_eq!(vec.len(), 4);
}

#[test]
fn copy_new_with_the_header() {
    let (resources, vec) = scenario(UploadStrategy::Queued);
    let copy = vec.copy_new(&resources, true);
    assert_eq!(copy.len(), 4);
    assert_eq!(copy.capacity(), 4);
    assert_eq!(copy.allocation_size(), 20);
    assert_ne!(copy.inner_buffer(), vec.inner_buffer());
    assert_eq!(copy.inner_buffer().usage(), vec.inner_buffer().usage());
    assert_eq!(read_back(&resources, copy.inner_buffer()), words(&[7, 1, 2, 3, 4]));
    assert_eq!(read_back(&resources, vec.inner_buffer()), words(&[7, 1, 2, 3, 4]));
}

#[test]
fn copy_new_without_the_header() {
    let (resources, vec) = scenario(UploadStrategy::Queued);
    let copy = vec.copy_new(&resources, false);
    assert_eq!(copy.len(), 4);
    assert_eq!(copy.capacity(), 4);
    assert_eq!(copy.allocation_size(), 20);
    let image = read_back(&resources, copy.inner_buffer());
    assert_eq!(image[4..], words(&[1, 2, 3, 4]));
}

#[test]
fn copy_new_is_sized_by_the_length() {
    let resources = resources(UploadStrategy::Queued);
    let mut vec = BufferVec::<u32, u32>::new(resources.device(), wgpu::BufferUsages::STORAGE, 7);
    let _ = vec.push_small(&resources, &mut encoder(&resources), &[1, 2, 3]);
    assert_eq!((vec.len(), vec.capacity()), (3, 8));
    let copy = vec.copy_new(&resources, true);
    assert_eq!((copy.len(), copy.capacity()), (3, 3));
    assert_eq!(copy.allocation_size(), 16);
    assert_eq!(read_back(&resources, copy.inner_buffer()), words(&[0, 1, 2, 3]));
}

#[test]
fn copy_new_is_independent_of_its_source() {
    let (resources, mut vec) = scenario(UploadStrategy::Queued);
    let copy = vec.copy_new(&resources, true);
    vec.write_partial_small(&resources, 0, &[9, 9, 9, 9]);
    assert_eq!(read_back(&resources, copy.inner_buffer()), words(&[7, 1, 2, 3, 4]));
    assert_eq!(read_back(&resources, vec.inner_buffer()), words(&[7, 9, 9, 9, 9]));
}

#[test]
fn clear_resets_the_length_only() {
    let (resources, mut vec) = scenario(UploadStrategy::Queued);
    let buffer = vec.inner_buffer().clone();
    vec.clear();
    assert_eq!(vec.len(), 0);
    assert_eq!(vec.capacity(), 4);
    assert_eq!(vec.inner_buffer(), &buffer);
    assert_eq!(read_back(&resources, vec.inner_buffer()), words(&[7, 1, 2, 3, 4]));
    vec.clear();
    assert_eq!(vec.len(), 0);
    assert_eq!(vec.capacity(), 4);
    assert_eq!(vec.allocation_size(), 20);
}

#[test]
fn push_after_clear_reuses_the_allocation() {
    let (resources, mut vec) = scenario(UploadStrategy::Queued);
    vec.clear();
    let strategy = vec.push_small(&resources, &mut encoder(&resources), &[8, 9]);
    assert_eq!(strategy, PushStategy::InPlace);
    assert_eq!((vec.len(), vec.capacity()), (2, 4));
    assert_eq!(read_back(&resources, vec.inner_buffer()), words(&[7, 8, 9, 3, 4]));
    vec.clear();
    let grown = vec.push_small(&resources, &mut encoder(&resources), &[1, 2, 3, 4, 5]);
    assert_eq!(grown, PushStategy::Realloc);
    assert_eq!((vec.len(), vec.capacity()), (5, 16));
}

#[test]
fn layout_of_the_scenario() {
    let layout = BufferLayout::of::<u32, u32>();
    assert!(layout.is_aligned());
    assert_eq!(layout.element_offset(4), 20);
}

#[test]
fn word_sized_batches_can_be_pushed_up_to_the_limits() {
    let (resources, vec) = scenario(UploadStrategy::Queued);
    assert_eq!(resources.device().limits().max_buffer_size, 1 << 28);
    for count in [0, 1, 2, 5, 1000, 1 << 24] {
        assert!(vec.can_push_small(&resources, count));
    }
    assert!(!vec.can_push_small(&resources, (1 << 24) + 1));
    assert!(!vec.can_push_small(&resources, 1 << 25));
    assert!(!vec.can_push_small(&resources, 1 << 40));
    assert!(!vec.can_push_small(&resources, 1 << 61));
    assert!(!vec.can_push_small(&resources, (1 << 62) + 1));
    assert!(!vec.can_push_small(&resources, u64::MAX));
}

#[test]
fn a_batch_off_the_copy_alignment_cannot_be_pushed() {
    let resources = resources(UploadStrategy::Queued);
    let mut vec = BufferVec::<u32, u16>::new(resources.device(), wgpu::BufferUsages::STORAGE, 7);
    assert!(!vec.can_push_small(&resources, 1));
    assert!(vec.can_push_small(&resources, 2));
    assert!(!vec.can_push_small(&resources, 3));
    assert!(vec.can_push_small(&resources, 4));
    let strategy = vec.push_small(&resources, &mut encoder(&resources), &[0x0201, 0x0403]);
    assert_eq!(strategy, PushStategy::Realloc);
    assert_eq!((vec.len(), vec.capacity(), vec.allocation_size()), (2, 4, 12));
    assert_eq!(
        read_back(&resources, vec.inner_buffer()),
        vec![0, 0, 0, 0, 1, 2, 3, 4, 0, 0, 0, 0]
    );
    let bytes = BufferVec::<u32, u8>::new(resources.device(), wgpu::BufferUsages::STORAGE, 7);
    assert!(!bytes.can_push_small(&resources, 1));
    assert!(!bytes.can_push_small(&resources, 3));
    assert!(bytes.can_push_small(&resources, 4));
    assert!(bytes.can_push_small(&resources, 0));
}

#[test]
fn partial_writes_are_confined_to_the_committed_elements() {
    let (_resources, mut vec) = scenario(UploadStrategy::Queued);
    assert!(vec.can_write_partial_small(0, 4));
    assert!(vec.can_write_partial_small(3, 1));
    assert!(vec.can_write_partial_small(4, 0));
    assert!(!vec.can_write_partial_small(4, 1));
    assert!(!vec.can_write_partial_small(0, 5));
    assert!(!vec.can_write_partial_small(5, 0));
    assert!(!vec.can_write_partial_small(u64::MAX, 1));
    assert!(!vec.can_write_partial_small(1, u64::MAX));
    vec.clear();
    assert!(vec.can_write_partial_small(0, 0));
    assert!(!vec.can_write_partial_small(0, 1));
}

#[test]
fn partial_writes_keep_to_the_copy_alignment() {
    let resources = resources(UploadStrategy::Queued);
    let vec = BufferVec::<u32, u16>::new_with_data(
        resources.device(),
        wgpu::BufferUsages::STORAGE,
        4,
        |_| (7, vec![1, 2, 3, 4]),
    );
    assert!(vec.can_write_partial_small(0, 2));
    assert!(vec.can_write_partial_small(2, 2));
    assert!(vec.can_write_partial_small(0, 4));
    assert!(!vec.can_write_partial_small(1, 2));
    assert!(!vec.can_write_partial_small(0, 1));
    assert!(!vec.can_write_partial_small(0, 3));
}

#[test]
fn snapshots_keep_to_the_copy_alignment() {
    let (resources, vec) = scenario(UploadStrategy::Queued);
    assert!(vec.can_copy_new(&resources, true));
    assert!(vec.can_copy_new(&resources, false));
    let short_header = BufferVec::<u16, u16>::new_with_data(
        resources.device(),
        wgpu::BufferUsages::STORAGE,
        3,
        |_| (7, vec![1, 2, 3]),
    );
    assert!(short_header.can_copy_new(&resources, true));
    assert!(!short_header.can_copy_new(&resources, false));
}

#[test]
fn a_snapshot_of_an_empty_vector() {
    let resources = resources(UploadStrategy::Queued);
    let vec = BufferVec::<u32, u32>::new(resources.device(), wgpu::BufferUsages::STORAGE, 7);
    let copy = vec.copy_new(&resources, true);
    assert_eq!((copy.len(), copy.capacity(), copy.allocation_size()), (0, 0, 4));
    assert_eq!(read_back(&resources, copy.inner_buffer()), words(&[7]));
    let bare = vec.copy_new(&resources, false);
    assert_eq!((bare.len(), bare.capacity(), bare.allocation_size()), (0, 0, 4));
    assert_eq!(read_back(&resources, bare.inner_buffer()), words(&[0]));
}

#[test]
fn try_push_small_leaves_a_refused_batch_out() {
    let resources = resources(UploadStrategy::Queued);
    let mut vec = BufferVec::<u32, u16>::new_with_data(
        resources.device(),
        wgpu::BufferUsages::STORAGE,
        2,
        |_| (7, vec![1, 2]),
    );
    let buffer = vec.inner_buffer().clone();
    let before = read_back(&resources, vec.inner_buffer());
    assert_eq!(vec.try_push_small(&resources, &mut encoder(&resources), &[3]), None);
    assert_eq!((vec.len(), vec.capacity()), (2, 2));
    assert_eq!(vec.inner_buffer(), &buffer);
    assert_eq!(read_back(&resources, vec.inner_buffer()), before);
    assert_eq!(
        vec.try_push_small(&resources, &mut encoder(&resources), &[3, 4]),
        Some(PushStategy::Realloc)
    );
    assert_eq!((vec.len(), vec.capacity()), (4, 4));
    assert_eq!(
        vec.try_push_small(&resources, &mut encoder(&resources), &[]),
        Some(PushStategy::InPlace)
    );
}

#[test]
fn try_write_partial_small_beyond_the_length_writes_nothing() {
    let (resources, mut vec) = scenario(UploadStrategy::Queued);
    let buffer = vec.inner_buffer().clone();
    for (start, data) in [(4, &[9u32][..]), (3, &[9, 9]), (0, &[9, 9, 9, 9, 9]), (5, &[]), (u64::MAX, &[9])] {
        assert!(!vec.try_write_partial_small(&resources, start, data));
        assert_eq!((vec.len(), vec.capacity()), (4, 4));
        assert_eq!(vec.inner_buffer(), &buffer);
        assert_eq!(read_back(&resources, vec.inner_buffer()), words(&[7, 1, 2, 3, 4]));
    }
    assert!(vec.try_write_partial_small(&resources, 3, &[9]));
    assert_eq!(read_back(&resources, vec.inner_buffer()), words(&[7, 1, 2, 3, 9]));
    assert_eq!((vec.len(), vec.capacity()), (4, 4));
}

#[test]
fn try_copy_new_refuses_a_range_off_the_copy_alignment() {
    let resources = resources(UploadStrategy::Queued);
    let vec = BufferVec::<u16, u16>::new_with_data(
        resources.device(),
        wgpu::BufferUsages::STORAGE,
        3,
        |_| (7, vec![1, 2, 3]),
    );
    assert!(vec.try_copy_new(&resources, false).is_none());
    let copy = vec.try_copy_new(&resources, true).expect("eight bytes can be copied");
    assert_ne!(copy.inner_buffer(), vec.inner_buffer());
    assert_eq!((copy.len(), copy.capacity(), copy.allocation_size()), (3, 3, 8));
    assert_eq!(read_back(&resources, copy.inner_buffer()), vec![7, 0, 1, 0, 2, 0, 3, 0]);
}

#[test]
fn a_snapshot_and_its_source_change_apart() {
    let (resources, mut vec) = scenario(UploadStrategy::Queued);
    let mut copy = vec.copy_new(&resources, true);
    assert_ne!(copy.inner_buffer(), vec.inner_buffer());
    let _ = copy.push_small(&resources, &mut encoder(&resources), &[5, 6]);
    assert_eq!((vec.len(), vec.capacity()), (4, 4));
    assert_eq!(read_back(&resources, vec.inner_buffer()), words(&[7, 1, 2, 3, 4]));
    vec.clear();
    vec.write_partial_small(&resources, 0, &[]);
    assert_eq!((copy.len(), copy.capacity()), (6, 8));
    assert_eq!(
        read_back(&resources, copy.inner_buffer()),
        words(&[0, 0, 0, 0, 0, 5, 6, 0, 0])
    );
}
