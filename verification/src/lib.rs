//! A growable, typed array that lives in a single GPU buffer: one header
//! record followed by densely packed elements.
//!
//! [`BufferVec`] appends, overwrites and snapshots through `wgpu`. The
//! modules [`layout`], [`growth`], [`plan`] and [`model`] hold the arithmetic
//! behind it as plain values, [`image`] the bytes of an allocation as a
//! sequence, and [`device`] the calls into `wgpu`.
//!
//! The operations ask what `wgpu` asks: a usage set that the device
//! accepts, sizes within the device's largest buffer, offsets and lengths on
//! its copy alignment, and resources of the device that made the vector.
//! [`BufferVec::try_new`], [`BufferVec::try_new_with_data`],
//! [`BufferVec::try_push_small`], [`BufferVec::try_write_partial_small`] and
//! [`BufferVec::try_copy_new`] test what can be tested and then call.

pub mod as_bytes;
pub mod buffer_vec;
pub mod device;
pub mod growth;
pub mod image;
pub mod layout;
pub mod model;
pub mod plan;

pub use as_bytes::AsBytes;
pub use buffer_vec::{BufferVec, GlobalRenderResources};
pub use layout::BufferLayout;
pub use model::BufferVecView;
pub use plan::{PushPlan, PushStategy, UploadStrategy};
