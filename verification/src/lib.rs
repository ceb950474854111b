//! A minimal rendering core: a small fixed-point math library (vectors,
//! generic matrices, projection transforms), opaque typed resource handles,
//! a renderer that owns per-handle resource tables and records the GPU
//! work it decides on as explicit commands, and a per-frame draw context
//! that composes camera, model and projection transforms into draw calls.
//!
//! The crate itself performs no GPU or OS calls: a host program creates the
//! window and graphics context, feeds window messages into [`platform::Surface`],
//! and executes the [`renderer::GpuCommand`] values that the renderer emits.

use vstd::prelude::*;

pub mod math;
pub mod platform;
pub mod renderer;
pub mod scene;

verus! {

/// Marker field type that keeps a handle from being shared across
/// threads: the native graphics context is thread-affine.
pub type PhantomUnsync = core::marker::PhantomData<std::rc::Rc<()>>;

/// Marker field type that keeps a handle from being sent to another
/// thread: the native graphics context is thread-affine.
pub type PhantomUnsend = core::marker::PhantomData<std::rc::Rc<()>>;

} // verus!
