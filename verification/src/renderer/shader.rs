use core::marker::PhantomData;

use vstd::prelude::*;

use crate::{PhantomUnsend, PhantomUnsync};

verus! {

/// An opaque handle to a shader program owned by a renderer. Handles are
/// minted from a per-renderer counter and never reused; they carry
/// markers that keep them on the thread of the graphics context.
#[derive(Debug, Clone, Copy, PartialEq, Eq, Hash)]
pub struct ShaderID(pub(crate) u64, pub(crate) PhantomUnsend, pub(crate) PhantomUnsync);

impl View for ShaderID {
    type V = int;

    closed spec fn view(&self) -> int {
        self.0 as int
    }
}

impl ShaderID {
    pub(crate) fn make(value: u64) -> (r: ShaderID)
        ensures
            r@ == value as int,
    {
        ShaderID(value, PhantomData, PhantomData)
    }

    /// The numeric value of the handle.
    pub fn value(&self) -> (r: u64)
        ensures
            r as int == self@,
    {
        self.0
    }
}

/// The graphics driver's verdict on building a shader program: either
/// both stages compiled and linked, or the first failing step's
/// diagnostic log.
pub enum ShaderCompileOutcome {
    Linked,
    VertexCompileFailed(String),
    FragmentCompileFailed(String),
    LinkFailed(String),
}

/// A shader program registered with a renderer, with the sources it was
/// built from.
pub struct ShaderResource {
    pub(crate) id: ShaderID,
    pub(crate) vertex_source: String,
    pub(crate) fragment_source: String,
}

impl ShaderResource {
    pub(crate) fn make(id: ShaderID, vertex_source: String, fragment_source: String) -> (r:
        ShaderResource)
        ensures
            r.spec_id() == id@,
            r.spec_vertex_source() == vertex_source@,
            r.spec_fragment_source() == fragment_source@,
    {
        ShaderResource { id, vertex_source, fragment_source }
    }

    /// The handle value this resource is registered under.
    pub closed spec fn spec_id(&self) -> int {
        self.id@
    }

    /// The vertex stage source the program was built from.
    pub closed spec fn spec_vertex_source(&self) -> Seq<char> {
        self.vertex_source@
    }

    /// The fragment stage source the program was built from.
    pub closed spec fn spec_fragment_source(&self) -> Seq<char> {
        self.fragment_source@
    }

    pub fn get_id(&self) -> (r: ShaderID)
        ensures
            r@ == self.spec_id(),
    {
        self.id
    }

    /// The vertex stage source the program was built from.
    pub fn get_vertex_source(&self) -> (r: &String)
        ensures
            r@ == self.spec_vertex_source(),
    {
        &self.vertex_source
    }

    /// The fragment stage source the program was built from.
    pub fn get_fragment_source(&self) -> (r: &String)
        ensures
            r@ == self.spec_fragment_source(),
    {
        &self.fragment_source
    }
}

} // verus!
