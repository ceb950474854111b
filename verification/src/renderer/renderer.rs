use vstd::prelude::*;

use crate::math::{Fixed, Matrix4x4, Scalar, Vector2, Vector3, Vector4};
use crate::platform::Surface;
use crate::renderer::{
    draw_command_matches, pixels_count_m, stride_m, stride_of, vertex_count_m, GpuCommand,
    HandleMap, IndexBufferID, IndexBufferResource, Pixels, ShaderCompileOutcome, ShaderID,
    ShaderResource, TextureID, TextureResource, VertexBufferElement, VertexBufferID,
    VertexBufferResource,
};
use crate::scene::Camera;

verus! {

/// Which native graphics interface a renderer drives.
#[derive(Clone, Copy, PartialEq, Eq, Structural)]
pub enum RendererAPI {
    OpenGL,
}

/// A history of minted handle values: pairwise distinct, all at least one
/// and below the next value to mint, and covering every live key.
pub open spec fn history_wf(history: Seq<int>, next: int, dom: Set<int>) -> bool {
    &&& 1 <= next
    &&& (forall|i: int, j: int| 0 <= i < j < history.len() ==> history[i] != history[j])
    &&& (forall|i: int| 0 <= i < history.len() ==> 1 <= #[trigger] history[i] < next)
    &&& (forall|k: int| #[trigger] dom.contains(k) ==> history.contains(k))
}

/// Minting the next value keeps a history well formed: the value is new
/// to the history and to the live keys.
proof fn lemma_mint(history: Seq<int>, next: int, dom: Set<int>)
    requires
        history_wf(history, next, dom),
    ensures
        history_wf(history.push(next), next + 1, dom.insert(next)),
        !dom.contains(next),
        !history.contains(next),
{
    if history.contains(next) {
        let j = choose|j: int| 0 <= j < history.len() && history[j] == next;
        assert(false);
    }
    if dom.contains(next) {
        assert(history.contains(next));
    }
    let pushed = history.push(next);
    assert forall|i: int, j: int| 0 <= i < j < pushed.len() implies pushed[i] != pushed[j] by {
        if j == pushed.len() - 1 {
            assert(pushed[i] == history[i]);
        }
    }
    assert forall|k: int| #[trigger] dom.insert(next).contains(k) implies pushed.contains(k) by {
        if k == next {
            assert(pushed[pushed.len() - 1] == next);
        } else {
            assert(dom.contains(k));
            let j = choose|j: int| 0 <= j < history.len() && history[j] == k;
            assert(pushed[j] == k);
        }
    }
}

/// One table of resources together with its minting history.
pub open spec fn kind_wf<T>(map: HandleMap<T>, history: Seq<int>, next: int) -> bool {
    map.wf() && history_wf(history, next, map@.dom())
}

/// The renderer: it owns the window model, the per-kind tables from
/// handle to resource, the one default texture, and the queue of GPU
/// commands it has decided on but a host program has yet to perform.
///
/// Handles are minted from per-kind counters that start at one and only
/// ever grow, so a destroyed handle's value is never reused and a stale
/// handle can never alias a live resource.
pub struct Renderer {
    /// The window model this renderer presents into.
    pub window: Surface,
    pub(crate) api: RendererAPI,
    pub(crate) next_shader_id: u64,
    pub(crate) shaders: HandleMap<ShaderResource>,
    pub(crate) shader_history: Ghost<Seq<int>>,
    pub(crate) next_vertex_buffer_id: u64,
    pub(crate) vertex_buffers: HandleMap<VertexBufferResource>,
    pub(crate) vertex_buffer_history: Ghost<Seq<int>>,
    pub(crate) next_index_buffer_id: u64,
    pub(crate) index_buffers: HandleMap<IndexBufferResource>,
    pub(crate) index_buffer_history: Ghost<Seq<int>>,
    pub(crate) next_texture_id: u64,
    pub(crate) textures: HandleMap<TextureResource>,
    pub(crate) texture_history: Ghost<Seq<int>>,
    pub(crate) default_white_pixel: TextureResource,
    pub(crate) commands: Vec<GpuCommand>,
}

impl Renderer {
    /// The shader table.
    pub closed spec fn shaders_v(self) -> Map<int, ShaderResource> {
        self.shaders@
    }

    /// Every shader handle value ever minted, in order.
    pub closed spec fn shader_ids(self) -> Seq<int> {
        self.shader_history@
    }

    /// The vertex buffer table.
    pub closed spec fn vertex_buffers_v(self) -> Map<int, VertexBufferResource> {
        self.vertex_buffers@
    }

    /// Every vertex buffer handle value ever minted, in order.
    pub closed spec fn vertex_buffer_ids(self) -> Seq<int> {
        self.vertex_buffer_history@
    }

    /// The index buffer table.
    pub closed spec fn index_buffers_v(self) -> Map<int, IndexBufferResource> {
        self.index_buffers@
    }

    /// Every index buffer handle value ever minted, in order.
    pub closed spec fn index_buffer_ids(self) -> Seq<int> {
        self.index_buffer_history@
    }

    /// The texture table (the default texture lives outside it).
    pub closed spec fn textures_v(self) -> Map<int, TextureResource> {
        self.textures@
    }

    /// Every texture handle value ever minted, in order; the default
    /// texture's is the first.
    pub closed spec fn texture_ids(self) -> Seq<int> {
        self.texture_history@
    }

    /// The handle value of the built-in 1x1 opaque white texture used
    /// when a draw call has no texture.
    pub closed spec fn default_texture_id(self) -> int {
        self.default_white_pixel.spec_id()
    }

    /// The default texture resource.
    pub closed spec fn spec_default_texture(self) -> TextureResource {
        self.default_white_pixel
    }

    /// The GPU commands recorded and not yet drained.
    pub closed spec fn commands_v(self) -> Seq<GpuCommand> {
        self.commands@
    }

    /// The window model.
    pub closed spec fn spec_window(self) -> Surface {
        self.window
    }

    /// The graphics interface selected at construction.
    pub closed spec fn spec_api(self) -> RendererAPI {
        self.api
    }

    /// The tables, histories and counters are consistent: unique keys,
    /// never-reused monotonic handle values, and each resource
    /// remembering the handle it is registered under.
    pub closed spec fn wf(self) -> bool {
        &&& kind_wf(self.shaders, self.shader_history@, self.next_shader_id as int)
        &&& (forall|k: int|
            #[trigger] self.shaders@.dom().contains(k) ==> self.shaders@[k].spec_id() == k)
        &&& kind_wf(self.vertex_buffers, self.vertex_buffer_history@, self.next_vertex_buffer_id as int)
        &&& (forall|k: int|
            #[trigger] self.vertex_buffers@.dom().contains(k) ==> self.vertex_buffers@[k].spec_id()
                == k)
        &&& kind_wf(self.index_buffers, self.index_buffer_history@, self.next_index_buffer_id as int)
        &&& (forall|k: int|
            #[trigger] self.index_buffers@.dom().contains(k) ==> self.index_buffers@[k].spec_id()
                == k)
        &&& kind_wf(self.textures, self.texture_history@, self.next_texture_id as int)
        &&& (forall|k: int|
            #[trigger] self.textures@.dom().contains(k) ==> self.textures@[k].spec_id() == k)
        &&& (forall|k: int|
            #[trigger] self.textures@.dom().contains(k) ==> pixels_count_m(
                self.textures@[k].spec_pixels(),
            ) == self.textures@[k].spec_size().x as int * self.textures@[k].spec_size().y as int)
        &&& pixels_count_m(self.default_white_pixel.spec_pixels())
            == self.default_white_pixel.spec_size().x as int
            * self.default_white_pixel.spec_size().y as int
        &&& self.default_white_pixel.spec_id() == 1
        &&& self.texture_history@.len() >= 1 && self.texture_history@[0] == 1
    }

    /// How many fresh shader handles this renderer can still mint.
    pub closed spec fn shader_headroom(self) -> int {
        u64::MAX - self.next_shader_id
    }

    /// How many fresh vertex buffer handles this renderer can still mint.
    pub closed spec fn vertex_buffer_headroom(self) -> int {
        u64::MAX - self.next_vertex_buffer_id
    }

    /// How many fresh index buffer handles this renderer can still mint.
    pub closed spec fn index_buffer_headroom(self) -> int {
        u64::MAX - self.next_index_buffer_id
    }

    /// How many fresh texture handles this renderer can still mint.
    pub closed spec fn texture_headroom(self) -> int {
        u64::MAX - self.next_texture_id
    }

    /// Whether every per-kind counter can still mint a fresh handle. The
    /// counters are 64-bit; exhausting one is practically unreachable,
    /// and each creation spends exactly one unit of its kind's headroom.
    pub open spec fn can_allocate(self) -> bool {
        &&& self.shader_headroom() > 0
        &&& self.vertex_buffer_headroom() > 0
        &&& self.index_buffer_headroom() > 0
        &&& self.texture_headroom() > 0
    }
}

/// The non-command, non-window state of the two renderers agrees for
/// shaders.
pub open spec fn same_shaders(pre: Renderer, post: Renderer) -> bool {
    post.shaders_v() == pre.shaders_v() && post.shader_ids() == pre.shader_ids()
}

/// The vertex buffer table and history agree.
pub open spec fn same_vertex_buffers(pre: Renderer, post: Renderer) -> bool {
    post.vertex_buffers_v() == pre.vertex_buffers_v() && post.vertex_buffer_ids()
        == pre.vertex_buffer_ids()
}

/// The index buffer table and history agree.
pub open spec fn same_index_buffers(pre: Renderer, post: Renderer) -> bool {
    post.index_buffers_v() == pre.index_buffers_v() && post.index_buffer_ids()
        == pre.index_buffer_ids()
}

/// The texture table and history agree.
pub open spec fn same_textures(pre: Renderer, post: Renderer) -> bool {
    post.textures_v() == pre.textures_v() && post.texture_ids() == pre.texture_ids()
}

/// The window model, interface selection and default texture agree, and
/// no allocation headroom is spent.
pub open spec fn same_surroundings(pre: Renderer, post: Renderer) -> bool {
    &&& same_surroundings_but_allocation(pre, post)
    &&& post.shader_headroom() == pre.shader_headroom()
    &&& post.vertex_buffer_headroom() == pre.vertex_buffer_headroom()
    &&& post.index_buffer_headroom() == pre.index_buffer_headroom()
    &&& post.texture_headroom() == pre.texture_headroom()
}

/// Everything but the command queue agrees.
pub open spec fn same_resources(pre: Renderer, post: Renderer) -> bool {
    &&& same_shaders(pre, post)
    &&& same_vertex_buffers(pre, post)
    &&& same_index_buffers(pre, post)
    &&& same_textures(pre, post)
    &&& same_surroundings(pre, post)
}

/// The texture a draw call binds: the requested one if it resolves,
/// else the default white texture.
pub open spec fn resolved_texture_m(r: Renderer, texture: Option<TextureID>) -> int {
    match texture {
        Option::Some(t) => if r.textures_v().dom().contains(t@) {
            t@
        } else {
            r.default_texture_id()
        },
        Option::None => r.default_texture_id(),
    }
}

impl Surface {
    /// Consumes the window model and builds a renderer around it. The
    /// native graphics context is as scarce as the window itself: the
    /// host program creates at most one at a time, and ownership of the
    /// surface enforces that here.
    pub fn into_renderer(self, api: RendererAPI) -> (r: Renderer)
        ensures
            r.wf(),
            r.can_allocate(),
            r.shader_headroom() == u64::MAX - 1,
            r.vertex_buffer_headroom() == u64::MAX - 1,
            r.index_buffer_headroom() == u64::MAX - 1,
            r.texture_headroom() == u64::MAX - 2,
            r.spec_window() == self,
            r.spec_api() == api,
            r.shaders_v() == Map::<int, ShaderResource>::empty(),
            r.vertex_buffers_v() == Map::<int, VertexBufferResource>::empty(),
            r.index_buffers_v() == Map::<int, IndexBufferResource>::empty(),
            r.textures_v() == Map::<int, TextureResource>::empty(),
            r.shader_ids() == Seq::<int>::empty(),
            r.vertex_buffer_ids() == Seq::<int>::empty(),
            r.index_buffer_ids() == Seq::<int>::empty(),
            r.texture_ids() == seq![1int],
            r.default_texture_id() == 1,
            r.spec_default_texture().spec_size() == (Vector2::<usize> { x: 1, y: 1 }),
            pixels_white_1x1(r.spec_default_texture().spec_pixels()),
            r.commands_v().len() == 1,
            is_create_texture_cmd(r.commands_v()[0], 1, 1, 1),
    {
        Renderer::new(self, api)
    }
}

/// Whether the pixel data is the single opaque white 8-bit RGBA pixel.
pub open spec fn pixels_white_1x1(p: Pixels) -> bool {
    match p {
        Pixels::RGBA(v) => v@.len() == 1 && v@[0].x == 255 && v@[0].y == 255 && v@[0].z == 255
            && v@[0].w == 255,
        _ => false,
    }
}

/// Whether `cmd` creates the texture `id` at the given size.
pub open spec fn is_create_texture_cmd(cmd: GpuCommand, id: int, w: int, h: int) -> bool {
    match cmd {
        GpuCommand::CreateTexture { id: i, size } => i@ == id && size.x == w && size.y == h,
        _ => false,
    }
}

impl Renderer {
    /// Builds a renderer owning the given window model: empty resource
    /// tables, and the default 1x1 opaque white texture created as the
    /// first texture (and first recorded command).
    pub fn new(window: Surface, api: RendererAPI) -> (r: Renderer)
        ensures
            r.wf(),
            r.can_allocate(),
            r.shader_headroom() == u64::MAX - 1,
            r.vertex_buffer_headroom() == u64::MAX - 1,
            r.index_buffer_headroom() == u64::MAX - 1,
            r.texture_headroom() == u64::MAX - 2,
            r.spec_window() == window,
            r.spec_api() == api,
            r.shaders_v() == Map::<int, ShaderResource>::empty(),
            r.vertex_buffers_v() == Map::<int, VertexBufferResource>::empty(),
            r.index_buffers_v() == Map::<int, IndexBufferResource>::empty(),
            r.textures_v() == Map::<int, TextureResource>::empty(),
            r.shader_ids() == Seq::<int>::empty(),
            r.vertex_buffer_ids() == Seq::<int>::empty(),
            r.index_buffer_ids() == Seq::<int>::empty(),
            r.texture_ids() == seq![1int],
            r.default_texture_id() == 1,
            r.spec_default_texture().spec_size() == (Vector2::<usize> { x: 1, y: 1 }),
            pixels_white_1x1(r.spec_default_texture().spec_pixels()),
            r.commands_v().len() == 1,
            is_create_texture_cmd(r.commands_v()[0], 1, 1, 1),
    {
        let mut white: Vec<Vector4<u8>> = Vec::new();
        white.push(Vector4::new(255, 255, 255, 255));
        let default_id = TextureID::make(1);
        let default_white_pixel = TextureResource::make(
            default_id,
            Vector2::new(1, 1),
            Pixels::RGBA(white),
        );
        let mut commands: Vec<GpuCommand> = Vec::new();
        commands.push(GpuCommand::CreateTexture { id: default_id, size: Vector2::new(1, 1) });
        let ghost initial_texture_history: Seq<int> = seq![1int];
        Renderer {
            window,
            api,
            next_shader_id: 1,
            shaders: HandleMap::new(),
            shader_history: Ghost(Seq::empty()),
            next_vertex_buffer_id: 1,
            vertex_buffers: HandleMap::new(),
            vertex_buffer_history: Ghost(Seq::empty()),
            next_index_buffer_id: 1,
            index_buffers: HandleMap::new(),
            index_buffer_history: Ghost(Seq::empty()),
            next_texture_id: 2,
            textures: HandleMap::new(),
            texture_history: Ghost(initial_texture_history),
            default_white_pixel,
            commands,
        }
    }

    /// The window model.
    pub fn get_window(&self) -> (r: &Surface)
        ensures
            *r == self.spec_window(),
    {
        &self.window
    }

    /// The window model, for feeding events in (it is also the public
    /// `window` field; the method matches the reading accessor).
    pub fn get_window_mut(&mut self) -> &mut Surface {
        &mut self.window
    }

    /// Tears the renderer down (the host program releases the native
    /// context on seeing the renderer go) and hands the window back. All
    /// handles this renderer issued are dead with it.
    pub fn take_window(self) -> (r: Surface)
        ensures
            r == self.spec_window(),
    {
        self.window
    }

    /// The built-in 1x1 opaque white texture.
    pub fn get_default_texture(&self) -> (r: &TextureResource)
        ensures
            *r == self.spec_default_texture(),
            r.spec_id() == self.default_texture_id(),
    {
        &self.default_white_pixel
    }

    /// Registers a shader program. The host program has asked the driver
    /// to compile and link the sources and passes the verdict in: on a
    /// linked program a fresh handle is minted and the resource recorded;
    /// on any failure the diagnostic log comes back unchanged and
    /// nothing is recorded.
    pub fn create_shader(
        &mut self,
        vertex_source: String,
        fragment_source: String,
        compile: ShaderCompileOutcome,
    ) -> (r: Result<ShaderID, String>)
        requires
            old(self).wf(),
            old(self).can_allocate(),
        ensures
            final(self).wf(),
            match compile {
                ShaderCompileOutcome::Linked => {
                    &&& r matches Result::Ok(id)
                    &&& !old(self).shader_ids().contains(id@)
                    &&& (forall|i: int|
                        0 <= i < old(self).shader_ids().len() ==> #[trigger] old(
                            self,
                        ).shader_ids()[i] < id@)
                    &&& final(self).shader_ids() == old(self).shader_ids().push(id@)
                    &&& final(self).shaders_v().dom() == old(self).shaders_v().dom().insert(id@)
                    &&& (forall|k: int|
                        k != id@ && #[trigger] old(self).shaders_v().dom().contains(k) ==> final(self).shaders_v()[k] == old(self).shaders_v()[k])
                    &&& final(self).shaders_v()[id@].spec_id() == id@
                    &&& final(self).shaders_v()[id@].spec_vertex_source() == vertex_source@
                    &&& final(self).shaders_v()[id@].spec_fragment_source() == fragment_source@
                    &&& final(self).commands_v() == old(self).commands_v()
                    &&& same_vertex_buffers(*old(self), *final(self))
                    &&& same_index_buffers(*old(self), *final(self))
                    &&& same_textures(*old(self), *final(self))
                    &&& same_surroundings_but_allocation(*old(self), *final(self))
                    &&& final(self).shader_headroom() == old(self).shader_headroom() - 1
                    &&& final(self).vertex_buffer_headroom() == old(self).vertex_buffer_headroom()
                    &&& final(self).index_buffer_headroom() == old(self).index_buffer_headroom()
                    &&& final(self).texture_headroom() == old(self).texture_headroom()
                },
                ShaderCompileOutcome::VertexCompileFailed(log) => r == Result::<
                    ShaderID,
                    String,
                >::Err(log) && *final(self) == *old(self),
                ShaderCompileOutcome::FragmentCompileFailed(log) => r == Result::<
                    ShaderID,
                    String,
                >::Err(log) && *final(self) == *old(self),
                ShaderCompileOutcome::LinkFailed(log) => r == Result::<ShaderID, String>::Err(log)
                    && *final(self) == *old(self),
            },
    {
        match compile {
            ShaderCompileOutcome::Linked => {
                let id_value = self.next_shader_id;
                proof {
                    lemma_mint(
                        self.shader_history@,
                        self.next_shader_id as int,
                        self.shaders@.dom(),
                    );
                }
                let id = ShaderID::make(id_value);
                self.next_shader_id = id_value + 1;
                self.shaders.insert(
                    id_value,
                    ShaderResource::make(id, vertex_source, fragment_source),
                );
                self.shader_history = Ghost(self.shader_history@.push(id_value as int));
                proof {
                    assert(self.shaders@.dom() =~= old(self).shaders@.dom().insert(
                        id_value as int,
                    ));
                }
                Ok(id)
            },
            ShaderCompileOutcome::VertexCompileFailed(log) => Err(log),
            ShaderCompileOutcome::FragmentCompileFailed(log) => Err(log),
            ShaderCompileOutcome::LinkFailed(log) => Err(log),
        }
    }

    /// Forgets a shader and tells the host program to release the
    /// program behind it. Destroying an absent handle is a no-op.
    pub fn destroy_shader(&mut self, id: ShaderID)
        requires
            old(self).wf(),
        ensures
            final(self).wf(),
            final(self).shaders_v() == old(self).shaders_v().remove(id@),
            final(self).shader_ids() == old(self).shader_ids(),
            same_vertex_buffers(*old(self), *final(self)),
            same_index_buffers(*old(self), *final(self)),
            same_textures(*old(self), *final(self)),
            same_surroundings(*old(self), *final(self)),
            old(self).shaders_v().dom().contains(id@) ==> final(self).commands_v() == old(self).commands_v().push(GpuCommand::DestroyShader { id }),
            !old(self).shaders_v().dom().contains(id@) ==> final(self).commands_v() == old(self).commands_v(),
    {
        let present = self.shaders.contains(id.value());
        self.shaders.remove(id.value());
        if present {
            self.commands.push(GpuCommand::DestroyShader { id });
        } else {
            proof {
                assert(self.shaders@ =~= old(self).shaders@.remove(id@));
            }
        }
    }

    /// The shader behind a handle, or nothing for a destroyed or foreign
    /// handle.
    pub fn get_shader(&self, id: ShaderID) -> (r: Option<&ShaderResource>)
        requires
            self.wf(),
        ensures
            match r {
                Option::Some(v) => self.shaders_v().dom().contains(id@) && *v
                    == self.shaders_v()[id@],
                Option::None => !self.shaders_v().dom().contains(id@),
            },
    {
        self.shaders.get(id.value())
    }

    /// Creates a vertex buffer: derives the stride from the layout,
    /// validates that the data is whole vertices, mints a fresh handle
    /// and records the upload. A zero stride (empty layout) requires
    /// empty data.
    pub fn create_vertex_buffer(
        &mut self,
        layout: Vec<VertexBufferElement>,
        data: Vec<u8>,
    ) -> (r: VertexBufferID)
        requires
            old(self).wf(),
            old(self).can_allocate(),
            16 * layout@.len() <= usize::MAX,
            stride_m(layout@) > 0 ==> data@.len() as int % stride_m(layout@) == 0,
            stride_m(layout@) == 0 ==> data@.len() == 0,
        ensures
            final(self).wf(),
            !old(self).vertex_buffer_ids().contains(r@),
            forall|i: int|
                0 <= i < old(self).vertex_buffer_ids().len() ==> #[trigger] old(
                    self,
                ).vertex_buffer_ids()[i] < r@,
            final(self).vertex_buffer_ids() == old(self).vertex_buffer_ids().push(r@),
            final(self).vertex_buffers_v().dom() == old(self).vertex_buffers_v().dom().insert(r@),
            (forall|k: int|
                k != r@ && #[trigger] old(self).vertex_buffers_v().dom().contains(k) ==> final(self).vertex_buffers_v()[k] == old(self).vertex_buffers_v()[k]),
            final(self).vertex_buffers_v()[r@].spec_id() == r@,
            final(self).vertex_buffers_v()[r@].spec_stride() == stride_m(layout@),
            final(self).vertex_buffers_v()[r@].spec_count() == vertex_count_m(
                data@.len() as int,
                stride_m(layout@),
            ),
            final(self).commands_v() == old(self).commands_v().push(
                GpuCommand::CreateVertexBuffer {
                    id: r,
                    layout,
                    stride: stride_m(layout@) as usize,
                    data,
                },
            ),
            same_shaders(*old(self), *final(self)),
            same_index_buffers(*old(self), *final(self)),
            same_textures(*old(self), *final(self)),
            same_surroundings_but_allocation(*old(self), *final(self)),
            final(self).vertex_buffer_headroom() == old(self).vertex_buffer_headroom() - 1,
            final(self).shader_headroom() == old(self).shader_headroom(),
            final(self).index_buffer_headroom() == old(self).index_buffer_headroom(),
            final(self).texture_headroom() == old(self).texture_headroom(),
    {
        let stride = stride_of(layout.as_slice());
        let count: usize = if stride > 0 {
            data.len() / stride
        } else {
            0
        };
        let id_value = self.next_vertex_buffer_id;
        proof {
            lemma_mint(
                self.vertex_buffer_history@,
                self.next_vertex_buffer_id as int,
                self.vertex_buffers@.dom(),
            );
        }
        let id = VertexBufferID::make(id_value);
        self.next_vertex_buffer_id = id_value + 1;
        self.vertex_buffers.insert(id_value, VertexBufferResource::make(id, stride, count));
        self.vertex_buffer_history = Ghost(self.vertex_buffer_history@.push(id_value as int));
        self.commands.push(GpuCommand::CreateVertexBuffer { id, layout, stride, data });
        proof {
            assert(self.vertex_buffers@.dom() =~= old(self).vertex_buffers@.dom().insert(
                id_value as int,
            ));
        }
        id
    }

    /// Replaces a vertex buffer's layout and contents: the stride is
    /// re-derived, the attributes are reconfigured and the data
    /// re-uploaded.
    pub fn set_vertex_buffer_layout(
        &mut self,
        id: VertexBufferID,
        layout: Vec<VertexBufferElement>,
        data: Vec<u8>,
    )
        requires
            old(self).wf(),
            old(self).vertex_buffers_v().dom().contains(id@),
            16 * layout@.len() <= usize::MAX,
            stride_m(layout@) > 0 ==> data@.len() as int % stride_m(layout@) == 0,
            stride_m(layout@) == 0 ==> data@.len() == 0,
        ensures
            final(self).wf(),
            final(self).vertex_buffers_v().dom() == old(self).vertex_buffers_v().dom(),
            (forall|k: int|
                k != id@ && #[trigger] old(self).vertex_buffers_v().dom().contains(k) ==> final(self).vertex_buffers_v()[k] == old(self).vertex_buffers_v()[k]),
            final(self).vertex_buffers_v()[id@].spec_id() == id@,
            final(self).vertex_buffers_v()[id@].spec_stride() == stride_m(layout@),
            final(self).vertex_buffers_v()[id@].spec_count() == vertex_count_m(
                data@.len() as int,
                stride_m(layout@),
            ),
            final(self).vertex_buffer_ids() == old(self).vertex_buffer_ids(),
            final(self).commands_v() == old(self).commands_v().push(
                GpuCommand::SetVertexBufferLayout {
                    id,
                    layout,
                    stride: stride_m(layout@) as usize,
                    data,
                },
            ),
            same_shaders(*old(self), *final(self)),
            same_index_buffers(*old(self), *final(self)),
            same_textures(*old(self), *final(self)),
            same_surroundings(*old(self), *final(self)),
    {
        let stride = stride_of(layout.as_slice());
        let count: usize = if stride > 0 {
            data.len() / stride
        } else {
            0
        };
        let record = self.vertex_buffers.get(id.value()).unwrap();
        let record_id = record.get_id();
        self.vertex_buffers.update(
            id.value(),
            VertexBufferResource::make(record_id, stride, count),
        );
        self.commands.push(GpuCommand::SetVertexBufferLayout { id, layout, stride, data });
        proof {
            assert(self.vertex_buffers@.dom() =~= old(self).vertex_buffers@.dom());
        }
    }

    /// Re-uploads a vertex buffer's contents under its unchanged layout;
    /// the data must still be whole vertices at the recorded stride.
    pub fn set_vertex_buffer_data(&mut self, id: VertexBufferID, data: Vec<u8>)
        requires
            old(self).wf(),
            old(self).vertex_buffers_v().dom().contains(id@),
            old(self).vertex_buffers_v()[id@].spec_stride() > 0 ==> data@.len() as int % old(self).vertex_buffers_v()[id@].spec_stride() == 0,
            old(self).vertex_buffers_v()[id@].spec_stride() == 0 ==> data@.len() == 0,
        ensures
            final(self).wf(),
            final(self).vertex_buffers_v().dom() == old(self).vertex_buffers_v().dom(),
            (forall|k: int|
                k != id@ && #[trigger] old(self).vertex_buffers_v().dom().contains(k) ==> final(self).vertex_buffers_v()[k] == old(self).vertex_buffers_v()[k]),
            final(self).vertex_buffers_v()[id@].spec_id() == id@,
            final(self).vertex_buffers_v()[id@].spec_stride() == old(self).vertex_buffers_v()[id@].spec_stride(),
            final(self).vertex_buffers_v()[id@].spec_count() == vertex_count_m(
                data@.len() as int,
                old(self).vertex_buffers_v()[id@].spec_stride(),
            ),
            final(self).vertex_buffer_ids() == old(self).vertex_buffer_ids(),
            final(self).commands_v() == old(self).commands_v().push(
                GpuCommand::SetVertexBufferData { id, data },
            ),
            same_shaders(*old(self), *final(self)),
            same_index_buffers(*old(self), *final(self)),
            same_textures(*old(self), *final(self)),
            same_surroundings(*old(self), *final(self)),
    {
        let record = self.vertex_buffers.get(id.value()).unwrap();
        let record_id = record.get_id();
        let stride = record.get_stride();
        let count: usize = if stride > 0 {
            data.len() / stride
        } else {
            0
        };
        self.vertex_buffers.update(
            id.value(),
            VertexBufferResource::make(record_id, stride, count),
        );
        self.commands.push(GpuCommand::SetVertexBufferData { id, data });
        proof {
            assert(self.vertex_buffers@.dom() =~= old(self).vertex_buffers@.dom());
        }
    }

    /// Forgets a vertex buffer; a no-op for an absent handle.
    pub fn destroy_vertex_buffer(&mut self, id: VertexBufferID)
        requires
            old(self).wf(),
        ensures
            final(self).wf(),
            final(self).vertex_buffers_v() == old(self).vertex_buffers_v().remove(id@),
            final(self).vertex_buffer_ids() == old(self).vertex_buffer_ids(),
            same_shaders(*old(self), *final(self)),
            same_index_buffers(*old(self), *final(self)),
            same_textures(*old(self), *final(self)),
            same_surroundings(*old(self), *final(self)),
            old(self).vertex_buffers_v().dom().contains(id@) ==> final(self).commands_v() == old(self).commands_v().push(GpuCommand::DestroyVertexBuffer { id }),
            !old(self).vertex_buffers_v().dom().contains(id@) ==> final(self).commands_v() == old(self).commands_v(),
    {
        let present = self.vertex_buffers.contains(id.value());
        self.vertex_buffers.remove(id.value());
        if present {
            self.commands.push(GpuCommand::DestroyVertexBuffer { id });
        } else {
            proof {
                assert(self.vertex_buffers@ =~= old(self).vertex_buffers@.remove(id@));
            }
        }
    }

    /// The vertex buffer behind a handle, if it is live.
    pub fn get_vertex_buffer(&self, id: VertexBufferID) -> (r: Option<&VertexBufferResource>)
        requires
            self.wf(),
        ensures
            match r {
                Option::Some(v) => self.vertex_buffers_v().dom().contains(id@) && *v
                    == self.vertex_buffers_v()[id@],
                Option::None => !self.vertex_buffers_v().dom().contains(id@),
            },
    {
        self.vertex_buffers.get(id.value())
    }

    /// Creates an index buffer holding the given 32-bit indices.
    pub fn create_index_buffer(&mut self, indices: Vec<u32>) -> (r: IndexBufferID)
        requires
            old(self).wf(),
            old(self).can_allocate(),
        ensures
            final(self).wf(),
            !old(self).index_buffer_ids().contains(r@),
            forall|i: int|
                0 <= i < old(self).index_buffer_ids().len() ==> #[trigger] old(
                    self,
                ).index_buffer_ids()[i] < r@,
            final(self).index_buffer_ids() == old(self).index_buffer_ids().push(r@),
            final(self).index_buffers_v().dom() == old(self).index_buffers_v().dom().insert(r@),
            (forall|k: int|
                k != r@ && #[trigger] old(self).index_buffers_v().dom().contains(k) ==> final(self).index_buffers_v()[k] == old(self).index_buffers_v()[k]),
            final(self).index_buffers_v()[r@].spec_id() == r@,
            final(self).index_buffers_v()[r@].spec_count() == indices@.len(),
            final(self).commands_v() == old(self).commands_v().push(
                GpuCommand::CreateIndexBuffer { id: r, indices },
            ),
            same_shaders(*old(self), *final(self)),
            same_vertex_buffers(*old(self), *final(self)),
            same_textures(*old(self), *final(self)),
            same_surroundings_but_allocation(*old(self), *final(self)),
            final(self).index_buffer_headroom() == old(self).index_buffer_headroom() - 1,
            final(self).shader_headroom() == old(self).shader_headroom(),
            final(self).vertex_buffer_headroom() == old(self).vertex_buffer_headroom(),
            final(self).texture_headroom() == old(self).texture_headroom(),
    {
        let count = indices.len();
        let id_value = self.next_index_buffer_id;
        proof {
            lemma_mint(
                self.index_buffer_history@,
                self.next_index_buffer_id as int,
                self.index_buffers@.dom(),
            );
        }
        let id = IndexBufferID::make(id_value);
        self.next_index_buffer_id = id_value + 1;
        self.index_buffers.insert(id_value, IndexBufferResource::make(id, count));
        self.index_buffer_history = Ghost(self.index_buffer_history@.push(id_value as int));
        self.commands.push(GpuCommand::CreateIndexBuffer { id, indices });
        proof {
            assert(self.index_buffers@.dom() =~= old(self).index_buffers@.dom().insert(
                id_value as int,
            ));
        }
        id
    }

    /// Replaces an index buffer's contents.
    pub fn set_index_buffer_indices(&mut self, id: IndexBufferID, indices: Vec<u32>)
        requires
            old(self).wf(),
            old(self).index_buffers_v().dom().contains(id@),
        ensures
            final(self).wf(),
            final(self).index_buffers_v().dom() == old(self).index_buffers_v().dom(),
            (forall|k: int|
                k != id@ && #[trigger] old(self).index_buffers_v().dom().contains(k) ==> final(self).index_buffers_v()[k] == old(self).index_buffers_v()[k]),
            final(self).index_buffers_v()[id@].spec_id() == id@,
            final(self).index_buffers_v()[id@].spec_count() == indices@.len(),
            final(self).index_buffer_ids() == old(self).index_buffer_ids(),
            final(self).commands_v() == old(self).commands_v().push(
                GpuCommand::SetIndexBufferIndices { id, indices },
            ),
            same_shaders(*old(self), *final(self)),
            same_vertex_buffers(*old(self), *final(self)),
            same_textures(*old(self), *final(self)),
            same_surroundings(*old(self), *final(self)),
    {
        let count = indices.len();
        let record = self.index_buffers.get(id.value()).unwrap();
        let record_id = record.get_id();
        self.index_buffers.update(id.value(), IndexBufferResource::make(record_id, count));
        self.commands.push(GpuCommand::SetIndexBufferIndices { id, indices });
        proof {
            assert(self.index_buffers@.dom() =~= old(self).index_buffers@.dom());
        }
    }

    /// Forgets an index buffer; a no-op for an absent handle.
    pub fn destroy_index_buffer(&mut self, id: IndexBufferID)
        requires
            old(self).wf(),
        ensures
            final(self).wf(),
            final(self).index_buffers_v() == old(self).index_buffers_v().remove(id@),
            final(self).index_buffer_ids() == old(self).index_buffer_ids(),
            same_shaders(*old(self), *final(self)),
            same_vertex_buffers(*old(self), *final(self)),
            same_textures(*old(self), *final(self)),
            same_surroundings(*old(self), *final(self)),
            old(self).index_buffers_v().dom().contains(id@) ==> final(self).commands_v() == old(self).commands_v().push(GpuCommand::DestroyIndexBuffer { id }),
            !old(self).index_buffers_v().dom().contains(id@) ==> final(self).commands_v() == old(self).commands_v(),
    {
        let present = self.index_buffers.contains(id.value());
        self.index_buffers.remove(id.value());
        if present {
            self.commands.push(GpuCommand::DestroyIndexBuffer { id });
        } else {
            proof {
                assert(self.index_buffers@ =~= old(self).index_buffers@.remove(id@));
            }
        }
    }

    /// The index buffer behind a handle, if it is live.
    pub fn get_index_buffer(&self, id: IndexBufferID) -> (r: Option<&IndexBufferResource>)
        requires
            self.wf(),
        ensures
            match r {
                Option::Some(v) => self.index_buffers_v().dom().contains(id@) && *v
                    == self.index_buffers_v()[id@],
                Option::None => !self.index_buffers_v().dom().contains(id@),
            },
    {
        self.index_buffers.get(id.value())
    }

    /// Creates a texture of the given size from decoded pixel data; the
    /// pixel count must equal `size.x * size.y`.
    pub fn create_texture(&mut self, size: Vector2<usize>, pixels: Pixels) -> (r: TextureID)
        requires
            old(self).wf(),
            old(self).can_allocate(),
            pixels_count_m(pixels) == size.x as int * size.y as int,
        ensures
            final(self).wf(),
            !old(self).texture_ids().contains(r@),
            forall|i: int|
                0 <= i < old(self).texture_ids().len() ==> #[trigger] old(self).texture_ids()[i]
                    < r@,
            final(self).texture_ids() == old(self).texture_ids().push(r@),
            final(self).textures_v().dom() == old(self).textures_v().dom().insert(r@),
            (forall|k: int|
                k != r@ && #[trigger] old(self).textures_v().dom().contains(k) ==> final(self).textures_v()[k] == old(self).textures_v()[k]),
            final(self).textures_v()[r@].spec_id() == r@,
            final(self).textures_v()[r@].spec_size() == size,
            final(self).textures_v()[r@].spec_pixels() == pixels,
            final(self).commands_v() == old(self).commands_v().push(
                GpuCommand::CreateTexture { id: r, size },
            ),
            same_shaders(*old(self), *final(self)),
            same_vertex_buffers(*old(self), *final(self)),
            same_index_buffers(*old(self), *final(self)),
            same_surroundings_but_allocation(*old(self), *final(self)),
            final(self).texture_headroom() == old(self).texture_headroom() - 1,
            final(self).shader_headroom() == old(self).shader_headroom(),
            final(self).vertex_buffer_headroom() == old(self).vertex_buffer_headroom(),
            final(self).index_buffer_headroom() == old(self).index_buffer_headroom(),
    {
        let id_value = self.next_texture_id;
        proof {
            lemma_mint(self.texture_history@, self.next_texture_id as int, self.textures@.dom());
        }
        let id = TextureID::make(id_value);
        self.next_texture_id = id_value + 1;
        self.textures.insert(id_value, TextureResource::make(id, size, pixels));
        self.texture_history = Ghost(self.texture_history@.push(id_value as int));
        self.commands.push(GpuCommand::CreateTexture { id, size });
        proof {
            assert(self.textures@.dom() =~= old(self).textures@.dom().insert(id_value as int));
        }
        id
    }

    /// Replaces a texture's pixels (and size); the pixel count must
    /// equal `size.x * size.y`.
    pub fn set_texture_pixels(&mut self, id: TextureID, size: Vector2<usize>, pixels: Pixels)
        requires
            old(self).wf(),
            old(self).textures_v().dom().contains(id@),
            pixels_count_m(pixels) == size.x as int * size.y as int,
        ensures
            final(self).wf(),
            final(self).textures_v().dom() == old(self).textures_v().dom(),
            (forall|k: int|
                k != id@ && #[trigger] old(self).textures_v().dom().contains(k) ==> final(self).textures_v()[k] == old(self).textures_v()[k]),
            final(self).textures_v()[id@].spec_id() == id@,
            final(self).textures_v()[id@].spec_size() == size,
            final(self).textures_v()[id@].spec_pixels() == pixels,
            final(self).texture_ids() == old(self).texture_ids(),
            final(self).commands_v() == old(self).commands_v().push(
                GpuCommand::SetTexturePixels { id, size },
            ),
            same_shaders(*old(self), *final(self)),
            same_vertex_buffers(*old(self), *final(self)),
            same_index_buffers(*old(self), *final(self)),
            same_surroundings(*old(self), *final(self)),
    {
        let record = self.textures.get(id.value()).unwrap();
        let record_id = record.get_id();
        self.textures.update(id.value(), TextureResource::make(record_id, size, pixels));
        self.commands.push(GpuCommand::SetTexturePixels { id, size });
        proof {
            assert(self.textures@.dom() =~= old(self).textures@.dom());
        }
    }

    /// Forgets a texture; a no-op for an absent handle.
    pub fn destroy_texture(&mut self, id: TextureID)
        requires
            old(self).wf(),
        ensures
            final(self).wf(),
            final(self).textures_v() == old(self).textures_v().remove(id@),
            final(self).texture_ids() == old(self).texture_ids(),
            same_shaders(*old(self), *final(self)),
            same_vertex_buffers(*old(self), *final(self)),
            same_index_buffers(*old(self), *final(self)),
            same_surroundings(*old(self), *final(self)),
            old(self).textures_v().dom().contains(id@) ==> final(self).commands_v() == old(self).commands_v().push(GpuCommand::DestroyTexture { id }),
            !old(self).textures_v().dom().contains(id@) ==> final(self).commands_v() == old(self).commands_v(),
    {
        let present = self.textures.contains(id.value());
        self.textures.remove(id.value());
        if present {
            self.commands.push(GpuCommand::DestroyTexture { id });
        } else {
            proof {
                assert(self.textures@ =~= old(self).textures@.remove(id@));
            }
        }
    }

    /// The texture behind a handle, if it is live.
    pub fn get_texture(&self, id: TextureID) -> (r: Option<&TextureResource>)
        requires
            self.wf(),
        ensures
            match r {
                Option::Some(v) => self.textures_v().dom().contains(id@) && *v
                    == self.textures_v()[id@],
                Option::None => !self.textures_v().dom().contains(id@),
            },
    {
        self.textures.get(id.value())
    }

    /// Records a viewport update for the new pixel size. Camera
    /// projections are not touched: re-deriving their parameters on a
    /// resize is the caller's job.
    pub fn resize(&mut self, size: Vector2<usize>)
        requires
            old(self).wf(),
        ensures
            final(self).wf(),
            same_resources(*old(self), *final(self)),
            final(self).commands_v() == old(self).commands_v().push(
                GpuCommand::SetViewport { size },
            ),
    {
        self.commands.push(GpuCommand::SetViewport { size });
    }

    /// Records a clear of the color, depth and stencil buffers to the
    /// given color (alpha forced to one).
    pub fn clear(&mut self, color: Vector3<Fixed>)
        requires
            old(self).wf(),
        ensures
            final(self).wf(),
            same_resources(*old(self), *final(self)),
            final(self).commands_v() == old(self).commands_v().push(GpuCommand::Clear { color }),
    {
        self.commands.push(GpuCommand::Clear { color });
    }

    /// Records a buffer swap ending the frame.
    pub fn present(&mut self)
        requires
            old(self).wf(),
        ensures
            final(self).wf(),
            same_resources(*old(self), *final(self)),
            final(self).commands_v() == old(self).commands_v().push(GpuCommand::Present),
    {
        self.commands.push(GpuCommand::Present);
    }

    /// Hands the recorded commands to the host program, in order, and
    /// starts a fresh queue. Every operation before this call is
    /// represented; nothing is reordered or dropped.
    pub fn take_commands(&mut self) -> (r: Vec<GpuCommand>)
        requires
            old(self).wf(),
        ensures
            final(self).wf(),
            same_resources(*old(self), *final(self)),
            r@ == old(self).commands_v(),
            final(self).commands_v() == Seq::<GpuCommand>::empty(),
    {
        let mut out: Vec<GpuCommand> = Vec::new();
        core::mem::swap(&mut out, &mut self.commands);
        out
    }

    /// Opens a per-frame drawing context for a camera: records the depth
    /// test choice (reversed-Z: greater-or-equal, cleared to zero, when
    /// enabled) and precomputes the view matrix — the camera transform's
    /// own matrix, deliberately not inverted, so camera and object
    /// motion compose identically — and the projection matrix.
    pub fn drawing_context(&mut self, camera: Camera<Fixed>, depth_testing: bool) -> (r:
        DrawContext)
        requires
            old(self).wf(),
        ensures
            final(self).wf(),
            same_resources(*old(self), *final(self)),
            final(self).commands_v() == old(self).commands_v().push(
                GpuCommand::SetDepthTest { enabled: depth_testing },
            ),
            r.wf(),
            r.view_matrix.view_m() == camera.transform.matrix_m(),
            r.projection_matrix.view_m() == camera.projection_type.projection_m(),
            r.depth_testing == depth_testing,
    {
        self.commands.push(GpuCommand::SetDepthTest { enabled: depth_testing });
        DrawContext {
            view_matrix: camera.transform.to_matrix(),
            projection_matrix: camera.projection_type.to_matrix(),
            depth_testing,
        }
    }
}

/// The window, interface and default texture agree; the allocation
/// headroom may have shrunk by the one minted handle.
pub open spec fn same_surroundings_but_allocation(pre: Renderer, post: Renderer) -> bool {
    &&& post.spec_window() == pre.spec_window()
    &&& post.spec_api() == pre.spec_api()
    &&& post.spec_default_texture() == pre.spec_default_texture()
    &&& post.default_texture_id() == pre.default_texture_id()
}

/// A per-frame drawing context: the precomputed view and projection
/// matrices of the camera it was opened with, and whether depth testing
/// is on for the frame.
///
/// The context does not hold a borrow of its renderer for its whole
/// scope; instead each draw call takes the renderer exclusively for its
/// own duration, which gives the same one-writer-at-a-time discipline
/// per operation.
pub struct DrawContext {
    pub view_matrix: Matrix4x4<Fixed>,
    pub projection_matrix: Matrix4x4<Fixed>,
    pub depth_testing: bool,
}

impl DrawContext {
    /// Both precomputed matrices have the 4x4 shape.
    pub open spec fn wf(self) -> bool {
        self.view_matrix.wf() && self.projection_matrix.wf()
    }

    /// Records a non-indexed triangle-list draw. A shader or vertex
    /// buffer handle that does not resolve makes the call a silent
    /// no-op (a documented gap, not an error); a texture handle that
    /// does not resolve falls back to the default white texture. The
    /// vertex count of a resolved buffer must be whole triangles.
    pub fn draw(
        &self,
        renderer: &mut Renderer,
        shader: ShaderID,
        vertex_buffer: VertexBufferID,
        texture: Option<TextureID>,
        model_matrix: Matrix4x4<Fixed>,
        color: Vector3<Fixed>,
    )
        requires
            old(renderer).wf(),
            self.wf(),
            model_matrix.wf(),
            old(renderer).shaders_v().dom().contains(shader@) && old(renderer).vertex_buffers_v().dom().contains(vertex_buffer@) ==> old(renderer).vertex_buffers_v()[vertex_buffer@].spec_count() % 3 == 0,
        ensures
            final(renderer).wf(),
            !(old(renderer).shaders_v().dom().contains(shader@) && old(renderer).vertex_buffers_v().dom().contains(vertex_buffer@)) ==> *final(renderer) == *old(renderer),
            old(renderer).shaders_v().dom().contains(shader@) && old(renderer).vertex_buffers_v().dom().contains(vertex_buffer@) ==> {
                &&& same_resources(*old(renderer), *final(renderer))
                &&& final(renderer).commands_v().len() == old(renderer).commands_v().len() + 1
                &&& final(renderer).commands_v().drop_last() == old(renderer).commands_v()
                &&& draw_command_matches(
                    final(renderer).commands_v().last(),
                    shader@,
                    vertex_buffer@,
                    Option::None,
                    resolved_texture_m(*old(renderer), texture),
                    self.projection_matrix.view_m(),
                    self.view_matrix.view_m(),
                    model_matrix.view_m(),
                    color.models(),
                    old(renderer).vertex_buffers_v()[vertex_buffer@].spec_count(),
                )
            },
    {
        if !renderer.shaders.contains(shader.value()) {
            return ;
        }
        let vertex_record = match renderer.vertex_buffers.get(vertex_buffer.value()) {
            Some(record) => record,
            None => {
                return ;
            },
        };
        let count = vertex_record.get_count();
        let bound_texture: TextureID = match texture {
            Some(t) => {
                if renderer.textures.contains(t.value()) {
                    t
                } else {
                    renderer.default_white_pixel.get_id()
                }
            },
            None => renderer.default_white_pixel.get_id(),
        };
        let command = GpuCommand::Draw {
            shader,
            vertex_buffer,
            index_buffer: None,
            texture: bound_texture,
            projection_matrix: self.projection_matrix.duplicate(),
            view_matrix: self.view_matrix.duplicate(),
            model_matrix,
            color,
            count,
        };
        renderer.commands.push(command);
        proof {
            assert(renderer.commands_v().drop_last() =~= old(renderer).commands_v());
        }
    }

    /// Records an indexed triangle-list draw; the index count of a
    /// resolved index buffer must be whole triangles. Unresolved shader,
    /// vertex buffer or index buffer handles make the call a silent
    /// no-op, as in [`DrawContext::draw`].
    pub fn draw_indexed(
        &self,
        renderer: &mut Renderer,
        shader: ShaderID,
        vertex_buffer: VertexBufferID,
        index_buffer: IndexBufferID,
        texture: Option<TextureID>,
        model_matrix: Matrix4x4<Fixed>,
        color: Vector3<Fixed>,
    )
        requires
            old(renderer).wf(),
            self.wf(),
            model_matrix.wf(),
            old(renderer).shaders_v().dom().contains(shader@) && old(renderer).vertex_buffers_v().dom().contains(vertex_buffer@) && old(renderer).index_buffers_v().dom().contains(index_buffer@) ==> old(renderer).index_buffers_v()[index_buffer@].spec_count() % 3 == 0,
        ensures
            final(renderer).wf(),
            !(old(renderer).shaders_v().dom().contains(shader@) && old(renderer).vertex_buffers_v().dom().contains(vertex_buffer@) && old(renderer).index_buffers_v().dom().contains(index_buffer@)) ==> *final(renderer) == *old(renderer),
            old(renderer).shaders_v().dom().contains(shader@) && old(renderer).vertex_buffers_v().dom().contains(vertex_buffer@) && old(renderer).index_buffers_v().dom().contains(index_buffer@) ==> {
                &&& same_resources(*old(renderer), *final(renderer))
                &&& final(renderer).commands_v().len() == old(renderer).commands_v().len() + 1
                &&& final(renderer).commands_v().drop_last() == old(renderer).commands_v()
                &&& draw_command_matches(
                    final(renderer).commands_v().last(),
                    shader@,
                    vertex_buffer@,
                    Option::Some(index_buffer@),
                    resolved_texture_m(*old(renderer), texture),
                    self.projection_matrix.view_m(),
                    self.view_matrix.view_m(),
                    model_matrix.view_m(),
                    color.models(),
                    old(renderer).index_buffers_v()[index_buffer@].spec_count(),
                )
            },
    {
        if !renderer.shaders.contains(shader.value()) {
            return ;
        }
        if !renderer.vertex_buffers.contains(vertex_buffer.value()) {
            return ;
        }
        let index_record = match renderer.index_buffers.get(index_buffer.value()) {
            Some(record) => record,
            None => {
                return ;
            },
        };
        let count = index_record.get_count();
        let bound_texture: TextureID = match texture {
            Some(t) => {
                if renderer.textures.contains(t.value()) {
                    t
                } else {
                    renderer.default_white_pixel.get_id()
                }
            },
            None => renderer.default_white_pixel.get_id(),
        };
        let command = GpuCommand::Draw {
            shader,
            vertex_buffer,
            index_buffer: Some(index_buffer),
            texture: bound_texture,
            projection_matrix: self.projection_matrix.duplicate(),
            view_matrix: self.view_matrix.duplicate(),
            model_matrix,
            color,
            count,
        };
        renderer.commands.push(command);
        proof {
            assert(renderer.commands_v().drop_last() =~= old(renderer).commands_v());
        }
    }
}

/// Within one renderer, the handle values of each kind are pairwise
/// distinct over the renderer's whole lifetime: the minting counters
/// only grow, so no value is ever reused, even after a destroy.
pub proof fn lemma_handles_distinct(r: Renderer)
    requires
        r.wf(),
    ensures
        forall|i: int, j: int|
            0 <= i < j < r.shader_ids().len() ==> r.shader_ids()[i] != r.shader_ids()[j],
        forall|i: int, j: int|
            0 <= i < j < r.vertex_buffer_ids().len() ==> r.vertex_buffer_ids()[i]
                != r.vertex_buffer_ids()[j],
        forall|i: int, j: int|
            0 <= i < j < r.index_buffer_ids().len() ==> r.index_buffer_ids()[i]
                != r.index_buffer_ids()[j],
        forall|i: int, j: int|
            0 <= i < j < r.texture_ids().len() ==> r.texture_ids()[i] != r.texture_ids()[j],
{
}

/// Every live handle of each kind was minted by this renderer: the
/// tables never hold a key outside the recorded histories.
pub proof fn lemma_live_handles_minted(r: Renderer)
    requires
        r.wf(),
    ensures
        forall|k: int|
            #[trigger] r.shaders_v().dom().contains(k) ==> r.shader_ids().contains(k),
        forall|k: int|
            #[trigger] r.vertex_buffers_v().dom().contains(k) ==> r.vertex_buffer_ids().contains(
                k,
            ),
        forall|k: int|
            #[trigger] r.index_buffers_v().dom().contains(k) ==> r.index_buffer_ids().contains(k),
        forall|k: int| #[trigger] r.textures_v().dom().contains(k) ==> r.texture_ids().contains(k),
{
}

/// Every stored texture's pixel data covers exactly its size, the
/// built-in default texture included.
pub proof fn lemma_texture_pixels_sized(r: Renderer)
    requires
        r.wf(),
    ensures
        forall|k: int|
            #[trigger] r.textures_v().dom().contains(k) ==> pixels_count_m(
                r.textures_v()[k].spec_pixels(),
            ) == r.textures_v()[k].spec_size().x as int * r.textures_v()[k].spec_size().y as int,
        pixels_count_m(r.spec_default_texture().spec_pixels()) == r.spec_default_texture(
        ).spec_size().x as int * r.spec_default_texture().spec_size().y as int,
{
}

} // verus!
