use vstd::prelude::*;

use crate::math::{Fixed, Matrix4x4, Scalar, Vector2, Vector3};
use crate::renderer::{IndexBufferID, ShaderID, TextureID, VertexBufferElement, VertexBufferID};

verus! {

/// One unit of GPU work the renderer has decided on. The renderer only
/// records these; a host program drains them with
/// [`crate::renderer::Renderer::take_commands`] and performs them on the
/// native graphics interface, in order.
pub enum GpuCommand {
    /// Release the program behind a destroyed shader handle.
    DestroyShader { id: ShaderID },
    /// Create a native vertex buffer, configure one attribute per layout
    /// element at consecutive indices with running byte offsets, and
    /// upload the initial data.
    CreateVertexBuffer { id: VertexBufferID, layout: Vec<VertexBufferElement>, stride: usize, data: Vec<u8> },
    /// Reconfigure the attribute layout and re-upload.
    SetVertexBufferLayout { id: VertexBufferID, layout: Vec<VertexBufferElement>, stride: usize, data: Vec<u8> },
    /// Re-upload vertex data under the unchanged layout.
    SetVertexBufferData { id: VertexBufferID, data: Vec<u8> },
    /// Release the native buffer behind a destroyed handle.
    DestroyVertexBuffer { id: VertexBufferID },
    /// Create a native index buffer and upload the indices.
    CreateIndexBuffer { id: IndexBufferID, indices: Vec<u32> },
    /// Replace the contents of an index buffer.
    SetIndexBufferIndices { id: IndexBufferID, indices: Vec<u32> },
    /// Release the native buffer behind a destroyed handle.
    DestroyIndexBuffer { id: IndexBufferID },
    /// Create a native texture (linear minify, nearest magnify, repeat
    /// wrap) and upload the pixels that the renderer stores for `id`.
    CreateTexture { id: TextureID, size: Vector2<usize> },
    /// Re-upload the pixels that the renderer stores for `id`.
    SetTexturePixels { id: TextureID, size: Vector2<usize> },
    /// Release the native texture behind a destroyed handle.
    DestroyTexture { id: TextureID },
    /// Set the viewport to the new pixel size.
    SetViewport { size: Vector2<usize> },
    /// Enable reversed-Z depth testing (greater-or-equal comparison,
    /// depth cleared to zero) or disable depth testing entirely.
    SetDepthTest { enabled: bool },
    /// Set the clear color (alpha forced to one) and clear the color,
    /// depth and stencil buffers.
    Clear { color: Vector3<Fixed> },
    /// Bind the shader, vertex buffer, optional index buffer and texture;
    /// upload the three matrices, the tint color and the texture unit as
    /// uniforms; issue a triangle-list draw of `count` vertices (or
    /// indices); then unbind in reverse order.
    Draw {
        shader: ShaderID,
        vertex_buffer: VertexBufferID,
        index_buffer: Option<IndexBufferID>,
        texture: TextureID,
        projection_matrix: Matrix4x4<Fixed>,
        view_matrix: Matrix4x4<Fixed>,
        model_matrix: Matrix4x4<Fixed>,
        color: Vector3<Fixed>,
        count: usize,
    },
    /// Swap the back buffer to the front.
    Present,
}

/// Whether `cmd` is the draw call with the given handles, matrix models,
/// color models and vertex or index count.
pub open spec fn draw_command_matches(
    cmd: GpuCommand,
    shader: int,
    vertex_buffer: int,
    index_buffer: Option<int>,
    texture: int,
    projection: Seq<Seq<int>>,
    view_mat: Seq<Seq<int>>,
    model: Seq<Seq<int>>,
    color: (int, int, int),
    count: int,
) -> bool {
    match cmd {
        GpuCommand::Draw {
            shader: s,
            vertex_buffer: v,
            index_buffer: ib,
            texture: t,
            projection_matrix,
            view_matrix,
            model_matrix,
            color: c,
            count: n,
        } => {
            &&& s@ == shader
            &&& v@ == vertex_buffer
            &&& match (ib, index_buffer) {
                (Option::Some(x), Option::Some(y)) => x@ == y,
                (Option::None, Option::None) => true,
                _ => false,
            }
            &&& t@ == texture
            &&& projection_matrix.view_m() == projection
            &&& view_matrix.view_m() == view_mat
            &&& model_matrix.view_m() == model
            &&& c.models() == color
            &&& n as int == count
        },
        _ => false,
    }
}

} // verus!
