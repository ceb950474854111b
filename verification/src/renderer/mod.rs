mod commands;
mod handle_map;
mod index_buffer;
mod renderer;
mod shader;
mod texture;
mod vertex_buffer;

pub use commands::{draw_command_matches, GpuCommand};
pub use renderer::{
    history_wf, is_create_texture_cmd, kind_wf, lemma_handles_distinct, lemma_live_handles_minted,
    lemma_texture_pixels_sized,
    pixels_white_1x1, resolved_texture_m, same_index_buffers, same_resources, same_shaders,
    same_surroundings, same_surroundings_but_allocation, same_textures, same_vertex_buffers,
    DrawContext, Renderer, RendererAPI,
};
pub use handle_map::{entries_map, keys_distinct, HandleMap};
pub use index_buffer::{IndexBufferID, IndexBufferResource};
pub use shader::{ShaderCompileOutcome, ShaderID, ShaderResource};
pub use texture::{channel_m, pixel_at_m, pixels_count_m, Pixels, TextureID, TextureResource};
pub use vertex_buffer::{
    component_count_m, components_m, element_size_m, lemma_stride_bounds, lemma_stride_components,
    offset_m, offsets_of, stride_m, stride_of, vertex_count_m, VertexBufferElement, VertexBufferID,
    VertexBufferResource,
};
