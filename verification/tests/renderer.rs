use thallium::math::{Fixed, Matrix4x4, Vector2, Vector3, Vector4};
use thallium::platform::{Keycode, MouseButton, Surface, SurfaceEvent};
use thallium::renderer::{
    offsets_of, stride_of, GpuCommand, Pixels, Renderer, RendererAPI, ShaderCompileOutcome,
    VertexBufferElement,
};
use thallium::scene::Camera;

const ONE: i64 = 65536;

fn fx(v: i64) -> Fixed {
    Fixed::from_int(v)
}

fn headless_renderer() -> Renderer {
    Surface::new(Vector2::new(640, 480)).into_renderer(RendererAPI::OpenGL)
}

#[test]
fn vertex_buffer_handles_stay_unique() {
    let mut renderer = headless_renderer();
    let mut ids: Vec<u64> = Vec::new();
    for _ in 0..4 {
        let id = renderer.create_vertex_buffer(vec![VertexBufferElement::Float], vec![0u8; 4]);
        ids.push(id.value());
    }
    // destroying does not allow reuse: handles minted afterwards are
    // still distinct from every earlier one
    let victim = renderer.create_vertex_buffer(vec![VertexBufferElement::Float], vec![]);
    ids.push(victim.value());
    renderer.destroy_vertex_buffer(victim);
    for _ in 0..4 {
        let id = renderer.create_vertex_buffer(vec![VertexBufferElement::Float2], vec![]);
        ids.push(id.value());
    }
    for i in 0..ids.len() {
        for j in (i + 1)..ids.len() {
            assert_ne!(ids[i], ids[j], "handles {i} and {j} collided");
        }
    }
}

#[test]
fn texture_handles_distinct_from_default() {
    let mut renderer = headless_renderer();
    let first = renderer.create_texture(
        Vector2::new(1, 1),
        Pixels::RGBA(vec![Vector4::new(1u8, 2, 3, 4)]),
    );
    let second = renderer.create_texture(
        Vector2::new(1, 1),
        Pixels::RGBA(vec![Vector4::new(5u8, 6, 7, 8)]),
    );
    let default_id = renderer.get_default_texture().get_id().value();
    assert_ne!(first.value(), second.value());
    assert_ne!(first.value(), default_id);
    assert_ne!(second.value(), default_id);
}

#[test]
fn stride_and_count_derivation() {
    let layout = [
        VertexBufferElement::Float3,
        VertexBufferElement::Float3,
        VertexBufferElement::Float2,
    ];
    assert_eq!(stride_of(&layout), 32);
    assert_eq!(stride_of(&[]), 0);
    assert_eq!(stride_of(&[VertexBufferElement::Float4]), 16);

    let mut renderer = headless_renderer();
    let id = renderer.create_vertex_buffer(layout.to_vec(), vec![0u8; 96]);
    let record = renderer.get_vertex_buffer(id).unwrap();
    assert_eq!(record.get_stride(), 32);
    assert_eq!(record.get_count(), 3);

    let empty = renderer.create_vertex_buffer(vec![VertexBufferElement::Float2], vec![]);
    assert_eq!(renderer.get_vertex_buffer(empty).unwrap().get_count(), 0);

    let no_layout = renderer.create_vertex_buffer(vec![], vec![]);
    assert_eq!(renderer.get_vertex_buffer(no_layout).unwrap().get_stride(), 0);
    assert_eq!(renderer.get_vertex_buffer(no_layout).unwrap().get_count(), 0);
}

#[test]
fn attribute_offsets_are_running_sums() {
    let layout = [
        VertexBufferElement::Float3,
        VertexBufferElement::Float3,
        VertexBufferElement::Float2,
    ];
    assert_eq!(offsets_of(&layout), vec![0, 12, 24]);
    assert_eq!(offsets_of(&[]), Vec::<usize>::new());
    assert_eq!(
        offsets_of(&[VertexBufferElement::Float, VertexBufferElement::Float4]),
        vec![0, 4]
    );
}

#[test]
fn vertex_buffer_set_data_recounts() {
    let mut renderer = headless_renderer();
    let id = renderer.create_vertex_buffer(vec![VertexBufferElement::Float2], vec![0u8; 8]);
    assert_eq!(renderer.get_vertex_buffer(id).unwrap().get_count(), 1);
    renderer.set_vertex_buffer_data(id, vec![0u8; 24]);
    assert_eq!(renderer.get_vertex_buffer(id).unwrap().get_count(), 3);
    renderer.set_vertex_buffer_layout(id, vec![VertexBufferElement::Float4], vec![0u8; 32]);
    let record = renderer.get_vertex_buffer(id).unwrap();
    assert_eq!(record.get_stride(), 16);
    assert_eq!(record.get_count(), 2);
}

#[test]
fn shader_compile_outcomes() {
    let mut renderer = headless_renderer();
    let ok = renderer.create_shader(
        String::from("vertex"),
        String::from("fragment"),
        ShaderCompileOutcome::Linked,
    );
    let id = ok.expect("linked program should be registered");
    let resource = renderer.get_shader(id).unwrap();
    assert_eq!(resource.get_id().value(), id.value());
    assert_eq!(resource.get_vertex_source().as_str(), "vertex");
    assert_eq!(resource.get_fragment_source().as_str(), "fragment");

    let vertex_err = renderer.create_shader(
        String::from("v"),
        String::from("f"),
        ShaderCompileOutcome::VertexCompileFailed(String::from("bad vertex")),
    );
    assert_eq!(vertex_err.unwrap_err(), "bad vertex");

    let fragment_err = renderer.create_shader(
        String::from("v"),
        String::from("f"),
        ShaderCompileOutcome::FragmentCompileFailed(String::from("bad fragment")),
    );
    assert_eq!(fragment_err.unwrap_err(), "bad fragment");

    let link_err = renderer.create_shader(
        String::from("v"),
        String::from("f"),
        ShaderCompileOutcome::LinkFailed(String::from("bad link")),
    );
    assert_eq!(link_err.unwrap_err(), "bad link");
}

#[test]
fn destroyed_handles_resolve_to_nothing() {
    let mut renderer = headless_renderer();
    let id = renderer.create_index_buffer(vec![0, 1, 2]);
    assert!(renderer.get_index_buffer(id).is_some());
    renderer.destroy_index_buffer(id);
    assert!(renderer.get_index_buffer(id).is_none());
    // destroying again is a silent no-op
    renderer.destroy_index_buffer(id);
    assert!(renderer.get_index_buffer(id).is_none());
}

#[test]
fn index_buffer_counts() {
    let mut renderer = headless_renderer();
    let id = renderer.create_index_buffer(vec![0, 1, 2, 0, 2, 3]);
    assert_eq!(renderer.get_index_buffer(id).unwrap().get_count(), 6);
    renderer.set_index_buffer_indices(id, vec![2, 1, 0]);
    assert_eq!(renderer.get_index_buffer(id).unwrap().get_count(), 3);
}

#[test]
fn texture_pixels_read_back_as_rgba() {
    let mut renderer = headless_renderer();
    let id = renderer.create_texture(
        Vector2::new(2, 1),
        Pixels::RGB(vec![Vector3::new(0u8, 51, 255), Vector3::new(255u8, 0, 102)]),
    );
    let record = renderer.get_texture(id).unwrap();
    assert_eq!(record.get_size().x, 2);
    assert_eq!(record.get_size().y, 1);
    let pixels = record.get_pixels();
    assert_eq!(pixels.len(), 2);
    assert_eq!(pixels[0].x.raw(), 0);
    assert_eq!(pixels[0].y.raw(), 51 * ONE / 255);
    assert_eq!(pixels[0].z.raw(), ONE);
    assert_eq!(pixels[0].w.raw(), ONE);
    assert_eq!(pixels[1].x.raw(), ONE);
    assert_eq!(pixels[1].w.raw(), ONE);

    renderer.set_texture_pixels(
        id,
        Vector2::new(1, 1),
        Pixels::RGBAF(vec![Vector4::new(fx(1), fx(0), fx(0), fx(1))]),
    );
    let pixels = renderer.get_texture(id).unwrap().get_pixels();
    assert_eq!(pixels.len(), 1);
    assert_eq!(pixels[0].x.raw(), ONE);
    assert_eq!(pixels[0].y.raw(), 0);
}

#[test]
fn default_texture_is_opaque_white() {
    let renderer = headless_renderer();
    let pixels = renderer.get_default_texture().get_pixels();
    assert_eq!(pixels.len(), 1);
    assert_eq!(pixels[0].x.raw(), ONE);
    assert_eq!(pixels[0].y.raw(), ONE);
    assert_eq!(pixels[0].z.raw(), ONE);
    assert_eq!(pixels[0].w.raw(), ONE);
}

#[test]
fn draw_skips_on_missing_handle() {
    let mut renderer = headless_renderer();
    let vertex_buffer = renderer.create_vertex_buffer(
        vec![VertexBufferElement::Float2],
        vec![0u8; 24],
    );
    let bogus_shader = renderer
        .create_shader(String::new(), String::new(), ShaderCompileOutcome::Linked)
        .unwrap();
    renderer.destroy_shader(bogus_shader);
    renderer.take_commands();

    let camera: Camera<Fixed> = Default::default();
    let context = renderer.drawing_context(camera, false);
    context.draw(
        &mut renderer,
        bogus_shader,
        vertex_buffer,
        None,
        Matrix4x4::identity(),
        Vector3::new(fx(1), fx(1), fx(1)),
    );
    let commands = renderer.take_commands();
    // only the depth-test command of the context itself: no draw was
    // recorded for the unresolved shader handle
    assert_eq!(commands.len(), 1);
    assert!(matches!(commands[0], GpuCommand::SetDepthTest { enabled: false }));
}

#[test]
fn end_to_end_frame() {
    let surface = Surface::new(Vector2::new(640, 480));
    let mut renderer = surface.into_renderer(RendererAPI::OpenGL);
    let vertex_buffer = renderer.create_vertex_buffer(
        vec![VertexBufferElement::Float2],
        vec![0u8; 24],
    );
    let shader = renderer
        .create_shader(
            String::from("void main() { pass_through(); }"),
            String::from("void main() { emit(); }"),
            ShaderCompileOutcome::Linked,
        )
        .expect("trivial shader registers");
    renderer.clear(Vector3::new(fx(0), fx(0), fx(0)));
    let camera: Camera<Fixed> = Default::default();
    let context = renderer.drawing_context(camera, false);
    context.draw(
        &mut renderer,
        shader,
        vertex_buffer,
        None,
        Matrix4x4::identity(),
        Vector3::new(fx(1), fx(1), fx(1)),
    );
    renderer.present();

    let commands = renderer.take_commands();
    assert_eq!(commands.len(), 6);
    assert!(matches!(commands[0], GpuCommand::CreateTexture { .. }));
    assert!(matches!(commands[1], GpuCommand::CreateVertexBuffer { .. }));
    assert!(matches!(commands[2], GpuCommand::Clear { .. }));
    assert!(matches!(commands[3], GpuCommand::SetDepthTest { enabled: false }));
    match &commands[4] {
        GpuCommand::Draw { shader: s, vertex_buffer: v, index_buffer, texture, count, .. } => {
            assert_eq!(s.value(), shader.value());
            assert_eq!(v.value(), vertex_buffer.value());
            assert!(index_buffer.is_none());
            // no texture was passed: the default white texture is bound
            assert_eq!(texture.value(), renderer.get_default_texture().get_id().value());
            assert_eq!(*count, 3);
        },
        other => panic!("expected a draw command, got {}", command_name(other)),
    }
    assert!(matches!(commands[5], GpuCommand::Present));

    // the queue drains once: a second take yields nothing
    assert_eq!(renderer.take_commands().len(), 0);
}

#[test]
fn draw_indexed_uses_index_count() {
    let mut renderer = headless_renderer();
    let vertex_buffer = renderer.create_vertex_buffer(
        vec![VertexBufferElement::Float3],
        vec![0u8; 48],
    );
    let index_buffer = renderer.create_index_buffer(vec![0, 1, 2, 0, 2, 3]);
    let shader = renderer
        .create_shader(String::new(), String::new(), ShaderCompileOutcome::Linked)
        .unwrap();
    let texture = renderer.create_texture(
        Vector2::new(1, 1),
        Pixels::RGBA(vec![Vector4::new(9u8, 9, 9, 9)]),
    );
    renderer.take_commands();
    let camera: Camera<Fixed> = Default::default();
    let context = renderer.drawing_context(camera, true);
    context.draw_indexed(
        &mut renderer,
        shader,
        vertex_buffer,
        index_buffer,
        Some(texture),
        Matrix4x4::identity(),
        Vector3::new(fx(1), fx(1), fx(1)),
    );
    let commands = renderer.take_commands();
    assert_eq!(commands.len(), 2);
    assert!(matches!(commands[0], GpuCommand::SetDepthTest { enabled: true }));
    match &commands[1] {
        GpuCommand::Draw { index_buffer: ib, texture: t, count, .. } => {
            assert_eq!(ib.as_ref().map(|i| i.value()), Some(index_buffer.value()));
            assert_eq!(t.value(), texture.value());
            assert_eq!(*count, 6);
        },
        other => panic!("expected a draw command, got {}", command_name(other)),
    }
}

#[test]
fn renderer_returns_its_window() {
    let surface = Surface::new(Vector2::new(320, 200));
    let renderer = surface.into_renderer(RendererAPI::OpenGL);
    assert_eq!(renderer.get_window().get_size().x, 320);
    let back = renderer.take_window();
    assert_eq!(back.get_size().y, 200);
}

#[test]
fn surface_reports_and_drains_events() {
    let mut surface = Surface::new(Vector2::new(100, 100));
    surface.handle_resize(640, 480);
    surface.handle_key(Keycode::W, true, 1);
    surface.handle_close();
    assert_eq!(surface.get_size().x, 640);
    assert!(surface.get_key_state(Keycode::W));
    assert!(!surface.get_key_state(Keycode::S));
    let events = surface.events();
    assert_eq!(events.len(), 3);
    assert!(matches!(events[0], SurfaceEvent::Resize(size) if size.x == 640 && size.y == 480));
    assert!(matches!(events[1], SurfaceEvent::KeyPressed(Keycode::W)));
    assert!(matches!(events[2], SurfaceEvent::Close));
    // drained: nothing left until new messages arrive
    assert_eq!(surface.events().len(), 0);
}

#[test]
fn surface_key_auto_repeat_expands() {
    let mut surface = Surface::new(Vector2::new(10, 10));
    surface.handle_key(Keycode::A, true, 3);
    surface.handle_key(Keycode::A, false, 1);
    let events = surface.events();
    assert_eq!(events.len(), 4);
    for event in events.iter().take(3) {
        assert!(matches!(event, SurfaceEvent::KeyPressed(Keycode::A)));
    }
    assert!(matches!(events[3], SurfaceEvent::KeyReleased(Keycode::A)));
    assert!(!surface.get_key_state(Keycode::A));
}

#[test]
fn surface_degenerate_resize_is_dropped() {
    let mut surface = Surface::new(Vector2::new(100, 100));
    surface.handle_resize(0, 50);
    assert_eq!(surface.get_size().x, 100);
    assert_eq!(surface.events().len(), 0);
}

#[test]
fn surface_tracks_mouse() {
    let mut surface = Surface::new(Vector2::new(100, 100));
    surface.handle_mouse_move(Vector2::new(10, 20));
    surface.handle_mouse_button(MouseButton::Left, true, Vector2::new(11, 21));
    assert!(surface.get_mouse_button_state(MouseButton::Left));
    assert!(!surface.get_mouse_button_state(MouseButton::Right));
    assert_eq!(surface.get_mouse_position().x, 11);
    let events = surface.events();
    assert_eq!(events.len(), 2);
    assert!(matches!(events[0], SurfaceEvent::MouseMoved(p) if p.x == 10 && p.y == 20));
    assert!(
        matches!(events[1], SurfaceEvent::MousePressed(MouseButton::Left, p) if p.x == 11 && p.y == 21)
    );
}

#[test]
fn surface_visibility_toggles() {
    let mut surface = Surface::new(Vector2::new(10, 10));
    surface.show();
    surface.conceal();
    // the toggles run without touching events or size
    assert_eq!(surface.get_size().x, 10);
    assert_eq!(surface.events().len(), 0);
}

#[test]
fn dangling_texture_falls_back_to_default() {
    let mut renderer = headless_renderer();
    let vertex_buffer = renderer.create_vertex_buffer(
        vec![VertexBufferElement::Float2],
        vec![0u8; 24],
    );
    let shader = renderer
        .create_shader(String::new(), String::new(), ShaderCompileOutcome::Linked)
        .unwrap();
    let texture = renderer.create_texture(
        Vector2::new(1, 1),
        Pixels::RGBA(vec![Vector4::new(1u8, 2, 3, 4)]),
    );
    renderer.destroy_texture(texture);
    renderer.take_commands();
    let camera: Camera<Fixed> = Default::default();
    let context = renderer.drawing_context(camera, false);
    context.draw(
        &mut renderer,
        shader,
        vertex_buffer,
        Some(texture),
        Matrix4x4::identity(),
        Vector3::new(fx(1), fx(1), fx(1)),
    );
    let commands = renderer.take_commands();
    match &commands[1] {
        GpuCommand::Draw { texture: bound, .. } => {
            assert_eq!(bound.value(), renderer.get_default_texture().get_id().value());
        },
        other => panic!("expected a draw command, got {}", command_name(other)),
    }
}

#[test]
fn draw_indexed_skips_on_missing_index_buffer() {
    let mut renderer = headless_renderer();
    let vertex_buffer = renderer.create_vertex_buffer(
        vec![VertexBufferElement::Float2],
        vec![0u8; 24],
    );
    let shader = renderer
        .create_shader(String::new(), String::new(), ShaderCompileOutcome::Linked)
        .unwrap();
    let index_buffer = renderer.create_index_buffer(vec![0, 1, 2]);
    renderer.destroy_index_buffer(index_buffer);
    renderer.take_commands();
    let camera: Camera<Fixed> = Default::default();
    let context = renderer.drawing_context(camera, false);
    context.draw_indexed(
        &mut renderer,
        shader,
        vertex_buffer,
        index_buffer,
        None,
        Matrix4x4::identity(),
        Vector3::new(fx(1), fx(1), fx(1)),
    );
    let commands = renderer.take_commands();
    assert_eq!(commands.len(), 1);
    assert!(matches!(commands[0], GpuCommand::SetDepthTest { .. }));
}

#[test]
fn resize_records_viewport() {
    let mut renderer = headless_renderer();
    renderer.take_commands();
    renderer.resize(Vector2::new(1024, 768));
    let commands = renderer.take_commands();
    assert_eq!(commands.len(), 1);
    assert!(matches!(commands[0], GpuCommand::SetViewport { size } if size.x == 1024 && size.y == 768));
}

fn command_name(command: &GpuCommand) -> &'static str {
    match command {
        GpuCommand::DestroyShader { .. } => "DestroyShader",
        GpuCommand::CreateVertexBuffer { .. } => "CreateVertexBuffer",
        GpuCommand::SetVertexBufferLayout { .. } => "SetVertexBufferLayout",
        GpuCommand::SetVertexBufferData { .. } => "SetVertexBufferData",
        GpuCommand::DestroyVertexBuffer { .. } => "DestroyVertexBuffer",
        GpuCommand::CreateIndexBuffer { .. } => "CreateIndexBuffer",
        GpuCommand::SetIndexBufferIndices { .. } => "SetIndexBufferIndices",
        GpuCommand::DestroyIndexBuffer { .. } => "DestroyIndexBuffer",
        GpuCommand::CreateTexture { .. } => "CreateTexture",
        GpuCommand::SetTexturePixels { .. } => "SetTexturePixels",
        GpuCommand::DestroyTexture { .. } => "DestroyTexture",
        GpuCommand::SetViewport { .. } => "SetViewport",
        GpuCommand::SetDepthTest { .. } => "SetDepthTest",
        GpuCommand::Clear { .. } => "Clear",
        GpuCommand::Draw { .. } => "Draw",
        GpuCommand::Present => "Present",
    }
}
