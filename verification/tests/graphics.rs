use psp_gfx::buffer::{IndexBuffer, UntypedBuffer, INDEX_8BIT};
use psp_gfx::command::{Command, GuPrimitive, Span};
use psp_gfx::graphics::color::Color;
use psp_gfx::graphics::{GraphicsManager, Vertex};
use psp_gfx::record;
use psp_gfx::rect::Rect;
use psp_gfx::vertex::{Transform, VertexLayout, Width};
use psp_gfx::PspGfx;

#[test]
fn bare_color_from_rgba() {
    let c = Color::from_rgba(0x11223344);
    assert_eq!(c.0, 0x44332211);
    assert_eq!((c.r(), c.g(), c.b(), c.a()), (0x11, 0x22, 0x33, 0x44));
    assert_eq!(Color::from_rgba(0x000000ff), Color(0xff000000));
}

#[test]
fn bare_color_from_rgb() {
    let c = Color::from_rgb(0xFF8C00);
    assert_eq!(c.0, 0xff008cff);
    assert_eq!((c.r(), c.g(), c.b(), c.a()), (0xff, 0x8c, 0x00, 0xff));
    assert_eq!(Color::from_rgb(0x12ff8c00), c);
}

#[test]
fn bare_named_colors() {
    assert_eq!(Color::black().0, 0xff000000);
    assert_eq!(Color::white().0, 0xffffffff);
    assert_eq!(Color::red().0, 0xff0000ff);
    assert_eq!(Color::green().0, 0xff00ff00);
    assert_eq!(Color::blue().0, 0xffff0000);
}

#[test]
fn bare_color_channels() {
    let c = Color(0xaabbccdd);
    assert_eq!(c.r(), 0xdd);
    assert_eq!(c.g(), 0xcc);
    assert_eq!(c.b(), 0xbb);
    assert_eq!(c.a(), 0xaa);
}

#[test]
fn vertex_patterns() {
    let v = Vertex { u: 1, v: 0xffff, x: -1, y: i16::MIN, z: i16::MAX };
    assert_eq!(
        v.to_record(),
        record::Vertex {
            u: 1,
            v: 0xffff,
            x: 0xffff,
            y: 0x8000,
            z: 0x7fff,
            ..record::Vertex::default()
        }
    );
    assert_eq!(Vertex::default(), Vertex { u: 0, v: 0, x: 0, y: 0, z: 0 });
}

#[test]
fn manager_fills_a_flag() {
    let mut gfx = GraphicsManager::init(0, 0x88000, 0x110000);
    assert_eq!(gfx.take_commands().len(), 15);
    gfx.begin_frame();
    gfx.clear_color_depth(Color::black(), 0);
    let colors = [0xE40303u32, 0xFF8C00, 0xFFED00, 0x008026, 0x004CFF, 0x732982];
    for (i, &c) in colors.iter().enumerate() {
        gfx.fill_rect(Rect { x: 0, y: 45 * i as i32, w: 480, h: 45 }, Color::from_rgb(c));
    }
    gfx.end_frame();
    let commands = gfx.take_commands();
    assert_eq!(commands.len(), 1 + 3 + 6 * 2 + 4);
    assert_eq!(commands[0], Command::Start);
    assert_eq!(commands[1], Command::ClearColor(0xff000000));
    assert_eq!(commands[2], Command::ClearDepth(0));
    assert_eq!(commands[3], Command::Clear(5));
    assert_eq!(commands[4], Command::Color(0xff0303e4));
    assert_eq!(
        commands[5],
        Command::DrawArray {
            primitive: GuPrimitive::Sprites,
            vtype: 0x800102,
            count: 2,
            indices: None,
            vertices: Span { offset: 0, size: 24 },
        }
    );
    assert_eq!(commands[14], Command::Color(0xff822973));
    assert_eq!(
        commands[15],
        Command::DrawArray {
            primitive: GuPrimitive::Sprites,
            vtype: 0x800102,
            count: 2,
            indices: None,
            vertices: Span { offset: 120, size: 24 },
        }
    );
    assert_eq!(
        &commands[16..],
        &[Command::Finish, Command::Sync, Command::WaitVblank, Command::SwapBuffers][..]
    );
    assert_eq!(gfx.scratch().len(), 144);
    assert_eq!(
        &gfx.scratch()[120..],
        &[0, 0, 0, 0, 0, 0, 225, 0, 0, 0, 0, 0, 0, 0, 0, 0, 0xe0, 0x01, 0x0e, 0x01, 0, 0, 0, 0][..]
    );
}

#[test]
fn manager_draws_vertices() {
    let mut gfx = GraphicsManager::init(1, 2, 3);
    let _ = gfx.take_commands();
    gfx.begin_frame();
    let vtx = [
        Vertex { u: 1, v: 2, x: 3, y: -4, z: 5 },
        Vertex { u: 6, v: 7, x: 8, y: 9, z: 10 },
        Vertex::default(),
    ];
    gfx.draw(&vtx, Color::blue(), GuPrimitive::Triangles);
    gfx.draw(&[], Color::red(), GuPrimitive::Points);
    gfx.end_frame();
    assert_eq!(
        gfx.take_commands(),
        vec![
            Command::Start,
            Command::Color(0xffff0000),
            Command::DrawArray {
                primitive: GuPrimitive::Triangles,
                vtype: 0x800102,
                count: 3,
                indices: None,
                vertices: Span { offset: 0, size: 36 },
            },
            Command::Color(0xff0000ff),
            Command::DrawArray {
                primitive: GuPrimitive::Points,
                vtype: 0x800102,
                count: 0,
                indices: None,
                vertices: Span { offset: 36, size: 0 },
            },
            Command::Finish,
            Command::Sync,
            Command::WaitVblank,
            Command::SwapBuffers
        ]
    );
    assert_eq!(
        &gfx.scratch()[..24],
        &[1, 0, 2, 0, 3, 0, 0xfc, 0xff, 5, 0, 0, 0, 6, 0, 7, 0, 8, 0, 9, 0, 10, 0, 0, 0][..]
    );
}

#[test]
fn manager_ends_an_open_frame_once() {
    let mut gfx = GraphicsManager::init(1, 2, 3);
    let _ = gfx.take_commands();
    gfx.begin_frame();
    gfx.begin_frame();
    gfx.end_frame();
    gfx.end_frame();
    assert_eq!(
        gfx.take_commands(),
        vec![
            Command::Start,
            Command::Finish,
            Command::Sync,
            Command::WaitVblank,
            Command::SwapBuffers,
            Command::Start,
            Command::Finish,
            Command::Sync,
            Command::WaitVblank,
            Command::SwapBuffers,
        ]
    );
}

#[test]
fn buffer_conversions() {
    let mut gfx = PspGfx::init(0, 0, 0);
    let mut frame = gfx.start_frame();
    let layout = VertexLayout::new(Width::Bits8, Transform::Spatial);
    let typed = frame.get_memory_typed(layout, &[layout.from_position(1, 2, 3)]);
    let untyped = UntypedBuffer::from(typed);
    assert_eq!(untyped, *typed.as_untyped());
    assert_eq!(untyped.size_bytes(), 4);
    let raw = frame.get_memory_untyped(&[2, 1, 0]);
    let indices = IndexBuffer::from(raw);
    assert_eq!(indices.idx_len(), 3);
    assert_eq!(indices.idx_vtype(), INDEX_8BIT);
    assert_eq!(*indices.idx_buffer(), raw);
    frame.finish();
}
