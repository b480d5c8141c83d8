use psp_gfx::arena::SCRATCH_CAPACITY;
use psp_gfx::buffer::{IndexItem, INDEX_16BIT, INDEX_8BIT};
use psp_gfx::color::Color32;
use psp_gfx::command::{surfaces, Command, GuPrimitive, PixelFormat, Span, Surface};
use psp_gfx::frame::GfxExt;
use psp_gfx::rect::Rect;
use psp_gfx::vertex::{
    ColorFormat, Transform, VertexLayout, Width, COLOR_8888, TEXTURE_16BIT, TRANSFORM_2D,
    VERTEX_16BIT, VERTEX_8BIT,
};
use psp_gfx::PspGfx;

fn count(commands: &[Command], wanted: fn(&Command) -> bool) -> usize {
    commands.iter().filter(|c| wanted(c)).count()
}

fn is_clear(c: &Command) -> bool {
    matches!(c, Command::Clear(_))
}

fn is_draw(c: &Command) -> bool {
    matches!(c, Command::DrawArray { .. })
}

fn is_swap(c: &Command) -> bool {
    matches!(c, Command::SwapBuffers)
}

fn is_start(c: &Command) -> bool {
    matches!(c, Command::Start)
}

fn is_finish(c: &Command) -> bool {
    matches!(c, Command::Finish)
}

fn ready() -> PspGfx {
    let mut gfx = PspGfx::init(0, 0x88000, 0x110000);
    let _ = gfx.take_commands();
    gfx
}

#[test]
fn init_records_the_setup() {
    let mut gfx = PspGfx::init(0, 0x88000, 0x110000);
    assert_eq!(gfx.frame_number(), 0);
    assert!(gfx.scratch().is_empty());
    let commands = gfx.take_commands();
    assert_eq!(
        commands,
        vec![
            Command::Init,
            Command::LoadIdentity,
            Command::Start,
            Command::DrawBuffer { format: PixelFormat::Psm8888, address: 0, row: 512 },
            Command::DispBuffer { width: 480, height: 272, address: 0x88000, row: 512 },
            Command::DepthBuffer { address: 0x110000, row: 512 },
            Command::Offset { left: 2048 - 480 / 2, top: 2048 - 272 / 2 },
            Command::Viewport { cx: 2048, cy: 2048, width: 480, height: 272 },
            Command::DepthRange { near: 65535, far: 0 },
            Command::Scissor { x: 0, y: 0, w: 480, h: 272 },
            Command::EnableScissorTest,
            Command::Finish,
            Command::Sync,
            Command::WaitVblank,
            Command::Display(true),
        ]
    );
    assert!(gfx.take_commands().is_empty());
}

#[test]
fn empty_frame() {
    let mut gfx = ready();
    let frame = gfx.start_frame();
    frame.finish();
    assert_eq!(gfx.frame_number(), 1);
    assert_eq!(
        gfx.take_commands(),
        vec![
            Command::Start,
            Command::Finish,
            Command::Sync,
            Command::WaitVblank,
            Command::SwapBuffers
        ]
    );
}

#[test]
fn state_setters() {
    let mut gfx = ready();
    let mut frame = gfx.start_frame();
    frame.clear_color_depth(Color32::from_rgba(0x11223344), 7);
    frame.set_color(Color32::red());
    frame.set_scissor(Rect { x: 1, y: 2, w: 3, h: 4 });
    frame.finish();
    assert_eq!(
        gfx.take_commands(),
        vec![
            Command::Start,
            Command::ClearColor(0x44332211),
            Command::ClearDepth(7),
            Command::Clear(5),
            Command::Color(0xff0000ff),
            Command::Scissor { x: 1, y: 2, w: 3, h: 4 },
            Command::Finish,
            Command::Sync,
            Command::WaitVblank,
            Command::SwapBuffers
        ]
    );
}

#[test]
fn filled_rectangle_end_to_end() {
    let mut gfx = PspGfx::init(0, 0x88000, 0x110000);
    let mut frame = gfx.start_frame();
    frame.clear_color_depth(Color32::black(), 0);
    let layout = VertexLayout::new(Width::Bits16, Transform::Flat);
    let corners = [layout.from_position2(0, 0), layout.from_position2(480, 16)];
    let buffer = frame.get_memory_typed(layout, &corners);
    assert_eq!(buffer.len(), 2);
    frame.draw_array(&buffer, None, GuPrimitive::Sprites);
    frame.finish();
    let commands = gfx.take_commands();
    assert_eq!(count(&commands, is_clear), 1);
    assert_eq!(count(&commands, is_draw), 1);
    assert_eq!(count(&commands, is_swap), 1);
    assert_eq!(commands.len(), 15 + 1 + 3 + 1 + 4);
    assert_eq!(commands[16], Command::ClearColor(0xff000000));
    assert_eq!(commands[17], Command::ClearDepth(0));
    assert_eq!(commands[18], Command::Clear(5));
    assert_eq!(
        commands[19],
        Command::DrawArray {
            primitive: GuPrimitive::Sprites,
            vtype: VERTEX_16BIT | TRANSFORM_2D,
            count: 2,
            indices: None,
            vertices: Span { offset: 0, size: 16 },
        }
    );
    assert_eq!(commands[23], Command::SwapBuffers);
    assert_eq!(gfx.scratch(), &[0, 0, 0, 0, 0, 0, 0, 0, 0xe0, 0x01, 0x10, 0, 0, 0, 0, 0][..]);
}

#[test]
fn gfx_rect_draws_a_sprite() {
    let mut gfx = ready();
    let mut frame = gfx.start_frame();
    frame.set_color(Color32::from_rgb(0xE40303));
    frame.gfx_rect(Rect { x: 0, y: 45, w: 480, h: 45 });
    frame.finish();
    assert_eq!(
        gfx.take_commands(),
        vec![
            Command::Start,
            Command::Color(0xff0303e4),
            Command::DrawArray {
                primitive: GuPrimitive::Sprites,
                vtype: TEXTURE_16BIT | VERTEX_16BIT | TRANSFORM_2D,
                count: 2,
                indices: None,
                vertices: Span { offset: 0, size: 24 },
            },
            Command::Finish,
            Command::Sync,
            Command::WaitVblank,
            Command::SwapBuffers
        ]
    );
    assert_eq!(
        gfx.scratch(),
        &[0, 0, 0, 0, 0, 0, 45, 0, 0, 0, 0, 0, 0, 0, 0, 0, 0xe0, 0x01, 90, 0, 0, 0, 0, 0][..]
    );
}

#[test]
fn draw_with_byte_indices() {
    let mut gfx = ready();
    let mut frame = gfx.start_frame();
    let layout = VertexLayout::new(Width::Bits16, Transform::Flat)
        .with_color(Some(ColorFormat::Rgba8888));
    let triangle = [
        layout.from_position2_color(100, 200, Color32::red().as_abgr()),
        layout.from_position2_color(200, 100, Color32::green().as_abgr()),
        layout.from_position2_color(300, 200, Color32::blue().as_abgr()),
    ];
    let vertices = frame.get_memory_typed(layout, &triangle);
    let indices = frame.get_memory_index8(&[0, 1, 2]);
    assert_eq!(vertices.len(), 3);
    assert_eq!(indices.idx_len(), 3);
    assert_eq!(indices.idx_vtype(), INDEX_8BIT);
    frame.draw_array(&vertices, Some(&indices), GuPrimitive::Triangles);
    frame.finish();
    let commands = gfx.take_commands();
    assert_eq!(
        commands[1],
        Command::DrawArray {
            primitive: GuPrimitive::Triangles,
            vtype: COLOR_8888 | VERTEX_16BIT | TRANSFORM_2D | INDEX_8BIT,
            count: 3,
            indices: Some(Span { offset: 36, size: 3 }),
            vertices: Span { offset: 0, size: 36 },
        }
    );
    assert_eq!(&gfx.scratch()[36..], &[0, 1, 2][..]);
}

#[test]
fn index_count_wins_over_vertex_count() {
    let mut gfx = ready();
    let mut frame = gfx.start_frame();
    let layout = VertexLayout::new(Width::Bits8, Transform::Spatial);
    let data = [
        layout.from_position(0, 0, 0),
        layout.from_position(1, 0, 0),
        layout.from_position(2, 0, 0),
        layout.from_position(3, 0, 0),
        layout.from_position(4, 0, 0),
        layout.from_position(5, 0, 0),
    ];
    let vertices = frame.get_memory_typed(layout, &data);
    let indices = frame.get_memory_index8(&[5, 3, 1]);
    assert_eq!(vertices.len(), 6);
    frame.draw_array(&vertices, Some(&indices), GuPrimitive::Triangles);
    frame.draw_array(&vertices, None, GuPrimitive::Points);
    frame.finish();
    let commands = gfx.take_commands();
    assert_eq!(
        commands[1],
        Command::DrawArray {
            primitive: GuPrimitive::Triangles,
            vtype: VERTEX_8BIT | INDEX_8BIT,
            count: 3,
            indices: Some(Span { offset: 24, size: 3 }),
            vertices: Span { offset: 0, size: 24 },
        }
    );
    assert_eq!(
        commands[2],
        Command::DrawArray {
            primitive: GuPrimitive::Points,
            vtype: VERTEX_8BIT,
            count: 6,
            indices: None,
            vertices: Span { offset: 0, size: 24 },
        }
    );
}

#[test]
fn draw_with_half_word_indices() {
    let mut gfx = ready();
    let mut frame = gfx.start_frame();
    let layout = VertexLayout::new(Width::Bits8, Transform::Spatial);
    let data = [layout.from_position(0, 0, 0), layout.from_position(1, 0, 0)];
    let vertices = frame.get_memory_typed(layout, &data);
    let indices = frame.get_memory_index16(&[0x0100, 0x0001, 0xffff, 2]);
    assert_eq!(indices.idx_len(), 4);
    assert_eq!(indices.idx_vtype(), INDEX_16BIT);
    assert_eq!(indices.idx_buffer().size_bytes(), 8);
    assert_eq!(indices.idx_buffer().to_ptr(), 8);
    frame.draw_array(&vertices, Some(&indices), GuPrimitive::Lines);
    frame.finish();
    let commands = gfx.take_commands();
    assert_eq!(
        commands[1],
        Command::DrawArray {
            primitive: GuPrimitive::Lines,
            vtype: VERTEX_8BIT | INDEX_16BIT,
            count: 4,
            indices: Some(Span { offset: 8, size: 8 }),
            vertices: Span { offset: 0, size: 8 },
        }
    );
    assert_eq!(&gfx.scratch()[8..], &[0x00, 0x01, 0x01, 0x00, 0xff, 0xff, 0x02, 0x00][..]);
}

#[test]
fn index_kinds() {
    assert_eq!(IndexItem::Byte.size(), 1);
    assert_eq!(IndexItem::Half.size(), 2);
    assert_eq!(IndexItem::Byte.vtype(), 1 << 11);
    assert_eq!(IndexItem::Half.vtype(), 2 << 11);
}

fn abandon(gfx: &mut PspGfx, fail: bool) -> Result<(), ()> {
    let mut frame = gfx.start_frame();
    frame.set_color(Color32::white());
    if fail {
        return Err(());
    }
    frame.gfx_rect(Rect { x: 0, y: 0, w: 1, h: 1 });
    frame.finish();
    Ok(())
}

#[test]
fn early_exit_still_ends_the_frame_once() {
    let mut gfx = ready();
    assert_eq!(abandon(&mut gfx, true), Err(()));
    let commands = gfx.take_commands();
    assert_eq!(
        commands,
        vec![
            Command::Start,
            Command::Color(0xffffffff),
            Command::Finish,
            Command::Sync,
            Command::WaitVblank,
            Command::SwapBuffers
        ]
    );
    assert!(gfx.take_commands().is_empty());
}

#[test]
fn early_exit_then_next_frame() {
    let mut gfx = ready();
    assert_eq!(abandon(&mut gfx, true), Err(()));
    assert_eq!(abandon(&mut gfx, false), Ok(()));
    let commands = gfx.take_commands();
    assert_eq!(count(&commands, is_start), 2);
    assert_eq!(count(&commands, is_finish), 2);
    assert_eq!(count(&commands, is_swap), 2);
    assert_eq!(count(&commands, is_draw), 1);
    assert_eq!(commands[2], Command::Finish);
    assert_eq!(commands[5], Command::SwapBuffers);
    assert_eq!(commands[6], Command::Start);
    assert_eq!(gfx.frame_number(), 2);
}

#[test]
fn finish_ends_the_frame_once() {
    let mut gfx = ready();
    for _ in 0..3 {
        let frame = gfx.start_frame();
        frame.finish();
    }
    let commands = gfx.take_commands();
    assert_eq!(count(&commands, is_start), 3);
    assert_eq!(count(&commands, is_finish), 3);
    assert_eq!(count(&commands, is_swap), 3);
    assert_eq!(commands.len(), 15);
}

#[test]
fn scratch_is_reused_by_the_next_frame() {
    let mut gfx = ready();
    let mut frame = gfx.start_frame();
    let first = frame.get_memory_untyped(&[1, 2, 3, 4]);
    assert!(frame.owns(&first));
    frame.finish();
    assert!(!gfx.owns(&first));
    assert_eq!(gfx.scratch(), &[1, 2, 3, 4][..]);

    let mut frame = gfx.start_frame();
    assert!(!frame.owns(&first));
    let second = frame.get_memory_untyped(&[9, 8, 7, 6]);
    assert!(frame.owns(&second));
    assert!(!frame.owns(&first));
    assert_eq!(second.to_ptr(), first.to_ptr());
    assert_eq!(second.size_bytes(), first.size_bytes());
    assert_ne!(second.frame(), first.frame());
    frame.finish();
    assert_eq!(gfx.scratch(), &[9, 8, 7, 6][..]);

    let frame = gfx.start_frame();
    assert!(!frame.owns(&first));
    assert!(!frame.owns(&second));
    assert!(frame.gfx.scratch().is_empty());
    frame.finish();
}

#[test]
fn regions_follow_one_another() {
    let mut gfx = ready();
    let mut frame = gfx.start_frame();
    assert_eq!(frame.remaining(), SCRATCH_CAPACITY);
    let a = frame.get_memory_untyped(&[1, 2, 3]);
    let b = frame.get_memory_untyped(&[]);
    let c = frame.get_memory_untyped(&[4, 5]);
    assert_eq!((a.to_ptr(), a.size_bytes(), a.frame()), (0, 3, 1));
    assert_eq!((b.to_ptr(), b.size_bytes(), b.frame()), (3, 0, 1));
    assert_eq!((c.to_ptr(), c.size_bytes(), c.frame()), (3, 2, 1));
    assert_eq!(frame.remaining(), SCRATCH_CAPACITY - 5);
    assert!(frame.owns(&a) && frame.owns(&b) && frame.owns(&c));
    frame.finish();
    assert_eq!(gfx.scratch(), &[1, 2, 3, 4, 5][..]);
}

#[test]
fn source_data_is_copied() {
    let mut gfx = ready();
    let mut frame = gfx.start_frame();
    let mut data = vec![1u8, 2, 3];
    let _ = frame.get_memory_untyped(&data);
    data[0] = 99;
    frame.finish();
    assert_eq!(gfx.scratch(), &[1, 2, 3][..]);
    assert_eq!(data, vec![99, 2, 3]);
}

#[test]
fn scratch_can_be_filled_to_the_brim() {
    let mut gfx = ready();
    let mut frame = gfx.start_frame();
    let data = vec![0xabu8; SCRATCH_CAPACITY];
    let buffer = frame.get_memory_untyped(&data);
    assert_eq!(buffer.size_bytes(), SCRATCH_CAPACITY);
    assert_eq!(frame.remaining(), 0);
    let empty = frame.get_memory_untyped(&[]);
    assert_eq!(empty.to_ptr(), SCRATCH_CAPACITY);
    frame.finish();
}

#[test]
fn typed_buffer_views() {
    let mut gfx = ready();
    let mut frame = gfx.start_frame();
    let layout = VertexLayout::new(Width::Float32, Transform::Spatial);
    let empty = frame.get_memory_typed(layout, &[]);
    assert!(empty.is_empty());
    assert_eq!(empty.len(), 0);
    let one = frame.get_memory_typed(layout, &[layout.from_position(1, 2, 3)]);
    assert!(!one.is_empty());
    assert_eq!(one.len(), 1);
    assert_eq!(one.layout(), layout);
    assert_eq!(one.as_untyped().size_bytes(), 12);
    assert_eq!(one.as_untyped().to_ptr(), 0);
    let untyped = one.into_untyped();
    assert_eq!(untyped.size_bytes(), 12);
    assert!(frame.owns(&untyped));
    frame.finish();
}

#[test]
fn typed_buffer_reads_as_its_region() {
    let mut gfx = ready();
    let mut frame = gfx.start_frame();
    let _ = frame.get_memory_untyped(&[0; 5]);
    let layout = VertexLayout::new(Width::Bits16, Transform::Flat);
    let typed = frame.get_memory_typed(layout, &[layout.from_position2(1, 2); 3]);
    assert_eq!(typed.size_bytes(), 24);
    assert_eq!(typed.to_ptr(), 5);
    assert_eq!(typed.frame(), 1);
    frame.finish();
}

#[test]
fn commands_handed_out_are_balanced() {
    let mut gfx = PspGfx::init(0, 0, 0);
    let mut all = gfx.take_commands();
    let _ = abandon(&mut gfx, true);
    all.extend(gfx.take_commands());
    let _ = abandon(&mut gfx, false);
    let frame = gfx.start_frame();
    frame.finish();
    let _ = gfx.start_frame();
    all.extend(gfx.take_commands());
    assert!(!gfx.in_frame());
    assert_eq!(count(&all, is_start), count(&all, is_finish));
    assert_eq!(count(&all, is_start), 5);
    assert_eq!(count(&all, is_swap), 4);
    let mut open = 0;
    for c in &all {
        if is_start(c) {
            open += 1;
        }
        if is_finish(c) {
            open -= 1;
        }
        assert!(open == 0 || open == 1);
    }
    assert_eq!(open, 0);
}

#[test]
fn surfaces_of_a_context() {
    assert_eq!(
        surfaces(),
        [
            Surface { width: 512, height: 272, format: PixelFormat::Psm8888 },
            Surface { width: 512, height: 272, format: PixelFormat::Psm8888 },
            Surface { width: 512, height: 272, format: PixelFormat::Psm4444 },
        ]
    );
}
