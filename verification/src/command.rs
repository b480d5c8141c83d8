//! The commands that go to the graphics engine, as plain values.

use vstd::prelude::*;

verus! {

/// The width of the display in pixels.
pub const SCREEN_WIDTH: i32 = 480;

/// The height of the display in pixels.
pub const SCREEN_HEIGHT: i32 = 272;

/// The width of a surface's row in pixels.
pub const BUF_WIDTH: i32 = 512;

/// Clear mask of the colour surface.
pub const COLOR_BUFFER_BIT: u32 = 1;

/// Clear mask of the depth surface.
pub const DEPTH_BUFFER_BIT: u32 = 4;

/// How the pixels of a surface are encoded.
#[derive(Clone, Copy, Debug, PartialEq, Eq, Structural)]
pub enum PixelFormat {
    /// 32 bits, 8 for each channel.
    Psm8888,
    /// 16 bits, 4 for each channel.
    Psm4444,
}

/// A surface in video memory, as it is asked for.
#[derive(Clone, Copy, Debug, PartialEq, Eq, Structural)]
pub struct Surface {
    pub width: i32,
    pub height: i32,
    pub format: PixelFormat,
}

/// The three surfaces of a context: two colour surfaces of the same kind,
/// one drawn to and one shown, and a depth surface.
pub open spec fn context_surfaces() -> Seq<Surface> {
    seq![
        Surface { width: BUF_WIDTH, height: SCREEN_HEIGHT, format: PixelFormat::Psm8888 },
        Surface { width: BUF_WIDTH, height: SCREEN_HEIGHT, format: PixelFormat::Psm8888 },
        Surface { width: BUF_WIDTH, height: SCREEN_HEIGHT, format: PixelFormat::Psm4444 },
    ]
}

/// The three surfaces that a context needs, in the order in which their
/// addresses are handed to it.
pub fn surfaces() -> (s: [Surface; 3])
    ensures
        s@ == context_surfaces(),
{
    let s: [Surface; 3] = [
        Surface { width: BUF_WIDTH, height: SCREEN_HEIGHT, format: PixelFormat::Psm8888 },
        Surface { width: BUF_WIDTH, height: SCREEN_HEIGHT, format: PixelFormat::Psm8888 },
        Surface { width: BUF_WIDTH, height: SCREEN_HEIGHT, format: PixelFormat::Psm4444 },
    ];
    assert(s@ =~= context_surfaces());
    s
}

/// What the vertices of a draw command make.
#[derive(Clone, Copy, Debug, PartialEq, Eq, Structural)]
pub enum GuPrimitive {
    Points,
    Lines,
    LineStrip,
    Triangles,
    TriangleStrip,
    TriangleFan,
    Sprites,
}

/// A stretch of the scratch memory.
#[derive(Clone, Copy, Debug, PartialEq, Eq, Structural)]
pub struct Span {
    pub offset: usize,
    pub size: usize,
}

/// One command to the graphics engine.
#[derive(Clone, Copy, Debug, PartialEq, Eq)]
pub enum Command {
    /// Sets the engine up.
    Init,
    /// Loads the identity into the current matrix.
    LoadIdentity,
    /// Opens a command list.
    Start,
    /// Names the surface that is drawn to.
    DrawBuffer { format: PixelFormat, address: u32, row: i32 },
    /// Names the surface that is shown, and its size.
    DispBuffer { width: i32, height: i32, address: u32, row: i32 },
    /// Names the depth surface.
    DepthBuffer { address: u32, row: i32 },
    /// Sets the offset of the virtual coordinates.
    Offset { left: u32, top: u32 },
    /// Sets the viewport by its centre and size.
    Viewport { cx: i32, cy: i32, width: i32, height: i32 },
    /// Sets the range of depth values.
    DepthRange { near: i32, far: i32 },
    /// Sets the scissor rectangle.
    Scissor { x: i32, y: i32, w: i32, h: i32 },
    /// Switches the scissor test on.
    EnableScissorTest,
    /// Closes the command list.
    Finish,
    /// Waits until the engine has worked the list off.
    Sync,
    /// Waits for the next vertical blank.
    WaitVblank,
    /// Switches the display on or off.
    Display(bool),
    /// Swaps the surface that is shown and the one that is drawn to.
    SwapBuffers,
    /// Sets the colour that a clear writes, alpha in the highest byte.
    ClearColor(u32),
    /// Sets the depth that a clear writes.
    ClearDepth(u32),
    /// Clears the surfaces of the mask.
    Clear(u32),
    /// Sets the colour that is drawn with, alpha in the highest byte.
    Color(u32),
    /// Draws `count` vertices of the format `vtype` from `vertices`, in the
    /// order that `indices` gives if there are any.
    DrawArray { primitive: GuPrimitive, vtype: i32, count: i32, indices: Option<Span>, vertices: Span },
}

/// The commands that set the engine up: the three surfaces, the geometry of
/// the display, the scissor test, and an empty list that is worked off
/// before the display is switched on.
pub open spec fn init_commands(fbp0: u32, fbp1: u32, zbp: u32) -> Seq<Command> {
    seq![
        Command::Init,
        Command::LoadIdentity,
        Command::Start,
        Command::DrawBuffer { format: PixelFormat::Psm8888, address: fbp0, row: BUF_WIDTH },
        Command::DispBuffer { width: SCREEN_WIDTH, height: SCREEN_HEIGHT, address: fbp1, row: BUF_WIDTH },
        Command::DepthBuffer { address: zbp, row: BUF_WIDTH },
        Command::Offset { left: 1808, top: 1912 },
        Command::Viewport { cx: 2048, cy: 2048, width: SCREEN_WIDTH, height: SCREEN_HEIGHT },
        Command::DepthRange { near: 65535, far: 0 },
        Command::Scissor { x: 0, y: 0, w: SCREEN_WIDTH, h: SCREEN_HEIGHT },
        Command::EnableScissorTest,
        Command::Finish,
        Command::Sync,
        Command::WaitVblank,
        Command::Display(true),
    ]
}

/// The commands that end a frame: close the list, wait for the engine,
/// wait for the vertical blank, swap the surfaces.
pub open spec fn finish_commands() -> Seq<Command> {
    seq![Command::Finish, Command::Sync, Command::WaitVblank, Command::SwapBuffers]
}

/// The commands that clear colour and depth.
pub open spec fn clear_commands(color: u32, depth: u32) -> Seq<Command> {
    seq![
        Command::ClearColor(color),
        Command::ClearDepth(depth),
        Command::Clear(COLOR_BUFFER_BIT | DEPTH_BUFFER_BIT),
    ]
}

/// What a command does to the number of open command lists.
pub open spec fn list_change(c: Command) -> int {
    match c {
        Command::Start => 1,
        Command::Finish => -1,
        _ => 0,
    }
}

/// The number of command lists that the commands open and do not close.
pub open spec fn open_lists(c: Seq<Command>) -> int
    decreases c.len(),
{
    if c.len() == 0 {
        0
    } else {
        open_lists(c.drop_last()) + list_change(c.last())
    }
}

/// The lists left open by two runs of commands, one after the other, are
/// those left open by each.
pub proof fn lemma_open_lists_concat(a: Seq<Command>, b: Seq<Command>)
    ensures
        open_lists(a + b) == open_lists(a) + open_lists(b),
    decreases b.len(),
{
    if b.len() == 0 {
        assert(a + b =~= a);
    } else {
        assert((a + b).drop_last() =~= a + b.drop_last());
        lemma_open_lists_concat(a, b.drop_last());
    }
}

/// One command leaves open what it opens.
pub proof fn lemma_open_lists_one(c: Command)
    ensures
        open_lists(seq![c]) == list_change(c),
{
    reveal_with_fuel(open_lists, 2);
    assert(seq![c].drop_last() =~= Seq::<Command>::empty());
    assert(seq![c].last() == c);
}

/// The commands that set the engine up close the list that they open.
pub proof fn lemma_init_closes_its_list(fbp0: u32, fbp1: u32, zbp: u32)
    ensures
        open_lists(init_commands(fbp0, fbp1, zbp)) == 0,
{
    let head = seq![Command::Init, Command::LoadIdentity, Command::Start];
    let surfaces = seq![
        Command::DrawBuffer { format: PixelFormat::Psm8888, address: fbp0, row: BUF_WIDTH },
        Command::DispBuffer { width: SCREEN_WIDTH, height: SCREEN_HEIGHT, address: fbp1, row: BUF_WIDTH },
        Command::DepthBuffer { address: zbp, row: BUF_WIDTH },
        Command::Offset { left: 1808, top: 1912 },
    ];
    let geometry = seq![
        Command::Viewport { cx: 2048, cy: 2048, width: SCREEN_WIDTH, height: SCREEN_HEIGHT },
        Command::DepthRange { near: 65535, far: 0 },
        Command::Scissor { x: 0, y: 0, w: SCREEN_WIDTH, h: SCREEN_HEIGHT },
        Command::EnableScissorTest,
    ];
    let tail = seq![Command::Finish, Command::Sync, Command::WaitVblank, Command::Display(true)];
    assert(init_commands(fbp0, fbp1, zbp) =~= head + surfaces + geometry + tail);
    lemma_open_lists_concat(head, surfaces);
    lemma_open_lists_concat(head + surfaces, geometry);
    lemma_open_lists_concat(head + surfaces + geometry, tail);
    reveal_with_fuel(open_lists, 5);
    assert(head.drop_last() =~= seq![Command::Init, Command::LoadIdentity]);
    assert(head.drop_last().drop_last() =~= seq![Command::Init]);
    assert(head.drop_last().drop_last().drop_last() =~= Seq::<Command>::empty());
    assert(open_lists(head) == 1);
    assert(surfaces.drop_last().drop_last().drop_last().drop_last() =~= Seq::<Command>::empty());
    assert(open_lists(surfaces) == 0);
    assert(geometry.drop_last().drop_last().drop_last().drop_last() =~= Seq::<Command>::empty());
    assert(open_lists(geometry) == 0);
    assert(tail.drop_last().drop_last().drop_last().drop_last() =~= Seq::<Command>::empty());
    assert(open_lists(tail) == -1);
}

/// The commands that end a frame close one list.
pub proof fn lemma_finish_closes_one_list()
    ensures
        open_lists(finish_commands()) == -1,
{
    let c = finish_commands();
    reveal_with_fuel(open_lists, 5);
    assert(c.drop_last().drop_last().drop_last().drop_last() =~= Seq::<Command>::empty());
}

/// The commands that clear neither open nor close a list.
pub proof fn lemma_clear_keeps_lists(color: u32, depth: u32)
    ensures
        open_lists(clear_commands(color, depth)) == 0,
{
    let c = clear_commands(color, depth);
    reveal_with_fuel(open_lists, 4);
    assert(c.drop_last().drop_last().drop_last() =~= Seq::<Command>::empty());
}

} // verus!
