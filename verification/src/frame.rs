//! The graphics context and its frames.
//!
//! The context keeps the commands that are to go to the graphics engine,
//! in order, and the scratch memory of the frame that is open. A frame is
//! a handle on the context while a command list is open.

use crate::arena::{Arena, REGION_LIMIT, SCRATCH_CAPACITY};
use crate::buffer::{
    half_bytes, lemma_half_bytes_len, IndexBuffer, IndexItem, Indices, Records, Region, TypedBuffer,
    UntypedBuffer,
};
use crate::color::Color32;
use crate::command::{
    clear_commands, finish_commands, init_commands, lemma_clear_keeps_lists,
    lemma_finish_closes_one_list, lemma_init_closes_its_list, lemma_open_lists_concat,
    lemma_open_lists_one, open_lists, Command, GuPrimitive, PixelFormat, Span, BUF_WIDTH,
    COLOR_BUFFER_BIT, DEPTH_BUFFER_BIT, SCREEN_HEIGHT, SCREEN_WIDTH,
};
use crate::record::Vertex;
use crate::rect::Rect;
use crate::vertex::VertexLayout;
use vstd::prelude::*;

verus! {

/// What a context is: the commands recorded and not yet taken, the scratch
/// memory, whether a frame is open, how many frames were opened, and the
/// addresses of the three surfaces.
pub struct GfxState {
    pub commands: Seq<Command>,
    pub scratch: Seq<u8>,
    pub in_frame: bool,
    pub frame: u64,
    pub fbp0: u32,
    pub fbp1: u32,
    pub zbp: u32,
}

impl GfxState {
    /// The state after the commands `c` were recorded.
    pub open spec fn emit(self, c: Seq<Command>) -> GfxState {
        GfxState { commands: self.commands + c, ..self }
    }

    /// The state after an open frame, if there is one, was ended.
    pub open spec fn closed(self) -> GfxState {
        if self.in_frame {
            GfxState { commands: self.commands + finish_commands(), in_frame: false, ..self }
        } else {
            self
        }
    }

    /// The state after a frame was opened: a new list, empty scratch
    /// memory, the next frame number.
    pub open spec fn opened(self) -> GfxState {
        GfxState {
            commands: self.commands.push(Command::Start),
            scratch: Seq::empty(),
            in_frame: true,
            frame: (self.frame + 1) as u64,
            ..self
        }
    }

    /// The state after `data` was stored in the scratch memory.
    pub open spec fn stored(self, data: Seq<u8>) -> GfxState {
        GfxState { scratch: self.scratch + data, ..self }
    }

    /// Whether `n` more bytes can be stored as one region.
    pub open spec fn has_room(self, n: nat) -> bool {
        n < REGION_LIMIT && self.scratch.len() + n <= SCRATCH_CAPACITY
    }

    /// Whether the commands recorded leave exactly the list of the open
    /// frame open, or none where no frame is open.
    pub open spec fn balanced(self) -> bool {
        open_lists(self.commands) == if self.in_frame {
            1int
        } else {
            0int
        }
    }

    /// Whether the buffer `r` is one of the open frame: made in it, and
    /// inside what the scratch memory holds.
    pub open spec fn holds(self, r: Region) -> bool {
        self.in_frame && r.frame == self.frame && r.offset + r.size <= self.scratch.len()
    }
}

/// The region that a buffer of `size` bytes gets when it is stored next.
pub open spec fn next_region(s: GfxState, size: nat) -> Region {
    Region { offset: s.scratch.len(), size, frame: s.frame }
}

/// The draw command for a vertex buffer and, if there is one, an index
/// buffer: the format is the union of the tags of both, the count is the
/// number of indices if there are any and else the number of vertices.
pub open spec fn draw_command(
    primitive: GuPrimitive,
    vertex: Records,
    index: Option<Indices>,
) -> Command {
    Command::DrawArray {
        primitive,
        vtype: match index {
            Some(i) => vertex.layout.tag() | i.item.tag(),
            None => vertex.layout.tag(),
        },
        count: match index {
            Some(i) => i.len() as i32,
            None => vertex.len() as i32,
        },
        indices: match index {
            Some(i) => Some(Span { offset: i.region.offset as usize, size: i.region.size as usize }),
            None => None,
        },
        vertices: Span {
            offset: vertex.region.offset as usize,
            size: vertex.region.size as usize,
        },
    }
}

/// The graphics context.
pub struct PspGfx {
    fbp0: u32,
    fbp1: u32,
    zbp: u32,
    commands: Vec<Command>,
    arena: Arena,
    in_frame: bool,
    frame: u64,
}

impl View for PspGfx {
    type V = GfxState;

    closed spec fn view(&self) -> GfxState {
        GfxState {
            commands: self.commands@,
            scratch: self.arena@,
            in_frame: self.in_frame,
            frame: self.frame,
            fbp0: self.fbp0,
            fbp1: self.fbp1,
            zbp: self.zbp,
        }
    }
}

impl PspGfx {
    /// The state of a new context.
    pub open spec fn initial(fbp0: u32, fbp1: u32, zbp: u32) -> GfxState {
        GfxState {
            commands: init_commands(fbp0, fbp1, zbp),
            scratch: Seq::empty(),
            in_frame: false,
            frame: 0,
            fbp0,
            fbp1,
            zbp,
        }
    }

    /// A context over two colour surfaces and a depth surface at the given
    /// addresses, with the commands that set the engine up recorded and no
    /// frame open.
    pub fn init(fbp0: u32, fbp1: u32, zbp: u32) -> (g: PspGfx)
        ensures
            g@ == PspGfx::initial(fbp0, fbp1, zbp),
    {
        let mut commands: Vec<Command> = Vec::new();
        commands.push(Command::Init);
        commands.push(Command::LoadIdentity);
        commands.push(Command::Start);
        commands.push(Command::DrawBuffer { format: PixelFormat::Psm8888, address: fbp0, row: BUF_WIDTH });
        commands.push(
            Command::DispBuffer {
                width: SCREEN_WIDTH,
                height: SCREEN_HEIGHT,
                address: fbp1,
                row: BUF_WIDTH,
            },
        );
        commands.push(Command::DepthBuffer { address: zbp, row: BUF_WIDTH });
        commands.push(Command::Offset { left: 1808, top: 1912 });
        commands.push(
            Command::Viewport { cx: 2048, cy: 2048, width: SCREEN_WIDTH, height: SCREEN_HEIGHT },
        );
        commands.push(Command::DepthRange { near: 65535, far: 0 });
        commands.push(Command::Scissor { x: 0, y: 0, w: SCREEN_WIDTH, h: SCREEN_HEIGHT });
        commands.push(Command::EnableScissorTest);
        commands.push(Command::Finish);
        commands.push(Command::Sync);
        commands.push(Command::WaitVblank);
        commands.push(Command::Display(true));
        assert(commands@ =~= init_commands(fbp0, fbp1, zbp));
        PspGfx { fbp0, fbp1, zbp, commands, arena: Arena::new(), in_frame: false, frame: 0 }
    }

    /// Ends the open frame, if there is one: records the closing of the
    /// command list, the wait for the engine, the wait for the vertical
    /// blank and the swap of the surfaces.
    fn finish_non_consuming(&mut self)
        ensures
            final(self)@ == old(self)@.closed(),
    {
        if self.in_frame {
            self.commands.push(Command::Finish);
            self.commands.push(Command::Sync);
            self.commands.push(Command::WaitVblank);
            self.commands.push(Command::SwapBuffers);
            self.in_frame = false;
            assert(self.commands@ =~= old(self).commands@ + finish_commands());
        }
    }

    /// Opens a frame. A frame that an earlier handle left open is ended
    /// first; then a new command list is opened, the scratch memory is
    /// emptied, and the frame number goes up by one.
    pub fn start_frame(&mut self) -> (f: Frame<'_>)
        requires
            old(self)@.frame < u64::MAX,
        ensures
            f@ == old(self)@.closed().opened(),
            *final(self) == *final(f.gfx),
    {
        self.finish_non_consuming();
        self.commands.push(Command::Start);
        self.arena.reset();
        self.in_frame = true;
        self.frame = self.frame + 1;
        Frame { gfx: self }
    }

    /// Hands out the commands recorded so far, in order, and keeps none. A
    /// frame that a handle left open is ended first, so that what is
    /// handed out never stops inside a frame.
    pub fn take_commands(&mut self) -> (c: Vec<Command>)
        ensures
            c@ == old(self)@.closed().commands,
            final(self)@ == (GfxState { commands: Seq::empty(), ..old(self)@.closed() }),
    {
        self.finish_non_consuming();
        let mut out: Vec<Command> = Vec::new();
        out.append(&mut self.commands);
        assert(out@ =~= old(self)@.closed().commands);
        out
    }

    /// The bytes of the scratch memory.
    pub fn scratch(&self) -> (s: &[u8])
        ensures
            s@ == self@.scratch,
    {
        self.arena.as_slice()
    }

    /// Whether a frame is open.
    pub fn in_frame(&self) -> (b: bool)
        ensures
            b == self@.in_frame,
    {
        self.in_frame
    }

    /// The number of frames opened so far.
    pub fn frame_number(&self) -> (n: u64)
        ensures
            n == self@.frame,
    {
        self.frame
    }

    /// Whether the buffer is one of the open frame.
    pub fn owns(&self, buffer: &UntypedBuffer) -> (b: bool)
        ensures
            b == self@.holds(buffer@),
    {
        let used: usize = self.arena.used();
        let offset: usize = buffer.to_ptr();
        let size: usize = buffer.size_bytes();
        self.in_frame && buffer.frame() == self.frame && offset <= used && size <= used - offset
    }
}

/// An open frame: the context while a command list is open. A handle is
/// made by `PspGfx::start_frame`; while it lives, the context is reached
/// through it alone.
pub struct Frame<'gfx> {
    pub gfx: &'gfx mut PspGfx,
}

impl<'gfx> View for Frame<'gfx> {
    type V = GfxState;

    open spec fn view(&self) -> GfxState {
        self.gfx@
    }
}

impl<'gfx> Frame<'gfx> {
    /// Ends the frame: records the closing of the command list, the wait
    /// for the engine, the wait for the vertical blank and the swap of the
    /// surfaces.
    pub fn finish(self)
        ensures
            final(self.gfx)@ == old(self.gfx)@.closed(),
    {
        self.gfx.finish_non_consuming();
    }

    /// Records the clearing of the colour surface to `color` and of the
    /// depth surface to `depth`.
    pub fn clear_color_depth(&mut self, color: Color32, depth: u32)
        requires
            old(self)@.in_frame,
        ensures
            final(self)@ == old(self)@.emit(clear_commands(color.word(), depth)),
            *final(final(self).gfx) == *final(old(self).gfx),
    {
        self.gfx.commands.push(Command::ClearColor(color.as_abgr()));
        self.gfx.commands.push(Command::ClearDepth(depth));
        self.gfx.commands.push(Command::Clear(COLOR_BUFFER_BIT | DEPTH_BUFFER_BIT));
        assert(self.gfx.commands@ =~= old(self).gfx.commands@ + clear_commands(
            color.word(),
            depth,
        ));
    }

    /// Records the setting of the colour that is drawn with.
    pub fn set_color(&mut self, color: Color32)
        requires
            old(self)@.in_frame,
        ensures
            final(self)@ == old(self)@.emit(seq![Command::Color(color.word())]),
            *final(final(self).gfx) == *final(old(self).gfx),
    {
        self.gfx.commands.push(Command::Color(color.as_abgr()));
        assert(self.gfx.commands@ =~= old(self).gfx.commands@ + seq![
            Command::Color(color.word()),
        ]);
    }

    /// Records the setting of the scissor rectangle.
    pub fn set_scissor(&mut self, scissor: Rect)
        requires
            old(self)@.in_frame,
        ensures
            final(self)@ == old(self)@.emit(
                seq![Command::Scissor { x: scissor.x, y: scissor.y, w: scissor.w, h: scissor.h }],
            ),
            *final(final(self).gfx) == *final(old(self).gfx),
    {
        self.gfx.commands.push(
            Command::Scissor { x: scissor.x, y: scissor.y, w: scissor.w, h: scissor.h },
        );
        assert(self.gfx.commands@ =~= old(self).gfx.commands@ + seq![
            Command::Scissor { x: scissor.x, y: scissor.y, w: scissor.w, h: scissor.h },
        ]);
    }

    /// The number of bytes that the scratch memory can still take.
    pub fn remaining(&self) -> (n: usize)
        ensures
            self@.scratch.len() <= SCRATCH_CAPACITY ==> n == SCRATCH_CAPACITY
                - self@.scratch.len(),
            self@.scratch.len() > SCRATCH_CAPACITY ==> n == 0,
    {
        self.gfx.arena.remaining()
    }

    /// Whether the buffer is one of this frame.
    pub fn owns(&self, buffer: &UntypedBuffer) -> (b: bool)
        ensures
            b == self@.holds(buffer@),
    {
        self.gfx.owns(buffer)
    }

    /// Stores the records of `data` in the scratch memory of the frame and
    /// returns the buffer that holds them.
    pub fn get_memory_typed(&mut self, layout: VertexLayout, data: &[Vertex]) -> (b: TypedBuffer)
        requires
            old(self)@.in_frame,
            old(self)@.has_room(data@.len() * layout.stride_bytes()),
        ensures
            b@.layout == layout,
            b@.region == next_region(old(self)@, data@.len() * layout.stride_bytes()),
            b@.len() == data@.len(),
            final(self)@ == old(self)@.stored(layout.records(data@)),
            final(self)@.scratch.len() == old(self)@.scratch.len() + data@.len()
                * layout.stride_bytes(),
            final(self)@.holds(b@.region),
            *final(final(self).gfx) == *final(old(self).gfx),
    {
        let frame: u64 = self.gfx.frame;
        let b: TypedBuffer = TypedBuffer::get_memory(&mut self.gfx.arena, frame, layout, data);
        proof {
            layout.lemma_records_len(data@);
        }
        b
    }

    /// Stores a copy of `data` in the scratch memory of the frame and
    /// returns the buffer that holds it.
    pub fn get_memory_untyped(&mut self, data: &[u8]) -> (b: UntypedBuffer)
        requires
            old(self)@.in_frame,
            old(self)@.has_room(data@.len()),
        ensures
            b@ == next_region(old(self)@, data@.len()),
            final(self)@ == old(self)@.stored(data@),
            final(self)@.holds(b@),
            *final(final(self).gfx) == *final(old(self).gfx),
    {
        let frame: u64 = self.gfx.frame;
        let b: UntypedBuffer = UntypedBuffer::get_memory(&mut self.gfx.arena, frame, data);
        b
    }

    /// Stores 8-bit indices in the scratch memory of the frame and returns
    /// the buffer that holds them.
    pub fn get_memory_index8(&mut self, data: &[u8]) -> (b: IndexBuffer)
        requires
            old(self)@.in_frame,
            old(self)@.has_room(data@.len()),
        ensures
            b@.item == IndexItem::Byte,
            b@.region == next_region(old(self)@, data@.len()),
            b@.len() == data@.len(),
            final(self)@ == old(self)@.stored(data@),
            final(self)@.holds(b@.region),
            *final(final(self).gfx) == *final(old(self).gfx),
    {
        let frame: u64 = self.gfx.frame;
        let b: IndexBuffer = IndexBuffer::get_memory_u8(&mut self.gfx.arena, frame, data);
        b
    }

    /// Stores 16-bit indices in the scratch memory of the frame, each with
    /// its low byte first, and returns the buffer that holds them.
    pub fn get_memory_index16(&mut self, data: &[u16]) -> (b: IndexBuffer)
        requires
            old(self)@.in_frame,
            old(self)@.has_room(2 * data@.len()),
        ensures
            b@.item == IndexItem::Half,
            b@.region == next_region(old(self)@, 2 * data@.len()),
            b@.len() == data@.len(),
            final(self)@ == old(self)@.stored(half_bytes(data@)),
            final(self)@.holds(b@.region),
            *final(final(self).gfx) == *final(old(self).gfx),
    {
        let frame: u64 = self.gfx.frame;
        let b: IndexBuffer = IndexBuffer::get_memory_u16(&mut self.gfx.arena, frame, data);
        proof {
            lemma_half_bytes_len(data@);
        }
        b
    }

    /// Records the drawing of `vertex`, in the order of `index` if there is
    /// one. Both are buffers of this frame.
    pub fn draw_array(
        &mut self,
        vertex: &TypedBuffer,
        index: Option<&IndexBuffer>,
        primitive: GuPrimitive,
    )
        requires
            old(self)@.holds(vertex@.region),
            index matches Some(i) ==> old(self)@.holds(i@.region),
        ensures
            final(self)@ == old(self)@.emit(
                seq![
                    draw_command(
                        primitive,
                        vertex@,
                        match index {
                            Some(i) => Some(i@),
                            None => None,
                        },
                    ),
                ],
            ),
            *final(final(self).gfx) == *final(old(self).gfx),
    {
        let vertices: Span = Span {
            offset: vertex.as_untyped().to_ptr(),
            size: vertex.as_untyped().size_bytes(),
        };
        let command: Command = match index {
            Some(i) => Command::DrawArray {
                primitive,
                vtype: vertex.layout().vtype() | i.idx_vtype(),
                count: i.idx_len(),
                indices: Some(
                    Span { offset: i.idx_buffer().to_ptr(), size: i.idx_buffer().size_bytes() },
                ),
                vertices,
            },
            None => Command::DrawArray {
                primitive,
                vtype: vertex.layout().vtype(),
                count: vertex.len() as i32,
                indices: None,
                vertices,
            },
        };
        self.gfx.commands.push(command);
        assert(self.gfx.commands@ =~= old(self).gfx.commands@ + seq![command]);
    }
}

/// The state after a rectangle was drawn as a sprite: its two corners are
/// stored in the scratch memory as records of the sprite layout, and one
/// draw command for them, without indices, is recorded.
pub open spec fn rect_drawn(s: GfxState, rect: Rect) -> GfxState {
    s.stored(Rect::sprite_layout().records(rect.corners())).emit(
        seq![
            draw_command(
                GuPrimitive::Sprites,
                Records { region: next_region(s, 24), layout: Rect::sprite_layout() },
                None,
            ),
        ],
    )
}

/// Drawing that is made of the operations of a frame.
pub trait GfxExt {
    /// What the handle stands for.
    spec fn state(&self) -> GfxState;

    /// Records the drawing of a filled rectangle, in the colour that was
    /// set. A frame is open and its scratch memory has room for the two
    /// corners.
    fn gfx_rect(&mut self, rect: Rect)
        requires
            old(self).state().in_frame,
            old(self).state().has_room(24),
        ensures
            final(self).state() == rect_drawn(old(self).state(), rect),
            final(self).state().scratch.len() == old(self).state().scratch.len() + 24,
    ;
}

impl<'gfx> GfxExt for Frame<'gfx> {
    open spec fn state(&self) -> GfxState {
        self@
    }

    fn gfx_rect(&mut self, rect: Rect)
        ensures
            *final(final(self).gfx) == *final(old(self).gfx),
    {
        let corners: [Vertex; 2] = rect.to_sprites_vertices();
        let buffer: TypedBuffer = self.get_memory_typed(Rect::layout(), corners.as_slice());
        self.draw_array(&buffer, None, GuPrimitive::Sprites);
        assert(final(self)@.commands =~= rect_drawn(old(self)@, rect).commands);
    }
}

/// A buffer of one frame is not a buffer of the frame that is opened next:
/// once the frame has ended and another has begun, the context holds it no
/// more. The next frame bears the next number, and nothing but opening a
/// frame changes the number.
pub proof fn lemma_buffer_ends_with_frame(s: GfxState, r: Region, c: Seq<Command>, data: Seq<u8>)
    requires
        s.holds(r),
        s.frame < u64::MAX,
    ensures
        !s.closed().opened().holds(r),
        s.closed().opened().frame == s.frame + 1,
        s.closed().frame == s.frame,
        s.emit(c).frame == s.frame,
        s.stored(data).frame == s.frame,
{
}

/// A buffer is held at most by the frame whose number it bears, so a buffer
/// of an earlier frame is held by no later one.
pub proof fn lemma_buffer_of_earlier_frame(s: GfxState, r: Region)
    requires
        r.frame < s.frame,
    ensures
        !s.holds(r),
{
}

/// The bytes of the scratch memory that a buffer stands for.
pub open spec fn region_bytes(s: GfxState, r: Region) -> Seq<u8> {
    s.scratch.subrange(r.offset as int, (r.offset + r.size) as int)
}

/// A buffer of the open frame stays one, and its bytes stay what they are,
/// whatever the frame records or stores after it.
pub proof fn lemma_buffer_stays(s: GfxState, r: Region, commands: Seq<Command>, data: Seq<u8>)
    requires
        s.holds(r),
    ensures
        s.emit(commands).holds(r),
        s.stored(data).holds(r),
        region_bytes(s.emit(commands), r) == region_bytes(s, r),
        region_bytes(s.stored(data), r) == region_bytes(s, r),
{
    assert(region_bytes(s.stored(data), r) =~= region_bytes(s, r));
}

/// The bytes of a buffer that was just stored are the data that it was
/// made from.
pub proof fn lemma_buffer_holds_data(s: GfxState, data: Seq<u8>)
    ensures
        region_bytes(s.stored(data), next_region(s, data.len())) == data,
{
    assert(region_bytes(s.stored(data), next_region(s, data.len())) =~= data);
}

/// Ending a frame twice is ending it once.
pub proof fn lemma_closed_once(s: GfxState)
    ensures
        s.closed().closed() == s.closed(),
        !s.closed().in_frame,
{
}

/// A new context is balanced.
pub proof fn lemma_initial_balanced(fbp0: u32, fbp1: u32, zbp: u32)
    ensures
        PspGfx::initial(fbp0, fbp1, zbp).balanced(),
{
    lemma_init_closes_its_list(fbp0, fbp1, zbp);
}

/// Ending the frame of a balanced context leaves no list open, whether or
/// not a frame was open: a frame is ended once, and never twice.
pub proof fn lemma_closed_balanced(s: GfxState)
    requires
        s.balanced(),
    ensures
        s.closed().balanced(),
        open_lists(s.closed().commands) == 0,
{
    lemma_finish_closes_one_list();
    lemma_open_lists_concat(s.commands, finish_commands());
}

/// Opening a frame on a balanced context, however the frame before was
/// left, gives a balanced context with one list open.
pub proof fn lemma_opened_balanced(s: GfxState)
    requires
        s.balanced(),
    ensures
        s.closed().opened().balanced(),
        open_lists(s.closed().opened().commands) == 1,
{
    lemma_closed_balanced(s);
    lemma_open_lists_one(Command::Start);
    let c = s.closed().commands;
    assert(c.push(Command::Start) =~= c + seq![Command::Start]);
    lemma_open_lists_concat(c, seq![Command::Start]);
}

/// What a frame records while it is open, clearing, colour, scissor and
/// drawing, keeps a balanced context balanced; so does storing data.
pub proof fn lemma_frame_work_balanced(
    s: GfxState,
    color: u32,
    depth: u32,
    scissor: Rect,
    primitive: GuPrimitive,
    vertex: Records,
    index: Option<Indices>,
    data: Seq<u8>,
)
    requires
        s.balanced(),
    ensures
        s.emit(clear_commands(color, depth)).balanced(),
        s.emit(seq![Command::Color(color)]).balanced(),
        s.emit(
            seq![Command::Scissor { x: scissor.x, y: scissor.y, w: scissor.w, h: scissor.h }],
        ).balanced(),
        s.emit(seq![draw_command(primitive, vertex, index)]).balanced(),
        s.stored(data).balanced(),
{
    lemma_clear_keeps_lists(color, depth);
    lemma_open_lists_concat(s.commands, clear_commands(color, depth));
    let c = Command::Color(color);
    lemma_open_lists_one(c);
    lemma_open_lists_concat(s.commands, seq![c]);
    let c = Command::Scissor { x: scissor.x, y: scissor.y, w: scissor.w, h: scissor.h };
    lemma_open_lists_one(c);
    lemma_open_lists_concat(s.commands, seq![c]);
    let c = draw_command(primitive, vertex, index);
    lemma_open_lists_one(c);
    lemma_open_lists_concat(s.commands, seq![c]);
}

/// What a balanced context hands out closes every list that it opens, and
/// the context stays balanced.
pub proof fn lemma_taken_balanced(s: GfxState)
    requires
        s.balanced(),
    ensures
        open_lists(s.closed().commands) == 0,
        (GfxState { commands: Seq::empty(), ..s.closed() }).balanced(),
{
    lemma_closed_balanced(s);
}

} // verus!
