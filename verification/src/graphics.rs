//! A graphics manager: one object that opens and ends frames and draws
//! textured 16-bit vertices in one colour.

pub mod color;

use crate::arena::SCRATCH_CAPACITY;
use crate::buffer::{Records, TypedBuffer};
use crate::color::Color32;
use crate::command::{clear_commands, Command, GuPrimitive};
use crate::frame::{draw_command, next_region, rect_drawn, Frame, GfxExt, GfxState, PspGfx};
use crate::graphics::color::Color;
use crate::record::Vertex as Record;
use crate::rect::{coordinate, coordinate_sum, Rect};
use vstd::prelude::*;

verus! {

/// A vertex with 16-bit texture coordinates and a 16-bit position.
#[derive(Clone, Copy, Debug, PartialEq, Eq, Structural)]
pub struct Vertex {
    pub u: u16,
    pub v: u16,
    pub x: i16,
    pub y: i16,
    pub z: i16,
}

impl Vertex {
    /// The values of the vertex as bit patterns.
    pub open spec fn record(self) -> Record {
        Record {
            u: self.u as u32,
            v: self.v as u32,
            x: coordinate(self.x as int),
            y: coordinate(self.y as int),
            z: coordinate(self.z as int),
            ..Record::blank()
        }
    }

    /// The values of the vertex as bit patterns.
    pub fn to_record(&self) -> (r: Record)
        ensures
            r == self.record(),
    {
        Record {
            u: self.u as u32,
            v: self.v as u32,
            x: coordinate_sum(self.x as i32, 0),
            y: coordinate_sum(self.y as i32, 0),
            z: coordinate_sum(self.z as i32, 0),
            ..Record::default()
        }
    }
}

impl Default for Vertex {
    fn default() -> (v: Vertex)
        ensures
            v == (Vertex { u: 0, v: 0, x: 0, y: 0, z: 0 }),
    {
        Vertex { u: 0, v: 0, x: 0, y: 0, z: 0 }
    }
}

/// The records of a sequence of vertices.
pub open spec fn records_of(vtx: Seq<Vertex>) -> Seq<Record> {
    Seq::new(vtx.len(), |i: int| vtx[i].record())
}

/// The state after vertices were drawn in a colour: their records are
/// stored in the scratch memory, the colour is set, and one draw command
/// for them, without indices, is recorded.
pub open spec fn drawn(s: GfxState, vtx: Seq<Vertex>, color: u32, primitive: GuPrimitive) -> GfxState {
    s.stored(Rect::sprite_layout().records(records_of(vtx))).emit(
        seq![
            Command::Color(color),
            draw_command(
                primitive,
                Records { region: next_region(s, vtx.len() * 12), layout: Rect::sprite_layout() },
                None,
            ),
        ],
    )
}

/// The graphics manager. Its view is that of the context that it keeps.
pub struct GraphicsManager {
    gfx: PspGfx,
}

impl View for GraphicsManager {
    type V = GfxState;

    closed spec fn view(&self) -> GfxState {
        self.gfx@
    }
}

impl GraphicsManager {
    /// A manager over two colour surfaces and a depth surface at the given
    /// addresses, with the commands that set the engine up recorded and no
    /// frame open.
    pub fn init(fbp0: u32, fbp1: u32, zbp: u32) -> (m: GraphicsManager)
        ensures
            m@ == PspGfx::initial(fbp0, fbp1, zbp),
    {
        GraphicsManager { gfx: PspGfx::init(fbp0, fbp1, zbp) }
    }

    /// Records the clearing of the colour surface to `color` and of the
    /// depth surface to `depth`.
    pub fn clear_color_depth(&mut self, color: Color, depth: u32)
        requires
            old(self)@.in_frame,
        ensures
            final(self)@ == old(self)@.emit(clear_commands(color.0, depth)),
    {
        let mut frame: Frame<'_> = Frame { gfx: &mut self.gfx };
        frame.clear_color_depth(Color32::from_abgr(color.0), depth);
    }

    /// Opens a frame, after ending one that is still open.
    pub fn begin_frame(&mut self)
        requires
            old(self)@.frame < u64::MAX,
        ensures
            final(self)@ == old(self)@.closed().opened(),
    {
        let _ = self.gfx.start_frame();
    }

    /// Ends the open frame, if there is one.
    pub fn end_frame(&mut self)
        ensures
            final(self)@ == old(self)@.closed(),
    {
        let frame: Frame<'_> = Frame { gfx: &mut self.gfx };
        frame.finish();
    }

    /// Stores the vertices in the scratch memory and records the setting
    /// of the colour and the drawing of the vertices.
    pub fn draw(&mut self, vtx: &[Vertex], color: Color, primitive: GuPrimitive)
        requires
            old(self)@.in_frame,
            old(self)@.has_room(vtx@.len() * 12),
        ensures
            final(self)@ == drawn(old(self)@, vtx@, color.0, primitive),
            final(self)@.scratch.len() == old(self)@.scratch.len() + vtx@.len() * 12,
    {
        let mut records: Vec<Record> = Vec::new();
        let mut i: usize = 0;
        while i < vtx.len()
            invariant
                i <= vtx.len(),
                records@ == records_of(vtx@.take(i as int)),
            decreases vtx.len() - i,
        {
            records.push(vtx[i].to_record());
            i += 1;
            assert(records@ =~= records_of(vtx@.take(i as int)));
        }
        assert(vtx@.take(i as int) =~= vtx@);
        let mut frame: Frame<'_> = Frame { gfx: &mut self.gfx };
        let buffer: TypedBuffer = frame.get_memory_typed(Rect::layout(), records.as_slice());
        frame.set_color(Color32::from_abgr(color.0));
        frame.draw_array(&buffer, None, primitive);
        assert(frame@.commands =~= drawn(old(self)@, vtx@, color.0, primitive).commands);
    }

    /// Records the setting of the colour and the drawing of the rectangle
    /// as a sprite.
    pub fn fill_rect(&mut self, rect: Rect, color: Color)
        requires
            old(self)@.in_frame,
            old(self)@.has_room(24),
        ensures
            final(self)@ == rect_drawn(
                old(self)@.emit(seq![Command::Color(color.0)]),
                rect,
            ),
            final(self)@.scratch.len() == old(self)@.scratch.len() + 24,
    {
        let mut frame: Frame<'_> = Frame { gfx: &mut self.gfx };
        frame.set_color(Color32::from_abgr(color.0));
        frame.gfx_rect(rect);
    }

    /// Hands out the commands recorded so far, in order, and keeps none. A
    /// frame that is still open is ended first.
    pub fn take_commands(&mut self) -> (c: Vec<Command>)
        ensures
            c@ == old(self)@.closed().commands,
            final(self)@ == (GfxState { commands: Seq::empty(), ..old(self)@.closed() }),
    {
        self.gfx.take_commands()
    }

    /// The bytes of the scratch memory.
    pub fn scratch(&self) -> (s: &[u8])
        ensures
            s@ == self@.scratch,
    {
        self.gfx.scratch()
    }

    /// Whether a frame is open.
    pub fn in_frame(&self) -> (b: bool)
        ensures
            b == self@.in_frame,
    {
        self.gfx.in_frame()
    }

    /// The number of frames opened so far.
    pub fn frame_number(&self) -> (n: u64)
        ensures
            n == self@.frame,
    {
        self.gfx.frame_number()
    }

    /// The number of bytes that the scratch memory can still take.
    pub fn remaining(&self) -> (n: usize)
        ensures
            self@.scratch.len() <= SCRATCH_CAPACITY ==> n == SCRATCH_CAPACITY - self@.scratch.len(),
            self@.scratch.len() > SCRATCH_CAPACITY ==> n == 0,
    {
        let used: usize = self.gfx.scratch().len();
        if used <= SCRATCH_CAPACITY {
            SCRATCH_CAPACITY - used
        } else {
            0
        }
    }
}

} // verus!
