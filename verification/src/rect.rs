//! Rectangles on the screen.

use crate::record::Vertex;
use crate::vertex::{Transform, VertexLayout, Width};
use vstd::prelude::*;

verus! {

/// A rectangle: its corner `(x, y)`, its width and its height.
#[derive(Clone, Copy, Debug, PartialEq, Eq, Structural)]
pub struct Rect {
    pub x: i32,
    pub y: i32,
    pub w: i32,
    pub h: i32,
}

/// The 16-bit pattern of a coordinate.
pub open spec fn coordinate(c: int) -> u32 {
    (c % 0x10000) as u32
}

/// The 16-bit pattern of the sum of two coordinates.
pub fn coordinate_sum(a: i32, b: i32) -> (c: u32)
    ensures
        c == coordinate(a + b),
        c < 0x10000,
{
    let sum: i64 = a as i64 + b as i64 + 0x100000000;
    let lifted: u64 = sum as u64;
    (lifted % 0x10000) as u32
}

impl Rect {
    /// The layout of the vertices of a rectangle: 16-bit texture
    /// coordinates, 16-bit positions, screen coordinates.
    pub open spec fn sprite_layout() -> VertexLayout {
        VertexLayout {
            weight: None,
            texture: Some(Width::Bits16),
            color: None,
            normal: None,
            position: Width::Bits16,
            transform: Transform::Flat,
        }
    }

    /// The two vertices of the rectangle as a sprite.
    pub open spec fn corners(self) -> Seq<Vertex> {
        seq![
            Vertex { x: coordinate(self.x as int), y: coordinate(self.y as int), ..Vertex::blank() },
            Vertex {
                x: coordinate(self.x + self.w),
                y: coordinate(self.y + self.h),
                ..Vertex::blank()
            },
        ]
    }

    /// The layout of the vertices of a rectangle.
    pub fn layout() -> (l: VertexLayout)
        ensures
            l == Rect::sprite_layout(),
    {
        VertexLayout::new(Width::Bits16, Transform::Flat).with_texture(Some(Width::Bits16))
    }

    /// The two opposite corners of the rectangle, the vertices of a sprite
    /// that fills it: `(x, y)` and `(x + w, y + h)`, each coordinate by its
    /// 16-bit pattern, all else blank.
    pub fn to_sprites_vertices(&self) -> (v: [Vertex; 2])
        ensures
            v@ == self.corners(),
    {
        let layout: VertexLayout = Rect::layout();
        let v: [Vertex; 2] = [
            layout.from_position2(coordinate_sum(self.x, 0), coordinate_sum(self.y, 0)),
            layout.from_position2(coordinate_sum(self.x, self.w), coordinate_sum(self.y, self.h)),
        ];
        assert(v@ =~= self.corners());
        v
    }
}

} // verus!
