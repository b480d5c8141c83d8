//! Vertex records: the values of one vertex, and the bytes that a layout
//! packs them into.

use crate::vertex::{Attribute, VertexLayout};
use vstd::prelude::*;

verus! {

/// The values of one vertex, one 32-bit pattern for each attribute that a
/// layout can hold. A layout reads those of its own attributes, and of each
/// value the low bytes that the attribute's width keeps. A float is held by
/// its bit pattern.
#[derive(Clone, Copy, Debug, PartialEq, Eq, Structural)]
pub struct Vertex {
    pub weight: u32,
    pub u: u32,
    pub v: u32,
    pub color: u32,
    pub normal_x: u32,
    pub normal_y: u32,
    pub normal_z: u32,
    pub x: u32,
    pub y: u32,
    pub z: u32,
}

impl Vertex {
    /// The record with every number zero and a colour that is black with no
    /// opacity.
    pub open spec fn blank() -> Vertex {
        Vertex {
            weight: 0,
            u: 0,
            v: 0,
            color: 0,
            normal_x: 0,
            normal_y: 0,
            normal_z: 0,
            x: 0,
            y: 0,
            z: 0,
        }
    }
}

impl Default for Vertex {
    fn default() -> (v: Vertex)
        ensures
            v == Vertex::blank(),
    {
        Vertex {
            weight: 0,
            u: 0,
            v: 0,
            color: 0,
            normal_x: 0,
            normal_y: 0,
            normal_z: 0,
            x: 0,
            y: 0,
            z: 0,
        }
    }
}

/// The lowest `n` bytes of `value`, lowest first.
pub open spec fn le_bytes(value: u32, n: nat) -> Seq<u8>
    recommends
        n <= 4,
{
    seq![
        (value & 0xff) as u8,
        ((value >> 8) & 0xff) as u8,
        ((value >> 16) & 0xff) as u8,
        ((value >> 24) & 0xff) as u8,
    ].take(n as int)
}

/// The value that a vertex has for an attribute.
pub open spec fn attribute_value(v: Vertex, a: Attribute) -> u32 {
    match a {
        Attribute::Weight => v.weight,
        Attribute::TextureU => v.u,
        Attribute::TextureV => v.v,
        Attribute::Color => v.color,
        Attribute::NormalX => v.normal_x,
        Attribute::NormalY => v.normal_y,
        Attribute::NormalZ => v.normal_z,
        Attribute::PositionX => v.x,
        Attribute::PositionY => v.y,
        Attribute::PositionZ => v.z,
    }
}

/// The `n` bytes of `s` from `at` on.
pub open spec fn piece(s: Seq<u8>, at: nat, n: nat) -> Seq<u8> {
    s.subrange(at as int, (at + n) as int)
}

/// Each of the sequences that are put one after the other is found in the
/// whole, behind those before it.
#[verifier::rlimit(40)]
proof fn lemma_pieces(
    a: Seq<u8>,
    b: Seq<u8>,
    c: Seq<u8>,
    d: Seq<u8>,
    e: Seq<u8>,
    f: Seq<u8>,
    g: Seq<u8>,
    h: Seq<u8>,
    i: Seq<u8>,
    j: Seq<u8>,
    k: Seq<u8>,
)
    ensures
        piece(a + b + c + d + e + f + g + h + i + j + k, 0, a.len()) == a,
        piece(a + b + c + d + e + f + g + h + i + j + k, a.len(), b.len()) == b,
        piece(a + b + c + d + e + f + g + h + i + j + k, a.len() + b.len(), c.len()) == c,
        piece(a + b + c + d + e + f + g + h + i + j + k, (a + b + c).len(), d.len()) == d,
        piece(a + b + c + d + e + f + g + h + i + j + k, (a + b + c + d).len(), e.len()) == e,
        piece(a + b + c + d + e + f + g + h + i + j + k, (a + b + c + d + e).len(), f.len()) == f,
        piece(a + b + c + d + e + f + g + h + i + j + k, (a + b + c + d + e + f).len(), g.len())
            == g,
        piece(
            a + b + c + d + e + f + g + h + i + j + k,
            (a + b + c + d + e + f + g).len(),
            h.len(),
        ) == h,
        piece(
            a + b + c + d + e + f + g + h + i + j + k,
            (a + b + c + d + e + f + g + h).len(),
            i.len(),
        ) == i,
        piece(
            a + b + c + d + e + f + g + h + i + j + k,
            (a + b + c + d + e + f + g + h + i).len(),
            j.len(),
        ) == j,
        piece(
            a + b + c + d + e + f + g + h + i + j + k,
            (a + b + c + d + e + f + g + h + i + j).len(),
            k.len(),
        ) == k,
{
    let all = a + b + c + d + e + f + g + h + i + j + k;
    assert(piece(all, 0, a.len()) =~= a);
    assert(piece(all, a.len(), b.len()) =~= b);
    assert(piece(all, a.len() + b.len(), c.len()) =~= c);
    assert(piece(all, (a + b + c).len(), d.len()) =~= d);
    assert(piece(all, (a + b + c + d).len(), e.len()) =~= e);
    assert(piece(all, (a + b + c + d + e).len(), f.len()) =~= f);
    assert(piece(all, (a + b + c + d + e + f).len(), g.len()) =~= g);
    assert(piece(all, (a + b + c + d + e + f + g).len(), h.len()) =~= h);
    assert(piece(all, (a + b + c + d + e + f + g + h).len(), i.len()) =~= i);
    assert(piece(all, (a + b + c + d + e + f + g + h + i).len(), j.len()) =~= j);
    assert(piece(all, (a + b + c + d + e + f + g + h + i + j).len(), k.len()) =~= k);
}

/// `n` zero bytes.
pub open spec fn zero_bytes(n: nat) -> Seq<u8> {
    Seq::new(n, |i: int| 0u8)
}

impl VertexLayout {
    /// The bytes of one record: weight, texture u and v, colour, normal x, y
    /// and z, position x, y and z, each only where the layout has it and as
    /// wide as the layout says, and then the padding.
    pub open spec fn record(self, v: Vertex) -> Seq<u8> {
        le_bytes(v.weight, self.weight_bytes()) + le_bytes(v.u, self.texture_bytes()) + le_bytes(
            v.v,
            self.texture_bytes(),
        ) + le_bytes(v.color, self.color_bytes()) + le_bytes(v.normal_x, self.normal_bytes())
            + le_bytes(v.normal_y, self.normal_bytes()) + le_bytes(v.normal_z, self.normal_bytes())
            + le_bytes(v.x, self.position_bytes()) + le_bytes(v.y, self.position_bytes())
            + le_bytes(v.z, self.position_bytes()) + zero_bytes(self.padding_bytes())
    }

    /// The bytes of the records of `vs`, one after the other.
    pub open spec fn records(self, vs: Seq<Vertex>) -> Seq<u8>
        decreases vs.len(),
    {
        if vs.len() == 0 {
            Seq::empty()
        } else {
            self.records(vs.drop_last()) + self.record(vs.last())
        }
    }

    /// A record is as long as the layout's stride.
    pub proof fn lemma_record_len(self, v: Vertex)
        ensures
            self.record(v).len() == self.stride_bytes(),
    {
        assert(self.weight_bytes() <= 4 && self.texture_bytes() <= 4 && self.color_bytes() <= 4
            && self.normal_bytes() <= 4 && self.position_bytes() <= 4);
    }

    /// Every attribute lies in the record where the layout says, as wide as
    /// the layout says, and holds the low bytes of the vertex's value; what
    /// follows the attributes is zero.
    #[verifier::rlimit(40)]
    pub proof fn lemma_record_layout(self, v: Vertex)
        ensures
            piece(self.record(v), 0, self.weight_bytes()) == le_bytes(v.weight, self.weight_bytes()),
            piece(self.record(v), self.texture_offset(), self.texture_bytes()) == le_bytes(
                v.u,
                self.texture_bytes(),
            ),
            piece(
                self.record(v),
                self.texture_offset() + self.texture_bytes(),
                self.texture_bytes(),
            ) == le_bytes(v.v, self.texture_bytes()),
            piece(self.record(v), self.color_offset(), self.color_bytes()) == le_bytes(
                v.color,
                self.color_bytes(),
            ),
            piece(self.record(v), self.normal_offset(), self.normal_bytes()) == le_bytes(
                v.normal_x,
                self.normal_bytes(),
            ),
            piece(
                self.record(v),
                self.normal_offset() + self.normal_bytes(),
                self.normal_bytes(),
            ) == le_bytes(v.normal_y, self.normal_bytes()),
            piece(
                self.record(v),
                self.normal_offset() + 2 * self.normal_bytes(),
                self.normal_bytes(),
            ) == le_bytes(v.normal_z, self.normal_bytes()),
            piece(self.record(v), self.position_offset(), self.position_bytes()) == le_bytes(
                v.x,
                self.position_bytes(),
            ),
            piece(
                self.record(v),
                self.position_offset() + self.position_bytes(),
                self.position_bytes(),
            ) == le_bytes(v.y, self.position_bytes()),
            piece(
                self.record(v),
                self.position_offset() + 2 * self.position_bytes(),
                self.position_bytes(),
            ) == le_bytes(v.z, self.position_bytes()),
            piece(self.record(v), self.field_bytes(), self.padding_bytes()) == zero_bytes(
                self.padding_bytes(),
            ),
    {
        let wb = self.weight_bytes();
        let tb = self.texture_bytes();
        let cb = self.color_bytes();
        let nb = self.normal_bytes();
        let pb = self.position_bytes();
        assert(wb <= 4 && tb <= 4 && cb <= 4 && nb <= 4 && pb <= 4);
        let a = le_bytes(v.weight, wb);
        let b = le_bytes(v.u, tb);
        let c = le_bytes(v.v, tb);
        let d = le_bytes(v.color, cb);
        let e = le_bytes(v.normal_x, nb);
        let f = le_bytes(v.normal_y, nb);
        let g = le_bytes(v.normal_z, nb);
        let h = le_bytes(v.x, pb);
        let i = le_bytes(v.y, pb);
        let j = le_bytes(v.z, pb);
        let k = zero_bytes(self.padding_bytes());
        assert(a.len() == wb && b.len() == tb && c.len() == tb && d.len() == cb);
        assert(e.len() == nb && f.len() == nb && g.len() == nb);
        assert(h.len() == pb && i.len() == pb && j.len() == pb);
        assert(self.record(v) == a + b + c + d + e + f + g + h + i + j + k);
        assert(a.len() + b.len() == self.texture_offset() + tb);
        assert((a + b + c).len() == self.color_offset());
        assert((a + b + c + d).len() == self.normal_offset());
        assert((a + b + c + d + e).len() == self.normal_offset() + nb);
        assert((a + b + c + d + e + f).len() == self.normal_offset() + 2 * nb);
        assert((a + b + c + d + e + f + g).len() == self.position_offset());
        assert((a + b + c + d + e + f + g + h).len() == self.position_offset() + pb);
        assert((a + b + c + d + e + f + g + h + i).len() == self.position_offset() + 2 * pb);
        assert((a + b + c + d + e + f + g + h + i + j).len() == self.field_bytes());
        lemma_pieces(a, b, c, d, e, f, g, h, i, j, k);
    }

    /// Every field of the layout's field list lies inside the attributes of
    /// the record and holds the low bytes of the value that the vertex has
    /// for the field's attribute.
    #[verifier::rlimit(40)]
    pub proof fn lemma_fields_in_record(self, v: Vertex, i: int)
        requires
            0 <= i < self.field_list().len(),
        ensures
            self.field_list()[i].offset + self.field_list()[i].size <= self.field_bytes(),
            piece(
                self.record(v),
                self.field_list()[i].offset as nat,
                self.field_list()[i].size as nat,
            ) == le_bytes(
                attribute_value(v, self.field_list()[i].attribute),
                self.field_list()[i].size as nat,
            ),
    {
        self.lemma_record_layout(v);
        let w = self.weight_fields();
        let t = self.texture_fields();
        let c = self.color_fields();
        let n = self.normal_fields();
        let p = self.position_fields();
        let f = self.field_list()[i];
        if i < w.len() {
            assert(f == w[i]);
        } else if i < w.len() + t.len() {
            assert(f == t[i - w.len()]);
        } else if i < w.len() + t.len() + c.len() {
            assert(f == c[i - w.len() - t.len()]);
        } else if i < w.len() + t.len() + c.len() + n.len() {
            assert(f == n[i - w.len() - t.len() - c.len()]);
        } else {
            assert(f == p[i - w.len() - t.len() - c.len() - n.len()]);
        }
    }

    /// The records of a sequence of vertices take the stride for each.
    pub proof fn lemma_records_len(self, vs: Seq<Vertex>)
        ensures
            self.records(vs).len() == vs.len() * self.stride_bytes(),
        decreases vs.len(),
    {
        if vs.len() > 0 {
            self.lemma_records_len(vs.drop_last());
            self.lemma_record_len(vs.last());
            assert((vs.len() - 1) * self.stride_bytes() + self.stride_bytes() == vs.len()
                * self.stride_bytes()) by (nonlinear_arith);
        }
    }

    /// A vertex at `(x, y)`, the rest blank.
    pub fn from_position2(&self, x: u32, y: u32) -> (v: Vertex)
        ensures
            v == (Vertex { x, y, ..Vertex::blank() }),
    {
        Vertex { x, y, ..Vertex::default() }
    }

    /// A vertex at `(x, y, z)`, the rest blank.
    pub fn from_position(&self, x: u32, y: u32, z: u32) -> (v: Vertex)
        ensures
            v == (Vertex { x, y, z, ..Vertex::blank() }),
    {
        Vertex { x, y, z, ..Vertex::default() }
    }

    /// A vertex at `(x, y)` with texture coordinates `(u, v)`, for a layout
    /// that has texture coordinates.
    pub fn from_position2_uv(&self, x: u32, y: u32, u: u32, v: u32) -> (r: Vertex)
        requires
            self.texture.is_some(),
        ensures
            r == (Vertex { x, y, u, v, ..Vertex::blank() }),
    {
        Vertex { x, y, u, v, ..Vertex::default() }
    }

    /// A vertex at `(x, y, z)` with texture coordinates `(u, v)`, for a
    /// layout that has texture coordinates.
    pub fn from_position_uv(&self, x: u32, y: u32, z: u32, u: u32, v: u32) -> (r: Vertex)
        requires
            self.texture.is_some(),
        ensures
            r == (Vertex { x, y, z, u, v, ..Vertex::blank() }),
    {
        Vertex { x, y, z, u, v, ..Vertex::default() }
    }

    /// A vertex at `(x, y)` with a colour, for a layout that has a colour.
    pub fn from_position2_color(&self, x: u32, y: u32, color: u32) -> (r: Vertex)
        requires
            self.color.is_some(),
        ensures
            r == (Vertex { x, y, color, ..Vertex::blank() }),
    {
        Vertex { x, y, color, ..Vertex::default() }
    }

    /// A vertex at `(x, y, z)` with a colour, for a layout that has a colour.
    pub fn from_position_color(&self, x: u32, y: u32, z: u32, color: u32) -> (r: Vertex)
        requires
            self.color.is_some(),
        ensures
            r == (Vertex { x, y, z, color, ..Vertex::blank() }),
    {
        Vertex { x, y, z, color, ..Vertex::default() }
    }

    /// A vertex at `(x, y)` with texture coordinates `(u, v)` and a colour,
    /// for a layout that has both.
    pub fn from_position2_uv_color(&self, x: u32, y: u32, u: u32, v: u32, color: u32) -> (r: Vertex)
        requires
            self.texture.is_some(),
            self.color.is_some(),
        ensures
            r == (Vertex { x, y, u, v, color, ..Vertex::blank() }),
    {
        Vertex { x, y, u, v, color, ..Vertex::default() }
    }

    /// A vertex at `(x, y, z)` with texture coordinates `(u, v)` and a
    /// colour, for a layout that has both.
    pub fn from_position_uv_color(
        &self,
        x: u32,
        y: u32,
        z: u32,
        u: u32,
        v: u32,
        color: u32,
    ) -> (r: Vertex)
        requires
            self.texture.is_some(),
            self.color.is_some(),
        ensures
            r == (Vertex { x, y, z, u, v, color, ..Vertex::blank() }),
    {
        Vertex { x, y, z, u, v, color, ..Vertex::default() }
    }

    /// The record of `v`.
    pub fn encode(&self, v: &Vertex) -> (out: Vec<u8>)
        ensures
            out@ == self.record(*v),
            out@.len() == self.stride_bytes(),
    {
        let weight: usize = self.weight_size();
        let texture: usize = self.texture_size();
        let color: usize = self.color_size();
        let normal: usize = self.normal_size();
        let position: usize = self.position.size();
        let padding: usize = self.padding();
        let mut out: Vec<u8> = Vec::new();
        push_le(&mut out, v.weight, weight);
        assert(out@ =~= le_bytes(v.weight, self.weight_bytes()));
        push_le(&mut out, v.u, texture);
        push_le(&mut out, v.v, texture);
        push_le(&mut out, v.color, color);
        push_le(&mut out, v.normal_x, normal);
        push_le(&mut out, v.normal_y, normal);
        push_le(&mut out, v.normal_z, normal);
        push_le(&mut out, v.x, position);
        push_le(&mut out, v.y, position);
        push_le(&mut out, v.z, position);
        let ghost fields = out@;
        let mut i: usize = 0;
        while i < padding
            invariant
                i <= padding,
                out@ == fields + zero_bytes(i as nat),
            decreases padding - i,
        {
            out.push(0);
            i += 1;
            assert(zero_bytes(i as nat) =~= zero_bytes((i - 1) as nat).push(0u8));
            assert(out@ =~= fields + zero_bytes(i as nat));
        }
        proof {
            self.lemma_record_len(*v);
        }
        out
    }

    /// The records of `data`, one after the other.
    pub fn encode_all(&self, data: &[Vertex]) -> (out: Vec<u8>)
        ensures
            out@ == self.records(data@),
            out@.len() == data@.len() * self.stride_bytes(),
    {
        let mut out: Vec<u8> = Vec::new();
        let mut i: usize = 0;
        while i < data.len()
            invariant
                i <= data.len(),
                out@ == self.records(data@.take(i as int)),
            decreases data.len() - i,
        {
            let mut record: Vec<u8> = self.encode(&data[i]);
            out.append(&mut record);
            i += 1;
            assert(data@.take(i as int).drop_last() =~= data@.take(i - 1));
        }
        assert(data@.take(i as int) =~= data@);
        proof {
            self.lemma_records_len(data@);
        }
        out
    }
}

/// Appends the lowest `n` bytes of `value` to `out`, lowest first.
pub fn push_le(out: &mut Vec<u8>, value: u32, n: usize)
    requires
        n <= 4,
    ensures
        final(out)@ == old(out)@ + le_bytes(value, n as nat),
{
    if n >= 1 {
        out.push((value & 0xff) as u8);
    }
    if n >= 2 {
        out.push(((value >> 8) & 0xff) as u8);
    }
    if n >= 3 {
        out.push(((value >> 16) & 0xff) as u8);
    }
    if n >= 4 {
        out.push(((value >> 24) & 0xff) as u8);
    }
    assert(out@ =~= old(out)@ + le_bytes(value, n as nat));
}

} // verus!
