//! Vertex formats: which attributes a vertex record holds, how wide each
//! is, where each lies in the packed record, and the format tag that tells
//! the graphics engine the same.

use vstd::prelude::*;

verus! {

/// Tag code of 8-bit texture coordinates.
pub const TEXTURE_8BIT: i32 = 1;
/// Tag code of 16-bit texture coordinates.
pub const TEXTURE_16BIT: i32 = 2;
/// Tag code of 32-bit floating texture coordinates.
pub const TEXTURE_32BITF: i32 = 3;
/// Tag code of a 16-bit colour, 5-6-5-0.
pub const COLOR_5650: i32 = 16;
/// Tag code of a 16-bit colour, 5-5-5-1.
pub const COLOR_5551: i32 = 20;
/// Tag code of a 16-bit colour, 4-4-4-4.
pub const COLOR_4444: i32 = 24;
/// Tag code of a 32-bit colour, 8-8-8-8.
pub const COLOR_8888: i32 = 28;
/// Tag code of 8-bit normals.
pub const NORMAL_8BIT: i32 = 32;
/// Tag code of 16-bit normals.
pub const NORMAL_16BIT: i32 = 64;
/// Tag code of 32-bit floating normals.
pub const NORMAL_32BITF: i32 = 96;
/// Tag code of 8-bit positions.
pub const VERTEX_8BIT: i32 = 128;
/// Tag code of 16-bit positions.
pub const VERTEX_16BIT: i32 = 256;
/// Tag code of 32-bit floating positions.
pub const VERTEX_32BITF: i32 = 384;
/// Tag code of an 8-bit weight.
pub const WEIGHT_8BIT: i32 = 512;
/// Tag code of a 16-bit weight.
pub const WEIGHT_16BIT: i32 = 1024;
/// Tag code of a 32-bit floating weight.
pub const WEIGHT_32BITF: i32 = 1536;
/// Tag code of one weight per vertex.
pub const WEIGHTS1: i32 = 0;
/// Tag code of one position per vertex.
pub const VERTICES1: i32 = 0;
/// Tag code of positions that go to the rasterizer as they are.
pub const TRANSFORM_2D: i32 = 0x800000;
/// Tag code of positions that are transformed first.
pub const TRANSFORM_3D: i32 = 0;

/// The encoding of a numeric attribute.
#[derive(Clone, Copy, Debug, PartialEq, Eq, Structural)]
pub enum Width {
    /// An 8-bit integer.
    Bits8,
    /// A 16-bit integer.
    Bits16,
    /// A 32-bit float.
    Float32,
}

impl Width {
    /// The number of bytes that one value takes.
    pub open spec fn bytes(self) -> nat {
        match self {
            Width::Bits8 => 1,
            Width::Bits16 => 2,
            Width::Float32 => 4,
        }
    }

    /// The number of bytes that one value takes.
    pub fn size(self) -> (n: usize)
        ensures
            n == self.bytes(),
    {
        match self {
            Width::Bits8 => 1,
            Width::Bits16 => 2,
            Width::Float32 => 4,
        }
    }
}

/// The encoding of a colour attribute.
#[derive(Clone, Copy, Debug, PartialEq, Eq, Structural)]
pub enum ColorFormat {
    /// 16 bits: 5 red, 6 green, 5 blue.
    Rgb565,
    /// 16 bits: 5 red, 5 green, 5 blue, 1 alpha.
    Rgba5551,
    /// 16 bits: 4 for each channel.
    Rgba4444,
    /// 32 bits: 8 for each channel.
    Rgba8888,
}

impl ColorFormat {
    /// The number of bytes that one colour takes.
    pub open spec fn bytes(self) -> nat {
        match self {
            ColorFormat::Rgba8888 => 4,
            _ => 2,
        }
    }

    /// The number of bytes that one colour takes.
    pub fn size(self) -> (n: usize)
        ensures
            n == self.bytes(),
    {
        match self {
            ColorFormat::Rgba8888 => 4,
            _ => 2,
        }
    }
}

/// What the graphics engine does with positions.
#[derive(Clone, Copy, Debug, PartialEq, Eq, Structural)]
pub enum Transform {
    /// Positions are screen coordinates.
    Flat,
    /// Positions go through the transform matrices.
    Spatial,
}

/// The attributes of a vertex record. A position is always there; weight,
/// texture coordinates, colour and normal are there or not.
#[derive(Clone, Copy, Debug, PartialEq, Eq)]
pub struct VertexLayout {
    pub weight: Option<Width>,
    pub texture: Option<Width>,
    pub color: Option<ColorFormat>,
    pub normal: Option<Width>,
    pub position: Width,
    pub transform: Transform,
}

/// The tag bits of a weight attribute.
pub open spec fn weight_tag(w: Option<Width>) -> i32 {
    match w {
        None => 0,
        Some(Width::Bits8) => WEIGHT_8BIT | WEIGHTS1,
        Some(Width::Bits16) => WEIGHT_16BIT | WEIGHTS1,
        Some(Width::Float32) => WEIGHT_32BITF | WEIGHTS1,
    }
}

/// The tag bits of a texture attribute.
pub open spec fn texture_tag(t: Option<Width>) -> i32 {
    match t {
        None => 0,
        Some(Width::Bits8) => TEXTURE_8BIT,
        Some(Width::Bits16) => TEXTURE_16BIT,
        Some(Width::Float32) => TEXTURE_32BITF,
    }
}

/// The tag bits of a colour attribute.
pub open spec fn color_tag(c: Option<ColorFormat>) -> i32 {
    match c {
        None => 0,
        Some(ColorFormat::Rgb565) => COLOR_5650,
        Some(ColorFormat::Rgba5551) => COLOR_5551,
        Some(ColorFormat::Rgba4444) => COLOR_4444,
        Some(ColorFormat::Rgba8888) => COLOR_8888,
    }
}

/// The tag bits of a normal attribute.
pub open spec fn normal_tag(n: Option<Width>) -> i32 {
    match n {
        None => 0,
        Some(Width::Bits8) => NORMAL_8BIT,
        Some(Width::Bits16) => NORMAL_16BIT,
        Some(Width::Float32) => NORMAL_32BITF,
    }
}

/// The tag bits of a position attribute.
pub open spec fn position_tag(p: Width) -> i32 {
    match p {
        Width::Bits8 => VERTEX_8BIT | VERTICES1,
        Width::Bits16 => VERTEX_16BIT | VERTICES1,
        Width::Float32 => VERTEX_32BITF | VERTICES1,
    }
}

/// The tag bits of a transform.
pub open spec fn transform_tag(t: Transform) -> i32 {
    match t {
        Transform::Flat => TRANSFORM_2D,
        Transform::Spatial => TRANSFORM_3D,
    }
}

/// The bytes that one value of a numeric attribute takes, none where the
/// attribute is absent.
pub open spec fn attribute_bytes(w: Option<Width>) -> nat {
    match w {
        None => 0,
        Some(w) => w.bytes(),
    }
}

impl VertexLayout {
    /// The number of bytes of the weight.
    pub open spec fn weight_bytes(self) -> nat {
        attribute_bytes(self.weight)
    }

    /// The number of bytes of one texture coordinate.
    pub open spec fn texture_bytes(self) -> nat {
        attribute_bytes(self.texture)
    }

    /// The number of bytes of the colour.
    pub open spec fn color_bytes(self) -> nat {
        match self.color {
            None => 0,
            Some(c) => c.bytes(),
        }
    }

    /// The number of bytes of one normal coordinate.
    pub open spec fn normal_bytes(self) -> nat {
        attribute_bytes(self.normal)
    }

    /// The number of bytes of one position coordinate.
    pub open spec fn position_bytes(self) -> nat {
        self.position.bytes()
    }

    /// Where the texture coordinates begin in the record.
    pub open spec fn texture_offset(self) -> nat {
        self.weight_bytes()
    }

    /// Where the colour begins in the record.
    pub open spec fn color_offset(self) -> nat {
        self.texture_offset() + 2 * self.texture_bytes()
    }

    /// Where the normal begins in the record.
    pub open spec fn normal_offset(self) -> nat {
        self.color_offset() + self.color_bytes()
    }

    /// Where the position begins in the record.
    pub open spec fn position_offset(self) -> nat {
        self.normal_offset() + 3 * self.normal_bytes()
    }

    /// The bytes of all attributes together: weight, two texture
    /// coordinates, colour, three normal coordinates, three position
    /// coordinates.
    pub open spec fn field_bytes(self) -> nat {
        self.position_offset() + 3 * self.position_bytes()
    }

    /// The number of zero bytes after the attributes.
    pub open spec fn padding_bytes(self) -> nat {
        ((4 - self.field_bytes() % 4) % 4) as nat
    }

    /// The size of one record: attributes and padding.
    pub open spec fn stride_bytes(self) -> nat {
        self.field_bytes() + self.padding_bytes()
    }

    /// The format tag: the union of the codes of the attributes that are
    /// there, of one weight and one position per vertex, and of the
    /// transform.
    pub open spec fn tag(self) -> i32 {
        weight_tag(self.weight) | texture_tag(self.texture) | color_tag(self.color) | normal_tag(
            self.normal,
        ) | position_tag(self.position) | transform_tag(self.transform)
    }

    /// The least layout: a position and nothing else.
    pub fn new(position: Width, transform: Transform) -> (l: VertexLayout)
        ensures
            l == (VertexLayout {
                weight: None,
                texture: None,
                color: None,
                normal: None,
                position,
                transform,
            }),
    {
        VertexLayout { weight: None, texture: None, color: None, normal: None, position, transform }
    }

    /// This layout with a weight of the given width, or with none.
    pub fn with_weight(self, weight: Option<Width>) -> (l: VertexLayout)
        ensures
            l == (VertexLayout { weight, ..self }),
    {
        VertexLayout { weight, ..self }
    }

    /// This layout with texture coordinates of the given width, or with none.
    pub fn with_texture(self, texture: Option<Width>) -> (l: VertexLayout)
        ensures
            l == (VertexLayout { texture, ..self }),
    {
        VertexLayout { texture, ..self }
    }

    /// This layout with a colour of the given format, or with none.
    pub fn with_color(self, color: Option<ColorFormat>) -> (l: VertexLayout)
        ensures
            l == (VertexLayout { color, ..self }),
    {
        VertexLayout { color, ..self }
    }

    /// This layout with a normal of the given width, or with none.
    pub fn with_normal(self, normal: Option<Width>) -> (l: VertexLayout)
        ensures
            l == (VertexLayout { normal, ..self }),
    {
        VertexLayout { normal, ..self }
    }

    /// The number of bytes of the weight.
    pub fn weight_size(&self) -> (n: usize)
        ensures
            n == self.weight_bytes(),
            n <= 4,
    {
        match self.weight {
            None => 0,
            Some(w) => w.size(),
        }
    }

    /// The number of bytes of one texture coordinate.
    pub fn texture_size(&self) -> (n: usize)
        ensures
            n == self.texture_bytes(),
            n <= 4,
    {
        match self.texture {
            None => 0,
            Some(t) => t.size(),
        }
    }

    /// The number of bytes of the colour.
    pub fn color_size(&self) -> (n: usize)
        ensures
            n == self.color_bytes(),
            n <= 4,
    {
        match self.color {
            None => 0,
            Some(c) => c.size(),
        }
    }

    /// The number of bytes of one normal coordinate.
    pub fn normal_size(&self) -> (n: usize)
        ensures
            n == self.normal_bytes(),
            n <= 4,
    {
        match self.normal {
            None => 0,
            Some(n) => n.size(),
        }
    }

    /// Where the texture coordinates begin in the record.
    pub fn texture_start(&self) -> (n: usize)
        ensures
            n == self.texture_offset(),
            n <= 4,
    {
        self.weight_size()
    }

    /// Where the colour begins in the record.
    pub fn color_start(&self) -> (n: usize)
        ensures
            n == self.color_offset(),
            n <= 12,
    {
        self.texture_start() + 2 * self.texture_size()
    }

    /// Where the normal begins in the record.
    pub fn normal_start(&self) -> (n: usize)
        ensures
            n == self.normal_offset(),
            n <= 16,
    {
        self.color_start() + self.color_size()
    }

    /// Where the position begins in the record.
    pub fn position_start(&self) -> (n: usize)
        ensures
            n == self.position_offset(),
            n <= 28,
    {
        self.normal_start() + 3 * self.normal_size()
    }

    /// The bytes of all attributes together.
    pub fn fields_size(&self) -> (n: usize)
        ensures
            n == self.field_bytes(),
            3 <= n <= 40,
    {
        self.position_start() + 3 * self.position.size()
    }

    /// The number of zero bytes after the attributes.
    pub fn padding(&self) -> (n: usize)
        ensures
            n == self.padding_bytes(),
            n < 4,
    {
        let size: usize = self.fields_size();
        (4 - size % 4) % 4
    }

    /// The size of one record, a multiple of 4.
    pub fn stride(&self) -> (n: usize)
        ensures
            n == self.stride_bytes(),
            n % 4 == 0,
            4 <= n <= 40,
    {
        self.fields_size() + self.padding()
    }

    /// The format tag.
    pub fn vtype(&self) -> (t: i32)
        ensures
            t == self.tag(),
    {
        let weight: i32 = match self.weight {
            None => 0,
            Some(Width::Bits8) => WEIGHT_8BIT | WEIGHTS1,
            Some(Width::Bits16) => WEIGHT_16BIT | WEIGHTS1,
            Some(Width::Float32) => WEIGHT_32BITF | WEIGHTS1,
        };
        let texture: i32 = match self.texture {
            None => 0,
            Some(Width::Bits8) => TEXTURE_8BIT,
            Some(Width::Bits16) => TEXTURE_16BIT,
            Some(Width::Float32) => TEXTURE_32BITF,
        };
        let color: i32 = match self.color {
            None => 0,
            Some(ColorFormat::Rgb565) => COLOR_5650,
            Some(ColorFormat::Rgba5551) => COLOR_5551,
            Some(ColorFormat::Rgba4444) => COLOR_4444,
            Some(ColorFormat::Rgba8888) => COLOR_8888,
        };
        let normal: i32 = match self.normal {
            None => 0,
            Some(Width::Bits8) => NORMAL_8BIT,
            Some(Width::Bits16) => NORMAL_16BIT,
            Some(Width::Float32) => NORMAL_32BITF,
        };
        let position: i32 = match self.position {
            Width::Bits8 => VERTEX_8BIT | VERTICES1,
            Width::Bits16 => VERTEX_16BIT | VERTICES1,
            Width::Float32 => VERTEX_32BITF | VERTICES1,
        };
        let transform: i32 = match self.transform {
            Transform::Flat => TRANSFORM_2D,
            Transform::Spatial => TRANSFORM_3D,
        };
        weight | texture | color | normal | position | transform
    }
}

/// The attributes of a record by name, in the order in which a record holds
/// them.
#[derive(Clone, Copy, Debug, PartialEq, Eq, Structural)]
pub enum Attribute {
    Weight,
    TextureU,
    TextureV,
    Color,
    NormalX,
    NormalY,
    NormalZ,
    PositionX,
    PositionY,
    PositionZ,
}

/// One field of a record: which attribute, where it begins, how many bytes
/// it has.
#[derive(Clone, Copy, Debug, PartialEq, Eq, Structural)]
pub struct Field {
    pub attribute: Attribute,
    pub offset: usize,
    pub size: usize,
}

/// The width that the two bits of a numeric attribute's code stand for;
/// `unit` is the code of the 8-bit width.
pub open spec fn width_of_code(code: i32, unit: i32) -> Option<Width> {
    if code == unit {
        Some(Width::Bits8)
    } else if code == 2 * unit {
        Some(Width::Bits16)
    } else if code == 3 * unit {
        Some(Width::Float32)
    } else {
        None
    }
}

/// The colour format that a colour code stands for.
pub open spec fn color_of_code(code: i32) -> Option<ColorFormat> {
    if code == COLOR_5650 {
        Some(ColorFormat::Rgb565)
    } else if code == COLOR_5551 {
        Some(ColorFormat::Rgba5551)
    } else if code == COLOR_4444 {
        Some(ColorFormat::Rgba4444)
    } else if code == COLOR_8888 {
        Some(ColorFormat::Rgba8888)
    } else {
        None
    }
}

/// The bits of a tag that say how texture coordinates are encoded.
pub const TEXTURE_MASK: i32 = 3;

/// The bits of a tag that say how the colour is encoded.
pub const COLOR_MASK: i32 = 28;

/// The bits of a tag that say how the normal is encoded.
pub const NORMAL_MASK: i32 = 96;

/// The bits of a tag that say how the position is encoded.
pub const VERTEX_MASK: i32 = 384;

/// The bits of a tag that say how the weight is encoded.
pub const WEIGHT_MASK: i32 = 1536;

/// All bits of a tag that a layout can set.
pub const LAYOUT_MASK: i32 = 0x8007ff;

/// Whether a tag is that of a layout: it says how the position is encoded,
/// its colour code, if it has one, is that of a colour format, and it sets
/// no bit beyond those of the attributes and the transform.
pub open spec fn tag_is_layout(tag: i32) -> bool {
    &&& tag & !LAYOUT_MASK == 0
    &&& tag & VERTEX_MASK != 0
    &&& (tag & COLOR_MASK == 0 || color_of_code(tag & COLOR_MASK).is_some())
}

/// The layout that a tag describes, if it is that of a layout.
pub open spec fn layout_of_tag(tag: i32) -> Option<VertexLayout> {
    if tag_is_layout(tag) {
        Some(
            VertexLayout {
                weight: width_of_code(tag & WEIGHT_MASK, WEIGHT_8BIT),
                texture: width_of_code(tag & TEXTURE_MASK, TEXTURE_8BIT),
                color: color_of_code(tag & COLOR_MASK),
                normal: width_of_code(tag & NORMAL_MASK, NORMAL_8BIT),
                position: width_of_code(tag & VERTEX_MASK, VERTEX_8BIT).unwrap(),
                transform: if tag & TRANSFORM_2D != 0 {
                    Transform::Flat
                } else {
                    Transform::Spatial
                },
            },
        )
    } else {
        None
    }
}

/// The names of the fields that a tag announces, in the order in which the
/// engine reads them: a weight if the tag has a weight code, two texture
/// coordinates if it has a texture code, a colour if it has a colour code,
/// three normal coordinates if it has a normal code, and three position
/// coordinates.
pub open spec fn tag_attributes(tag: i32) -> Seq<Attribute> {
    (if tag & WEIGHT_MASK != 0 {
        seq![Attribute::Weight]
    } else {
        Seq::empty()
    }) + (if tag & TEXTURE_MASK != 0 {
        seq![Attribute::TextureU, Attribute::TextureV]
    } else {
        Seq::empty()
    }) + (if tag & COLOR_MASK != 0 {
        seq![Attribute::Color]
    } else {
        Seq::empty()
    }) + (if tag & NORMAL_MASK != 0 {
        seq![Attribute::NormalX, Attribute::NormalY, Attribute::NormalZ]
    } else {
        Seq::empty()
    }) + seq![Attribute::PositionX, Attribute::PositionY, Attribute::PositionZ]
}

/// Each attribute's code lies in the bits of its own mask, so the union of
/// the codes gives each code back under its mask.
proof fn lemma_tag_parts(w: i32, t: i32, c: i32, n: i32, p: i32, tr: i32)
    requires
        w & !WEIGHT_MASK == 0,
        t & !TEXTURE_MASK == 0,
        c & !COLOR_MASK == 0,
        n & !NORMAL_MASK == 0,
        p & !VERTEX_MASK == 0,
        tr & !TRANSFORM_2D == 0,
    ensures
        (w | t | c | n | p | tr) & WEIGHT_MASK == w,
        (w | t | c | n | p | tr) & TEXTURE_MASK == t,
        (w | t | c | n | p | tr) & COLOR_MASK == c,
        (w | t | c | n | p | tr) & NORMAL_MASK == n,
        (w | t | c | n | p | tr) & VERTEX_MASK == p,
        (w | t | c | n | p | tr) & TRANSFORM_2D == tr,
        (w | t | c | n | p | tr) & !LAYOUT_MASK == 0,
{
    assert({
        &&& (w | t | c | n | p | tr) & 1536i32 == w
        &&& (w | t | c | n | p | tr) & 3i32 == t
        &&& (w | t | c | n | p | tr) & 28i32 == c
        &&& (w | t | c | n | p | tr) & 96i32 == n
        &&& (w | t | c | n | p | tr) & 384i32 == p
        &&& (w | t | c | n | p | tr) & 0x800000i32 == tr
        &&& (w | t | c | n | p | tr) & !0x8007ffi32 == 0
    }) by (bit_vector)
        requires
            w & !1536i32 == 0,
            t & !3i32 == 0,
            c & !28i32 == 0,
            n & !96i32 == 0,
            p & !384i32 == 0,
            tr & !0x800000i32 == 0,
    ;
}

/// The tag bits of each attribute lie under the attribute's mask.
proof fn lemma_codes_under_masks(l: VertexLayout)
    ensures
        weight_tag(l.weight) & !WEIGHT_MASK == 0,
        texture_tag(l.texture) & !TEXTURE_MASK == 0,
        color_tag(l.color) & !COLOR_MASK == 0,
        normal_tag(l.normal) & !NORMAL_MASK == 0,
        position_tag(l.position) & !VERTEX_MASK == 0,
        transform_tag(l.transform) & !TRANSFORM_2D == 0,
        weight_tag(l.weight) == match l.weight {
            None => 0i32,
            Some(Width::Bits8) => 512i32,
            Some(Width::Bits16) => 1024i32,
            Some(Width::Float32) => 1536i32,
        },
        position_tag(l.position) == match l.position {
            Width::Bits8 => 128i32,
            Width::Bits16 => 256i32,
            Width::Float32 => 384i32,
        },
{
    assert(512i32 | 0i32 == 512i32 && 1024i32 | 0i32 == 1024i32 && 1536i32 | 0i32 == 1536i32
        && 128i32 | 0i32 == 128i32 && 256i32 | 0i32 == 256i32 && 384i32 | 0i32 == 384i32)
        by (bit_vector);
    assert(0i32 & !1536i32 == 0 && 512i32 & !1536i32 == 0 && 1024i32 & !1536i32 == 0 && 1536i32
        & !1536i32 == 0) by (bit_vector);
    assert(0i32 & !3i32 == 0 && 1i32 & !3i32 == 0 && 2i32 & !3i32 == 0 && 3i32 & !3i32 == 0)
        by (bit_vector);
    assert(0i32 & !28i32 == 0 && 16i32 & !28i32 == 0 && 20i32 & !28i32 == 0 && 24i32 & !28i32
        == 0 && 28i32 & !28i32 == 0) by (bit_vector);
    assert(0i32 & !96i32 == 0 && 32i32 & !96i32 == 0 && 64i32 & !96i32 == 0 && 96i32 & !96i32
        == 0) by (bit_vector);
    assert(128i32 & !384i32 == 0 && 256i32 & !384i32 == 0 && 384i32 & !384i32 == 0)
        by (bit_vector);
    assert(0i32 & !0x800000i32 == 0 && 0x800000i32 & !0x800000i32 == 0) by (bit_vector);
}

/// A layout's tag describes that layout and no other: read back from the
/// tag, every attribute is there or not, and as wide, as in the layout.
pub proof fn lemma_tag_tells_layout(l: VertexLayout)
    ensures
        layout_of_tag(l.tag()) == Some(l),
{
    lemma_codes_under_masks(l);
    lemma_tag_parts(
        weight_tag(l.weight),
        texture_tag(l.texture),
        color_tag(l.color),
        normal_tag(l.normal),
        position_tag(l.position),
        transform_tag(l.transform),
    );
}

/// An attribute is in a layout where the layout's tag has a code under the
/// attribute's mask.
pub proof fn lemma_tag_tells_presence(l: VertexLayout)
    ensures
        l.weight.is_some() <==> l.tag() & WEIGHT_MASK != 0,
        l.texture.is_some() <==> l.tag() & TEXTURE_MASK != 0,
        l.color.is_some() <==> l.tag() & COLOR_MASK != 0,
        l.normal.is_some() <==> l.tag() & NORMAL_MASK != 0,
        l.tag() & VERTEX_MASK != 0,
{
    lemma_codes_under_masks(l);
    lemma_tag_parts(
        weight_tag(l.weight),
        texture_tag(l.texture),
        color_tag(l.color),
        normal_tag(l.normal),
        position_tag(l.position),
        transform_tag(l.transform),
    );
}

/// The names of the fields of each attribute.
proof fn lemma_part_names(l: VertexLayout)
    ensures
        field_names(l.weight_fields()) == if l.weight.is_some() {
            seq![Attribute::Weight]
        } else {
            Seq::empty()
        },
        field_names(l.texture_fields()) == if l.texture.is_some() {
            seq![Attribute::TextureU, Attribute::TextureV]
        } else {
            Seq::empty()
        },
        field_names(l.color_fields()) == if l.color.is_some() {
            seq![Attribute::Color]
        } else {
            Seq::empty()
        },
        field_names(l.normal_fields()) == if l.normal.is_some() {
            seq![Attribute::NormalX, Attribute::NormalY, Attribute::NormalZ]
        } else {
            Seq::empty()
        },
        field_names(l.position_fields()) == seq![
            Attribute::PositionX,
            Attribute::PositionY,
            Attribute::PositionZ,
        ],
{
    assert(field_names(l.weight_fields()) =~= if l.weight.is_some() {
        seq![Attribute::Weight]
    } else {
        Seq::empty()
    });
    assert(field_names(l.texture_fields()) =~= if l.texture.is_some() {
        seq![Attribute::TextureU, Attribute::TextureV]
    } else {
        Seq::empty()
    });
    assert(field_names(l.color_fields()) =~= if l.color.is_some() {
        seq![Attribute::Color]
    } else {
        Seq::empty()
    });
    assert(field_names(l.normal_fields()) =~= if l.normal.is_some() {
        seq![Attribute::NormalX, Attribute::NormalY, Attribute::NormalZ]
    } else {
        Seq::empty()
    });
    assert(field_names(l.position_fields()) =~= seq![
        Attribute::PositionX,
        Attribute::PositionY,
        Attribute::PositionZ,
    ]);
}

/// The names of a sequence of fields.
pub open spec fn field_names(fields: Seq<Field>) -> Seq<Attribute> {
    Seq::new(fields.len(), |i: int| fields[i].attribute)
}

/// The fields of a layout's record are, in number and order, the fields
/// that the layout's tag announces.
pub proof fn lemma_fields_follow_tag(l: VertexLayout)
    ensures
        field_names(l.field_list()) == tag_attributes(l.tag()),
{
    lemma_tag_tells_presence(l);
    lemma_part_names(l);
    let w = l.weight_fields();
    let t = l.texture_fields();
    let c = l.color_fields();
    let n = l.normal_fields();
    let p = l.position_fields();
    lemma_names_of_concat(w, t);
    lemma_names_of_concat(w + t, c);
    lemma_names_of_concat(w + t + c, n);
    lemma_names_of_concat(w + t + c + n, p);
}

/// The names of two sequences of fields, one after the other.
proof fn lemma_names_of_concat(a: Seq<Field>, b: Seq<Field>)
    ensures
        field_names(a + b) == field_names(a) + field_names(b),
{
    assert(field_names(a + b) =~= field_names(a) + field_names(b));
}

/// Setting an attribute twice to the same choice is setting it once, and
/// setting it to the choice that it has changes nothing.
pub proof fn lemma_composition_idempotent(l: VertexLayout, w: Option<Width>, c: Option<ColorFormat>)
    ensures
        (VertexLayout { weight: w, ..(VertexLayout { weight: w, ..l }) }) == (VertexLayout {
            weight: w,
            ..l
        }),
        (VertexLayout { texture: w, ..(VertexLayout { texture: w, ..l }) }) == (VertexLayout {
            texture: w,
            ..l
        }),
        (VertexLayout { color: c, ..(VertexLayout { color: c, ..l }) }) == (VertexLayout {
            color: c,
            ..l
        }),
        (VertexLayout { normal: w, ..(VertexLayout { normal: w, ..l }) }) == (VertexLayout {
            normal: w,
            ..l
        }),
        (VertexLayout { weight: l.weight, ..l }) == l,
        (VertexLayout { texture: l.texture, ..l }) == l,
        (VertexLayout { color: l.color, ..l }) == l,
        (VertexLayout { normal: l.normal, ..l }) == l,
{
}

/// The size of a record is a multiple of 4, and the padding is the least
/// that makes it so.
pub proof fn lemma_stride_aligned(l: VertexLayout)
    ensures
        l.stride_bytes() % 4 == 0,
        l.padding_bytes() < 4,
        l.field_bytes() % 4 == 0 ==> l.padding_bytes() == 0,
{
}

impl VertexLayout {
    /// The field of the weight, if there is one.
    pub open spec fn weight_fields(self) -> Seq<Field> {
        if self.weight.is_some() {
            seq![
                Field {
                    attribute: Attribute::Weight,
                    offset: 0,
                    size: self.weight_bytes() as usize,
                },
            ]
        } else {
            Seq::empty()
        }
    }

    /// The fields of the texture coordinates, if there are any.
    pub open spec fn texture_fields(self) -> Seq<Field> {
        if self.texture.is_some() {
            seq![
                Field {
                    attribute: Attribute::TextureU,
                    offset: self.texture_offset() as usize,
                    size: self.texture_bytes() as usize,
                },
                Field {
                    attribute: Attribute::TextureV,
                    offset: (self.texture_offset() + self.texture_bytes()) as usize,
                    size: self.texture_bytes() as usize,
                },
            ]
        } else {
            Seq::empty()
        }
    }

    /// The field of the colour, if there is one.
    pub open spec fn color_fields(self) -> Seq<Field> {
        if self.color.is_some() {
            seq![
                Field {
                    attribute: Attribute::Color,
                    offset: self.color_offset() as usize,
                    size: self.color_bytes() as usize,
                },
            ]
        } else {
            Seq::empty()
        }
    }

    /// The fields of the normal, if there is one.
    pub open spec fn normal_fields(self) -> Seq<Field> {
        if self.normal.is_some() {
            seq![
                Field {
                    attribute: Attribute::NormalX,
                    offset: self.normal_offset() as usize,
                    size: self.normal_bytes() as usize,
                },
                Field {
                    attribute: Attribute::NormalY,
                    offset: (self.normal_offset() + self.normal_bytes()) as usize,
                    size: self.normal_bytes() as usize,
                },
                Field {
                    attribute: Attribute::NormalZ,
                    offset: (self.normal_offset() + 2 * self.normal_bytes()) as usize,
                    size: self.normal_bytes() as usize,
                },
            ]
        } else {
            Seq::empty()
        }
    }

    /// The fields of the position.
    pub open spec fn position_fields(self) -> Seq<Field> {
        seq![
            Field {
                attribute: Attribute::PositionX,
                offset: self.position_offset() as usize,
                size: self.position_bytes() as usize,
            },
            Field {
                attribute: Attribute::PositionY,
                offset: (self.position_offset() + self.position_bytes()) as usize,
                size: self.position_bytes() as usize,
            },
            Field {
                attribute: Attribute::PositionZ,
                offset: (self.position_offset() + 2 * self.position_bytes()) as usize,
                size: self.position_bytes() as usize,
            },
        ]
    }

    /// The fields of a record in order, each with its place and size:
    /// weight, texture, colour, normal, position.
    pub open spec fn field_list(self) -> Seq<Field> {
        self.weight_fields() + self.texture_fields() + self.color_fields() + self.normal_fields()
            + self.position_fields()
    }

    fn weight_part(&self) -> (f: Vec<Field>)
        ensures
            f@ == self.weight_fields(),
    {
        let mut f: Vec<Field> = Vec::new();
        if self.weight.is_some() {
            f.push(Field { attribute: Attribute::Weight, offset: 0, size: self.weight_size() });
        }
        assert(f@ =~= self.weight_fields());
        f
    }

    fn texture_part(&self) -> (f: Vec<Field>)
        ensures
            f@ == self.texture_fields(),
    {
        let mut f: Vec<Field> = Vec::new();
        if self.texture.is_some() {
            let at: usize = self.texture_start();
            let size: usize = self.texture_size();
            f.push(Field { attribute: Attribute::TextureU, offset: at, size });
            f.push(Field { attribute: Attribute::TextureV, offset: at + size, size });
        }
        assert(f@ =~= self.texture_fields());
        f
    }

    fn color_part(&self) -> (f: Vec<Field>)
        ensures
            f@ == self.color_fields(),
    {
        let mut f: Vec<Field> = Vec::new();
        if self.color.is_some() {
            let at: usize = self.color_start();
            let size: usize = self.color_size();
            f.push(Field { attribute: Attribute::Color, offset: at, size });
        }
        assert(f@ =~= self.color_fields());
        f
    }

    fn normal_part(&self) -> (f: Vec<Field>)
        ensures
            f@ == self.normal_fields(),
    {
        let mut f: Vec<Field> = Vec::new();
        if self.normal.is_some() {
            let at: usize = self.normal_start();
            let size: usize = self.normal_size();
            f.push(Field { attribute: Attribute::NormalX, offset: at, size });
            f.push(Field { attribute: Attribute::NormalY, offset: at + size, size });
            f.push(Field { attribute: Attribute::NormalZ, offset: at + 2 * size, size });
        }
        assert(f@ =~= self.normal_fields());
        f
    }

    fn position_part(&self) -> (f: Vec<Field>)
        ensures
            f@ == self.position_fields(),
    {
        let mut f: Vec<Field> = Vec::new();
        let at: usize = self.position_start();
        let size: usize = self.position.size();
        f.push(Field { attribute: Attribute::PositionX, offset: at, size });
        f.push(Field { attribute: Attribute::PositionY, offset: at + size, size });
        f.push(Field { attribute: Attribute::PositionZ, offset: at + 2 * size, size });
        assert(f@ =~= self.position_fields());
        f
    }

    /// The fields of a record in order, each with its place and size.
    pub fn fields(&self) -> (f: Vec<Field>)
        ensures
            f@ == self.field_list(),
    {
        let mut f: Vec<Field> = self.weight_part();
        let mut texture: Vec<Field> = self.texture_part();
        let mut color: Vec<Field> = self.color_part();
        let mut normal: Vec<Field> = self.normal_part();
        let mut position: Vec<Field> = self.position_part();
        f.append(&mut texture);
        f.append(&mut color);
        f.append(&mut normal);
        f.append(&mut position);
        f
    }

    /// The layout that a tag describes, if it is that of a layout.
    pub fn from_vtype(tag: i32) -> (l: Option<VertexLayout>)
        ensures
            l == layout_of_tag(tag),
    {
        if tag & !LAYOUT_MASK != 0 {
            return None;
        }
        let position: Width = match code_width(tag & VERTEX_MASK, VERTEX_8BIT) {
            Some(p) => p,
            None => {
                assert(tag & VERTEX_MASK == 0) by (bit_vector)
                    requires
                        tag & 384i32 != 128i32,
                        tag & 384i32 != 256i32,
                        tag & 384i32 != 384i32,
                ;
                return None;
            },
        };
        let color_code: i32 = tag & COLOR_MASK;
        let color: Option<ColorFormat> = if color_code == COLOR_5650 {
            Some(ColorFormat::Rgb565)
        } else if color_code == COLOR_5551 {
            Some(ColorFormat::Rgba5551)
        } else if color_code == COLOR_4444 {
            Some(ColorFormat::Rgba4444)
        } else if color_code == COLOR_8888 {
            Some(ColorFormat::Rgba8888)
        } else {
            None
        };
        if color_code != 0 && color.is_none() {
            return None;
        }
        let transform: Transform = if tag & TRANSFORM_2D != 0 {
            Transform::Flat
        } else {
            Transform::Spatial
        };
        Some(
            VertexLayout {
                weight: code_width(tag & WEIGHT_MASK, WEIGHT_8BIT),
                texture: code_width(tag & TEXTURE_MASK, TEXTURE_8BIT),
                color,
                normal: code_width(tag & NORMAL_MASK, NORMAL_8BIT),
                position,
                transform,
            },
        )
    }
}

/// The width that the two bits of a numeric attribute's code stand for;
/// `unit` is the code of the 8-bit width.
fn code_width(code: i32, unit: i32) -> (w: Option<Width>)
    requires
        0 < unit <= 512,
    ensures
        w == width_of_code(code, unit),
{
    if code == unit {
        Some(Width::Bits8)
    } else if code == 2 * unit {
        Some(Width::Bits16)
    } else if code == 3 * unit {
        Some(Width::Float32)
    } else {
        None
    }
}

} // verus!
