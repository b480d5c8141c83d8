//! Buffers: regions of a frame's scratch memory, bare or together with what
//! their bytes hold.

use crate::arena::{Arena, REGION_LIMIT};
use crate::record::{le_bytes, push_le, Vertex};
use crate::vertex::VertexLayout;
use vstd::arithmetic::div_mod::lemma_div_by_multiple;
use vstd::prelude::*;

verus! {

/// Tag code of 8-bit indices.
pub const INDEX_8BIT: i32 = 2048;

/// Tag code of 16-bit indices.
pub const INDEX_16BIT: i32 = 4096;

/// What a buffer is: where its region begins in the scratch memory, how
/// many bytes it has, and the number of the frame that it was made in.
pub struct Region {
    pub offset: nat,
    pub size: nat,
    pub frame: u64,
}

/// A region of scratch memory, of bytes of no stated kind.
#[derive(Clone, Copy, Debug, PartialEq, Eq)]
pub struct UntypedBuffer {
    offset: usize,
    size: usize,
    frame: u64,
}

impl View for UntypedBuffer {
    type V = Region;

    closed spec fn view(&self) -> Region {
        Region { offset: self.offset as nat, size: self.size as nat, frame: self.frame }
    }
}

impl UntypedBuffer {
    #[verifier::type_invariant]
    spec fn below_limit(self) -> bool {
        self.size < REGION_LIMIT
    }

    /// Stores a copy of `data` in the scratch memory, for the frame of the
    /// given number.
    pub fn get_memory(arena: &mut Arena, frame: u64, data: &[u8]) -> (b: UntypedBuffer)
        requires
            old(arena).has_room(data@.len()),
        ensures
            b@ == (Region { offset: old(arena)@.len(), size: data@.len(), frame }),
            final(arena)@ == old(arena)@ + data@,
    {
        let offset: usize = arena.allocate(data);
        UntypedBuffer { offset, size: data.len(), frame }
    }

    /// The number of bytes.
    pub fn size_bytes(&self) -> (n: usize)
        ensures
            n == self@.size,
            n < REGION_LIMIT,
    {
        proof {
            use_type_invariant(self);
        }
        self.size
    }

    /// Where the region begins in the scratch memory.
    pub fn to_ptr(&self) -> (p: usize)
        ensures
            p == self@.offset,
    {
        self.offset
    }

    /// The number of the frame that the buffer was made in.
    pub fn frame(&self) -> (f: u64)
        ensures
            f == self@.frame,
    {
        self.frame
    }
}

/// A buffer of vertex records: a region and the layout of its records.
pub struct Records {
    pub region: Region,
    pub layout: VertexLayout,
}

impl Records {
    /// The number of records.
    pub open spec fn len(self) -> nat {
        self.region.size / self.layout.stride_bytes()
    }
}

/// A region of scratch memory that holds vertex records of one layout.
#[derive(Clone, Copy, Debug, PartialEq, Eq)]
pub struct TypedBuffer {
    inner: UntypedBuffer,
    layout: VertexLayout,
}

impl View for TypedBuffer {
    type V = Records;

    closed spec fn view(&self) -> Records {
        Records { region: self.inner@, layout: self.layout }
    }
}

impl TypedBuffer {
    /// The region, without the layout.
    pub closed spec fn untyped(self) -> UntypedBuffer {
        self.inner
    }

    /// The region of the buffer is that of the buffer without the layout.
    pub proof fn lemma_untyped(self)
        ensures
            self.untyped()@ == self@.region,
    {
    }

    /// Stores the records of `data` in the scratch memory, for the frame of
    /// the given number.
    pub fn get_memory(arena: &mut Arena, frame: u64, layout: VertexLayout, data: &[Vertex]) -> (b:
        TypedBuffer)
        requires
            old(arena).has_room(data@.len() * layout.stride_bytes()),
        ensures
            b@.layout == layout,
            b@.region == (Region {
                offset: old(arena)@.len(),
                size: data@.len() * layout.stride_bytes(),
                frame,
            }),
            b@.len() == data@.len(),
            final(arena)@ == old(arena)@ + layout.records(data@),
    {
        let bytes: Vec<u8> = layout.encode_all(data);
        let inner: UntypedBuffer = UntypedBuffer::get_memory(arena, frame, bytes.as_slice());
        proof {
            lemma_div_by_multiple(data@.len() as int, layout.stride_bytes() as int);
        }
        TypedBuffer { inner, layout }
    }

    /// The number of records.
    pub fn len(&self) -> (n: usize)
        ensures
            n == self@.len(),
            n < REGION_LIMIT,
    {
        self.inner.size_bytes() / self.layout.stride()
    }

    /// Whether there is no record.
    pub fn is_empty(&self) -> (e: bool)
        ensures
            e == (self@.len() == 0),
    {
        self.len() == 0
    }

    /// The layout of the records.
    pub fn layout(&self) -> (l: VertexLayout)
        ensures
            l == self@.layout,
    {
        self.layout
    }

    /// The region, without the layout.
    pub fn as_untyped(&self) -> (b: &UntypedBuffer)
        ensures
            b@ == self@.region,
    {
        &self.inner
    }

    /// The region, without the layout.
    pub fn into_untyped(self) -> (b: UntypedBuffer)
        ensures
            b == self.untyped(),
            b@ == self@.region,
    {
        self.inner
    }
}

impl core::ops::Deref for TypedBuffer {
    type Target = UntypedBuffer;

    /// The region, without the layout.
    fn deref(&self) -> (b: &UntypedBuffer)
        ensures
            *b == self.untyped(),
            b@ == self@.region,
    {
        &self.inner
    }
}

impl From<TypedBuffer> for UntypedBuffer {
    /// The region of a buffer of records, without the layout.
    fn from(buffer: TypedBuffer) -> (b: UntypedBuffer) {
        buffer.into_untyped()
    }
}

impl vstd::std_specs::convert::FromSpecImpl<TypedBuffer> for UntypedBuffer {
    open spec fn obeys_from_spec() -> bool {
        true
    }

    open spec fn from_spec(buffer: TypedBuffer) -> UntypedBuffer {
        buffer.untyped()
    }
}

/// The two kinds of index that the graphics engine reads.
#[derive(Clone, Copy, Debug, PartialEq, Eq, Structural)]
pub enum IndexItem {
    /// One byte.
    Byte,
    /// Two bytes, the low one first.
    Half,
}

impl IndexItem {
    /// The number of bytes of one index.
    pub open spec fn bytes(self) -> nat {
        match self {
            IndexItem::Byte => 1,
            IndexItem::Half => 2,
        }
    }

    /// The tag code of the kind.
    pub open spec fn tag(self) -> i32 {
        match self {
            IndexItem::Byte => INDEX_8BIT,
            IndexItem::Half => INDEX_16BIT,
        }
    }

    /// The number of bytes of one index.
    pub fn size(self) -> (n: usize)
        ensures
            n == self.bytes(),
    {
        match self {
            IndexItem::Byte => 1,
            IndexItem::Half => 2,
        }
    }

    /// The tag code of the kind.
    pub fn vtype(self) -> (t: i32)
        ensures
            t == self.tag(),
    {
        match self {
            IndexItem::Byte => INDEX_8BIT,
            IndexItem::Half => INDEX_16BIT,
        }
    }
}

/// A buffer of indices: a region and the kind of its indices.
pub struct Indices {
    pub region: Region,
    pub item: IndexItem,
}

impl Indices {
    /// The number of indices.
    pub open spec fn len(self) -> nat {
        self.region.size / self.item.bytes()
    }
}

/// The bytes of a sequence of 16-bit indices, each with its low byte first.
pub open spec fn half_bytes(indices: Seq<u16>) -> Seq<u8>
    decreases indices.len(),
{
    if indices.len() == 0 {
        Seq::empty()
    } else {
        half_bytes(indices.drop_last()) + le_bytes(indices.last() as u32, 2)
    }
}

/// Two bytes for each 16-bit index.
pub proof fn lemma_half_bytes_len(indices: Seq<u16>)
    ensures
        half_bytes(indices).len() == 2 * indices.len(),
    decreases indices.len(),
{
    if indices.len() > 0 {
        lemma_half_bytes_len(indices.drop_last());
    }
}

/// A region of scratch memory that holds indices of one kind.
#[derive(Clone, Copy, Debug, PartialEq, Eq)]
pub struct IndexBuffer {
    inner: UntypedBuffer,
    item: IndexItem,
}

impl View for IndexBuffer {
    type V = Indices;

    closed spec fn view(&self) -> Indices {
        Indices { region: self.inner@, item: self.item }
    }
}

impl From<UntypedBuffer> for IndexBuffer {
    /// The region read as 8-bit indices.
    fn from(buffer: UntypedBuffer) -> (b: IndexBuffer) {
        IndexBuffer { inner: buffer, item: IndexItem::Byte }
    }
}

impl vstd::std_specs::convert::FromSpecImpl<UntypedBuffer> for IndexBuffer {
    open spec fn obeys_from_spec() -> bool {
        true
    }

    open spec fn from_spec(buffer: UntypedBuffer) -> IndexBuffer {
        IndexBuffer::of_bytes(buffer)
    }
}

impl IndexBuffer {
    /// The region read as 8-bit indices.
    pub closed spec fn of_bytes(buffer: UntypedBuffer) -> IndexBuffer {
        IndexBuffer { inner: buffer, item: IndexItem::Byte }
    }

    /// A region read as 8-bit indices is that region, with as many indices
    /// as it has bytes.
    pub proof fn lemma_of_bytes(buffer: UntypedBuffer)
        ensures
            IndexBuffer::of_bytes(buffer)@ == (Indices { region: buffer@, item: IndexItem::Byte }),
            IndexBuffer::of_bytes(buffer)@.len() == buffer@.size,
    {
    }

    /// Stores 8-bit indices in the scratch memory, for the frame of the
    /// given number.
    pub fn get_memory_u8(arena: &mut Arena, frame: u64, data: &[u8]) -> (b: IndexBuffer)
        requires
            old(arena).has_room(data@.len()),
        ensures
            b@.item == IndexItem::Byte,
            b@.region == (Region { offset: old(arena)@.len(), size: data@.len(), frame }),
            b@.len() == data@.len(),
            final(arena)@ == old(arena)@ + data@,
    {
        let inner: UntypedBuffer = UntypedBuffer::get_memory(arena, frame, data);
        IndexBuffer { inner, item: IndexItem::Byte }
    }

    /// Stores 16-bit indices in the scratch memory, for the frame of the
    /// given number.
    pub fn get_memory_u16(arena: &mut Arena, frame: u64, data: &[u16]) -> (b: IndexBuffer)
        requires
            old(arena).has_room(2 * data@.len()),
        ensures
            b@.item == IndexItem::Half,
            b@.region == (Region { offset: old(arena)@.len(), size: 2 * data@.len(), frame }),
            b@.len() == data@.len(),
            final(arena)@ == old(arena)@ + half_bytes(data@),
    {
        let mut bytes: Vec<u8> = Vec::new();
        let mut i: usize = 0;
        while i < data.len()
            invariant
                i <= data.len(),
                bytes@ == half_bytes(data@.take(i as int)),
            decreases data.len() - i,
        {
            push_le(&mut bytes, data[i] as u32, 2);
            i += 1;
            assert(data@.take(i as int).drop_last() =~= data@.take(i - 1));
        }
        assert(data@.take(i as int) =~= data@);
        proof {
            lemma_half_bytes_len(data@);
        }
        let inner: UntypedBuffer = UntypedBuffer::get_memory(arena, frame, bytes.as_slice());
        IndexBuffer { inner, item: IndexItem::Half }
    }

    /// The tag code of the indices.
    pub fn idx_vtype(&self) -> (t: i32)
        ensures
            t == self@.item.tag(),
    {
        self.item.vtype()
    }

    /// The number of indices.
    pub fn idx_len(&self) -> (n: i32)
        ensures
            n == self@.len(),
    {
        let n: usize = self.inner.size_bytes() / self.item.size();
        n as i32
    }

    /// The region, without the kind.
    pub fn idx_buffer(&self) -> (b: &UntypedBuffer)
        ensures
            b@ == self@.region,
    {
        &self.inner
    }
}

} // verus!
