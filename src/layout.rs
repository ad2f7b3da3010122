//! The three vertex buffers a ring layer is drawn from, and how each one is
//! laid out: per-vertex geometry in slot 0, the per-instance colour and
//! offset in slot 1, the per-instance scale in slot 2.

use vstd::prelude::*;

verus! {

/// Vertex formats used by the layers.
#[derive(Clone, Copy, Debug, PartialEq, Eq, Structural)]
pub enum AttributeFormat {
    /// Two 32-bit floats.
    Float32x2,
    /// Four unsigned bytes, normalized to `0.0..=1.0`.
    Unorm8x4,
}

/// How often a vertex buffer advances.
#[derive(Clone, Copy, Debug, PartialEq, Eq, Structural)]
pub enum StepMode {
    PerVertex,
    PerInstance,
}

/// One attribute of a vertex buffer.
#[derive(Clone, Copy, Debug, PartialEq, Eq, Structural)]
pub struct Attribute {
    /// Shader location the attribute feeds.
    pub location: u32,
    /// Byte offset within one element of the buffer.
    pub offset: u64,
    pub format: AttributeFormat,
}

/// Layout of one vertex buffer.
#[derive(Debug)]
pub struct BufferLayout {
    /// Bytes from one element to the next.
    pub stride: u64,
    pub step: StepMode,
    pub attributes: Vec<Attribute>,
}

/// Strides and offsets of vertex buffers must be multiples of this.
pub const VERTEX_ALIGNMENT: u64 = 4;

/// Buffer copies must cover a multiple of this many bytes.
pub const COPY_ALIGNMENT: u64 = 4;

/// Bytes of one mesh vertex: a position and a colour.
pub const VERTEX_STRIDE: u64 = 12;

/// Bytes of one instance's colour and offset.
pub const COLOR_OFFSET_STRIDE: u64 = 12;

/// Bytes of one instance's scale pair.
pub const SCALE_STRIDE: u64 = 8;

/// Bytes of one index.
pub const INDEX_SIZE: u64 = 4;

pub const VERTEX_SLOT: u32 = 0;

pub const COLOR_OFFSET_SLOT: u32 = 1;

pub const SCALE_SLOT: u32 = 2;

/// Byte size of a format.
pub open spec fn format_size(format: AttributeFormat) -> u64 {
    match format {
        AttributeFormat::Float32x2 => 8,
        AttributeFormat::Unorm8x4 => 4,
    }
}

/// Relies on wgpu's `VertexFormat::size`: the byte size of a vertex format
/// (8 for `Float32x2`, 4 for `Unorm8x4`).
#[verifier::external_body]
fn vertex_format_size(format: AttributeFormat) -> (r: u64)
    ensures
        r == format_size(format),
{
    let f = match format {
        AttributeFormat::Float32x2 => wgpu::VertexFormat::Float32x2,
        AttributeFormat::Unorm8x4 => wgpu::VertexFormat::Unorm8x4,
    };
    f.size()
}

/// Byte offset of field `k` when `fields` are packed one after another.
pub open spec fn packed_offset(fields: Seq<(u32, AttributeFormat)>, k: int) -> int
    decreases k,
{
    if k <= 0 {
        0
    } else {
        packed_offset(fields, k - 1) + format_size(fields[k - 1].1)
    }
}

/// Each attribute starts on an aligned offset and lies within the stride,
/// and the stride is aligned.
pub open spec fn is_aligned(layout: &BufferLayout) -> bool {
    &&& layout.stride % VERTEX_ALIGNMENT == 0
    &&& forall|k: int|
        0 <= k < layout.attributes@.len() ==> {
            let a = #[trigger] layout.attributes@[k];
            &&& a.offset % VERTEX_ALIGNMENT == 0
            &&& a.offset + format_size(a.format) <= layout.stride
        }
}

/// Lays `fields` (shader location, format) out back to back, in order.
pub fn packed_layout(step: StepMode, fields: &Vec<(u32, AttributeFormat)>) -> (r: BufferLayout)
    requires
        fields@.len() <= 64,
    ensures
        r.step == step,
        r.stride == packed_offset(fields@, fields@.len() as int),
        r.attributes@.len() == fields@.len(),
        forall|k: int|
            0 <= k < fields@.len() ==> #[trigger] r.attributes@[k] == (Attribute {
                location: fields@[k].0,
                offset: packed_offset(fields@, k) as u64,
                format: fields@[k].1,
            }),
{
    let mut attributes: Vec<Attribute> = Vec::new();
    let mut offset: u64 = 0;
    let mut i: usize = 0;
    while i < fields.len()
        invariant
            fields@.len() <= 64,
            i <= fields@.len(),
            offset == packed_offset(fields@, i as int),
            offset <= 8 * i,
            attributes@.len() == i,
            forall|k: int|
                0 <= k < i ==> #[trigger] attributes@[k] == (Attribute {
                    location: fields@[k].0,
                    offset: packed_offset(fields@, k) as u64,
                    format: fields@[k].1,
                }),
        decreases fields@.len() - i,
    {
        let (location, format) = fields[i];
        let size = vertex_format_size(format);
        attributes.push(Attribute { location, offset, format });
        offset = offset + size;
        i = i + 1;
    }
    BufferLayout { stride: offset, step, attributes }
}

/// The three vertex buffer layouts of a ring layer, by slot, each aligned.
pub open spec fn are_ring_layouts(r: Seq<BufferLayout>) -> bool {
    &&& r.len() == 3
    &&& r[VERTEX_SLOT as int].step == StepMode::PerVertex
    &&& r[VERTEX_SLOT as int].stride == VERTEX_STRIDE
    &&& r[VERTEX_SLOT as int].attributes@ == seq![
        Attribute { location: 0, offset: 0, format: AttributeFormat::Float32x2 },
        Attribute { location: 4, offset: 8, format: AttributeFormat::Unorm8x4 },
    ]
    &&& r[COLOR_OFFSET_SLOT as int].step == StepMode::PerInstance
    &&& r[COLOR_OFFSET_SLOT as int].stride == COLOR_OFFSET_STRIDE
    &&& r[COLOR_OFFSET_SLOT as int].attributes@ == seq![
        Attribute { location: 1, offset: 0, format: AttributeFormat::Unorm8x4 },
        Attribute { location: 2, offset: 4, format: AttributeFormat::Float32x2 },
    ]
    &&& r[SCALE_SLOT as int].step == StepMode::PerInstance
    &&& r[SCALE_SLOT as int].stride == SCALE_STRIDE
    &&& r[SCALE_SLOT as int].attributes@ == seq![
        Attribute { location: 3, offset: 0, format: AttributeFormat::Float32x2 },
    ]
    &&& forall|l: int| 0 <= l < r.len() ==> is_aligned(#[trigger] &r[l])
}

/// The layouts of the three vertex buffers, by slot: mesh vertices
/// (position at location 0, colour at location 4), instance colour and
/// offset (locations 1 and 2), instance scale (location 3).
pub fn vertex_buffer_layouts() -> (r: Vec<BufferLayout>)
    ensures
        are_ring_layouts(r@),
{
    let vertex = packed_layout(
        StepMode::PerVertex,
        &vec![(0u32, AttributeFormat::Float32x2), (4u32, AttributeFormat::Unorm8x4)],
    );
    let color_offset = packed_layout(
        StepMode::PerInstance,
        &vec![(1u32, AttributeFormat::Unorm8x4), (2u32, AttributeFormat::Float32x2)],
    );
    let scale = packed_layout(StepMode::PerInstance, &vec![(3u32, AttributeFormat::Float32x2)]);
    proof {
        reveal_with_fuel(packed_offset, 3);
        assert(vertex.attributes@ =~= seq![
            Attribute { location: 0, offset: 0, format: AttributeFormat::Float32x2 },
            Attribute { location: 4, offset: 8, format: AttributeFormat::Unorm8x4 },
        ]);
        assert(color_offset.attributes@ =~= seq![
            Attribute { location: 1, offset: 0, format: AttributeFormat::Unorm8x4 },
            Attribute { location: 2, offset: 4, format: AttributeFormat::Float32x2 },
        ]);
        assert(scale.attributes@ =~= seq![
            Attribute { location: 3, offset: 0, format: AttributeFormat::Float32x2 },
        ]);
    }
    let r = vec![vertex, color_offset, scale];
    proof {
        assert(is_aligned(&r@[0]));
        assert(is_aligned(&r@[1]));
        assert(is_aligned(&r@[2]));
    }
    r
}

} // verus!
