//! A layer: one ring mesh drawn once per instance of an attribute store,
//! in a single instanced, indexed draw.

use vstd::prelude::*;
use crate::geometry::{
    Vertex, MAX_SUBDIVISIONS, create_circle_vertices, ring_index, ring_index_count, ring_vertex,
    ring_vertex_count,
};
use crate::instances::{
    AspectRatio, ColorOffset, Fraction, InstanceAttributeStore, MAX_INSTANCES, OffsetRange, Scale,
    ScalePair, ScaleRange, scale_pairs,
};
use crate::layout::{COLOR_OFFSET_STRIDE, INDEX_SIZE, SCALE_STRIDE, VERTEX_STRIDE};
use crate::random::Rng;

verus! {

/// Angles are fractions of a turn with this denominator.
pub const FULL_TURN: u32 = 1000;

/// Radii are in thousandths of normalized device coordinates.
pub const RADIUS_UNIT: u32 = 1000;

/// Radii and angular span of a ring.
#[derive(Clone, Copy, Debug, PartialEq, Eq, Structural)]
pub struct RingShape {
    /// Inner radius, in thousandths.
    pub inner_radius: u32,
    /// Outer radius, in thousandths.
    pub outer_radius: u32,
    /// First angle, in thousandths of a turn.
    pub start_angle: u32,
    /// Last angle, in thousandths of a turn.
    pub end_angle: u32,
}

impl RingShape {
    pub open spec fn is_valid(&self) -> bool {
        self.inner_radius <= self.outer_radius && self.start_angle <= self.end_angle
    }

    /// The angle of step `step` of `n`, as a fraction of a turn:
    /// `start + step * (end - start) / n`. A full ring repeats its first
    /// angle at its last step; the two vertex pairs coincide without
    /// sharing indices.
    pub fn step_angle(&self, step: u32, n: u32) -> (r: Fraction)
        requires
            self.is_valid(),
            0 < n,
            step <= n,
        ensures
            r.den == n * FULL_TURN,
            r.num == self.start_angle * n + step * (self.end_angle - self.start_angle),
    {
        proof {
            let (a, b, st, nn) = (self.start_angle as int, self.end_angle as int, step as int, n as int);
            assert(a * nn + st * (b - a) <= nn * b) by (nonlinear_arith)
                requires a <= b, 0 <= st <= nn;
            assert(nn * b <= u32::MAX * u32::MAX) by (nonlinear_arith)
                requires 0 <= nn <= u32::MAX, 0 <= b <= u32::MAX;
            assert(0 <= st * (b - a)) by (nonlinear_arith)
                requires a <= b, 0 <= st;
            assert(0 <= a * nn) by (nonlinear_arith)
                requires 0 <= a, 0 <= nn;
        }
        Fraction {
            num: self.start_angle as u64 * n as u64 + step as u64 * (self.end_angle - self.start_angle) as u64,
            den: n as u64 * FULL_TURN as u64,
        }
    }
}

/// What a layer is built from.
#[derive(Clone, Copy, Debug, PartialEq, Eq, Structural)]
pub struct LayerConfig {
    pub instance_count: usize,
    pub num_subdivision: usize,
    pub shape: RingShape,
    pub offset_range: OffsetRange,
    pub scale_range: ScaleRange,
}

impl LayerConfig {
    pub open spec fn is_valid(&self) -> bool {
        &&& self.instance_count <= MAX_INSTANCES
        &&& 1 <= self.num_subdivision <= MAX_SUBDIVISIONS
        &&& self.shape.is_valid()
        &&& self.offset_range.min <= self.offset_range.max
        &&& self.scale_range.min <= self.scale_range.max
    }

    /// A hundred rings of radii 0.25 to 0.5 over a full turn in 24
    /// subdivisions, offsets in `[-0.9, 0.9]`, scales in `[0.2, 0.5]`.
    pub open spec fn spec_standard() -> LayerConfig {
        LayerConfig {
            instance_count: 100,
            num_subdivision: 24,
            shape: RingShape { inner_radius: 250, outer_radius: 500, start_angle: 0, end_angle: FULL_TURN },
            offset_range: OffsetRange { min: -900i32, max: 900i32 },
            scale_range: ScaleRange { min: 200, max: 500 },
        }
    }

    pub fn standard() -> (r: LayerConfig)
        ensures
            r == LayerConfig::spec_standard(),
            r.is_valid(),
    {
        LayerConfig {
            instance_count: 100,
            num_subdivision: 24,
            shape: RingShape { inner_radius: 250, outer_radius: 500, start_angle: 0, end_angle: FULL_TURN },
            offset_range: OffsetRange { min: -900i32, max: 900i32 },
            scale_range: ScaleRange { min: 200, max: 500 },
        }
    }
}

/// Byte sizes of the four buffers of a layer.
#[derive(Clone, Copy, Debug, PartialEq, Eq, Structural)]
pub struct BufferSizes {
    pub vertex: u64,
    pub index: u64,
    pub color_offset: u64,
    pub scale: u64,
}

/// One instanced, indexed draw: indices `0..index_count` with base vertex
/// 0, instances `0..instance_count`.
#[derive(Clone, Copy, Debug, PartialEq, Eq, Structural)]
pub struct DrawCall {
    pub index_count: u32,
    pub instance_count: u32,
}

/// A ring mesh with its instances and the scale pairs last written for
/// them.
#[derive(Debug)]
pub struct CircleLayer {
    shape: RingShape,
    num_subdivision: usize,
    vertices: Vec<Vertex>,
    indices: Vec<u32>,
    instances: InstanceAttributeStore,
    scales: Vec<ScalePair>,
}

impl CircleLayer {
    pub closed spec fn spec_shape(&self) -> RingShape {
        self.shape
    }

    pub closed spec fn subdivisions(&self) -> int {
        self.num_subdivision as int
    }

    pub closed spec fn mesh_vertices(&self) -> Seq<Vertex> {
        self.vertices@
    }

    pub closed spec fn mesh_indices(&self) -> Seq<u32> {
        self.indices@
    }

    pub closed spec fn store(&self) -> InstanceAttributeStore {
        self.instances
    }

    /// The colour and offset of every instance.
    pub open spec fn color_offsets(&self) -> Seq<ColorOffset> {
        self.store().color_offsets()
    }

    /// The scalar scale of every instance.
    pub open spec fn base_scales(&self) -> Seq<Scale> {
        self.store().scales()
    }

    /// The scale pairs last written to the scale buffer (none before the
    /// first draw).
    pub closed spec fn uploaded_scales(&self) -> Seq<ScalePair> {
        self.scales@
    }

    pub open spec fn instance_count(&self) -> int {
        self.base_scales().len() as int
    }

    /// The mesh is the ring of the layer's subdivision count, and the
    /// instances are well formed.
    pub open spec fn wf(&self) -> bool {
        &&& 1 <= self.subdivisions() <= MAX_SUBDIVISIONS
        &&& self.spec_shape().is_valid()
        &&& self.mesh_vertices().len() == ring_vertex_count(self.subdivisions())
        &&& self.mesh_indices().len() == ring_index_count(self.subdivisions())
        &&& forall|k: int|
            0 <= k < self.mesh_vertices().len() ==> #[trigger] self.mesh_vertices()[k] == ring_vertex(k)
        &&& forall|k: int|
            0 <= k < self.mesh_indices().len() ==> #[trigger] self.mesh_indices()[k] == ring_index(k)
        &&& self.store().wf()
    }

    /// `after` is `before` drawn under `aspect`: only the written scale
    /// pairs change, to those of the instances under `aspect`.
    pub open spec fn is_drawn(before: CircleLayer, after: CircleLayer, aspect: AspectRatio) -> bool {
        &&& after.spec_shape() == before.spec_shape()
        &&& after.subdivisions() == before.subdivisions()
        &&& after.mesh_vertices() == before.mesh_vertices()
        &&& after.mesh_indices() == before.mesh_indices()
        &&& after.store() == before.store()
        &&& after.uploaded_scales() == scale_pairs(before.base_scales(), aspect)
    }

    /// Builds the mesh of `config` and draws its instances from `rng`.
    pub fn with_config(config: &LayerConfig, rng: &mut Rng) -> (r: Self)
        requires
            config.is_valid(),
        ensures
            r.wf(),
            r.spec_shape() == config.shape,
            r.subdivisions() == config.num_subdivision,
            r.instance_count() == config.instance_count,
            r.store().offset_range() == config.offset_range,
            r.store().scale_range() == config.scale_range,
            r.store().is_drawn_from(
                old(rng)@,
                config.instance_count as int,
                config.offset_range,
                config.scale_range,
            ),
            r.uploaded_scales().len() == 0,
            final(rng)@ == crate::random::stream_state(old(rng)@, (6 * config.instance_count) as nat),
    {
        let instances = InstanceAttributeStore::new(
            config.instance_count,
            rng,
            config.offset_range,
            config.scale_range,
        );
        let (vertices, indices) = create_circle_vertices(config.num_subdivision);
        CircleLayer {
            shape: config.shape,
            num_subdivision: config.num_subdivision,
            vertices,
            indices,
            instances,
            scales: Vec::new(),
        }
    }

    /// A layer of the standard configuration.
    pub fn new(rng: &mut Rng) -> (r: Self)
        ensures
            r.wf(),
            r.spec_shape() == LayerConfig::spec_standard().shape,
            r.subdivisions() == 24,
            r.instance_count() == 100,
            r.store().is_drawn_from(
                old(rng)@,
                100,
                LayerConfig::spec_standard().offset_range,
                LayerConfig::spec_standard().scale_range,
            ),
            r.uploaded_scales().len() == 0,
    {
        let config = LayerConfig::standard();
        CircleLayer::with_config(&config, rng)
    }

    pub fn shape(&self) -> (r: RingShape)
        ensures
            r == self.spec_shape(),
    {
        self.shape
    }

    pub fn num_subdivision(&self) -> (r: usize)
        ensures
            r == self.subdivisions(),
    {
        self.num_subdivision
    }

    pub fn vertices(&self) -> (r: &Vec<Vertex>)
        ensures
            r@ == self.mesh_vertices(),
    {
        &self.vertices
    }

    pub fn indices(&self) -> (r: &Vec<u32>)
        ensures
            r@ == self.mesh_indices(),
    {
        &self.indices
    }

    pub fn instances(&self) -> (r: &InstanceAttributeStore)
        ensures
            *r == self.store(),
    {
        &self.instances
    }

    /// The scale pairs last written for the instances.
    pub fn scales(&self) -> (r: &Vec<ScalePair>)
        ensures
            r@ == self.uploaded_scales(),
    {
        &self.scales
    }

    /// Byte sizes of the vertex, index, colour-offset and scale buffers,
    /// each exactly the size of its contents.
    pub fn buffer_sizes(&self) -> (r: BufferSizes)
        requires
            self.wf(),
        ensures
            r.vertex == self.mesh_vertices().len() * VERTEX_STRIDE,
            r.index == self.mesh_indices().len() * INDEX_SIZE,
            r.color_offset == self.instance_count() * COLOR_OFFSET_STRIDE,
            r.scale == self.instance_count() * SCALE_STRIDE,
            r.vertex % 4 == 0 && r.index % 4 == 0 && r.color_offset % 4 == 0 && r.scale % 4 == 0,
    {
        let count = self.instances.len();
        BufferSizes {
            vertex: self.vertices.len() as u64 * VERTEX_STRIDE,
            index: self.indices.len() as u64 * INDEX_SIZE,
            color_offset: count as u64 * COLOR_OFFSET_STRIDE,
            scale: count as u64 * SCALE_STRIDE,
        }
    }

    /// Writes the instances' scale pairs for `aspect` and returns the one
    /// draw that covers every index and every instance.
    pub fn draw(&mut self, aspect: AspectRatio) -> (r: DrawCall)
        requires
            old(self).wf(),
            aspect.is_valid(),
        ensures
            final(self).wf(),
            CircleLayer::is_drawn(*old(self), *final(self), aspect),
            r.index_count == old(self).mesh_indices().len(),
            r.instance_count == old(self).instance_count(),
    {
        self.scales = self.instances.recompute_scales(aspect);
        DrawCall { index_count: self.indices.len() as u32, instance_count: self.instances.len() as u32 }
    }
}

/// Drawing twice under the same aspect ratio leaves the layer as drawing
/// once does.
pub proof fn lemma_draw_idempotent(l0: CircleLayer, l1: CircleLayer, l2: CircleLayer, aspect: AspectRatio)
    requires
        CircleLayer::is_drawn(l0, l1, aspect),
        CircleLayer::is_drawn(l1, l2, aspect),
    ensures
        l2.spec_shape() == l1.spec_shape(),
        l2.subdivisions() == l1.subdivisions(),
        l2.mesh_vertices() == l1.mesh_vertices(),
        l2.mesh_indices() == l1.mesh_indices(),
        l2.store() == l1.store(),
        l2.uploaded_scales() == l1.uploaded_scales(),
{
}

/// However many draws a layer goes through, under whatever aspect ratios,
/// its instances' colours and offsets stay those it was built with.
pub proof fn lemma_draws_keep_color_offsets(layers: Seq<CircleLayer>, aspects: Seq<AspectRatio>)
    requires
        layers.len() == aspects.len() + 1,
        forall|i: int|
            0 <= i < aspects.len() ==> CircleLayer::is_drawn(layers[i], layers[i + 1], #[trigger] aspects[i]),
    ensures
        layers.last().color_offsets() == layers[0].color_offsets(),
    decreases aspects.len(),
{
    if aspects.len() > 0 {
        let n = aspects.len() - 1;
        assert(CircleLayer::is_drawn(layers[n], layers[n + 1], aspects[n]));
        lemma_draws_keep_color_offsets(layers.take(n + 1), aspects.take(n));
        assert(layers.take(n + 1).last() == layers[n]);
    }
}

} // verus!
