//! Per-instance attributes: an immutable colour and offset, and a scalar
//! scale from which the aspect-corrected scale pair is derived each frame.
//!
//! Lengths are fixed point: an offset or a scale `v` stands for
//! `v / UNITS_PER_ONE` in normalized device coordinates.

use vstd::prelude::*;
use crate::geometry::Rgba;
use crate::random::{Rng, pick_in, stream_state, stream_value, xorshift_step};

verus! {

/// Fixed-point denominator of offsets and scales.
pub const UNITS_PER_ONE: u32 = 1000;

/// Largest instance count accepted.
pub const MAX_INSTANCES: usize = 0x0100_0000;

/// The immutable attributes of one instance.
#[derive(Clone, Copy, Debug, PartialEq, Eq, Structural)]
pub struct ColorOffset {
    pub color: Rgba,
    /// Horizontal offset, in thousandths.
    pub offset_x: i32,
    /// Vertical offset, in thousandths.
    pub offset_y: i32,
}

/// The scalar scale of one instance, in thousandths.
#[derive(Clone, Copy, Debug, PartialEq, Eq, Structural)]
pub struct Scale {
    pub scale: u32,
}

/// Inclusive range of offsets, in thousandths.
#[derive(Clone, Copy, Debug, PartialEq, Eq, Structural)]
pub struct OffsetRange {
    pub min: i32,
    pub max: i32,
}

/// Inclusive range of scalar scales, in thousandths.
#[derive(Clone, Copy, Debug, PartialEq, Eq, Structural)]
pub struct ScaleRange {
    pub min: u32,
    pub max: u32,
}

/// The exact non-negative fraction `num / den`.
#[derive(Clone, Copy, Debug, PartialEq, Eq, Structural)]
pub struct Fraction {
    pub num: u64,
    pub den: u64,
}

/// Width over height of a viewport, in pixels.
#[derive(Clone, Copy, Debug, PartialEq, Eq, Structural)]
pub struct AspectRatio {
    pub width: u32,
    pub height: u32,
}

/// The scale handed to the GPU for one instance: `x` is the scalar scale
/// divided by the aspect ratio, `y` the scalar scale itself.
#[derive(Clone, Copy, Debug, PartialEq, Eq, Structural)]
pub struct ScalePair {
    pub x: Fraction,
    pub y: Fraction,
}

impl AspectRatio {
    /// Both sides are positive, so the ratio is finite and non-zero.
    pub open spec fn is_valid(&self) -> bool {
        self.width > 0 && self.height > 0
    }
}

/// `x * aspect == y`, that is `x == y / aspect`, as exact fractions.
pub open spec fn is_divided_by(x: Fraction, y: Fraction, aspect: AspectRatio) -> bool {
    x.num * aspect.width * y.den == y.num * x.den * aspect.height
}

/// `min <= v <= max` for the fraction `v` and thousandths `min`, `max`.
pub open spec fn fraction_within(v: Fraction, min: int, max: int) -> bool {
    &&& min * v.den <= v.num * UNITS_PER_ONE
    &&& v.num * UNITS_PER_ONE <= max * v.den
}

/// The scale pair of scalar scale `s` under `aspect`.
pub open spec fn scale_pair(s: Scale, aspect: AspectRatio) -> ScalePair {
    ScalePair {
        x: Fraction {
            num: (s.scale * aspect.height) as u64,
            den: (UNITS_PER_ONE * aspect.width) as u64,
        },
        y: Fraction { num: s.scale as u64, den: UNITS_PER_ONE as u64 },
    }
}

pub open spec fn scale_pairs(scales: Seq<Scale>, aspect: AspectRatio) -> Seq<ScalePair> {
    scales.map_values(|s: Scale| scale_pair(s, aspect))
}

/// Instance `k` of a store drawn from a generator in state `s`: five draws
/// each (red, green, blue, horizontal and vertical offset).
pub open spec fn drawn_color_offset(s: u64, k: int, range: OffsetRange) -> ColorOffset {
    ColorOffset {
        color: Rgba {
            r: pick_in(stream_value(s, (5 * k) as nat), 0, 255) as u8,
            g: pick_in(stream_value(s, (5 * k + 1) as nat), 0, 255) as u8,
            b: pick_in(stream_value(s, (5 * k + 2) as nat), 0, 255) as u8,
            a: 255,
        },
        offset_x: pick_in(stream_value(s, (5 * k + 3) as nat), range.min as int, range.max as int) as i32,
        offset_y: pick_in(stream_value(s, (5 * k + 4) as nat), range.min as int, range.max as int) as i32,
    }
}

/// Scale `k` of a store of `count` instances drawn from state `s`: one draw
/// each, after all colours and offsets.
pub open spec fn drawn_scale(s: u64, count: int, k: int, range: ScaleRange) -> Scale {
    Scale {
        scale: pick_in(stream_value(s, (5 * count + k) as nat), range.min as int, range.max as int) as u32,
    }
}

/// Owns the attributes of a fixed number of instances.
#[derive(Debug)]
pub struct InstanceAttributeStore {
    color_offsets: Vec<ColorOffset>,
    scales: Vec<Scale>,
    offset_range: OffsetRange,
    scale_range: ScaleRange,
}

impl InstanceAttributeStore {
    pub closed spec fn color_offsets(&self) -> Seq<ColorOffset> {
        self.color_offsets@
    }

    pub closed spec fn scales(&self) -> Seq<Scale> {
        self.scales@
    }

    pub closed spec fn offset_range(&self) -> OffsetRange {
        self.offset_range
    }

    pub closed spec fn scale_range(&self) -> ScaleRange {
        self.scale_range
    }

    /// One colour, offset and scale per instance, each offset and scale in
    /// its range, each colour opaque.
    pub open spec fn wf(&self) -> bool {
        &&& self.color_offsets().len() == self.scales().len()
        &&& self.scales().len() <= MAX_INSTANCES
        &&& self.offset_range().min <= self.offset_range().max
        &&& self.scale_range().min <= self.scale_range().max
        &&& forall|k: int|
            0 <= k < self.color_offsets().len() ==> {
                let c = #[trigger] self.color_offsets()[k];
                &&& c.color.a == 255
                &&& self.offset_range().min <= c.offset_x <= self.offset_range().max
                &&& self.offset_range().min <= c.offset_y <= self.offset_range().max
            }
        &&& forall|k: int|
            0 <= k < self.scales().len() ==> self.scale_range().min <= (
            #[trigger] self.scales()[k]).scale <= self.scale_range().max
    }

    /// The store holds the `count` instances drawn from a generator in
    /// state `s` with the given ranges.
    pub open spec fn is_drawn_from(
        &self,
        s: u64,
        count: int,
        offset_range: OffsetRange,
        scale_range: ScaleRange,
    ) -> bool {
        &&& self.color_offsets().len() == count
        &&& self.scales().len() == count
        &&& self.offset_range() == offset_range
        &&& self.scale_range() == scale_range
        &&& forall|k: int|
            0 <= k < count ==> #[trigger] self.color_offsets()[k] == drawn_color_offset(s, k, offset_range)
        &&& forall|k: int|
            0 <= k < count ==> #[trigger] self.scales()[k] == drawn_scale(s, count, k, scale_range)
    }

    /// Draws `count` colours and offsets, then `count` scales, from `rng`.
    pub fn new(count: usize, rng: &mut Rng, offset_range: OffsetRange, scale_range: ScaleRange) -> (r: Self)
        requires
            count <= MAX_INSTANCES,
            offset_range.min <= offset_range.max,
            scale_range.min <= scale_range.max,
        ensures
            r.wf(),
            r.is_drawn_from(old(rng)@, count as int, offset_range, scale_range),
            final(rng)@ == stream_state(old(rng)@, (6 * count) as nat),
    {
        let ghost s0 = rng@;
        let mut color_offsets: Vec<ColorOffset> = Vec::new();
        let mut i: usize = 0;
        while i < count
            invariant
                count <= MAX_INSTANCES,
                i <= count,
                offset_range.min <= offset_range.max,
                color_offsets@.len() == i,
                rng@ == stream_state(s0, (5 * i) as nat),
                forall|k: int|
                    0 <= k < i ==> #[trigger] color_offsets@[k] == drawn_color_offset(s0, k, offset_range),
            decreases count - i,
        {
            let r = rng.next_u8();
            let g = rng.next_u8();
            let b = rng.next_u8();
            let offset_x = rng.next_in_i32(offset_range.min, offset_range.max);
            let offset_y = rng.next_in_i32(offset_range.min, offset_range.max);
            proof {
                let j = (5 * i) as nat;
                assert(stream_state(s0, j + 1) == xorshift_step(stream_state(s0, j)));
                assert(stream_state(s0, j + 2) == xorshift_step(stream_state(s0, j + 1)));
                assert(stream_state(s0, j + 3) == xorshift_step(stream_state(s0, j + 2)));
                assert(stream_state(s0, j + 4) == xorshift_step(stream_state(s0, j + 3)));
                assert(stream_state(s0, j + 5) == xorshift_step(stream_state(s0, j + 4)));
            }
            color_offsets.push(ColorOffset { color: Rgba { r, g, b, a: 255 }, offset_x, offset_y });
            i = i + 1;
        }
        let mut scales: Vec<Scale> = Vec::new();
        let mut i: usize = 0;
        while i < count
            invariant
                count <= MAX_INSTANCES,
                i <= count,
                scale_range.min <= scale_range.max,
                scales@.len() == i,
                rng@ == stream_state(s0, (5 * count + i) as nat),
                forall|k: int|
                    0 <= k < i ==> #[trigger] scales@[k] == drawn_scale(s0, count as int, k, scale_range),
            decreases count - i,
        {
            let scale = rng.next_in_u32(scale_range.min, scale_range.max);
            proof {
                let j = (5 * count + i) as nat;
                assert(stream_state(s0, j + 1) == xorshift_step(stream_state(s0, j)));
            }
            scales.push(Scale { scale });
            i = i + 1;
        }
        let r = InstanceAttributeStore { color_offsets, scales, offset_range, scale_range };
        proof {
            assert forall|k: int| 0 <= k < r.color_offsets().len() implies {
                let c = #[trigger] r.color_offsets()[k];
                &&& c.color.a == 255
                &&& r.offset_range().min <= c.offset_x <= r.offset_range().max
                &&& r.offset_range().min <= c.offset_y <= r.offset_range().max
            } by {
                lemma_pick_in_range(stream_value(s0, (5 * k + 3) as nat), offset_range.min as int, offset_range.max as int);
                lemma_pick_in_range(stream_value(s0, (5 * k + 4) as nat), offset_range.min as int, offset_range.max as int);
            }
            assert forall|k: int| 0 <= k < r.scales().len() implies r.scale_range().min <= (
            #[trigger] r.scales()[k]).scale <= r.scale_range().max by {
                lemma_pick_in_range(stream_value(s0, (5 * count + k) as nat), scale_range.min as int, scale_range.max as int);
            }
        }
        r
    }

    /// Number of instances.
    pub fn len(&self) -> (r: usize)
        ensures
            r == self.scales().len(),
    {
        self.scales.len()
    }

    /// The colour and offset of every instance, in order.
    pub fn color_offset_values(&self) -> (r: Vec<ColorOffset>)
        ensures
            r@ == self.color_offsets(),
    {
        self.color_offsets.clone()
    }

    /// The scalar scale of every instance, in order.
    pub fn scale_values(&self) -> (r: Vec<Scale>)
        ensures
            r@ == self.scales(),
    {
        self.scales.clone()
    }

    /// The aspect-corrected scale of every instance: the scalar scale over
    /// the aspect ratio horizontally, the scalar scale vertically.
    pub fn recompute_scales(&self, aspect: AspectRatio) -> (r: Vec<ScalePair>)
        requires
            self.wf(),
            aspect.is_valid(),
        ensures
            r@ == scale_pairs(self.scales(), aspect),
    {
        let mut r: Vec<ScalePair> = Vec::new();
        let mut i: usize = 0;
        while i < self.scales.len()
            invariant
                i <= self.scales@.len(),
                r@ =~= scale_pairs(self.scales@.take(i as int), aspect),
            decreases self.scales@.len() - i,
        {
            let s = self.scales[i];
            proof {
                assert(s.scale * aspect.height <= u32::MAX * u32::MAX) by (nonlinear_arith)
                    requires s.scale <= u32::MAX, aspect.height <= u32::MAX;
                assert(UNITS_PER_ONE * aspect.width <= 1000 * u32::MAX);
                assert(self.scales@.take(i + 1) =~= self.scales@.take(i as int).push(s));
            }
            let x = Fraction {
                num: s.scale as u64 * aspect.height as u64,
                den: UNITS_PER_ONE as u64 * aspect.width as u64,
            };
            let y = Fraction { num: s.scale as u64, den: UNITS_PER_ONE as u64 };
            r.push(ScalePair { x, y });
            i = i + 1;
        }
        proof {
            assert(self.scales@.take(self.scales@.len() as int) =~= self.scales@);
        }
        r
    }
}

/// A draw picks a value of its range.
pub proof fn lemma_pick_in_range(d: u64, min: int, max: int)
    requires
        min <= max,
    ensures
        min <= pick_in(d, min, max) <= max,
{
}

/// Every aspect-corrected scale pair of a well-formed store has its
/// vertical scale within the store's scale range, and its horizontal scale
/// equal to the vertical one divided by the aspect ratio, whatever positive
/// aspect ratio is given.
pub proof fn lemma_scale_pairs_corrected(store: InstanceAttributeStore, aspect: AspectRatio, k: int)
    requires
        store.wf(),
        aspect.is_valid(),
        0 <= k < store.scales().len(),
    ensures
        ({
            let p = scale_pairs(store.scales(), aspect)[k];
            &&& fraction_within(p.y, store.scale_range().min as int, store.scale_range().max as int)
            &&& is_divided_by(p.x, p.y, aspect)
            &&& p.x.den > 0
            &&& p.y.den > 0
        }),
{
    let s = store.scales()[k];
    let p = scale_pairs(store.scales(), aspect)[k];
    assert(s.scale * aspect.height <= u32::MAX * u32::MAX) by (nonlinear_arith)
        requires s.scale <= u32::MAX, aspect.height <= u32::MAX;
    assert(p.x.num == s.scale * aspect.height);
    assert(p.x.den == UNITS_PER_ONE * aspect.width);
    let (sc, w, h) = (s.scale as int, aspect.width as int, aspect.height as int);
    assert(UNITS_PER_ONE * aspect.width <= 1000 * u32::MAX);
    assert(p.y.num == sc && p.y.den == 1000);
    assert((sc * h) * w * 1000 == sc * (1000 * w) * h) by (nonlinear_arith);
    assert(store.scale_range().min <= sc <= store.scale_range().max);
}

} // verus!
