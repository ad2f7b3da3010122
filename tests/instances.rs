use webgpu_fundamentals::instances::{
    AspectRatio, Fraction, InstanceAttributeStore, OffsetRange, ScalePair, ScaleRange,
};
use webgpu_fundamentals::random::Rng;

fn standard_store(seed: u64) -> InstanceAttributeStore {
    let mut rng = Rng::seeded(seed);
    InstanceAttributeStore::new(
        100,
        &mut rng,
        OffsetRange { min: -900, max: 900 },
        ScaleRange { min: 200, max: 500 },
    )
}

#[test]
fn generator_is_reproducible() {
    let mut a = Rng::seeded(42);
    let mut b = Rng::seeded(42);
    for _ in 0..10 {
        assert_eq!(a.next_u64(), b.next_u64());
    }
}

#[test]
fn generator_first_value_is_one_xorshift_step() {
    let mut rng = Rng::seeded(1);
    let x: u64 = 1;
    let a = x ^ (x << 13);
    let b = a ^ (a >> 7);
    let c = b ^ (b << 17);
    assert_eq!(rng.next_u64(), c);
    assert_eq!(c, 1082269761);
}

#[test]
fn zero_seed_still_varies() {
    let mut rng = Rng::seeded(0);
    let a = rng.next_u64();
    let b = rng.next_u64();
    assert_ne!(a, 0);
    assert_ne!(a, b);
}

#[test]
fn draws_stay_in_range() {
    let mut rng = Rng::seeded(7);
    for _ in 0..1000 {
        let v = rng.next_in_i32(-900, 900);
        assert!((-900..=900).contains(&v));
        let s = rng.next_in_u32(200, 500);
        assert!((200..=500).contains(&s));
    }
    assert_eq!(rng.next_in_u32(5, 5), 5);
}

#[test]
fn store_holds_attributes_in_range() {
    let store = standard_store(2024);
    assert_eq!(store.len(), 100);
    for c in store.color_offset_values() {
        assert_eq!(c.color.a, 255);
        assert!((-900..=900).contains(&c.offset_x));
        assert!((-900..=900).contains(&c.offset_y));
    }
    for s in store.scale_values() {
        assert!((200..=500).contains(&s.scale));
    }
}

#[test]
fn empty_store() {
    let mut rng = Rng::seeded(3);
    let store = InstanceAttributeStore::new(
        0,
        &mut rng,
        OffsetRange { min: 0, max: 0 },
        ScaleRange { min: 0, max: 0 },
    );
    assert_eq!(store.len(), 0);
    assert!(store.recompute_scales(AspectRatio { width: 1, height: 1 }).is_empty());
}

#[test]
fn scale_pairs_are_aspect_corrected() {
    let store = standard_store(99);
    for (w, h) in [(800u32, 600u32), (1, 1), (600, 800), (1920, 1080), (u32::MAX, 1)] {
        let aspect = AspectRatio { width: w, height: h };
        let pairs = store.recompute_scales(aspect);
        assert_eq!(pairs.len(), 100);
        for (p, s) in pairs.iter().zip(store.scale_values()) {
            let y = p.y.num as f64 / p.y.den as f64;
            assert!((0.2..=0.5).contains(&y));
            assert_eq!(p.y, Fraction { num: s.scale as u64, den: 1000 });
            // x * aspect == y, exactly
            assert_eq!(
                p.x.num as u128 * w as u128 * p.y.den as u128,
                p.y.num as u128 * p.x.den as u128 * h as u128
            );
        }
    }
}

#[test]
fn scale_pair_exact_value() {
    let mut rng = Rng::seeded(5);
    let store = InstanceAttributeStore::new(
        1,
        &mut rng,
        OffsetRange { min: 0, max: 0 },
        ScaleRange { min: 300, max: 300 },
    );
    let pairs = store.recompute_scales(AspectRatio { width: 800, height: 600 });
    assert_eq!(
        pairs,
        vec![ScalePair {
            x: Fraction { num: 300 * 600, den: 1000 * 800 },
            y: Fraction { num: 300, den: 1000 },
        }]
    );
}

#[test]
fn recompute_twice_gives_same_scales_and_keeps_colors() {
    let store = standard_store(11);
    let before = store.color_offset_values();
    let aspect = AspectRatio { width: 1280, height: 720 };
    let a = store.recompute_scales(aspect);
    let b = store.recompute_scales(aspect);
    assert_eq!(a, b);
    assert_eq!(store.color_offset_values(), before);
}
