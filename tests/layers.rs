use webgpu_fundamentals::instances::{AspectRatio, OffsetRange, ScaleRange};
use webgpu_fundamentals::layer::{BufferSizes, CircleLayer, DrawCall, LayerConfig, RingShape, FULL_TURN};
use webgpu_fundamentals::layout::{
    packed_layout, vertex_buffer_layouts, Attribute, AttributeFormat, StepMode,
};
use webgpu_fundamentals::random::Rng;

#[test]
fn standard_layer_sizes() {
    let mut rng = Rng::seeded(1);
    let layer = CircleLayer::new(&mut rng);
    assert_eq!(layer.vertices().len(), 50);
    assert_eq!(layer.indices().len(), 144);
    assert_eq!(layer.instances().len(), 100);
    assert_eq!(layer.num_subdivision(), 24);
    assert!(layer.scales().is_empty());
    assert_eq!(
        layer.buffer_sizes(),
        BufferSizes { vertex: 600, index: 576, color_offset: 1200, scale: 800 }
    );
    assert_eq!(
        layer.shape(),
        RingShape { inner_radius: 250, outer_radius: 500, start_angle: 0, end_angle: FULL_TURN }
    );
}

#[test]
fn draw_covers_all_indices_and_instances() {
    let mut rng = Rng::seeded(1);
    let mut layer = CircleLayer::new(&mut rng);
    let call = layer.draw(AspectRatio { width: 800, height: 600 });
    assert_eq!(call, DrawCall { index_count: 144, instance_count: 100 });
    assert_eq!(layer.scales().len(), 100);
}

#[test]
fn draws_only_change_scales() {
    let mut rng = Rng::seeded(8);
    let mut layer = CircleLayer::new(&mut rng);
    let colors = layer.instances().color_offset_values();
    let vertices = layer.vertices().clone();
    let indices = layer.indices().clone();
    let wide = AspectRatio { width: 1600, height: 900 };
    layer.draw(wide);
    let once = layer.scales().clone();
    layer.draw(wide);
    assert_eq!(layer.scales(), &once);
    layer.draw(AspectRatio { width: 900, height: 1600 });
    assert_ne!(layer.scales(), &once);
    layer.draw(AspectRatio { width: 1, height: 1 });
    assert_eq!(layer.instances().color_offset_values(), colors);
    assert_eq!(layer.vertices(), &vertices);
    assert_eq!(layer.indices(), &indices);
}

#[test]
fn same_seed_same_layer() {
    let mut a = Rng::seeded(77);
    let mut b = Rng::seeded(77);
    let la = CircleLayer::new(&mut a);
    let lb = CircleLayer::new(&mut b);
    assert_eq!(la.instances().color_offset_values(), lb.instances().color_offset_values());
    assert_eq!(la.instances().scale_values(), lb.instances().scale_values());
}

#[test]
fn custom_layer() {
    let mut rng = Rng::seeded(4);
    let config = LayerConfig {
        instance_count: 3,
        num_subdivision: 4,
        shape: RingShape { inner_radius: 0, outer_radius: 100, start_angle: 0, end_angle: 250 },
        offset_range: OffsetRange { min: -10, max: 10 },
        scale_range: ScaleRange { min: 1000, max: 1000 },
    };
    let layer = CircleLayer::with_config(&config, &mut rng);
    assert_eq!(layer.vertices().len(), 10);
    assert_eq!(layer.indices().len(), 24);
    assert_eq!(layer.buffer_sizes(), BufferSizes { vertex: 120, index: 96, color_offset: 36, scale: 24 });
    assert!(layer.instances().scale_values().iter().all(|s| s.scale == 1000));
}

#[test]
fn step_angles() {
    let shape = RingShape { inner_radius: 250, outer_radius: 500, start_angle: 0, end_angle: FULL_TURN };
    let a = shape.step_angle(6, 24);
    assert_eq!((a.num, a.den), (6000, 24000));
    let arc = RingShape { inner_radius: 0, outer_radius: 1, start_angle: 100, end_angle: 400 };
    let b = arc.step_angle(2, 3);
    assert_eq!((b.num, b.den), (100 * 3 + 2 * 300, 3000));
    let c = arc.step_angle(3, 3);
    assert_eq!(c.num * 1000 / c.den, 400);
}

#[test]
fn layouts_match_gpu_structs() {
    let layouts = vertex_buffer_layouts();
    assert_eq!(layouts.len(), 3);
    assert_eq!((layouts[0].stride, layouts[0].step), (12, StepMode::PerVertex));
    assert_eq!(
        layouts[0].attributes,
        vec![
            Attribute { location: 0, offset: 0, format: AttributeFormat::Float32x2 },
            Attribute { location: 4, offset: 8, format: AttributeFormat::Unorm8x4 },
        ]
    );
    assert_eq!((layouts[1].stride, layouts[1].step), (12, StepMode::PerInstance));
    assert_eq!(
        layouts[1].attributes,
        vec![
            Attribute { location: 1, offset: 0, format: AttributeFormat::Unorm8x4 },
            Attribute { location: 2, offset: 4, format: AttributeFormat::Float32x2 },
        ]
    );
    assert_eq!((layouts[2].stride, layouts[2].step), (8, StepMode::PerInstance));
    assert_eq!(
        layouts[2].attributes,
        vec![Attribute { location: 3, offset: 0, format: AttributeFormat::Float32x2 }]
    );
}

#[test]
fn packed_layout_uses_format_sizes() {
    let layout = packed_layout(
        StepMode::PerVertex,
        &vec![
            (7, AttributeFormat::Unorm8x4),
            (8, AttributeFormat::Unorm8x4),
            (9, AttributeFormat::Float32x2),
        ],
    );
    assert_eq!(layout.stride, 16);
    let offsets: Vec<u64> = layout.attributes.iter().map(|a| a.offset).collect();
    assert_eq!(offsets, vec![0, 4, 8]);
    let empty = packed_layout(StepMode::PerInstance, &vec![]);
    assert_eq!(empty.stride, 0);
    assert!(empty.attributes.is_empty());
}
