use webgpu_fundamentals::instances::AspectRatio;
use webgpu_fundamentals::layer::{CircleLayer, DrawCall};
use webgpu_fundamentals::random::Rng;
use webgpu_fundamentals::view::{
    AcquireFailure, FrameAction, FrameCommand, FramePhase, RenderView, ViewRenderPass, Viewport,
};

fn view(width: u32, height: u32) -> RenderView {
    let mut rng = Rng::seeded(12345);
    RenderView::new(width, height, &mut rng)
}

#[test]
fn new_view_has_one_pass_and_one_layer() {
    let v = view(800, 600);
    assert_eq!(v.passes().len(), 1);
    assert_eq!(v.passes()[0].label(), "Basic View Render Pass");
    assert_eq!(v.passes()[0].layouts().len(), 3);
    assert_eq!(v.layers().len(), 1);
    assert_eq!(v.phase(), FramePhase::Ready);
    assert_eq!(v.size(), Viewport { width: 800, height: 600 });
}

#[test]
fn resize_to_zero_is_ignored() {
    let mut v = view(1024, 768);
    assert!(!v.resize(0, 0));
    assert_eq!(v.size(), Viewport { width: 1024, height: 768 });
    assert!(!v.resize(0, 10));
    assert!(!v.resize(10, 0));
    assert_eq!(v.aspect_ratio(), AspectRatio { width: 1024, height: 768 });
}

#[test]
fn resize_sets_aspect_ratio() {
    let mut v = view(1024, 768);
    assert!(v.resize(800, 600));
    assert_eq!(v.size(), Viewport { width: 800, height: 600 });
    assert_eq!(v.aspect_ratio(), AspectRatio { width: 800, height: 600 });
    assert!(v.begin_frame());
    v.render();
    let layer = &v.layers()[0];
    for p in layer.scales() {
        assert_eq!(p.x.num as u128 * 800 * p.y.den as u128, p.y.num as u128 * p.x.den as u128 * 600);
    }
}

#[test]
fn one_frame_commands() {
    let mut v = view(800, 600);
    assert!(v.begin_frame());
    assert_eq!(v.phase(), FramePhase::Rendering);
    let commands = v.render();
    let call = DrawCall { index_count: 144, instance_count: 100 };
    assert_eq!(
        commands,
        vec![
            FrameCommand::BeginPass { pass: 0 },
            FrameCommand::DrawLayer { layer: 0, call },
            FrameCommand::EndPass { pass: 0 },
            FrameCommand::Present,
        ]
    );
    assert_eq!(v.phase(), FramePhase::Ready);
    assert_eq!(v.layers()[0].scales().len(), 100);
}

#[test]
fn passes_and_layers_in_order() {
    let mut rng = Rng::seeded(1);
    let layers = vec![CircleLayer::new(&mut rng), CircleLayer::new(&mut rng)];
    let passes = vec![
        ViewRenderPass::new("first".to_string()),
        ViewRenderPass::new("second".to_string()),
    ];
    let mut v = RenderView::with_parts(640, 480, passes, layers);
    assert!(v.begin_frame());
    let commands = v.render();
    let call = DrawCall { index_count: 144, instance_count: 100 };
    assert_eq!(
        commands,
        vec![
            FrameCommand::BeginPass { pass: 0 },
            FrameCommand::DrawLayer { layer: 0, call },
            FrameCommand::DrawLayer { layer: 1, call },
            FrameCommand::EndPass { pass: 0 },
            FrameCommand::BeginPass { pass: 1 },
            FrameCommand::DrawLayer { layer: 0, call },
            FrameCommand::DrawLayer { layer: 1, call },
            FrameCommand::EndPass { pass: 1 },
            FrameCommand::Present,
        ]
    );
}

#[test]
fn no_passes_only_presents() {
    let mut v = RenderView::with_parts(10, 10, vec![], vec![]);
    assert!(v.begin_frame());
    assert_eq!(v.render(), vec![FrameCommand::Present]);
}

#[test]
fn lost_surface_reconfigures_then_next_frame_renders() {
    let mut v = view(800, 600);
    assert!(v.begin_frame());
    v.render();
    // frame N: surface lost
    assert!(v.begin_frame());
    let action = v.acquire_failed(AcquireFailure::Lost);
    assert_eq!(action, FrameAction::Reconfigure { width: 800, height: 600 });
    assert_eq!(v.phase(), FramePhase::Lost);
    assert!(!v.begin_frame());
    v.reconfigured();
    assert_eq!(v.phase(), FramePhase::Ready);
    // frame N+1
    assert!(v.begin_frame());
    let commands = v.render();
    assert_eq!(commands.last(), Some(&FrameCommand::Present));
    assert_eq!(v.phase(), FramePhase::Ready);
}

#[test]
fn out_of_memory_is_fatal() {
    let mut v = view(800, 600);
    assert!(v.begin_frame());
    assert_eq!(v.acquire_failed(AcquireFailure::OutOfMemory), FrameAction::Exit);
    assert_eq!(v.phase(), FramePhase::Fatal);
    assert!(!v.begin_frame());
    v.reconfigured();
    assert_eq!(v.phase(), FramePhase::Fatal);
}

#[test]
fn other_failures_skip_the_frame() {
    for failure in [AcquireFailure::Timeout, AcquireFailure::Outdated] {
        let mut v = view(800, 600);
        assert!(v.begin_frame());
        assert_eq!(v.acquire_failed(failure), FrameAction::Report);
        assert_eq!(v.phase(), FramePhase::Ready);
        assert!(v.begin_frame());
    }
}

#[test]
fn zero_sized_view_does_not_start_frames() {
    let mut v = view(0, 0);
    assert!(!v.begin_frame());
    assert_eq!(v.phase(), FramePhase::Ready);
    assert!(v.resize(300, 200));
    assert!(v.begin_frame());
}

#[test]
fn update_changes_nothing() {
    let mut v = view(800, 600);
    v.update();
    assert_eq!(v.phase(), FramePhase::Ready);
    assert_eq!(v.size(), Viewport { width: 800, height: 600 });
}
