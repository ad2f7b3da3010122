//! A view: the viewport, the render passes and the layers, and the frame
//! driver that decides what each redraw does.
//!
//! A frame goes `Ready -> Rendering` on a redraw request, then either back
//! to `Ready` once its commands are issued and presented, or, when the
//! target image cannot be acquired, to `Lost` (the surface is reconfigured
//! at the last known size, then `Ready`), to `Fatal` (out of memory: the
//! host stops), or back to `Ready` with the frame skipped.

use vstd::prelude::*;
use vstd::arithmetic::div_mod::lemma_fundamental_div_mod_converse;
use crate::instances::AspectRatio;
use crate::layer::{CircleLayer, DrawCall, LayerConfig};
use crate::layout::{BufferLayout, are_ring_layouts, vertex_buffer_layouts};
use crate::random::Rng;

verus! {

#[verifier::external_type_specification]
#[verifier::external_body]
pub struct ExWindowEvent(winit::event::WindowEvent);

/// Size of the drawing surface, in pixels.
#[derive(Clone, Copy, Debug, PartialEq, Eq, Structural)]
pub struct Viewport {
    pub width: u32,
    pub height: u32,
}

impl Viewport {
    /// Neither side is zero, so an aspect ratio exists.
    pub open spec fn is_drawable(&self) -> bool {
        self.width > 0 && self.height > 0
    }
}

/// Where the frame driver stands.
#[derive(Clone, Copy, Debug, PartialEq, Eq, Structural)]
pub enum FramePhase {
    Ready,
    Rendering,
    Lost,
    Fatal,
}

/// Why the target image of a frame could not be acquired.
#[derive(Clone, Copy, Debug, PartialEq, Eq, Structural)]
pub enum AcquireFailure {
    Timeout,
    Outdated,
    Lost,
    OutOfMemory,
}

/// What the host does after a failed acquisition.
#[derive(Clone, Copy, Debug, PartialEq, Eq, Structural)]
pub enum FrameAction {
    /// Reconfigure the surface at this size, then call `reconfigured`.
    Reconfigure { width: u32, height: u32 },
    /// Stop the application.
    Exit,
    /// Report the failure and skip the frame.
    Report,
}

/// One step of a frame, in the order the host carries them out.
#[derive(Clone, Copy, Debug, PartialEq, Eq, Structural)]
pub enum FrameCommand {
    /// Begin pass `pass` on the acquired image: clear it and bind the
    /// pass's pipeline.
    BeginPass { pass: usize },
    /// Write layer `layer`'s scale pairs to its scale buffer, bind its
    /// vertex buffers and index buffer, and issue `call`.
    DrawLayer { layer: usize, call: DrawCall },
    /// End pass `pass` and submit its commands.
    EndPass { pass: usize },
    /// Present the image.
    Present,
}

/// A named pass with the vertex buffer layouts its pipeline reads.
#[derive(Debug)]
pub struct ViewRenderPass {
    label: String,
    layouts: Vec<BufferLayout>,
}

impl ViewRenderPass {
    pub closed spec fn spec_label(&self) -> Seq<char> {
        self.label@
    }

    pub closed spec fn spec_layouts(&self) -> Seq<BufferLayout> {
        self.layouts@
    }

    pub fn new(label: String) -> (r: Self)
        ensures
            r.spec_label() == label@,
            are_ring_layouts(r.spec_layouts()),
    {
        ViewRenderPass { label, layouts: vertex_buffer_layouts() }
    }

    pub fn label(&self) -> (r: &String)
        ensures
            r@ == self.spec_label(),
    {
        &self.label
    }

    /// The vertex buffer layouts, by slot.
    pub fn layouts(&self) -> (r: &Vec<BufferLayout>)
        ensures
            r@ == self.spec_layouts(),
    {
        &self.layouts
    }
}

/// The draw call of a well-formed layer: all its indices, all its
/// instances.
pub open spec fn layer_draw_call(layer: CircleLayer) -> DrawCall {
    DrawCall {
        index_count: layer.mesh_indices().len() as u32,
        instance_count: layer.instance_count() as u32,
    }
}

/// The commands of pass `p` over layers with draw calls `calls`.
pub open spec fn pass_commands(p: int, calls: Seq<DrawCall>) -> Seq<FrameCommand> {
    seq![FrameCommand::BeginPass { pass: p as usize }] + Seq::new(
        calls.len(),
        |l: int| FrameCommand::DrawLayer { layer: l as usize, call: calls[l] },
    ) + seq![FrameCommand::EndPass { pass: p as usize }]
}

/// The commands of the first `np` passes, in pass order.
pub open spec fn passes_commands(np: nat, calls: Seq<DrawCall>) -> Seq<FrameCommand>
    decreases np,
{
    if np == 0 {
        seq![]
    } else {
        passes_commands((np - 1) as nat, calls) + pass_commands(np - 1, calls)
    }
}

/// A whole frame: every pass in order, each drawing every layer in order,
/// then one presentation.
pub open spec fn frame_plan(np: nat, calls: Seq<DrawCall>) -> Seq<FrameCommand> {
    passes_commands(np, calls).push(FrameCommand::Present)
}

/// Command `i` of the pass commands of a frame, in closed form: with
/// `m = calls.len() + 2` commands per pass, pass `i / m` begins at offset
/// 0, draws layer `j - 1` at offset `j`, and ends at offset `m - 1`.
pub open spec fn pass_command_at(i: int, calls: Seq<DrawCall>) -> FrameCommand {
    let m = calls.len() as int + 2;
    let p = i / m;
    let j = i % m;
    if j == 0 {
        FrameCommand::BeginPass { pass: p as usize }
    } else if j == m - 1 {
        FrameCommand::EndPass { pass: p as usize }
    } else {
        FrameCommand::DrawLayer { layer: (j - 1) as usize, call: calls[j - 1] }
    }
}

/// A frame holds `calls.len() + 2` commands per pass and one more: each
/// pass begins (and clears) once, draws every layer once in order, and
/// ends once, and the image is presented exactly once, after every pass.
pub proof fn lemma_frame_plan_shape(np: nat, calls: Seq<DrawCall>)
    ensures
        frame_plan(np, calls).len() == np * (calls.len() + 2) + 1,
        frame_plan(np, calls).last() == FrameCommand::Present,
        forall|i: int|
            0 <= i < np * (calls.len() + 2) ==> #[trigger] frame_plan(np, calls)[i] == pass_command_at(
                i,
                calls,
            ),
        forall|i: int|
            0 <= i < np * (calls.len() + 2) ==> #[trigger] frame_plan(np, calls)[i]
                != FrameCommand::Present,
{
    lemma_passes_commands_shape(np, calls);
    let plan = frame_plan(np, calls);
    assert forall|i: int| 0 <= i < np * (calls.len() + 2) implies #[trigger] plan[i]
        != FrameCommand::Present by {
        assert(plan[i] == passes_commands(np, calls)[i]);
    }
}

proof fn lemma_passes_commands_shape(np: nat, calls: Seq<DrawCall>)
    ensures
        passes_commands(np, calls).len() == np * (calls.len() + 2),
        forall|i: int|
            0 <= i < np * (calls.len() + 2) ==> #[trigger] passes_commands(np, calls)[i]
                == pass_command_at(i, calls),
    decreases np,
{
    let m = calls.len() as int + 2;
    if np > 0 {
        let q = (np - 1) as nat;
        lemma_passes_commands_shape(q, calls);
        let prev = passes_commands(q, calls);
        let last = pass_commands(q as int, calls);
        assert(np * m == q * m + m) by (nonlinear_arith)
            requires np == q + 1;
        assert(last.len() == m);
        assert forall|i: int| 0 <= i < np * m implies #[trigger] passes_commands(np, calls)[i]
            == pass_command_at(i, calls) by {
            if i >= q * m {
                let r = i - q * m;
                lemma_fundamental_div_mod_converse(i, m, q as int, r);
                assert(passes_commands(np, calls)[i] == last[r]);
            } else {
                assert(passes_commands(np, calls)[i] == prev[i]);
            }
        }
    }
}

/// Phase after a redraw request.
pub open spec fn phase_after_begin(phase: FramePhase, size: Viewport) -> FramePhase {
    if phase == FramePhase::Ready && size.is_drawable() {
        FramePhase::Rendering
    } else {
        phase
    }
}

/// Phase after a failed acquisition.
pub open spec fn phase_after_failure(failure: AcquireFailure) -> FramePhase {
    match failure {
        AcquireFailure::Lost => FramePhase::Lost,
        AcquireFailure::OutOfMemory => FramePhase::Fatal,
        _ => FramePhase::Ready,
    }
}

/// What the host is told to do after a failed acquisition.
pub open spec fn action_after_failure(failure: AcquireFailure, size: Viewport) -> FrameAction {
    match failure {
        AcquireFailure::Lost => FrameAction::Reconfigure { width: size.width, height: size.height },
        AcquireFailure::OutOfMemory => FrameAction::Exit,
        _ => FrameAction::Report,
    }
}

/// Phase once the host has reconfigured the surface.
pub open spec fn phase_after_reconfigure(phase: FramePhase) -> FramePhase {
    if phase == FramePhase::Lost {
        FramePhase::Ready
    } else {
        phase
    }
}

/// Viewport after a resize request: applied only when both sides are
/// positive.
pub open spec fn size_after_resize(size: Viewport, width: u32, height: u32) -> Viewport {
    if width > 0 && height > 0 {
        Viewport { width, height }
    } else {
        size
    }
}

/// Every layer is well formed.
pub open spec fn layers_wf(layers: Seq<CircleLayer>) -> bool {
    forall|l: int| 0 <= l < layers.len() ==> (#[trigger] layers[l]).wf()
}

/// The viewport, passes and layers of one window, and its frame phase.
#[derive(Debug)]
pub struct RenderView {
    size: Viewport,
    passes: Vec<ViewRenderPass>,
    layers: Vec<CircleLayer>,
    phase: FramePhase,
}

impl RenderView {
    pub closed spec fn spec_size(&self) -> Viewport {
        self.size
    }

    pub closed spec fn spec_passes(&self) -> Seq<ViewRenderPass> {
        self.passes@
    }

    pub closed spec fn spec_layers(&self) -> Seq<CircleLayer> {
        self.layers@
    }

    pub closed spec fn spec_phase(&self) -> FramePhase {
        self.phase
    }

    /// The aspect ratio of the current viewport.
    pub open spec fn spec_aspect(&self) -> AspectRatio {
        AspectRatio { width: self.spec_size().width, height: self.spec_size().height }
    }

    /// Every layer is well formed, and a frame is only in progress on a
    /// drawable viewport.
    pub open spec fn wf(&self) -> bool {
        &&& layers_wf(self.spec_layers())
        &&& self.spec_phase() == FramePhase::Rendering ==> self.spec_size().is_drawable()
    }

    /// A view of `width` by `height` pixels over `passes` and `layers`,
    /// ready for its first frame.
    pub fn with_parts(width: u32, height: u32, passes: Vec<ViewRenderPass>, layers: Vec<CircleLayer>) -> (r: Self)
        requires
            forall|l: int| 0 <= l < layers@.len() ==> (#[trigger] layers@[l]).wf(),
        ensures
            r.wf(),
            r.spec_size() == (Viewport { width, height }),
            r.spec_passes() == passes@,
            r.spec_layers() == layers@,
            r.spec_phase() == FramePhase::Ready,
    {
        RenderView { size: Viewport { width, height }, passes, layers, phase: FramePhase::Ready }
    }

    /// A view with one pass and one layer of the standard configuration.
    pub fn new(width: u32, height: u32, rng: &mut Rng) -> (r: Self)
        ensures
            r.wf(),
            r.spec_size() == (Viewport { width, height }),
            r.spec_passes().len() == 1,
            r.spec_passes()[0].spec_label() == "Basic View Render Pass"@,
            r.spec_layers().len() == 1,
            are_ring_layouts(r.spec_passes()[0].spec_layouts()),
            r.spec_layers()[0].subdivisions() == 24,
            r.spec_layers()[0].spec_shape() == LayerConfig::spec_standard().shape,
            r.spec_layers()[0].store().is_drawn_from(
                old(rng)@,
                100,
                LayerConfig::spec_standard().offset_range,
                LayerConfig::spec_standard().scale_range,
            ),
            r.spec_layers()[0].uploaded_scales().len() == 0,
            r.spec_phase() == FramePhase::Ready,
    {
        let pass = ViewRenderPass::new(String::from_str("Basic View Render Pass"));
        let layer = CircleLayer::new(rng);
        RenderView::with_parts(width, height, vec![pass], vec![layer])
    }

    pub fn size(&self) -> (r: Viewport)
        ensures
            r == self.spec_size(),
    {
        self.size
    }

    /// Width over height of the viewport.
    pub fn aspect_ratio(&self) -> (r: AspectRatio)
        ensures
            r == self.spec_aspect(),
    {
        AspectRatio { width: self.size.width, height: self.size.height }
    }

    pub fn phase(&self) -> (r: FramePhase)
        ensures
            r == self.spec_phase(),
    {
        self.phase
    }

    pub fn passes(&self) -> (r: &Vec<ViewRenderPass>)
        ensures
            r@ == self.spec_passes(),
    {
        &self.passes
    }

    pub fn layers(&self) -> (r: &Vec<CircleLayer>)
        ensures
            r@ == self.spec_layers(),
    {
        &self.layers
    }

    /// Records a new viewport size; a size with a zero side is ignored.
    /// Returns whether the size was applied (the surface must then be
    /// reconfigured).
    pub fn resize(&mut self, width: u32, height: u32) -> (r: bool)
        requires
            old(self).wf(),
        ensures
            final(self).wf(),
            r == (width > 0 && height > 0),
            final(self).spec_size() == size_after_resize(old(self).spec_size(), width, height),
            final(self).spec_passes() == old(self).spec_passes(),
            final(self).spec_layers() == old(self).spec_layers(),
            final(self).spec_phase() == old(self).spec_phase(),
    {
        if width > 0 && height > 0 {
            self.size = Viewport { width, height };
            true
        } else {
            false
        }
    }

    /// Whether the view consumes a window event; it consumes none.
    pub fn input(&mut self, event: &winit::event::WindowEvent) -> (r: bool)
        ensures
            !r,
            *final(self) == *old(self),
    {
        false
    }

    /// Hook for per-frame changes before rendering; there are none.
    pub fn update(&mut self)
        ensures
            *final(self) == *old(self),
    {
    }

    /// A redraw request: starts a frame when the view is ready and the
    /// viewport drawable. Returns whether a frame started.
    pub fn begin_frame(&mut self) -> (r: bool)
        requires
            old(self).wf(),
        ensures
            final(self).wf(),
            r == (old(self).spec_phase() == FramePhase::Ready && old(self).spec_size().is_drawable()),
            final(self).spec_phase() == phase_after_begin(old(self).spec_phase(), old(self).spec_size()),
            final(self).spec_size() == old(self).spec_size(),
            final(self).spec_passes() == old(self).spec_passes(),
            final(self).spec_layers() == old(self).spec_layers(),
    {
        if self.phase == FramePhase::Ready && self.size.width > 0 && self.size.height > 0 {
            self.phase = FramePhase::Rendering;
            true
        } else {
            false
        }
    }

    /// The target image was acquired: draws every layer under the current
    /// aspect ratio and returns the frame's commands. The frame is then
    /// complete.
    pub fn render(&mut self) -> (r: Vec<FrameCommand>)
        requires
            old(self).wf(),
            old(self).spec_phase() == FramePhase::Rendering,
        ensures
            final(self).wf(),
            final(self).spec_phase() == FramePhase::Ready,
            final(self).spec_size() == old(self).spec_size(),
            final(self).spec_passes() == old(self).spec_passes(),
            final(self).spec_layers().len() == old(self).spec_layers().len(),
            forall|l: int|
                0 <= l < old(self).spec_layers().len() ==> CircleLayer::is_drawn(
                    #[trigger] old(self).spec_layers()[l],
                    final(self).spec_layers()[l],
                    old(self).spec_aspect(),
                ),
            r@ == frame_plan(
                old(self).spec_passes().len(),
                old(self).spec_layers().map_values(|layer: CircleLayer| layer_draw_call(layer)),
            ),
    {
        let aspect = self.aspect_ratio();
        let ghost layers0 = self.layers@;
        let ghost passes0 = self.passes@;
        let ghost size0 = self.size;
        let ghost calls = layers0.map_values(|layer: CircleLayer| layer_draw_call(layer));
        let mut drawn: Vec<DrawCall> = Vec::new();
        let mut l: usize = 0;
        while l < self.layers.len()
            invariant
                aspect == self.spec_aspect(),
                aspect.is_valid(),
                self.passes@ == passes0,
                self.size == size0,
                self.phase == FramePhase::Rendering,
                layers_wf(layers0),
                calls == layers0.map_values(|layer: CircleLayer| layer_draw_call(layer)),
                self.layers@.len() == layers0.len(),
                l <= layers0.len(),
                drawn@.len() == l,
                forall|k: int| 0 <= k < l ==> #[trigger] drawn@[k] == calls[k],
                forall|k: int|
                    0 <= k < l ==> CircleLayer::is_drawn(layers0[k], #[trigger] self.layers@[k], aspect),
                forall|k: int| l <= k < layers0.len() ==> #[trigger] self.layers@[k] == layers0[k],
                forall|k: int| 0 <= k < layers0.len() ==> (#[trigger] self.layers@[k]).wf(),
            decreases layers0.len() - l,
        {
            let call = self.layers[l].draw(aspect);
            proof {
                assert(layers0[l as int].wf());
                assert(calls[l as int] == layer_draw_call(layers0[l as int]));
            }
            drawn.push(call);
            l = l + 1;
        }
        proof {
            assert(layers_wf(self.layers@));
        }
        let mut commands: Vec<FrameCommand> = Vec::new();
        let mut p: usize = 0;
        while p < self.passes.len()
            invariant
                p <= self.passes@.len(),
                drawn@ == calls,
                commands@ == passes_commands(p as nat, calls),
            decreases self.passes@.len() - p,
        {
            let ghost before = commands@;
            commands.push(FrameCommand::BeginPass { pass: p });
            let mut k: usize = 0;
            while k < drawn.len()
                invariant
                    k <= drawn@.len(),
                    drawn@ == calls,
                    commands@ == before + seq![FrameCommand::BeginPass { pass: p }] + Seq::new(
                        k as nat,
                        |j: int| FrameCommand::DrawLayer { layer: j as usize, call: calls[j] },
                    ),
                decreases drawn@.len() - k,
            {
                commands.push(FrameCommand::DrawLayer { layer: k, call: drawn[k] });
                proof {
                    assert(commands@ =~= before + seq![FrameCommand::BeginPass { pass: p }] + Seq::new(
                        (k + 1) as nat,
                        |j: int| FrameCommand::DrawLayer { layer: j as usize, call: calls[j] },
                    ));
                }
                k = k + 1;
            }
            commands.push(FrameCommand::EndPass { pass: p });
            proof {
                assert(commands@ =~= passes_commands((p + 1) as nat, calls));
            }
            p = p + 1;
        }
        commands.push(FrameCommand::Present);
        self.phase = FramePhase::Ready;
        commands
    }

    /// The target image could not be acquired: says what the host does.
    pub fn acquire_failed(&mut self, failure: AcquireFailure) -> (r: FrameAction)
        requires
            old(self).wf(),
            old(self).spec_phase() == FramePhase::Rendering,
        ensures
            final(self).wf(),
            r == action_after_failure(failure, old(self).spec_size()),
            final(self).spec_phase() == phase_after_failure(failure),
            final(self).spec_size() == old(self).spec_size(),
            final(self).spec_passes() == old(self).spec_passes(),
            final(self).spec_layers() == old(self).spec_layers(),
    {
        match failure {
            AcquireFailure::Lost => {
                self.phase = FramePhase::Lost;
                FrameAction::Reconfigure { width: self.size.width, height: self.size.height }
            },
            AcquireFailure::OutOfMemory => {
                self.phase = FramePhase::Fatal;
                FrameAction::Exit
            },
            _ => {
                self.phase = FramePhase::Ready;
                FrameAction::Report
            },
        }
    }

    /// The host has reconfigured the surface after a loss.
    pub fn reconfigured(&mut self)
        requires
            old(self).wf(),
        ensures
            final(self).wf(),
            final(self).spec_phase() == phase_after_reconfigure(old(self).spec_phase()),
            final(self).spec_size() == old(self).spec_size(),
            final(self).spec_passes() == old(self).spec_passes(),
            final(self).spec_layers() == old(self).spec_layers(),
    {
        if self.phase == FramePhase::Lost {
            self.phase = FramePhase::Ready;
        }
    }
}

/// A resize with a zero side leaves the viewport as it was; a resize with
/// positive sides sets it, and the aspect ratio that follows is exactly
/// width over height.
pub proof fn lemma_resize_then_aspect(size: Viewport, width: u32, height: u32)
    ensures
        (width == 0 || height == 0) ==> size_after_resize(size, width, height) == size,
        (width > 0 && height > 0) ==> ({
            let s = size_after_resize(size, width, height);
            AspectRatio { width: s.width, height: s.height } == (AspectRatio { width, height })
        }),
{
}

/// A surface lost during frame N makes the host reconfigure at the last
/// known size; once it has, frame N+1 starts as usual.
pub proof fn lemma_lost_surface_recovers(size: Viewport)
    requires
        size.is_drawable(),
    ensures
        phase_after_begin(FramePhase::Ready, size) == FramePhase::Rendering,
        action_after_failure(AcquireFailure::Lost, size) == (FrameAction::Reconfigure {
            width: size.width,
            height: size.height,
        }),
        phase_after_reconfigure(phase_after_failure(AcquireFailure::Lost)) == FramePhase::Ready,
        phase_after_begin(phase_after_reconfigure(phase_after_failure(AcquireFailure::Lost)), size)
            == FramePhase::Rendering,
{
}

} // verus!
