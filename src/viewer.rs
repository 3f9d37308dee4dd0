use vstd::prelude::*;

use crate::camera::{maybe_move_camera, moved, origin, Camera, EventResult, Extent, Offset, Transform};
use crate::frame::{draw_order, mesh_before_grid, pass_of, plan_of, redraw_plan, FrameStep};
use crate::input::{requested_step, KeyInput, Step};
use crate::scene::{uniform_for, uniform_input, ObjectKind, SceneObject, UniformState};

verus! {

/// A window event, as far as the viewer tells them apart.
#[derive(Clone, Copy, Debug, PartialEq, Eq, Structural)]
pub enum WindowInput {
    CloseRequested,
    Resized(Extent),
    ScaleFactorChanged,
    RedrawRequested,
    Keyboard(KeyInput),
    Other,
}

/// What the interface compositor made of an event it saw first.
#[derive(Clone, Copy, Debug, PartialEq, Eq, Structural)]
pub struct UiResponse {
    /// The interface used the event; nothing else sees it.
    pub consumed: bool,
    /// The interface wants to be drawn again.
    pub repaint: bool,
}

/// A change the interface asks for while it is drawn, applied after its pass.
#[derive(Clone, Copy, Debug, PartialEq, Eq, Structural)]
pub enum UiRequest {
    ResetCamera,
}

/// Work the caller performs, in order, for an event.
#[derive(Clone, Copy, Debug, PartialEq, Eq, Structural)]
pub enum Action {
    /// Leave the event loop.
    Exit,
    /// Reconfigure the presentation surface to this size.
    ConfigureSurface(Extent),
    /// Release the depth target and allocate one of this size.
    RebuildDepth(Extent),
    /// Overwrite an object's uniform buffer with the bytes of this state.
    WriteUniform(ObjectKind, UniformState),
    /// Ask the platform for a redraw.
    RequestRedraw,
    /// Note that the scale factor changed; nothing else follows from it.
    ReportScaleFactorChange,
    /// Acquire a presentation target and perform the redraw plan.
    Redraw,
}

/// The state the viewer keeps between events: the presentation surface's
/// size, the depth target's size, the camera, and the scene objects in the
/// order they are drawn.
pub struct Viewer {
    pub surface: Extent,
    pub depth: Extent,
    pub camera: Camera,
    pub objects: Vec<SceneObject>,
}

/// The value of a `Viewer`.
pub struct ViewerState {
    pub surface: Extent,
    pub depth: Extent,
    pub camera: Camera,
    pub objects: Seq<SceneObject>,
}

impl View for Viewer {
    type V = ViewerState;

    open spec fn view(&self) -> ViewerState {
        ViewerState {
            surface: self.surface,
            depth: self.depth,
            camera: self.camera,
            objects: self.objects@,
        }
    }
}

impl ViewerState {
    /// The depth target matches the surface, and the solid mesh is listed
    /// before the grid.
    pub open spec fn well_laid_out(self) -> bool {
        &&& self.depth == self.surface
        &&& self.objects.len() == 2
        &&& self.objects[0].kind == ObjectKind::SolidMesh
        &&& self.objects[1].kind == ObjectKind::ReferenceGrid
    }

    /// Well laid out, the camera's aspect ratio is the surface's, its
    /// view-projection is current, and every object's uniform state is the one
    /// the camera gives it.
    pub open spec fn consistent(self) -> bool {
        &&& self.well_laid_out()
        &&& self.camera.aspect == self.surface
        &&& self.camera.is_current()
        &&& fresh(self.objects, self.camera)
    }
}

/// Every object holds the uniform state the camera gives it.
pub open spec fn fresh(objects: Seq<SceneObject>, camera: Camera) -> bool {
    forall|i: int| 0 <= i < objects.len() ==> objects[i].uniform == uniform_for(objects[i].kind, camera)
}

/// The objects with the uniform states the camera gives them.
pub open spec fn refreshed(objects: Seq<SceneObject>, camera: Camera) -> Seq<SceneObject> {
    objects.map_values(|o: SceneObject| SceneObject { uniform: uniform_for(o.kind, camera), ..o })
}

/// One uniform write per object, in list order.
pub open spec fn writes(objects: Seq<SceneObject>) -> Seq<Action> {
    objects.map_values(|o: SceneObject| Action::WriteUniform(o.kind, o.uniform))
}

/// A camera with these settings and its view-projection current.
pub open spec fn camera_at(aspect: Extent, offset: Offset) -> Camera {
    Camera { aspect, offset, view: Transform { aspect, offset } }
}

/// The state after the camera is replaced and every object refreshed.
pub open spec fn with_camera(s: ViewerState, camera: Camera) -> ViewerState {
    ViewerState { camera, objects: refreshed(s.objects, camera), ..s }
}

/// The state after a resize: surface and depth target take the new size,
/// the camera its aspect ratio, and every object is refreshed.
pub open spec fn after_resize(s: ViewerState, e: Extent) -> ViewerState {
    ViewerState {
        surface: e,
        depth: e,
        ..with_camera(s, camera_at(e, s.camera.offset))
    }
}

/// The state after the camera took a step.
pub open spec fn after_step(s: ViewerState, st: Step) -> ViewerState {
    with_camera(s, camera_at(s.camera.aspect, moved(s.camera.offset, st)))
}

/// The state after the interface reset the camera: the default pose, with
/// the surface's aspect ratio.
pub open spec fn after_reset(s: ViewerState) -> ViewerState {
    with_camera(s, camera_at(s.surface, origin()))
}

/// The state after an event. A resize is always carried out, whether or
/// not the interface consumed it; any other event the interface consumed
/// changes nothing.
pub open spec fn next_state(s: ViewerState, ui: UiResponse, input: WindowInput) -> ViewerState {
    match input {
        WindowInput::Resized(e) => after_resize(s, e),
        WindowInput::Keyboard(k) => if ui.consumed {
            s
        } else {
            match requested_step(k) {
                Some(st) => after_step(s, st),
                None => s,
            }
        },
        _ => s,
    }
}

/// The actions for an event: a redraw request if the interface did not
/// consume the event and asked to be repainted, then what the event itself
/// calls for. A resize always calls for its whole sequence; any other event
/// the interface consumed calls for nothing.
pub open spec fn event_actions(s: ViewerState, ui: UiResponse, input: WindowInput) -> Seq<Action> {
    let repaint = if !ui.consumed && ui.repaint {
        seq![Action::RequestRedraw]
    } else {
        Seq::empty()
    };
    repaint + match input {
        WindowInput::Resized(e) => seq![Action::ConfigureSurface(e), Action::RebuildDepth(e)]
            + writes(after_resize(s, e).objects) + seq![Action::RequestRedraw],
        _ => if ui.consumed {
            Seq::empty()
        } else {
            match input {
                WindowInput::CloseRequested => seq![Action::Exit],
                WindowInput::ScaleFactorChanged => seq![Action::ReportScaleFactorChange],
                WindowInput::RedrawRequested => seq![Action::Redraw],
                WindowInput::Keyboard(k) => match requested_step(k) {
                    Some(st) => writes(after_step(s, st).objects) + seq![Action::RequestRedraw],
                    None => Seq::empty(),
                },
                _ => Seq::empty(),
            }
        },
    }
}

impl Viewer {
    /// The viewer at startup, for a surface of the given size: the camera at
    /// its default pose with the surface's aspect ratio, a depth target of the
    /// surface's size, and the solid mesh and the grid, each holding the
    /// uniform state the camera gives it.
    pub fn new(surface: Extent, mesh_indices: u32, grid_vertices: u32) -> (v: Viewer)
        ensures
            v@.consistent(),
            v@.surface == surface,
            v.camera == camera_at(surface, origin()),
            v@.objects[0].element_count == mesh_indices,
            v@.objects[1].element_count == grid_vertices,
    {
        let camera = Camera::new(surface);
        let mesh = SceneObject::new(
            ObjectKind::SolidMesh,
            mesh_indices,
            uniform_input(ObjectKind::SolidMesh, &camera),
        );
        let grid = SceneObject::new(
            ObjectKind::ReferenceGrid,
            grid_vertices,
            uniform_input(ObjectKind::ReferenceGrid, &camera),
        );
        let objects = vec![mesh, grid];
        Viewer { surface, depth: surface, camera, objects }
    }

    /// Writes to every object the uniform state the camera gives it, and
    /// appends one write action per object, in list order.
    fn refresh_uniforms(&mut self, actions: &mut Vec<Action>)
        ensures
            final(self)@ == with_camera(old(self)@, old(self).camera),
            final(actions)@ == old(actions)@ + writes(final(self)@.objects),
    {
        let n = self.objects.len();
        let mut i: usize = 0;
        while i < n
            invariant
                n == self.objects@.len(),
                i <= n,
                self.surface == old(self).surface,
                self.depth == old(self).depth,
                self.camera == old(self).camera,
                self.objects@.len() == old(self).objects@.len(),
                forall|j: int| 0 <= j < i ==> self.objects@[j] == refreshed(old(self).objects@, old(self).camera)[j],
                forall|j: int| i <= j < n ==> self.objects@[j] == old(self).objects@[j],
                actions@ == old(actions)@ + writes(self.objects@.take(i as int)),
            decreases n - i,
        {
            let mut o = self.objects[i];
            let state = uniform_input(o.kind, &self.camera);
            o.update_uniforms(state);
            self.objects.set(i, o);
            actions.push(Action::WriteUniform(o.kind, o.uniform));
            i = i + 1;
            proof {
                assert(actions@ =~= old(actions)@ + writes(self.objects@.take(i as int)));
            }
        }
        proof {
            assert(self.objects@ =~= refreshed(old(self).objects@, old(self).camera));
            assert(self.objects@.take(n as int) =~= self.objects@);
        }
    }

    /// Handles one window event after the interface has seen it, and returns
    /// the work it calls for. A resize, consumed by the interface or not,
    /// reconfigures the surface, rebuilds the depth target, recomputes the
    /// projection and refreshes every object before any redraw can run; any
    /// other event the interface consumed is dropped. A directional key press
    /// moves the camera and refreshes every object; a scale-factor change is
    /// only reported.
    pub fn process_event(&mut self, ui: UiResponse, input: WindowInput) -> (r: Vec<Action>)
        requires
            old(self)@.consistent(),
        ensures
            final(self)@ == next_state(old(self)@, ui, input),
            final(self)@.consistent(),
            r@ == event_actions(old(self)@, ui, input),
    {
        let mut actions: Vec<Action> = Vec::new();
        if !ui.consumed && ui.repaint {
            actions.push(Action::RequestRedraw);
        }
        match input {
            WindowInput::Resized(e) => {
                actions.push(Action::ConfigureSurface(e));
                self.surface = e;
                actions.push(Action::RebuildDepth(e));
                self.depth = e;
                self.camera.update_projection(e);
                self.refresh_uniforms(&mut actions);
                actions.push(Action::RequestRedraw);
            },
            _ if ui.consumed => {},
            WindowInput::CloseRequested => actions.push(Action::Exit),
            WindowInput::ScaleFactorChanged => actions.push(Action::ReportScaleFactorChange),
            WindowInput::RedrawRequested => actions.push(Action::Redraw),
            WindowInput::Keyboard(k) => {
                let result = maybe_move_camera(&mut self.camera, k);
                match result {
                    EventResult::Ignored => {},
                    EventResult::Redraw => {
                        self.camera.update_view();
                        self.refresh_uniforms(&mut actions);
                        actions.push(Action::RequestRedraw);
                    },
                }
            },
            WindowInput::Other => {},
        }
        proof {
            lemma_refreshed_consistent(
                ViewerState { surface: self.surface, depth: self.depth, ..old(self)@ },
                self@.camera,
            );
            assert(actions@ =~= event_actions(old(self)@, ui, input));
            assert(self@ =~= next_state(old(self)@, ui, input));
        }
        actions
    }

    /// Applies what the interface asked for during its pass.
    pub fn apply_ui_request(&mut self, request: UiRequest) -> (r: Vec<Action>)
        requires
            old(self)@.consistent(),
        ensures
            final(self)@ == after_reset(old(self)@),
            final(self)@.consistent(),
            r@ == writes(final(self)@.objects),
    {
        let mut actions: Vec<Action> = Vec::new();
        match request {
            UiRequest::ResetCamera => {
                self.camera = Camera::new(self.surface);
                self.refresh_uniforms(&mut actions);
            },
        }
        proof {
            lemma_refreshed_consistent(old(self)@, self@.camera);
            assert(actions@ =~= writes(self@.objects));
        }
        actions
    }

    /// The steps of one redraw, given whether a presentation target was
    /// acquired.
    pub fn redraw(&self, acquired: bool) -> (r: Vec<FrameStep>)
        requires
            self@.consistent(),
        ensures
            r@ == plan_of(self@.objects, acquired),
    {
        redraw_plan(&self.objects, acquired)
    }
}

proof fn lemma_refreshed_consistent(s: ViewerState, camera: Camera)
    requires
        s.well_laid_out(),
        camera.aspect == s.surface,
        camera.is_current(),
    ensures
        with_camera(s, camera).consistent(),
{
    let t = with_camera(s, camera);
    assert(fresh(t.objects, camera));
}

/// The state after a sequence of resizes, in order.
pub open spec fn after_resizes(s: ViewerState, sizes: Seq<Extent>) -> ViewerState
    decreases sizes.len(),
{
    if sizes.len() == 0 {
        s
    } else {
        after_resize(after_resizes(s, sizes.drop_last()), sizes.last())
    }
}

/// After any sequence of resizes the state is consistent, the depth target
/// and the surface both have the last size, and the camera's aspect ratio is
/// that size's width over its height.
pub proof fn resize_consistency(s: ViewerState, sizes: Seq<Extent>)
    requires
        s.consistent(),
        sizes.len() > 0,
    ensures
        after_resizes(s, sizes).consistent(),
        after_resizes(s, sizes).depth == sizes.last(),
        after_resizes(s, sizes).surface == sizes.last(),
        after_resizes(s, sizes).camera.aspect == sizes.last(),
    decreases sizes.len(),
{
    let init = sizes.drop_last();
    let before = after_resizes(s, init);
    if init.len() > 0 {
        resize_consistency(s, init);
    }
    let e = sizes.last();
    lemma_refreshed_consistent(
        ViewerState { surface: e, depth: e, ..before },
        camera_at(e, before.camera.offset),
    );
}

/// After any event handled in a consistent state, every object holds the
/// uniform state computed from the camera as it now stands; every uniform
/// write the event calls for carries exactly that state; and when the camera
/// changed, every object is written.
pub proof fn uniform_freshness(s: ViewerState, ui: UiResponse, input: WindowInput)
    requires
        s.consistent(),
    ensures
        next_state(s, ui, input).consistent(),
        forall|i: int|
            0 <= i < event_actions(s, ui, input).len() ==> (#[trigger] event_actions(s, ui, input)[i] matches Action::WriteUniform(k, u)
                ==> u == uniform_for(k, next_state(s, ui, input).camera)),
        next_state(s, ui, input).camera != s.camera ==> forall|j: int|
            0 <= j < s.objects.len() ==> event_actions(s, ui, input).contains(
                Action::WriteUniform(
                    next_state(s, ui, input).objects[j].kind,
                    next_state(s, ui, input).objects[j].uniform,
                ),
            ),
{
    let t = next_state(s, ui, input);
    let acts = event_actions(s, ui, input);
    let repaint = if !ui.consumed && ui.repaint {
        seq![Action::RequestRedraw]
    } else {
        Seq::<Action>::empty()
    };
    match input {
        WindowInput::Resized(e) => {
            lemma_refreshed_consistent(
                ViewerState { surface: e, depth: e, ..s },
                camera_at(e, s.camera.offset),
            );
            let pre = repaint + seq![Action::ConfigureSurface(e), Action::RebuildDepth(e)];
            let w = writes(t.objects);
            assert(acts =~= pre + w + seq![Action::RequestRedraw]);
            assert forall|j: int| 0 <= j < s.objects.len() implies acts.contains(
                Action::WriteUniform(t.objects[j].kind, t.objects[j].uniform),
            ) by {
                assert(acts[pre.len() + j] == w[j]);
            }
        },
        WindowInput::Keyboard(k) => {
            if !ui.consumed {
                if let Some(st) = requested_step(k) {
                    lemma_refreshed_consistent(s, t.camera);
                    let w = writes(t.objects);
                    assert(acts =~= repaint + w + seq![Action::RequestRedraw]);
                    assert forall|j: int| 0 <= j < s.objects.len() implies acts.contains(
                        Action::WriteUniform(t.objects[j].kind, t.objects[j].uniform),
                    ) by {
                        assert(acts[repaint.len() + j] == w[j]);
                    }
                }
            }
        },
        _ => {},
    }
}

/// In a consistent state, the scene pass of a redraw records every command
/// of the solid mesh before any command of the grid.
pub proof fn scene_draw_order(s: ViewerState)
    requires
        s.consistent(),
    ensures
        mesh_before_grid(pass_of(s.objects)),
{
    draw_order(s.objects);
}

} // verus!
