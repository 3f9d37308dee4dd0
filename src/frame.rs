use vstd::prelude::*;

use crate::scene::{draw_commands, ObjectKind, PassCommand, SceneObject};

verus! {

/// The phases one redraw goes through.
#[derive(Clone, Copy, Debug, PartialEq, Eq, Structural)]
pub enum FramePhase {
    Idle,
    Acquiring,
    RecordingScene,
    RecordingOverlay,
    Submitted,
    Presented,
}

/// One step of a frame, in the order the caller performs them.
#[derive(Clone, Copy, Debug, PartialEq, Eq, Structural)]
pub enum FrameStep {
    /// Opens one render pass on the acquired target and the depth target,
    /// clearing colour to the background and depth to the far value.
    BeginScenePass,
    /// Records one command into the open scene pass.
    Scene(PassCommand),
    /// Closes the scene pass.
    EndScenePass,
    /// Runs the interface compositor on the same colour target, loading what
    /// is there and without depth.
    Overlay,
    /// Finishes the command recorder and submits it to the queue.
    Submit,
    /// Hands the acquired target back to the surface.
    Present,
}

/// The commands of one scene pass: each object's draw commands, in the
/// order of the list.
pub open spec fn pass_of(objects: Seq<SceneObject>) -> Seq<PassCommand>
    decreases objects.len(),
{
    if objects.len() == 0 {
        Seq::empty()
    } else {
        pass_of(objects.drop_last()) + draw_commands(objects.last())
    }
}

/// The scene pass as frame steps.
pub open spec fn scene_steps(objects: Seq<SceneObject>) -> Seq<FrameStep> {
    pass_of(objects).map_values(|c: PassCommand| FrameStep::Scene(c))
}

/// The steps of a redraw once the presentation target was or was not
/// acquired: nothing at all after a failure; else the scene pass, the
/// overlay, one submission and one presentation.
pub open spec fn plan_of(objects: Seq<SceneObject>, acquired: bool) -> Seq<FrameStep> {
    if acquired {
        seq![FrameStep::BeginScenePass] + scene_steps(objects) + seq![
            FrameStep::EndScenePass,
            FrameStep::Overlay,
            FrameStep::Submit,
            FrameStep::Present,
        ]
    } else {
        Seq::empty()
    }
}

/// The phase a step belongs to.
pub open spec fn phase_of(step: FrameStep) -> FramePhase {
    match step {
        FrameStep::BeginScenePass => FramePhase::RecordingScene,
        FrameStep::Scene(_) => FramePhase::RecordingScene,
        FrameStep::EndScenePass => FramePhase::RecordingScene,
        FrameStep::Overlay => FramePhase::RecordingOverlay,
        FrameStep::Submit => FramePhase::Submitted,
        FrameStep::Present => FramePhase::Presented,
    }
}

/// Appends the draw commands of every object, in list order.
pub fn record_scene(objects: &Vec<SceneObject>, pass: &mut Vec<PassCommand>)
    ensures
        final(pass)@ == old(pass)@ + pass_of(objects@),
{
    let n = objects.len();
    let mut i: usize = 0;
    while i < n
        invariant
            n == objects@.len(),
            i <= n,
            pass@ == old(pass)@ + pass_of(objects@.take(i as int)),
        decreases n - i,
    {
        proof {
            assert(objects@.take(i as int + 1).drop_last() =~= objects@.take(i as int));
        }
        objects[i].draw(pass);
        i = i + 1;
        proof {
            assert(pass@ =~= old(pass)@ + pass_of(objects@.take(i as int)));
        }
    }
    assert(objects@.take(n as int) =~= objects@);
}

/// The steps to perform for one redraw, given whether the presentation
/// target was acquired.
pub fn redraw_plan(objects: &Vec<SceneObject>, acquired: bool) -> (r: Vec<FrameStep>)
    ensures
        r@ == plan_of(objects@, acquired),
{
    let mut steps: Vec<FrameStep> = Vec::new();
    if !acquired {
        return steps;
    }
    steps.push(FrameStep::BeginScenePass);
    let mut pass: Vec<PassCommand> = Vec::new();
    record_scene(objects, &mut pass);
    assert(pass@ =~= pass_of(objects@));
    let n = pass.len();
    let mut i: usize = 0;
    while i < n
        invariant
            n == pass@.len(),
            i <= n,
            steps@ == seq![FrameStep::BeginScenePass] + pass@.take(i as int).map_values(
                |c: PassCommand| FrameStep::Scene(c),
            ),
        decreases n - i,
    {
        steps.push(FrameStep::Scene(pass[i]));
        i = i + 1;
        proof {
            assert(steps@ =~= seq![FrameStep::BeginScenePass] + pass@.take(i as int).map_values(
                |c: PassCommand| FrameStep::Scene(c),
            ));
        }
    }
    assert(pass@.take(n as int) =~= pass@);
    steps.push(FrameStep::EndScenePass);
    steps.push(FrameStep::Overlay);
    steps.push(FrameStep::Submit);
    steps.push(FrameStep::Present);
    assert(steps@ =~= plan_of(objects@, acquired));
    steps
}

/// How many times a step occurs.
pub open spec fn occurrences(steps: Seq<FrameStep>, s: FrameStep) -> nat
    decreases steps.len(),
{
    if steps.len() == 0 {
        0
    } else {
        occurrences(steps.drop_last(), s) + if steps.last() == s {
            1nat
        } else {
            0nat
        }
    }
}

/// Position of a phase in the order a redraw passes through them.
pub open spec fn rank(p: FramePhase) -> int {
    match p {
        FramePhase::Idle => 0,
        FramePhase::Acquiring => 1,
        FramePhase::RecordingScene => 2,
        FramePhase::RecordingOverlay => 3,
        FramePhase::Submitted => 4,
        FramePhase::Presented => 5,
    }
}

/// Every solid mesh of the list comes before every grid.
pub open spec fn opaque_first(objects: Seq<SceneObject>) -> bool {
    forall|a: int, b: int|
        0 <= a < objects.len() && 0 <= b < objects.len() && objects[a].kind
            == ObjectKind::ReferenceGrid && objects[b].kind == ObjectKind::SolidMesh ==> b < a
}

/// In a pass, every command of the solid mesh comes before every command of
/// the grid.
pub open spec fn mesh_before_grid(pass: Seq<PassCommand>) -> bool {
    forall|i: int, j: int|
        0 <= i < pass.len() && 0 <= j < pass.len() && pass[i].object == ObjectKind::SolidMesh
            && pass[j].object == ObjectKind::ReferenceGrid ==> i < j
}

proof fn lemma_occurrences_concat(a: Seq<FrameStep>, b: Seq<FrameStep>, s: FrameStep)
    ensures
        occurrences(a + b, s) == occurrences(a, s) + occurrences(b, s),
    decreases b.len(),
{
    if b.len() == 0 {
        assert(a + b =~= a);
    } else {
        assert((a + b).drop_last() =~= a + b.drop_last());
        lemma_occurrences_concat(a, b.drop_last(), s);
    }
}

proof fn lemma_no_occurrence(steps: Seq<FrameStep>, s: FrameStep)
    requires
        forall|i: int| 0 <= i < steps.len() ==> steps[i] != s,
    ensures
        occurrences(steps, s) == 0,
    decreases steps.len(),
{
    if steps.len() > 0 {
        lemma_no_occurrence(steps.drop_last(), s);
    }
}

proof fn lemma_pass_objects(objects: Seq<SceneObject>, k: ObjectKind)
    requires
        forall|a: int| 0 <= a < objects.len() ==> objects[a].kind != k,
    ensures
        forall|i: int| 0 <= i < pass_of(objects).len() ==> pass_of(objects)[i].object != k,
    decreases objects.len(),
{
    if objects.len() > 0 {
        lemma_pass_objects(objects.drop_last(), k);
    }
}

/// Drawing a list in which every solid mesh precedes every grid records all
/// of the mesh's commands before any of the grid's.
pub proof fn draw_order(objects: Seq<SceneObject>)
    requires
        opaque_first(objects),
    ensures
        mesh_before_grid(pass_of(objects)),
    decreases objects.len(),
{
    if objects.len() > 0 {
        let init = objects.drop_last();
        let last = objects.last();
        assert(opaque_first(init));
        draw_order(init);
        let p = pass_of(init);
        let d = draw_commands(last);
        assert(pass_of(objects) == p + d);
        if last.kind == ObjectKind::SolidMesh {
            assert forall|a: int| 0 <= a < init.len() implies init[a].kind
                != ObjectKind::ReferenceGrid by {
                assert(objects[a] == init[a]);
                assert(objects[objects.len() - 1] == last);
            }
            lemma_pass_objects(init, ObjectKind::ReferenceGrid);
        }
        assert forall|i: int, j: int|
            0 <= i < (p + d).len() && 0 <= j < (p + d).len() && (p + d)[i].object
                == ObjectKind::SolidMesh && (p + d)[j].object
                == ObjectKind::ReferenceGrid implies i < j by {
            if i >= p.len() {
                assert((p + d)[i] == d[i - p.len()]);
            }
            if j >= p.len() {
                assert((p + d)[j] == d[j - p.len()]);
            }
            if i < p.len() {
                assert((p + d)[i] == p[i]);
            }
            if j < p.len() {
                assert((p + d)[j] == p[j]);
            }
        }
    }
}

/// A redraw whose target was acquired is submitted exactly once and then
/// presented exactly once, its steps never go back to an earlier phase, and
/// it ends presented; a redraw whose acquisition failed is neither submitted
/// nor presented.
pub proof fn frame_protocol(objects: Seq<SceneObject>, acquired: bool)
    ensures
        acquired ==> {
            let p = plan_of(objects, true);
            &&& occurrences(p, FrameStep::Submit) == 1
            &&& occurrences(p, FrameStep::Present) == 1
            &&& p[p.len() - 2] == FrameStep::Submit
            &&& p.last() == FrameStep::Present
            &&& forall|i: int, j: int|
                0 <= i <= j < p.len() ==> rank(phase_of(p[i])) <= rank(phase_of(p[j]))
        },
        !acquired ==> occurrences(plan_of(objects, false), FrameStep::Submit) == 0
            && occurrences(plan_of(objects, false), FrameStep::Present) == 0,
{
    let head = seq![FrameStep::BeginScenePass];
    let mid = scene_steps(objects);
    let tail = seq![FrameStep::EndScenePass, FrameStep::Overlay, FrameStep::Submit, FrameStep::Present];
    let p = plan_of(objects, true);
    assert(p == head + mid + tail);
    assert forall|i: int| 0 <= i < mid.len() implies mid[i] is Scene by {}
    lemma_no_occurrence(head, FrameStep::Submit);
    lemma_no_occurrence(head, FrameStep::Present);
    lemma_no_occurrence(mid, FrameStep::Submit);
    lemma_no_occurrence(mid, FrameStep::Present);
    lemma_occurrences_concat(head, mid, FrameStep::Submit);
    lemma_occurrences_concat(head, mid, FrameStep::Present);
    lemma_occurrences_concat(head + mid, tail, FrameStep::Submit);
    lemma_occurrences_concat(head + mid, tail, FrameStep::Present);
    reveal_with_fuel(occurrences, 5);
    assert(occurrences(tail, FrameStep::Submit) == 1);
    assert(occurrences(tail, FrameStep::Present) == 1);
    assert forall|i: int, j: int|
        0 <= i <= j < p.len() implies rank(phase_of(p[i])) <= rank(phase_of(p[j])) by {
        let n = 1 + mid.len();
        if i < n {
            if i == 0 {
                assert(p[i] == FrameStep::BeginScenePass);
            } else {
                assert(p[i] == mid[i - 1]);
            }
        } else {
            assert(p[i] == tail[i - n]);
        }
        if j < n {
            if j == 0 {
                assert(p[j] == FrameStep::BeginScenePass);
            } else {
                assert(p[j] == mid[j - 1]);
            }
        } else {
            assert(p[j] == tail[j - n]);
        }
    }
}

} // verus!
