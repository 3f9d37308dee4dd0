use chess::camera::{Camera, Extent};
use chess::frame::{record_scene, redraw_plan, FrameStep};
use chess::scene::{
    pipeline, uniform_input, ObjectKind, PassCommand, PassOp, SceneObject, UniformState,
    GRID_SCALE, MESH_SCALE,
};

fn objects() -> Vec<SceneObject> {
    let camera = Camera::new(Extent { width: 800, height: 600 });
    vec![
        SceneObject::new(ObjectKind::SolidMesh, 36, uniform_input(ObjectKind::SolidMesh, &camera)),
        SceneObject::new(
            ObjectKind::ReferenceGrid,
            6,
            uniform_input(ObjectKind::ReferenceGrid, &camera),
        ),
    ]
}

fn cmd(object: ObjectKind, op: PassOp) -> PassCommand {
    PassCommand { object, op }
}

#[test]
fn pipelines_differ_in_depth_and_blending() {
    let mesh = pipeline(ObjectKind::SolidMesh);
    assert!(mesh.cull_back_faces && !mesh.alpha_blend && mesh.depth_test && mesh.depth_write);
    assert!(mesh.indexed);
    let grid = pipeline(ObjectKind::ReferenceGrid);
    assert!(!grid.cull_back_faces && grid.alpha_blend && grid.depth_test && !grid.depth_write);
    assert!(!grid.indexed);
}

#[test]
fn uniform_inputs_per_kind() {
    let camera = Camera::new(Extent { width: 3, height: 2 });
    let m = uniform_input(ObjectKind::SolidMesh, &camera);
    assert_eq!(m, UniformState { transform: camera.view, scale: MESH_SCALE });
    assert_eq!(MESH_SCALE, 1);
    let g = uniform_input(ObjectKind::ReferenceGrid, &camera);
    assert_eq!(g.scale, GRID_SCALE);
    assert_eq!(GRID_SCALE, 80);
}

#[test]
fn update_uniforms_overwrites_state_only() {
    let mut o = objects()[0];
    let camera = Camera::new(Extent { width: 1, height: 7 });
    let state = uniform_input(ObjectKind::SolidMesh, &camera);
    o.update_uniforms(state);
    assert_eq!(o.uniform, state);
    assert_eq!(o.kind, ObjectKind::SolidMesh);
    assert_eq!(o.element_count, 36);
}

#[test]
fn mesh_draw_is_indexed() {
    let mut pass = Vec::new();
    objects()[0].draw(&mut pass);
    let k = ObjectKind::SolidMesh;
    assert_eq!(
        pass,
        vec![
            cmd(k, PassOp::PushDebugGroup),
            cmd(k, PassOp::SetPipeline),
            cmd(k, PassOp::SetBindGroup),
            cmd(k, PassOp::SetIndexBuffer),
            cmd(k, PassOp::SetVertexBuffer),
            cmd(k, PassOp::DrawIndexed(36)),
            cmd(k, PassOp::PopDebugGroup),
        ]
    );
}

#[test]
fn grid_draw_is_not_indexed() {
    let mut pass = vec![cmd(ObjectKind::SolidMesh, PassOp::SetPipeline)];
    objects()[1].draw(&mut pass);
    let k = ObjectKind::ReferenceGrid;
    assert_eq!(
        pass,
        vec![
            cmd(ObjectKind::SolidMesh, PassOp::SetPipeline),
            cmd(k, PassOp::PushDebugGroup),
            cmd(k, PassOp::SetPipeline),
            cmd(k, PassOp::SetBindGroup),
            cmd(k, PassOp::SetVertexBuffer),
            cmd(k, PassOp::Draw(6)),
            cmd(k, PassOp::PopDebugGroup),
        ]
    );
}

#[test]
fn scene_pass_draws_mesh_before_grid() {
    let mut pass = Vec::new();
    record_scene(&objects(), &mut pass);
    assert_eq!(pass.len(), 13);
    let last_mesh = pass.iter().rposition(|c| c.object == ObjectKind::SolidMesh).unwrap();
    let first_grid = pass.iter().position(|c| c.object == ObjectKind::ReferenceGrid).unwrap();
    assert!(last_mesh < first_grid);
}

#[test]
fn acquired_frame_is_submitted_then_presented_once() {
    let plan = redraw_plan(&objects(), true);
    assert_eq!(plan.len(), 18);
    assert_eq!(plan[0], FrameStep::BeginScenePass);
    assert_eq!(plan[1], FrameStep::Scene(cmd(ObjectKind::SolidMesh, PassOp::PushDebugGroup)));
    assert_eq!(plan[13], FrameStep::Scene(cmd(ObjectKind::ReferenceGrid, PassOp::PopDebugGroup)));
    assert_eq!(
        plan[14..].to_vec(),
        vec![FrameStep::EndScenePass, FrameStep::Overlay, FrameStep::Submit, FrameStep::Present]
    );
    assert_eq!(plan.iter().filter(|s| **s == FrameStep::Present).count(), 1);
    assert_eq!(plan.iter().filter(|s| **s == FrameStep::Submit).count(), 1);
}

#[test]
fn failed_acquisition_does_nothing() {
    let plan = redraw_plan(&objects(), false);
    assert!(plan.is_empty());
}

#[test]
fn empty_scene_still_runs_the_frame() {
    let plan = redraw_plan(&Vec::new(), true);
    assert_eq!(
        plan,
        vec![
            FrameStep::BeginScenePass,
            FrameStep::EndScenePass,
            FrameStep::Overlay,
            FrameStep::Submit,
            FrameStep::Present
        ]
    );
}
