use vstd::prelude::*;

use crate::camera::{Camera, Transform};

verus! {

/// The two renderables of the scene.
#[derive(Clone, Copy, Debug, PartialEq, Eq, Structural)]
pub enum ObjectKind {
    /// An opaque, indexed mesh.
    SolidMesh,
    /// The infinite reference grid, drawn as one alpha-blended quad.
    ReferenceGrid,
}

/// The fixed parts of a draw pipeline that decide how an object meets the
/// depth buffer and the colour already drawn.
#[derive(Clone, Copy, Debug, PartialEq, Eq, Structural)]
pub struct PipelineConfig {
    pub cull_back_faces: bool,
    pub alpha_blend: bool,
    pub depth_test: bool,
    pub depth_write: bool,
    pub indexed: bool,
}

/// Uniform scale of the solid mesh.
pub const MESH_SCALE: u32 = 1;

/// Uniform scale of the reference grid's quad.
pub const GRID_SCALE: u32 = 80;

/// What an object's uniform buffer holds: the camera transform its matrices
/// are computed from, and the object's uniform scale.
#[derive(Clone, Copy, Debug, PartialEq, Eq, Structural)]
pub struct UniformState {
    pub transform: Transform,
    pub scale: u32,
}

/// A renderable as the frame logic sees it: its kind, the number of indices
/// (indexed) or vertices (otherwise) that one draw covers, and the uniform
/// state last written to its buffer.
#[derive(Clone, Copy, Debug, PartialEq, Eq, Structural)]
pub struct SceneObject {
    pub kind: ObjectKind,
    pub element_count: u32,
    pub uniform: UniformState,
}

/// One operation recorded into a render pass for an object.
#[derive(Clone, Copy, Debug, PartialEq, Eq, Structural)]
pub enum PassOp {
    PushDebugGroup,
    SetPipeline,
    SetBindGroup,
    SetIndexBuffer,
    SetVertexBuffer,
    /// Draws this many indices, one instance.
    DrawIndexed(u32),
    /// Draws this many vertices, one instance.
    Draw(u32),
    PopDebugGroup,
}

/// A render-pass command and the object whose resources it binds or draws.
#[derive(Clone, Copy, Debug, PartialEq, Eq, Structural)]
pub struct PassCommand {
    pub object: ObjectKind,
    pub op: PassOp,
}

/// The solid mesh culls back faces and writes depth; the grid is seen from
/// both sides, blends over what is drawn, and tests depth without writing it.
pub open spec fn pipeline_of(kind: ObjectKind) -> PipelineConfig {
    match kind {
        ObjectKind::SolidMesh => PipelineConfig {
            cull_back_faces: true,
            alpha_blend: false,
            depth_test: true,
            depth_write: true,
            indexed: true,
        },
        ObjectKind::ReferenceGrid => PipelineConfig {
            cull_back_faces: false,
            alpha_blend: true,
            depth_test: true,
            depth_write: false,
            indexed: false,
        },
    }
}

/// The pipeline configuration of a kind of object.
pub fn pipeline(kind: ObjectKind) -> (r: PipelineConfig)
    ensures
        r == pipeline_of(kind),
{
    match kind {
        ObjectKind::SolidMesh => PipelineConfig {
            cull_back_faces: true,
            alpha_blend: false,
            depth_test: true,
            depth_write: true,
            indexed: true,
        },
        ObjectKind::ReferenceGrid => PipelineConfig {
            cull_back_faces: false,
            alpha_blend: true,
            depth_test: true,
            depth_write: false,
            indexed: false,
        },
    }
}

/// The uniform state an object needs for a camera: the solid mesh takes the
/// camera's combined view-projection, the grid the camera's separate
/// projection and view, which its shader turns into world-space rays.
pub open spec fn uniform_for(kind: ObjectKind, camera: Camera) -> UniformState {
    match kind {
        ObjectKind::SolidMesh => UniformState { transform: camera.view, scale: MESH_SCALE },
        ObjectKind::ReferenceGrid => UniformState {
            transform: camera.current(),
            scale: GRID_SCALE,
        },
    }
}

/// Computes `uniform_for`.
pub fn uniform_input(kind: ObjectKind, camera: &Camera) -> (r: UniformState)
    ensures
        r == uniform_for(kind, *camera),
{
    match kind {
        ObjectKind::SolidMesh => UniformState { transform: camera.view, scale: MESH_SCALE },
        ObjectKind::ReferenceGrid => camera.grid_input(GRID_SCALE),
    }
}

/// The commands that draw one object: bind its pipeline, its bind group and
/// its buffers, then one draw over the whole geometry, inside a debug group.
pub open spec fn draw_commands(o: SceneObject) -> Seq<PassCommand> {
    let k = o.kind;
    if pipeline_of(k).indexed {
        seq![
            PassCommand { object: k, op: PassOp::PushDebugGroup },
            PassCommand { object: k, op: PassOp::SetPipeline },
            PassCommand { object: k, op: PassOp::SetBindGroup },
            PassCommand { object: k, op: PassOp::SetIndexBuffer },
            PassCommand { object: k, op: PassOp::SetVertexBuffer },
            PassCommand { object: k, op: PassOp::DrawIndexed(o.element_count) },
            PassCommand { object: k, op: PassOp::PopDebugGroup },
        ]
    } else {
        seq![
            PassCommand { object: k, op: PassOp::PushDebugGroup },
            PassCommand { object: k, op: PassOp::SetPipeline },
            PassCommand { object: k, op: PassOp::SetBindGroup },
            PassCommand { object: k, op: PassOp::SetVertexBuffer },
            PassCommand { object: k, op: PassOp::Draw(o.element_count) },
            PassCommand { object: k, op: PassOp::PopDebugGroup },
        ]
    }
}

impl SceneObject {
    /// An object of the given kind whose buffer starts out holding `initial`.
    pub fn new(kind: ObjectKind, element_count: u32, initial: UniformState) -> (o: SceneObject)
        ensures
            o == (SceneObject { kind, element_count, uniform: initial }),
    {
        SceneObject { kind, element_count, uniform: initial }
    }

    /// Overwrites the uniform state in place; the geometry is untouched.
    pub fn update_uniforms(&mut self, state: UniformState)
        ensures
            *final(self) == (SceneObject { uniform: state, ..*old(self) }),
    {
        self.uniform = state;
    }

    /// Appends this object's draw commands to an open pass.
    pub fn draw(&self, pass: &mut Vec<PassCommand>)
        ensures
            final(pass)@ == old(pass)@ + draw_commands(*self),
    {
        let k = self.kind;
        let p = pipeline(k);
        pass.push(PassCommand { object: k, op: PassOp::PushDebugGroup });
        pass.push(PassCommand { object: k, op: PassOp::SetPipeline });
        pass.push(PassCommand { object: k, op: PassOp::SetBindGroup });
        if p.indexed {
            pass.push(PassCommand { object: k, op: PassOp::SetIndexBuffer });
            pass.push(PassCommand { object: k, op: PassOp::SetVertexBuffer });
            pass.push(PassCommand { object: k, op: PassOp::DrawIndexed(self.element_count) });
        } else {
            pass.push(PassCommand { object: k, op: PassOp::SetVertexBuffer });
            pass.push(PassCommand { object: k, op: PassOp::Draw(self.element_count) });
        }
        pass.push(PassCommand { object: k, op: PassOp::PopDebugGroup });
        assert(pass@ =~= old(pass)@ + draw_commands(*self));
    }
}

} // verus!
