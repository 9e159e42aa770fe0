//! The meshes and materials of a loaded model, and the draw calls that render
//! it instanced.
use vstd::prelude::*;

verus! {

/// A mesh as the draw logic sees it: its index count and the material it is
/// drawn with. Its vertex and index buffers live on the graphics device.
#[derive(Clone, Debug)]
pub struct Mesh {
    pub name: String,
    /// Number of indices in the mesh's index buffer.
    pub num_elements: u32,
    /// Index of the mesh's material in the model.
    pub material: usize,
}

/// A material as the draw logic sees it. Its texture and bind group live on the
/// graphics device.
#[derive(Clone, Debug)]
pub struct Material {
    pub name: String,
}

/// A loaded model: its meshes and the materials they refer to.
pub struct Model {
    pub meshes: Vec<Mesh>,
    pub materials: Vec<Material>,
}

/// One instanced draw: bind the mesh's vertex and index buffers and its
/// material, then draw indices `0..index_count` for the instances
/// `instances.0..instances.1`.
#[derive(Clone, Copy, Debug, PartialEq, Eq)]
pub struct DrawCall {
    pub mesh: usize,
    pub material: usize,
    pub index_count: u32,
    pub instances: (u32, u32),
}

impl Model {
    /// Every mesh refers to a material of the model.
    pub open spec fn wf(&self) -> bool {
        forall|i: int| 0 <= i < self.meshes@.len() ==> #[trigger] self.meshes@[i].material < self.materials@.len()
    }

    /// The draw call for mesh `mesh` over the instances `instances`.
    pub open spec fn draw_call(&self, mesh: int, instances: (u32, u32)) -> DrawCall {
        DrawCall {
            mesh: mesh as usize,
            material: self.meshes@[mesh].material,
            index_count: self.meshes@[mesh].num_elements,
            instances,
        }
    }
}

/// The draw call for one mesh of `model` over the instances `instances`.
pub fn draw_mesh_instanced(model: &Model, mesh: usize, instances: (u32, u32)) -> (r: DrawCall)
    requires
        model.wf(),
        mesh < model.meshes@.len(),
    ensures
        r == model.draw_call(mesh as int, instances),
        r.material < model.materials@.len(),
{
    let m = &model.meshes[mesh];
    DrawCall { mesh, material: m.material, index_count: m.num_elements, instances }
}

/// The draw call for one mesh of `model`, drawn once.
pub fn draw_mesh(model: &Model, mesh: usize) -> (r: DrawCall)
    requires
        model.wf(),
        mesh < model.meshes@.len(),
    ensures
        r == model.draw_call(mesh as int, (0u32, 1u32)),
{
    draw_mesh_instanced(model, mesh, (0, 1))
}

/// The draw calls that render every mesh of `model` with its material over the
/// instances `instances`, one per mesh, in the order of the meshes.
pub fn draw_model_instanced(model: &Model, instances: (u32, u32)) -> (r: Vec<DrawCall>)
    requires
        model.wf(),
    ensures
        r@.len() == model.meshes@.len(),
        forall|i: int| 0 <= i < r@.len() ==> #[trigger] r@[i] == model.draw_call(i, instances),
{
    let mut calls: Vec<DrawCall> = Vec::new();
    let mut i: usize = 0;
    while i < model.meshes.len()
        invariant
            model.wf(),
            i <= model.meshes@.len(),
            calls@.len() == i,
            forall|j: int| 0 <= j < i ==> #[trigger] calls@[j] == model.draw_call(j, instances),
        decreases model.meshes@.len() - i,
    {
        calls.push(draw_mesh_instanced(model, i, instances));
        i += 1;
    }
    calls
}

/// The draw calls that render every mesh of `model` once.
pub fn draw_model(model: &Model) -> (r: Vec<DrawCall>)
    requires
        model.wf(),
    ensures
        r@.len() == model.meshes@.len(),
        forall|i: int| 0 <= i < r@.len() ==> #[trigger] r@[i] == model.draw_call(i, (0u32, 1u32)),
{
    draw_model_instanced(model, (0, 1))
}

} // verus!
