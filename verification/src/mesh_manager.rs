//! The mesh components that objects of the simulated scene share.

use vstd::prelude::*;
use crate::engine::{Engine, Handle};
use crate::math::Isometry3f;
use crate::scene::{Component, ComponentView, GameObjectView};

verus! {

/// The collision shape of a simulated body, as far as drawing cares.
#[derive(Clone, Copy, PartialEq, Eq, Structural, Debug)]
pub enum ShapeKind {
    Cuboid,
    Plane,
    /// Any shape that has no mesh.
    Other,
}

/// Keeps one mesh component for boxes and one for planes. Every object of
/// one shape gets a copy of the same component, with the same identity
/// token, so that the mesh is bound once for a run of such objects.
#[derive(Debug)]
pub struct MeshManager {
    pub cube: Component,
    pub plane: Component,
}

impl MeshManager {
    /// A manager that hands out `cube` for boxes and `plane` for planes.
    pub fn new(cube: Component, plane: Component) -> (r: MeshManager)
        ensures
            r.cube == cube,
            r.plane == plane,
    {
        MeshManager { cube, plane }
    }

    /// The component that `get` hands out for `shape`, if it has a mesh.
    pub open spec fn spec_get(self, shape: ShapeKind) -> Option<ComponentView> {
        match shape {
            ShapeKind::Cuboid => Some(self.cube@),
            ShapeKind::Plane => Some(self.plane@),
            ShapeKind::Other => None,
        }
    }

    /// A copy of the mesh component for `shape`, if the shape has a mesh.
    pub fn get(&self, shape: ShapeKind) -> (r: Option<Component>)
        ensures
            r is Some <==> self.spec_get(shape) is Some,
            r is Some ==> r.unwrap()@ == self.spec_get(shape).unwrap(),
    {
        match shape {
            ShapeKind::Cuboid => Some(self.cube.clone()),
            ShapeKind::Plane => Some(self.plane.clone()),
            ShapeKind::Other => None,
        }
    }
}

/// Registers a new object at `transform` that carries the mesh for `shape`
/// and then `material`.
pub fn add_object(
    mesh_mgr: &MeshManager,
    engine: &mut Engine,
    transform: &Isometry3f,
    shape: ShapeKind,
    material: Component,
) -> (h: Handle)
    requires
        shape != ShapeKind::Other,
    ensures
        h.index == old(engine).objects@.len(),
        final(engine).object_views() == old(engine).object_views().push(
            GameObjectView {
                transform: *transform,
                components: seq![mesh_mgr.spec_get(shape).unwrap(), material@],
                active: true,
            },
        ),
        final(engine).main_camera == old(engine).main_camera,
        final(engine).size == old(engine).size,
        final(engine).ids == old(engine).ids,
{
    let h = engine.new_gameobject(transform);
    let mesh = mesh_mgr.get(shape).unwrap();
    let ghost mesh_view = mesh@;
    engine.attach(h, mesh);
    engine.attach(h, material);
    assert(engine.object_views() =~= old(engine).object_views().push(
        GameObjectView {
            transform: *transform,
            components: seq![mesh_view, material@],
            active: true,
        },
    )) by {
        let last = engine.object_views()[h.index as int];
        assert(last.components =~= seq![mesh_view, material@]);
    }
    h
}

} // verus!
