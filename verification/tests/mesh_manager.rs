use unrust::command::MeshBuffer;
use unrust::engine::{Engine, Handle};
use unrust::material::{Material, ShaderProgram};
use unrust::math::{Isometry3f, Scalar};
use unrust::mesh_manager::{add_object, MeshManager, ShapeKind};
use unrust::scene::{Camera, Component, ComponentData, Mesh};

fn mesh(engine: &mut Engine, buffer: u64) -> Component {
    let mut mesh = Mesh::new();
    mesh.add_surface(MeshBuffer { id: buffer }, Material::with_program(ShaderProgram { id: 0 }));
    engine.new_component(ComponentData::Mesh(mesh))
}

fn default_material(engine: &mut Engine) -> Component {
    engine.new_component(ComponentData::Material(Material::with_program(ShaderProgram { id: 1 })))
}

#[test]
fn mesh_manager_hands_out_the_mesh_of_the_shape() {
    let mut engine = Engine::new((800, 600));
    let cube = mesh(&mut engine, 1);
    let plane = mesh(&mut engine, 2);
    let (cube_id, plane_id) = (cube.id(), plane.id());
    let manager = MeshManager::new(cube, plane);
    assert_eq!(manager.get(ShapeKind::Cuboid).unwrap().id(), cube_id);
    assert_eq!(manager.get(ShapeKind::Plane).unwrap().id(), plane_id);
    assert!(manager.get(ShapeKind::Other).is_none());
    assert_eq!(manager.get(ShapeKind::Cuboid).unwrap().id(), cube_id);
}

#[test]
fn add_object_registers_mesh_then_material() {
    let mut engine = Engine::new((800, 600));
    let manager = MeshManager::new(mesh(&mut engine, 1), mesh(&mut engine, 2));
    let mut pose = Isometry3f::identity();
    pose.translation.y = Scalar::from_bits(3.0f32.to_bits());
    let material = default_material(&mut engine);
    let material_id = material.id();
    let h = add_object(&manager, &mut engine, &pose, ShapeKind::Plane, material);
    assert_eq!(h, Handle { index: 0 });
    let object = engine.object(h).unwrap();
    assert_eq!(object.transform, pose);
    assert!(object.active);
    assert_eq!(object.components.len(), 2);
    assert_eq!(object.components[0].id(), manager.plane.id());
    assert!(matches!(object.components[0].data(), ComponentData::Mesh(_)));
    assert_eq!(object.components[1].id(), material_id);
    assert!(matches!(object.components[1].data(), ComponentData::Material(_)));
}

#[test]
fn boxes_added_in_a_row_share_one_mesh_bind() {
    let mut engine = Engine::new((800, 600));
    engine.main_camera = Some(Camera::new());
    let manager = MeshManager::new(mesh(&mut engine, 1), mesh(&mut engine, 2));
    let material = default_material(&mut engine);
    add_object(&manager, &mut engine, &Isometry3f::identity(), ShapeKind::Plane, material.clone());
    for _ in 0..5 {
        add_object(
            &manager,
            &mut engine,
            &Isometry3f::identity(),
            ShapeKind::Cuboid,
            material.clone(),
        );
    }
    let frame = engine.render();
    assert_eq!(frame.switch_prog, 1);
    assert_eq!(frame.switch_mesh, 2);
}
