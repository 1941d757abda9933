use unrust::command::{MeshBuffer, Rect, RenderTexture, TextureAttachment};
use unrust::engine::Engine;
use unrust::light::{Directional, Light, Point};
use unrust::material::{Material, MaterialParam, ShaderProgram, Texture};
use unrust::math::{Isometry3f, Matrix4f, Scalar};
use unrust::scene::{
    Camera, ComponentBased, ComponentData, ComponentKind, GameObject, Mesh,
};

fn float(x: f32) -> MaterialParam {
    MaterialParam::Float(Scalar::from_bits(x.to_bits()))
}

fn material(program: u64) -> ComponentData {
    ComponentData::Material(Material::with_program(ShaderProgram { id: program }))
}

fn mesh(buffers: &[u64]) -> ComponentData {
    let mut mesh = Mesh::new();
    for b in buffers {
        mesh.add_surface(MeshBuffer { id: *b }, Material::with_program(ShaderProgram { id: 0 }));
    }
    ComponentData::Mesh(mesh)
}

#[test]
fn empty_object_is_active_and_has_no_components() {
    let object = GameObject::empty();
    assert!(object.active);
    assert!(object.components.is_empty());
    assert_eq!(object.transform, Isometry3f::identity());
    assert!(object.find_component::<Mesh>().is_none());
    assert!(object.material().is_none());
    assert!(object.mesh().is_none());
    assert_eq!(object.find(ComponentKind::Behavior), None);
}

#[test]
fn identity_pose_has_unit_rotation() {
    let pose = Isometry3f::identity();
    assert_eq!(f32::from_bits(pose.rotation.w.to_bits()), 1.0);
    assert_eq!(f32::from_bits(pose.rotation.x.to_bits()), 0.0);
    assert_eq!(f32::from_bits(pose.translation.x.to_bits()), 0.0);
    let m = Matrix4f::identity();
    assert_eq!(f32::from_bits(m.c0.x.to_bits()), 1.0);
    assert_eq!(f32::from_bits(m.c1.y.to_bits()), 1.0);
    assert_eq!(f32::from_bits(m.c2.z.to_bits()), 1.0);
    assert_eq!(f32::from_bits(m.c3.w.to_bits()), 1.0);
    assert_eq!(f32::from_bits(m.c3.x.to_bits()), 0.0);
}

#[test]
fn find_component_returns_the_first_match() {
    let mut engine = Engine::new((1, 1));
    let mut object = GameObject::empty();
    object.add_component(engine.new_component(ComponentData::Behavior(5)));
    object.add_component(engine.new_component(material(10)));
    object.add_component(engine.new_component(mesh(&[1])));
    object.add_component(engine.new_component(material(20)));

    let (found, component) = object.find_component::<Material>().unwrap();
    assert_eq!(found.program(), ShaderProgram { id: 10 });
    assert_eq!(component.id(), 2);
    let (found, component) = object.get_component_by_type::<Mesh>().unwrap();
    assert_eq!(found.surfaces.len(), 1);
    assert_eq!(component.id(), 3);
    assert_eq!(object.find(ComponentKind::Material), Some(1));
    assert_eq!(object.find(ComponentKind::Behavior), Some(0));
    assert_eq!(object.material().unwrap().program(), ShaderProgram { id: 10 });
    assert_eq!(object.mesh().unwrap().1, 3);
}

#[test]
fn find_component_signals_absence() {
    let mut engine = Engine::new((1, 1));
    let mut object = GameObject::empty();
    object.add_component(engine.new_component(material(10)));
    assert!(object.find_component::<Mesh>().is_none());
    assert!(object.find_component::<Light>().is_none());
    assert!(object.find_component::<Camera>().is_none());
    assert!(object.get_component_by_type::<Light>().is_none());
    assert_eq!(object.find(ComponentKind::Camera), None);
}

#[test]
fn find_component_finds_lights_and_cameras() {
    let mut engine = Engine::new((1, 1));
    let mut object = GameObject::empty();
    object.add_component(engine.new_component(ComponentData::Light(Light::new(Point::default()))));
    object.add_component(
        engine.new_component(ComponentData::Light(Light::new(Directional::default()))),
    );
    object.add_component(engine.new_component(ComponentData::Camera(Camera::default())));
    let (light, component) = object.find_component::<Light>().unwrap();
    assert_eq!(*light, Light::Point(Point::default()));
    assert_eq!(component.id(), 1);
    let (camera, component) = object.find_component::<Camera>().unwrap();
    assert!(camera.render_texture.is_none());
    assert_eq!(component.id(), 3);
}

#[test]
fn pick_takes_only_its_own_kind() {
    let data = material(1);
    assert!(<Material as ComponentBased>::pick(&data).is_some());
    assert!(<Mesh as ComponentBased>::pick(&data).is_none());
    assert!(<Light as ComponentBased>::pick(&data).is_none());
    assert!(<Camera as ComponentBased>::pick(&data).is_none());
    assert_eq!(<Mesh as ComponentBased>::kind_of(), ComponentKind::Mesh);
    assert_eq!(<Material as ComponentBased>::kind_of(), ComponentKind::Material);
    assert_eq!(<Light as ComponentBased>::kind_of(), ComponentKind::Light);
    assert_eq!(<Camera as ComponentBased>::kind_of(), ComponentKind::Camera);
    assert_eq!(data.kind(), ComponentKind::Material);
    assert_eq!(mesh(&[]).kind(), ComponentKind::Mesh);
    assert_eq!(ComponentData::Behavior(1).kind(), ComponentKind::Behavior);
}

#[test]
fn component_clone_keeps_the_identity_token() {
    let mut engine = Engine::new((1, 1));
    let first = engine.new_component(mesh(&[4, 5]));
    let copy = first.clone();
    assert_eq!(copy.id(), first.id());
    match (copy.data(), first.data()) {
        (ComponentData::Mesh(a), ComponentData::Mesh(b)) => {
            assert_eq!(a.surfaces.len(), 2);
            assert_eq!(a.surfaces[0].buffer, b.surfaces[0].buffer);
            assert_eq!(a.surfaces[1].buffer, MeshBuffer { id: 5 });
        }
        _ => panic!("a mesh was cloned"),
    }
}

#[test]
fn set_param_reaches_every_material_of_the_object() {
    let mut engine = Engine::new((1, 1));
    let mut object = GameObject::empty();
    object.add_component(engine.new_component(material(1)));
    object.add_component(engine.new_component(mesh(&[1, 2])));
    object.add_component(engine.new_component(ComponentData::Behavior(0)));
    object.add_component(engine.new_component(material(2)));
    object.active = false;

    object.set_param("uGloss", float(0.5));

    assert!(!object.active);
    assert_eq!(object.components.len(), 4);
    for component in object.components.iter() {
        match component.data() {
            ComponentData::Material(m) => assert_eq!(m.get("uGloss"), Some(float(0.5))),
            ComponentData::Mesh(m) => {
                assert_eq!(m.surfaces.len(), 2);
                for surface in m.surfaces.iter() {
                    assert_eq!(surface.material.get("uGloss"), Some(float(0.5)));
                }
            }
            ComponentData::Behavior(tag) => assert_eq!(*tag, 0),
            _ => panic!("no such component was added"),
        }
    }
    let ids: Vec<u64> = object.components.iter().map(|c| c.id()).collect();
    assert_eq!(ids, vec![1, 2, 3, 4]);
}

#[test]
fn mesh_set_param_replaces_in_every_surface() {
    let mut mesh = Mesh::new();
    let mut first = Material::with_program(ShaderProgram { id: 1 });
    first.set("uGloss", float(0.25));
    mesh.add_surface(MeshBuffer { id: 1 }, first);
    mesh.add_surface(MeshBuffer { id: 2 }, Material::with_program(ShaderProgram { id: 2 }));
    mesh.set_param("uGloss", float(0.75));
    assert_eq!(mesh.surfaces[0].material.get("uGloss"), Some(float(0.75)));
    assert_eq!(mesh.surfaces[0].material.len(), 1);
    assert_eq!(mesh.surfaces[1].material.get("uGloss"), Some(float(0.75)));
    assert_eq!(mesh.surfaces[1].buffer, MeshBuffer { id: 2 });
}

#[test]
fn camera_redirect_sets_and_restore_clears_both_overrides() {
    let mut camera = Camera::new();
    assert!(camera.render_texture.is_none());
    assert!(camera.rect.is_none());
    let target = RenderTexture::new(Texture { id: 1 }, 64, 32, TextureAttachment::Color);
    camera.redirect(target, Rect { x: 1, y: 2, width: 3, height: 4 });
    assert_eq!(camera.render_texture, Some(target));
    assert_eq!(camera.rect, Some(Rect { x: 1, y: 2, width: 3, height: 4 }));
    camera.restore();
    assert!(camera.render_texture.is_none());
    assert!(camera.rect.is_none());
    assert_eq!(camera.v, Matrix4f::identity());
    assert_eq!(camera.p, Matrix4f::identity());
}

#[test]
fn render_texture_covers_its_own_extent() {
    let target = RenderTexture::new(Texture { id: 6 }, 1024, 512, TextureAttachment::Depth);
    assert_eq!(target.full_rect(), Rect { x: 0, y: 0, width: 1024, height: 512 });
    assert_eq!(target.as_texture(), Texture { id: 6 });
    assert_eq!(target.attachment, TextureAttachment::Depth);
}

#[test]
fn data_mut_changes_the_content_and_keeps_the_token() {
    let mut engine = Engine::new((1, 1));
    let mut component =
        engine.new_component(ComponentData::Light(Light::new(Directional::default())));
    let id = component.id();
    if let ComponentData::Light(light) = component.data_mut() {
        light.update(unrust::math::Vector3f::zero());
    }
    assert_eq!(component.id(), id);
    match component.data() {
        ComponentData::Light(Light::Directional(l)) => {
            assert_eq!(l.world_space_direction, unrust::math::Vector3f::zero());
            assert_eq!(l.direction, Directional::default().direction);
        }
        _ => panic!("the component holds a directional light"),
    }
}
