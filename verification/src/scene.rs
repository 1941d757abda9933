//! The scene graph: game objects and the components attached to them.

use vstd::prelude::*;
use crate::command::{MeshBuffer, Rect, RenderTexture};
use crate::light::Light;
use crate::material::{Material, MaterialParam, MaterialView};
use crate::math::{Isometry3f, Matrix4f};

verus! {

/// A geometry buffer and the material it is drawn with.
#[derive(Debug)]
pub struct Surface {
    pub buffer: MeshBuffer,
    pub material: Material,
}

/// What a surface is.
pub struct SurfaceView {
    pub buffer: MeshBuffer,
    pub material: MaterialView,
}

impl SurfaceView {
    /// The surface with `value` stored under `name` in its material.
    pub open spec fn with_param(self, name: Seq<char>, value: MaterialParam) -> SurfaceView {
        SurfaceView { buffer: self.buffer, material: self.material.set(name, value) }
    }
}

impl View for Surface {
    type V = SurfaceView;

    open spec fn view(&self) -> SurfaceView {
        SurfaceView { buffer: self.buffer, material: self.material@ }
    }
}

impl Clone for Surface {
    fn clone(&self) -> (r: Surface)
        ensures
            r@ == self@,
    {
        Surface { buffer: self.buffer, material: self.material.clone() }
    }
}

/// The drawable unit of a game object: surfaces in drawing order.
#[derive(Debug)]
pub struct Mesh {
    pub surfaces: Vec<Surface>,
}

/// What a mesh is.
pub struct MeshView {
    pub surfaces: Seq<SurfaceView>,
}

impl MeshView {
    /// The mesh with `value` stored under `name` in the material of every surface.
    pub open spec fn with_param(self, name: Seq<char>, value: MaterialParam) -> MeshView {
        MeshView {
            surfaces: Seq::new(
                self.surfaces.len(),
                |i: int| self.surfaces[i].with_param(name, value),
            ),
        }
    }
}

impl View for Mesh {
    type V = MeshView;

    open spec fn view(&self) -> MeshView {
        MeshView { surfaces: Seq::new(self.surfaces@.len(), |i: int| self.surfaces@[i]@) }
    }
}

impl Mesh {
    /// A mesh without surfaces.
    pub fn new() -> (r: Mesh)
        ensures
            r@.surfaces == Seq::<SurfaceView>::empty(),
    {
        Mesh { surfaces: Vec::new() }
    }

    /// Appends the surface that draws `buffer` with `material`.
    pub fn add_surface(&mut self, buffer: MeshBuffer, material: Material)
        ensures
            final(self)@.surfaces == old(self)@.surfaces.push(
                SurfaceView { buffer, material: material@ },
            ),
    {
        self.surfaces.push(Surface { buffer, material });
    }

    /// Stores `value` under `name` in the material of every surface.
    pub fn set_param(&mut self, name: &str, value: MaterialParam)
        ensures
            final(self)@ == old(self)@.with_param(name@, value),
    {
        let mut i: usize = 0;
        while i < self.surfaces.len()
            invariant
                i <= self.surfaces.len(),
                self.surfaces.len() == old(self).surfaces.len(),
                forall|k: int|
                    0 <= k < i ==> (#[trigger] self.surfaces[k])@ == old(self).surfaces[k]@.with_param(
                        name@,
                        value,
                    ),
                forall|k: int|
                    i <= k < self.surfaces.len() ==> #[trigger] self.surfaces[k] == old(
                        self,
                    ).surfaces[k],
            decreases self.surfaces.len() - i,
        {
            let surface = &mut self.surfaces[i];
            surface.material.set(name, value);
            i += 1;
        }
        assert(self@.surfaces =~= old(self)@.with_param(name@, value).surfaces);
    }
}

impl Clone for Mesh {
    fn clone(&self) -> (r: Mesh)
        ensures
            r@ == self@,
    {
        let mut surfaces: Vec<Surface> = Vec::new();
        let mut i: usize = 0;
        while i < self.surfaces.len()
            invariant
                i <= self.surfaces.len(),
                surfaces.len() == i,
                forall|k: int| 0 <= k < i ==> (#[trigger] surfaces[k])@ == self.surfaces[k]@,
            decreases self.surfaces.len() - i,
        {
            surfaces.push(self.surfaces[i].clone());
            i += 1;
        }
        let r = Mesh { surfaces };
        assert(r@.surfaces =~= self@.surfaces);
        r
    }
}

/// View and projection of the scene, and where a pass that uses this camera
/// draws: into `render_texture` instead of the default framebuffer where it
/// is set, and through the viewport `rect` where that is set.
#[derive(Clone, Copy, Debug)]
pub struct Camera {
    pub v: Matrix4f,
    pub p: Matrix4f,
    pub render_texture: Option<RenderTexture>,
    pub rect: Option<Rect>,
}

impl Camera {
    pub open spec fn spec_new() -> Camera {
        Camera {
            v: Matrix4f::spec_identity(),
            p: Matrix4f::spec_identity(),
            render_texture: None,
            rect: None,
        }
    }

    /// A camera with identity view and projection that draws to the default
    /// framebuffer.
    pub fn new() -> (r: Camera)
        ensures
            r == Camera::spec_new(),
    {
        Camera { v: Matrix4f::identity(), p: Matrix4f::identity(), render_texture: None, rect: None }
    }

    /// Redirects the passes of this camera into `target`, through `rect`.
    pub fn redirect(&mut self, target: RenderTexture, rect: Rect)
        ensures
            *final(self) == (Camera {
                render_texture: Some(target),
                rect: Some(rect),
                ..*old(self)
            }),
    {
        self.render_texture = Some(target);
        self.rect = Some(rect);
    }

    /// Directs the passes of this camera back to the default framebuffer.
    pub fn restore(&mut self)
        ensures
            *final(self) == (Camera { render_texture: None, rect: None, ..*old(self) }),
    {
        self.render_texture = None;
        self.rect = None;
    }
}

impl Default for Camera {
    fn default() -> (r: Camera)
        ensures
            r == Camera::spec_new(),
    {
        Camera::new()
    }
}

/// The capabilities that a component can give to its object.
#[derive(Clone, Copy, PartialEq, Eq, Structural, Debug)]
pub enum ComponentKind {
    Mesh,
    Material,
    Light,
    Camera,
    Behavior,
}

/// What a component holds.
#[derive(Debug)]
pub enum ComponentData {
    Mesh(Mesh),
    Material(Material),
    Light(Light),
    Camera(Camera),
    /// A behaviour that the driver runs, known by its tag.
    Behavior(u64),
}

/// What a component's content is.
pub enum ComponentDataView {
    Mesh(MeshView),
    Material(MaterialView),
    Light(Light),
    Camera(Camera),
    Behavior(u64),
}

impl ComponentDataView {
    pub open spec fn kind(self) -> ComponentKind {
        match self {
            ComponentDataView::Mesh(_) => ComponentKind::Mesh,
            ComponentDataView::Material(_) => ComponentKind::Material,
            ComponentDataView::Light(_) => ComponentKind::Light,
            ComponentDataView::Camera(_) => ComponentKind::Camera,
            ComponentDataView::Behavior(_) => ComponentKind::Behavior,
        }
    }

    /// The content with `value` stored under `name` in every material in it.
    pub open spec fn with_param(self, name: Seq<char>, value: MaterialParam) -> ComponentDataView {
        match self {
            ComponentDataView::Mesh(m) => ComponentDataView::Mesh(m.with_param(name, value)),
            ComponentDataView::Material(m) => ComponentDataView::Material(m.set(name, value)),
            other => other,
        }
    }
}

impl View for ComponentData {
    type V = ComponentDataView;

    open spec fn view(&self) -> ComponentDataView {
        match self {
            ComponentData::Mesh(m) => ComponentDataView::Mesh(m@),
            ComponentData::Material(m) => ComponentDataView::Material(m@),
            ComponentData::Light(l) => ComponentDataView::Light(*l),
            ComponentData::Camera(c) => ComponentDataView::Camera(*c),
            ComponentData::Behavior(tag) => ComponentDataView::Behavior(*tag),
        }
    }
}

impl ComponentData {
    /// The capability that this content gives.
    pub fn kind(&self) -> (r: ComponentKind)
        ensures
            r == self@.kind(),
    {
        match self {
            ComponentData::Mesh(_) => ComponentKind::Mesh,
            ComponentData::Material(_) => ComponentKind::Material,
            ComponentData::Light(_) => ComponentKind::Light,
            ComponentData::Camera(_) => ComponentKind::Camera,
            ComponentData::Behavior(_) => ComponentKind::Behavior,
        }
    }

    /// Stores `value` under `name` in every material in this content.
    pub fn set_param(&mut self, name: &str, value: MaterialParam)
        ensures
            final(self)@ == old(self)@.with_param(name@, value),
    {
        match self {
            ComponentData::Mesh(m) => m.set_param(name, value),
            ComponentData::Material(m) => m.set(name, value),
            _ => {},
        }
    }
}

impl Clone for ComponentData {
    fn clone(&self) -> (r: ComponentData)
        ensures
            r@ == self@,
    {
        match self {
            ComponentData::Mesh(m) => ComponentData::Mesh(m.clone()),
            ComponentData::Material(m) => ComponentData::Material(m.clone()),
            ComponentData::Light(l) => ComponentData::Light(*l),
            ComponentData::Camera(c) => ComponentData::Camera(*c),
            ComponentData::Behavior(tag) => ComponentData::Behavior(*tag),
        }
    }
}

/// A type that a component can hold and that an object can be asked for.
pub trait ComponentBased: Sized {
    /// The capability under which components hold a value of this type.
    spec fn kind() -> ComponentKind;

    /// The content that holds `self`.
    spec fn wrap(self) -> ComponentData;

    /// The capability under which components hold a value of this type.
    fn kind_of() -> (r: ComponentKind)
        ensures
            r == Self::kind(),
    ;

    /// The value of this type that `data` holds, if it holds one.
    fn pick(data: &ComponentData) -> (r: Option<&Self>)
        ensures
            r is Some <==> data@.kind() == Self::kind(),
            r is Some ==> r.unwrap().wrap() == *data,
    ;
}

impl ComponentBased for Mesh {
    open spec fn kind() -> ComponentKind {
        ComponentKind::Mesh
    }

    open spec fn wrap(self) -> ComponentData {
        ComponentData::Mesh(self)
    }

    fn kind_of() -> (r: ComponentKind) {
        ComponentKind::Mesh
    }

    fn pick(data: &ComponentData) -> (r: Option<&Mesh>) {
        match data {
            ComponentData::Mesh(m) => Some(m),
            _ => None,
        }
    }
}

impl ComponentBased for Material {
    open spec fn kind() -> ComponentKind {
        ComponentKind::Material
    }

    open spec fn wrap(self) -> ComponentData {
        ComponentData::Material(self)
    }

    fn kind_of() -> (r: ComponentKind) {
        ComponentKind::Material
    }

    fn pick(data: &ComponentData) -> (r: Option<&Material>) {
        match data {
            ComponentData::Material(m) => Some(m),
            _ => None,
        }
    }
}

impl ComponentBased for Light {
    open spec fn kind() -> ComponentKind {
        ComponentKind::Light
    }

    open spec fn wrap(self) -> ComponentData {
        ComponentData::Light(self)
    }

    fn kind_of() -> (r: ComponentKind) {
        ComponentKind::Light
    }

    fn pick(data: &ComponentData) -> (r: Option<&Light>) {
        match data {
            ComponentData::Light(l) => Some(l),
            _ => None,
        }
    }
}

impl ComponentBased for Camera {
    open spec fn kind() -> ComponentKind {
        ComponentKind::Camera
    }

    open spec fn wrap(self) -> ComponentData {
        ComponentData::Camera(self)
    }

    fn kind_of() -> (r: ComponentKind) {
        ComponentKind::Camera
    }

    fn pick(data: &ComponentData) -> (r: Option<&Camera>) {
        match data {
            ComponentData::Camera(c) => Some(c),
            _ => None,
        }
    }
}

/// A unit of data or behaviour attached to a game object. Its identity token
/// tells whether two objects carry the same component.
#[derive(Debug)]
pub struct Component {
    id: u64,
    data: ComponentData,
}

/// What a component is.
pub struct ComponentView {
    pub id: u64,
    pub data: ComponentDataView,
}

impl ComponentView {
    /// The component with `value` stored under `name` in every material in it.
    pub open spec fn with_param(self, name: Seq<char>, value: MaterialParam) -> ComponentView {
        ComponentView { id: self.id, data: self.data.with_param(name, value) }
    }
}

impl View for Component {
    type V = ComponentView;

    closed spec fn view(&self) -> ComponentView {
        ComponentView { id: self.id, data: self.data@ }
    }
}

impl Component {
    /// The content of this component.
    pub closed spec fn spec_data(self) -> ComponentData {
        self.data
    }

    /// The view of a component is made of its token and of the view of its
    /// content.
    pub broadcast proof fn lemma_view(self)
        ensures
            #[trigger] self@ == (ComponentView { id: self@.id, data: self.spec_data()@ }),
    {
    }

    pub(crate) fn new(id: u64, data: ComponentData) -> (r: Component)
        ensures
            r@.id == id,
            r.spec_data() == data,
    {
        Component { id, data }
    }

    /// The identity token.
    pub fn id(&self) -> (r: u64)
        ensures
            r == self@.id,
    {
        self.id
    }

    /// The content.
    pub fn data(&self) -> (r: &ComponentData)
        ensures
            *r == self.spec_data(),
    {
        &self.data
    }

    /// The content, for changing it in place. The identity token stays.
    pub fn data_mut(&mut self) -> (r: &mut ComponentData)
        ensures
            *r == old(self).spec_data(),
            final(self).spec_data() == *final(r),
            final(self)@.id == old(self)@.id,
    {
        &mut self.data
    }

    /// Stores `value` under `name` in every material in this component.
    pub fn set_param(&mut self, name: &str, value: MaterialParam)
        ensures
            final(self)@ == old(self)@.with_param(name@, value),
    {
        self.data.set_param(name, value);
    }
}

impl Clone for Component {
    /// A copy that carries the same identity token.
    fn clone(&self) -> (r: Component)
        ensures
            r@ == self@,
    {
        Component { id: self.id, data: self.data.clone() }
    }
}

/// What a game object is.
pub struct GameObjectView {
    pub transform: Isometry3f,
    pub components: Seq<ComponentView>,
    pub active: bool,
}

impl GameObjectView {
    /// The component at `i` is the first one of `kind`.
    pub open spec fn is_first(self, kind: ComponentKind, i: int) -> bool {
        &&& 0 <= i < self.components.len()
        &&& self.components[i].data.kind() == kind
        &&& forall|j: int| 0 <= j < i ==> (#[trigger] self.components[j]).data.kind() != kind
    }

    /// Some component is of `kind`.
    pub open spec fn has(self, kind: ComponentKind) -> bool {
        exists|i: int| self.is_first(kind, i)
    }

    /// The place of the first component of `kind`, where the object has one.
    pub open spec fn first(self, kind: ComponentKind) -> int {
        choose|i: int| self.is_first(kind, i)
    }

    /// The object's material: that of its first material component.
    pub open spec fn material(self) -> MaterialView
        recommends
            self.has(ComponentKind::Material),
    {
        self.components[self.first(ComponentKind::Material)].data->Material_0
    }

    /// The object's mesh: that of its first mesh component.
    pub open spec fn mesh(self) -> MeshView
        recommends
            self.has(ComponentKind::Mesh),
    {
        self.components[self.first(ComponentKind::Mesh)].data->Mesh_0
    }

    /// The identity token of the object's first mesh component.
    pub open spec fn mesh_id(self) -> u64
        recommends
            self.has(ComponentKind::Mesh),
    {
        self.components[self.first(ComponentKind::Mesh)].id
    }

    /// The object can be drawn: it has a material and a mesh.
    pub open spec fn drawable(self) -> bool {
        self.has(ComponentKind::Material) && self.has(ComponentKind::Mesh)
    }

    /// The object with `value` stored under `name` in every material of
    /// every component.
    pub open spec fn with_param(self, name: Seq<char>, value: MaterialParam) -> GameObjectView {
        GameObjectView {
            transform: self.transform,
            components: Seq::new(
                self.components.len(),
                |i: int| self.components[i].with_param(name, value),
            ),
            active: self.active,
        }
    }

    /// The object with its `active` flag set to `active`.
    pub open spec fn with_active(self, active: bool) -> GameObjectView {
        GameObjectView { transform: self.transform, components: self.components, active }
    }

    /// Two places that both hold the first component of a kind are one place.
    pub proof fn lemma_first_is_unique(self, kind: ComponentKind, i: int, j: int)
        requires
            self.is_first(kind, i),
            self.is_first(kind, j),
        ensures
            i == j,
    {
    }

    /// Storing a parameter changes the kind of no component.
    pub proof fn lemma_with_param_keeps_kinds(
        self,
        name: Seq<char>,
        value: MaterialParam,
        kind: ComponentKind,
    )
        ensures
            self.with_param(name, value).has(kind) == self.has(kind),
            self.has(kind) ==> self.with_param(name, value).first(kind) == self.first(kind),
    {
        let after = self.with_param(name, value);
        assert forall|i: int| after.is_first(kind, i) == self.is_first(kind, i) by {
            if after.is_first(kind, i) {
                assert forall|j: int| 0 <= j < i implies (#[trigger] self.components[j]).data.kind()
                    != kind by {
                    assert(after.components[j].data.kind() != kind);
                }
            }
        }
        if self.has(kind) {
            let i = self.first(kind);
            after.lemma_first_is_unique(kind, i, after.first(kind));
        }
    }
}

/// A positioned entity that owns components.
#[derive(Debug)]
pub struct GameObject {
    pub transform: Isometry3f,
    pub components: Vec<Component>,
    /// Whether the object takes part; read by the passes that care.
    pub active: bool,
}

impl View for GameObject {
    type V = GameObjectView;

    open spec fn view(&self) -> GameObjectView {
        GameObjectView {
            transform: self.transform,
            components: Seq::new(self.components@.len(), |i: int| self.components@[i]@),
            active: self.active,
        }
    }
}

impl GameObject {
    /// An active object at `transform` without components.
    pub fn new(transform: Isometry3f) -> (r: GameObject)
        ensures
            r@ == (GameObjectView {
                transform,
                components: Seq::<ComponentView>::empty(),
                active: true,
            }),
    {
        let r = GameObject { transform, components: Vec::new(), active: true };
        assert(r@.components =~= Seq::<ComponentView>::empty());
        r
    }

    /// An active object at the identity pose without components.
    pub fn empty() -> (r: GameObject)
        ensures
            r@ == (GameObjectView {
                transform: Isometry3f::spec_identity(),
                components: Seq::<ComponentView>::empty(),
                active: true,
            }),
    {
        GameObject::new(Isometry3f::identity())
    }

    /// Appends `c` to the components.
    pub fn add_component(&mut self, c: Component)
        ensures
            final(self)@ == (GameObjectView {
                components: old(self)@.components.push(c@),
                ..old(self)@
            }),
    {
        self.components.push(c);
        assert(self@.components =~= old(self)@.components.push(c@));
    }

    /// The place of the first component of `kind`, if there is one.
    pub fn find(&self, kind: ComponentKind) -> (r: Option<usize>)
        ensures
            r is Some <==> self@.has(kind),
            r is Some ==> r.unwrap() == self@.first(kind),
    {
        let mut i: usize = 0;
        while i < self.components.len()
            invariant
                i <= self.components.len(),
                forall|j: int| 0 <= j < i ==> (#[trigger] self@.components[j]).data.kind() != kind,
            decreases self.components.len() - i,
        {
            if self.components[i].data().kind() == kind {
                proof {
                    broadcast use Component::lemma_view;

                    assert(self@.is_first(kind, i as int));
                    self@.lemma_first_is_unique(kind, i as int, self@.first(kind));
                }
                return Some(i);
            }
            i += 1;
        }
        None
    }

    /// The first component that holds a `K`, with the value it holds.
    pub fn find_component<K: ComponentBased>(&self) -> (r: Option<(&K, &Component)>)
        ensures
            r is Some <==> self@.has(K::kind()),
            r is Some ==> {
                let (held, component) = r.unwrap();
                &&& *component == self.components[self@.first(K::kind())]
                &&& held.wrap() == component.spec_data()
            },
    {
        match self.find(K::kind_of()) {
            Some(i) => {
                let component = &self.components[i];
                proof {
                    broadcast use Component::lemma_view;

                }
                match K::pick(component.data()) {
                    Some(held) => Some((held, component)),
                    None => None,
                }
            },
            None => None,
        }
    }

    /// The first component that holds a `K`, with the value it holds.
    pub fn get_component_by_type<K: ComponentBased>(&self) -> (r: Option<(&K, &Component)>)
        ensures
            r is Some <==> self@.has(K::kind()),
            r is Some ==> {
                let (held, component) = r.unwrap();
                &&& *component == self.components[self@.first(K::kind())]
                &&& held.wrap() == component.spec_data()
            },
    {
        self.find_component::<K>()
    }

    /// The object's material, if it has one.
    pub fn material(&self) -> (r: Option<&Material>)
        ensures
            r is Some <==> self@.has(ComponentKind::Material),
            r is Some ==> r.unwrap()@ == self@.material(),
    {
        match self.find_component::<Material>() {
            Some((material, component)) => {
                proof {
                    broadcast use Component::lemma_view;

                }
                Some(material)
            },
            None => None,
        }
    }

    /// The object's mesh with the identity token of the component that
    /// holds it, if the object has one.
    pub fn mesh(&self) -> (r: Option<(&Mesh, u64)>)
        ensures
            r is Some <==> self@.has(ComponentKind::Mesh),
            r is Some ==> r.unwrap().0@ == self@.mesh() && r.unwrap().1 == self@.mesh_id(),
    {
        match self.find_component::<Mesh>() {
            Some((mesh, component)) => {
                proof {
                    broadcast use Component::lemma_view;

                }
                Some((mesh, component.id()))
            },
            None => None,
        }
    }

    /// Stores `value` under `name` in every material of every component.
    pub fn set_param(&mut self, name: &str, value: MaterialParam)
        ensures
            final(self)@ == old(self)@.with_param(name@, value),
    {
        let mut i: usize = 0;
        while i < self.components.len()
            invariant
                i <= self.components.len(),
                self.components.len() == old(self).components.len(),
                self.transform == old(self).transform,
                self.active == old(self).active,
                forall|k: int|
                    0 <= k < i ==> (#[trigger] self.components[k])@ == old(
                        self,
                    ).components[k]@.with_param(name@, value),
                forall|k: int|
                    i <= k < self.components.len() ==> #[trigger] self.components[k] == old(
                        self,
                    ).components[k],
            decreases self.components.len() - i,
        {
            let component = &mut self.components[i];
            component.set_param(name, value);
            i += 1;
        }
        assert(self@.components =~= old(self)@.with_param(name@, value).components);
    }
}

} // verus!
