//! Shadow mapping in two passes: the scene is first drawn from the light
//! into a depth target, then drawn normally with that target as a texture.

use vstd::prelude::*;
use crate::command::{command_views, RenderTexture, TextureAttachment};
use crate::engine::{all_drawable, frame_commands, mesh_ids, programs, runs, Engine, Frame, Handle};
use crate::light::Light;
use crate::material::{MaterialParam, Texture};
use crate::math::{Matrix4f, Scalar, Vector3f};
use crate::scene::{Camera, ComponentKind, GameObjectView};

verus! {

/// Width and height of the shadow map in pixels.
pub const SHADOW_MAP_SIZE: u32 = 1024;

/// Bit pattern of `-20.0`.
pub const MINUS_TWENTY_BITS: u32 = 0xC1A0_0000;

/// Bit pattern of `20.0`.
pub const TWENTY_BITS: u32 = 0x41A0_0000;

/// Bit pattern of `40.0`.
pub const FORTY_BITS: u32 = 0x4220_0000;

/// The box that an orthographic projection maps to clip space.
#[derive(Clone, Copy, PartialEq, Eq, Structural, Debug)]
pub struct OrthoBounds {
    pub left: Scalar,
    pub right: Scalar,
    pub bottom: Scalar,
    pub top: Scalar,
    pub near: Scalar,
    pub far: Scalar,
}

/// The objects with `value` stored under `name` in every material of the
/// object at `index`.
pub open spec fn with_param_at(
    objects: Seq<GameObjectView>,
    index: int,
    name: Seq<char>,
    value: MaterialParam,
) -> Seq<GameObjectView> {
    objects.update(index, objects[index].with_param(name, value))
}

/// The objects with the `active` flag of the object at `index` set to `active`.
pub open spec fn with_active_at(objects: Seq<GameObjectView>, index: int, active: bool) -> Seq<
    GameObjectView,
> {
    objects.update(index, objects[index].with_active(active))
}

/// Storing a parameter in one object leaves every object drawable.
pub proof fn lemma_with_param_at_keeps_drawable(
    objects: Seq<GameObjectView>,
    index: int,
    name: Seq<char>,
    value: MaterialParam,
)
    requires
        all_drawable(objects),
        0 <= index < objects.len(),
    ensures
        all_drawable(with_param_at(objects, index, name, value)),
{
    let after = with_param_at(objects, index, name, value);
    assert forall|i: int| 0 <= i < after.len() implies (#[trigger] after[i]).drawable() by {
        if i == index {
            objects[i].lemma_with_param_keeps_kinds(name, value, ComponentKind::Material);
            objects[i].lemma_with_param_keeps_kinds(name, value, ComponentKind::Mesh);
        }
    }
}

/// Showing or hiding one object leaves every object drawable.
pub proof fn lemma_with_active_at_keeps_drawable(
    objects: Seq<GameObjectView>,
    index: int,
    active: bool,
)
    requires
        all_drawable(objects),
        0 <= index < objects.len(),
    ensures
        all_drawable(with_active_at(objects, index, active)),
{
    let after = with_active_at(objects, index, active);
    assert forall|i: int| 0 <= i < after.len() implies (#[trigger] after[i]).drawable() by {
        if i == index {
            let before = objects[i];
            assert(after[i].is_first(
                ComponentKind::Material,
                before.first(ComponentKind::Material),
            ));
            assert(after[i].is_first(ComponentKind::Mesh, before.first(ComponentKind::Mesh)));
        }
    }
}

/// The shadow technique: its depth target, the object that casts the
/// shadow, the object that receives it, and the object that owns the light.
#[derive(Clone, Copy, Debug)]
pub struct Shadow {
    pub rt: RenderTexture,
    pub cube: Handle,
    pub plane: Handle,
    pub light: Handle,
}

impl Shadow {
    /// A technique that renders depth into `texture`, a square map of
    /// `SHADOW_MAP_SIZE` pixels.
    pub fn new(texture: Texture, cube: Handle, plane: Handle, light: Handle) -> (r: Shadow)
        ensures
            r.rt == (RenderTexture {
                texture,
                width: SHADOW_MAP_SIZE,
                height: SHADOW_MAP_SIZE,
                attachment: TextureAttachment::Depth,
            }),
            r.cube == cube,
            r.plane == plane,
            r.light == light,
    {
        Shadow {
            rt: RenderTexture::new(
                texture,
                SHADOW_MAP_SIZE,
                SHADOW_MAP_SIZE,
                TextureAttachment::Depth,
            ),
            cube,
            plane,
            light,
        }
    }

    pub open spec fn spec_bounds() -> OrthoBounds {
        OrthoBounds {
            left: Scalar { bits: MINUS_TWENTY_BITS },
            right: Scalar { bits: TWENTY_BITS },
            bottom: Scalar { bits: MINUS_TWENTY_BITS },
            top: Scalar { bits: TWENTY_BITS },
            near: Scalar { bits: MINUS_TWENTY_BITS },
            far: Scalar { bits: FORTY_BITS },
        }
    }

    /// The box of the light-space projection: 20 to either side and up and
    /// down, from 20 behind the eye to 40 in front of it.
    pub fn bounds() -> (r: OrthoBounds)
        ensures
            r == Shadow::spec_bounds(),
    {
        OrthoBounds {
            left: Scalar::from_bits(MINUS_TWENTY_BITS),
            right: Scalar::from_bits(TWENTY_BITS),
            bottom: Scalar::from_bits(MINUS_TWENTY_BITS),
            top: Scalar::from_bits(TWENTY_BITS),
            near: Scalar::from_bits(MINUS_TWENTY_BITS),
            far: Scalar::from_bits(FORTY_BITS),
        }
    }

    /// The direction of the light that casts the shadow, where `objects`
    /// holds the light's owner and its first light is directional.
    pub open spec fn spec_light_direction(self, objects: Seq<GameObjectView>) -> Option<Vector3f> {
        if self.light.index < objects.len() && objects[self.light.index as int].has(
            ComponentKind::Light,
        ) {
            let owner = objects[self.light.index as int];
            match owner.components[owner.first(ComponentKind::Light)].data->Light_0 {
                Light::Directional(l) => Some(l.direction),
                Light::Point(_) => None,
            }
        } else {
            None
        }
    }

    /// The direction of the light that casts the shadow. The shadow view
    /// looks from the opposite of this direction toward the origin, with +Y
    /// up.
    pub fn light_direction(&self, engine: &Engine) -> (r: Option<Vector3f>)
        ensures
            r == self.spec_light_direction(engine.object_views()),
    {
        match engine.object(self.light) {
            None => None,
            Some(owner) => {
                match owner.find_component::<Light>() {
                    None => None,
                    Some((light, component)) => {
                        proof {
                            broadcast use crate::scene::Component::lemma_view;

                        }
                        match light.directional() {
                            Some(l) => Some(l.direction),
                            None => None,
                        }
                    },
                }
            },
        }
    }

    /// The objects as the depth pass draws them: the shadow matrix is stored
    /// in every material of the caster and of the receiver, the caster is
    /// shown and the object `own`, which displays the result, is hidden.
    pub open spec fn during_pass(
        self,
        objects: Seq<GameObjectView>,
        own: Handle,
        shadow_matrix: Matrix4f,
    ) -> Seq<GameObjectView> {
        let value = MaterialParam::Matrix(shadow_matrix);
        let cast = with_param_at(objects, self.cube.index as int, "uShadowMatrix"@, value);
        let received = with_param_at(cast, self.plane.index as int, "uShadowMatrix"@, value);
        let shown = with_active_at(received, self.cube.index as int, true);
        with_active_at(shown, own.index as int, false)
    }

    /// The objects as the depth pass leaves them: the caster is hidden and
    /// the object `own` is shown.
    pub open spec fn after_pass(
        self,
        objects: Seq<GameObjectView>,
        own: Handle,
        shadow_matrix: Matrix4f,
    ) -> Seq<GameObjectView> {
        let during = self.during_pass(objects, own, shadow_matrix);
        let hidden = with_active_at(during, self.cube.index as int, false);
        with_active_at(hidden, own.index as int, true)
    }

    /// The camera as the depth pass uses it: drawing into the depth target,
    /// through a viewport that covers it.
    pub open spec fn pass_camera(self, camera: Camera) -> Camera {
        Camera {
            render_texture: Some(self.rt),
            rect: Some(self.rt.spec_full_rect()),
            ..camera
        }
    }

    /// Runs the technique for one frame and returns the depth pass.
    ///
    /// `shadow_matrix` is the light-space projection times the shadow view.
    /// It is stored as `uShadowMatrix` in every material of the caster and
    /// of the receiver. Then the caster is shown, `own` is hidden, the
    /// camera is redirected into the depth target and one frame is
    /// recorded. At last the caster is hidden, `own` is shown and the
    /// camera is directed back: on return it has neither target nor
    /// viewport.
    pub fn update(&self, engine: &mut Engine, own: Handle, shadow_matrix: Matrix4f) -> (frame:
        Frame)
        requires
            old(engine).main_camera is Some,
            old(engine).holds(self.cube),
            old(engine).holds(self.plane),
            old(engine).holds(own),
            all_drawable(old(engine).object_views()),
        ensures
            final(engine).main_camera == Some(
                Camera { render_texture: None, rect: None, ..old(engine).main_camera.unwrap() },
            ),
            final(engine).main_camera.unwrap().render_texture is None,
            final(engine).main_camera.unwrap().rect is None,
            final(engine).object_views() == self.after_pass(
                old(engine).object_views(),
                own,
                shadow_matrix,
            ),
            final(engine).size == old(engine).size,
            final(engine).ids == old(engine).ids,
            command_views(frame.commands@) == frame_commands(
                self.during_pass(old(engine).object_views(), own, shadow_matrix),
                Some(self.pass_camera(old(engine).main_camera.unwrap())),
                old(engine).size,
            ),
            frame.switch_prog == runs(
                programs(self.during_pass(old(engine).object_views(), own, shadow_matrix)),
            ),
            frame.switch_mesh == runs(
                mesh_ids(self.during_pass(old(engine).object_views(), own, shadow_matrix)),
            ),
    {
        let ghost start = engine.object_views();
        let value = MaterialParam::Matrix(shadow_matrix);

        engine.object_mut(self.cube).set_param("uShadowMatrix", value);
        let ghost cast = with_param_at(start, self.cube.index as int, "uShadowMatrix"@, value);
        proof {
            lemma_with_param_at_keeps_drawable(
                start,
                self.cube.index as int,
                "uShadowMatrix"@,
                value,
            );
        }

        engine.object_mut(self.plane).set_param("uShadowMatrix", value);
        let ghost received = with_param_at(cast, self.plane.index as int, "uShadowMatrix"@, value);
        proof {
            lemma_with_param_at_keeps_drawable(
                cast,
                self.plane.index as int,
                "uShadowMatrix"@,
                value,
            );
        }

        let mut camera = engine.main_camera.unwrap();
        camera.redirect(self.rt, self.rt.full_rect());
        engine.main_camera = Some(camera);

        engine.object_mut(self.cube).active = true;
        let ghost shown = with_active_at(received, self.cube.index as int, true);
        engine.object_mut(own).active = false;
        let ghost during = with_active_at(shown, own.index as int, false);
        assert(engine.object_views() =~= during);
        proof {
            lemma_with_active_at_keeps_drawable(received, self.cube.index as int, true);
            lemma_with_active_at_keeps_drawable(shown, own.index as int, false);
        }

        let frame = engine.render();

        engine.object_mut(self.cube).active = false;
        engine.object_mut(own).active = true;

        camera.restore();
        engine.main_camera = Some(camera);
        frame
    }
}

} // verus!
