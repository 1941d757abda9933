//! Lights: what a light is in its object's space, what it is in the world,
//! and the uniforms through which a program sees it.

use vstd::prelude::*;
use vstd::string::*;
use crate::command::{uniform, uniform_views, Uniform, UniformValue};
use crate::math::{Scalar, Vector3f, ONE_BITS, ZERO_BITS};

verus! {

/// Bit patterns of the default directional light's direction: the unit +Z
/// axis turned by 50 degrees about Y, then by 30 degrees about X.
pub const DEFAULT_DIRECTION_X_BITS: u32 = 0x3F44_1B7D;

pub const DEFAULT_DIRECTION_Y_BITS: u32 = 0xBEA4_8DBB;

pub const DEFAULT_DIRECTION_Z_BITS: u32 = 0x3F0E_81F4;

/// A light that shines along one direction everywhere.
#[derive(Clone, Copy, PartialEq, Eq, Structural, Debug)]
pub struct Directional {
    pub direction: Vector3f,
    pub ambient: Vector3f,
    pub diffuse: Vector3f,
    pub specular: Vector3f,
    /// The direction in world space: stale until the light is updated.
    pub world_space_direction: Vector3f,
}

impl Directional {
    pub open spec fn spec_default() -> Directional {
        let direction = Vector3f::of_bits(
            DEFAULT_DIRECTION_X_BITS,
            DEFAULT_DIRECTION_Y_BITS,
            DEFAULT_DIRECTION_Z_BITS,
        );
        Directional {
            direction,
            // (0.212, 0.227, 0.259)
            ambient: Vector3f::of_bits(0x3E59_1687, 0x3E68_72B0, 0x3E84_9BA6),
            // (1.0, 0.957, 0.839)
            diffuse: Vector3f::of_bits(ONE_BITS, 0x3F74_FDF4, 0x3F56_C8B4),
            specular: Vector3f::of_bits(ONE_BITS, ONE_BITS, ONE_BITS),
            world_space_direction: direction,
        }
    }

    /// The uniforms of this light under the name `prefix`.
    pub open spec fn uniforms(self, prefix: Seq<char>) -> Seq<Uniform<Seq<char>>> {
        seq![
            uniform(prefix + ".direction"@, UniformValue::Vector3(self.world_space_direction)),
            uniform(prefix + ".ambient"@, UniformValue::Vector3(self.ambient)),
            uniform(prefix + ".diffuse"@, UniformValue::Vector3(self.diffuse)),
            uniform(prefix + ".specular"@, UniformValue::Vector3(self.specular)),
        ]
    }

    fn bind(&self, lightname: &str) -> (r: Vec<Uniform<String>>)
        ensures
            uniform_views(r@) == self.uniforms(lightname@),
    {
        let mut r: Vec<Uniform<String>> = Vec::new();
        r.push(named(lightname, ".direction", UniformValue::Vector3(self.world_space_direction)));
        r.push(named(lightname, ".ambient", UniformValue::Vector3(self.ambient)));
        r.push(named(lightname, ".diffuse", UniformValue::Vector3(self.diffuse)));
        r.push(named(lightname, ".specular", UniformValue::Vector3(self.specular)));
        r
    }

    fn update(&mut self, world: Vector3f)
        ensures
            *final(self) == (Directional { world_space_direction: world, ..*old(self) }),
    {
        self.world_space_direction = world;
    }
}

impl Default for Directional {
    /// A warm white light that shines along `DEFAULT_DIRECTION_*`.
    fn default() -> (r: Directional)
        ensures
            r == Directional::spec_default(),
    {
        let direction = Vector3f::from_bits(
            DEFAULT_DIRECTION_X_BITS,
            DEFAULT_DIRECTION_Y_BITS,
            DEFAULT_DIRECTION_Z_BITS,
        );
        Directional {
            direction,
            ambient: Vector3f::from_bits(0x3E59_1687, 0x3E68_72B0, 0x3E84_9BA6),
            diffuse: Vector3f::from_bits(ONE_BITS, 0x3F74_FDF4, 0x3F56_C8B4),
            specular: Vector3f::from_bits(ONE_BITS, ONE_BITS, ONE_BITS),
            world_space_direction: direction,
        }
    }
}

/// A light that shines from one position and fades with distance `d` as
/// `1 / (constant + linear * d + quadratic * d * d)`.
#[derive(Clone, Copy, PartialEq, Eq, Structural, Debug)]
pub struct Point {
    pub position: Vector3f,
    pub ambient: Vector3f,
    pub diffuse: Vector3f,
    pub specular: Vector3f,
    pub constant: Scalar,
    pub linear: Scalar,
    pub quadratic: Scalar,
    /// The position in world space: stale until the light is updated.
    pub world_space_position: Vector3f,
}

impl Point {
    pub open spec fn spec_default() -> Point {
        Point {
            position: Vector3f::of_bits(ZERO_BITS, ZERO_BITS, ZERO_BITS),
            // (0.05, 0.05, 0.05)
            ambient: Vector3f::of_bits(0x3D4C_CCCD, 0x3D4C_CCCD, 0x3D4C_CCCD),
            // (0.8, 0.8, 0.8)
            diffuse: Vector3f::of_bits(0x3F4C_CCCD, 0x3F4C_CCCD, 0x3F4C_CCCD),
            specular: Vector3f::of_bits(ONE_BITS, ONE_BITS, ONE_BITS),
            constant: Scalar { bits: ONE_BITS },
            // 0.022
            linear: Scalar { bits: 0x3CB4_3958 },
            // 0.0019
            quadratic: Scalar { bits: 0x3AF9_096C },
            world_space_position: Vector3f::of_bits(ZERO_BITS, ZERO_BITS, ZERO_BITS),
        }
    }

    /// The uniforms of this light under the name `prefix`. The last one is
    /// the attenuation rate, which is always one.
    pub open spec fn uniforms(self, prefix: Seq<char>) -> Seq<Uniform<Seq<char>>> {
        seq![
            uniform(prefix + ".position"@, UniformValue::Vector3(self.world_space_position)),
            uniform(prefix + ".ambient"@, UniformValue::Vector3(self.ambient)),
            uniform(prefix + ".diffuse"@, UniformValue::Vector3(self.diffuse)),
            uniform(prefix + ".specular"@, UniformValue::Vector3(self.specular)),
            uniform(prefix + ".constant"@, UniformValue::Float(self.constant)),
            uniform(prefix + ".linear"@, UniformValue::Float(self.linear)),
            uniform(prefix + ".quadratic"@, UniformValue::Float(self.quadratic)),
            uniform(prefix + ".rate"@, UniformValue::Float(Scalar { bits: ONE_BITS })),
        ]
    }

    fn bind(&self, lightname: &str) -> (r: Vec<Uniform<String>>)
        ensures
            uniform_views(r@) == self.uniforms(lightname@),
    {
        let mut r: Vec<Uniform<String>> = Vec::new();
        r.push(named(lightname, ".position", UniformValue::Vector3(self.world_space_position)));
        r.push(named(lightname, ".ambient", UniformValue::Vector3(self.ambient)));
        r.push(named(lightname, ".diffuse", UniformValue::Vector3(self.diffuse)));
        r.push(named(lightname, ".specular", UniformValue::Vector3(self.specular)));
        r.push(named(lightname, ".constant", UniformValue::Float(self.constant)));
        r.push(named(lightname, ".linear", UniformValue::Float(self.linear)));
        r.push(named(lightname, ".quadratic", UniformValue::Float(self.quadratic)));
        r.push(named(lightname, ".rate", UniformValue::Float(Scalar::one())));
        r
    }

    fn update(&mut self, world: Vector3f)
        ensures
            *final(self) == (Point { world_space_position: world, ..*old(self) }),
    {
        self.world_space_position = world;
    }
}

impl Default for Point {
    /// A dim white light at the origin.
    fn default() -> (r: Point)
        ensures
            r == Point::spec_default(),
    {
        Point {
            position: Vector3f::zero(),
            ambient: Vector3f::from_bits(0x3D4C_CCCD, 0x3D4C_CCCD, 0x3D4C_CCCD),
            diffuse: Vector3f::from_bits(0x3F4C_CCCD, 0x3F4C_CCCD, 0x3F4C_CCCD),
            specular: Vector3f::from_bits(ONE_BITS, ONE_BITS, ONE_BITS),
            constant: Scalar::one(),
            linear: Scalar::from_bits(0x3CB4_3958),
            quadratic: Scalar::from_bits(0x3AF9_096C),
            world_space_position: Vector3f::zero(),
        }
    }
}

/// The write of `value` to the uniform named `prefix` followed by `field`.
fn named(prefix: &str, field: &str, value: UniformValue) -> (r: Uniform<String>)
    ensures
        r@ == uniform(prefix@ + field@, value),
{
    Uniform { name: String::from_str(prefix).concat(field), value }
}

/// How a light's own vector is carried into world space by the model matrix
/// of the object that owns the light.
#[derive(Clone, Copy, PartialEq, Eq, Structural, Debug)]
pub enum WorldTransform {
    /// By the transpose of the inverse of the model matrix, then normalised:
    /// directions transform like normals.
    Normal,
    /// By the model matrix itself, translation included.
    Affine,
}

/// A light of either kind.
#[derive(Clone, Copy, PartialEq, Eq, Structural, Debug)]
pub enum Light {
    Directional(Directional),
    Point(Point),
}

impl Light {
    /// The directional light that this is, if it is one.
    pub fn directional(&self) -> (r: Option<&Directional>)
        ensures
            r is Some <==> *self is Directional,
            r is Some ==> *r.unwrap() == self->Directional_0,
    {
        match self {
            Light::Directional(l) => Some(l),
            _ => None,
        }
    }

    /// The directional light that this is, for changing it in place, if it
    /// is one.
    pub fn directional_mut(&mut self) -> (r: Option<&mut Directional>)
        ensures
            r is Some <==> *old(self) is Directional,
            r is Some ==> *r.unwrap() == old(self)->Directional_0 && *final(self)
                == Light::Directional(*final(r.unwrap())),
            r is None ==> *final(self) == *old(self),
    {
        match self {
            Light::Directional(l) => Some(l),
            _ => None,
        }
    }

    /// The point light that this is, for changing it in place, if it is one.
    pub fn point_mut(&mut self) -> (r: Option<&mut Point>)
        ensures
            r is Some <==> *old(self) is Point,
            r is Some ==> *r.unwrap() == old(self)->Point_0 && *final(self) == Light::Point(
                *final(r.unwrap()),
            ),
            r is None ==> *final(self) == *old(self),
    {
        match self {
            Light::Point(l) => Some(l),
            _ => None,
        }
    }

    /// The point light that this is, if it is one.
    pub fn point(&self) -> (r: Option<&Point>)
        ensures
            r is Some <==> *self is Point,
            r is Some ==> *r.unwrap() == self->Point_0,
    {
        match self {
            Light::Point(l) => Some(l),
            _ => None,
        }
    }

    /// The light made of `a`.
    pub fn new<T: Into<Light>>(a: T) -> (r: Light)
        ensures
            call_ensures(<T as Into<Light>>::into, (a,), r),
    {
        a.into()
    }

    /// The vector that `update` expects in world space: the direction of a
    /// directional light, the position of a point light.
    pub open spec fn spec_local(self) -> Vector3f {
        match self {
            Light::Directional(l) => l.direction,
            Light::Point(l) => l.position,
        }
    }

    pub fn local(&self) -> (r: Vector3f)
        ensures
            r == self.spec_local(),
    {
        match self {
            Light::Directional(l) => l.direction,
            Light::Point(l) => l.position,
        }
    }

    pub open spec fn spec_world_transform(self) -> WorldTransform {
        match self {
            Light::Directional(_) => WorldTransform::Normal,
            Light::Point(_) => WorldTransform::Affine,
        }
    }

    /// The transform that carries `local()` into world space.
    pub fn world_transform(&self) -> (r: WorldTransform)
        ensures
            r == self.spec_world_transform(),
    {
        match self {
            Light::Directional(_) => WorldTransform::Normal,
            Light::Point(_) => WorldTransform::Affine,
        }
    }

    /// The light with `world` as its world-space vector and nothing else
    /// changed.
    pub open spec fn updated(self, world: Vector3f) -> Light {
        match self {
            Light::Directional(l) => Light::Directional(
                Directional { world_space_direction: world, ..l },
            ),
            Light::Point(l) => Light::Point(Point { world_space_position: world, ..l }),
        }
    }

    /// Stores `world`, which is `local()` carried by `world_transform()`
    /// under the owner's current model matrix, as the world-space direction
    /// or position.
    pub fn update(&mut self, world: Vector3f)
        ensures
            *final(self) == old(self).updated(world),
    {
        match self {
            Light::Directional(l) => l.update(world),
            Light::Point(l) => l.update(world),
        }
    }

    /// The uniforms of this light under the name `prefix`, in the order in
    /// which they are written.
    pub open spec fn uniforms(self, prefix: Seq<char>) -> Seq<Uniform<Seq<char>>> {
        match self {
            Light::Directional(l) => l.uniforms(prefix),
            Light::Point(l) => l.uniforms(prefix),
        }
    }

    /// The uniform writes that show this light to a program under the name
    /// `lightname`.
    pub fn bind(&self, lightname: &str) -> (r: Vec<Uniform<String>>)
        ensures
            uniform_views(r@) == self.uniforms(lightname@),
    {
        match self {
            Light::Directional(l) => l.bind(lightname),
            Light::Point(l) => l.bind(lightname),
        }
    }
}

impl From<Directional> for Light {
    fn from(w: Directional) -> (r: Light) {
        Light::Directional(w)
    }
}

impl vstd::std_specs::convert::FromSpecImpl<Directional> for Light {
    open spec fn obeys_from_spec() -> bool {
        true
    }

    open spec fn from_spec(w: Directional) -> Light {
        Light::Directional(w)
    }
}

impl From<Point> for Light {
    fn from(w: Point) -> (r: Light) {
        Light::Point(w)
    }
}

impl vstd::std_specs::convert::FromSpecImpl<Point> for Light {
    open spec fn obeys_from_spec() -> bool {
        true
    }

    open spec fn from_spec(w: Point) -> Light {
        Light::Point(w)
    }
}

} // verus!
