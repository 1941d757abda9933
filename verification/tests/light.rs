use unrust::command::{Uniform, UniformValue};
use unrust::light::{Directional, Light, Point, WorldTransform};
use unrust::math::{Scalar, Vector3f};

fn number(x: f32) -> Scalar {
    Scalar::from_bits(x.to_bits())
}

fn vector(x: f32, y: f32, z: f32) -> Vector3f {
    Vector3f::from_bits(x.to_bits(), y.to_bits(), z.to_bits())
}

fn floats(v: Vector3f) -> (f32, f32, f32) {
    (f32::from_bits(v.x.to_bits()), f32::from_bits(v.y.to_bits()), f32::from_bits(v.z.to_bits()))
}

fn write(name: &str, value: UniformValue) -> Uniform<String> {
    Uniform { name: name.to_string(), value }
}

#[test]
fn default_directional_light_has_the_documented_colours() {
    let light = Directional::default();
    assert_eq!(light.ambient, vector(0.212, 0.227, 0.259));
    assert_eq!(light.diffuse, vector(1.0, 0.957, 0.839));
    assert_eq!(light.specular, vector(1.0, 1.0, 1.0));
    assert_eq!(floats(light.ambient), (0.212, 0.227, 0.259));
    assert_eq!(floats(light.diffuse), (1.0, 0.957, 0.839));
    assert_eq!(floats(light.specular), (1.0, 1.0, 1.0));
}

#[test]
fn default_directional_light_points_along_the_turned_z_axis() {
    let light = Directional::default();
    let (x, y, z) = floats(light.direction);
    let (a, b) = (30.0f64.to_radians(), 50.0f64.to_radians());
    // Z turned by 50 degrees about Y, then by 30 degrees about X
    let expected = (b.sin(), -b.cos() * a.sin(), b.cos() * a.cos());
    assert!((x as f64 - expected.0).abs() < 1e-6, "{x}");
    assert!((y as f64 - expected.1).abs() < 1e-6, "{y}");
    assert!((z as f64 - expected.2).abs() < 1e-6, "{z}");
    let length = ((x * x + y * y + z * z) as f64).sqrt();
    assert!((length - 1.0).abs() < 1e-6);
    assert_eq!(light.world_space_direction, light.direction);
}

#[test]
fn default_point_light_sits_at_the_origin() {
    let light = Point::default();
    assert_eq!(light.position, vector(0.0, 0.0, 0.0));
    assert_eq!(light.world_space_position, vector(0.0, 0.0, 0.0));
    assert_eq!(light.ambient, vector(0.05, 0.05, 0.05));
    assert_eq!(light.diffuse, vector(0.8, 0.8, 0.8));
    assert_eq!(light.specular, vector(1.0, 1.0, 1.0));
    assert_eq!(light.constant, number(1.0));
    assert_eq!(light.linear, number(0.022));
    assert_eq!(light.quadratic, number(0.0019));
}

#[test]
fn light_new_wraps_either_kind() {
    assert_eq!(Light::new(Directional::default()), Light::Directional(Directional::default()));
    assert_eq!(Light::new(Point::default()), Light::Point(Point::default()));
    assert_eq!(Light::from(Point::default()), Light::Point(Point::default()));
}

#[test]
fn light_accessors_tell_the_kinds_apart() {
    let mut sun = Light::new(Directional::default());
    let mut lamp = Light::new(Point::default());
    assert_eq!(sun.directional(), Some(&Directional::default()));
    assert_eq!(sun.point(), None);
    assert_eq!(lamp.point(), Some(&Point::default()));
    assert_eq!(lamp.directional(), None);
    assert!(sun.point_mut().is_none());
    assert!(lamp.directional_mut().is_none());
    sun.directional_mut().unwrap().direction = vector(0.0, -1.0, 0.0);
    lamp.point_mut().unwrap().linear = number(0.5);
    assert_eq!(sun.directional().unwrap().direction, vector(0.0, -1.0, 0.0));
    assert_eq!(lamp.point().unwrap().linear, number(0.5));
}

#[test]
fn directions_transform_like_normals_and_positions_affinely() {
    let sun = Light::new(Directional::default());
    let lamp = Light::new(Point { position: vector(1.0, 2.0, 3.0), ..Point::default() });
    assert_eq!(sun.world_transform(), WorldTransform::Normal);
    assert_eq!(lamp.world_transform(), WorldTransform::Affine);
    assert_eq!(sun.local(), Directional::default().direction);
    assert_eq!(lamp.local(), vector(1.0, 2.0, 3.0));
}

#[test]
fn update_stores_the_world_space_direction() {
    let mut sun = Light::new(Directional::default());
    sun.update(vector(0.0, -1.0, 0.0));
    let expected = Directional {
        world_space_direction: vector(0.0, -1.0, 0.0),
        ..Directional::default()
    };
    assert_eq!(sun, Light::Directional(expected));
}

#[test]
fn update_stores_the_world_space_position() {
    let mut lamp = Light::new(Point { position: vector(1.0, 2.0, 3.0), ..Point::default() });
    lamp.update(vector(11.0, 22.0, 33.0));
    let expected = Point {
        position: vector(1.0, 2.0, 3.0),
        world_space_position: vector(11.0, 22.0, 33.0),
        ..Point::default()
    };
    assert_eq!(lamp, Light::Point(expected));
}

#[test]
fn directional_light_binds_four_uniforms() {
    let mut sun = Light::new(Directional::default());
    sun.update(vector(0.0, -1.0, 0.0));
    assert_eq!(
        sun.bind("uDirectionalLight"),
        vec![
            write("uDirectionalLight.direction", UniformValue::Vector3(vector(0.0, -1.0, 0.0))),
            write("uDirectionalLight.ambient", UniformValue::Vector3(vector(0.212, 0.227, 0.259))),
            write("uDirectionalLight.diffuse", UniformValue::Vector3(vector(1.0, 0.957, 0.839))),
            write("uDirectionalLight.specular", UniformValue::Vector3(vector(1.0, 1.0, 1.0))),
        ]
    );
}

#[test]
fn point_light_binds_position_attenuation_and_rate() {
    let mut lamp = Light::new(Point::default());
    lamp.update(vector(4.0, 5.0, 6.0));
    assert_eq!(
        lamp.bind("uPointLights[0]"),
        vec![
            write("uPointLights[0].position", UniformValue::Vector3(vector(4.0, 5.0, 6.0))),
            write("uPointLights[0].ambient", UniformValue::Vector3(vector(0.05, 0.05, 0.05))),
            write("uPointLights[0].diffuse", UniformValue::Vector3(vector(0.8, 0.8, 0.8))),
            write("uPointLights[0].specular", UniformValue::Vector3(vector(1.0, 1.0, 1.0))),
            write("uPointLights[0].constant", UniformValue::Float(number(1.0))),
            write("uPointLights[0].linear", UniformValue::Float(number(0.022))),
            write("uPointLights[0].quadratic", UniformValue::Float(number(0.0019))),
            write("uPointLights[0].rate", UniformValue::Float(number(1.0))),
        ]
    );
}

#[test]
fn bind_with_empty_prefix_keeps_the_field_names() {
    let names: Vec<String> =
        Light::new(Directional::default()).bind("").into_iter().map(|u| u.name).collect();
    assert_eq!(names, vec![".direction", ".ambient", ".diffuse", ".specular"]);
}

#[test]
fn bind_before_update_sends_the_stale_value() {
    let lamp = Light::new(Point { position: vector(1.0, 2.0, 3.0), ..Point::default() });
    let writes = lamp.bind("l");
    assert_eq!(writes[0], write("l.position", UniformValue::Vector3(vector(0.0, 0.0, 0.0))));
}
