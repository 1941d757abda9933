use unrust::material::{Material, MaterialParam, Param, ShaderProgram, Texture};
use unrust::math::{Matrix4f, Scalar};

fn float(x: f32) -> MaterialParam {
    MaterialParam::Float(Scalar::from_bits(x.to_bits()))
}

fn row(name: &str, value: MaterialParam) -> Param {
    Param { name: name.to_string(), value }
}

fn rows(material: &Material) -> Vec<(String, MaterialParam)> {
    (0..material.len())
        .map(|i| (material.param(i).name.clone(), material.param(i).value))
        .collect()
}

#[test]
fn material_with_program_has_no_parameters() {
    let material = Material::with_program(ShaderProgram { id: 3 });
    assert_eq!(material.program(), ShaderProgram { id: 3 });
    assert_eq!(material.len(), 0);
    assert_eq!(material.get("uDepthMap"), None);
    assert_eq!(material.find("uDepthMap"), None);
}

#[test]
fn material_set_appends_new_names_in_order() {
    let mut material = Material::with_program(ShaderProgram { id: 3 });
    material.set("b", float(2.0));
    material.set("a", float(1.0));
    material.set("c", MaterialParam::Texture(Texture { id: 9 }));
    assert_eq!(
        rows(&material),
        vec![
            ("b".to_string(), float(2.0)),
            ("a".to_string(), float(1.0)),
            ("c".to_string(), MaterialParam::Texture(Texture { id: 9 })),
        ]
    );
    assert_eq!(material.find("a"), Some(1));
    assert_eq!(material.get("c"), Some(MaterialParam::Texture(Texture { id: 9 })));
    assert_eq!(material.get("d"), None);
}

#[test]
fn material_set_replaces_a_known_name_in_place() {
    let mut material = Material::with_program(ShaderProgram { id: 3 });
    material.set("a", float(1.0));
    material.set("b", float(2.0));
    material.set("a", MaterialParam::Matrix(Matrix4f::identity()));
    assert_eq!(
        rows(&material),
        vec![
            ("a".to_string(), MaterialParam::Matrix(Matrix4f::identity())),
            ("b".to_string(), float(2.0)),
        ]
    );
}

#[test]
fn material_set_twice_is_set_once() {
    let mut once = Material::with_program(ShaderProgram { id: 3 });
    once.set("a", float(1.0));
    let mut twice = Material::with_program(ShaderProgram { id: 3 });
    twice.set("a", float(1.0));
    twice.set("a", float(1.0));
    assert_eq!(rows(&once), rows(&twice));
}

#[test]
fn material_names_differ_by_case_and_length() {
    let mut material = Material::with_program(ShaderProgram { id: 3 });
    material.set("a", float(1.0));
    material.set("A", float(2.0));
    material.set("aa", float(3.0));
    material.set("", float(4.0));
    assert_eq!(material.len(), 4);
    assert_eq!(material.get("a"), Some(float(1.0)));
    assert_eq!(material.get("A"), Some(float(2.0)));
    assert_eq!(material.get("aa"), Some(float(3.0)));
    assert_eq!(material.get(""), Some(float(4.0)));
}

#[test]
fn material_new_stores_the_rows_in_order() {
    let material = Material::new(
        ShaderProgram { id: 8 },
        vec![row("x", float(1.0)), row("y", float(2.0))],
    );
    assert_eq!(material.program(), ShaderProgram { id: 8 });
    assert_eq!(rows(&material), vec![("x".to_string(), float(1.0)), ("y".to_string(), float(2.0))]);
}

#[test]
fn material_new_keeps_one_row_for_each_name() {
    let material = Material::new(
        ShaderProgram { id: 8 },
        vec![row("x", float(1.0)), row("y", float(2.0)), row("x", float(3.0))],
    );
    assert_eq!(rows(&material), vec![("x".to_string(), float(3.0)), ("y".to_string(), float(2.0))]);
}

#[test]
fn material_new_without_rows_is_empty() {
    let material = Material::new(ShaderProgram { id: 8 }, vec![]);
    assert_eq!(material.len(), 0);
}

#[test]
fn material_clone_copies_program_and_rows() {
    let mut material = Material::with_program(ShaderProgram { id: 3 });
    material.set("a", float(1.0));
    material.set("b", float(2.0));
    let mut copy = material.clone();
    assert_eq!(copy.program(), material.program());
    assert_eq!(rows(&copy), rows(&material));
    copy.set("a", float(9.0));
    assert_eq!(material.get("a"), Some(float(1.0)));
}
