use ostinato::document::{load_omtl, DocumentError};
use ostinato::error::RegistryError;
use ostinato::omtl::{parse_omtl, MaterialBundle, ObjectRule};
use ostinato::schema::{Fault, Field, SchemaError, Step};
use ostinato::yaml::parse_yaml;

const SKULL: &str = "\
materials: [bone, teeth, jaw]
objects:
  - { name: Teeth, material_index: 1 }
  - { index: 2, material_index: 2 }
  - { default: 0 }
";

fn bundle_error(text: &str) -> SchemaError {
    match load_omtl(text) {
        Err(DocumentError::Schema(e)) => e,
        other => panic!("expected a schema error, got {:?}", other),
    }
}

#[test]
fn a_whole_material_bundle() {
    assert_eq!(
        load_omtl(SKULL),
        Ok(MaterialBundle {
            materials: vec!["bone".to_string(), "teeth".to_string(), "jaw".to_string()],
            objects: vec![
                ObjectRule::ByName { name: "Teeth".to_string(), material_index: 1 },
                ObjectRule::ByIndex { index: 2, material_index: 2 },
                ObjectRule::Unkeyed,
            ],
            fallback: 0,
        })
    );
}

#[test]
fn parse_omtl_reads_a_tree() {
    let root = parse_yaml("materials: []\nobjects: [{default: 4}]\n").unwrap();
    assert_eq!(parse_omtl(&root), Ok(MaterialBundle { materials: vec![], objects: vec![ObjectRule::Unkeyed], fallback: 4 }));
}

#[test]
fn a_sub_mesh_takes_the_material_of_the_first_rule_that_selects_it() {
    let bundle = load_omtl(SKULL).unwrap();
    assert_eq!(bundle.material_index_of("Teeth", 0), 1);
    assert_eq!(bundle.material_index_of("Jaw", 2), 2);
    assert_eq!(bundle.material_index_of("Teeth", 2), 1);
    assert_eq!(bundle.material_index_of("Skull", 0), 0);
    assert_eq!(bundle.material_index_of("teeth", 1), 0);
}

#[test]
fn a_name_decides_before_an_index() {
    let bundle = load_omtl(
        "materials: [a, b]\nobjects:\n  - { name: Top, index: 0, material_index: 1 }\n  - { default: 0 }\n",
    )
    .unwrap();
    assert_eq!(
        bundle.objects[0],
        ObjectRule::ByName { name: "Top".to_string(), material_index: 1 }
    );
    assert_eq!(bundle.material_index_of("Bottom", 0), 0);
    assert_eq!(bundle.material_index_of("Top", 5), 1);
}

#[test]
fn the_first_default_is_the_fallback() {
    let bundle =
        load_omtl("materials: [a]\nobjects:\n  - { default: none }\n  - { default: 3 }\n  - { default: 5 }\n").unwrap();
    assert_eq!(bundle.fallback, 3);
    let bundle = load_omtl("materials: [a]\nobjects:\n  - { name: X, material_index: 0, default: 2 }\n").unwrap();
    assert_eq!(bundle.fallback, 2);
    assert_eq!(bundle.material_index_of("Y", 0), 2);
}

#[test]
fn a_bundle_without_a_default_is_rejected() {
    assert_eq!(
        bundle_error("materials: [a]\nobjects:\n  - { name: X, material_index: 0 }\n"),
        SchemaError {
            fault: Fault::Missing,
            path: vec![Step::Key(Field::Objects), Step::Key(Field::Fallback)],
            token: None,
        }
    );
    assert_eq!(
        bundle_error("materials: [a]\nobjects: []\n").path,
        vec![Step::Key(Field::Objects), Step::Key(Field::Fallback)]
    );
}

#[test]
fn materials_and_objects_are_required_lists() {
    assert_eq!(
        bundle_error("objects: [{default: 0}]\n"),
        SchemaError { fault: Fault::Missing, path: vec![Step::Key(Field::Materials)], token: None }
    );
    assert_eq!(
        bundle_error("materials: [a]\n"),
        SchemaError { fault: Fault::Missing, path: vec![Step::Key(Field::Objects)], token: None }
    );
    assert_eq!(
        bundle_error("materials: a\nobjects: [{default: 0}]\n"),
        SchemaError { fault: Fault::Invalid, path: vec![Step::Key(Field::Materials)], token: None }
    );
    assert_eq!(
        bundle_error("materials: [a, 2]\nobjects: [{default: 0}]\n"),
        SchemaError { fault: Fault::Invalid, path: vec![Step::Key(Field::Materials), Step::Item(1)], token: None }
    );
    assert_eq!(
        bundle_error("materials: [a]\nobjects: {default: 0}\n"),
        SchemaError { fault: Fault::Invalid, path: vec![Step::Key(Field::Objects)], token: None }
    );
}

#[test]
fn a_rule_needs_a_valid_selector_and_a_material_index() {
    let objects = |rule: &str| format!("materials: [a]\nobjects:\n  - {{ default: 0 }}\n  - {{ {} }}\n", rule);
    let at = |field: Field| vec![Step::Key(Field::Objects), Step::Item(1), Step::Key(field)];
    assert_eq!(
        bundle_error(&objects("name: [X], material_index: 0")),
        SchemaError { fault: Fault::Invalid, path: at(Field::Name), token: None }
    );
    assert_eq!(
        bundle_error(&objects("index: first, material_index: 0")),
        SchemaError { fault: Fault::Invalid, path: at(Field::Index), token: None }
    );
    assert_eq!(
        bundle_error(&objects("name: X")),
        SchemaError { fault: Fault::Missing, path: at(Field::MaterialIndex), token: None }
    );
    assert_eq!(
        bundle_error(&objects("index: 1, material_index: -1")),
        SchemaError { fault: Fault::Invalid, path: at(Field::MaterialIndex), token: None }
    );
}

#[test]
fn the_material_of_a_sub_mesh_is_looked_up_in_the_loaded_ids() {
    let bundle = load_omtl(SKULL).unwrap();
    let loaded = vec![40, 41, 42];
    assert_eq!(bundle.material_of(&loaded, "Teeth", 0), Ok(41));
    assert_eq!(bundle.material_of(&loaded, "Jaw", 2), Ok(42));
    assert_eq!(bundle.material_of(&loaded, "Skull", 0), Ok(40));
    assert_eq!(bundle.material_of(&vec![40], "Teeth", 0), Err(RegistryError::OutOfRange));
    assert_eq!(bundle.material_of(&vec![], "Skull", 0), Err(RegistryError::OutOfRange));
}

#[test]
fn a_bundle_that_is_no_yaml_is_reported_as_syntax() {
    assert!(matches!(load_omtl("materials: [a\n"), Err(DocumentError::Syntax(_))));
}
