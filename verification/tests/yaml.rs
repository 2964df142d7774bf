use ostinato::text::str_eq;
use ostinato::yaml::{parse_yaml, Yaml};

fn text(s: &str) -> Yaml {
    Yaml::Text(s.to_string())
}

#[test]
fn str_eq_compares_characters() {
    assert!(str_eq("", ""));
    assert!(str_eq("VERTEX", "VERTEX"));
    assert!(!str_eq("VERTEX", "VERTEX_FRAGMENT"));
    assert!(!str_eq("VERTEX", "vertex"));
    assert!(str_eq("größe", "größe"));
    assert!(!str_eq("größe", "grösse"));
}

#[test]
fn a_document_is_read_into_a_tree() {
    let doc = parse_yaml("name: wall\nsize: 4\nflags: [true, ~, -3, 1.5]\n").unwrap();
    assert_eq!(
        doc,
        Yaml::Mapping(vec![
            (text("name"), text("wall")),
            (text("size"), Yaml::Number(Some(4))),
            (
                text("flags"),
                Yaml::Sequence(vec![Yaml::Bool(true), Yaml::Null, Yaml::Number(None), Yaml::Number(None)])
            ),
        ])
    );
}

#[test]
fn the_largest_unsigned_number_is_kept() {
    let doc = parse_yaml("18446744073709551615").unwrap();
    assert_eq!(doc.as_u64(), Some(u64::MAX));
}

#[test]
fn a_text_that_is_no_yaml_is_a_syntax_error() {
    let err = parse_yaml("a: [1, 2").unwrap_err();
    assert!(!err.message.is_empty());
    assert!(parse_yaml("a: 1\na: 2\n").is_err());
}

#[test]
fn get_finds_the_value_of_a_text_key() {
    let doc = parse_yaml("a: 1\nb: two\n3: three\n").unwrap();
    assert_eq!(doc.get("a"), Some(&Yaml::Number(Some(1))));
    assert_eq!(doc.get("b"), Some(&text("two")));
    assert_eq!(doc.get("c"), None);
    // the key 3 is a number, not the text "3"
    assert_eq!(doc.get("3"), None);
}

#[test]
fn get_on_what_is_no_mapping_finds_nothing() {
    assert_eq!(text("a").get("a"), None);
    assert_eq!(Yaml::Sequence(vec![text("a")]).get("a"), None);
    assert_eq!(Yaml::Null.get("a"), None);
}

#[test]
fn get_takes_the_first_of_equal_keys() {
    let doc = Yaml::Mapping(vec![(text("k"), Yaml::Bool(true)), (text("k"), Yaml::Bool(false))]);
    assert_eq!(doc.get("k"), Some(&Yaml::Bool(true)));
}

#[test]
fn readers_look_through_tags() {
    let doc = parse_yaml("!material\nlabel: !name wall\ncount: !n 3\nlist: !l [a]\non: !b true\n").unwrap();
    assert!(matches!(doc, Yaml::Tagged(_)));
    assert_eq!(doc.get("label").unwrap().as_str(), Some("wall"));
    assert_eq!(doc.get("count").unwrap().as_u64(), Some(3));
    assert_eq!(doc.get("on").unwrap().as_bool(), Some(true));
    assert_eq!(doc.get("list").unwrap().as_sequence(), Some(&vec![text("a")]));
    assert_eq!(doc.untag().get("label").unwrap().untag(), &text("wall"));
}

#[test]
fn a_tagged_key_is_no_text_key() {
    let doc = Yaml::Mapping(vec![(Yaml::Tagged(Box::new(text("k"))), Yaml::Bool(true))]);
    assert_eq!(doc.get("k"), None);
}

#[test]
fn accessors_reject_other_kinds() {
    assert_eq!(Yaml::Number(Some(1)).as_str(), None);
    assert_eq!(text("1").as_u64(), None);
    assert_eq!(Yaml::Number(None).as_u64(), None);
    assert_eq!(text("true").as_bool(), None);
    assert_eq!(Yaml::Mapping(vec![]).as_sequence(), None);
    assert_eq!(Yaml::Bool(false).as_bool(), Some(false));
}
