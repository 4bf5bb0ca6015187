use machine_factory::error::Error;
use machine_factory::event_enum::{event_enum, EventEnumInput};
use machine_factory::state_enum::{state_enum, StateEnumInput};
use machine_factory::syntax::{Path, PathSegment};

fn path(leading_colon: bool, segments: &[(&str, &str)]) -> Path {
    Path {
        leading_colon,
        segments: segments
            .iter()
            .map(|(ident, arguments)| PathSegment {
                ident: ident.to_string(),
                arguments: arguments.to_string(),
            })
            .collect(),
    }
}

#[test]
fn the_state_enum_has_a_variant_for_each_path() {
    let text = state_enum(StateEnumInput {
        attributes: vec!["#[derive(Debug)]".to_string(), "#[derive(Clone)]".to_string()],
        visibility: Some("pub(crate)".to_string()),
        ident: "LightState".to_string(),
        state_paths: vec![
            path(false, &[("Red", "")]),
            path(false, &[("lights", ""), ("Yellow", "")]),
            path(true, &[("lights", ""), ("Green", "<u8>")]),
        ],
    });
    assert_eq!(
        text.expect("every path has a segment"),
        "#[derive(Debug)] #[derive(Clone)] pub(crate) enum LightState { Red(Red), \
         Yellow(lights::Yellow), Green(::lights::Green<u8>), }"
    );
}

#[test]
fn the_event_enum_has_a_variant_for_each_path() {
    let text = event_enum(EventEnumInput {
        attributes: Vec::new(),
        visibility: None,
        ident: "LightEvent".to_string(),
        event_paths: vec![path(false, &[("Next", "")])],
    });
    assert_eq!(text.expect("every path has a segment"), "enum LightEvent { Next(Next), }");
    let empty = event_enum(EventEnumInput {
        attributes: Vec::new(),
        visibility: None,
        ident: "Never".to_string(),
        event_paths: Vec::new(),
    });
    assert_eq!(empty.expect("no path, no fault"), "enum Never { }");
}

#[test]
fn a_path_without_a_segment_names_no_variant() {
    let states = state_enum(StateEnumInput {
        attributes: Vec::new(),
        visibility: None,
        ident: "LightState".to_string(),
        state_paths: vec![path(false, &[("Red", "")]), path(true, &[])],
    });
    assert_eq!(states, Err(Error::EmptyVariantPath));
    let events = event_enum(EventEnumInput {
        attributes: Vec::new(),
        visibility: None,
        ident: "LightEvent".to_string(),
        event_paths: vec![path(false, &[])],
    });
    assert_eq!(events, Err(Error::EmptyVariantPath));
    assert_eq!(
        Error::EmptyVariantPath.message(),
        "expected path to have at least one segment"
    );
}

#[test]
fn paths_compare_by_what_they_hold() {
    let red = path(false, &[("lights", ""), ("Red", "")]);
    assert!(red.same_as(&path(false, &[("lights", ""), ("Red", "")])));
    assert!(!red.same_as(&path(true, &[("lights", ""), ("Red", "")])));
    assert!(!red.same_as(&path(false, &[("lights", ""), ("Red", "<T>")])));
    assert!(!red.same_as(&path(false, &[("Red", "")])));
    assert!(!red.same_as(&path(false, &[("lights", ""), ("Green", "")])));
    assert!(red.duplicate().same_as(&red));
    assert_eq!(red.text(), "lights::Red");
    assert_eq!(red.last_ident().map(String::as_str), Some("Red"));
    assert_eq!(path(true, &[]).last_ident(), None);
    assert_eq!(path(true, &[]).text(), "::");
    assert!(Path::from_ident("bool").is_ident("bool"));
    assert!(!Path::from_ident("bool").is_ident("u8"));
    assert!(!red.is_ident("Red"));
    assert!(!path(true, &[("bool", "")]).is_ident("bool"));
    assert!(!path(false, &[("bool", "<T>")]).is_ident("bool"));
}

#[test]
fn two_variants_of_one_name_are_refused() {
    let states = state_enum(StateEnumInput {
        attributes: Vec::new(),
        visibility: None,
        ident: "LightState".to_string(),
        state_paths: vec![path(false, &[("a", ""), ("Tick", "")]), path(false, &[("b", ""), ("Tick", "")])],
    });
    assert_eq!(states, Err(Error::DuplicateStateName));
    let events = event_enum(EventEnumInput {
        attributes: Vec::new(),
        visibility: None,
        ident: "LightEvent".to_string(),
        event_paths: vec![
            path(false, &[("Tock", "")]),
            path(false, &[("a", ""), ("Tick", "")]),
            path(true, &[("Tick", "")]),
        ],
    });
    assert_eq!(events, Err(Error::DuplicateEventName));
    let unnamed_first = event_enum(EventEnumInput {
        attributes: Vec::new(),
        visibility: None,
        ident: "LightEvent".to_string(),
        event_paths: vec![path(false, &[("Tick", "")]), path(false, &[("Tick", "")]), path(true, &[])],
    });
    assert_eq!(unnamed_first, Err(Error::EmptyVariantPath));
}
