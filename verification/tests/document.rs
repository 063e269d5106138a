use amethyst_window::config::DisplayConfig;
use amethyst_window::document::{Document, DocumentEntry, FieldKey, FieldValue};
use amethyst_window::monitor::MonitorIdent;

fn doc(entries: Vec<(FieldKey, FieldValue)>) -> Document {
    Document {
        entries: entries.into_iter().map(|(key, value)| DocumentEntry { key, value }).collect(),
    }
}

#[test]
fn empty_document_equals_default() {
    let read = DisplayConfig::from_document(&doc(vec![])).unwrap();
    assert_eq!(read, DisplayConfig::default());
}

#[test]
fn absent_fields_get_their_defaults() {
    let read = DisplayConfig::from_document(&doc(vec![
        (FieldKey::Decorations, FieldValue::Flag(false)),
        (FieldKey::Dimensions, FieldValue::Pair(640, 480)),
    ]))
    .unwrap();
    // the two written fields
    assert!(!read.decorations);
    assert_eq!(read.dimensions, Some((640, 480)));
    // every absent field gets its documented default
    assert_eq!(read.title, "Amethyst game");
    assert_eq!(read.fullscreen, None);
    assert_eq!(read.min_dimensions, None);
    assert_eq!(read.max_dimensions, None);
    assert!(read.visibility);
    assert!(!read.always_on_top);
    assert!(!read.maximized);
    assert!(!read.multitouch);
    assert!(read.resizable);
    assert!(!read.transparent);
}

#[test]
fn written_fields_are_read_back() {
    let read = DisplayConfig::from_document(&doc(vec![
        (FieldKey::Title, FieldValue::Text("My game".to_string())),
        (
            FieldKey::Fullscreen,
            FieldValue::Ident(MonitorIdent { index: 1, name: "HDMI-1".to_string() }),
        ),
        (FieldKey::Visibility, FieldValue::Flag(false)),
        (FieldKey::Resizable, FieldValue::Flag(false)),
    ]))
    .unwrap();
    assert_eq!(read.title, "My game");
    assert_eq!(read.fullscreen, Some(MonitorIdent { index: 1, name: "HDMI-1".to_string() }));
    assert!(!read.visibility);
    assert!(!read.resizable);
}

#[test]
fn null_means_unset_for_optional_fields() {
    let read = DisplayConfig::from_document(&doc(vec![
        (FieldKey::Fullscreen, FieldValue::Null),
        (FieldKey::Dimensions, FieldValue::Null),
        (FieldKey::MinDimensions, FieldValue::Null),
        (FieldKey::MaxDimensions, FieldValue::Null),
    ]))
    .unwrap();
    assert_eq!(read.fullscreen, None);
    assert_eq!(read.dimensions, None);
    assert_eq!(read.min_dimensions, None);
    assert_eq!(read.max_dimensions, None);
}

#[test]
fn wrong_shape_fails_with_the_field() {
    let e = DisplayConfig::from_document(&doc(vec![(
        FieldKey::Dimensions,
        FieldValue::Text("800x600".to_string()),
    )]))
    .unwrap_err();
    assert_eq!(e.field, FieldKey::Dimensions);

    let e = DisplayConfig::from_document(&doc(vec![(FieldKey::Title, FieldValue::Null)]))
        .unwrap_err();
    assert_eq!(e.field, FieldKey::Title);

    let e = DisplayConfig::from_document(&doc(vec![(FieldKey::Visibility, FieldValue::Null)]))
        .unwrap_err();
    assert_eq!(e.field, FieldKey::Visibility);

    let e = DisplayConfig::from_document(&doc(vec![(
        FieldKey::Fullscreen,
        FieldValue::Flag(true),
    )]))
    .unwrap_err();
    assert_eq!(e.field, FieldKey::Fullscreen);
}

#[test]
fn first_wrong_field_in_schema_order_is_reported() {
    // written in the opposite order; the schema order decides
    let e = DisplayConfig::from_document(&doc(vec![
        (FieldKey::Transparent, FieldValue::Pair(1, 2)),
        (FieldKey::Title, FieldValue::Flag(true)),
    ]))
    .unwrap_err();
    assert_eq!(e.field, FieldKey::Title);
}

#[test]
fn first_entry_wins_on_duplicate_keys() {
    let read = DisplayConfig::from_document(&doc(vec![
        (FieldKey::Maximized, FieldValue::Flag(true)),
        (FieldKey::Maximized, FieldValue::Flag(false)),
    ]))
    .unwrap();
    assert!(read.maximized);
}

#[test]
fn round_trip_of_a_full_config() {
    let c = DisplayConfig {
        title: "Window".to_string(),
        fullscreen: Some(MonitorIdent { index: 2, name: "DP-3".to_string() }),
        dimensions: Some((1280, 720)),
        min_dimensions: Some((320, 200)),
        max_dimensions: Some((3840, 2160)),
        visibility: false,
        always_on_top: true,
        decorations: false,
        maximized: true,
        multitouch: true,
        resizable: false,
        transparent: true,
    };
    let read = DisplayConfig::from_document(&c.to_document()).unwrap();
    assert_eq!(read, c);
}

#[test]
fn round_trip_of_the_default_config() {
    let c = DisplayConfig::default();
    let read = DisplayConfig::from_document(&c.to_document()).unwrap();
    assert_eq!(read, c);
}

#[test]
fn serialized_document_has_one_entry_per_field() {
    let d = DisplayConfig::default().to_document();
    assert_eq!(d.entries.len(), 12);
    assert_eq!(d.entries[0].key, FieldKey::Title);
    assert_eq!(d.entries[0].value, FieldValue::Text("Amethyst game".to_string()));
    assert_eq!(d.entries[1].key, FieldKey::Fullscreen);
    assert_eq!(d.entries[1].value, FieldValue::Null);
    assert_eq!(d.entries[11].key, FieldKey::Transparent);
    assert_eq!(d.entries[11].value, FieldValue::Flag(false));
}
