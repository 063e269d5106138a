use amethyst_window::config::DisplayConfig;
use amethyst_window::monitor::{MonitorEntry, MonitorHandle, MonitorIdent, MonitorList, MonitorsAccess};

fn one_monitor(name: &str, id: u64) -> MonitorList {
    MonitorList {
        entries: vec![MonitorEntry { name: name.to_string(), handle: MonitorHandle { id } }],
    }
}

#[test]
fn default_fields() {
    let c = DisplayConfig::default();
    assert_eq!(c.title, "Amethyst game");
    assert_eq!(c.fullscreen, None);
    assert_eq!(c.dimensions, None);
    assert_eq!(c.min_dimensions, None);
    assert_eq!(c.max_dimensions, None);
    assert!(c.visibility);
    assert!(!c.always_on_top);
    assert!(c.decorations);
    assert!(!c.maximized);
    assert!(!c.multitouch);
    assert!(c.resizable);
    assert!(c.transparent == false);
}

#[test]
fn builder_maps_fields_verbatim() {
    let c = DisplayConfig {
        title: "X".to_string(),
        decorations: false,
        resizable: false,
        dimensions: Some((800, 600)),
        min_dimensions: Some((100, 50)),
        max_dimensions: Some((1920, 1080)),
        visibility: false,
        always_on_top: true,
        maximized: true,
        multitouch: true,
        transparent: true,
        ..DisplayConfig::default()
    };
    let d = c.to_windowbuilder(&one_monitor("A", 1)).unwrap();
    assert_eq!(d.title, "X");
    assert!(!d.decorations);
    assert!(!d.resizable);
    assert_eq!(d.dimensions, Some((800, 600)));
    assert_eq!(d.min_dimensions, Some((100, 50)));
    assert_eq!(d.max_dimensions, Some((1920, 1080)));
    assert!(!d.visible);
    assert!(d.always_on_top);
    assert!(d.maximized);
    assert!(d.multitouch);
    assert!(d.transparent);
}

#[test]
fn builder_resolves_fullscreen() {
    let c = DisplayConfig {
        fullscreen: Some(MonitorIdent { index: 0, name: "A".to_string() }),
        ..DisplayConfig::default()
    };
    let d = c.to_windowbuilder(&one_monitor("A", 7)).unwrap();
    assert_eq!(d.fullscreen, Some(MonitorHandle { id: 7 }));
}

#[test]
fn builder_without_fullscreen_leaves_it_unset() {
    let d = DisplayConfig::default().to_windowbuilder(&one_monitor("A", 7)).unwrap();
    assert_eq!(d.fullscreen, None);
}

#[test]
fn builder_fails_on_out_of_range_ident() {
    let c = DisplayConfig {
        fullscreen: Some(MonitorIdent { index: 3, name: "A".to_string() }),
        ..DisplayConfig::default()
    };
    let e = c.to_windowbuilder(&one_monitor("A", 7)).unwrap_err();
    assert_eq!(e.ident, MonitorIdent { index: 3, name: "A".to_string() });
}

#[test]
fn builder_fails_on_stale_ident() {
    let c = DisplayConfig {
        fullscreen: Some(MonitorIdent { index: 0, name: "Old".to_string() }),
        ..DisplayConfig::default()
    };
    let e = c.to_windowbuilder(&one_monitor("New", 7)).unwrap_err();
    assert_eq!(e.ident.name, "Old");
}

#[test]
fn builder_never_sets_an_icon() {
    let d = DisplayConfig::default().to_windowbuilder(&one_monitor("A", 1)).unwrap();
    assert!(d.window_icon.is_none());
    let c = DisplayConfig {
        fullscreen: Some(MonitorIdent { index: 0, name: "A".to_string() }),
        maximized: true,
        ..DisplayConfig::default()
    };
    let d = c.to_windowbuilder(&one_monitor("A", 1)).unwrap();
    assert!(d.window_icon.is_none());
}

#[test]
fn no_cross_field_validation_of_dimensions() {
    // min_dimensions above max_dimensions is passed through without error
    let c = DisplayConfig {
        dimensions: Some((5000, 5000)),
        min_dimensions: Some((1920, 1080)),
        max_dimensions: Some((640, 480)),
        ..DisplayConfig::default()
    };
    let d = c.to_windowbuilder(&one_monitor("A", 1)).unwrap();
    assert_eq!(d.dimensions, Some((5000, 5000)));
    assert_eq!(d.min_dimensions, Some((1920, 1080)));
    assert_eq!(d.max_dimensions, Some((640, 480)));
}

#[test]
fn monitor_list_resolution() {
    let monitors = MonitorList {
        entries: vec![
            MonitorEntry { name: "A".to_string(), handle: MonitorHandle { id: 10 } },
            MonitorEntry { name: "B".to_string(), handle: MonitorHandle { id: 11 } },
        ],
    };
    let hit = monitors.resolve(&MonitorIdent { index: 1, name: "B".to_string() });
    assert_eq!(hit, Some(MonitorHandle { id: 11 }));
    let stale = monitors.resolve(&MonitorIdent { index: 1, name: "A".to_string() });
    assert_eq!(stale, None);
    let out_of_range = monitors.resolve(&MonitorIdent { index: 2, name: "B".to_string() });
    assert_eq!(out_of_range, None);
}
