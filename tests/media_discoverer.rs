use vlc::media_discoverer::{
    MediaDiscoverer, MediaDiscovererCategory, MediaDiscovererDescription, RawDescription,
};

fn raw(name: Option<&str>, long_name: Option<&str>, cat: u32) -> RawDescription {
    RawDescription {
        name: name.map(|s| s.to_string()),
        long_name: long_name.map(|s| s.to_string()),
        cat,
    }
}

const ALL: [MediaDiscovererCategory; 4] = [
    MediaDiscovererCategory::Devices,
    MediaDiscovererCategory::LAN,
    MediaDiscovererCategory::Podcasts,
    MediaDiscovererCategory::LocalDirs,
];

#[test]
fn category_tags_are_the_native_values() {
    assert_eq!(MediaDiscovererCategory::Devices.to_tag(), 0);
    assert_eq!(MediaDiscovererCategory::LAN.to_tag(), 1);
    assert_eq!(MediaDiscovererCategory::Podcasts.to_tag(), 2);
    assert_eq!(MediaDiscovererCategory::LocalDirs.to_tag(), 3);
}

#[test]
fn category_tag_round_trip() {
    for c in ALL {
        assert_eq!(MediaDiscovererCategory::from_tag(c.to_tag()), Some(c));
    }
    for t in 0..4u32 {
        assert_eq!(MediaDiscovererCategory::from_tag(t).unwrap().to_tag(), t);
    }
}

#[test]
fn unknown_tag_has_no_category() {
    assert_eq!(MediaDiscovererCategory::from_tag(4), None);
    assert_eq!(MediaDiscovererCategory::from_tag(u32::MAX), None);
}

#[test]
fn enumerated_records_keep_their_category() {
    for c in ALL {
        let records = vec![raw(Some("a"), Some("A"), c.to_tag()), raw(Some("b"), Some("B"), c.to_tag())];
        let list = MediaDiscoverer::list_get(&records).unwrap();
        assert_eq!(list.len(), 2);
        for d in &list {
            assert_eq!(d.cat, c);
            assert_eq!(d.cat.to_tag(), c.to_tag());
        }
    }
}

#[test]
fn unrecognized_backend_gives_absence() {
    // the native constructor returns null for "nonexistent-backend-xyz"
    assert!(MediaDiscoverer::new(0).is_none());
}

#[test]
fn non_null_handle_is_wrapped() {
    let d = MediaDiscoverer::new(0x1000).unwrap();
    assert_eq!(d.raw(), 0x1000);
}

#[test]
fn empty_enumeration_is_a_failure() {
    let records: Vec<RawDescription> = Vec::new();
    assert_eq!(MediaDiscoverer::list_get(&records), Err(()));
}

#[test]
fn enumeration_decodes_each_record_in_order() {
    let records = vec![
        raw(Some("upnp"), Some("Universal Plug'n'Play"), 1),
        raw(Some("sap"), None, 1),
        raw(None, Some("Podcasts"), 2),
    ];
    let list = MediaDiscoverer::list_get(&records).unwrap();
    assert_eq!(
        list,
        vec![
            MediaDiscovererDescription {
                name: "upnp".to_string(),
                long_name: "Universal Plug'n'Play".to_string(),
                cat: MediaDiscovererCategory::LAN,
            },
            MediaDiscovererDescription {
                name: "sap".to_string(),
                long_name: String::new(),
                cat: MediaDiscovererCategory::LAN,
            },
            MediaDiscovererDescription {
                name: String::new(),
                long_name: "Podcasts".to_string(),
                cat: MediaDiscovererCategory::Podcasts,
            },
        ]
    );
}

#[test]
fn unreadable_text_becomes_empty() {
    let d = MediaDiscovererDescription::from_raw(&raw(None, None, 3));
    assert_eq!(d.name, "");
    assert_eq!(d.long_name, "");
    assert_eq!(d.cat, MediaDiscovererCategory::LocalDirs);
}

#[test]
fn start_maps_status() {
    let d = MediaDiscoverer::new(8).unwrap();
    assert_eq!(d.start(0), Ok(()));
    assert_eq!(d.start(-1), Err(()));
    assert_eq!(d.start(1), Err(()));
}

#[test]
fn start_stop_start() {
    let d = MediaDiscoverer::new(8).unwrap();
    assert_eq!(d.start(0), Ok(()));
    assert_eq!(d.stop(), 8);
    assert_eq!(d.start(0), Ok(()));
    assert_eq!(d.raw(), 8);
}

#[test]
fn stop_twice_keeps_wrapper_usable() {
    let d = MediaDiscoverer::new(16).unwrap();
    assert_eq!(d.stop(), 16);
    assert_eq!(d.stop(), 16);
    assert_eq!(d.start(0), Ok(()));
    assert!(!d.is_running(0));
}

#[test]
fn running_status_maps_to_bool() {
    let d = MediaDiscoverer::new(16).unwrap();
    assert!(!d.is_running(0));
    assert!(d.is_running(1));
    assert!(d.is_running(-5));
}

#[test]
fn media_list_null_is_absence() {
    let d = MediaDiscoverer::new(16).unwrap();
    assert!(d.media_list(0).is_none());
    assert_eq!(d.media_list(32).unwrap().raw(), 32);
}

#[test]
fn release_hands_handle_back_once() {
    let mut d = MediaDiscoverer::new(64).unwrap();
    assert_eq!(d.release(), Some(64));
    assert_eq!(d.release(), None);
    assert_eq!(d.release(), None);
}
