use gopro_ble::locator::{find_device, NameFilter};

fn names(items: &[Option<&str>]) -> Vec<Option<String>> {
    items.iter().map(|n| n.map(|s| s.to_string())).collect()
}

#[test]
fn no_match_is_not_found() {
    let f = NameFilter::camera();
    assert_eq!(find_device(&names(&[]), &f), None);
    assert_eq!(find_device(&names(&[Some("Garmin"), Some("Pixel 7"), None]), &f), None);
}

#[test]
fn first_match_is_selected() {
    let f = NameFilter::camera();
    let n = names(&[Some("Speaker"), Some("GoPro 1234"), Some("GoPro HERO9")]);
    assert_eq!(find_device(&n, &f), Some(1));
    assert_eq!(find_device(&names(&[Some("GoPro")]), &f), Some(0));
}

#[test]
fn unnamed_peripheral_is_skipped() {
    let f = NameFilter::camera();
    assert_eq!(find_device(&names(&[None, None, Some("my GoPro")]), &f), Some(2));
    assert_eq!(find_device(&names(&[None]), &f), None);
    let any = NameFilter { fragment: String::new() };
    assert_eq!(find_device(&names(&[None, Some("")]), &any), Some(1));
}

#[test]
fn filter_matches_substrings_only() {
    let f = NameFilter::camera();
    assert!(f.matches(&Some("GoPro HERO9".to_string())));
    assert!(f.matches(&Some("xGoPro".to_string())));
    assert!(!f.matches(&Some("Gopro".to_string())));
    assert!(!f.matches(&Some("GoPr".to_string())));
    assert!(!f.matches(&None));
}
