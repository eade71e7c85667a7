use recorder::device::DeviceChoice;
use recorder::device::device_listing;
use recorder::device::device_name_hash;
use recorder::device::get_device_hash;
use recorder::device::select_input_device;

/// The identifier follows 64-bit FNV-1a over the name's characters,
/// rendered as lowercase hex. Recomputed independently here.
fn expected_id(name: &str) -> String {
    let mut h: u64 = 0xcbf2_9ce4_8422_2325;
    for c in name.chars() {
        h = (h ^ (c as u64)).wrapping_mul(0x0000_0100_0000_01b3);
    }
    format!("{:x}", h)
}

#[test]
fn device_hash_matches_fnv1a_hex() {
    assert_eq!(get_device_hash("Microphone"), expected_id("Microphone"));
    assert_eq!(get_device_hash(""), expected_id(""));
    assert_eq!(get_device_hash("USB Audio #2"), expected_id("USB Audio #2"));
}

#[test]
fn device_hash_is_reproducible() {
    let a = get_device_hash("Built-in Audio");
    let b = get_device_hash("Built-in Audio");
    assert_eq!(a, b);
    assert_ne!(get_device_hash("Built-in Audio"), get_device_hash("Built-in Audi"));
}

#[test]
fn device_hash_handles_unicode_names() {
    let name = "Микрофон";
    assert_eq!(get_device_hash(name), expected_id(name));
    assert_eq!(device_name_hash(name), {
        let mut h: u64 = 0xcbf2_9ce4_8422_2325;
        for c in name.chars() {
            h = (h ^ (c as u64)).wrapping_mul(0x0000_0100_0000_01b3);
        }
        h
    });
}

#[test]
fn listing_pairs_each_name_with_its_id() {
    let names = vec!["alpha".to_string(), "beta".to_string()];
    let list = device_listing(&names);
    assert_eq!(list.len(), 2);
    assert_eq!(list[0].name, "alpha");
    assert_eq!(list[0].id, expected_id("alpha"));
    assert_eq!(list[1].name, "beta");
    assert_eq!(list[1].id, expected_id("beta"));
}

#[test]
fn empty_selector_means_system_default() {
    let names = vec!["alpha".to_string()];
    assert!(matches!(select_input_device("", &names), DeviceChoice::SystemDefault));
}

#[test]
fn selector_finds_first_matching_device() {
    let names = vec!["alpha".to_string(), "beta".to_string(), "beta".to_string()];
    let id = get_device_hash("beta");
    match select_input_device(id.as_str(), &names) {
        DeviceChoice::Index(i) => assert_eq!(i, 1),
        _ => panic!("expected a match"),
    }
}

#[test]
fn unknown_selector_matches_nothing() {
    let names = vec!["alpha".to_string()];
    assert!(matches!(select_input_device("feedbeef", &names), DeviceChoice::NoMatch));
    let empty: Vec<String> = Vec::new();
    assert!(matches!(select_input_device("feedbeef", &empty), DeviceChoice::NoMatch));
}
