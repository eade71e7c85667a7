use recorder::monitor::MonitorInfo;
use recorder::samples::chunk_from_i16;
use recorder::samples::chunk_from_i32;
use recorder::samples::samples_to_bytes;
use recorder::text::u128_to_dec_string;
use recorder::text::u64_to_dec_string;
use recorder::text::u64_to_hex_string;

#[test]
fn i16_capture_converts_to_high_byte() {
    let chunk = chunk_from_i16(&vec![0, 256, -256, i16::MAX, i16::MIN, 255]);
    assert_eq!(chunk, vec![0, 1, -1, 127, -128, 0]);
}

#[test]
fn i32_capture_converts_to_high_byte() {
    let chunk = chunk_from_i32(&vec![0, 1 << 24, -(1 << 24), i32::MAX, i32::MIN]);
    assert_eq!(chunk, vec![0, 1, -1, 127, -128]);
}

#[test]
fn wire_bytes_are_twos_complement() {
    assert_eq!(samples_to_bytes(&vec![0, 1, -1, 127, -128]), vec![0u8, 1, 255, 127, 128]);
    assert_eq!(samples_to_bytes(&Vec::new()), Vec::<u8>::new());
}

#[test]
fn decimal_rendering_matches_std() {
    for n in [0u64, 1, 9, 10, 43001, 48000, u64::MAX] {
        assert_eq!(u64_to_dec_string(n), n.to_string());
    }
    assert_eq!(u128_to_dec_string(340_282_366_920_938_463_463_374_607_431_768_211_455), u128::MAX.to_string());
    assert_eq!(u128_to_dec_string(0), "0");
}

#[test]
fn hex_rendering_matches_std() {
    for n in [0u64, 1, 15, 16, 255, 0xdead_beef, u64::MAX] {
        assert_eq!(u64_to_hex_string(n), format!("{:x}", n));
    }
}

#[test]
fn monitor_info_packages_geometry() {
    let m = MonitorInfo::new((1920, 1080), (-10, 20));
    assert_eq!(m.size, (1920, 1080));
    assert_eq!(m.position, (-10, 20));
}
