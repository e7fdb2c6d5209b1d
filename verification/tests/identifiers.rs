use input_capture::ident::{hex_text, session_id_text, unique_part_text};
use input_capture::uuid_simple;

#[test]
fn numbers_are_written_in_lower_case_hexadecimal() {
    assert_eq!(hex_text(0), "0");
    assert_eq!(hex_text(15), "f");
    assert_eq!(hex_text(16), "10");
    assert_eq!(hex_text(0x0123_4567_89ab_cdef), "123456789abcdef");
    assert_eq!(hex_text(u128::MAX), "ffffffffffffffffffffffffffffffff");
    for n in 0..1000u128 {
        assert_eq!(hex_text(n), format!("{:x}", n));
    }
}

#[test]
fn a_clock_before_the_epoch_gives_zero() {
    assert_eq!(unique_part_text(None), "0");
    assert_eq!(unique_part_text(Some(171)), "ab");
}

#[test]
fn two_readings_of_the_clock_give_two_identifiers() {
    let first = session_id_text(&unique_part_text(Some(1_700_000_000_000_000_000)));
    let second = session_id_text(&unique_part_text(Some(1_700_000_000_000_000_001)));
    assert_eq!(first, "input_capture_17979cfe362a0000");
    assert_ne!(first, second);
}

#[test]
fn the_unique_part_is_the_time_in_nanoseconds() {
    let before = std::time::UNIX_EPOCH.elapsed().unwrap().as_nanos();
    let unique = u128::from_str_radix(&uuid_simple(), 16).unwrap();
    // The clock may be set back a little meanwhile, but not by an hour.
    assert!(unique.abs_diff(before) < 3_600_000_000_000);
}
