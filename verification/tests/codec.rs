use settings_store::codec::{bool_to_int, int_to_bool};

#[test]
fn encode_is_strict() {
    assert_eq!(bool_to_int(true), 1);
    assert_eq!(bool_to_int(false), 0);
}

#[test]
fn decode_is_tolerant() {
    assert_eq!(int_to_bool(0), false);
    assert_eq!(int_to_bool(1), true);
    assert_eq!(int_to_bool(2), true);
    assert_eq!(int_to_bool(-1), true);
    assert_eq!(int_to_bool(i32::MAX), true);
    assert_eq!(int_to_bool(i32::MIN), true);
}

#[test]
fn bool_round_trip() {
    assert_eq!(int_to_bool(bool_to_int(true)), true);
    assert_eq!(int_to_bool(bool_to_int(false)), false);
}
