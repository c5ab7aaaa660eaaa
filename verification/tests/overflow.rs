use intersections_line::overflow::OInt32;

fn registers(value: i32) -> (i32, i32, i32) {
    let r = OInt32::new(value);
    (r.exp(), r.rem(), r.sign())
}

#[test]
fn zero_has_empty_registers() {
    assert_eq!(registers(0), (0, 0, 0));
}

#[test]
fn registers_hold_size_and_sign() {
    // 5 takes 3 bits; 5 | 3 = 7
    assert_eq!(registers(5), (3, 7, 1));
    // 1 takes 1 bit
    assert_eq!(registers(1), (1, 1, 1));
    // 8 takes 4 bits; 8 | 4 = 12
    assert_eq!(registers(8), (4, 12, 1));
    // -5 has the magnitude 5; -5 | 3 = -5
    assert_eq!(registers(-5), (3, -5, -1));
    assert_eq!(registers(-1), (1, -1, -1));
    assert_eq!(registers(i32::MAX), (31, i32::MAX, 1));
    assert_eq!(registers(i32::MIN), (32, i32::MIN | 32, -1));
    assert_eq!(registers(i32::MIN + 1), (31, (i32::MIN + 1) | 31, -1));
}
