use visio::grid::{stringify_distances, u16_to_dec};

#[test]
fn decimal_rendering() {
    assert_eq!(u16_to_dec(0), "0");
    assert_eq!(u16_to_dec(7), "7");
    assert_eq!(u16_to_dec(10), "10");
    assert_eq!(u16_to_dec(533), "533");
    assert_eq!(u16_to_dec(1300), "1300");
    assert_eq!(u16_to_dec(65535), "65535");
}

#[test]
fn grid_layout() {
    let distances: Vec<u16> = (0u16..16).collect();
    let s = stringify_distances(&distances);
    assert_eq!(s, "0  1  2  3\n4  5  6  7\n8  9  10  11\n12  13  14  15");
}

#[test]
fn grid_of_uniform_readings() {
    let distances: Vec<u16> = vec![1300; 16];
    let s = stringify_distances(&distances);
    assert_eq!(
        s,
        "1300  1300  1300  1300\n1300  1300  1300  1300\n1300  1300  1300  1300\n1300  1300  1300  1300"
    );
}
