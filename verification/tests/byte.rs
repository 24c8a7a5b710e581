use fsdr_blocks::byte::pack_8_in_1;

#[test]
fn packs_bits_most_significant_first() {
    assert_eq!(pack_8_in_1(&[1, 0, 0, 0, 0, 0, 0, 0]), 0x80);
    assert_eq!(pack_8_in_1(&[0, 0, 0, 0, 0, 0, 0, 1]), 0x01);
    assert_eq!(pack_8_in_1(&[1, 0, 1, 0, 0, 1, 0, 1]), 0xa5);
    assert_eq!(pack_8_in_1(&[1, 1, 1, 1, 1, 1, 1, 1]), 0xff);
    assert_eq!(pack_8_in_1(&[0, 0, 0, 0, 0, 0, 0, 0]), 0x00);
}

#[test]
fn packing_drops_bits_shifted_out() {
    // An item that is more than one bit wide spills into its neighbours.
    assert_eq!(pack_8_in_1(&[3, 0, 0, 0, 0, 0, 0, 0]), 0x80);
    assert_eq!(pack_8_in_1(&[0, 0, 0, 0, 0, 0, 0, 3]), 0x03);
    assert_eq!(pack_8_in_1(&[0, 0, 0, 0, 0, 0, 3, 0]), 0x06);
}
