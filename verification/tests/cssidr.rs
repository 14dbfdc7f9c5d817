use constance::cssidr::CSSIDRAccessor;

#[test]
fn cssidr_fields_of_a_typical_value() {
    // 32 KiB, 4-way, 64-byte lines: LineSize 2, Associativity 3, NumSets 127
    let value: u32 = 2 | (3 << 3) | (127 << 13);
    let a = CSSIDRAccessor;
    assert_eq!(a.line_size(value), 2);
    assert_eq!(a.associativity(value), 3);
    assert_eq!(a.num_sets(value), 127);
}

#[test]
fn cssidr_fields_ignore_the_top_bits() {
    let a = CSSIDRAccessor;
    let value: u32 = 0xffff_ffff;
    assert_eq!(a.line_size(value), 0x7);
    assert_eq!(a.associativity(value), 0x3ff);
    assert_eq!(a.num_sets(value), 0x7fff);
    assert_eq!(a.line_size(0xf000_0000), 0);
    assert_eq!(a.associativity(0xf000_0000), 0);
    assert_eq!(a.num_sets(0xf000_0000), 0);
}

#[test]
fn cssidr_fields_tile_the_low_bits() {
    let a = CSSIDRAccessor;
    for value in [0u32, 0x1234_5678, 0xdead_beef, 0x0fff_ffff, 0xf00f_f00f] {
        let back = a.line_size(value) | (a.associativity(value) << 3) | (a.num_sets(value) << 13);
        assert_eq!(back, value & 0x0fff_ffff);
    }
}
