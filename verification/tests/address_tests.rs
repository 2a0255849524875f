use buds_bt::address::Address;

#[test]
fn parse_canonical_address() {
    let a = Address::parse("AA:BB:CC:DD:EE:FF").expect("canonical address must parse");
    assert_eq!(a.octets, [0xAA, 0xBB, 0xCC, 0xDD, 0xEE, 0xFF]);
}

#[test]
fn parse_is_case_insensitive() {
    let a = Address::parse("aa:bb:cc:dd:ee:ff").expect("lower-case address must parse");
    assert_eq!(a.octets, [0xAA, 0xBB, 0xCC, 0xDD, 0xEE, 0xFF]);
    let b = Address::parse("Aa:0b:C1:d2:9E:f0").expect("mixed-case address must parse");
    assert_eq!(b.octets, [0xAA, 0x0B, 0xC1, 0xD2, 0x9E, 0xF0]);
}

#[test]
fn parse_zero_address() {
    let a = Address::parse("00:00:00:00:00:00").expect("zero address must parse");
    assert_eq!(a.octets, [0, 0, 0, 0, 0, 0]);
}

#[test]
fn parse_rejects_malformed_inputs() {
    assert!(Address::parse("not-an-address").is_none());
    assert!(Address::parse("").is_none());
    assert!(Address::parse("AA:BB:CC:DD:EE").is_none());
    assert!(Address::parse("AA:BB:CC:DD:EE:F").is_none());
    assert!(Address::parse("AA:BB:CC:DD:EE:FF:00").is_none());
    assert!(Address::parse("AA-BB-CC-DD-EE-FF").is_none());
    assert!(Address::parse("AA:BB:CC:DD:EE:FG").is_none());
    assert!(Address::parse("AABBCCDDEEFF00000").is_none());
    assert!(Address::parse("AA:BB:CC:DD:EE:FF ").is_none());
    assert!(Address::parse(" AA:BB:CC:DD:EE:FF").is_none());
}

#[test]
fn render_is_canonical_upper_case() {
    let a = Address { octets: [0xAA, 0x0B, 0xC1, 0xD2, 0x9E, 0xF0] };
    assert_eq!(a.to_canonical_string(), "AA:0B:C1:D2:9E:F0");
}

#[test]
fn render_pads_small_octets() {
    let a = Address { octets: [0, 1, 2, 0x0F, 0x10, 0xFF] };
    assert_eq!(a.to_canonical_string(), "00:01:02:0F:10:FF");
}

#[test]
fn canonical_string_round_trips_exactly() {
    let input = "AA:BB:CC:DD:EE:FF";
    let a = Address::parse(input).expect("must parse");
    assert_eq!(a.to_canonical_string(), input);
}

#[test]
fn lower_case_input_round_trips_to_upper_case() {
    let a = Address::parse("aa:bb:cc:dd:ee:ff").expect("must parse");
    assert_eq!(a.to_canonical_string(), "AA:BB:CC:DD:EE:FF");
}

#[test]
fn parse_after_render_restores_octets() {
    let a = Address { octets: [7, 0x5C, 0xE3, 0x2A, 0x91, 0x46] };
    let b = Address::parse(&a.to_canonical_string()).expect("rendered form must parse");
    assert_eq!(b.octets, a.octets);
}

#[test]
fn hex_digit_value_exact_values() {
    assert_eq!(buds_bt::address::hex_digit_value('0'), Some(0));
    assert_eq!(buds_bt::address::hex_digit_value('9'), Some(9));
    assert_eq!(buds_bt::address::hex_digit_value('a'), Some(10));
    assert_eq!(buds_bt::address::hex_digit_value('f'), Some(15));
    assert_eq!(buds_bt::address::hex_digit_value('A'), Some(10));
    assert_eq!(buds_bt::address::hex_digit_value('F'), Some(15));
    assert_eq!(buds_bt::address::hex_digit_value('g'), None);
    assert_eq!(buds_bt::address::hex_digit_value(':'), None);
}
