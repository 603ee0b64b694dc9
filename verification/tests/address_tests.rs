use color_chain::address::{parse_address, Address, DisplayForm, ADDRESS_LEN, SHORT_DIGITS};
use color_chain::error::BridgeError;

const SAMPLE: &str = "0x7e5f4552091a69125d5dfcb7b8c2659029395bdf";

fn sample_bytes() -> [u8; 20] {
    [
        0x7e, 0x5f, 0x45, 0x52, 0x09, 0x1a, 0x69, 0x12, 0x5d, 0x5d, 0xfc, 0xb7, 0xb8, 0xc2, 0x65,
        0x90, 0x29, 0x39, 0x5b, 0xdf,
    ]
}

#[test]
fn parse_reads_lower_case_with_prefix() {
    let address = parse_address(SAMPLE).unwrap();
    assert_eq!(address.to_bytes(), sample_bytes());
}

#[test]
fn parse_reads_mixed_case() {
    let address = parse_address("0x7E5F4552091A69125d5DfCb7b8C2659029395Bdf").unwrap();
    assert_eq!(address.to_bytes(), sample_bytes());
}

#[test]
fn parse_reads_text_without_prefix() {
    let address = parse_address("7e5f4552091a69125d5dfcb7b8c2659029395bdf").unwrap();
    assert_eq!(address.to_bytes(), sample_bytes());
}

#[test]
fn parse_skips_blanks_among_the_digits() {
    let address = parse_address("0x7e5f4552 091a69125d\t5dfcb7b8c2\n659029395bd\rf ").unwrap();
    assert_eq!(address.to_bytes(), sample_bytes());
}

#[test]
fn parse_reads_the_most_significant_byte_first() {
    let address = parse_address("0x0100000000000000000000000000000000000002").unwrap();
    let bytes = address.to_bytes();
    assert_eq!(bytes[0], 1);
    assert_eq!(bytes[19], 2);
    assert!(bytes[1..19].iter().all(|b| *b == 0));
}

#[test]
fn parse_refuses_thirty_nine_digits() {
    let r = parse_address("0x7e5f4552091a69125d5dfcb7b8c2659029395bd");
    assert!(matches!(r, Err(BridgeError::InvalidAddress)));
}

#[test]
fn parse_refuses_forty_one_digits() {
    let r = parse_address("0x7e5f4552091a69125d5dfcb7b8c2659029395bdf0");
    assert!(matches!(r, Err(BridgeError::InvalidAddress)));
}

#[test]
fn parse_refuses_forty_two_digits() {
    let r = parse_address("0x7e5f4552091a69125d5dfcb7b8c2659029395bdf00");
    assert!(matches!(r, Err(BridgeError::InvalidAddress)));
}

#[test]
fn parse_refuses_a_character_that_is_no_digit() {
    let r = parse_address("0x7e5f4552091a69125d5dfcb7b8c2659029395bdg");
    assert!(matches!(r, Err(BridgeError::InvalidAddress)));
}

#[test]
fn parse_refuses_a_character_outside_ascii() {
    let r = parse_address("0x7e5f4552091a69125d5dfcb7b8c2659029395b\u{e9}");
    assert!(matches!(r, Err(BridgeError::InvalidAddress)));
}

#[test]
fn parse_refuses_an_upper_case_prefix() {
    let r = parse_address("0X7e5f4552091a69125d5dfcb7b8c2659029395bdf");
    assert!(matches!(r, Err(BridgeError::InvalidAddress)));
}

#[test]
fn parse_refuses_a_blank_before_the_prefix() {
    let r = parse_address(" 0x7e5f4552091a69125d5dfcb7b8c2659029395bdf");
    assert!(matches!(r, Err(BridgeError::InvalidAddress)));
}

#[test]
fn parse_strips_the_prefix_once() {
    let r = parse_address("0x0x7e5f4552091a69125d5dfcb7b8c2659029395b");
    assert!(matches!(r, Err(BridgeError::InvalidAddress)));
}

#[test]
fn parse_refuses_the_empty_text() {
    assert!(matches!(parse_address(""), Err(BridgeError::InvalidAddress)));
    assert!(matches!(parse_address("0x"), Err(BridgeError::InvalidAddress)));
}

#[test]
fn canonical_form_is_prefix_and_forty_lower_case_digits() {
    let shown = Address::from_bytes(sample_bytes()).to_display(DisplayForm::Canonical);
    assert_eq!(shown, SAMPLE);
    assert_eq!(shown.len(), 2 + 2 * ADDRESS_LEN);
}

#[test]
fn short_form_is_prefix_and_last_fourteen_digits() {
    let shown = Address::from_bytes(sample_bytes()).to_display(DisplayForm::Short);
    assert_eq!(shown, "0xc2659029395bdf");
    assert_eq!(shown.len(), 2 + SHORT_DIGITS);
    assert_eq!(&shown[2..], &SAMPLE[SAMPLE.len() - 14..]);
}

#[test]
fn short_form_of_a_counting_address() {
    let mut bytes = [0u8; 20];
    for (i, b) in bytes.iter_mut().enumerate() {
        *b = (0xab_u8).wrapping_add(i as u8 * 0x11);
    }
    let address = Address::from_bytes(bytes);
    let canonical = address.to_display(DisplayForm::Canonical);
    let short = address.to_display(DisplayForm::Short);
    assert_eq!(canonical.len(), 42);
    assert_eq!(short, format!("0x{}", &canonical[28..]));
}

#[test]
fn display_puts_the_high_nibble_first() {
    let mut bytes = [0u8; 20];
    bytes[0] = 0x1f;
    bytes[19] = 0xa0;
    let shown = Address::from_bytes(bytes).to_display(DisplayForm::Canonical);
    assert_eq!(shown, "0x1f000000000000000000000000000000000000a0");
}

#[test]
fn canonical_form_reads_back() {
    let address = Address::from_bytes(sample_bytes());
    let again = parse_address(&address.to_display(DisplayForm::Canonical)).unwrap();
    assert!(address.same_as(&again));
}

#[test]
fn short_form_names_no_address() {
    let shown = Address::from_bytes(sample_bytes()).to_display(DisplayForm::Short);
    assert!(matches!(parse_address(&shown), Err(BridgeError::InvalidAddress)));
}

#[test]
fn canonical_forms_tell_addresses_apart() {
    let a = Address::from_bytes(sample_bytes());
    let mut other = sample_bytes();
    other[0] ^= 0x10;
    let b = Address::from_bytes(other);
    assert!(!a.same_as(&b));
    assert_ne!(a.to_display(DisplayForm::Canonical), b.to_display(DisplayForm::Canonical));
    assert_eq!(a.to_display(DisplayForm::Short), b.to_display(DisplayForm::Short));
}

#[test]
fn same_as_compares_every_byte() {
    let a = Address::from_bytes(sample_bytes());
    let mut other = sample_bytes();
    other[19] ^= 1;
    assert!(a.same_as(&Address::from_bytes(sample_bytes())));
    assert!(!a.same_as(&Address::from_bytes(other)));
}
