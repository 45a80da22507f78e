//! Decimal rendering, parsing, attribute facets, and byte-level reads.

use fosho::attributes::{find_attribute, Attribute};
use fosho::error::FoshoErrors;
use fosho::keys::Pubkey;
use fosho::state::event::EventType;
use fosho::text::{format_u64, parse_u32, parse_u64, str_eq};
use fosho::utils::{
    create_attribute, get_capacity_from_attributes, get_event_ends_at_from_attributes,
    get_reg_starts_at_from_attributes, get_spl_token_amount,
};

fn attr(key: &str, value: &str) -> Attribute {
    create_attribute(key, value.to_string())
}

#[test]
fn parse_u64_accepts_digit_strings() {
    assert_eq!(parse_u64("0"), Some(0));
    assert_eq!(parse_u64("7"), Some(7));
    assert_eq!(parse_u64("123"), Some(123));
    assert_eq!(parse_u64("007"), Some(7));
    assert_eq!(parse_u64("18446744073709551615"), Some(u64::MAX));
}

#[test]
fn parse_u64_rejects_everything_else() {
    assert_eq!(parse_u64(""), None);
    assert_eq!(parse_u64("12a"), None);
    assert_eq!(parse_u64("-5"), None);
    assert_eq!(parse_u64("+5"), None);
    assert_eq!(parse_u64(" 5"), None);
    assert_eq!(parse_u64("18446744073709551616"), None);
}

#[test]
fn parse_u32_bounds() {
    assert_eq!(parse_u32("4294967295"), Some(u32::MAX));
    assert_eq!(parse_u32("4294967296"), None);
    assert_eq!(parse_u32("12"), Some(12));
}

#[test]
fn format_u64_renders_decimal() {
    assert_eq!(format_u64(0).as_str(), "0");
    assert_eq!(format_u64(7).as_str(), "7");
    assert_eq!(format_u64(40).as_str(), "40");
    assert_eq!(format_u64(12345).as_str(), "12345");
    assert_eq!(format_u64(u64::MAX).as_str(), "18446744073709551615");
}

#[test]
fn format_then_parse_round_trips() {
    for n in [0u64, 1, 9, 10, 99, 100, 4096, 1_000_000_007, u64::MAX] {
        assert_eq!(parse_u64(format_u64(n).as_str()), Some(n));
    }
}

#[test]
fn str_eq_compares_by_characters() {
    assert!(str_eq("Capacity", "Capacity"));
    assert!(!str_eq("Capacity", "Location"));
    assert!(!str_eq("Cap", "Capacity"));
    assert!(str_eq("", ""));
}

#[test]
fn find_attribute_takes_first_match() {
    let attrs = vec![attr("K", "1"), attr("K", "2"), attr("L", "3")];
    let found = find_attribute(&attrs, "K").expect("present");
    assert_eq!(found.value.as_str(), "1");
    assert!(find_attribute(&attrs, "M").is_none());
}

#[test]
fn missing_capacity_reads_as_unconstrained() {
    let attrs: Vec<Attribute> = Vec::new();
    assert_eq!(get_capacity_from_attributes(&attrs), Ok(0));
    assert_eq!(get_event_ends_at_from_attributes(&attrs), Ok(0));
}

#[test]
fn configured_capacity_reads_back() {
    let attrs = vec![attr("Capacity", "3")];
    assert_eq!(get_capacity_from_attributes(&attrs), Ok(3));
}

#[test]
fn malformed_capacity_is_overflow_error() {
    let attrs = vec![attr("Capacity", "4294967296")];
    assert_eq!(
        get_capacity_from_attributes(&attrs),
        Err(FoshoErrors::NumericalOverflow)
    );
    let attrs = vec![attr("Registration Starts At", "soon")];
    assert_eq!(
        get_reg_starts_at_from_attributes(&attrs),
        Err(FoshoErrors::NumericalOverflow)
    );
}

#[test]
fn token_amount_is_little_endian_word_at_64() {
    let mut data = vec![0u8; 165];
    data[64] = 0x01;
    data[65] = 0x02;
    assert_eq!(get_spl_token_amount(&data), Ok(0x0201));
    let mut rich = vec![0u8; 72];
    for (i, b) in rich.iter_mut().enumerate().take(72).skip(64) {
        *b = (i - 64) as u8 + 1;
    }
    assert_eq!(get_spl_token_amount(&rich), Ok(0x0807060504030201));
}

#[test]
fn event_type_labels() {
    assert_eq!(EventType::InPerson.label().as_str(), "InPerson");
    assert_eq!(EventType::Webinar.label().as_str(), "Webinar");
    assert_eq!(
        EventType::Other("Hackathon".to_string()).label().as_str(),
        "Other(Hackathon)"
    );
}

#[test]
fn pubkeys_compare_by_identity() {
    let a = Pubkey::new(1);
    let b = Pubkey::new(1);
    let c = Pubkey::new(2);
    assert!(fosho::utils::cmp_pubkeys(&a, &b));
    assert!(!fosho::utils::cmp_pubkeys(&a, &c));
    assert_eq!(
        fosho::utils::assert_keys_equal(a, c),
        Err(FoshoErrors::PublicKeyMismatch)
    );
    assert_eq!(fosho::utils::assert_keys_equal(a, b), Ok(()));
}
