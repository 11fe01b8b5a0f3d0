use phantom_id::digits::DigitSequence;
use phantom_id::generate::{
    assemble_card_identifier, assemble_device_identifier, generate_batch,
    generate_card_identifier, generate_device_identifier, CARD_IDENTIFIER_WIDTH,
};
use phantom_id::luhn::{validate_luhn, verify};
use phantom_id::prefix::{device_prefix_at, lookup_card_prefix, lookup_device_prefix};
use phantom_id::structure::decode_device_identifier;

const DEVICE_PREFIXES: [&str; 5] = ["35332509", "35391110", "35455506", "86794003", "35904211"];

fn assert_device_identifier(identifier: &str) {
    assert_eq!(identifier.len(), 15);
    assert!(identifier.chars().all(|c| c.is_ascii_digit()));
    assert!(validate_luhn(identifier));
    assert!(verify(&DigitSequence::from_text(identifier)));
}

#[test]
fn device_identifier_of_known_manufacturers() {
    let known = [
        ("samsung", "35332509"),
        ("apple", "35391110"),
        ("google", "35455506"),
        ("xiaomi", "86794003"),
    ];
    for (manufacturer, prefix) in known.iter() {
        for _ in 0..20 {
            let identifier = generate_device_identifier(Some(manufacturer));
            assert_device_identifier(&identifier);
            assert!(identifier.starts_with(prefix));
        }
    }
}

#[test]
fn device_identifier_without_manufacturer() {
    for _ in 0..100 {
        let identifier = generate_device_identifier(None);
        assert_device_identifier(&identifier);
        assert!(DEVICE_PREFIXES.contains(&&identifier[0..8]));
    }
}

#[test]
fn device_identifier_of_unknown_manufacturer() {
    for manufacturer in ["nokia", "Samsung", "APPLE", "", "samsung "].iter() {
        for _ in 0..20 {
            let identifier = generate_device_identifier(Some(manufacturer));
            assert_device_identifier(&identifier);
            assert!(DEVICE_PREFIXES.contains(&&identifier[0..8]));
        }
    }
}

#[test]
fn generated_device_identifier_decodes() {
    let identifier = generate_device_identifier(Some("google"));
    let view = decode_device_identifier(&identifier).expect("fifteen characters");
    assert_eq!(view.tac, "35455506");
    assert_eq!(view.reporting_body, "35");
    assert_eq!(view.device_type, "455506");
    assert!(view.checksum_valid);
}

#[test]
fn assembled_device_identifier() {
    let serial = DigitSequence::from_text("123456");
    assert_eq!(assemble_device_identifier("35332509", &serial), "353325091234561");
    let serial = DigitSequence::from_text("323751");
    assert_eq!(assemble_device_identifier("49015420", &serial), "490154203237518");
    let serial = DigitSequence::from_text("000000");
    assert_eq!(assemble_device_identifier("00000000", &serial), "000000000000000");
}

#[test]
fn assembled_device_identifier_of_other_widths() {
    let serial = DigitSequence::from_text("");
    assert_eq!(assemble_device_identifier("", &serial), "0");
    let serial = DigitSequence::from_text("5");
    assert_eq!(assemble_device_identifier("0", &serial), "059");
}

#[test]
fn assembled_card_identifier() {
    let serial = DigitSequence::from_text("000000000012");
    assert_eq!(assemble_card_identifier("8914800", &serial), "8914800000000000012");
    let serial = DigitSequence::from_text("");
    assert_eq!(assemble_card_identifier("8901100", &serial), "8901100");
}

#[test]
fn card_identifier_of_known_providers() {
    let known = [("verizon", "8914800"), ("att", "8901410"), ("tmobile", "8901260")];
    for (provider, prefix) in known.iter() {
        for _ in 0..20 {
            let identifier = generate_card_identifier(Some(provider));
            assert_eq!(identifier.len(), CARD_IDENTIFIER_WIDTH);
            assert_eq!(identifier.len(), 19);
            assert!(identifier.chars().all(|c| c.is_ascii_digit()));
            assert!(identifier.starts_with(prefix));
        }
    }
}

#[test]
fn card_identifier_falls_back_to_the_default_prefix() {
    for provider in [None, Some("sprint"), Some("Verizon"), Some("")].iter() {
        for _ in 0..20 {
            let identifier = generate_card_identifier(*provider);
            assert_eq!(identifier.len(), 19);
            assert!(identifier.chars().all(|c| c.is_ascii_digit()));
            assert!(identifier.starts_with("8901100"));
        }
    }
}

#[test]
fn empty_batch() {
    assert!(generate_batch(0).is_empty());
}

#[test]
fn batch_of_five() {
    let batch = generate_batch(5);
    assert_eq!(batch.len(), 5);
    for identifier in batch.iter() {
        assert_device_identifier(identifier);
        assert!(DEVICE_PREFIXES.contains(&&identifier[0..8]));
    }
}

#[test]
fn larger_batch() {
    let batch = generate_batch(500);
    assert_eq!(batch.len(), 500);
    for identifier in batch.iter() {
        assert_device_identifier(identifier);
    }
}

#[test]
fn device_prefix_table() {
    for (index, prefix) in DEVICE_PREFIXES.iter().enumerate() {
        assert_eq!(device_prefix_at(index), *prefix);
    }
    assert_eq!(lookup_device_prefix(Some("samsung")), Some("35332509"));
    assert_eq!(lookup_device_prefix(Some("apple")), Some("35391110"));
    assert_eq!(lookup_device_prefix(Some("google")), Some("35455506"));
    assert_eq!(lookup_device_prefix(Some("xiaomi")), Some("86794003"));
    assert_eq!(lookup_device_prefix(Some("Xiaomi")), None);
    assert_eq!(lookup_device_prefix(Some("")), None);
    assert_eq!(lookup_device_prefix(None), None);
}

#[test]
fn card_prefix_table() {
    assert_eq!(lookup_card_prefix(Some("verizon")), "8914800");
    assert_eq!(lookup_card_prefix(Some("att")), "8901410");
    assert_eq!(lookup_card_prefix(Some("tmobile")), "8901260");
    assert_eq!(lookup_card_prefix(Some("ATT")), "8901100");
    assert_eq!(lookup_card_prefix(None), "8901100");
}
