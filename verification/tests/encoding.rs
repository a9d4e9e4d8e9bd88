use benri_qr::{MeCard, QrEncode};

#[test]
fn test_encode() {
    let mut card = MeCard::init(String::from("John"));
    card.TEL = Some("1234-5678".into());
    assert_eq!(card.encode(), "MECARD:N:John;TEL:1234-5678;");
    card.EMail = Some("john@example.com".into());
    assert_eq!(
        card.encode(),
        "MECARD:N:John;TEL:1234-5678;EMAIL:john@example.com;"
    );
}

#[test]
fn name_only_is_minimal_encoding() {
    let card = MeCard::init(String::from("Alice"));
    assert_eq!(card.encode(), "MECARD:N:Alice;");
}

#[test]
fn all_fields_in_canonical_order() {
    let card = MeCard::new(
        String::from("Bob"),
        Some(String::from("Bobu")),
        Some(String::from("090-0000-0000")),
        Some(String::from("b@example.jp")),
        Some(String::from("a note")),
        Some(String::from("2000-01-01")),
        Some(String::from("Tokyo")),
        Some(String::from("https://example.jp")),
        Some(String::from("bobby")),
    );
    assert_eq!(
        card.encode(),
        "MECARD:N:Bob;SOUND:Bobu;TEL:090-0000-0000;EMAIL:b@example.jp;NOTE:a note;\
         BDAY:2000-01-01;ADR:Tokyo;URL:https://example.jp;NICKNAME:bobby;"
    );
}

#[test]
fn assignment_order_does_not_change_output() {
    // Fill the fields back to front; the tags still come out in the fixed
    // canonical order.
    let mut card = MeCard::init(String::from("Eve"));
    card.Nickname = Some(String::from("evie"));
    card.TEL = Some(String::from("03-1234"));
    card.Reading = Some(String::from("Ibu"));
    assert_eq!(
        card.encode(),
        "MECARD:N:Eve;SOUND:Ibu;TEL:03-1234;NICKNAME:evie;"
    );
}

#[test]
fn output_has_no_newline() {
    let mut card = MeCard::init(String::from("John"));
    card.Memo = Some(String::from("likes long walks"));
    card.URL = Some(String::from("https://example.com/john"));
    let encoded = card.encode();
    assert!(!encoded.contains('\n'));
    assert!(!encoded.contains('\r'));
}

#[test]
fn encoding_is_deterministic() {
    let mut card = MeCard::init(String::from("John"));
    card.TEL = Some("1234-5678".into());
    card.Birthday = Some("1990-12-31".into());
    assert_eq!(card.encode(), card.encode());
}
