use benri_qr::{MeCard, QrEncode, SymbolError};

fn john() -> MeCard {
    let mut card = MeCard::init(String::from("John"));
    card.TEL = Some("1234-5678".into());
    card
}

fn attr_value(s: &str, attr: &str) -> u64 {
    let start = s.find(attr).expect("attribute missing") + attr.len();
    let rest = &s[start..];
    let end = rest.find('"').expect("unterminated attribute");
    rest[..end].parse().expect("attribute not a number")
}

#[test]
fn svg_has_expected_shape() {
    let img = john().svg(128, 128, "transparent", "black").unwrap();
    assert!(img.starts_with("<svg xmlns=\"http://www.w3.org/2000/svg\" version=\"1.1\" width=\""));
    assert!(img.ends_with("</svg>"));
    assert!(img.contains("fill=\"transparent\""));
    assert!(img.contains("fill=\"black\""));
}

#[test]
fn svg_covers_requested_minimums() {
    let img = john().svg(128, 128, "transparent", "black").unwrap();
    let width = attr_value(&img, "width=\"");
    let height = attr_value(&img, "height=\"");
    assert!(width >= 128);
    assert!(height >= 128);
    assert_eq!(width, height);

    let wide = john().svg(500, 40, "transparent", "black").unwrap();
    assert!(attr_value(&wide, "width=\"") >= 500);
    assert!(attr_value(&wide, "height=\"") >= 40);
}

#[test]
fn svg_uses_only_the_two_requested_colors() {
    let img = john().svg(128, 128, "white", "navy").unwrap();
    let mut rest: &str = &img;
    let mut fills: usize = 0;
    while let Some(pos) = rest.find("fill=\"") {
        let after = &rest[pos + 6..];
        let end = after.find('"').expect("unterminated fill");
        let color = &after[..end];
        assert!(color == "white" || color == "navy");
        fills += 1;
        rest = &after[end..];
    }
    assert!(fills > 1);
}

#[test]
fn svg_is_deterministic() {
    let a = john().svg(128, 128, "transparent", "black").unwrap();
    let b = john().svg(128, 128, "transparent", "black").unwrap();
    assert_eq!(a, b);
}

#[test]
fn oversized_record_reports_capacity_error() {
    let mut card = MeCard::init(String::from("John"));
    card.Memo = Some("x".repeat(8000));
    let result = card.svg(128, 128, "transparent", "black");
    assert_eq!(result.unwrap_err(), SymbolError::DataTooLong);
}
