use benri_qr::{html_document, MeCard};
use benri_qr::compose::{append_block, append_footer, append_header, compose_document};

#[test]
fn empty_batch_is_minimal_document() {
    let cards: Vec<MeCard> = Vec::new();
    let doc = html_document(&cards, "Empty", "ja", (128, 128), "transparent", "black").unwrap();
    assert!(doc.starts_with("<html lang=\"ja\"><head><meta charset=\"utf-8\"><title>Empty</title><style>\n"));
    assert!(doc.ends_with("<body>\n</body></html>\n"));
    assert!(!doc.contains("<figcaption>"));
}

#[test]
fn batch_of_three_keeps_input_order() {
    let cards = vec![
        MeCard::init(String::from("Alice")),
        MeCard::init(String::from("Bob")),
        MeCard::init(String::from("Carol")),
    ];
    let doc = html_document(&cards, "Contacts", "en", (128, 128), "transparent", "black").unwrap();
    assert_eq!(doc.matches("<figcaption>").count(), 3);
    let a = doc.find("<figcaption>Alice</figcaption>").unwrap();
    let b = doc.find("<figcaption>Bob</figcaption>").unwrap();
    let c = doc.find("<figcaption>Carol</figcaption>").unwrap();
    assert!(a < b);
    assert!(b < c);
}

#[test]
fn document_is_deterministic() {
    let cards = vec![
        MeCard::init(String::from("Alice")),
        MeCard::init(String::from("Bob")),
    ];
    let once = html_document(&cards, "T", "ja", (128, 128), "transparent", "black").unwrap();
    let twice = html_document(&cards, "T", "ja", (128, 128), "transparent", "black").unwrap();
    assert_eq!(once, twice);
}

#[test]
fn document_embeds_builtin_stylesheet() {
    let cards: Vec<MeCard> = Vec::new();
    let doc = html_document(&cards, "T", "ja", (128, 128), "transparent", "black").unwrap();
    assert!(doc.contains("figure{display:inline-block"));
}

#[test]
fn oversized_record_aborts_whole_batch() {
    let mut big = MeCard::init(String::from("Big"));
    big.Memo = Some("x".repeat(8000));
    let cards = vec![MeCard::init(String::from("Alice")), big];
    assert!(html_document(&cards, "T", "ja", (128, 128), "transparent", "black").is_err());
}

#[test]
fn language_and_title_inserted_verbatim() {
    let cards: Vec<MeCard> = Vec::new();
    let doc = html_document(&cards, "My Cards", "en-US", (64, 64), "transparent", "black").unwrap();
    assert!(doc.starts_with("<html lang=\"en-US\">"));
    assert!(doc.contains("<title>My Cards</title>"));
}

#[test]
fn compose_matches_streamed_pieces() {
    let pairs = vec![
        (String::from("one"), String::from("<svg>1</svg>")),
        (String::from("two"), String::from("<svg>2</svg>")),
    ];
    let whole = compose_document(&pairs, "T", "ja");

    let mut streamed = String::new();
    append_header(&mut streamed, "T", "ja");
    for (label, image) in &pairs {
        append_block(&mut streamed, label, image);
    }
    append_footer(&mut streamed);
    assert_eq!(whole, streamed);

    let one = whole.find("<figcaption>one</figcaption>\n<svg>1</svg>").unwrap();
    let two = whole.find("<figcaption>two</figcaption>\n<svg>2</svg>").unwrap();
    assert!(one < two);
}
