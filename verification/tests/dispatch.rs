use benri_qr::{input_mode, InputMode};

#[test]
fn json_selects_single_record_mode() {
    assert_eq!(input_mode("json"), InputMode::SingleJson);
}

#[test]
fn xlsx_selects_batch_mode() {
    assert_eq!(input_mode("xlsx"), InputMode::BatchSheet);
}

#[test]
fn unknown_extension_is_unrecognized() {
    assert_eq!(input_mode("txt"), InputMode::Unrecognized);
    assert_eq!(input_mode("JSON"), InputMode::Unrecognized);
    assert_eq!(input_mode(""), InputMode::Unrecognized);
}
