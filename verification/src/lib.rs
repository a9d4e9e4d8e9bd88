//! Contact records in the MeCard format, their canonical single-line
//! encoding, QR symbol rendering as vector markup, and composition of an
//! HTML gallery document.

pub mod compose;
pub mod dispatch;
pub mod mecard;
pub mod numeral;
pub mod qr_encode;
pub mod render;
pub mod symbol;

pub use dispatch::InputMode;
pub use dispatch::input_mode;
pub use mecard::MeCard;
pub use qr_encode::QrEncode;
pub use qr_encode::html_document;
pub use symbol::SymbolError;
