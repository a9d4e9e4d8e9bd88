//! The QR symbol generator boundary: an encoded string and a fixed
//! error-correction tier go in, a square matrix of dark/light modules comes
//! out. The symbol construction algorithm itself is an external
//! collaborator; this module states its contract and maps its error type
//! onto the library's own.

use vstd::prelude::*;

verus! {

/// The modules of the QR symbol that the generator derives from a string at
/// the lowest error-correction tier, together with the symbol's width in
/// modules: `Some((width, modules))` where `modules` lists the rows
/// concatenated, `true` for a dark module; `None` where the string exceeds
/// the symbol capacity of that tier. The symbol is a function of the string
/// alone.
pub uninterp spec fn qr_symbol_of(s: Seq<char>) -> Option<(nat, Seq<bool>)>;

#[verifier::external_type_specification]
pub struct ExQrError(qrcode::types::QrError);

/// Why a string could not be turned into a QR symbol.
#[derive(Debug, Clone, Copy, PartialEq, Eq, Structural)]
pub enum SymbolError {
    /// The encoded string exceeds the symbol capacity of the chosen
    /// error-correction tier.
    DataTooLong,
    /// The version / error-correction combination is invalid.
    InvalidVersion,
    /// Some characters cannot be supported by the chosen QR version.
    UnsupportedCharacterSet,
    /// The ECI designator is out of range.
    InvalidEciDesignator,
    /// A character outside the character set was found.
    InvalidCharacter,
}

/// The library error that stands for an error of the external generator.
pub open spec fn spec_symbol_error(e: qrcode::types::QrError) -> SymbolError {
    match e {
        qrcode::types::QrError::DataTooLong => SymbolError::DataTooLong,
        qrcode::types::QrError::InvalidVersion => SymbolError::InvalidVersion,
        qrcode::types::QrError::UnsupportedCharacterSet => SymbolError::UnsupportedCharacterSet,
        qrcode::types::QrError::InvalidEciDesignator => SymbolError::InvalidEciDesignator,
        qrcode::types::QrError::InvalidCharacter => SymbolError::InvalidCharacter,
    }
}

/// Maps the external generator's error onto the library's own.
fn symbol_error_of(e: qrcode::types::QrError) -> (r: SymbolError)
    ensures
        r == spec_symbol_error(e),
{
    match e {
        qrcode::types::QrError::DataTooLong => SymbolError::DataTooLong,
        qrcode::types::QrError::InvalidVersion => SymbolError::InvalidVersion,
        qrcode::types::QrError::UnsupportedCharacterSet => SymbolError::UnsupportedCharacterSet,
        qrcode::types::QrError::InvalidEciDesignator => SymbolError::InvalidEciDesignator,
        qrcode::types::QrError::InvalidCharacter => SymbolError::InvalidCharacter,
    }
}

/// Relies on qrcode::QrCode::with_error_correction_level at the lowest
/// error-correction tier (EcLevel::L), qrcode::QrCode::width and
/// qrcode::QrCode::to_vec: construction succeeds or fails as a function of
/// the data alone; on success the symbol is a square matrix between 21 and
/// 177 modules wide (QR versions 1 through 40), handed out row by row with
/// `true` for a dark module.
#[allow(deprecated)]
#[verifier::external_body]
fn qr_symbol_raw(s: &str) -> (r: Result<(usize, Vec<bool>), qrcode::types::QrError>)
    ensures
        r matches Ok(p) ==> qr_symbol_of(s@) == Some((p.0 as nat, p.1@)),
        r matches Ok(p) ==> 21 <= p.0 <= 177 && p.1@.len() == p.0 * p.0,
        r is Err ==> qr_symbol_of(s@) is None,
{
    let code = qrcode::QrCode::with_error_correction_level(s, qrcode::EcLevel::L)?;
    Ok((code.width(), code.to_vec()))
}

/// A well-formed symbol: a square of at most 177 modules a side (the
/// largest QR version), flattened row by row.
pub open spec fn symbol_wf(width: nat, modules: Seq<bool>) -> bool {
    &&& 21 <= width <= 177
    &&& modules.len() == width * width
}

/// Generates the QR symbol of an encoded string at the lowest
/// error-correction tier, or reports why none exists. Succeeds exactly on
/// the strings for which the generator has a symbol.
pub fn generate_symbol(s: &str) -> (r: Result<(usize, Vec<bool>), SymbolError>)
    ensures
        r matches Ok(p) ==> qr_symbol_of(s@) == Some((p.0 as nat, p.1@)) && symbol_wf(
            p.0 as nat,
            p.1@,
        ),
        r is Err ==> qr_symbol_of(s@) is None,
{
    match qr_symbol_raw(s) {
        Ok(p) => Ok(p),
        Err(e) => Err(symbol_error_of(e)),
    }
}

} // verus!
