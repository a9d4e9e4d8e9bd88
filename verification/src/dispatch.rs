//! Dispatch of an input file by its extension: a JSON source holds one
//! record and yields a standalone image, a spreadsheet source holds a
//! batch and yields a whole document, and any other extension is
//! recognized as neither — a diagnostic outcome, not a crash.

use vstd::prelude::*;
use vstd::string::StringExecFns;

verus! {

/// What an input file's extension selects.
#[derive(Debug, Clone, Copy, PartialEq, Eq, Structural)]
pub enum InputMode {
    /// A single JSON record: the output is the record's image markup alone.
    SingleJson,
    /// A spreadsheet batch: the output is one composed document.
    BatchSheet,
    /// Neither: no output is produced.
    Unrecognized,
}

/// The mode an extension selects: `json` is single-record mode, `xlsx` is
/// batch mode, anything else is unrecognized.
pub open spec fn spec_input_mode(ext: Seq<char>) -> InputMode {
    if ext == "json"@ {
        InputMode::SingleJson
    } else if ext == "xlsx"@ {
        InputMode::BatchSheet
    } else {
        InputMode::Unrecognized
    }
}

/// Decides the processing mode of an input file from its extension.
pub fn input_mode(ext: &str) -> (r: InputMode)
    ensures
        r == spec_input_mode(ext@),
{
    let e: String = ext.to_owned();
    if e == String::from_str("json") {
        InputMode::SingleJson
    } else if e == String::from_str("xlsx") {
        InputMode::BatchSheet
    } else {
        InputMode::Unrecognized
    }
}

} // verus!
