//! What a malware scan of an uploaded file comes to.
//!
//! The scan itself is done by an engine outside this library. What the
//! engine reported arrives here as a plain value, and the functions below
//! decide what it means for the upload.

use vstd::prelude::*;
use crate::text::prefixed;

verus! {

/// What the engine found in a file.
#[derive(Debug, Clone, PartialEq, Eq)]
pub enum ScanResult {
    /// Nothing was found.
    Clean,
    /// A signature matched; the name is the signature's.
    Virus(String),
    /// The engine gave up on the file.
    Error(String),
}

/// The mathematical value of a [`ScanResult`].
pub enum ScanResultView {
    Clean,
    Virus(Seq<char>),
    Error(Seq<char>),
}

impl View for ScanResult {
    type V = ScanResultView;

    open spec fn view(&self) -> ScanResultView {
        match self {
            ScanResult::Clean => ScanResultView::Clean,
            ScanResult::Virus(name) => ScanResultView::Virus(name@),
            ScanResult::Error(detail) => ScanResultView::Error(detail@),
        }
    }
}

/// Whether a file with this scan result is safe to keep, or why that
/// cannot be said.
pub open spec fn scan_verdict(result: ScanResultView) -> Result<bool, Seq<char>> {
    match result {
        ScanResultView::Clean => Ok(true),
        ScanResultView::Virus(_) => Ok(false),
        ScanResultView::Error(detail) => Err("Error scanning file: "@ + detail),
    }
}

/// Decides from the engine's result whether the file is safe: `true` for a
/// clean file, `false` for an infected one, an error where the engine
/// gave up.
pub fn scan_outcome(result: &ScanResult) -> (outcome: Result<bool, String>)
    ensures
        match scan_verdict(result@) {
            Ok(safe) => outcome == Ok::<bool, String>(safe),
            Err(detail) => outcome matches Err(e) && e@ == detail,
        },
{
    match result {
        ScanResult::Clean => Ok(true),
        ScanResult::Virus(_) => Ok(false),
        ScanResult::Error(detail) => Err(prefixed("Error scanning file: ", detail.as_str())),
    }
}

} // verus!
