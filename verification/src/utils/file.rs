//! Stored files: their media types and the outcome of scanning them.

use vstd::prelude::*;
use crate::error::{AppError, AppErrorView};
use crate::services::file_scanner::{scan_outcome, scan_verdict, ScanResult, ScanResultView};
use crate::text::{lowercase, prefixed, str_eq, to_lowercase};

verus! {

/// How far an attempt to scan a file got.
#[derive(Debug, Clone, PartialEq, Eq)]
pub enum ScanAttempt {
    /// The scanner could not be started.
    InitFailed(String),
    /// The scanner started, but the file could not be read or scanned.
    ScanFailed(String),
    /// The engine scanned the file.
    Finished(ScanResult),
}

/// The mathematical value of a [`ScanAttempt`].
pub enum ScanAttemptView {
    InitFailed(Seq<char>),
    ScanFailed(Seq<char>),
    Finished(ScanResultView),
}

impl View for ScanAttempt {
    type V = ScanAttemptView;

    open spec fn view(&self) -> ScanAttemptView {
        match self {
            ScanAttempt::InitFailed(detail) => ScanAttemptView::InitFailed(detail@),
            ScanAttempt::ScanFailed(detail) => ScanAttemptView::ScanFailed(detail@),
            ScanAttempt::Finished(result) => ScanAttemptView::Finished(result@),
        }
    }
}

/// What an attempt to scan a file comes to: whether the file is safe, or
/// the file-scanning error to report.
pub open spec fn malware_verdict(attempt: ScanAttemptView) -> Result<bool, AppErrorView> {
    match attempt {
        ScanAttemptView::InitFailed(detail) => Err(
            AppErrorView::FileScanningError("Failed to initialize scanner: "@ + detail),
        ),
        ScanAttemptView::ScanFailed(detail) => Err(
            AppErrorView::FileScanningError("Failed to scan file: "@ + detail),
        ),
        ScanAttemptView::Finished(result) => match scan_verdict(result) {
            Ok(safe) => Ok(safe),
            Err(detail) => Err(AppErrorView::FileScanningError("Failed to scan file: "@ + detail)),
        },
    }
}

/// Decides from an attempt to scan a file whether the file is safe.
pub fn scan_file_for_malware(attempt: &ScanAttempt) -> (outcome: Result<bool, AppError>)
    ensures
        match malware_verdict(attempt@) {
            Ok(safe) => outcome == Ok::<bool, AppError>(safe),
            Err(error) => outcome matches Err(e) && e@ == error,
        },
{
    match attempt {
        ScanAttempt::InitFailed(detail) => Err(
            AppError::FileScanningError(prefixed("Failed to initialize scanner: ", detail.as_str())),
        ),
        ScanAttempt::ScanFailed(detail) => Err(
            AppError::FileScanningError(prefixed("Failed to scan file: ", detail.as_str())),
        ),
        ScanAttempt::Finished(result) => match scan_outcome(result) {
            Ok(safe) => Ok(safe),
            Err(detail) => Err(
                AppError::FileScanningError(prefixed("Failed to scan file: ", detail.as_str())),
            ),
        },
    }
}

/// The media type that goes with a lower-case file extension. An
/// extension that is not listed is served as opaque bytes.
pub open spec fn mime_for(extension: Seq<char>) -> Seq<char> {
    if extension == "jpg"@ || extension == "jpeg"@ {
        "image/jpeg"@
    } else if extension == "png"@ {
        "image/png"@
    } else if extension == "gif"@ {
        "image/gif"@
    } else if extension == "webp"@ {
        "image/webp"@
    } else if extension == "pdf"@ {
        "application/pdf"@
    } else if extension == "zip"@ {
        "application/zip"@
    } else if extension == "rar"@ {
        "application/x-rar-compressed"@
    } else if extension == "7z"@ {
        "application/x-7z-compressed"@
    } else if extension == "gz"@ || extension == "tar.gz"@ {
        "application/gzip"@
    } else if extension == "tar"@ {
        "application/x-tar"@
    } else if extension == "exe"@ {
        "application/x-msdownload"@
    } else if extension == "apk"@ {
        "application/vnd.android.package-archive"@
    } else if extension == "dmg"@ {
        "application/x-apple-diskimage"@
    } else if extension == "deb"@ {
        "application/vnd.debian.binary-package"@
    } else if extension == "rpm"@ {
        "application/x-rpm"@
    } else if extension == "txt"@ {
        "text/plain"@
    } else if extension == "html"@ || extension == "htm"@ {
        "text/html"@
    } else if extension == "css"@ {
        "text/css"@
    } else if extension == "js"@ {
        "application/javascript"@
    } else if extension == "json"@ {
        "application/json"@
    } else if extension == "xml"@ {
        "application/xml"@
    } else if extension == "csv"@ {
        "text/csv"@
    } else if extension == "doc"@ || extension == "docx"@ {
        "application/msword"@
    } else if extension == "xls"@ || extension == "xlsx"@ {
        "application/vnd.ms-excel"@
    } else if extension == "ppt"@ || extension == "pptx"@ {
        "application/vnd.ms-powerpoint"@
    } else {
        "application/octet-stream"@
    }
}

/// The media type that goes with an extension, compared as it is: an
/// extension in upper case is not listed.
pub fn mime_type_of(extension: &str) -> (mime: String)
    ensures
        mime@ == mime_for(extension@),
{
    let e = extension;
    let mime = if str_eq(e, "jpg") || str_eq(e, "jpeg") {
        "image/jpeg"
    } else if str_eq(e, "png") {
        "image/png"
    } else if str_eq(e, "gif") {
        "image/gif"
    } else if str_eq(e, "webp") {
        "image/webp"
    } else if str_eq(e, "pdf") {
        "application/pdf"
    } else if str_eq(e, "zip") {
        "application/zip"
    } else if str_eq(e, "rar") {
        "application/x-rar-compressed"
    } else if str_eq(e, "7z") {
        "application/x-7z-compressed"
    } else if str_eq(e, "gz") || str_eq(e, "tar.gz") {
        "application/gzip"
    } else if str_eq(e, "tar") {
        "application/x-tar"
    } else if str_eq(e, "exe") {
        "application/x-msdownload"
    } else if str_eq(e, "apk") {
        "application/vnd.android.package-archive"
    } else if str_eq(e, "dmg") {
        "application/x-apple-diskimage"
    } else if str_eq(e, "deb") {
        "application/vnd.debian.binary-package"
    } else if str_eq(e, "rpm") {
        "application/x-rpm"
    } else if str_eq(e, "txt") {
        "text/plain"
    } else if str_eq(e, "html") || str_eq(e, "htm") {
        "text/html"
    } else if str_eq(e, "css") {
        "text/css"
    } else if str_eq(e, "js") {
        "application/javascript"
    } else if str_eq(e, "json") {
        "application/json"
    } else if str_eq(e, "xml") {
        "application/xml"
    } else if str_eq(e, "csv") {
        "text/csv"
    } else if str_eq(e, "doc") || str_eq(e, "docx") {
        "application/msword"
    } else if str_eq(e, "xls") || str_eq(e, "xlsx") {
        "application/vnd.ms-excel"
    } else if str_eq(e, "ppt") || str_eq(e, "pptx") {
        "application/vnd.ms-powerpoint"
    } else {
        "application/octet-stream"
    };
    mime.to_owned()
}

/// The media type of a file, from its extension in any case.
pub fn get_mime_type(extension: &str) -> (mime: String)
    ensures
        mime@ == mime_for(lowercase(extension@)),
{
    let lower = to_lowercase(extension);
    mime_type_of(lower.as_str())
}

} // verus!
