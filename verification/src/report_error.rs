//! How a refused response is reported to the user: the I/O error kind and
//! the wording, which depend on the request and on why it was refused.
use vstd::prelude::*;

use crate::message::AmtRequest;
use crate::names::{amt_status_name, amt_status_to_string};
use crate::response::AmtError;
use crate::versions::AMT_BIOS_VERSION_LEN;

verus! {

/// The kind of I/O error a refused response is reported as.
#[derive(Clone, Copy, Debug, PartialEq, Eq, Structural)]
pub enum IoErrorKind {
    UnexpectedEof,
    InvalidData,
    Other,
}

/// The message of a refused response.
#[derive(Clone, Copy, Debug, PartialEq, Eq)]
pub enum ErrorMessage {
    /// A fixed text.
    Text { text: &'static str },
    /// "Response too short: got `len` bytes".
    TooShortGot { len: usize },
    /// "AMT error 0x`code` (eight hex digits): `name`".
    AmtStatus { code: u32, name: &'static str },
    /// "Response too short for version data: got `len` bytes, need at least `need`".
    VersionDataTooShort { len: usize, need: usize },
}

/// A refused response as the user sees it.
#[derive(Clone, Copy, Debug, PartialEq, Eq)]
pub struct ErrorReport {
    pub kind: IoErrorKind,
    pub message: ErrorMessage,
}

/// The provisioning queries and the code versions query say how many bytes
/// a too-short response had; the other queries do not.
pub open spec fn states_short_length(r: AmtRequest) -> bool {
    match r {
        AmtRequest::ProvisioningMode => true,
        AmtRequest::ProvisioningState => true,
        AmtRequest::CodeVersions => true,
        _ => false,
    }
}

/// The text reported when a response lacks the value the request asks for.
pub open spec fn missing_data_text(r: AmtRequest) -> &'static str {
    match r {
        AmtRequest::ProvisioningMode => "Response missing provisioning mode data",
        AmtRequest::ProvisioningState => "Response missing provisioning state data",
        _ => "Response missing data",
    }
}

/// How a refused response to `r` is reported.
pub open spec fn error_report_spec(r: AmtRequest, e: AmtError) -> ErrorReport {
    match e {
        AmtError::NoResponse => ErrorReport {
            kind: IoErrorKind::UnexpectedEof,
            message: ErrorMessage::Text { text: "No response from device" },
        },
        AmtError::TooShort { len } => ErrorReport {
            kind: IoErrorKind::InvalidData,
            message: if states_short_length(r) {
                ErrorMessage::TooShortGot { len }
            } else {
                ErrorMessage::Text { text: "Response too short" }
            },
        },
        AmtError::Status { code } => ErrorReport {
            kind: IoErrorKind::Other,
            message: ErrorMessage::AmtStatus { code, name: amt_status_name(code) },
        },
        AmtError::MissingData => ErrorReport {
            kind: IoErrorKind::InvalidData,
            message: ErrorMessage::Text { text: missing_data_text(r) },
        },
        AmtError::VersionDataTooShort { len } => ErrorReport {
            kind: IoErrorKind::InvalidData,
            message: ErrorMessage::VersionDataTooShort { len, need: (AMT_BIOS_VERSION_LEN + 4) as usize },
        },
    }
}

/// Reports a refused response to `r`: the I/O error kind and the message.
pub fn error_report(r: &AmtRequest, e: AmtError) -> (rep: ErrorReport)
    ensures
        rep == error_report_spec(*r, e),
{
    match e {
        AmtError::NoResponse => ErrorReport {
            kind: IoErrorKind::UnexpectedEof,
            message: ErrorMessage::Text { text: "No response from device" },
        },
        AmtError::TooShort { len } => {
            let with_length = match r {
                AmtRequest::ProvisioningMode => true,
                AmtRequest::ProvisioningState => true,
                AmtRequest::CodeVersions => true,
                _ => false,
            };
            ErrorReport {
                kind: IoErrorKind::InvalidData,
                message: if with_length {
                    ErrorMessage::TooShortGot { len }
                } else {
                    ErrorMessage::Text { text: "Response too short" }
                },
            }
        },
        AmtError::Status { code } => ErrorReport {
            kind: IoErrorKind::Other,
            message: ErrorMessage::AmtStatus { code, name: amt_status_to_string(code) },
        },
        AmtError::MissingData => {
            let text = match r {
                AmtRequest::ProvisioningMode => "Response missing provisioning mode data",
                AmtRequest::ProvisioningState => "Response missing provisioning state data",
                _ => "Response missing data",
            };
            ErrorReport { kind: IoErrorKind::InvalidData, message: ErrorMessage::Text { text } }
        },
        AmtError::VersionDataTooShort { len } => ErrorReport {
            kind: IoErrorKind::InvalidData,
            message: ErrorMessage::VersionDataTooShort { len, need: AMT_BIOS_VERSION_LEN + 4 },
        },
    }
}

/// No response is an unexpected end of file; a too-short response, missing
/// data and too-short version data are invalid data; a refused status is an
/// "other" error carrying the code and its name.  The provisioning mode,
/// provisioning state and code versions queries give the length of a
/// too-short response; the others only say it is too short.  The version
/// data needs 69 bytes.
pub proof fn lemma_error_report_table(r: AmtRequest, len: usize, code: u32)
    ensures
        error_report_spec(r, AmtError::NoResponse) == (ErrorReport {
            kind: IoErrorKind::UnexpectedEof,
            message: ErrorMessage::Text { text: "No response from device" },
        }),
        error_report_spec(r, AmtError::TooShort { len }).kind == IoErrorKind::InvalidData,
        (r is ProvisioningMode || r is ProvisioningState || r is CodeVersions) ==> error_report_spec(
            r,
            AmtError::TooShort { len },
        ).message == (ErrorMessage::TooShortGot { len }),
        !(r is ProvisioningMode || r is ProvisioningState || r is CodeVersions) ==> error_report_spec(
            r,
            AmtError::TooShort { len },
        ).message == (ErrorMessage::Text { text: "Response too short" }),
        error_report_spec(r, AmtError::Status { code }) == (ErrorReport {
            kind: IoErrorKind::Other,
            message: ErrorMessage::AmtStatus { code, name: amt_status_name(code) },
        }),
        error_report_spec(AmtRequest::ProvisioningMode, AmtError::MissingData) == (ErrorReport {
            kind: IoErrorKind::InvalidData,
            message: ErrorMessage::Text { text: "Response missing provisioning mode data" },
        }),
        error_report_spec(AmtRequest::ProvisioningState, AmtError::MissingData) == (ErrorReport {
            kind: IoErrorKind::InvalidData,
            message: ErrorMessage::Text { text: "Response missing provisioning state data" },
        }),
        error_report_spec(r, AmtError::VersionDataTooShort { len }) == (ErrorReport {
            kind: IoErrorKind::InvalidData,
            message: ErrorMessage::VersionDataTooShort { len, need: 69 },
        }),
{
}

} // verus!
