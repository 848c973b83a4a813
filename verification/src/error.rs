//! Errors reported to Alpaca clients, and replies of device calls.

use vstd::prelude::*;

verus! {

/// A failed device call. The driver never looks inside a device error: every
/// failure is mapped to a fixed protocol error by the operation that made it.
#[derive(Debug, Clone, Copy, PartialEq, Eq, Structural)]
pub struct DeviceFailure;

/// The reply of one device call.
pub type Reply<T> = Result<T, DeviceFailure>;

/// The answer a device gives when asked whether it is open, and how many
/// times it is to be asked (`None`: any number of times), as arranged for a
/// test.
#[derive(Debug, Clone, Copy, PartialEq, Eq, Structural)]
pub struct IsOpenExpectation {
    pub answer: Option<bool>,
    pub times: Option<usize>,
}

/// The Alpaca error numbers this driver reports.
#[derive(Debug, Clone, Copy, PartialEq, Eq, Structural)]
pub enum ErrorCode {
    NotImplemented,
    InvalidValue,
    ValueNotSet,
    NotConnected,
    InvalidOperation,
    Unspecified,
}

/// The specific messages the driver attaches to some errors.
#[derive(Debug, Clone, Copy, PartialEq, Eq, Structural)]
pub enum ErrorDetail {
    BinNotValid,
    RegionTooLargeForBinning,
    DarkFramesNotSupported,
    StartXBeyondNumX,
    StartYBeyondNumY,
    NumXBeyondCameraXSize,
    NumYBeyondCameraYSize,
    FailedToSetRoi,
    ReadoutSpeedRangeMissing,
    GainRangeMissing,
    OffsetRangeMissing,
}

/// An Alpaca error: a code, and either the code's standard message or a
/// specific one.
#[derive(Debug, Clone, Copy, PartialEq, Eq, Structural)]
pub struct AscomError {
    pub code: ErrorCode,
    pub detail: Option<ErrorDetail>,
}

/// The standard message of each error code.
pub open spec fn spec_code_message(code: ErrorCode) -> Seq<char> {
    match code {
        ErrorCode::NotImplemented => "Property or method not implemented."@,
        ErrorCode::InvalidValue => "Invalid value."@,
        ErrorCode::ValueNotSet => "A value has not been set."@,
        ErrorCode::NotConnected => "The communications channel is not connected."@,
        ErrorCode::InvalidOperation => "The requested operation can not be undertaken at this time."@,
        ErrorCode::Unspecified => "Reserved 'catch-all' error code (0x4FF) used when nothing else was specified."@,
    }
}

/// The text of each specific message.
pub open spec fn spec_detail_message(detail: ErrorDetail) -> Seq<char> {
    match detail {
        ErrorDetail::BinNotValid => "bin value must be one of the valid bins"@,
        ErrorDetail::RegionTooLargeForBinning => "region too large for this binning"@,
        ErrorDetail::DarkFramesNotSupported => "dark frames not supported"@,
        ErrorDetail::StartXBeyondNumX => "StartX > NumX"@,
        ErrorDetail::StartYBeyondNumY => "StartY > NumY"@,
        ErrorDetail::NumXBeyondCameraXSize => "NumX > CameraXSize"@,
        ErrorDetail::NumYBeyondCameraYSize => "NumY > CameraYSize"@,
        ErrorDetail::FailedToSetRoi => "failed to set ROI"@,
        ErrorDetail::ReadoutSpeedRangeMissing =>
            "camera reports readout speed control available, but min, max values are not set after initialization"@,
        ErrorDetail::GainRangeMissing =>
            "camera reports gain control available, but min, max values are not set after initialization"@,
        ErrorDetail::OffsetRangeMissing =>
            "camera reports offset control available, but min, max values are not set after initialization"@,
    }
}

impl ErrorCode {
    /// The numeric Alpaca error number.
    pub open spec fn spec_number(self) -> u16 {
        match self {
            ErrorCode::NotImplemented => 0x400,
            ErrorCode::InvalidValue => 0x401,
            ErrorCode::ValueNotSet => 0x402,
            ErrorCode::NotConnected => 0x407,
            ErrorCode::InvalidOperation => 0x40B,
            ErrorCode::Unspecified => 0x4FF,
        }
    }

    /// The numeric Alpaca error number.
    pub fn number(self) -> (n: u16)
        ensures
            n == self.spec_number(),
    {
        match self {
            ErrorCode::NotImplemented => 0x400,
            ErrorCode::InvalidValue => 0x401,
            ErrorCode::ValueNotSet => 0x402,
            ErrorCode::NotConnected => 0x407,
            ErrorCode::InvalidOperation => 0x40B,
            ErrorCode::Unspecified => 0x4FF,
        }
    }
}

impl AscomError {
    /// The message sent to the client with this error.
    pub open spec fn spec_message(self) -> Seq<char> {
        match self.detail {
            Some(d) => spec_detail_message(d),
            None => spec_code_message(self.code),
        }
    }

    /// An error with the code's standard message.
    pub fn from_code(code: ErrorCode) -> (e: AscomError)
        ensures
            e.code == code,
            e.detail is None,
    {
        AscomError { code, detail: None }
    }

    pub open spec fn invalid_value_spec(detail: ErrorDetail) -> AscomError {
        AscomError { code: ErrorCode::InvalidValue, detail: Some(detail) }
    }

    pub open spec fn invalid_operation_spec(detail: ErrorDetail) -> AscomError {
        AscomError { code: ErrorCode::InvalidOperation, detail: Some(detail) }
    }

    /// An "invalid value" error with a specific message.
    pub fn invalid_value(detail: ErrorDetail) -> (e: AscomError)
        ensures
            e.code == ErrorCode::InvalidValue,
            e.detail == Some(detail),
    {
        AscomError { code: ErrorCode::InvalidValue, detail: Some(detail) }
    }

    /// An "invalid operation" error with a specific message.
    pub fn invalid_operation(detail: ErrorDetail) -> (e: AscomError)
        ensures
            e.code == ErrorCode::InvalidOperation,
            e.detail == Some(detail),
    {
        AscomError { code: ErrorCode::InvalidOperation, detail: Some(detail) }
    }

    pub fn not_connected() -> (e: AscomError)
        ensures
            e == (AscomError { code: ErrorCode::NotConnected, detail: None }),
    {
        AscomError { code: ErrorCode::NotConnected, detail: None }
    }

    /// The message sent to the client with this error.
    pub fn message(&self) -> (m: String)
        ensures
            m@ == self.spec_message(),
    {
        match self.detail {
            Some(d) => detail_message(d),
            None => code_message(self.code),
        }
    }
}

fn code_message(code: ErrorCode) -> (m: String)
    ensures
        m@ == spec_code_message(code),
{
    match code {
        ErrorCode::NotImplemented => String::from_str("Property or method not implemented."),
        ErrorCode::InvalidValue => String::from_str("Invalid value."),
        ErrorCode::ValueNotSet => String::from_str("A value has not been set."),
        ErrorCode::NotConnected => String::from_str("The communications channel is not connected."),
        ErrorCode::InvalidOperation => String::from_str(
            "The requested operation can not be undertaken at this time.",
        ),
        ErrorCode::Unspecified => String::from_str(
            "Reserved 'catch-all' error code (0x4FF) used when nothing else was specified.",
        ),
    }
}

fn detail_message(detail: ErrorDetail) -> (m: String)
    ensures
        m@ == spec_detail_message(detail),
{
    match detail {
        ErrorDetail::BinNotValid => String::from_str("bin value must be one of the valid bins"),
        ErrorDetail::RegionTooLargeForBinning => String::from_str("region too large for this binning"),
        ErrorDetail::DarkFramesNotSupported => String::from_str("dark frames not supported"),
        ErrorDetail::StartXBeyondNumX => String::from_str("StartX > NumX"),
        ErrorDetail::StartYBeyondNumY => String::from_str("StartY > NumY"),
        ErrorDetail::NumXBeyondCameraXSize => String::from_str("NumX > CameraXSize"),
        ErrorDetail::NumYBeyondCameraYSize => String::from_str("NumY > CameraYSize"),
        ErrorDetail::FailedToSetRoi => String::from_str("failed to set ROI"),
        ErrorDetail::ReadoutSpeedRangeMissing => String::from_str(
            "camera reports readout speed control available, but min, max values are not set after initialization",
        ),
        ErrorDetail::GainRangeMissing => String::from_str(
            "camera reports gain control available, but min, max values are not set after initialization",
        ),
        ErrorDetail::OffsetRangeMissing => String::from_str(
            "camera reports offset control available, but min, max values are not set after initialization",
        ),
    }
}

/// What `connected` reports for a reply of the device's "is open" query.
pub open spec fn spec_connected(is_open: Reply<bool>) -> Result<bool, AscomError> {
    match is_open {
        Ok(b) => Ok(b),
        Err(_) => Err(AscomError { code: ErrorCode::NotConnected, detail: None }),
    }
}

/// Whether an operation that needs the device may go on.
pub open spec fn spec_require_connected(is_open: Reply<bool>) -> Result<(), AscomError> {
    match is_open {
        Ok(true) => Ok(()),
        _ => Err(AscomError { code: ErrorCode::NotConnected, detail: None }),
    }
}

/// The Connected property: the device's answer, or "not connected" when the
/// device cannot be asked.
pub fn connected(is_open: Reply<bool>) -> (r: Result<bool, AscomError>)
    ensures
        r == spec_connected(is_open),
{
    match is_open {
        Ok(b) => Ok(b),
        Err(_) => Err(AscomError::not_connected()),
    }
}

/// The guard in front of every operation that needs an open device.
pub fn require_connected(is_open: Reply<bool>) -> (r: Result<(), AscomError>)
    ensures
        r == spec_require_connected(is_open),
{
    match is_open {
        Ok(true) => Ok(()),
        _ => Err(AscomError::not_connected()),
    }
}

} // verus!
