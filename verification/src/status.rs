use vstd::prelude::*;

verus! {

/// Caller-facing UCI status codes exposed across the foreign-function
/// boundary.
///
/// The set is closed, and every code's numeric value stays below 128
/// (see [`StatusCode::spec_value`]), so reinterpreting the unsigned byte
/// as a signed byte never changes the value.
#[derive(Clone, Copy, Debug, PartialEq, Eq, Structural)]
pub enum StatusCode {
    UciStatusOk,
    UciStatusInvalidParam,
    UciStatusMaxSessionsExceeded,
    UciStatusCommandRetry,
    UciStatusRegulationUwbOff,
    UciStatusFailed,
}

impl StatusCode {
    /// The numeric value of the status code on the UCI wire format.
    pub open spec fn spec_value(self) -> u8 {
        match self {
            StatusCode::UciStatusOk => 0x00,
            StatusCode::UciStatusInvalidParam => 0x04,
            StatusCode::UciStatusMaxSessionsExceeded => 0x14,
            StatusCode::UciStatusCommandRetry => 0x0A,
            StatusCode::UciStatusRegulationUwbOff => 0x53,
            StatusCode::UciStatusFailed => 0x02,
        }
    }
}

impl From<StatusCode> for u8 {
    /// The numeric value of the status code.
    fn from(code: StatusCode) -> (v: u8) {
        match code {
            StatusCode::UciStatusOk => 0x00,
            StatusCode::UciStatusInvalidParam => 0x04,
            StatusCode::UciStatusMaxSessionsExceeded => 0x14,
            StatusCode::UciStatusCommandRetry => 0x0A,
            StatusCode::UciStatusRegulationUwbOff => 0x53,
            StatusCode::UciStatusFailed => 0x02,
        }
    }
}

impl vstd::std_specs::convert::FromSpecImpl<StatusCode> for u8 {
    open spec fn obeys_from_spec() -> bool {
        true
    }

    open spec fn from_spec(code: StatusCode) -> u8 {
        code.spec_value()
    }
}

/// No status code's numeric value reaches 128, so the unsigned byte of a
/// status code always reinterprets as a non-negative signed byte of the
/// same value.
pub proof fn lemma_status_fits_signed_byte(code: StatusCode)
    ensures
        code.spec_value() < 128,
{
}

} // verus!
