use vstd::prelude::*;
use vstd::string::StringExecFns;

use crate::error::Error;
use crate::status::StatusCode;

verus! {

/// The status code that classifies one error kind: the four specially
/// mapped kinds get their own code, every other kind the generic failure
/// code.
pub open spec fn status_of_error(e: Error) -> StatusCode {
    match e {
        Error::BadParameters => StatusCode::UciStatusInvalidParam,
        Error::MaxSessionsExceeded => StatusCode::UciStatusMaxSessionsExceeded,
        Error::CommandRetry => StatusCode::UciStatusCommandRetry,
        Error::RegulationUwbOff => StatusCode::UciStatusRegulationUwbOff,
        _ => StatusCode::UciStatusFailed,
    }
}

/// The status code that classifies an outcome: success is `UciStatusOk`,
/// an error is classified by its kind.
pub open spec fn status_of<T>(result: Result<T, Error>) -> StatusCode {
    match result {
        Ok(_) => StatusCode::UciStatusOk,
        Err(e) => status_of_error(e),
    }
}

/// The boolean byte that represents an outcome: 1 for success, 0 for any
/// error.
pub open spec fn boolean_of<T>(result: Result<T, Error>) -> u8 {
    if result is Ok {
        1u8
    } else {
        0u8
    }
}

/// The signed status byte that represents an outcome: the numeric value
/// of its status code, reinterpreted as a signed byte.
pub open spec fn status_byte_of<T>(result: Result<T, Error>) -> i8 {
    status_of(result).spec_value() as i8
}

/// The optional payload that represents an outcome: the success payload,
/// or nothing on any error.
pub open spec fn optional_of<T>(result: Result<T, Error>) -> Option<T> {
    match result {
        Ok(t) => Some(t),
        Err(_) => None,
    }
}

/// Translates an outcome into a boolean byte for the foreign-function
/// boundary: 1 on success, 0 on any error.
///
/// The label identifies the call in the caller's diagnostics and has no
/// effect on the returned value.
#[allow(unused_variables)]
pub fn boolean_result_helper<T>(result: Result<T, Error>, error_msg: &str) -> (b: u8)
    ensures
        b == boolean_of(result),
        b == 1 <==> result is Ok,
        b == 0 <==> result is Err,
{
    match result {
        Ok(_) => 1u8,
        Err(_) => 0u8,
    }
}

/// Translates an outcome into a signed status byte for the
/// foreign-function boundary.
///
/// Every status code's numeric value stays below 128, so the byte is
/// non-negative and carries the unsigned value unchanged. The label
/// identifies the call in the caller's diagnostics and has no effect on
/// the returned value.
pub fn byte_result_helper<T>(result: Result<T, Error>, error_msg: &str) -> (b: i8)
    ensures
        b == status_byte_of(result),
        b == status_of(result).spec_value(),
        0 <= b,
{
    let v: u8 = u8::from(result_to_status_code(result, error_msg));
    v as i8
}

/// Classifies an outcome into a status code: success is `UciStatusOk`,
/// each of the four specially mapped error kinds gets its own code, and
/// every other error kind gets the generic `UciStatusFailed`.
///
/// The label identifies the call in the caller's diagnostics and has no
/// effect on the returned value.
#[allow(unused_variables)]
pub fn result_to_status_code<T>(result: Result<T, Error>, error_msg: &str) -> (code: StatusCode)
    ensures
        code == status_of(result),
{
    match result {
        Ok(_) => StatusCode::UciStatusOk,
        Err(Error::BadParameters) => StatusCode::UciStatusInvalidParam,
        Err(Error::MaxSessionsExceeded) => StatusCode::UciStatusMaxSessionsExceeded,
        Err(Error::CommandRetry) => StatusCode::UciStatusCommandRetry,
        Err(Error::RegulationUwbOff) => StatusCode::UciStatusRegulationUwbOff,
        // For any other error, only the generic failure can be given.
        Err(_) => StatusCode::UciStatusFailed,
    }
}

/// Translates an outcome into an optional payload: the payload itself on
/// success, nothing on any error.
///
/// The label identifies the call in the caller's diagnostics and has no
/// effect on the returned value.
#[allow(unused_variables)]
pub fn option_result_helper<T>(result: Result<T, Error>, error_msg: &str) -> (o: Option<T>)
    ensures
        o == optional_of(result),
        o is Some <==> result is Ok,
        result matches Ok(t) ==> o == Some(t),
{
    match result {
        Ok(t) => Some(t),
        Err(_) => None,
    }
}

/// Builds the diagnostic line emitted when an outcome fails:
/// `"<label> failed with <error-detail>"`.
pub fn failure_message(error_msg: &str, e: &Error) -> (m: String)
    ensures
        m@ == error_msg@ + " failed with "@ + e.spec_detail(),
{
    let mut m: String = error_msg.to_owned();
    m.append(" failed with ");
    m.append(e.detail());
    m
}

/// Every error kind outside the four specially mapped ones is classified
/// as the generic failure code: extending the error set cannot leave an
/// outcome without a status code.
pub proof fn lemma_unlisted_error_fails(e: Error)
    requires
        e != Error::BadParameters,
        e != Error::MaxSessionsExceeded,
        e != Error::CommandRetry,
        e != Error::RegulationUwbOff,
    ensures
        status_of_error(e) == StatusCode::UciStatusFailed,
{
}

/// Idempotence of the boolean translation: any two boolean bytes produced
/// for the same outcome are equal. The byte is fixed by the outcome
/// alone; the context label never enters the mapping.
pub proof fn lemma_boolean_result_idempotent<T>(result: Result<T, Error>, first: u8, second: u8)
    requires
        first == boolean_of(result),
        second == boolean_of(result),
    ensures
        first == second,
{
}

/// Idempotence of the status-byte translation: any two status bytes
/// produced for the same outcome are equal. The byte is fixed by the
/// outcome alone; the context label never enters the mapping.
pub proof fn lemma_byte_result_idempotent<T>(result: Result<T, Error>, first: i8, second: i8)
    requires
        first == status_byte_of(result),
        second == status_byte_of(result),
    ensures
        first == second,
{
}

/// Idempotence of the optional translation: any two optional payloads
/// produced for the same outcome are equal. The value is fixed by the
/// outcome alone; the context label never enters the mapping.
pub proof fn lemma_option_result_idempotent<T>(
    result: Result<T, Error>,
    first: Option<T>,
    second: Option<T>,
)
    requires
        first == optional_of(result),
        second == optional_of(result),
    ensures
        first == second,
{
}

} // verus!
