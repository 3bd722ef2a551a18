//! Trusted boundary to the acknowledgement-payload parsers.
//!
//! A successful creation sub-call is acknowledged with a protobuf-encoded
//! execute response whose inner data is the JSON form of the registration
//! service's execution info. Both decoding steps are pure functions of the
//! bytes, performed by the outside crates; their results are named by
//! uninterpreted spec functions so the correlator's contract can speak about
//! them exactly.

use vstd::prelude::*;

verus! {

#[verifier::external_type_specification]
#[verifier::external_body]
pub struct ExParseReplyError(cw_utils::ParseReplyError);

#[verifier::external_type_specification]
#[verifier::external_body]
pub struct ExStdError(cosmwasm_std::StdError);

/// What `cw_utils::parse_execute_response_data` decodes from the given
/// bytes: `None` if the protobuf envelope is malformed, otherwise the
/// optional inner data field.
pub uninterp spec fn execute_response_payload(d: Seq<u8>) -> Option<Option<Seq<u8>>>;

/// What the registration service's execution info deserialized from the
/// given JSON bytes carries as its task handle: `None` if the bytes are not
/// a well-formed encoding of that record.
pub uninterp spec fn task_info_hash(d: Seq<u8>) -> Option<Seq<char>>;

/// View of an optional byte result as the payload name uses it.
pub open spec fn opt_payload_view(p: Option<Vec<u8>>) -> Option<Seq<u8>> {
    match p {
        Some(b) => Some(b@),
        None => None,
    }
}

/// Relies on `cw_utils::parse_execute_response_data`: decodes the protobuf
/// execute-response envelope and hands out its optional inner data. The
/// result depends on the bytes alone.
#[verifier::external_body]
pub fn parse_execute_response_payload(d: &Vec<u8>) -> (r: Result<
    Option<Vec<u8>>,
    cw_utils::ParseReplyError,
>)
    ensures
        match r {
            Ok(p) => execute_response_payload(d@) == Some(opt_payload_view(p)),
            Err(_) => execute_response_payload(d@) is None,
        },
{
    match cw_utils::parse_execute_response_data(d.as_slice()) {
        Ok(resp) => Ok(resp.data.map(|b| b.0)),
        Err(e) => Err(e),
    }
}

/// Relies on `cosmwasm_std::from_json` for
/// `croncat_sdk_tasks::types::TaskExecutionInfo`: deserializes the record
/// and hands out its task-handle field. The result depends on the bytes
/// alone.
#[verifier::external_body]
pub fn parse_task_execution_hash(d: &Vec<u8>) -> (r: Result<String, cosmwasm_std::StdError>)
    ensures
        match r {
            Ok(h) => task_info_hash(d@) == Some(h@),
            Err(_) => task_info_hash(d@) is None,
        },
{
    match cosmwasm_std::from_json::<croncat_sdk_tasks::types::TaskExecutionInfo>(d.as_slice()) {
        Ok(info) => Ok(info.task_hash),
        Err(e) => Err(e),
    }
}

} // verus!
