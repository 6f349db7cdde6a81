//! Reading the daemon's answer: HTTP status, envelope, correlation and outcome.

use crate::decode::{decode_optional, decode_required, optional, required, FromJson};
use crate::error::{CallError, RpcError, SchemaError};
use crate::json::{field_of, last_unknown, split_entries, Json};
use vstd::prelude::*;

verus! {

/// The code of the error objects that the client makes up itself.
pub const INTERNAL_ERROR: i32 = -32603;

/// The message of the error made up when the answer belongs to another request.
pub open spec fn wrong_id_message() -> Seq<char> {
    "Wrong ID returned."@
}

/// The message of the error made up when the answer holds neither a result nor an error.
pub open spec fn missing_error_message() -> Seq<char> {
    "RPC error could not be retrieved."@
}

/// The envelope of an answer: exactly the members `result`, `error` and `id`.
#[derive(Debug)]
pub struct RpcOutput<T> {
    pub result: Option<T>,
    pub error: Option<RpcError>,
    pub id: u64,
}

impl<T: FromJson> FromJson for RpcOutput<T> {
    open spec fn decoded(j: Json) -> Result<RpcOutput<T>, SchemaError> {
        match j {
            Json::Object(es) => if let Some(k) = last_unknown(es@, "result"@, "error"@, "id"@) {
                Err(SchemaError::UnknownField(k))
            } else {
                let result = optional::<T>(field_of(es@, "result"@));
                let error = optional::<RpcError>(field_of(es@, "error"@));
                let id = required::<u64>(field_of(es@, "id"@), "id");
                if result is Err {
                    Err(result->Err_0)
                } else if error is Err {
                    Err(error->Err_0)
                } else if id is Err {
                    Err(id->Err_0)
                } else {
                    Ok(RpcOutput { result: result->Ok_0, error: error->Ok_0, id: id->Ok_0 })
                }
            },
            _ => Err(SchemaError::WrongType),
        }
    }

    fn from_json(j: Json) -> (r: Result<RpcOutput<T>, SchemaError>) {
        match j {
            Json::Object(es) => {
                let k_result = String::from_str("result");
                let k_error = String::from_str("error");
                let k_id = String::from_str("id");
                proof {
                    reveal_strlit("result");
                    reveal_strlit("error");
                    reveal_strlit("id");
                }
                assert(k_result@.len() != k_error@.len());
                assert(k_result@.len() != k_id@.len());
                assert(k_error@.len() != k_id@.len());
                match split_entries(es, &k_result, &k_error, &k_id) {
                    Err(k) => Err(SchemaError::UnknownField(k)),
                    Ok((result, error, id)) => {
                        let result = match decode_optional::<T>(result) {
                            Ok(v) => v,
                            Err(e) => {
                                return Err(e);
                            },
                        };
                        let error = match decode_optional::<RpcError>(error) {
                            Ok(v) => v,
                            Err(e) => {
                                return Err(e);
                            },
                        };
                        let id = match decode_required::<u64>(id, "id") {
                            Ok(v) => v,
                            Err(e) => {
                                return Err(e);
                            },
                        };
                        Ok(RpcOutput { result, error, id })
                    },
                }
            },
            _ => Err(SchemaError::WrongType),
        }
    }
}

/// An error object that the client made up, with the given message.
pub open spec fn made_up(e: RpcError, message: Seq<char>) -> bool {
    e.code == INTERNAL_ERROR && e.message@ == message && e.data is None
}

/// What a decoded answer to request `expected_id` comes to: an answer to
/// another request is refused; else a result wins over an error; an answer
/// with neither is an error too.
pub open spec fn settled<T>(expected_id: u64, out: RpcOutput<T>, r: Result<T, CallError>) -> bool {
    if out.id != expected_id {
        r matches Err(CallError::Rpc(e)) && made_up(e, wrong_id_message())
    } else if out.result is Some {
        r == Ok::<T, CallError>(out.result->0)
    } else if out.error is Some {
        r == Err::<T, CallError>(CallError::Rpc(out.error->0))
    } else {
        r matches Err(CallError::Rpc(e)) && made_up(e, missing_error_message())
    }
}

pub fn settle<T>(expected_id: u64, out: RpcOutput<T>) -> (r: Result<T, CallError>)
    ensures
        settled(expected_id, out, r),
{
    if out.id != expected_id {
        return Err(
            CallError::Rpc(
                RpcError {
                    code: INTERNAL_ERROR,
                    message: String::from_str("Wrong ID returned."),
                    data: None,
                },
            ),
        );
    }
    match out.result {
        Some(v) => Ok(v),
        None => match out.error {
            Some(e) => Err(CallError::Rpc(e)),
            None => Err(
                CallError::Rpc(
                    RpcError {
                        code: INTERNAL_ERROR,
                        message: String::from_str("RPC error could not be retrieved."),
                        data: None,
                    },
                ),
            ),
        },
    }
}

/// What the JSON answer `j` to request `expected_id` comes to.
pub open spec fn answered<T: FromJson>(expected_id: u64, j: Json, r: Result<T, CallError>) -> bool {
    match RpcOutput::<T>::decoded(j) {
        Err(e) => r == Err::<T, CallError>(CallError::Schema(e)),
        Ok(out) => settled(expected_id, out, r),
    }
}

/// Decodes the JSON answer to request `expected_id` into its result or error.
pub fn decode_response<T: FromJson>(expected_id: u64, j: Json) -> (r: Result<T, CallError>)
    ensures
        answered(expected_id, j, r),
{
    match RpcOutput::<T>::from_json(j) {
        Err(e) => Err(CallError::Schema(e)),
        Ok(out) => settle(expected_id, out),
    }
}

/// The HTTP status of an answer decides whether its body is read at all.
pub open spec fn status_verdict(status: u16) -> Result<(), CallError> {
    if status == 200 {
        Ok(())
    } else if status == 401 {
        Err(CallError::Auth)
    } else {
        Err(CallError::Status(status))
    }
}

pub fn check_status(status: u16) -> (r: Result<(), CallError>)
    ensures
        r == status_verdict(status),
{
    if status == 200 {
        Ok(())
    } else if status == 401 {
        Err(CallError::Auth)
    } else {
        Err(CallError::Status(status))
    }
}

/// An answer that decodes but carries another request's identifier never
/// yields a result: it ends in the made-up error with the internal code.
pub proof fn lemma_other_id_refused<T: FromJson>(
    expected_id: u64,
    j: Json,
    r: Result<T, CallError>,
)
    requires
        answered::<T>(expected_id, j, r),
        RpcOutput::<T>::decoded(j) matches Ok(out) && out.id != expected_id,
    ensures
        r matches Err(CallError::Rpc(e)) && e.code == INTERNAL_ERROR && e.message@
            == wrong_id_message(),
{
}

/// Where an answer to the request carries both a result and an error, the
/// result wins.
pub proof fn lemma_result_wins<T>(expected_id: u64, out: RpcOutput<T>, r: Result<T, CallError>)
    requires
        settled(expected_id, out, r),
        out.id == expected_id,
        out.result is Some,
        out.error is Some,
    ensures
        r == Ok::<T, CallError>(out.result->0),
{
}

/// An answer to the request with neither a result nor an error ends in the
/// made-up error with the internal code, not in a crash.
pub proof fn lemma_neither_made_up<T>(expected_id: u64, out: RpcOutput<T>, r: Result<T, CallError>)
    requires
        settled(expected_id, out, r),
        out.id == expected_id,
        out.result is None,
        out.error is None,
    ensures
        r matches Err(CallError::Rpc(e)) && e.code == INTERNAL_ERROR && e.message@
            == missing_error_message() && e.data is None,
{
}

/// A call that ends in a result was answered under its own identifier.
pub proof fn lemma_result_has_call_id<T: FromJson>(
    expected_id: u64,
    j: Json,
    r: Result<T, CallError>,
)
    requires
        answered::<T>(expected_id, j, r),
        r is Ok,
    ensures
        RpcOutput::<T>::decoded(j) matches Ok(out) && out.id == expected_id,
{
}

} // verus!
