//! Decoding of JSON values into typed results, under the daemon's schemas.

use crate::error::{RpcError, SchemaError};
use crate::json::{field_of, last_unknown, split_entries, Json, JsonNumber};
use vstd::prelude::*;

verus! {

/// A type that a JSON value can be decoded into.
pub trait FromJson: Sized {
    /// The value that `j` stands for, or how it fails to stand for one.
    spec fn decoded(j: Json) -> Result<Self, SchemaError>;

    fn from_json(j: Json) -> (r: Result<Self, SchemaError>)
        ensures
            r == Self::decoded(j),
    ;
}

/// A member that may be absent or null.
pub open spec fn optional<T: FromJson>(j: Option<Json>) -> Result<Option<T>, SchemaError> {
    match j {
        None => Ok(None),
        Some(Json::Null) => Ok(None),
        Some(v) => match T::decoded(v) {
            Ok(x) => Ok(Some(x)),
            Err(e) => Err(e),
        },
    }
}

/// A member, named `name`, that must be present.
pub open spec fn required<T: FromJson>(j: Option<Json>, name: &'static str) -> Result<T, SchemaError> {
    match j {
        None => Err(SchemaError::MissingField(name)),
        Some(v) => T::decoded(v),
    }
}

pub fn decode_optional<T: FromJson>(j: Option<Json>) -> (r: Result<Option<T>, SchemaError>)
    ensures
        r == optional::<T>(j),
{
    match j {
        None => Ok(None),
        Some(Json::Null) => Ok(None),
        Some(v) => match T::from_json(v) {
            Ok(x) => Ok(Some(x)),
            Err(e) => Err(e),
        },
    }
}

pub fn decode_required<T: FromJson>(j: Option<Json>, name: &'static str) -> (r: Result<
    T,
    SchemaError,
>)
    ensures
        r == required::<T>(j, name),
{
    match j {
        None => Err(SchemaError::MissingField(name)),
        Some(v) => T::from_json(v),
    }
}

/// Any value, taken as it is.
impl FromJson for Json {
    open spec fn decoded(j: Json) -> Result<Json, SchemaError> {
        Ok(j)
    }

    fn from_json(j: Json) -> (r: Result<Json, SchemaError>) {
        Ok(j)
    }
}

impl FromJson for String {
    open spec fn decoded(j: Json) -> Result<String, SchemaError> {
        match j {
            Json::Str(s) => Ok(s),
            _ => Err(SchemaError::WrongType),
        }
    }

    fn from_json(j: Json) -> (r: Result<String, SchemaError>) {
        match j {
            Json::Str(s) => Ok(s),
            _ => Err(SchemaError::WrongType),
        }
    }
}

impl FromJson for bool {
    open spec fn decoded(j: Json) -> Result<bool, SchemaError> {
        match j {
            Json::Bool(b) => Ok(b),
            _ => Err(SchemaError::WrongType),
        }
    }

    fn from_json(j: Json) -> (r: Result<bool, SchemaError>) {
        match j {
            Json::Bool(b) => Ok(b),
            _ => Err(SchemaError::WrongType),
        }
    }
}

/// A non-negative integer.
impl FromJson for u64 {
    open spec fn decoded(j: Json) -> Result<u64, SchemaError> {
        match j {
            Json::Number(JsonNumber::Unsigned(n)) => Ok(n),
            _ => Err(SchemaError::WrongType),
        }
    }

    fn from_json(j: Json) -> (r: Result<u64, SchemaError>) {
        match j {
            Json::Number(JsonNumber::Unsigned(n)) => Ok(n),
            _ => Err(SchemaError::WrongType),
        }
    }
}

/// An integer within the range of `i64`.
impl FromJson for i64 {
    open spec fn decoded(j: Json) -> Result<i64, SchemaError> {
        match j {
            Json::Number(JsonNumber::Unsigned(n)) => if n <= i64::MAX as u64 {
                Ok(n as i64)
            } else {
                Err(SchemaError::WrongType)
            },
            Json::Number(JsonNumber::Negative(n)) => Ok(n),
            _ => Err(SchemaError::WrongType),
        }
    }

    fn from_json(j: Json) -> (r: Result<i64, SchemaError>) {
        match j {
            Json::Number(JsonNumber::Unsigned(n)) => if n <= i64::MAX as u64 {
                Ok(n as i64)
            } else {
                Err(SchemaError::WrongType)
            },
            Json::Number(JsonNumber::Negative(n)) => Ok(n),
            _ => Err(SchemaError::WrongType),
        }
    }
}

/// An integer within the range of `i32`.
impl FromJson for i32 {
    open spec fn decoded(j: Json) -> Result<i32, SchemaError> {
        match j {
            Json::Number(JsonNumber::Unsigned(n)) => if n <= i32::MAX as u64 {
                Ok(n as i32)
            } else {
                Err(SchemaError::WrongType)
            },
            Json::Number(JsonNumber::Negative(n)) => if n >= i32::MIN as i64 {
                Ok(n as i32)
            } else {
                Err(SchemaError::WrongType)
            },
            _ => Err(SchemaError::WrongType),
        }
    }

    fn from_json(j: Json) -> (r: Result<i32, SchemaError>) {
        match j {
            Json::Number(JsonNumber::Unsigned(n)) => if n <= i32::MAX as u64 {
                Ok(n as i32)
            } else {
                Err(SchemaError::WrongType)
            },
            Json::Number(JsonNumber::Negative(n)) => if n >= i32::MIN as i64 {
                Ok(n as i32)
            } else {
                Err(SchemaError::WrongType)
            },
            _ => Err(SchemaError::WrongType),
        }
    }
}

/// An error object: exactly the members `code`, `message` and `data`,
/// the first two mandatory.
impl FromJson for RpcError {
    open spec fn decoded(j: Json) -> Result<RpcError, SchemaError> {
        match j {
            Json::Object(es) => if let Some(k) = last_unknown(es@, "code"@, "message"@, "data"@) {
                Err(SchemaError::UnknownField(k))
            } else {
                let code = required::<i32>(field_of(es@, "code"@), "code");
                let message = required::<String>(field_of(es@, "message"@), "message");
                let data = optional::<Json>(field_of(es@, "data"@));
                if code is Err {
                    Err(code->Err_0)
                } else if message is Err {
                    Err(message->Err_0)
                } else {
                    Ok(RpcError { code: code->Ok_0, message: message->Ok_0, data: data->Ok_0 })
                }
            },
            _ => Err(SchemaError::WrongType),
        }
    }

    fn from_json(j: Json) -> (r: Result<RpcError, SchemaError>) {
        match j {
            Json::Object(es) => {
                let k_code = String::from_str("code");
                let k_message = String::from_str("message");
                let k_data = String::from_str("data");
                proof {
                    reveal_strlit("code");
                    reveal_strlit("message");
                    reveal_strlit("data");
                }
                assert(k_code@[0] != k_data@[0]);
                assert(k_code@.len() != k_message@.len());
                assert(k_message@.len() != k_data@.len());
                match split_entries(es, &k_code, &k_message, &k_data) {
                    Err(k) => Err(SchemaError::UnknownField(k)),
                    Ok((code, message, data)) => {
                        let code = decode_required::<i32>(code, "code");
                        let message = decode_required::<String>(message, "message");
                        let data = decode_optional::<Json>(data);
                        match (code, message, data) {
                            (Err(e), _, _) => Err(e),
                            (Ok(_), Err(e), _) => Err(e),
                            (Ok(code), Ok(message), Ok(data)) => Ok(RpcError { code, message, data }),
                            (Ok(_), Ok(_), Err(e)) => Err(e),
                        }
                    },
                }
            },
            _ => Err(SchemaError::WrongType),
        }
    }
}

} // verus!

verus! {

/// Reads an optional boolean member of an object without taking the object apart.
pub fn field_bool(es: &Vec<(String, Json)>, key: &String) -> (r: Result<Option<bool>, SchemaError>)
    ensures
        r == optional::<bool>(field_of(es@, key@)),
{
    match crate::json::find_field(es, key) {
        None => Ok(None),
        Some(i) => match &es[i].1 {
            Json::Null => Ok(None),
            Json::Bool(b) => Ok(Some(*b)),
            _ => Err(SchemaError::WrongType),
        },
    }
}

/// Reads an optional string member of an object.
pub fn field_string(es: &Vec<(String, Json)>, key: &String) -> (r: Result<
    Option<String>,
    SchemaError,
>)
    ensures
        r == optional::<String>(field_of(es@, key@)),
{
    match crate::json::find_field(es, key) {
        None => Ok(None),
        Some(i) => match &es[i].1 {
            Json::Null => Ok(None),
            Json::Str(s) => Ok(Some(s.clone())),
            _ => Err(SchemaError::WrongType),
        },
    }
}

/// Reads an optional `i64` member of an object.
pub fn field_i64(es: &Vec<(String, Json)>, key: &String) -> (r: Result<Option<i64>, SchemaError>)
    ensures
        r == optional::<i64>(field_of(es@, key@)),
{
    match crate::json::find_field(es, key) {
        None => Ok(None),
        Some(i) => match &es[i].1 {
            Json::Null => Ok(None),
            Json::Number(JsonNumber::Unsigned(n)) => if *n <= i64::MAX as u64 {
                Ok(Some(*n as i64))
            } else {
                Err(SchemaError::WrongType)
            },
            Json::Number(JsonNumber::Negative(n)) => Ok(Some(*n)),
            _ => Err(SchemaError::WrongType),
        },
    }
}

} // verus!
