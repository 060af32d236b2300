use vstd::prelude::*;

use crate::codec::{field, field_decodable, field_decodes_to, FromJson};
use crate::json::{Json, JsonModel};

verus! {

/// The diagnostic that the remote system sends with a failed call. It is carried as it came,
/// never interpreted.
#[derive(Clone, Debug)]
pub struct ZabbixError {
    pub code: i32,
    pub message: String,
    pub data: String,
}

impl FromJson for ZabbixError {
    open spec fn decodable(j: JsonModel) -> bool {
        &&& field_decodable::<i32>(j, "code"@)
        &&& field_decodable::<String>(j, "message"@)
        &&& field_decodable::<String>(j, "data"@)
    }

    open spec fn decodes_to(j: JsonModel, v: ZabbixError) -> bool {
        &&& field_decodes_to(j, "code"@, v.code)
        &&& field_decodes_to(j, "message"@, v.message)
        &&& field_decodes_to(j, "data"@, v.data)
    }

    fn from_json(j: &Json) -> (r: Option<ZabbixError>) {
        let code = field::<i32>(j, "code");
        let message = field::<String>(j, "message");
        let data = field::<String>(j, "data");
        match (code, message, data) {
            (Some(code), Some(message), Some(data)) => Some(ZabbixError { code, message, data }),
            _ => None,
        }
    }
}

/// The kinds of failure of a call. Each stays distinguishable, so that a caller can, for
/// instance, retry network failures alone.
#[derive(Debug)]
pub enum ZabbixApiError {
    /// The HTTP exchange could not complete; holds the HTTP client's description.
    NetworkError(String),
    /// The response body is not a well-formed envelope for the expected result type.
    UnsupportedApiError,
    /// The server answered with a status other than OK, or with an envelope that holds
    /// neither a result nor an error.
    BadRequestError,
    /// The remote system reported an error.
    ApiCallError { zabbix: ZabbixError },
    /// A create call succeeded but returned no identifier.
    EmptyIdListError,
    /// A create call returned an identifier that is not a decimal `u32`.
    InvalidIdError,
}

} // verus!
