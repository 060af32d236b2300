use vstd::prelude::*;

use crate::codec::{decimal_value, parse_u32, FromJson, ToJson};
use crate::envelope::{
    body_auth, get_api_request, header_auth, opt_view, request_model, ApiVersion,
    ZabbixApiResponse, REQUEST_ID,
};
use crate::error::{ZabbixApiError, ZabbixError};
use crate::json::{json_text, parse_json, parsed_json, present_member, render_json, JsonModel};

verus! {

/// The status of a successful HTTP exchange.
pub const HTTP_STATUS_OK: u16 = 200;

/// What goes out for one call: the JSON body, and the token for a bearer header where the
/// protocol version sends it that way.
#[derive(Debug)]
pub struct PostRequest {
    pub body: String,
    pub bearer_token: Option<String>,
}

pub open spec fn session_view(session: Option<&str>) -> Option<Seq<char>> {
    match session {
        Some(s) => Some(s@),
        None => None,
    }
}

/// The body sent for a call of `method` with `params`.
pub open spec fn call_body(
    method: Seq<char>,
    params: JsonModel,
    session: Option<Seq<char>>,
    version: ApiVersion,
) -> Seq<char> {
    json_text(request_model(method, params, REQUEST_ID, body_auth(version, session)))
}

/// The first half of every call: the envelope of `method` with `params`, written out, and the
/// token placed where `version` wants it.
pub fn prepare_call<P: ToJson>(
    method: &str,
    params: &P,
    session: Option<&str>,
    version: ApiVersion,
) -> (r: PostRequest)
    ensures
        r.body@ == call_body(method@, params.json_model(), session_view(session), version),
        opt_view(r.bearer_token) == header_auth(version, session_view(session)),
{
    let token = match session {
        Some(s) => Some(s.to_string()),
        None => None,
    };
    let request = get_api_request(method, params.to_json(), token, version);
    let envelope = request.to_json();
    assert(envelope@ == request_model(
        method@,
        params.json_model(),
        REQUEST_ID,
        body_auth(version, session_view(session)),
    ));
    let body = render_json(&envelope);
    let bearer_token = match version {
        ApiVersion::V6 => None,
        ApiVersion::V7 => match session {
            Some(s) => Some(s.to_string()),
            None => None,
        },
    };
    PostRequest { body, bearer_token }
}

/// What a call yields for a well-formed exchange whose envelope document is `j`, read with
/// the result type `R`: the result where one is present, else the remote error where one is
/// present, else `BadRequestError`. An envelope that does not decode is `UnsupportedApiError`.
pub open spec fn envelope_outcome<R: FromJson>(j: JsonModel, r: Result<R, ZabbixApiError>) -> bool {
    if !ZabbixApiResponse::<R>::decodable(j) {
        r matches Err(ZabbixApiError::UnsupportedApiError)
    } else {
        match present_member(j, "result"@) {
            Some(m) => r matches Ok(v) && R::decodes_to(m, v),
            None => match present_member(j, "error"@) {
                Some(e) => r matches Err(ZabbixApiError::ApiCallError { zabbix }) && ZabbixError::decodes_to(e, zabbix),
                None => r matches Err(ZabbixApiError::BadRequestError),
            },
        }
    }
}

/// What a call yields for the HTTP `status` and response `body`: a status other than OK is
/// `BadRequestError` whatever the body; a body that is not JSON is `UnsupportedApiError`.
pub open spec fn call_outcome<R: FromJson>(
    status: u16,
    body: Seq<char>,
    r: Result<R, ZabbixApiError>,
) -> bool {
    if status != HTTP_STATUS_OK {
        r matches Err(ZabbixApiError::BadRequestError)
    } else {
        match parsed_json(body) {
            None => r matches Err(ZabbixApiError::UnsupportedApiError),
            Some(j) => envelope_outcome(j, r),
        }
    }
}

/// The envelope that `body` holds, read with result type `R`.
pub fn decode_response<R: FromJson>(body: &str) -> (r: Result<ZabbixApiResponse<R>, ZabbixApiError>)
    ensures
        match r {
            Ok(response) => parsed_json(body@) matches Some(j)
                && ZabbixApiResponse::<R>::decodable(j)
                && ZabbixApiResponse::<R>::decodes_to(j, response),
            Err(e) => e is UnsupportedApiError && !(parsed_json(body@) matches Some(j)
                && ZabbixApiResponse::<R>::decodable(j)),
        },
{
    match parse_json(body) {
        Some(j) => match ZabbixApiResponse::<R>::from_json(&j) {
            Some(response) => Ok(response),
            None => Err(ZabbixApiError::UnsupportedApiError),
        },
        None => Err(ZabbixApiError::UnsupportedApiError),
    }
}

/// The result of a decoded envelope: its result where there is one, else its remote error,
/// else `BadRequestError`.
pub fn classify<R>(response: ZabbixApiResponse<R>) -> (r: Result<R, ZabbixApiError>)
    ensures
        match response.result {
            Some(v) => r == Ok::<R, ZabbixApiError>(v),
            None => match response.error {
                Some(e) => r == Err::<R, ZabbixApiError>(ZabbixApiError::ApiCallError { zabbix: e }),
                None => r matches Err(ZabbixApiError::BadRequestError),
            },
        },
{
    match response.result {
        Some(v) => Ok(v),
        None => match response.error {
            Some(e) => Err(ZabbixApiError::ApiCallError { zabbix: e }),
            None => Err(ZabbixApiError::BadRequestError),
        },
    }
}

/// The second half of every call: from the HTTP status and body of the exchange to the typed
/// result. The body is not looked at unless the status is OK.
pub fn handle_response<R: FromJson>(status: u16, body: &str) -> (r: Result<R, ZabbixApiError>)
    ensures
        call_outcome(status, body@, r),
{
    if status != HTTP_STATUS_OK {
        return Err(ZabbixApiError::BadRequestError);
    }
    match decode_response::<R>(body) {
        Ok(response) => classify(response),
        Err(e) => Err(e),
    }
}

/// What a raw call yields: the whole envelope where it holds a result, and otherwise the
/// failure that `call_outcome` gives.
pub open spec fn raw_outcome<R: FromJson>(
    status: u16,
    body: Seq<char>,
    r: Result<ZabbixApiResponse<R>, ZabbixApiError>,
) -> bool {
    match r {
        Ok(response) => {
            &&& status == HTTP_STATUS_OK
            &&& response.result is Some
            &&& parsed_json(body) matches Some(j) && ZabbixApiResponse::<R>::decodable(j)
                && ZabbixApiResponse::<R>::decodes_to(j, response)
        },
        Err(e) => call_outcome::<R>(status, body, Err(e)),
    }
}

/// Like `handle_response`, but hands back the whole envelope where it holds a result.
pub fn handle_raw_response<R: FromJson>(status: u16, body: &str) -> (r: Result<
    ZabbixApiResponse<R>,
    ZabbixApiError,
>)
    ensures
        raw_outcome(status, body@, r),
{
    if status != HTTP_STATUS_OK {
        return Err(ZabbixApiError::BadRequestError);
    }
    match decode_response::<R>(body) {
        Ok(response) => {
            if response.result.is_some() {
                Ok(response)
            } else {
                match response.error {
                    Some(e) => Err(ZabbixApiError::ApiCallError { zabbix: e }),
                    None => Err(ZabbixApiError::BadRequestError),
                }
            }
        },
        Err(e) => Err(e),
    }
}

/// What a create call yields from the identifiers `ids` that the server returned: the first
/// one read as a decimal `u32`.
pub open spec fn id_outcome(ids: Seq<String>, r: Result<u32, ZabbixApiError>) -> bool {
    if ids.len() == 0 {
        r matches Err(ZabbixApiError::EmptyIdListError)
    } else {
        match decimal_value(ids[0]@) {
            Some(n) => if n <= u32::MAX {
                r == Ok::<u32, ZabbixApiError>(n as u32)
            } else {
                r matches Err(ZabbixApiError::InvalidIdError)
            },
            None => r matches Err(ZabbixApiError::InvalidIdError),
        }
    }
}

/// The identifier of what a create call made: the first of `ids`, which the server sends as
/// decimal strings.
pub fn first_id(ids: &Vec<String>) -> (r: Result<u32, ZabbixApiError>)
    ensures
        id_outcome(ids@, r),
{
    if ids.len() == 0 {
        return Err(ZabbixApiError::EmptyIdListError);
    }
    match parse_u32(ids[0].as_str()) {
        Some(id) => Ok(id),
        None => Err(ZabbixApiError::InvalidIdError),
    }
}

/// The result of a create call: the identifiers of what it made.
pub trait CreatedIds {
    spec fn created_ids(&self) -> Seq<String>;

    fn ids(&self) -> (r: &Vec<String>)
        ensures
            r@ == self.created_ids(),
    ;
}

/// What a create call yields: the failure of the exchange, or the first identifier of its
/// result.
pub open spec fn create_outcome<R: FromJson + CreatedIds>(
    status: u16,
    body: Seq<char>,
    r: Result<u32, ZabbixApiError>,
) -> bool {
    exists|response: Result<R, ZabbixApiError>|
        #![trigger call_outcome(status, body, response)]
        call_outcome(status, body, response) && match response {
            Ok(v) => id_outcome(v.created_ids(), r),
            Err(e) => r == Err::<u32, ZabbixApiError>(e),
        }
}

/// The second half of a create call: `handle_response`, then the first identifier.
pub fn handle_create_response<R: FromJson + CreatedIds>(status: u16, body: &str) -> (r: Result<
    u32,
    ZabbixApiError,
>)
    ensures
        create_outcome::<R>(status, body@, r),
{
    let response = handle_response::<R>(status, body);
    match response {
        Ok(v) => first_id(v.ids()),
        Err(e) => Err(e),
    }
}

} // verus!
