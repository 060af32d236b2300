use vstd::prelude::*;

use crate::codec::{
    field, field_decodable, field_decodes_to, optional_field, optional_field_decodable,
    optional_field_decodes_to, FromJson, ToJson,
};
use crate::error::ZabbixError;
use crate::json::{
    entries_model, json_object, no_entries, opt_model, push_entry, push_optional_entry, with_optional, Json, JsonModel,
};

verus! {

/// The protocol tag that every request carries.
pub const JSON_RPC_VERSION: &'static str = "2.0";

/// The request id that every request carries: each call is a single exchange.
pub const REQUEST_ID: i8 = 1;

/// Where the session token travels.
#[derive(Clone, Copy, Debug, PartialEq, Eq, Structural)]
pub enum ApiVersion {
    /// Older servers (6.x): the token is the `auth` member of the request body.
    V6,
    /// Newer servers (7.x): the token is a bearer `Authorization` header, and the body has no
    /// `auth` member.
    V7,
}

/// The request envelope.
#[derive(Debug)]
pub struct ZabbixApiRequest {
    pub jsonrpc: String,
    pub method: String,
    pub params: Json,
    pub id: i8,
    pub auth: Option<String>,
}

/// The token that a request of `version` carries in its body.
pub open spec fn body_auth(version: ApiVersion, session: Option<Seq<char>>) -> Option<Seq<char>> {
    match version {
        ApiVersion::V6 => session,
        ApiVersion::V7 => None,
    }
}

/// The token that a request of `version` carries as a bearer header.
pub open spec fn header_auth(version: ApiVersion, session: Option<Seq<char>>) -> Option<Seq<char>> {
    match version {
        ApiVersion::V6 => None,
        ApiVersion::V7 => session,
    }
}

pub open spec fn opt_view(s: Option<String>) -> Option<Seq<char>> {
    match s {
        Some(t) => Some(t@),
        None => None,
    }
}

/// The document of a request envelope: the protocol tag, the method, the parameters as given,
/// the id, and `auth` only where a token travels in the body.
pub open spec fn request_model(
    method: Seq<char>,
    params: JsonModel,
    id: i8,
    auth: Option<Seq<char>>,
) -> JsonModel {
    JsonModel::Object(
        with_optional(
            seq![
                ("jsonrpc"@, JsonModel::Str(JSON_RPC_VERSION@)),
                ("method"@, JsonModel::Str(method)),
                ("params"@, params),
                ("id"@, JsonModel::Int(id as int)),
            ],
            "auth"@,
            match auth {
                Some(a) => Some(JsonModel::Str(a)),
                None => None,
            },
        ),
    )
}

/// Builds the envelope of a call of `method` with `params`; `session` goes into the body only
/// for `ApiVersion::V6`.
pub fn get_api_request(
    method: &str,
    params: Json,
    session: Option<String>,
    version: ApiVersion,
) -> (r: ZabbixApiRequest)
    ensures
        r.jsonrpc@ == JSON_RPC_VERSION@,
        r.method@ == method@,
        r.params == params,
        r.id == REQUEST_ID,
        opt_view(r.auth) == body_auth(version, opt_view(session)),
{
    let auth = match version {
        ApiVersion::V6 => session,
        ApiVersion::V7 => None,
    };
    ZabbixApiRequest {
        jsonrpc: JSON_RPC_VERSION.to_string(),
        method: method.to_string(),
        params,
        id: REQUEST_ID,
        auth,
    }
}

impl ToJson for ZabbixApiRequest {
    open spec fn json_model(&self) -> JsonModel {
        JsonModel::Object(
            with_optional(
                seq![
                    ("jsonrpc"@, JsonModel::Str(self.jsonrpc@)),
                    ("method"@, JsonModel::Str(self.method@)),
                    ("params"@, self.params@),
                    ("id"@, JsonModel::Int(self.id as int)),
                ],
                "auth"@,
                match self.auth {
                    Some(a) => Some(JsonModel::Str(a@)),
                    None => None,
                },
            ),
        )
    }

    fn to_json(&self) -> (r: Json) {
        let mut fields = no_entries();
        push_entry(&mut fields, "jsonrpc", Json::Str(self.jsonrpc.clone()));
        push_entry(&mut fields, "method", Json::Str(self.method.clone()));
        push_entry(&mut fields, "params", self.params.duplicate());
        push_entry(&mut fields, "id", Json::Int(self.id as i64));
        assert(entries_model(fields@) == seq![
            ("jsonrpc"@, JsonModel::Str(self.jsonrpc@)),
            ("method"@, JsonModel::Str(self.method@)),
            ("params"@, self.params@),
            ("id"@, JsonModel::Int(self.id as int)),
        ]);
        let auth = match &self.auth {
            Some(a) => Some(Json::Str(a.clone())),
            None => None,
        };
        assert(opt_model(auth) == match self.auth {
            Some(a) => Some(JsonModel::Str(a@)),
            None => None,
        });
        push_optional_entry(&mut fields, "auth", auth);
        json_object(fields)
    }
}

/// The response envelope, over the type `R` of the expected result.
#[derive(Debug)]
pub struct ZabbixApiResponse<R> {
    pub jsonrpc: String,
    pub result: Option<R>,
    pub id: i8,
    pub error: Option<ZabbixError>,
}

impl<R: FromJson> FromJson for ZabbixApiResponse<R> {
    /// A well-formed envelope: the tag and the id are there; `result` and `error` may be absent
    /// or `null`, and otherwise hold a value of their type.
    open spec fn decodable(j: JsonModel) -> bool {
        &&& field_decodable::<String>(j, "jsonrpc"@)
        &&& field_decodable::<i8>(j, "id"@)
        &&& optional_field_decodable::<R>(j, "result"@)
        &&& optional_field_decodable::<ZabbixError>(j, "error"@)
    }

    open spec fn decodes_to(j: JsonModel, v: ZabbixApiResponse<R>) -> bool {
        &&& field_decodes_to(j, "jsonrpc"@, v.jsonrpc)
        &&& field_decodes_to(j, "id"@, v.id)
        &&& optional_field_decodes_to(j, "result"@, v.result)
        &&& optional_field_decodes_to(j, "error"@, v.error)
    }

    fn from_json(j: &Json) -> (r: Option<ZabbixApiResponse<R>>) {
        let jsonrpc = field::<String>(j, "jsonrpc");
        let id = field::<i8>(j, "id");
        let result = optional_field::<R>(j, "result");
        let error = optional_field::<ZabbixError>(j, "error");
        match (jsonrpc, id, result, error) {
            (Some(jsonrpc), Some(id), Some(result), Some(error)) => Some(
                ZabbixApiResponse { jsonrpc, result, id, error },
            ),
            _ => None,
        }
    }
}

} // verus!
