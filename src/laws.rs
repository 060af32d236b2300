use vstd::prelude::*;

use crate::codec::{decimal_value, FromJson, ToJson};
use crate::dispatch::{
    call_body, call_outcome, create_outcome, id_outcome, CreatedIds, HTTP_STATUS_OK,
};
use crate::envelope::{body_auth, request_model, ApiVersion, ZabbixApiResponse, JSON_RPC_VERSION, REQUEST_ID};
use crate::error::ZabbixApiError;
use crate::hostgroup::{CreateHostGroupResponse, ZabbixHostGroup};
use crate::json::{get_member, member, parsed_json, present_member, JsonModel};

verus! {

/// The envelope of a call loses nothing: its members give back the protocol tag, the method,
/// the parameters exactly as given, the request id, and the token where it travels in the
/// body (and no `auth` member otherwise).
pub proof fn envelope_encoding_is_lossless(
    method: Seq<char>,
    params: JsonModel,
    session: Option<Seq<char>>,
    version: ApiVersion,
)
    ensures
        ({
            let doc = request_model(method, params, REQUEST_ID, body_auth(version, session));
            &&& get_member(doc, "jsonrpc"@) == Some(JsonModel::Str(JSON_RPC_VERSION@))
            &&& get_member(doc, "method"@) == Some(JsonModel::Str(method))
            &&& get_member(doc, "params"@) == Some(params)
            &&& get_member(doc, "id"@) == Some(JsonModel::Int(REQUEST_ID as int))
            &&& get_member(doc, "auth"@) == match body_auth(version, session) {
                Some(a) => Some(JsonModel::Str(a)),
                None => None,
            }
        }),
{
    reveal_strlit("jsonrpc");
    reveal_strlit("method");
    reveal_strlit("params");
    reveal_strlit("id");
    reveal_strlit("auth");
    reveal_with_fuel(member, 6);
    let doc = request_model(method, params, REQUEST_ID, body_auth(version, session));
    let fields = doc->Object_0;
    assert(fields.drop_first()[0] == fields[1]);
    assert(fields.drop_first().drop_first()[0] == fields[2]);
    assert(fields.drop_first().drop_first().drop_first()[0] == fields[3]);
    if fields.len() == 5 {
        assert(fields.drop_first().drop_first().drop_first().drop_first()[0] == fields[4]);
    }
    assert("jsonrpc"@[0] == 'j' && "method"@[0] == 'm' && "params"@[0] == 'p' && "id"@[0] == 'i'
        && "auth"@[0] == 'a');
}

/// A host group reads back as itself from its own encoding.
pub proof fn host_group_round_trip(g: ZabbixHostGroup)
    ensures
        ZabbixHostGroup::decodable(g.json_model()),
        ZabbixHostGroup::decodes_to(g.json_model(), g),
{
    reveal_strlit("name");
    reveal_strlit("groupid");
    reveal_with_fuel(member, 3);
    let doc = g.json_model();
    assert(doc->Object_0[0] == ("name"@, JsonModel::Str(g.name@)));
    assert(doc->Object_0[1] == ("groupid"@, JsonModel::Str(g.group_id@)));
    assert(doc->Object_0.drop_first()[0] == doc->Object_0[1]);
    assert("name"@[0] == 'n' && "groupid"@[0] == 'g');
}

/// A response with a result and no error makes the call succeed with exactly that result.
pub proof fn result_gives_success<R: FromJson>(
    body: Seq<char>,
    j: JsonModel,
    r: Result<R, ZabbixApiError>,
)
    requires
        call_outcome(HTTP_STATUS_OK, body, r),
        parsed_json(body) == Some(j),
        ZabbixApiResponse::<R>::decodable(j),
        present_member(j, "result"@) is Some,
        present_member(j, "error"@) is None,
    ensures
        r matches Ok(v) && R::decodes_to(present_member(j, "result"@)->0, v),
{
}

/// A response with an error and no result makes the call fail with a remote error that holds
/// exactly the code, message and data that were sent.
pub proof fn error_gives_remote_error<R: FromJson>(
    body: Seq<char>,
    j: JsonModel,
    r: Result<R, ZabbixApiError>,
)
    requires
        call_outcome(HTTP_STATUS_OK, body, r),
        parsed_json(body) == Some(j),
        ZabbixApiResponse::<R>::decodable(j),
        present_member(j, "result"@) is None,
        present_member(j, "error"@) is Some,
    ensures
        r matches Err(ZabbixApiError::ApiCallError { zabbix }) && {
            let e = present_member(j, "error"@)->0;
            &&& get_member(e, "code"@) == Some(JsonModel::Int(zabbix.code as int))
            &&& get_member(e, "message"@) == Some(JsonModel::Str(zabbix.message@))
            &&& get_member(e, "data"@) == Some(JsonModel::Str(zabbix.data@))
        },
{
}

/// A response with neither a result nor an error is a bad request: never a success, never a
/// remote error.
pub proof fn empty_envelope_is_bad_request<R: FromJson>(
    body: Seq<char>,
    j: JsonModel,
    r: Result<R, ZabbixApiError>,
)
    requires
        call_outcome(HTTP_STATUS_OK, body, r),
        parsed_json(body) == Some(j),
        ZabbixApiResponse::<R>::decodable(j),
        present_member(j, "result"@) is None,
        present_member(j, "error"@) is None,
    ensures
        r matches Err(ZabbixApiError::BadRequestError),
        !(r is Ok),
        !(r matches Err(ZabbixApiError::ApiCallError { .. })),
{
}

/// A status other than OK is a bad request whatever the body holds, for plain and for create
/// calls alike.
pub proof fn failed_status_is_bad_request<R: FromJson + CreatedIds>(
    status: u16,
    body: Seq<char>,
    r: Result<R, ZabbixApiError>,
    id: Result<u32, ZabbixApiError>,
)
    requires
        status != HTTP_STATUS_OK,
    ensures
        call_outcome(status, body, r) ==> r matches Err(ZabbixApiError::BadRequestError),
        create_outcome::<R>(status, body, id) ==> id matches Err(
            ZabbixApiError::BadRequestError,
        ),
{
    if create_outcome::<R>(status, body, id) {
        let response = choose|response: Result<R, ZabbixApiError>|
            #![trigger call_outcome(status, body, response)]
            call_outcome(status, body, response) && match response {
                Ok(v) => id_outcome(v.created_ids(), id),
                Err(e) => id == Err::<u32, ZabbixApiError>(e),
            };
        assert(response matches Err(ZabbixApiError::BadRequestError));
    }
}

/// The identifier of a create call: an empty list is `EmptyIdListError`, a first entry that is
/// not a decimal `u32` is `InvalidIdError`, and a list of one decimal entry gives its value.
pub proof fn created_id_cases(ids: Seq<String>, r: Result<u32, ZabbixApiError>)
    requires
        id_outcome(ids, r),
    ensures
        ids.len() == 0 ==> r matches Err(ZabbixApiError::EmptyIdListError),
        ids.len() > 0 && decimal_value(ids[0]@) is None ==> r matches Err(
            ZabbixApiError::InvalidIdError,
        ),
        ids.len() == 1 && decimal_value(ids[0]@) is Some && decimal_value(ids[0]@)->0 <= u32::MAX
            ==> r == Ok::<
            u32,
            ZabbixApiError,
        >(decimal_value(ids[0]@)->0 as u32),
{
}

/// A host group creation whose envelope holds the id list `ids` yields what `created_id_cases`
/// says of that list: the dispatcher reads the ids the server sent, and nothing else.
pub proof fn create_call_reads_returned_ids(
    body: Seq<char>,
    j: JsonModel,
    ids: Seq<JsonModel>,
    r: Result<u32, ZabbixApiError>,
)
    requires
        create_outcome::<CreateHostGroupResponse>(HTTP_STATUS_OK, body, r),
        parsed_json(body) == Some(j),
        ZabbixApiResponse::<CreateHostGroupResponse>::decodable(j),
        present_member(j, "result"@) matches Some(m) && get_member(m, "groupids"@) == Some(
            JsonModel::Array(ids),
        ),
    ensures
        ids.len() == 0 ==> r matches Err(ZabbixApiError::EmptyIdListError),
        ids.len() > 0 && ids[0] is Str && decimal_value(ids[0]->Str_0) is None ==> r matches Err(
            ZabbixApiError::InvalidIdError,
        ),
        ids.len() > 0 && ids[0] is Str && decimal_value(ids[0]->Str_0) is Some && decimal_value(
            ids[0]->Str_0,
        )->0 <= u32::MAX ==> r == Ok::<u32, ZabbixApiError>(
            decimal_value(ids[0]->Str_0)->0 as u32,
        ),
{
    let response = choose|response: Result<CreateHostGroupResponse, ZabbixApiError>|
        #![trigger call_outcome(HTTP_STATUS_OK, body, response)]
        call_outcome(HTTP_STATUS_OK, body, response) && match response {
            Ok(v) => id_outcome(v.created_ids(), r),
            Err(e) => r == Err::<u32, ZabbixApiError>(e),
        };
    let v = response->Ok_0;
    assert(v.group_ids@.len() == ids.len());
    if ids.len() > 0 {
        assert(ids[0] == JsonModel::Str(v.group_ids@[0]@));
    }
}

/// Two failures of the same kind, with the same remote diagnostic where there is one.
pub open spec fn same_failure(a: ZabbixApiError, b: ZabbixApiError) -> bool {
    match (a, b) {
        (ZabbixApiError::UnsupportedApiError, ZabbixApiError::UnsupportedApiError) => true,
        (ZabbixApiError::BadRequestError, ZabbixApiError::BadRequestError) => true,
        (ZabbixApiError::ApiCallError { zabbix: x }, ZabbixApiError::ApiCallError { zabbix: y }) => {
            &&& x.code == y.code
            &&& x.message@ == y.message@
            &&& x.data@ == y.data@
        },
        _ => false,
    }
}

/// Issuing the same host group query twice against an unchanged server gives equal results:
/// the body sent is a function of the call's arguments, and the outcome a function of the
/// status and body received.
pub proof fn read_only_call_is_repeatable(
    method: Seq<char>,
    params: JsonModel,
    session: Option<Seq<char>>,
    version: ApiVersion,
    status: u16,
    body: Seq<char>,
    first: Result<Vec<ZabbixHostGroup>, ZabbixApiError>,
    second: Result<Vec<ZabbixHostGroup>, ZabbixApiError>,
)
    requires
        call_outcome(status, body, first),
        call_outcome(status, body, second),
    ensures
        call_body(method, params, session, version) == call_body(method, params, session, version),
        first is Ok <==> second is Ok,
        first matches Ok(a) ==> second matches Ok(b) && a@.len() == b@.len() && forall|k: int|
            0 <= k < a@.len() ==> (#[trigger] a@[k]).name@ == b@[k].name@ && a@[k].group_id@
                == b@[k].group_id@,
        first matches Err(x) ==> second matches Err(y) && same_failure(x, y),
{
    if status == HTTP_STATUS_OK {
        if let Some(j) = parsed_json(body) {
            if ZabbixApiResponse::<Vec<ZabbixHostGroup>>::decodable(j) {
                if let Some(m) = present_member(j, "result"@) {
                    let a = first->Ok_0;
                    let b = second->Ok_0;
                    assert forall|k: int| 0 <= k < a@.len() implies (#[trigger] a@[k]).name@
                        == b@[k].name@ && a@[k].group_id@ == b@[k].group_id@ by {
                        assert(ZabbixHostGroup::decodes_to(m->Array_0[k], a@[k]));
                        assert(ZabbixHostGroup::decodes_to(m->Array_0[k], b@[k]));
                    }
                }
            }
        }
    }
}

} // verus!
