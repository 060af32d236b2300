use vstd::prelude::*;

use crate::dispatch::{call_body, prepare_call, PostRequest};
use crate::envelope::ApiVersion;
use crate::json::{entries_model, json_object, no_entries, push_entry, Json, JsonModel};

verus! {

/// The remote method that reports the API version; it takes no session.
pub const METHOD_API_INFO: &'static str = "apiinfo.version";

/// The remote method that exchanges credentials for a session token.
pub const METHOD_LOGIN: &'static str = "user.login";

/// The parameters of a login.
pub open spec fn login_params_model(login: Seq<char>, secret: Seq<char>) -> JsonModel {
    JsonModel::Object(seq![("username"@, JsonModel::Str(login)), ("password"@, JsonModel::Str(secret))])
}

/// The parameters of a login with `login` and `secret`, sent as given: the remote system alone
/// judges them.
pub fn login_params(login: &str, secret: &str) -> (r: Json)
    ensures
        r@ == login_params_model(login@, secret@),
{
    let mut fields = no_entries();
    push_entry(&mut fields, "username", Json::Str(login.to_string()));
    push_entry(&mut fields, "password", Json::Str(secret.to_string()));
    assert(entries_model(fields@) == seq![("username"@, JsonModel::Str(login@)), ("password"@, JsonModel::Str(secret@))]);
    json_object(fields)
}

/// The request of a login. It carries no session; the token comes back as the call's result.
pub fn prepare_login(login: &str, secret: &str, version: ApiVersion) -> (r: PostRequest)
    ensures
        r.body@ == call_body(METHOD_LOGIN@, login_params_model(login@, secret@), None, version),
        r.bearer_token is None,
{
    let params = login_params(login, secret);
    prepare_call(METHOD_LOGIN, &params, None, version)
}

/// The request of the API version: an empty parameter object and no session.
pub fn prepare_api_info(version: ApiVersion) -> (r: PostRequest)
    ensures
        r.body@ == call_body(
            METHOD_API_INFO@,
            JsonModel::Object(Seq::empty()),
            None,
            version,
        ),
        r.bearer_token is None,
{
    let params = json_object(no_entries());
    prepare_call(METHOD_API_INFO, &params, None, version)
}

} // verus!
