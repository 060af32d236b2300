use zabbix_api::codec::{parse_u32, parse_u8};
use zabbix_api::dispatch::{
    classify, decode_response, first_id, handle_create_response, handle_raw_response,
    handle_response, prepare_call,
};
use zabbix_api::envelope::{get_api_request, ApiVersion, ZabbixApiResponse};
use zabbix_api::error::{ZabbixApiError, ZabbixError};
use zabbix_api::hostgroup::{CreateHostGroupResponse, ZabbixHostGroup};
use zabbix_api::json::Json;
use zabbix_api::session::{prepare_api_info, prepare_login};

fn obj(fields: Vec<(&str, Json)>) -> Json {
    Json::Object(fields.into_iter().map(|(k, v)| (k.to_string(), v)).collect())
}

fn text(s: &str) -> Json {
    Json::Str(s.to_string())
}

#[test]
fn envelope_round_trip_keeps_params() {
    let params = obj(vec![
        ("output", text("extend")),
        ("filter", obj(vec![("name", Json::Array(vec![text("group-a"), text("group-b")]))])),
        ("limit", Json::Int(-3)),
        ("flag", Json::Bool(true)),
        ("nothing", Json::Null),
    ]);
    let post = prepare_call("hostgroup.get", &params, Some("token-1"), ApiVersion::V6);
    let back = Json::parse(&post.body).unwrap();
    assert_eq!(back.get("params").unwrap().get("filter"), params.get("filter"));
    assert_eq!(back.get("params").unwrap().get("limit"), Some(&Json::Int(-3)));
    assert_eq!(back.get("params").unwrap().get("nothing"), Some(&Json::Null));
    assert_eq!(back.get("params").unwrap().get("flag"), Some(&Json::Bool(true)));
    assert_eq!(back.get("method"), Some(&text("hostgroup.get")));
    assert_eq!(back.get("jsonrpc"), Some(&text("2.0")));
    assert_eq!(back.get("id"), Some(&Json::Int(1)));
}

#[test]
fn legacy_version_puts_session_in_body() {
    let params = obj(vec![]);
    let post = prepare_call("host.get", &params, Some("abc123"), ApiVersion::V6);
    let back = Json::parse(&post.body).unwrap();
    assert_eq!(back.get("auth"), Some(&text("abc123")));
    assert!(post.bearer_token.is_none());
}

#[test]
fn modern_version_puts_session_in_header() {
    let params = obj(vec![]);
    let post = prepare_call("host.get", &params, Some("abc123"), ApiVersion::V7);
    let back = Json::parse(&post.body).unwrap();
    assert_eq!(back.get("auth"), None);
    assert_eq!(post.bearer_token, Some("abc123".to_string()));
}

#[test]
fn call_without_session_has_no_auth_anywhere() {
    let post = prepare_call("apiinfo.version", &obj(vec![]), None, ApiVersion::V6);
    let back = Json::parse(&post.body).unwrap();
    assert_eq!(back.get("auth"), None);
    assert!(post.bearer_token.is_none());
}

#[test]
fn request_envelope_fields() {
    let request = get_api_request("user.get", Json::Null, Some("s".to_string()), ApiVersion::V6);
    assert_eq!(request.jsonrpc, "2.0");
    assert_eq!(request.method, "user.get");
    assert_eq!(request.id, 1);
    assert_eq!(request.auth, Some("s".to_string()));
    let request = get_api_request("user.get", Json::Null, Some("s".to_string()), ApiVersion::V7);
    assert_eq!(request.auth, None);
}

#[test]
fn login_request_sends_credentials_as_given() {
    let post = prepare_login("Admin", "zabbix", ApiVersion::V7);
    let back = Json::parse(&post.body).unwrap();
    assert_eq!(back.get("method"), Some(&text("user.login")));
    let params = back.get("params").unwrap();
    assert_eq!(params.get("username"), Some(&text("Admin")));
    assert_eq!(params.get("password"), Some(&text("zabbix")));
    assert_eq!(back.get("auth"), None);
    assert!(post.bearer_token.is_none());

    let post = prepare_login("", "", ApiVersion::V6);
    let back = Json::parse(&post.body).unwrap();
    assert_eq!(back.get("params").unwrap().get("username"), Some(&text("")));
}

#[test]
fn api_info_request_has_empty_params() {
    let post = prepare_api_info(ApiVersion::V6);
    let back = Json::parse(&post.body).unwrap();
    assert_eq!(back.get("method"), Some(&text("apiinfo.version")));
    assert_eq!(back.get("params"), Some(&Json::Object(vec![])));
}

#[test]
fn result_present_is_success() {
    let body = r#"{"jsonrpc":"2.0","result":"0424bd59b807674191e7d77572075f33","id":1}"#;
    let r = handle_response::<String>(200, body).unwrap();
    assert_eq!(r, "0424bd59b807674191e7d77572075f33");
    assert!(!r.is_empty());
}

#[test]
fn error_present_is_remote_call_error() {
    let body = r#"{"jsonrpc":"2.0","error":{"code":-32602,"message":"Invalid params.","data":"Incorrect user name or password or account is temporarily blocked."},"id":1}"#;
    match handle_response::<String>(200, body) {
        Err(ZabbixApiError::ApiCallError { zabbix }) => {
            assert_eq!(zabbix.code, -32602);
            assert_eq!(zabbix.message, "Invalid params.");
            assert_eq!(
                zabbix.data,
                "Incorrect user name or password or account is temporarily blocked."
            );
        }
        other => panic!("unexpected outcome: {:?}", other),
    }
}

#[test]
fn null_result_with_error_is_remote_call_error() {
    let body = r#"{"jsonrpc":"2.0","result":null,"error":{"code":-32500,"message":"Application error.","data":"Host group \"g\" already exists."},"id":1}"#;
    match handle_response::<Vec<ZabbixHostGroup>>(200, body) {
        Err(ZabbixApiError::ApiCallError { zabbix }) => {
            assert_eq!(zabbix.code, -32500);
            assert_eq!(zabbix.data, "Host group \"g\" already exists.");
        }
        other => panic!("unexpected outcome: {:?}", other),
    }
}

#[test]
fn neither_result_nor_error_is_bad_request() {
    let body = r#"{"jsonrpc":"2.0","id":1}"#;
    assert!(matches!(
        handle_response::<String>(200, body),
        Err(ZabbixApiError::BadRequestError)
    ));
}

#[test]
fn failed_status_is_bad_request_whatever_the_body() {
    let good = r#"{"jsonrpc":"2.0","result":"x","id":1}"#;
    assert!(matches!(handle_response::<String>(500, good), Err(ZabbixApiError::BadRequestError)));
    assert!(matches!(handle_response::<String>(404, "<html>not found</html>"), Err(ZabbixApiError::BadRequestError)));
    assert!(matches!(
        handle_create_response::<CreateHostGroupResponse>(404, good),
        Err(ZabbixApiError::BadRequestError)
    ));
    assert!(matches!(handle_raw_response::<String>(502, good), Err(ZabbixApiError::BadRequestError)));
}

#[test]
fn malformed_body_is_unsupported() {
    assert!(matches!(handle_response::<String>(200, "{\"jsonrpc\":"), Err(ZabbixApiError::UnsupportedApiError)));
    assert!(matches!(handle_response::<String>(200, ""), Err(ZabbixApiError::UnsupportedApiError)));
}

#[test]
fn wrong_shape_is_unsupported() {
    let wrong_result = r#"{"jsonrpc":"2.0","result":42,"id":1}"#;
    assert!(matches!(handle_response::<String>(200, wrong_result), Err(ZabbixApiError::UnsupportedApiError)));
    let no_id = r#"{"jsonrpc":"2.0","result":"x"}"#;
    assert!(matches!(handle_response::<String>(200, no_id), Err(ZabbixApiError::UnsupportedApiError)));
    let id_too_big = r#"{"jsonrpc":"2.0","result":"x","id":300}"#;
    assert!(matches!(handle_response::<String>(200, id_too_big), Err(ZabbixApiError::UnsupportedApiError)));
    let float_in_result = r#"{"jsonrpc":"2.0","result":[{"name":"a","groupid":"1","w":1.5}],"id":1}"#;
    assert!(matches!(
        handle_response::<Vec<ZabbixHostGroup>>(200, float_in_result),
        Err(ZabbixApiError::UnsupportedApiError)
    ));
    let bad_error = r#"{"jsonrpc":"2.0","error":{"code":"x","message":"m","data":"d"},"id":1}"#;
    assert!(matches!(handle_response::<String>(200, bad_error), Err(ZabbixApiError::UnsupportedApiError)));
}

#[test]
fn host_groups_are_decoded() {
    let body = r#"{"jsonrpc":"2.0","result":[{"groupid":"2","name":"Linux servers","flags":"0"},{"groupid":"4","name":"Zabbix servers"}],"id":1}"#;
    let groups = handle_response::<Vec<ZabbixHostGroup>>(200, body).unwrap();
    assert_eq!(groups.len(), 2);
    assert_eq!(groups[0].name, "Linux servers");
    assert_eq!(groups[0].group_id, "2");
    assert_eq!(groups[1].name, "Zabbix servers");
    assert_eq!(groups[1].group_id, "4");
}

#[test]
fn unknown_filter_gives_empty_list() {
    let body = r#"{"jsonrpc":"2.0","result":[],"id":1}"#;
    let groups = handle_response::<Vec<ZabbixHostGroup>>(200, body).unwrap();
    assert!(groups.is_empty());
}

#[test]
fn same_read_only_call_gives_equal_results() {
    let body = r#"{"jsonrpc":"2.0","result":[{"groupid":"7","name":"example_group_1700000000"}],"id":1}"#;
    let params = Json::Object(vec![("output".to_string(), Json::Str("extend".to_string()))]);
    let first_post = prepare_call("hostgroup.get", &params, Some("t"), ApiVersion::V7);
    let second_post = prepare_call("hostgroup.get", &params, Some("t"), ApiVersion::V7);
    assert_eq!(first_post.body, second_post.body);
    let first = handle_response::<Vec<ZabbixHostGroup>>(200, body).unwrap();
    let second = handle_response::<Vec<ZabbixHostGroup>>(200, body).unwrap();
    assert_eq!(first, second);
}

#[test]
fn create_returns_parsed_id() {
    let body = r#"{"jsonrpc":"2.0","result":{"groupids":["107819"]},"id":1}"#;
    assert_eq!(handle_create_response::<CreateHostGroupResponse>(200, body).unwrap(), 107819);
}

#[test]
fn create_with_empty_ids_is_empty_id_list_error() {
    let body = r#"{"jsonrpc":"2.0","result":{"groupids":[]},"id":1}"#;
    assert!(matches!(
        handle_create_response::<CreateHostGroupResponse>(200, body),
        Err(ZabbixApiError::EmptyIdListError)
    ));
}

#[test]
fn create_with_non_numeric_id_is_invalid_id_error() {
    let body = r#"{"jsonrpc":"2.0","result":{"groupids":["abc"]},"id":1}"#;
    assert!(matches!(
        handle_create_response::<CreateHostGroupResponse>(200, body),
        Err(ZabbixApiError::InvalidIdError)
    ));
}

#[test]
fn create_duplicate_is_remote_call_error() {
    let body = r#"{"jsonrpc":"2.0","error":{"code":-32602,"message":"Invalid params.","data":"Host group \"example_group_1700000000\" already exists."},"id":1}"#;
    match handle_create_response::<CreateHostGroupResponse>(200, body) {
        Err(ZabbixApiError::ApiCallError { zabbix }) => {
            assert_eq!(zabbix.message, "Invalid params.");
            assert_eq!(zabbix.data, "Host group \"example_group_1700000000\" already exists.");
        }
        other => panic!("unexpected outcome: {:?}", other),
    }
}

#[test]
fn first_id_cases() {
    assert!(matches!(first_id(&vec![]), Err(ZabbixApiError::EmptyIdListError)));
    assert!(matches!(first_id(&vec!["12x".to_string()]), Err(ZabbixApiError::InvalidIdError)));
    assert!(matches!(first_id(&vec!["-5".to_string()]), Err(ZabbixApiError::InvalidIdError)));
    assert!(matches!(first_id(&vec!["4294967296".to_string()]), Err(ZabbixApiError::InvalidIdError)));
    assert_eq!(first_id(&vec!["42".to_string()]).unwrap(), 42);
    assert_eq!(first_id(&vec!["4294967295".to_string(), "x".to_string()]).unwrap(), 4294967295);
    assert_eq!(first_id(&vec!["+8".to_string()]).unwrap(), 8);
}

#[test]
fn decimal_parsing() {
    assert_eq!(parse_u32("0"), Some(0));
    assert_eq!(parse_u32("007"), Some(7));
    assert_eq!(parse_u32(""), None);
    assert_eq!(parse_u32("+"), None);
    assert_eq!(parse_u32(" 1"), None);
    assert_eq!(parse_u8("255"), Some(255));
    assert_eq!(parse_u8("256"), None);
}

#[test]
fn classify_prefers_result_then_error() {
    let both = ZabbixApiResponse {
        jsonrpc: "2.0".to_string(),
        result: Some("r".to_string()),
        id: 1,
        error: Some(ZabbixError { code: 1, message: "m".to_string(), data: "d".to_string() }),
    };
    assert_eq!(classify(both).unwrap(), "r");
    let error_only: ZabbixApiResponse<String> = ZabbixApiResponse {
        jsonrpc: "2.0".to_string(),
        result: None,
        id: 1,
        error: Some(ZabbixError { code: 1, message: "m".to_string(), data: "d".to_string() }),
    };
    assert!(matches!(classify(error_only), Err(ZabbixApiError::ApiCallError { .. })));
    let neither: ZabbixApiResponse<String> =
        ZabbixApiResponse { jsonrpc: "2.0".to_string(), result: None, id: 1, error: None };
    assert!(matches!(classify(neither), Err(ZabbixApiError::BadRequestError)));
}

#[test]
fn raw_call_keeps_whole_envelope() {
    let body = r#"{"jsonrpc":"2.0","result":{"any":["shape"]},"id":1}"#;
    let response = handle_raw_response::<Json>(200, body).unwrap();
    assert_eq!(response.jsonrpc, "2.0");
    assert_eq!(response.id, 1);
    let result = response.result.unwrap();
    assert_eq!(result.get("any"), Some(&Json::Array(vec![Json::Str("shape".to_string())])));
    let neither = r#"{"jsonrpc":"2.0","id":1}"#;
    assert!(matches!(handle_raw_response::<Json>(200, neither), Err(ZabbixApiError::BadRequestError)));
}

#[test]
fn decode_response_reads_envelope() {
    let body = r#"{"jsonrpc":"2.0","result":"6.0.0","id":1}"#;
    let response = decode_response::<String>(body).unwrap();
    assert_eq!(response.result, Some("6.0.0".to_string()));
    assert!(response.error.is_none());
}

#[test]
fn json_text_round_trip() {
    let value = obj(vec![
        ("b", Json::Int(i64::MIN)),
        ("a", text("quote \" and \\ and \n")),
        ("c", Json::Array(vec![])),
    ]);
    let rendered = value.render();
    assert!(rendered.contains("\\\""));
    assert_ne!(rendered, "");
    let back = Json::parse(&rendered).unwrap();
    assert_eq!(back.get("a"), value.get("a"));
    assert_eq!(back.get("b"), Some(&Json::Int(i64::MIN)));
    assert_eq!(back.get("c"), Some(&Json::Array(vec![])));
    assert_eq!(Json::parse("1.5"), None);
    assert_eq!(Json::parse("18446744073709551615"), None);
    assert_eq!(Json::parse("[1,2"), None);
}
