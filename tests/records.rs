use zabbix_api::codec::{FromJson, ToJson};
use zabbix_api::dispatch::handle_response;
use zabbix_api::host::{GetHostsByIdsRequest, ZabbixHostTag};
use zabbix_api::item::{CreateItemRequest, GetItemsRequestById, ZabbixItem};
use zabbix_api::json::Json;
use zabbix_api::trigger::TriggerSearchResponse;
use zabbix_api::user::{CreateUserRequest, UserGroupId, UserMedia};
use zabbix_api::usergroup::{GetUserGroupsRequest, UserGroupFilter};
use zabbix_api::usermacro::{MacroType, ZabbixGlobalMacro, ZabbixHostMacro};
use zabbix_api::webscenario::{CreateWebScenarioRequest, ZabbixWebScenarioStep};

fn text(s: &str) -> Json {
    Json::Str(s.to_string())
}

#[test]
fn host_macro_decodes_type_code() {
    let input = r#"{"hostmacroid":"5","hostid":"10084","macro":"{$PASS}","value":"","type":"1","description":"d"}"#;
    let m = ZabbixHostMacro::from_json(&Json::parse(input).unwrap()).unwrap();
    assert_eq!(m.macro_name, "{$PASS}");
    assert_eq!(m.macro_type, MacroType::Secret);
    let bad = r#"{"hostmacroid":"5","hostid":"10084","macro":"{$PASS}","value":"","type":"9","description":"d"}"#;
    assert!(ZabbixHostMacro::from_json(&Json::parse(bad).unwrap()).is_none());
    assert_eq!(m.to_json().get("type"), Some(&text("1")));
}

#[test]
fn global_macro_is_decoded() {
    let input = r#"{"globalmacroid":"2","macro":"{$SNMP_COMMUNITY}","value":"public","type":0,"description":""}"#;
    let m = ZabbixGlobalMacro::from_json(&Json::parse(input).unwrap()).unwrap();
    assert_eq!(m.id, "2");
    assert_eq!(m.value, "public");
    assert_eq!(m.macro_type, 0);
}

#[test]
fn items_are_decoded_through_dispatch() {
    let body = r#"{"jsonrpc":"2.0","result":[{"itemid":"1","name":"CPU load","key_":"system.cpu.load","hostid":"10084"}],"id":1}"#;
    let items = handle_response::<Vec<ZabbixItem>>(200, body).unwrap();
    assert_eq!(items.len(), 1);
    assert_eq!(items[0].key_, "system.cpu.load");
    assert_eq!(items[0].host_id, "10084");
}

#[test]
fn item_requests_are_encoded() {
    let create = CreateItemRequest {
        name: "n".to_string(),
        key_: "k".to_string(),
        host_id: "10084".to_string(),
        item_type: 7,
        value_type: 4,
        interface_id: "0".to_string(),
        tags: vec![ZabbixHostTag { tag: "a".to_string(), value: "b".to_string() }],
        delay: "30s".to_string(),
    };
    let json = create.to_json();
    assert_eq!(json.get("type"), Some(&Json::Int(7)));
    assert_eq!(json.get("interfaceid"), Some(&text("0")));
    assert_eq!(json.get("tags").unwrap().as_array().unwrap()[0].get("value"), Some(&text("b")));

    let search = Json::Object(vec![("key_".to_string(), text("k"))]);
    let get = GetItemsRequestById {
        output: "extend".to_string(),
        with_triggers: false,
        host_ids: "10084".to_string(),
        search,
        sort_field: "name".to_string(),
    };
    let json = get.to_json();
    assert_eq!(json.get("with_triggers"), Some(&Json::Bool(false)));
    assert_eq!(json.get("hostids"), Some(&text("10084")));
    assert_eq!(json.get("search").unwrap().get("key_"), Some(&text("k")));
}

#[test]
fn trigger_search_response_is_decoded() {
    let input = r#"{"result":[{"triggerid":"1","expression":"e","description":"d","url":"","priority":"5","recovery_mode":"2","recovery_expression":"","event_name":""}]}"#;
    let response = TriggerSearchResponse::from_json(&Json::parse(input).unwrap()).unwrap();
    assert_eq!(response.result.len(), 1);
    assert_eq!(response.result[0].priority, 5);
    assert_eq!(response.result[0].recovery_mode, 2);
}

#[test]
fn user_request_leaves_out_unset_members() {
    let request = CreateUserRequest {
        username: "jdoe".to_string(),
        passwd: "secret-pass".to_string(),
        roleid: "1".to_string(),
        usrgrps: vec![UserGroupId { usrgrpid: "7".to_string() }],
        name: Some("John".to_string()),
        surname: None,
        url: None,
        autologin: None,
        autologout: None,
        lang: None,
        refresh: None,
        theme: None,
        user_type: Some(1),
        user_medias: Some(vec![UserMedia {
            mediatypeid: "1".to_string(),
            sendto: "jdoe@example.com".to_string(),
            active: 0,
            severity: 63,
            period: None,
        }]),
    };
    let json = request.to_json();
    assert_eq!(json.get("name"), Some(&text("John")));
    assert_eq!(json.get("surname"), None);
    assert_eq!(json.get("type"), Some(&Json::Int(1)));
    let media = &json.get("user_medias").unwrap().as_array().unwrap()[0];
    assert_eq!(media.get("severity"), Some(&Json::Int(63)));
    assert_eq!(media.get("period"), None);
    assert_eq!(json.get("usrgrps").unwrap().as_array().unwrap()[0].get("usrgrpid"), Some(&text("7")));
}

#[test]
fn user_group_query_is_encoded() {
    let request = GetUserGroupsRequest {
        output: Some("extend".to_string()),
        filter: Some(UserGroupFilter { name: Some(vec!["ops".to_string()]) }),
        usrgrpids: None,
        userids: None,
        status: Some(0),
        select_users: Some("extend".to_string()),
        select_rights: None,
    };
    let json = request.to_json();
    assert_eq!(json.get("filter").unwrap().get("name"), Some(&Json::Array(vec![text("ops")])));
    assert_eq!(json.get("selectUsers"), Some(&text("extend")));
    assert_eq!(json.get("selectRights"), None);
    assert_eq!(json.get("usrgrpids"), None);
    let empty = UserGroupFilter { name: None };
    assert_eq!(empty.to_json(), Json::Object(vec![]));
}

#[test]
fn web_scenario_and_host_id_requests_are_encoded() {
    let request = CreateWebScenarioRequest {
        name: "github".to_string(),
        host_id: "10084".to_string(),
        steps: vec![ZabbixWebScenarioStep {
            name: "Check github.com page".to_string(),
            url: "https://github.com".to_string(),
            status_codes: "200".to_string(),
            no: "0".to_string(),
        }],
    };
    let json = request.to_json();
    assert_eq!(json.get("hostid"), Some(&text("10084")));
    let steps = json.get("steps").unwrap().as_array().unwrap();
    assert_eq!(steps[0].get("status_codes"), Some(&text("200")));

    let by_ids = GetHostsByIdsRequest { hostids: vec!["1".to_string(), "2".to_string()] };
    assert_eq!(by_ids.to_json().get("hostids"), Some(&Json::Array(vec![text("1"), text("2")])));
}
