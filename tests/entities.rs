use zabbix_api::codec::{FromJson, ToJson};
use zabbix_api::host::{CreateHostRequest, HostStatus, UpdateHostRequest, ZabbixHost, ZabbixHostInterface, ZabbixHostTag};
use zabbix_api::hostgroup::{CreateHostGroupRequest, GetHostGroupsRequest, ZabbixHostGroup, ZabbixHostGroupId};
use zabbix_api::item::GetItemsRequestByKey;
use zabbix_api::json::Json;
use zabbix_api::template::{ZabbixTemplate, ZabbixTemplateId};
use zabbix_api::trigger::{CreateTriggerRequest, GetTriggerByDescriptionRequest, ZabbixTrigger};
use zabbix_api::user::ZabbixUser;
use zabbix_api::usergroup::{CreateUserGroupRequest, UserGroupPermission, UserGroupUser};
use zabbix_api::usermacro::{CreateZabbixHostMacro, MacroType};
use zabbix_api::webscenario::{GetWebScenarioByNameRequest, ZabbixWebScenario};
use zabbix_api::ZABBIX_EXTEND_PROPERTY_VALUE;

fn text(s: &str) -> Json {
    Json::Str(s.to_string())
}

#[test]
fn deserialize_test() {
    let input = r#"
            {"triggerid":"24099","expression":"{34519}>=1","description":"Site 'example.com' is unavailable","url":"https://example.com","status":"0","value":"0","priority":"4","lastchange":"0","comments":"","error":"","templateid":"0","type":"0","state":"0","flags":"0","recovery_mode":"1","recovery_expression":"{34520}=0","correlation_mode":"0","correlation_tag":"","manual_close":"0","opdata":"","event_name":"example.com is down","uuid":"","url_name":"","functions":[{"functionid":"34519","itemid":"48175","triggerid":"24099","parameter":"$,#3","function":"avg"},{"functionid":"34520","itemid":"48175","triggerid":"24099","parameter":"$","function":"last"}]}
            "#;

    let result = ZabbixTrigger::from_json(&Json::parse(input).unwrap()).unwrap();

    assert_eq!(result.priority, 4);
    assert_eq!(result.recovery_mode, 1);
}

#[test]
fn trigger_with_non_numeric_priority_is_rejected() {
    let input = r#"{"triggerid":"1","expression":"e","description":"d","url":"","priority":"high","recovery_mode":"0","recovery_expression":"","event_name":""}"#;
    assert!(ZabbixTrigger::from_json(&Json::parse(input).unwrap()).is_none());
}

#[test]
fn host_status_codes() {
    assert_eq!(HostStatus::from_code("0"), Some(HostStatus::Enabled));
    assert_eq!(HostStatus::from_code("1"), Some(HostStatus::Disabled));
    assert_eq!(HostStatus::from_code("2"), None);
    assert_eq!(HostStatus::from_code("10"), None);
    assert_eq!("1".parse::<HostStatus>(), Ok(HostStatus::Disabled));
    assert_eq!(HostStatus::Disabled.to_json(), text("1"));
    assert_eq!(HostStatus::Enabled.to_json(), text("0"));
}

#[test]
fn disable_host_sets_status() {
    let request = UpdateHostRequest::disable_host("10084".to_string());
    assert_eq!(request.hostid, "10084");
    assert_eq!(request.status, HostStatus::Disabled);
    let json = request.to_json();
    assert_eq!(json.get("status"), Some(&text("1")));
    assert_eq!(json.get("hostid"), Some(&text("10084")));
}

#[test]
fn host_is_decoded() {
    let input = r#"{"hostid":"10084","host":"Zabbix server","status":"0"}"#;
    let host = ZabbixHost::from_json(&Json::parse(input).unwrap()).unwrap();
    assert_eq!(host.host_id, "10084");
    assert_eq!(host.host, "Zabbix server");
    assert_eq!(host.status, HostStatus::Enabled);
    let bad = r#"{"hostid":"10084","host":"Zabbix server","status":"7"}"#;
    assert!(ZabbixHost::from_json(&Json::parse(bad).unwrap()).is_none());
}

#[test]
fn create_host_request_is_encoded() {
    let request = CreateHostRequest {
        host: "srv-1203".to_string(),
        groups: vec![ZabbixHostGroupId { group_id: "2".to_string() }],
        interfaces: vec![ZabbixHostInterface {
            interface_type: 1,
            main: 1,
            ip: "127.0.0.1".to_string(),
            dns: "".to_string(),
            use_ip: 1,
            port: "10050".to_string(),
        }],
        tags: vec![ZabbixHostTag { tag: "env".to_string(), value: "test".to_string() }],
        templates: vec![],
        macros: vec![CreateZabbixHostMacro::builder().macro_name("{$A}").value("1").build()],
        inventory_mode: 0,
        inventory: Json::Object(vec![]),
    };
    let json = request.to_json();
    assert_eq!(json.get("host"), Some(&text("srv-1203")));
    let groups = json.get("groups").unwrap().as_array().unwrap();
    assert_eq!(groups[0].get("groupid"), Some(&text("2")));
    let interfaces = json.get("interfaces").unwrap().as_array().unwrap();
    assert_eq!(interfaces[0].get("type"), Some(&Json::Int(1)));
    assert_eq!(interfaces[0].get("useip"), Some(&Json::Int(1)));
    assert_eq!(json.get("inventory_mode"), Some(&Json::Int(0)));
    assert_eq!(json.get("templates"), Some(&Json::Array(vec![])));
}

#[test]
fn macro_builder_sets_members() {
    let m = CreateZabbixHostMacro::builder()
        .macro_name("{$SNMP_COMMUNITY}")
        .value("public")
        .description("community")
        .secret()
        .build();
    assert_eq!(m.macro_name, "{$SNMP_COMMUNITY}");
    assert_eq!(m.macro_value, "public");
    assert_eq!(m.description, Some("community".to_string()));
    assert_eq!(m.macro_type, Some(MacroType::Secret));
    let json = m.to_json();
    assert_eq!(json.get("macro"), Some(&text("{$SNMP_COMMUNITY}")));
    assert_eq!(json.get("type"), Some(&text("1")));

    let plain = CreateZabbixHostMacro::builder().macro_name("{$X}").build();
    assert_eq!(plain.macro_value, "");
    let json = plain.to_json();
    assert_eq!(json.get("description"), None);
    assert_eq!(json.get("type"), None);
    assert_eq!(CreateZabbixHostMacro::builder().text().build().macro_type, Some(MacroType::Text));
    assert_eq!(CreateZabbixHostMacro::builder().vault().build().macro_type, Some(MacroType::Vault));
}

#[test]
fn optional_trigger_members_are_left_out() {
    let request = CreateTriggerRequest {
        description: "d".to_string(),
        expression: "last(/h/k)=0".to_string(),
        priority: 4,
        recovery_mode: Some(0),
        recovery_expression: None,
        url: None,
        event_name: None,
        dependencies: vec![],
        tags: vec![],
    };
    let json = request.to_json();
    assert_eq!(json.get("recovery_mode"), Some(&Json::Int(0)));
    assert_eq!(json.get("recovery_expression"), None);
    assert_eq!(json.get("url"), None);
    assert_eq!(json.get("priority"), Some(&Json::Int(4)));
}

#[test]
fn search_request_constructors() {
    let items = GetItemsRequestByKey::new("system.cpu");
    assert_eq!(items.output, ZABBIX_EXTEND_PROPERTY_VALUE);
    assert!(!items.with_triggers);
    assert_eq!(items.search.key_, "system.cpu");
    assert_eq!(items.sort_field, "name");
    assert_eq!(items.to_json().get("sortfield"), Some(&text("name")));

    let triggers = GetTriggerByDescriptionRequest::new("unavailable");
    assert_eq!(triggers.search.description, "unavailable");
    assert_eq!(triggers.select_functions, "extend");
    assert_eq!(triggers.to_json().get("selectFunctions"), Some(&text("extend")));

    let scenarios = GetWebScenarioByNameRequest::new("github");
    assert_eq!(scenarios.search.name, "github");
    assert_eq!(scenarios.select_steps, "extend");
    assert_eq!(scenarios.to_json().get("selectSteps"), Some(&text("extend")));
}

#[test]
fn group_and_template_references() {
    let group = ZabbixHostGroup { name: "Linux servers".to_string(), group_id: "2".to_string() };
    let id: ZabbixHostGroupId = group.into();
    assert_eq!(id.group_id, "2");
    let template = ZabbixTemplate {
        template_id: "10001".to_string(),
        host: "Linux by Zabbix agent".to_string(),
        description: "".to_string(),
        name: "Linux by Zabbix agent".to_string(),
        uuid: "f8f7908280354f2abeed07dc788c3747".to_string(),
    };
    let id: ZabbixTemplateId = template.into();
    assert_eq!(id.template_id, "10001");
    assert_eq!(id.to_json().get("templateid"), Some(&text("10001")));
}

#[test]
fn host_group_round_trips() {
    let group = ZabbixHostGroup { name: "g".to_string(), group_id: "9".to_string() };
    let back = ZabbixHostGroup::from_json(&group.to_json()).unwrap();
    assert_eq!(back, group);
}

#[test]
fn host_group_get_request_carries_filter() {
    let filter = Json::Object(vec![("name".to_string(), Json::Array(vec![text("a")]))]);
    let request = GetHostGroupsRequest { output: "extend".to_string(), filter };
    let json = request.to_json();
    assert_eq!(json.get("filter").unwrap().get("name"), Some(&Json::Array(vec![text("a")])));
    let create = CreateHostGroupRequest { name: "example_group_1700000000".to_string() };
    assert_eq!(create.to_json().get("name"), Some(&text("example_group_1700000000")));
}

#[test]
fn user_group_request_leaves_out_unset_members() {
    let request = CreateUserGroupRequest {
        name: "ops".to_string(),
        debug_mode: None,
        gui_access: Some(0),
        users_status: Some(0),
        hostgroup_rights: Some(vec![UserGroupPermission { id: "2".to_string(), permission: 2 }]),
        templategroup_rights: None,
        tag_filters: None,
        users: Some(vec![UserGroupUser { user_id: "1".to_string() }]),
    };
    let json = request.to_json();
    assert_eq!(json.get("debug_mode"), None);
    assert_eq!(json.get("gui_access"), Some(&Json::Int(0)));
    let rights = json.get("hostgroup_rights").unwrap().as_array().unwrap();
    assert_eq!(rights[0].get("permission"), Some(&Json::Int(2)));
    let users = json.get("users").unwrap().as_array().unwrap();
    assert_eq!(users[0].get("userid"), Some(&text("1")));

    let minimal = CreateUserGroupRequest { name: "readers".to_string(), ..Default::default() };
    let json = minimal.to_json();
    assert_eq!(json, Json::Object(vec![("name".to_string(), text("readers"))]));
}

#[test]
fn user_and_web_scenario_are_decoded() {
    let input = r#"{"userid":"1","username":"Admin","name":"Zabbix","surname":null,"roleid":"3"}"#;
    let user = ZabbixUser::from_json(&Json::parse(input).unwrap()).unwrap();
    assert_eq!(user.alias, "Admin");
    assert_eq!(user.name, Some("Zabbix".to_string()));
    assert_eq!(user.surname, None);
    assert_eq!(user.role_id, Some("3".to_string()));
    assert_eq!(user.user_type, None);

    let input = r#"{"httptestid":"5","name":"github","hostid":"10084","steps":[{"name":"Check github.com page","url":"https://github.com","status_codes":"200","no":"1"}]}"#;
    let scenario = ZabbixWebScenario::from_json(&Json::parse(input).unwrap()).unwrap();
    assert_eq!(scenario.host_id, "10084");
    assert_eq!(scenario.steps.len(), 1);
    assert_eq!(scenario.steps[0].status_codes, "200");
}
