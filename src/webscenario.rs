use vstd::prelude::*;

use crate::codec::{field, field_decodable, field_decodes_to, FromJson, ToJson};
use crate::dispatch::CreatedIds;
use crate::ZABBIX_EXTEND_PROPERTY_VALUE;
use crate::json::{json_object, no_entries, push_entry, Json, JsonModel};

verus! {

/// `httptest.get`: web scenarios that match a filter.
pub const METHOD_HTTPTEST_GET: &'static str = "httptest.get";

/// `httptest.create`: makes a web scenario and returns its id.
pub const METHOD_HTTPTEST_CREATE: &'static str = "httptest.create";

/// A web scenario: steps of HTTP checks on a host.
#[derive(Clone, Debug)]
pub struct ZabbixWebScenario {
    pub name: String,
    pub host_id: String,
    pub steps: Vec<ZabbixWebScenarioStep>,
}

impl ToJson for ZabbixWebScenario {
    open spec fn json_model(&self) -> JsonModel {
        JsonModel::Object(
            Seq::<(Seq<char>, JsonModel)>::empty()
                .push(("name"@, self.name.json_model()))
                .push(("hostid"@, self.host_id.json_model()))
                .push(("steps"@, self.steps.json_model())),
        )
    }

    fn to_json(&self) -> (r: Json) {
        let mut fields = no_entries();
        push_entry(&mut fields, "name", self.name.to_json());
        push_entry(&mut fields, "hostid", self.host_id.to_json());
        push_entry(&mut fields, "steps", self.steps.to_json());
        json_object(fields)
    }
}

impl FromJson for ZabbixWebScenario {
    open spec fn decodable(j: JsonModel) -> bool {
        &&& j is Object
        &&& field_decodable::<String>(j, "name"@)
        &&& field_decodable::<String>(j, "hostid"@)
        &&& field_decodable::<Vec<ZabbixWebScenarioStep>>(j, "steps"@)
    }

    open spec fn decodes_to(j: JsonModel, v: ZabbixWebScenario) -> bool {
        &&& field_decodes_to(j, "name"@, v.name)
        &&& field_decodes_to(j, "hostid"@, v.host_id)
        &&& field_decodes_to(j, "steps"@, v.steps)
    }

    fn from_json(j: &Json) -> (r: Option<ZabbixWebScenario>) {
        let name = field::<String>(j, "name");
        let host_id = field::<String>(j, "hostid");
        let steps = field::<Vec<ZabbixWebScenarioStep>>(j, "steps");
        match (name, host_id, steps) {
            (Some(name), Some(host_id), Some(steps)) => Some(ZabbixWebScenario { name, host_id, steps }),
            _ => None,
        }
    }
}

/// One HTTP check of a web scenario.
#[derive(Clone, Debug)]
pub struct ZabbixWebScenarioStep {
    pub name: String,
    pub url: String,
    pub status_codes: String,
    pub no: String,
}

impl ToJson for ZabbixWebScenarioStep {
    open spec fn json_model(&self) -> JsonModel {
        JsonModel::Object(
            Seq::<(Seq<char>, JsonModel)>::empty()
                .push(("name"@, self.name.json_model()))
                .push(("url"@, self.url.json_model()))
                .push(("status_codes"@, self.status_codes.json_model()))
                .push(("no"@, self.no.json_model())),
        )
    }

    fn to_json(&self) -> (r: Json) {
        let mut fields = no_entries();
        push_entry(&mut fields, "name", self.name.to_json());
        push_entry(&mut fields, "url", self.url.to_json());
        push_entry(&mut fields, "status_codes", self.status_codes.to_json());
        push_entry(&mut fields, "no", self.no.to_json());
        json_object(fields)
    }
}

impl FromJson for ZabbixWebScenarioStep {
    open spec fn decodable(j: JsonModel) -> bool {
        &&& j is Object
        &&& field_decodable::<String>(j, "name"@)
        &&& field_decodable::<String>(j, "url"@)
        &&& field_decodable::<String>(j, "status_codes"@)
        &&& field_decodable::<String>(j, "no"@)
    }

    open spec fn decodes_to(j: JsonModel, v: ZabbixWebScenarioStep) -> bool {
        &&& field_decodes_to(j, "name"@, v.name)
        &&& field_decodes_to(j, "url"@, v.url)
        &&& field_decodes_to(j, "status_codes"@, v.status_codes)
        &&& field_decodes_to(j, "no"@, v.no)
    }

    fn from_json(j: &Json) -> (r: Option<ZabbixWebScenarioStep>) {
        let name = field::<String>(j, "name");
        let url = field::<String>(j, "url");
        let status_codes = field::<String>(j, "status_codes");
        let no = field::<String>(j, "no");
        match (name, url, status_codes, no) {
            (Some(name), Some(url), Some(status_codes), Some(no)) => Some(ZabbixWebScenarioStep { name, url, status_codes, no }),
            _ => None,
        }
    }
}

/// The parameters of `httptest.create`.
#[derive(Clone, Debug)]
pub struct CreateWebScenarioRequest {
    pub name: String,
    pub host_id: String,
    pub steps: Vec<ZabbixWebScenarioStep>,
}

impl ToJson for CreateWebScenarioRequest {
    open spec fn json_model(&self) -> JsonModel {
        JsonModel::Object(
            Seq::<(Seq<char>, JsonModel)>::empty()
                .push(("name"@, self.name.json_model()))
                .push(("hostid"@, self.host_id.json_model()))
                .push(("steps"@, self.steps.json_model())),
        )
    }

    fn to_json(&self) -> (r: Json) {
        let mut fields = no_entries();
        push_entry(&mut fields, "name", self.name.to_json());
        push_entry(&mut fields, "hostid", self.host_id.to_json());
        push_entry(&mut fields, "steps", self.steps.to_json());
        json_object(fields)
    }
}

/// The result of `httptest.create`.
#[derive(Clone, Debug)]
pub struct CreateWebScenarioResponse {
    pub http_test_ids: Vec<String>,
}

impl FromJson for CreateWebScenarioResponse {
    open spec fn decodable(j: JsonModel) -> bool {
        &&& j is Object
        &&& field_decodable::<Vec<String>>(j, "httptestids"@)
    }

    open spec fn decodes_to(j: JsonModel, v: CreateWebScenarioResponse) -> bool {
        &&& field_decodes_to(j, "httptestids"@, v.http_test_ids)
    }

    fn from_json(j: &Json) -> (r: Option<CreateWebScenarioResponse>) {
        let http_test_ids = field::<Vec<String>>(j, "httptestids");
        match http_test_ids {
            Some(http_test_ids) => Some(CreateWebScenarioResponse { http_test_ids }),
            None => None,
        }
    }
}

impl CreatedIds for CreateWebScenarioResponse {
    open spec fn created_ids(&self) -> Seq<String> {
        self.http_test_ids@
    }

    fn ids(&self) -> (r: &Vec<String>) {
        &self.http_test_ids
    }
}

/// The parameters of `httptest.get` by id.
#[derive(Clone, Debug)]
pub struct GetWebScenarioByIdRequest {
    pub output: String,
    pub select_steps: String,
    pub httptest_ids: String,
}

impl ToJson for GetWebScenarioByIdRequest {
    open spec fn json_model(&self) -> JsonModel {
        JsonModel::Object(
            Seq::<(Seq<char>, JsonModel)>::empty()
                .push(("output"@, self.output.json_model()))
                .push(("selectSteps"@, self.select_steps.json_model()))
                .push(("httptestids"@, self.httptest_ids.json_model())),
        )
    }

    fn to_json(&self) -> (r: Json) {
        let mut fields = no_entries();
        push_entry(&mut fields, "output", self.output.to_json());
        push_entry(&mut fields, "selectSteps", self.select_steps.to_json());
        push_entry(&mut fields, "httptestids", self.httptest_ids.to_json());
        json_object(fields)
    }
}

/// The parameters of `httptest.get` by name.
#[derive(Clone, Debug)]
pub struct GetWebScenarioByNameRequest {
    pub output: String,
    pub select_steps: String,
    pub search: WebScenarioNameFilter,
}

impl ToJson for GetWebScenarioByNameRequest {
    open spec fn json_model(&self) -> JsonModel {
        JsonModel::Object(
            Seq::<(Seq<char>, JsonModel)>::empty()
                .push(("output"@, self.output.json_model()))
                .push(("selectSteps"@, self.select_steps.json_model()))
                .push(("search"@, self.search.json_model())),
        )
    }

    fn to_json(&self) -> (r: Json) {
        let mut fields = no_entries();
        push_entry(&mut fields, "output", self.output.to_json());
        push_entry(&mut fields, "selectSteps", self.select_steps.to_json());
        push_entry(&mut fields, "search", self.search.to_json());
        json_object(fields)
    }
}

impl GetWebScenarioByNameRequest {
    /// Every property and step of the web scenarios whose name contains `name`.
    pub fn new(name: &str) -> (r: GetWebScenarioByNameRequest)
        ensures
            r.output@ == ZABBIX_EXTEND_PROPERTY_VALUE@,
            r.select_steps@ == ZABBIX_EXTEND_PROPERTY_VALUE@,
            r.search.name@ == name@,
    {
        GetWebScenarioByNameRequest {
            output: ZABBIX_EXTEND_PROPERTY_VALUE.to_string(),
            select_steps: ZABBIX_EXTEND_PROPERTY_VALUE.to_string(),
            search: WebScenarioNameFilter { name: name.to_string() },
        }
    }
}

/// A search on web scenario names.
#[derive(Clone, Debug)]
pub struct WebScenarioNameFilter {
    pub name: String,
}

impl ToJson for WebScenarioNameFilter {
    open spec fn json_model(&self) -> JsonModel {
        JsonModel::Object(
            Seq::<(Seq<char>, JsonModel)>::empty()
                .push(("name"@, self.name.json_model())),
        )
    }

    fn to_json(&self) -> (r: Json) {
        let mut fields = no_entries();
        push_entry(&mut fields, "name", self.name.to_json());
        json_object(fields)
    }
}

} // verus!
