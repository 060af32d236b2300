use vstd::prelude::*;

use crate::codec::{
    decimal_u8_field,
    decimal_u8_field_decodable,
    decimal_u8_field_decodes_to,
    field,
    field_decodable,
    field_decodes_to,
    optional_model,
    optional_to_json,
    FromJson,
    ToJson,
};
use crate::dispatch::CreatedIds;
use crate::ZABBIX_EXTEND_PROPERTY_VALUE;
use crate::json::{
    json_object,
    no_entries,
    push_entry,
    push_optional_entry,
    with_optional,
    Json,
    JsonModel,
};

verus! {

/// `trigger.get`: triggers that match a filter.
pub const METHOD_TRIGGER_GET: &'static str = "trigger.get";

/// `trigger.create`: makes a trigger and returns its id.
pub const METHOD_TRIGGER_CREATE: &'static str = "trigger.create";

/// A trigger: a condition on item values.
#[derive(Clone, Debug)]
pub struct ZabbixTrigger {
    pub trigger_id: String,
    pub event_name: String,
    pub url: String,
    pub description: String,
    pub expression: String,
    /// Severity, from 0 (not classified) to 5 (disaster); sent as a decimal string.
    pub priority: u8,
    /// 0 expression, 1 recovery expression, 2 none; sent as a decimal string.
    pub recovery_mode: u8,
    pub recovery_expression: String,
}

impl FromJson for ZabbixTrigger {
    open spec fn decodable(j: JsonModel) -> bool {
        &&& j is Object
        &&& field_decodable::<String>(j, "triggerid"@)
        &&& field_decodable::<String>(j, "event_name"@)
        &&& field_decodable::<String>(j, "url"@)
        &&& field_decodable::<String>(j, "description"@)
        &&& field_decodable::<String>(j, "expression"@)
        &&& decimal_u8_field_decodable(j, "priority"@)
        &&& decimal_u8_field_decodable(j, "recovery_mode"@)
        &&& field_decodable::<String>(j, "recovery_expression"@)
    }

    open spec fn decodes_to(j: JsonModel, v: ZabbixTrigger) -> bool {
        &&& field_decodes_to(j, "triggerid"@, v.trigger_id)
        &&& field_decodes_to(j, "event_name"@, v.event_name)
        &&& field_decodes_to(j, "url"@, v.url)
        &&& field_decodes_to(j, "description"@, v.description)
        &&& field_decodes_to(j, "expression"@, v.expression)
        &&& decimal_u8_field_decodes_to(j, "priority"@, v.priority)
        &&& decimal_u8_field_decodes_to(j, "recovery_mode"@, v.recovery_mode)
        &&& field_decodes_to(j, "recovery_expression"@, v.recovery_expression)
    }

    fn from_json(j: &Json) -> (r: Option<ZabbixTrigger>) {
        let trigger_id = field::<String>(j, "triggerid");
        let event_name = field::<String>(j, "event_name");
        let url = field::<String>(j, "url");
        let description = field::<String>(j, "description");
        let expression = field::<String>(j, "expression");
        let priority = decimal_u8_field(j, "priority");
        let recovery_mode = decimal_u8_field(j, "recovery_mode");
        let recovery_expression = field::<String>(j, "recovery_expression");
        match (
            trigger_id,
            event_name,
            url,
            description,
            expression,
            priority,
            recovery_mode,
            recovery_expression,
        ) {
            (
                Some(trigger_id),
                Some(event_name),
                Some(url),
                Some(description),
                Some(expression),
                Some(priority),
                Some(recovery_mode),
                Some(recovery_expression),
            ) => Some(ZabbixTrigger { trigger_id, event_name, url, description, expression, priority, recovery_mode, recovery_expression }),
            _ => None,
        }
    }
}

/// A tag on a trigger.
#[derive(Clone, Debug)]
pub struct ZabbixTriggerTag {
    pub tag: String,
    pub value: String,
}

impl ToJson for ZabbixTriggerTag {
    open spec fn json_model(&self) -> JsonModel {
        JsonModel::Object(
            Seq::<(Seq<char>, JsonModel)>::empty()
                .push(("tag"@, self.tag.json_model()))
                .push(("value"@, self.value.json_model())),
        )
    }

    fn to_json(&self) -> (r: Json) {
        let mut fields = no_entries();
        push_entry(&mut fields, "tag", self.tag.to_json());
        push_entry(&mut fields, "value", self.value.to_json());
        json_object(fields)
    }
}

impl FromJson for ZabbixTriggerTag {
    open spec fn decodable(j: JsonModel) -> bool {
        &&& j is Object
        &&& field_decodable::<String>(j, "tag"@)
        &&& field_decodable::<String>(j, "value"@)
    }

    open spec fn decodes_to(j: JsonModel, v: ZabbixTriggerTag) -> bool {
        &&& field_decodes_to(j, "tag"@, v.tag)
        &&& field_decodes_to(j, "value"@, v.value)
    }

    fn from_json(j: &Json) -> (r: Option<ZabbixTriggerTag>) {
        let tag = field::<String>(j, "tag");
        let value = field::<String>(j, "value");
        match (tag, value) {
            (Some(tag), Some(value)) => Some(ZabbixTriggerTag { tag, value }),
            _ => None,
        }
    }
}

/// The parameters of `trigger.create`; the optional members are left out where they are not set.
#[derive(Clone, Debug)]
pub struct CreateTriggerRequest {
    pub description: String,
    pub expression: String,
    pub priority: u8,
    pub recovery_mode: Option<u8>,
    pub recovery_expression: Option<String>,
    pub url: Option<String>,
    pub event_name: Option<String>,
    pub dependencies: Vec<ZabbixTriggerDependency>,
    pub tags: Vec<ZabbixTriggerTag>,
}

impl ToJson for CreateTriggerRequest {
    open spec fn json_model(&self) -> JsonModel {
        let entries = Seq::<(Seq<char>, JsonModel)>::empty();
        let entries = entries.push(("description"@, self.description.json_model()));
        let entries = entries.push(("expression"@, self.expression.json_model()));
        let entries = entries.push(("priority"@, self.priority.json_model()));
        let entries = with_optional(entries, "recovery_mode"@, optional_model(self.recovery_mode));
        let entries = with_optional(entries, "recovery_expression"@, optional_model(self.recovery_expression));
        let entries = with_optional(entries, "url"@, optional_model(self.url));
        let entries = with_optional(entries, "event_name"@, optional_model(self.event_name));
        let entries = entries.push(("dependencies"@, self.dependencies.json_model()));
        let entries = entries.push(("tags"@, self.tags.json_model()));
        JsonModel::Object(entries)
    }

    fn to_json(&self) -> (r: Json) {
        let mut fields = no_entries();
        push_entry(&mut fields, "description", self.description.to_json());
        push_entry(&mut fields, "expression", self.expression.to_json());
        push_entry(&mut fields, "priority", self.priority.to_json());
        push_optional_entry(&mut fields, "recovery_mode", optional_to_json(&self.recovery_mode));
        push_optional_entry(&mut fields, "recovery_expression", optional_to_json(&self.recovery_expression));
        push_optional_entry(&mut fields, "url", optional_to_json(&self.url));
        push_optional_entry(&mut fields, "event_name", optional_to_json(&self.event_name));
        push_entry(&mut fields, "dependencies", self.dependencies.to_json());
        push_entry(&mut fields, "tags", self.tags.to_json());
        json_object(fields)
    }
}

/// A trigger that another one depends on.
#[derive(Clone, Debug)]
pub struct ZabbixTriggerDependency {
    pub trigger_id: String,
}

impl ToJson for ZabbixTriggerDependency {
    open spec fn json_model(&self) -> JsonModel {
        JsonModel::Object(
            Seq::<(Seq<char>, JsonModel)>::empty()
                .push(("triggerid"@, self.trigger_id.json_model())),
        )
    }

    fn to_json(&self) -> (r: Json) {
        let mut fields = no_entries();
        push_entry(&mut fields, "triggerid", self.trigger_id.to_json());
        json_object(fields)
    }
}

/// The result of `trigger.create`.
#[derive(Clone, Debug)]
pub struct CreateTriggerResponse {
    pub trigger_ids: Vec<String>,
}

impl FromJson for CreateTriggerResponse {
    open spec fn decodable(j: JsonModel) -> bool {
        &&& j is Object
        &&& field_decodable::<Vec<String>>(j, "triggerids"@)
    }

    open spec fn decodes_to(j: JsonModel, v: CreateTriggerResponse) -> bool {
        &&& field_decodes_to(j, "triggerids"@, v.trigger_ids)
    }

    fn from_json(j: &Json) -> (r: Option<CreateTriggerResponse>) {
        let trigger_ids = field::<Vec<String>>(j, "triggerids");
        match trigger_ids {
            Some(trigger_ids) => Some(CreateTriggerResponse { trigger_ids }),
            None => None,
        }
    }
}

impl CreatedIds for CreateTriggerResponse {
    open spec fn created_ids(&self) -> Seq<String> {
        self.trigger_ids@
    }

    fn ids(&self) -> (r: &Vec<String>) {
        &self.trigger_ids
    }
}

/// The parameters of `trigger.get` by trigger id.
#[derive(Clone, Debug)]
pub struct GetTriggerByIdRequest {
    pub trigger_ids: String,
    pub output: String,
    pub select_functions: String,
}

impl ToJson for GetTriggerByIdRequest {
    open spec fn json_model(&self) -> JsonModel {
        JsonModel::Object(
            Seq::<(Seq<char>, JsonModel)>::empty()
                .push(("triggerids"@, self.trigger_ids.json_model()))
                .push(("output"@, self.output.json_model()))
                .push(("selectFunctions"@, self.select_functions.json_model())),
        )
    }

    fn to_json(&self) -> (r: Json) {
        let mut fields = no_entries();
        push_entry(&mut fields, "triggerids", self.trigger_ids.to_json());
        push_entry(&mut fields, "output", self.output.to_json());
        push_entry(&mut fields, "selectFunctions", self.select_functions.to_json());
        json_object(fields)
    }
}

/// The parameters of `trigger.get` by description.
#[derive(Clone, Debug)]
pub struct GetTriggerByDescriptionRequest {
    pub search: TriggerNameSearch,
    pub output: String,
    pub select_functions: String,
}

impl ToJson for GetTriggerByDescriptionRequest {
    open spec fn json_model(&self) -> JsonModel {
        JsonModel::Object(
            Seq::<(Seq<char>, JsonModel)>::empty()
                .push(("search"@, self.search.json_model()))
                .push(("output"@, self.output.json_model()))
                .push(("selectFunctions"@, self.select_functions.json_model())),
        )
    }

    fn to_json(&self) -> (r: Json) {
        let mut fields = no_entries();
        push_entry(&mut fields, "search", self.search.to_json());
        push_entry(&mut fields, "output", self.output.to_json());
        push_entry(&mut fields, "selectFunctions", self.select_functions.to_json());
        json_object(fields)
    }
}

impl GetTriggerByDescriptionRequest {
    /// Every property and function of the triggers whose description contains `description`.
    pub fn new(description: &str) -> (r: GetTriggerByDescriptionRequest)
        ensures
            r.search.description@ == description@,
            r.output@ == ZABBIX_EXTEND_PROPERTY_VALUE@,
            r.select_functions@ == ZABBIX_EXTEND_PROPERTY_VALUE@,
    {
        GetTriggerByDescriptionRequest {
            search: TriggerNameSearch { description: description.to_string() },
            output: ZABBIX_EXTEND_PROPERTY_VALUE.to_string(),
            select_functions: ZABBIX_EXTEND_PROPERTY_VALUE.to_string(),
        }
    }
}

/// A search on trigger descriptions.
#[derive(Clone, Debug)]
pub struct TriggerNameSearch {
    pub description: String,
}

impl ToJson for TriggerNameSearch {
    open spec fn json_model(&self) -> JsonModel {
        JsonModel::Object(
            Seq::<(Seq<char>, JsonModel)>::empty()
                .push(("description"@, self.description.json_model())),
        )
    }

    fn to_json(&self) -> (r: Json) {
        let mut fields = no_entries();
        push_entry(&mut fields, "description", self.description.to_json());
        json_object(fields)
    }
}

/// A list of triggers under `result`.
#[derive(Clone, Debug)]
pub struct TriggerSearchResponse {
    pub result: Vec<ZabbixTrigger>,
}

impl FromJson for TriggerSearchResponse {
    open spec fn decodable(j: JsonModel) -> bool {
        &&& j is Object
        &&& field_decodable::<Vec<ZabbixTrigger>>(j, "result"@)
    }

    open spec fn decodes_to(j: JsonModel, v: TriggerSearchResponse) -> bool {
        &&& field_decodes_to(j, "result"@, v.result)
    }

    fn from_json(j: &Json) -> (r: Option<TriggerSearchResponse>) {
        let result = field::<Vec<ZabbixTrigger>>(j, "result");
        match result {
            Some(result) => Some(TriggerSearchResponse { result }),
            None => None,
        }
    }
}

} // verus!
