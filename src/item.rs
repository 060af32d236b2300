use vstd::prelude::*;

use crate::codec::{field, field_decodable, field_decodes_to, FromJson, ToJson};
use crate::dispatch::CreatedIds;
use crate::host::ZabbixHostTag;
use crate::ZABBIX_EXTEND_PROPERTY_VALUE;
use crate::json::{json_object, no_entries, push_entry, Json, JsonModel};

verus! {

/// `item.get`: items that match a search.
pub const METHOD_ITEM_GET: &'static str = "item.get";

/// `item.create`: makes an item and returns its id.
pub const METHOD_ITEM_CREATE: &'static str = "item.create";

/// An item: one metric collected on a host.
#[derive(Clone, Debug)]
pub struct ZabbixItem {
    pub name: String,
    pub key_: String,
    pub host_id: String,
}

impl FromJson for ZabbixItem {
    open spec fn decodable(j: JsonModel) -> bool {
        &&& j is Object
        &&& field_decodable::<String>(j, "name"@)
        &&& field_decodable::<String>(j, "key_"@)
        &&& field_decodable::<String>(j, "hostid"@)
    }

    open spec fn decodes_to(j: JsonModel, v: ZabbixItem) -> bool {
        &&& field_decodes_to(j, "name"@, v.name)
        &&& field_decodes_to(j, "key_"@, v.key_)
        &&& field_decodes_to(j, "hostid"@, v.host_id)
    }

    fn from_json(j: &Json) -> (r: Option<ZabbixItem>) {
        let name = field::<String>(j, "name");
        let key_ = field::<String>(j, "key_");
        let host_id = field::<String>(j, "hostid");
        match (name, key_, host_id) {
            (Some(name), Some(key_), Some(host_id)) => Some(ZabbixItem { name, key_, host_id }),
            _ => None,
        }
    }
}

/// The parameters of `item.create`.
#[derive(Clone, Debug)]
pub struct CreateItemRequest {
    pub name: String,
    pub key_: String,
    pub host_id: String,
    pub item_type: u8,
    pub value_type: u8,
    pub interface_id: String,
    pub tags: Vec<ZabbixHostTag>,
    pub delay: String,
}

impl ToJson for CreateItemRequest {
    open spec fn json_model(&self) -> JsonModel {
        JsonModel::Object(
            Seq::<(Seq<char>, JsonModel)>::empty()
                .push(("name"@, self.name.json_model()))
                .push(("key_"@, self.key_.json_model()))
                .push(("hostid"@, self.host_id.json_model()))
                .push(("type"@, self.item_type.json_model()))
                .push(("value_type"@, self.value_type.json_model()))
                .push(("interfaceid"@, self.interface_id.json_model()))
                .push(("tags"@, self.tags.json_model()))
                .push(("delay"@, self.delay.json_model())),
        )
    }

    fn to_json(&self) -> (r: Json) {
        let mut fields = no_entries();
        push_entry(&mut fields, "name", self.name.to_json());
        push_entry(&mut fields, "key_", self.key_.to_json());
        push_entry(&mut fields, "hostid", self.host_id.to_json());
        push_entry(&mut fields, "type", self.item_type.to_json());
        push_entry(&mut fields, "value_type", self.value_type.to_json());
        push_entry(&mut fields, "interfaceid", self.interface_id.to_json());
        push_entry(&mut fields, "tags", self.tags.to_json());
        push_entry(&mut fields, "delay", self.delay.to_json());
        json_object(fields)
    }
}

/// The result of `item.create`.
#[derive(Clone, Debug)]
pub struct CreateItemResponse {
    pub item_ids: Vec<String>,
}

impl FromJson for CreateItemResponse {
    open spec fn decodable(j: JsonModel) -> bool {
        &&& j is Object
        &&& field_decodable::<Vec<String>>(j, "itemids"@)
    }

    open spec fn decodes_to(j: JsonModel, v: CreateItemResponse) -> bool {
        &&& field_decodes_to(j, "itemids"@, v.item_ids)
    }

    fn from_json(j: &Json) -> (r: Option<CreateItemResponse>) {
        let item_ids = field::<Vec<String>>(j, "itemids");
        match item_ids {
            Some(item_ids) => Some(CreateItemResponse { item_ids }),
            None => None,
        }
    }
}

impl CreatedIds for CreateItemResponse {
    open spec fn created_ids(&self) -> Seq<String> {
        self.item_ids@
    }

    fn ids(&self) -> (r: &Vec<String>) {
        &self.item_ids
    }
}

/// The parameters of `item.get` within a host, with a search of the caller's shape.
#[derive(Clone, Debug)]
pub struct GetItemsRequestById<R> {
    pub output: String,
    pub with_triggers: bool,
    pub host_ids: String,
    pub search: R,
    pub sort_field: String,
}

impl<R: ToJson> ToJson for GetItemsRequestById<R> {
    open spec fn json_model(&self) -> JsonModel {
        JsonModel::Object(
            Seq::<(Seq<char>, JsonModel)>::empty()
                .push(("output"@, self.output.json_model()))
                .push(("with_triggers"@, self.with_triggers.json_model()))
                .push(("hostids"@, self.host_ids.json_model()))
                .push(("search"@, self.search.json_model()))
                .push(("sortfield"@, self.sort_field.json_model())),
        )
    }

    fn to_json(&self) -> (r: Json) {
        let mut fields = no_entries();
        push_entry(&mut fields, "output", self.output.to_json());
        push_entry(&mut fields, "with_triggers", self.with_triggers.to_json());
        push_entry(&mut fields, "hostids", self.host_ids.to_json());
        push_entry(&mut fields, "search", self.search.to_json());
        push_entry(&mut fields, "sortfield", self.sort_field.to_json());
        json_object(fields)
    }
}

/// The parameters of `item.get` over all hosts, with a search of the caller's shape.
#[derive(Clone, Debug)]
pub struct GetItemsRequestByKey<R> {
    pub output: String,
    pub with_triggers: bool,
    pub search: R,
    pub sort_field: String,
}

impl<R: ToJson> ToJson for GetItemsRequestByKey<R> {
    open spec fn json_model(&self) -> JsonModel {
        JsonModel::Object(
            Seq::<(Seq<char>, JsonModel)>::empty()
                .push(("output"@, self.output.json_model()))
                .push(("with_triggers"@, self.with_triggers.json_model()))
                .push(("search"@, self.search.json_model()))
                .push(("sortfield"@, self.sort_field.json_model())),
        )
    }

    fn to_json(&self) -> (r: Json) {
        let mut fields = no_entries();
        push_entry(&mut fields, "output", self.output.to_json());
        push_entry(&mut fields, "with_triggers", self.with_triggers.to_json());
        push_entry(&mut fields, "search", self.search.to_json());
        push_entry(&mut fields, "sortfield", self.sort_field.to_json());
        json_object(fields)
    }
}

/// A search on item keys.
#[derive(Clone, Debug)]
pub struct SearchByKey {
    pub key_: String,
}

impl ToJson for SearchByKey {
    open spec fn json_model(&self) -> JsonModel {
        JsonModel::Object(
            Seq::<(Seq<char>, JsonModel)>::empty()
                .push(("key_"@, self.key_.json_model())),
        )
    }

    fn to_json(&self) -> (r: Json) {
        let mut fields = no_entries();
        push_entry(&mut fields, "key_", self.key_.to_json());
        json_object(fields)
    }
}

impl GetItemsRequestByKey<SearchByKey> {
    /// Every property of the items whose key contains `key`, sorted by name.
    pub fn new(key: &str) -> (r: GetItemsRequestByKey<SearchByKey>)
        ensures
            r.output@ == ZABBIX_EXTEND_PROPERTY_VALUE@,
            !r.with_triggers,
            r.search.key_@ == key@,
            r.sort_field@ == "name"@,
    {
        GetItemsRequestByKey {
            output: ZABBIX_EXTEND_PROPERTY_VALUE.to_string(),
            with_triggers: false,
            search: SearchByKey { key_: key.to_string() },
            sort_field: "name".to_string(),
        }
    }
}

} // verus!
