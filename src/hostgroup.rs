use vstd::prelude::*;

use crate::codec::{
    field, field_decodable, field_decodes_to, FromJson, ToJson,
};
use crate::dispatch::CreatedIds;
use crate::json::{json_object, no_entries, push_entry, Json, JsonModel};

verus! {

/// `hostgroup.get`: host groups that match a filter.
pub const METHOD_HOSTGROUP_GET: &'static str = "hostgroup.get";

/// `hostgroup.create`: makes a host group and returns its id.
pub const METHOD_HOSTGROUP_CREATE: &'static str = "hostgroup.create";

/// A host group.
#[derive(Clone, Debug, PartialEq)]
pub struct ZabbixHostGroup {
    pub name: String,
    pub group_id: String,
}

impl ToJson for ZabbixHostGroup {
    open spec fn json_model(&self) -> JsonModel {
        JsonModel::Object(
            Seq::<(Seq<char>, JsonModel)>::empty()
                .push(("name"@, self.name.json_model()))
                .push(("groupid"@, self.group_id.json_model())),
        )
    }

    fn to_json(&self) -> (r: Json) {
        let mut fields = no_entries();
        push_entry(&mut fields, "name", self.name.to_json());
        push_entry(&mut fields, "groupid", self.group_id.to_json());
        json_object(fields)
    }
}

impl FromJson for ZabbixHostGroup {
    open spec fn decodable(j: JsonModel) -> bool {
        &&& j is Object
        &&& field_decodable::<String>(j, "name"@)
        &&& field_decodable::<String>(j, "groupid"@)
    }

    open spec fn decodes_to(j: JsonModel, v: ZabbixHostGroup) -> bool {
        &&& field_decodes_to(j, "name"@, v.name)
        &&& field_decodes_to(j, "groupid"@, v.group_id)
    }

    fn from_json(j: &Json) -> (r: Option<ZabbixHostGroup>) {
        let name = field::<String>(j, "name");
        let group_id = field::<String>(j, "groupid");
        match (name, group_id) {
            (Some(name), Some(group_id)) => Some(ZabbixHostGroup { name, group_id }),
            _ => None,
        }
    }
}

/// A reference to a host group, as host requests carry it.
#[derive(Clone, Debug, PartialEq)]
pub struct ZabbixHostGroupId {
    pub group_id: String,
}

impl ToJson for ZabbixHostGroupId {
    open spec fn json_model(&self) -> JsonModel {
        JsonModel::Object(
            Seq::<(Seq<char>, JsonModel)>::empty()
                .push(("groupid"@, self.group_id.json_model())),
        )
    }

    fn to_json(&self) -> (r: Json) {
        let mut fields = no_entries();
        push_entry(&mut fields, "groupid", self.group_id.to_json());
        json_object(fields)
    }
}

impl FromJson for ZabbixHostGroupId {
    open spec fn decodable(j: JsonModel) -> bool {
        &&& j is Object
        &&& field_decodable::<String>(j, "groupid"@)
    }

    open spec fn decodes_to(j: JsonModel, v: ZabbixHostGroupId) -> bool {
        &&& field_decodes_to(j, "groupid"@, v.group_id)
    }

    fn from_json(j: &Json) -> (r: Option<ZabbixHostGroupId>) {
        let group_id = field::<String>(j, "groupid");
        match group_id {
            Some(group_id) => Some(ZabbixHostGroupId { group_id }),
            None => None,
        }
    }
}

impl From<ZabbixHostGroup> for ZabbixHostGroupId {
    fn from(value: ZabbixHostGroup) -> ZabbixHostGroupId {
        ZabbixHostGroupId { group_id: value.group_id }
    }
}

impl vstd::std_specs::convert::FromSpecImpl<ZabbixHostGroup> for ZabbixHostGroupId {
    open spec fn obeys_from_spec() -> bool {
        true
    }

    open spec fn from_spec(v: ZabbixHostGroup) -> ZabbixHostGroupId {
        ZabbixHostGroupId { group_id: v.group_id }
    }
}

/// The parameters of `hostgroup.create`.
#[derive(Clone, Debug)]
pub struct CreateHostGroupRequest {
    pub name: String,
}

impl ToJson for CreateHostGroupRequest {
    open spec fn json_model(&self) -> JsonModel {
        JsonModel::Object(
            Seq::<(Seq<char>, JsonModel)>::empty()
                .push(("name"@, self.name.json_model())),
        )
    }

    fn to_json(&self) -> (r: Json) {
        let mut fields = no_entries();
        push_entry(&mut fields, "name", self.name.to_json());
        json_object(fields)
    }
}

/// The result of `hostgroup.create`.
#[derive(Clone, Debug)]
pub struct CreateHostGroupResponse {
    pub group_ids: Vec<String>,
}

impl FromJson for CreateHostGroupResponse {
    open spec fn decodable(j: JsonModel) -> bool {
        &&& j is Object
        &&& field_decodable::<Vec<String>>(j, "groupids"@)
    }

    open spec fn decodes_to(j: JsonModel, v: CreateHostGroupResponse) -> bool {
        &&& field_decodes_to(j, "groupids"@, v.group_ids)
    }

    fn from_json(j: &Json) -> (r: Option<CreateHostGroupResponse>) {
        let group_ids = field::<Vec<String>>(j, "groupids");
        match group_ids {
            Some(group_ids) => Some(CreateHostGroupResponse { group_ids }),
            None => None,
        }
    }
}

impl CreatedIds for CreateHostGroupResponse {
    open spec fn created_ids(&self) -> Seq<String> {
        self.group_ids@
    }

    fn ids(&self) -> (r: &Vec<String>) {
        &self.group_ids
    }
}

/// The parameters of `hostgroup.get`, with a filter of the caller's shape.
#[derive(Clone, Debug)]
pub struct GetHostGroupsRequest<R> {
    pub output: String,
    pub filter: R,
}

impl<R: ToJson> ToJson for GetHostGroupsRequest<R> {
    open spec fn json_model(&self) -> JsonModel {
        JsonModel::Object(
            Seq::<(Seq<char>, JsonModel)>::empty()
                .push(("output"@, self.output.json_model()))
                .push(("filter"@, self.filter.json_model())),
        )
    }

    fn to_json(&self) -> (r: Json) {
        let mut fields = no_entries();
        push_entry(&mut fields, "output", self.output.to_json());
        push_entry(&mut fields, "filter", self.filter.to_json());
        json_object(fields)
    }
}

} // verus!
