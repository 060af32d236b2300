use vstd::prelude::*;

use crate::codec::{field, field_decodable, field_decodes_to, FromJson, ToJson};
use crate::json::{json_object, no_entries, push_entry, Json, JsonModel};

verus! {

/// A template.
#[derive(Clone, Debug)]
pub struct ZabbixTemplate {
    pub template_id: String,
    pub host: String,
    pub description: String,
    pub name: String,
    pub uuid: String,
}

impl ToJson for ZabbixTemplate {
    open spec fn json_model(&self) -> JsonModel {
        JsonModel::Object(
            Seq::<(Seq<char>, JsonModel)>::empty()
                .push(("templateid"@, self.template_id.json_model()))
                .push(("host"@, self.host.json_model()))
                .push(("description"@, self.description.json_model()))
                .push(("name"@, self.name.json_model()))
                .push(("uuid"@, self.uuid.json_model())),
        )
    }

    fn to_json(&self) -> (r: Json) {
        let mut fields = no_entries();
        push_entry(&mut fields, "templateid", self.template_id.to_json());
        push_entry(&mut fields, "host", self.host.to_json());
        push_entry(&mut fields, "description", self.description.to_json());
        push_entry(&mut fields, "name", self.name.to_json());
        push_entry(&mut fields, "uuid", self.uuid.to_json());
        json_object(fields)
    }
}

impl FromJson for ZabbixTemplate {
    open spec fn decodable(j: JsonModel) -> bool {
        &&& j is Object
        &&& field_decodable::<String>(j, "templateid"@)
        &&& field_decodable::<String>(j, "host"@)
        &&& field_decodable::<String>(j, "description"@)
        &&& field_decodable::<String>(j, "name"@)
        &&& field_decodable::<String>(j, "uuid"@)
    }

    open spec fn decodes_to(j: JsonModel, v: ZabbixTemplate) -> bool {
        &&& field_decodes_to(j, "templateid"@, v.template_id)
        &&& field_decodes_to(j, "host"@, v.host)
        &&& field_decodes_to(j, "description"@, v.description)
        &&& field_decodes_to(j, "name"@, v.name)
        &&& field_decodes_to(j, "uuid"@, v.uuid)
    }

    fn from_json(j: &Json) -> (r: Option<ZabbixTemplate>) {
        let template_id = field::<String>(j, "templateid");
        let host = field::<String>(j, "host");
        let description = field::<String>(j, "description");
        let name = field::<String>(j, "name");
        let uuid = field::<String>(j, "uuid");
        match (
            template_id,
            host,
            description,
            name,
            uuid,
        ) {
            (
                Some(template_id),
                Some(host),
                Some(description),
                Some(name),
                Some(uuid),
            ) => Some(ZabbixTemplate { template_id, host, description, name, uuid }),
            _ => None,
        }
    }
}

/// A reference to a template, as host requests carry it.
#[derive(Clone, Debug)]
pub struct ZabbixTemplateId {
    pub template_id: String,
}

impl ToJson for ZabbixTemplateId {
    open spec fn json_model(&self) -> JsonModel {
        JsonModel::Object(
            Seq::<(Seq<char>, JsonModel)>::empty()
                .push(("templateid"@, self.template_id.json_model())),
        )
    }

    fn to_json(&self) -> (r: Json) {
        let mut fields = no_entries();
        push_entry(&mut fields, "templateid", self.template_id.to_json());
        json_object(fields)
    }
}

impl FromJson for ZabbixTemplateId {
    open spec fn decodable(j: JsonModel) -> bool {
        &&& j is Object
        &&& field_decodable::<String>(j, "templateid"@)
    }

    open spec fn decodes_to(j: JsonModel, v: ZabbixTemplateId) -> bool {
        &&& field_decodes_to(j, "templateid"@, v.template_id)
    }

    fn from_json(j: &Json) -> (r: Option<ZabbixTemplateId>) {
        let template_id = field::<String>(j, "templateid");
        match template_id {
            Some(template_id) => Some(ZabbixTemplateId { template_id }),
            None => None,
        }
    }
}

impl From<ZabbixTemplate> for ZabbixTemplateId {
    fn from(value: ZabbixTemplate) -> ZabbixTemplateId {
        ZabbixTemplateId { template_id: value.template_id }
    }
}

impl vstd::std_specs::convert::FromSpecImpl<ZabbixTemplate> for ZabbixTemplateId {
    open spec fn obeys_from_spec() -> bool {
        true
    }

    open spec fn from_spec(v: ZabbixTemplate) -> ZabbixTemplateId {
        ZabbixTemplateId { template_id: v.template_id }
    }
}

} // verus!
