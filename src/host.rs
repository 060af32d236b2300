use vstd::prelude::*;

use crate::codec::{field, field_decodable, field_decodes_to, FromJson, ToJson};
use crate::dispatch::CreatedIds;
use crate::hostgroup::ZabbixHostGroupId;
use crate::template::ZabbixTemplateId;
use crate::usermacro::CreateZabbixHostMacro;
use crate::json::{json_object, no_entries, push_entry, Json, JsonModel};

verus! {

/// `host.get`: hosts that match a filter.
pub const METHOD_HOST_GET: &'static str = "host.get";

/// `host.create`: makes a host and returns its id.
pub const METHOD_HOST_CREATE: &'static str = "host.create";

/// `host.update`: changes a host and returns its id.
pub const METHOD_HOST_UPDATE: &'static str = "host.update";

/// `host.delete`: removes hosts by id and returns their ids.
pub const METHOD_HOST_DELETE: &'static str = "host.delete";

/// Whether a host is monitored.
#[derive(Clone, Copy, Debug, PartialEq, Eq, Structural)]
pub enum HostStatus {
    Enabled,
    Disabled,
}

/// The code that the API uses for `s`.
pub open spec fn host_status_code(s: HostStatus) -> Seq<char> {
    match s {
        HostStatus::Enabled => seq!['0'],
        HostStatus::Disabled => seq!['1'],
    }
}

impl HostStatus {
    /// The status that the API code `s` stands for.
    pub fn from_code(s: &str) -> (r: Option<HostStatus>)
        ensures
            match r {
                Some(status) => s@ == host_status_code(status),
                None => forall|t: HostStatus| s@ != #[trigger] host_status_code(t),
            },
    {
        let r = if s.unicode_len() != 1 {
            None
        } else {
            let c = s.get_char(0);
            if c == '0' {
                Some(HostStatus::Enabled)
            } else if c == '1' {
                Some(HostStatus::Disabled)
            } else {
                None
            }
        };
        proof {
            if r is Some {
                assert(s@ =~= host_status_code(r->0));
            } else {
                assert forall|t: HostStatus| s@ != #[trigger] host_status_code(t) by {
                    if s@.len() == 1 {
                        assert(s@ != host_status_code(t) || s@[0] == host_status_code(t)[0]);
                    }
                }
            }
        }
        r
    }
}

impl std::str::FromStr for HostStatus {
    type Err = ();

    fn from_str(s: &str) -> Result<HostStatus, ()> {
        match HostStatus::from_code(s) {
            Some(status) => Ok(status),
            None => Err(()),
        }
    }
}

impl ToJson for HostStatus {
    open spec fn json_model(&self) -> JsonModel {
        JsonModel::Str(host_status_code(*self))
    }

    fn to_json(&self) -> (r: Json) {
        proof {
            reveal_strlit("0");
            reveal_strlit("1");
        }
        match self {
            HostStatus::Enabled => {
                let s = "0".to_string();
                assert(s@ =~= host_status_code(*self));
                Json::Str(s)
            },
            HostStatus::Disabled => {
                let s = "1".to_string();
                assert(s@ =~= host_status_code(*self));
                Json::Str(s)
            },
        }
    }
}

impl FromJson for HostStatus {
    open spec fn decodable(j: JsonModel) -> bool {
        exists|t: HostStatus| j == JsonModel::Str(#[trigger] host_status_code(t))
    }

    open spec fn decodes_to(j: JsonModel, v: HostStatus) -> bool {
        j == JsonModel::Str(host_status_code(v))
    }

    fn from_json(j: &Json) -> (r: Option<HostStatus>) {
        match j.as_str() {
            Some(s) => HostStatus::from_code(s.as_str()),
            None => None,
        }
    }
}

/// A host.
#[derive(Clone, Debug, PartialEq)]
pub struct ZabbixHost {
    pub host_id: String,
    pub host: String,
    pub status: HostStatus,
}

impl FromJson for ZabbixHost {
    open spec fn decodable(j: JsonModel) -> bool {
        &&& j is Object
        &&& field_decodable::<String>(j, "hostid"@)
        &&& field_decodable::<String>(j, "host"@)
        &&& field_decodable::<HostStatus>(j, "status"@)
    }

    open spec fn decodes_to(j: JsonModel, v: ZabbixHost) -> bool {
        &&& field_decodes_to(j, "hostid"@, v.host_id)
        &&& field_decodes_to(j, "host"@, v.host)
        &&& field_decodes_to(j, "status"@, v.status)
    }

    fn from_json(j: &Json) -> (r: Option<ZabbixHost>) {
        let host_id = field::<String>(j, "hostid");
        let host = field::<String>(j, "host");
        let status = field::<HostStatus>(j, "status");
        match (host_id, host, status) {
            (Some(host_id), Some(host), Some(status)) => Some(ZabbixHost { host_id, host, status }),
            _ => None,
        }
    }
}

/// A tag on a host or an item.
#[derive(Clone, Debug, PartialEq)]
pub struct ZabbixHostTag {
    pub tag: String,
    pub value: String,
}

impl ToJson for ZabbixHostTag {
    open spec fn json_model(&self) -> JsonModel {
        JsonModel::Object(
            Seq::<(Seq<char>, JsonModel)>::empty()
                .push(("tag"@, self.tag.json_model()))
                .push(("value"@, self.value.json_model())),
        )
    }

    fn to_json(&self) -> (r: Json) {
        let mut fields = no_entries();
        push_entry(&mut fields, "tag", self.tag.to_json());
        push_entry(&mut fields, "value", self.value.to_json());
        json_object(fields)
    }
}

impl FromJson for ZabbixHostTag {
    open spec fn decodable(j: JsonModel) -> bool {
        &&& j is Object
        &&& field_decodable::<String>(j, "tag"@)
        &&& field_decodable::<String>(j, "value"@)
    }

    open spec fn decodes_to(j: JsonModel, v: ZabbixHostTag) -> bool {
        &&& field_decodes_to(j, "tag"@, v.tag)
        &&& field_decodes_to(j, "value"@, v.value)
    }

    fn from_json(j: &Json) -> (r: Option<ZabbixHostTag>) {
        let tag = field::<String>(j, "tag");
        let value = field::<String>(j, "value");
        match (tag, value) {
            (Some(tag), Some(value)) => Some(ZabbixHostTag { tag, value }),
            _ => None,
        }
    }
}

/// An interface through which a host is reached.
#[derive(Clone, Debug, PartialEq)]
pub struct ZabbixHostInterface {
    /// 1 agent, 2 SNMP, 3 IPMI, 4 JMX.
    pub interface_type: u8,
    pub main: u8,
    pub ip: String,
    pub dns: String,
    pub use_ip: u8,
    pub port: String,
}

impl ToJson for ZabbixHostInterface {
    open spec fn json_model(&self) -> JsonModel {
        JsonModel::Object(
            Seq::<(Seq<char>, JsonModel)>::empty()
                .push(("type"@, self.interface_type.json_model()))
                .push(("main"@, self.main.json_model()))
                .push(("ip"@, self.ip.json_model()))
                .push(("dns"@, self.dns.json_model()))
                .push(("useip"@, self.use_ip.json_model()))
                .push(("port"@, self.port.json_model())),
        )
    }

    fn to_json(&self) -> (r: Json) {
        let mut fields = no_entries();
        push_entry(&mut fields, "type", self.interface_type.to_json());
        push_entry(&mut fields, "main", self.main.to_json());
        push_entry(&mut fields, "ip", self.ip.to_json());
        push_entry(&mut fields, "dns", self.dns.to_json());
        push_entry(&mut fields, "useip", self.use_ip.to_json());
        push_entry(&mut fields, "port", self.port.to_json());
        json_object(fields)
    }
}

impl FromJson for ZabbixHostInterface {
    open spec fn decodable(j: JsonModel) -> bool {
        &&& j is Object
        &&& field_decodable::<u8>(j, "type"@)
        &&& field_decodable::<u8>(j, "main"@)
        &&& field_decodable::<String>(j, "ip"@)
        &&& field_decodable::<String>(j, "dns"@)
        &&& field_decodable::<u8>(j, "useip"@)
        &&& field_decodable::<String>(j, "port"@)
    }

    open spec fn decodes_to(j: JsonModel, v: ZabbixHostInterface) -> bool {
        &&& field_decodes_to(j, "type"@, v.interface_type)
        &&& field_decodes_to(j, "main"@, v.main)
        &&& field_decodes_to(j, "ip"@, v.ip)
        &&& field_decodes_to(j, "dns"@, v.dns)
        &&& field_decodes_to(j, "useip"@, v.use_ip)
        &&& field_decodes_to(j, "port"@, v.port)
    }

    fn from_json(j: &Json) -> (r: Option<ZabbixHostInterface>) {
        let interface_type = field::<u8>(j, "type");
        let main = field::<u8>(j, "main");
        let ip = field::<String>(j, "ip");
        let dns = field::<String>(j, "dns");
        let use_ip = field::<u8>(j, "useip");
        let port = field::<String>(j, "port");
        match (
            interface_type,
            main,
            ip,
            dns,
            use_ip,
            port,
        ) {
            (
                Some(interface_type),
                Some(main),
                Some(ip),
                Some(dns),
                Some(use_ip),
                Some(port),
            ) => Some(ZabbixHostInterface { interface_type, main, ip, dns, use_ip, port }),
            _ => None,
        }
    }
}

/// The parameters of `host.create`.
#[derive(Clone, Debug)]
pub struct CreateHostRequest {
    pub host: String,
    pub groups: Vec<ZabbixHostGroupId>,
    pub interfaces: Vec<ZabbixHostInterface>,
    pub tags: Vec<ZabbixHostTag>,
    pub templates: Vec<ZabbixTemplateId>,
    pub macros: Vec<CreateZabbixHostMacro>,
    pub inventory_mode: u8,
    /// Inventory fields, as an object of strings.
    pub inventory: Json,
}

impl ToJson for CreateHostRequest {
    open spec fn json_model(&self) -> JsonModel {
        JsonModel::Object(
            Seq::<(Seq<char>, JsonModel)>::empty()
                .push(("host"@, self.host.json_model()))
                .push(("groups"@, self.groups.json_model()))
                .push(("interfaces"@, self.interfaces.json_model()))
                .push(("tags"@, self.tags.json_model()))
                .push(("templates"@, self.templates.json_model()))
                .push(("macros"@, self.macros.json_model()))
                .push(("inventory_mode"@, self.inventory_mode.json_model()))
                .push(("inventory"@, self.inventory.json_model())),
        )
    }

    fn to_json(&self) -> (r: Json) {
        let mut fields = no_entries();
        push_entry(&mut fields, "host", self.host.to_json());
        push_entry(&mut fields, "groups", self.groups.to_json());
        push_entry(&mut fields, "interfaces", self.interfaces.to_json());
        push_entry(&mut fields, "tags", self.tags.to_json());
        push_entry(&mut fields, "templates", self.templates.to_json());
        push_entry(&mut fields, "macros", self.macros.to_json());
        push_entry(&mut fields, "inventory_mode", self.inventory_mode.to_json());
        push_entry(&mut fields, "inventory", self.inventory.to_json());
        json_object(fields)
    }
}

/// The result of `host.create`.
#[derive(Clone, Debug)]
pub struct CreateHostResponse {
    pub host_ids: Vec<String>,
}

impl FromJson for CreateHostResponse {
    open spec fn decodable(j: JsonModel) -> bool {
        &&& j is Object
        &&& field_decodable::<Vec<String>>(j, "hostids"@)
    }

    open spec fn decodes_to(j: JsonModel, v: CreateHostResponse) -> bool {
        &&& field_decodes_to(j, "hostids"@, v.host_ids)
    }

    fn from_json(j: &Json) -> (r: Option<CreateHostResponse>) {
        let host_ids = field::<Vec<String>>(j, "hostids");
        match host_ids {
            Some(host_ids) => Some(CreateHostResponse { host_ids }),
            None => None,
        }
    }
}

impl CreatedIds for CreateHostResponse {
    open spec fn created_ids(&self) -> Seq<String> {
        self.host_ids@
    }

    fn ids(&self) -> (r: &Vec<String>) {
        &self.host_ids
    }
}

/// The parameters of `host.get`, with a filter of the caller's shape.
#[derive(Clone, Debug)]
pub struct GetHostsRequest<R> {
    pub filter: R,
}

impl<R: ToJson> ToJson for GetHostsRequest<R> {
    open spec fn json_model(&self) -> JsonModel {
        JsonModel::Object(
            Seq::<(Seq<char>, JsonModel)>::empty()
                .push(("filter"@, self.filter.json_model())),
        )
    }

    fn to_json(&self) -> (r: Json) {
        let mut fields = no_entries();
        push_entry(&mut fields, "filter", self.filter.to_json());
        json_object(fields)
    }
}

/// The parameters of `host.get` by host ids.
#[derive(Clone, Debug)]
pub struct GetHostsByIdsRequest {
    pub hostids: Vec<String>,
}

impl ToJson for GetHostsByIdsRequest {
    open spec fn json_model(&self) -> JsonModel {
        JsonModel::Object(
            Seq::<(Seq<char>, JsonModel)>::empty()
                .push(("hostids"@, self.hostids.json_model())),
        )
    }

    fn to_json(&self) -> (r: Json) {
        let mut fields = no_entries();
        push_entry(&mut fields, "hostids", self.hostids.to_json());
        json_object(fields)
    }
}

/// The parameters of `host.update` that set a host's status.
#[derive(Clone, Debug)]
pub struct UpdateHostRequest {
    pub hostid: String,
    pub status: HostStatus,
}

impl ToJson for UpdateHostRequest {
    open spec fn json_model(&self) -> JsonModel {
        JsonModel::Object(
            Seq::<(Seq<char>, JsonModel)>::empty()
                .push(("hostid"@, self.hostid.json_model()))
                .push(("status"@, self.status.json_model())),
        )
    }

    fn to_json(&self) -> (r: Json) {
        let mut fields = no_entries();
        push_entry(&mut fields, "hostid", self.hostid.to_json());
        push_entry(&mut fields, "status", self.status.to_json());
        json_object(fields)
    }
}

impl UpdateHostRequest {
    /// The update that disables the host `hostid`.
    pub fn disable_host(hostid: String) -> (r: UpdateHostRequest)
        ensures
            r.hostid == hostid,
            r.status == HostStatus::Disabled,
    {
        UpdateHostRequest { hostid, status: HostStatus::Disabled }
    }
}

/// The result of `host.update`.
#[derive(Clone, Debug)]
pub struct UpdateHostResponse {
    pub host_ids: Vec<String>,
}

impl FromJson for UpdateHostResponse {
    open spec fn decodable(j: JsonModel) -> bool {
        &&& j is Object
        &&& field_decodable::<Vec<String>>(j, "hostids"@)
    }

    open spec fn decodes_to(j: JsonModel, v: UpdateHostResponse) -> bool {
        &&& field_decodes_to(j, "hostids"@, v.host_ids)
    }

    fn from_json(j: &Json) -> (r: Option<UpdateHostResponse>) {
        let host_ids = field::<Vec<String>>(j, "hostids");
        match host_ids {
            Some(host_ids) => Some(UpdateHostResponse { host_ids }),
            None => None,
        }
    }
}

impl CreatedIds for UpdateHostResponse {
    open spec fn created_ids(&self) -> Seq<String> {
        self.host_ids@
    }

    fn ids(&self) -> (r: &Vec<String>) {
        &self.host_ids
    }
}

/// The result of `host.delete`.
#[derive(Clone, Debug)]
pub struct DeleteHostsResponse {
    pub host_ids: Vec<String>,
}

impl FromJson for DeleteHostsResponse {
    open spec fn decodable(j: JsonModel) -> bool {
        &&& j is Object
        &&& field_decodable::<Vec<String>>(j, "hostids"@)
    }

    open spec fn decodes_to(j: JsonModel, v: DeleteHostsResponse) -> bool {
        &&& field_decodes_to(j, "hostids"@, v.host_ids)
    }

    fn from_json(j: &Json) -> (r: Option<DeleteHostsResponse>) {
        let host_ids = field::<Vec<String>>(j, "hostids");
        match host_ids {
            Some(host_ids) => Some(DeleteHostsResponse { host_ids }),
            None => None,
        }
    }
}

} // verus!
