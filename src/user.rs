use vstd::prelude::*;

use crate::codec::{
    field,
    field_decodable,
    field_decodes_to,
    optional_field,
    optional_field_decodable,
    optional_field_decodes_to,
    optional_model,
    optional_to_json,
    FromJson,
    ToJson,
};
use crate::dispatch::CreatedIds;
use crate::json::{
    json_object,
    no_entries,
    push_entry,
    push_optional_entry,
    with_optional,
    Json,
    JsonModel,
};

verus! {

/// `user.get`: users that match a filter.
pub const METHOD_USER_GET: &'static str = "user.get";

/// `user.create`: makes a user and returns its id.
pub const METHOD_USER_CREATE: &'static str = "user.create";

/// A reference to a user group.
#[derive(Clone, Debug)]
pub struct UserGroupId {
    pub usrgrpid: String,
}

impl ToJson for UserGroupId {
    open spec fn json_model(&self) -> JsonModel {
        JsonModel::Object(
            Seq::<(Seq<char>, JsonModel)>::empty()
                .push(("usrgrpid"@, self.usrgrpid.json_model())),
        )
    }

    fn to_json(&self) -> (r: Json) {
        let mut fields = no_entries();
        push_entry(&mut fields, "usrgrpid", self.usrgrpid.to_json());
        json_object(fields)
    }
}

/// A way to notify a user.
#[derive(Clone, Debug)]
pub struct UserMedia {
    pub mediatypeid: String,
    pub sendto: String,
    pub active: i32,
    pub severity: i32,
    pub period: Option<String>,
}

impl ToJson for UserMedia {
    open spec fn json_model(&self) -> JsonModel {
        let entries = Seq::<(Seq<char>, JsonModel)>::empty();
        let entries = entries.push(("mediatypeid"@, self.mediatypeid.json_model()));
        let entries = entries.push(("sendto"@, self.sendto.json_model()));
        let entries = entries.push(("active"@, self.active.json_model()));
        let entries = entries.push(("severity"@, self.severity.json_model()));
        let entries = with_optional(entries, "period"@, optional_model(self.period));
        JsonModel::Object(entries)
    }

    fn to_json(&self) -> (r: Json) {
        let mut fields = no_entries();
        push_entry(&mut fields, "mediatypeid", self.mediatypeid.to_json());
        push_entry(&mut fields, "sendto", self.sendto.to_json());
        push_entry(&mut fields, "active", self.active.to_json());
        push_entry(&mut fields, "severity", self.severity.to_json());
        push_optional_entry(&mut fields, "period", optional_to_json(&self.period));
        json_object(fields)
    }
}

/// The parameters of `user.create`; the optional members are left out where they are not set.
#[derive(Clone, Debug)]
pub struct CreateUserRequest {
    pub username: String,
    pub passwd: String,
    pub roleid: String,
    pub usrgrps: Vec<UserGroupId>,
    pub name: Option<String>,
    pub surname: Option<String>,
    pub url: Option<String>,
    pub autologin: Option<i32>,
    pub autologout: Option<String>,
    pub lang: Option<String>,
    pub refresh: Option<String>,
    pub theme: Option<String>,
    pub user_type: Option<i32>,
    pub user_medias: Option<Vec<UserMedia>>,
}

impl ToJson for CreateUserRequest {
    open spec fn json_model(&self) -> JsonModel {
        let entries = Seq::<(Seq<char>, JsonModel)>::empty();
        let entries = entries.push(("username"@, self.username.json_model()));
        let entries = entries.push(("passwd"@, self.passwd.json_model()));
        let entries = entries.push(("roleid"@, self.roleid.json_model()));
        let entries = entries.push(("usrgrps"@, self.usrgrps.json_model()));
        let entries = with_optional(entries, "name"@, optional_model(self.name));
        let entries = with_optional(entries, "surname"@, optional_model(self.surname));
        let entries = with_optional(entries, "url"@, optional_model(self.url));
        let entries = with_optional(entries, "autologin"@, optional_model(self.autologin));
        let entries = with_optional(entries, "autologout"@, optional_model(self.autologout));
        let entries = with_optional(entries, "lang"@, optional_model(self.lang));
        let entries = with_optional(entries, "refresh"@, optional_model(self.refresh));
        let entries = with_optional(entries, "theme"@, optional_model(self.theme));
        let entries = with_optional(entries, "type"@, optional_model(self.user_type));
        let entries = with_optional(entries, "user_medias"@, optional_model(self.user_medias));
        JsonModel::Object(entries)
    }

    fn to_json(&self) -> (r: Json) {
        let mut fields = no_entries();
        push_entry(&mut fields, "username", self.username.to_json());
        push_entry(&mut fields, "passwd", self.passwd.to_json());
        push_entry(&mut fields, "roleid", self.roleid.to_json());
        push_entry(&mut fields, "usrgrps", self.usrgrps.to_json());
        push_optional_entry(&mut fields, "name", optional_to_json(&self.name));
        push_optional_entry(&mut fields, "surname", optional_to_json(&self.surname));
        push_optional_entry(&mut fields, "url", optional_to_json(&self.url));
        push_optional_entry(&mut fields, "autologin", optional_to_json(&self.autologin));
        push_optional_entry(&mut fields, "autologout", optional_to_json(&self.autologout));
        push_optional_entry(&mut fields, "lang", optional_to_json(&self.lang));
        push_optional_entry(&mut fields, "refresh", optional_to_json(&self.refresh));
        push_optional_entry(&mut fields, "theme", optional_to_json(&self.theme));
        push_optional_entry(&mut fields, "type", optional_to_json(&self.user_type));
        push_optional_entry(&mut fields, "user_medias", optional_to_json(&self.user_medias));
        json_object(fields)
    }
}

/// The result of `user.create`.
#[derive(Clone, Debug)]
pub struct CreateUserResponse {
    pub user_ids: Vec<String>,
}

impl FromJson for CreateUserResponse {
    open spec fn decodable(j: JsonModel) -> bool {
        &&& j is Object
        &&& field_decodable::<Vec<String>>(j, "userids"@)
    }

    open spec fn decodes_to(j: JsonModel, v: CreateUserResponse) -> bool {
        &&& field_decodes_to(j, "userids"@, v.user_ids)
    }

    fn from_json(j: &Json) -> (r: Option<CreateUserResponse>) {
        let user_ids = field::<Vec<String>>(j, "userids");
        match user_ids {
            Some(user_ids) => Some(CreateUserResponse { user_ids }),
            None => None,
        }
    }
}

impl CreatedIds for CreateUserResponse {
    open spec fn created_ids(&self) -> Seq<String> {
        self.user_ids@
    }

    fn ids(&self) -> (r: &Vec<String>) {
        &self.user_ids
    }
}

/// A user.
#[derive(Clone, Debug)]
pub struct ZabbixUser {
    pub user_id: String,
    pub alias: String,
    pub name: Option<String>,
    pub surname: Option<String>,
    pub role_id: Option<String>,
    pub user_type: Option<i32>,
    pub url: Option<String>,
}

impl ToJson for ZabbixUser {
    open spec fn json_model(&self) -> JsonModel {
        let entries = Seq::<(Seq<char>, JsonModel)>::empty();
        let entries = entries.push(("userid"@, self.user_id.json_model()));
        let entries = entries.push(("username"@, self.alias.json_model()));
        let entries = with_optional(entries, "name"@, optional_model(self.name));
        let entries = with_optional(entries, "surname"@, optional_model(self.surname));
        let entries = with_optional(entries, "roleid"@, optional_model(self.role_id));
        let entries = with_optional(entries, "type"@, optional_model(self.user_type));
        let entries = with_optional(entries, "url"@, optional_model(self.url));
        JsonModel::Object(entries)
    }

    fn to_json(&self) -> (r: Json) {
        let mut fields = no_entries();
        push_entry(&mut fields, "userid", self.user_id.to_json());
        push_entry(&mut fields, "username", self.alias.to_json());
        push_optional_entry(&mut fields, "name", optional_to_json(&self.name));
        push_optional_entry(&mut fields, "surname", optional_to_json(&self.surname));
        push_optional_entry(&mut fields, "roleid", optional_to_json(&self.role_id));
        push_optional_entry(&mut fields, "type", optional_to_json(&self.user_type));
        push_optional_entry(&mut fields, "url", optional_to_json(&self.url));
        json_object(fields)
    }
}

impl FromJson for ZabbixUser {
    open spec fn decodable(j: JsonModel) -> bool {
        &&& j is Object
        &&& field_decodable::<String>(j, "userid"@)
        &&& field_decodable::<String>(j, "username"@)
        &&& optional_field_decodable::<String>(j, "name"@)
        &&& optional_field_decodable::<String>(j, "surname"@)
        &&& optional_field_decodable::<String>(j, "roleid"@)
        &&& optional_field_decodable::<i32>(j, "type"@)
        &&& optional_field_decodable::<String>(j, "url"@)
    }

    open spec fn decodes_to(j: JsonModel, v: ZabbixUser) -> bool {
        &&& field_decodes_to(j, "userid"@, v.user_id)
        &&& field_decodes_to(j, "username"@, v.alias)
        &&& optional_field_decodes_to(j, "name"@, v.name)
        &&& optional_field_decodes_to(j, "surname"@, v.surname)
        &&& optional_field_decodes_to(j, "roleid"@, v.role_id)
        &&& optional_field_decodes_to(j, "type"@, v.user_type)
        &&& optional_field_decodes_to(j, "url"@, v.url)
    }

    fn from_json(j: &Json) -> (r: Option<ZabbixUser>) {
        let user_id = field::<String>(j, "userid");
        let alias = field::<String>(j, "username");
        let name = optional_field::<String>(j, "name");
        let surname = optional_field::<String>(j, "surname");
        let role_id = optional_field::<String>(j, "roleid");
        let user_type = optional_field::<i32>(j, "type");
        let url = optional_field::<String>(j, "url");
        match (
            user_id,
            alias,
            name,
            surname,
            role_id,
            user_type,
            url,
        ) {
            (
                Some(user_id),
                Some(alias),
                Some(name),
                Some(surname),
                Some(role_id),
                Some(user_type),
                Some(url),
            ) => Some(ZabbixUser { user_id, alias, name, surname, role_id, user_type, url }),
            _ => None,
        }
    }
}

} // verus!
