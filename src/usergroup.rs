use vstd::prelude::*;

use crate::codec::{
    field,
    field_decodable,
    field_decodes_to,
    optional_model,
    optional_to_json,
    FromJson,
    ToJson,
};
use crate::dispatch::CreatedIds;
use crate::json::{
    json_object,
    no_entries,
    push_entry,
    push_optional_entry,
    with_optional,
    Json,
    JsonModel,
};

verus! {

/// `usergroup.get`: user groups that match a filter.
pub const METHOD_USERGROUP_GET: &'static str = "usergroup.get";

/// `usergroup.create`: makes a user group and returns its id.
pub const METHOD_USERGROUP_CREATE: &'static str = "usergroup.create";

/// The parameters of `usergroup.get`; the optional members are left out where they are not set.
#[derive(Clone, Debug)]
pub struct GetUserGroupsRequest<F> {
    pub output: Option<String>,
    pub filter: Option<F>,
    pub usrgrpids: Option<Vec<String>>,
    pub userids: Option<Vec<String>>,
    pub status: Option<i32>,
    pub select_users: Option<String>,
    pub select_rights: Option<String>,
}

impl<F: ToJson> ToJson for GetUserGroupsRequest<F> {
    open spec fn json_model(&self) -> JsonModel {
        let entries = Seq::<(Seq<char>, JsonModel)>::empty();
        let entries = with_optional(entries, "output"@, optional_model(self.output));
        let entries = with_optional(entries, "filter"@, optional_model(self.filter));
        let entries = with_optional(entries, "usrgrpids"@, optional_model(self.usrgrpids));
        let entries = with_optional(entries, "userids"@, optional_model(self.userids));
        let entries = with_optional(entries, "status"@, optional_model(self.status));
        let entries = with_optional(entries, "selectUsers"@, optional_model(self.select_users));
        let entries = with_optional(entries, "selectRights"@, optional_model(self.select_rights));
        JsonModel::Object(entries)
    }

    fn to_json(&self) -> (r: Json) {
        let mut fields = no_entries();
        push_optional_entry(&mut fields, "output", optional_to_json(&self.output));
        push_optional_entry(&mut fields, "filter", optional_to_json(&self.filter));
        push_optional_entry(&mut fields, "usrgrpids", optional_to_json(&self.usrgrpids));
        push_optional_entry(&mut fields, "userids", optional_to_json(&self.userids));
        push_optional_entry(&mut fields, "status", optional_to_json(&self.status));
        push_optional_entry(&mut fields, "selectUsers", optional_to_json(&self.select_users));
        push_optional_entry(&mut fields, "selectRights", optional_to_json(&self.select_rights));
        json_object(fields)
    }
}

/// A filter on user group names.
#[derive(Clone, Debug)]
pub struct UserGroupFilter {
    pub name: Option<Vec<String>>,
}

impl ToJson for UserGroupFilter {
    open spec fn json_model(&self) -> JsonModel {
        let entries = Seq::<(Seq<char>, JsonModel)>::empty();
        let entries = with_optional(entries, "name"@, optional_model(self.name));
        JsonModel::Object(entries)
    }

    fn to_json(&self) -> (r: Json) {
        let mut fields = no_entries();
        push_optional_entry(&mut fields, "name", optional_to_json(&self.name));
        json_object(fields)
    }
}

/// Access of a user group to a host group or a template group:
/// 0 denied, 2 read-only, 3 read-write.
#[derive(Clone, Debug)]
pub struct UserGroupPermission {
    pub id: String,
    pub permission: i32,
}

impl ToJson for UserGroupPermission {
    open spec fn json_model(&self) -> JsonModel {
        JsonModel::Object(
            Seq::<(Seq<char>, JsonModel)>::empty()
                .push(("id"@, self.id.json_model()))
                .push(("permission"@, self.permission.json_model())),
        )
    }

    fn to_json(&self) -> (r: Json) {
        let mut fields = no_entries();
        push_entry(&mut fields, "id", self.id.to_json());
        push_entry(&mut fields, "permission", self.permission.to_json());
        json_object(fields)
    }
}

impl FromJson for UserGroupPermission {
    open spec fn decodable(j: JsonModel) -> bool {
        &&& j is Object
        &&& field_decodable::<String>(j, "id"@)
        &&& field_decodable::<i32>(j, "permission"@)
    }

    open spec fn decodes_to(j: JsonModel, v: UserGroupPermission) -> bool {
        &&& field_decodes_to(j, "id"@, v.id)
        &&& field_decodes_to(j, "permission"@, v.permission)
    }

    fn from_json(j: &Json) -> (r: Option<UserGroupPermission>) {
        let id = field::<String>(j, "id");
        let permission = field::<i32>(j, "permission");
        match (id, permission) {
            (Some(id), Some(permission)) => Some(UserGroupPermission { id, permission }),
            _ => None,
        }
    }
}

/// A tag-based permission of a user group.
#[derive(Clone, Debug)]
pub struct UserGroupTagFilter {
    pub groupid: String,
    pub tag: String,
    pub value: String,
}

impl ToJson for UserGroupTagFilter {
    open spec fn json_model(&self) -> JsonModel {
        JsonModel::Object(
            Seq::<(Seq<char>, JsonModel)>::empty()
                .push(("groupid"@, self.groupid.json_model()))
                .push(("tag"@, self.tag.json_model()))
                .push(("value"@, self.value.json_model())),
        )
    }

    fn to_json(&self) -> (r: Json) {
        let mut fields = no_entries();
        push_entry(&mut fields, "groupid", self.groupid.to_json());
        push_entry(&mut fields, "tag", self.tag.to_json());
        push_entry(&mut fields, "value", self.value.to_json());
        json_object(fields)
    }
}

impl FromJson for UserGroupTagFilter {
    open spec fn decodable(j: JsonModel) -> bool {
        &&& j is Object
        &&& field_decodable::<String>(j, "groupid"@)
        &&& field_decodable::<String>(j, "tag"@)
        &&& field_decodable::<String>(j, "value"@)
    }

    open spec fn decodes_to(j: JsonModel, v: UserGroupTagFilter) -> bool {
        &&& field_decodes_to(j, "groupid"@, v.groupid)
        &&& field_decodes_to(j, "tag"@, v.tag)
        &&& field_decodes_to(j, "value"@, v.value)
    }

    fn from_json(j: &Json) -> (r: Option<UserGroupTagFilter>) {
        let groupid = field::<String>(j, "groupid");
        let tag = field::<String>(j, "tag");
        let value = field::<String>(j, "value");
        match (groupid, tag, value) {
            (Some(groupid), Some(tag), Some(value)) => Some(UserGroupTagFilter { groupid, tag, value }),
            _ => None,
        }
    }
}

/// A member of a user group.
#[derive(Clone, Debug)]
pub struct UserGroupUser {
    pub user_id: String,
}

impl ToJson for UserGroupUser {
    open spec fn json_model(&self) -> JsonModel {
        JsonModel::Object(
            Seq::<(Seq<char>, JsonModel)>::empty()
                .push(("userid"@, self.user_id.json_model())),
        )
    }

    fn to_json(&self) -> (r: Json) {
        let mut fields = no_entries();
        push_entry(&mut fields, "userid", self.user_id.to_json());
        json_object(fields)
    }
}

impl FromJson for UserGroupUser {
    open spec fn decodable(j: JsonModel) -> bool {
        &&& j is Object
        &&& field_decodable::<String>(j, "userid"@)
    }

    open spec fn decodes_to(j: JsonModel, v: UserGroupUser) -> bool {
        &&& field_decodes_to(j, "userid"@, v.user_id)
    }

    fn from_json(j: &Json) -> (r: Option<UserGroupUser>) {
        let user_id = field::<String>(j, "userid");
        match user_id {
            Some(user_id) => Some(UserGroupUser { user_id }),
            None => None,
        }
    }
}

/// The parameters of `usergroup.create`; the optional members are left out where they are not set.
#[derive(Clone, Debug)]
pub struct CreateUserGroupRequest {
    pub name: String,
    pub debug_mode: Option<i32>,
    pub gui_access: Option<i32>,
    pub users_status: Option<i32>,
    pub hostgroup_rights: Option<Vec<UserGroupPermission>>,
    pub templategroup_rights: Option<Vec<UserGroupPermission>>,
    pub tag_filters: Option<Vec<UserGroupTagFilter>>,
    pub users: Option<Vec<UserGroupUser>>,
}

impl ToJson for CreateUserGroupRequest {
    open spec fn json_model(&self) -> JsonModel {
        let entries = Seq::<(Seq<char>, JsonModel)>::empty();
        let entries = entries.push(("name"@, self.name.json_model()));
        let entries = with_optional(entries, "debug_mode"@, optional_model(self.debug_mode));
        let entries = with_optional(entries, "gui_access"@, optional_model(self.gui_access));
        let entries = with_optional(entries, "users_status"@, optional_model(self.users_status));
        let entries = with_optional(entries, "hostgroup_rights"@, optional_model(self.hostgroup_rights));
        let entries = with_optional(entries, "templategroup_rights"@, optional_model(self.templategroup_rights));
        let entries = with_optional(entries, "tag_filters"@, optional_model(self.tag_filters));
        let entries = with_optional(entries, "users"@, optional_model(self.users));
        JsonModel::Object(entries)
    }

    fn to_json(&self) -> (r: Json) {
        let mut fields = no_entries();
        push_entry(&mut fields, "name", self.name.to_json());
        push_optional_entry(&mut fields, "debug_mode", optional_to_json(&self.debug_mode));
        push_optional_entry(&mut fields, "gui_access", optional_to_json(&self.gui_access));
        push_optional_entry(&mut fields, "users_status", optional_to_json(&self.users_status));
        push_optional_entry(&mut fields, "hostgroup_rights", optional_to_json(&self.hostgroup_rights));
        push_optional_entry(&mut fields, "templategroup_rights", optional_to_json(&self.templategroup_rights));
        push_optional_entry(&mut fields, "tag_filters", optional_to_json(&self.tag_filters));
        push_optional_entry(&mut fields, "users", optional_to_json(&self.users));
        json_object(fields)
    }
}

impl Default for CreateUserGroupRequest {
    /// An empty name and no optional member set.
    fn default() -> (r: CreateUserGroupRequest)
        ensures
            r.name@ == Seq::<char>::empty(),
            r.debug_mode is None,
            r.gui_access is None,
            r.users_status is None,
            r.hostgroup_rights is None,
            r.templategroup_rights is None,
            r.tag_filters is None,
            r.users is None,
    {
        CreateUserGroupRequest {
            name: String::new(),
            debug_mode: None,
            gui_access: None,
            users_status: None,
            hostgroup_rights: None,
            templategroup_rights: None,
            tag_filters: None,
            users: None,
        }
    }
}

/// The result of `usergroup.create`.
#[derive(Clone, Debug)]
pub struct CreateUserGroupResponse {
    pub user_group_ids: Vec<String>,
}

impl FromJson for CreateUserGroupResponse {
    open spec fn decodable(j: JsonModel) -> bool {
        &&& j is Object
        &&& field_decodable::<Vec<String>>(j, "usrgrpids"@)
    }

    open spec fn decodes_to(j: JsonModel, v: CreateUserGroupResponse) -> bool {
        &&& field_decodes_to(j, "usrgrpids"@, v.user_group_ids)
    }

    fn from_json(j: &Json) -> (r: Option<CreateUserGroupResponse>) {
        let user_group_ids = field::<Vec<String>>(j, "usrgrpids");
        match user_group_ids {
            Some(user_group_ids) => Some(CreateUserGroupResponse { user_group_ids }),
            None => None,
        }
    }
}

impl CreatedIds for CreateUserGroupResponse {
    open spec fn created_ids(&self) -> Seq<String> {
        self.user_group_ids@
    }

    fn ids(&self) -> (r: &Vec<String>) {
        &self.user_group_ids
    }
}

} // verus!
