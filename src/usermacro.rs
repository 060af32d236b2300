use vstd::prelude::*;

use crate::codec::{
    field,
    field_decodable,
    field_decodes_to,
    optional_model,
    optional_to_json,
    FromJson,
    ToJson,
};
use crate::json::{
    json_object,
    no_entries,
    push_entry,
    push_optional_entry,
    with_optional,
    Json,
    JsonModel,
};

verus! {

/// `usermacro.get`: host macros that match a filter.
pub const METHOD_USERMACRO_GET: &'static str = "usermacro.get";

/// `usermacro.create`: makes a host macro and returns its id.
pub const METHOD_USERMACRO_CREATE: &'static str = "usermacro.create";

/// How a macro's value is stored.
#[derive(Clone, Copy, Debug, PartialEq, Eq, Structural, Default)]
pub enum MacroType {
    /// The value is kept as plain text.
    #[default]
    Text,
    /// The value is kept secret.
    Secret,
    /// The value is a path in a vault.
    Vault,
}

/// The code that the API uses for `t`.
pub open spec fn macro_type_code(t: MacroType) -> Seq<char> {
    match t {
        MacroType::Text => seq!['0'],
        MacroType::Secret => seq!['1'],
        MacroType::Vault => seq!['2'],
    }
}

impl ToJson for MacroType {
    open spec fn json_model(&self) -> JsonModel {
        JsonModel::Str(macro_type_code(*self))
    }

    fn to_json(&self) -> (r: Json) {
        proof {
            reveal_strlit("0");
            reveal_strlit("1");
            reveal_strlit("2");
        }
        match self {
            MacroType::Text => {
                let s = "0".to_string();
                assert(s@ =~= macro_type_code(*self));
                Json::Str(s)
            },
            MacroType::Secret => {
                let s = "1".to_string();
                assert(s@ =~= macro_type_code(*self));
                Json::Str(s)
            },
            MacroType::Vault => {
                let s = "2".to_string();
                assert(s@ =~= macro_type_code(*self));
                Json::Str(s)
            },
        }
    }
}

impl FromJson for MacroType {
    open spec fn decodable(j: JsonModel) -> bool {
        exists|t: MacroType| j == JsonModel::Str(#[trigger] macro_type_code(t))
    }

    open spec fn decodes_to(j: JsonModel, v: MacroType) -> bool {
        j == JsonModel::Str(macro_type_code(v))
    }

    fn from_json(j: &Json) -> (r: Option<MacroType>) {
        match j.as_str() {
            Some(s) => {
                let r = if s.as_str().unicode_len() != 1 {
                    None
                } else {
                    let c = s.as_str().get_char(0);
                    if c == '0' {
                        Some(MacroType::Text)
                    } else if c == '1' {
                        Some(MacroType::Secret)
                    } else if c == '2' {
                        Some(MacroType::Vault)
                    } else {
                        None
                    }
                };
                proof {
                    if r is Some {
                        assert(s@ =~= macro_type_code(r->0));
                    } else {
                        assert forall|t: MacroType| j@ != JsonModel::Str(#[trigger] macro_type_code(t)) by {
                            if s@.len() == 1 {
                                assert(s@ != macro_type_code(t) || s@[0] == macro_type_code(t)[0]);
                            }
                        }
                    }
                }
                r
            },
            None => None,
        }
    }
}

/// A global macro.
#[derive(Clone, Debug)]
pub struct ZabbixGlobalMacro {
    pub id: String,
    pub macro_name: String,
    pub value: String,
    pub macro_type: u8,
    pub description: String,
}

impl FromJson for ZabbixGlobalMacro {
    open spec fn decodable(j: JsonModel) -> bool {
        &&& j is Object
        &&& field_decodable::<String>(j, "globalmacroid"@)
        &&& field_decodable::<String>(j, "macro"@)
        &&& field_decodable::<String>(j, "value"@)
        &&& field_decodable::<u8>(j, "type"@)
        &&& field_decodable::<String>(j, "description"@)
    }

    open spec fn decodes_to(j: JsonModel, v: ZabbixGlobalMacro) -> bool {
        &&& field_decodes_to(j, "globalmacroid"@, v.id)
        &&& field_decodes_to(j, "macro"@, v.macro_name)
        &&& field_decodes_to(j, "value"@, v.value)
        &&& field_decodes_to(j, "type"@, v.macro_type)
        &&& field_decodes_to(j, "description"@, v.description)
    }

    fn from_json(j: &Json) -> (r: Option<ZabbixGlobalMacro>) {
        let id = field::<String>(j, "globalmacroid");
        let macro_name = field::<String>(j, "macro");
        let value = field::<String>(j, "value");
        let macro_type = field::<u8>(j, "type");
        let description = field::<String>(j, "description");
        match (
            id,
            macro_name,
            value,
            macro_type,
            description,
        ) {
            (
                Some(id),
                Some(macro_name),
                Some(value),
                Some(macro_type),
                Some(description),
            ) => Some(ZabbixGlobalMacro { id, macro_name, value, macro_type, description }),
            _ => None,
        }
    }
}

/// A host macro.
#[derive(Clone, Debug)]
pub struct ZabbixHostMacro {
    pub id: String,
    pub host_id: String,
    pub macro_name: String,
    pub value: String,
    pub macro_type: MacroType,
    pub description: String,
}

impl ToJson for ZabbixHostMacro {
    open spec fn json_model(&self) -> JsonModel {
        JsonModel::Object(
            Seq::<(Seq<char>, JsonModel)>::empty()
                .push(("hostmacroid"@, self.id.json_model()))
                .push(("hostid"@, self.host_id.json_model()))
                .push(("macro"@, self.macro_name.json_model()))
                .push(("value"@, self.value.json_model()))
                .push(("type"@, self.macro_type.json_model()))
                .push(("description"@, self.description.json_model())),
        )
    }

    fn to_json(&self) -> (r: Json) {
        let mut fields = no_entries();
        push_entry(&mut fields, "hostmacroid", self.id.to_json());
        push_entry(&mut fields, "hostid", self.host_id.to_json());
        push_entry(&mut fields, "macro", self.macro_name.to_json());
        push_entry(&mut fields, "value", self.value.to_json());
        push_entry(&mut fields, "type", self.macro_type.to_json());
        push_entry(&mut fields, "description", self.description.to_json());
        json_object(fields)
    }
}

impl FromJson for ZabbixHostMacro {
    open spec fn decodable(j: JsonModel) -> bool {
        &&& j is Object
        &&& field_decodable::<String>(j, "hostmacroid"@)
        &&& field_decodable::<String>(j, "hostid"@)
        &&& field_decodable::<String>(j, "macro"@)
        &&& field_decodable::<String>(j, "value"@)
        &&& field_decodable::<MacroType>(j, "type"@)
        &&& field_decodable::<String>(j, "description"@)
    }

    open spec fn decodes_to(j: JsonModel, v: ZabbixHostMacro) -> bool {
        &&& field_decodes_to(j, "hostmacroid"@, v.id)
        &&& field_decodes_to(j, "hostid"@, v.host_id)
        &&& field_decodes_to(j, "macro"@, v.macro_name)
        &&& field_decodes_to(j, "value"@, v.value)
        &&& field_decodes_to(j, "type"@, v.macro_type)
        &&& field_decodes_to(j, "description"@, v.description)
    }

    fn from_json(j: &Json) -> (r: Option<ZabbixHostMacro>) {
        let id = field::<String>(j, "hostmacroid");
        let host_id = field::<String>(j, "hostid");
        let macro_name = field::<String>(j, "macro");
        let value = field::<String>(j, "value");
        let macro_type = field::<MacroType>(j, "type");
        let description = field::<String>(j, "description");
        match (
            id,
            host_id,
            macro_name,
            value,
            macro_type,
            description,
        ) {
            (
                Some(id),
                Some(host_id),
                Some(macro_name),
                Some(value),
                Some(macro_type),
                Some(description),
            ) => Some(ZabbixHostMacro { id, host_id, macro_name, value, macro_type, description }),
            _ => None,
        }
    }
}

/// A macro to define on a host that is being made; the optional members are left out
/// where they are not set.
#[derive(Clone, Debug)]
pub struct CreateZabbixHostMacro {
    pub macro_name: String,
    pub macro_value: String,
    pub description: Option<String>,
    pub macro_type: Option<MacroType>,
}

impl ToJson for CreateZabbixHostMacro {
    open spec fn json_model(&self) -> JsonModel {
        let entries = Seq::<(Seq<char>, JsonModel)>::empty();
        let entries = entries.push(("macro"@, self.macro_name.json_model()));
        let entries = entries.push(("value"@, self.macro_value.json_model()));
        let entries = with_optional(entries, "description"@, optional_model(self.description));
        let entries = with_optional(entries, "type"@, optional_model(self.macro_type));
        JsonModel::Object(entries)
    }

    fn to_json(&self) -> (r: Json) {
        let mut fields = no_entries();
        push_entry(&mut fields, "macro", self.macro_name.to_json());
        push_entry(&mut fields, "value", self.macro_value.to_json());
        push_optional_entry(&mut fields, "description", optional_to_json(&self.description));
        push_optional_entry(&mut fields, "type", optional_to_json(&self.macro_type));
        json_object(fields)
    }
}

impl CreateZabbixHostMacro {
    /// A builder that starts from an empty name and value, with no description and no type.
    pub fn builder() -> (r: CreateZabbixHostMacroBuilder)
        ensures
            r.macro_spec().macro_name@ == Seq::<char>::empty(),
            r.macro_spec().macro_value@ == Seq::<char>::empty(),
            r.macro_spec().description is None,
            r.macro_spec().macro_type is None,
    {
        CreateZabbixHostMacroBuilder {
            inner: CreateZabbixHostMacro {
                macro_name: String::new(),
                macro_value: String::new(),
                description: None,
                macro_type: None,
            },
        }
    }
}

/// Builds a `CreateZabbixHostMacro` one member at a time.
pub struct CreateZabbixHostMacroBuilder {
    inner: CreateZabbixHostMacro,
}

impl CreateZabbixHostMacroBuilder {
    /// The macro being built.
    pub closed spec fn macro_spec(self) -> CreateZabbixHostMacro {
        self.inner
    }

    pub fn macro_name(self, value: &str) -> (r: CreateZabbixHostMacroBuilder)
        ensures
            r.macro_spec().macro_name@ == value@,
            r.macro_spec().macro_value == self.macro_spec().macro_value,
            r.macro_spec().description == self.macro_spec().description,
            r.macro_spec().macro_type == self.macro_spec().macro_type,
    {
        let mut b = self;
        b.inner.macro_name = value.to_string();
        b
    }

    pub fn value(self, value: &str) -> (r: CreateZabbixHostMacroBuilder)
        ensures
            r.macro_spec().macro_value@ == value@,
            r.macro_spec().macro_name == self.macro_spec().macro_name,
            r.macro_spec().description == self.macro_spec().description,
            r.macro_spec().macro_type == self.macro_spec().macro_type,
    {
        let mut b = self;
        b.inner.macro_value = value.to_string();
        b
    }

    pub fn description(self, value: &str) -> (r: CreateZabbixHostMacroBuilder)
        ensures
            r.macro_spec().description matches Some(d) && d@ == value@,
            r.macro_spec().macro_name == self.macro_spec().macro_name,
            r.macro_spec().macro_value == self.macro_spec().macro_value,
            r.macro_spec().macro_type == self.macro_spec().macro_type,
    {
        let mut b = self;
        b.inner.description = Some(value.to_string());
        b
    }

    pub fn text(self) -> (r: CreateZabbixHostMacroBuilder)
        ensures
            r.macro_spec() == (CreateZabbixHostMacro { macro_type: Some(MacroType::Text), ..self.macro_spec() }),
    {
        let mut b = self;
        b.inner.macro_type = Some(MacroType::Text);
        b
    }

    pub fn secret(self) -> (r: CreateZabbixHostMacroBuilder)
        ensures
            r.macro_spec() == (CreateZabbixHostMacro { macro_type: Some(MacroType::Secret), ..self.macro_spec() }),
    {
        let mut b = self;
        b.inner.macro_type = Some(MacroType::Secret);
        b
    }

    pub fn vault(self) -> (r: CreateZabbixHostMacroBuilder)
        ensures
            r.macro_spec() == (CreateZabbixHostMacro { macro_type: Some(MacroType::Vault), ..self.macro_spec() }),
    {
        let mut b = self;
        b.inner.macro_type = Some(MacroType::Vault);
        b
    }

    pub fn build(self) -> (r: CreateZabbixHostMacro)
        ensures
            r == self.macro_spec(),
    {
        self.inner
    }
}

} // verus!
