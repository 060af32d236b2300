use vstd::prelude::*;

pub mod codec;
pub mod dispatch;
pub mod envelope;
pub mod error;
pub mod host;
pub mod hostgroup;
pub mod item;
pub mod json;
pub mod laws;
pub mod session;
pub mod template;
pub mod trigger;
pub mod user;
pub mod usergroup;
pub mod usermacro;
pub mod webscenario;

verus! {

/// The `output` value that asks the API for every property of each object.
pub const ZABBIX_EXTEND_PROPERTY_VALUE: &'static str = "extend";

} // verus!
