use vstd::prelude::*;

use crate::json::{get_member, present_member, Json, JsonModel};

verus! {

/// A value that has a JSON encoding on the wire.
pub trait ToJson {
    /// The JSON document this value is written as.
    spec fn json_model(&self) -> JsonModel;

    fn to_json(&self) -> (r: Json)
        ensures
            r@ == self.json_model(),
    ;
}

/// A value that can be read back from a JSON document.
pub trait FromJson: Sized {
    /// `j` is a valid encoding of some value of this type.
    spec fn decodable(j: JsonModel) -> bool;

    /// `v` is the value that `j` encodes.
    spec fn decodes_to(j: JsonModel, v: Self) -> bool;

    fn from_json(j: &Json) -> (r: Option<Self>)
        ensures
            match r {
                Some(v) => Self::decodable(j@) && Self::decodes_to(j@, v),
                None => !Self::decodable(j@),
            },
    ;
}

impl ToJson for Json {
    open spec fn json_model(&self) -> JsonModel {
        self@
    }

    fn to_json(&self) -> (r: Json) {
        self.duplicate()
    }
}

impl FromJson for Json {
    open spec fn decodable(j: JsonModel) -> bool {
        true
    }

    open spec fn decodes_to(j: JsonModel, v: Json) -> bool {
        v@ == j
    }

    fn from_json(j: &Json) -> (r: Option<Json>) {
        Some(j.duplicate())
    }
}

impl ToJson for String {
    open spec fn json_model(&self) -> JsonModel {
        JsonModel::Str(self@)
    }

    fn to_json(&self) -> (r: Json) {
        Json::Str(self.clone())
    }
}

impl FromJson for String {
    open spec fn decodable(j: JsonModel) -> bool {
        j is Str
    }

    open spec fn decodes_to(j: JsonModel, v: String) -> bool {
        j == JsonModel::Str(v@)
    }

    fn from_json(j: &Json) -> (r: Option<String>) {
        match j.as_str() {
            Some(s) => Some(s.clone()),
            None => None,
        }
    }
}

impl ToJson for u8 {
    open spec fn json_model(&self) -> JsonModel {
        JsonModel::Int(*self as int)
    }

    fn to_json(&self) -> (r: Json) {
        Json::Int(*self as i64)
    }
}

impl FromJson for u8 {
    open spec fn decodable(j: JsonModel) -> bool {
        j is Int && 0 <= j->Int_0 <= u8::MAX
    }

    open spec fn decodes_to(j: JsonModel, v: u8) -> bool {
        j == JsonModel::Int(v as int)
    }

    fn from_json(j: &Json) -> (r: Option<u8>) {
        match j.as_i64() {
            Some(n) => {
                if 0 <= n && n <= u8::MAX as i64 {
                    Some(n as u8)
                } else {
                    None
                }
            },
            None => None,
        }
    }
}

impl ToJson for i32 {
    open spec fn json_model(&self) -> JsonModel {
        JsonModel::Int(*self as int)
    }

    fn to_json(&self) -> (r: Json) {
        Json::Int(*self as i64)
    }
}

impl FromJson for i32 {
    open spec fn decodable(j: JsonModel) -> bool {
        j is Int && i32::MIN <= j->Int_0 <= i32::MAX
    }

    open spec fn decodes_to(j: JsonModel, v: i32) -> bool {
        j == JsonModel::Int(v as int)
    }

    fn from_json(j: &Json) -> (r: Option<i32>) {
        match j.as_i64() {
            Some(n) => {
                if i32::MIN as i64 <= n && n <= i32::MAX as i64 {
                    Some(n as i32)
                } else {
                    None
                }
            },
            None => None,
        }
    }
}

impl ToJson for bool {
    open spec fn json_model(&self) -> JsonModel {
        JsonModel::Bool(*self)
    }

    fn to_json(&self) -> (r: Json) {
        Json::Bool(*self)
    }
}

/// The encodings of the elements of `v`, in order.
pub open spec fn models_of<T: ToJson>(v: Seq<T>) -> Seq<JsonModel> {
    Seq::new(v.len(), |i: int| v[i].json_model())
}

impl<T: ToJson> ToJson for Vec<T> {
    open spec fn json_model(&self) -> JsonModel {
        JsonModel::Array(models_of(self@))
    }

    fn to_json(&self) -> (r: Json) {
        let mut out: Vec<Json> = Vec::new();
        let mut i: usize = 0;
        while i < self.len()
            invariant
                0 <= i <= self.len(),
                out.len() == i,
                forall|k: int| 0 <= k < i ==> (#[trigger] out[k])@ == self@[k].json_model(),
            decreases self.len() - i,
        {
            out.push(self[i].to_json());
            i = i + 1;
        }
        let r = Json::Array(out);
        assert(r@->Array_0 =~= models_of(self@));
        r
    }
}

impl<T: FromJson> FromJson for Vec<T> {
    open spec fn decodable(j: JsonModel) -> bool {
        &&& j is Array
        &&& forall|k: int| 0 <= k < j->Array_0.len() ==> T::decodable(#[trigger] j->Array_0[k])
    }

    open spec fn decodes_to(j: JsonModel, v: Vec<T>) -> bool {
        &&& j is Array
        &&& v@.len() == j->Array_0.len()
        &&& forall|k: int|
            0 <= k < v@.len() ==> T::decodes_to(#[trigger] j->Array_0[k], v@[k])
    }

    fn from_json(j: &Json) -> (r: Option<Vec<T>>) {
        match j.as_array() {
            Some(items) => {
                let mut out: Vec<T> = Vec::new();
                let mut i: usize = 0;
                while i < items.len()
                    invariant
                        0 <= i <= items.len(),
                        out.len() == i,
                        j@ is Array,
                        j@->Array_0.len() == items.len(),
                        forall|k: int| 0 <= k < items.len() ==> #[trigger] j@->Array_0[k] == items[k]@,
                        forall|k: int|
                            0 <= k < i ==> T::decodable(j@->Array_0[k]) && T::decodes_to(
                                #[trigger] j@->Array_0[k],
                                out@[k],
                            ),
                    decreases items.len() - i,
                {
                    match T::from_json(&items[i]) {
                        Some(v) => out.push(v),
                        None => {
                            assert(!T::decodable(j@->Array_0[i as int]));
                            return None;
                        },
                    }
                    i = i + 1;
                }
                Some(out)
            },
            None => None,
        }
    }
}

impl FromJson for i8 {
    open spec fn decodable(j: JsonModel) -> bool {
        j is Int && i8::MIN <= j->Int_0 <= i8::MAX
    }

    open spec fn decodes_to(j: JsonModel, v: i8) -> bool {
        j == JsonModel::Int(v as int)
    }

    fn from_json(j: &Json) -> (r: Option<i8>) {
        match j.as_i64() {
            Some(n) => {
                if i8::MIN as i64 <= n && n <= i8::MAX as i64 {
                    Some(n as i8)
                } else {
                    None
                }
            },
            None => None,
        }
    }
}

/// The member `key` of `j` is there and encodes a `T`.
pub open spec fn field_decodable<T: FromJson>(j: JsonModel, key: Seq<char>) -> bool {
    get_member(j, key) matches Some(m) && T::decodable(m)
}

/// The member `key` of `j` is there and encodes `v`.
pub open spec fn field_decodes_to<T: FromJson>(j: JsonModel, key: Seq<char>, v: T) -> bool {
    get_member(j, key) matches Some(m) && T::decodes_to(m, v)
}

/// The optional member `key` of `j` is absent, `null`, or encodes a `T`.
pub open spec fn optional_field_decodable<T: FromJson>(j: JsonModel, key: Seq<char>) -> bool {
    present_member(j, key) matches Some(m) ==> T::decodable(m)
}

/// `v` is what the optional member `key` of `j` holds: `None` where it is absent or `null`.
pub open spec fn optional_field_decodes_to<T: FromJson>(
    j: JsonModel,
    key: Seq<char>,
    v: Option<T>,
) -> bool {
    match present_member(j, key) {
        Some(m) => v matches Some(x) && T::decodes_to(m, x),
        None => v is None,
    }
}

/// Reads the member `key` of `j` as a `T`.
pub fn field<T: FromJson>(j: &Json, key: &str) -> (r: Option<T>)
    ensures
        match r {
            Some(v) => field_decodable::<T>(j@, key@) && field_decodes_to(j@, key@, v),
            None => !field_decodable::<T>(j@, key@),
        },
{
    match j.get(key) {
        Some(m) => T::from_json(m),
        None => None,
    }
}

/// Reads the optional member `key` of `j` as a `T`: `Some(None)` where it is absent or `null`,
/// `None` where it holds something else than a `T`.
pub fn optional_field<T: FromJson>(j: &Json, key: &str) -> (r: Option<Option<T>>)
    ensures
        match r {
            Some(v) => optional_field_decodable::<T>(j@, key@) && optional_field_decodes_to(
                j@,
                key@,
                v,
            ),
            None => !optional_field_decodable::<T>(j@, key@),
        },
{
    match j.get(key) {
        Some(m) => {
            if m.is_null() {
                Some(None)
            } else {
                match T::from_json(m) {
                    Some(v) => Some(Some(v)),
                    None => None,
                }
            }
        },
        None => Some(None),
    }
}

/// The encoding of an optional value: present where the value is.
pub open spec fn optional_model<T: ToJson>(v: Option<T>) -> Option<JsonModel> {
    match v {
        Some(x) => Some(x.json_model()),
        None => None,
    }
}

/// Encodes an optional value: `None` stays `None`, so that the member is left out.
pub fn optional_to_json<T: ToJson>(v: &Option<T>) -> (r: Option<Json>)
    ensures
        crate::json::opt_model(r) == optional_model(*v),
{
    match v {
        Some(x) => Some(x.to_json()),
        None => None,
    }
}

/// The member `key` of `j` is a string that writes a decimal `u8`, as the API sends some
/// numbers.
pub open spec fn decimal_u8_field_decodable(j: JsonModel, key: Seq<char>) -> bool {
    get_member(j, key) matches Some(JsonModel::Str(s)) && decimal_value(s) matches Some(n)
        && n <= u8::MAX
}

/// The member `key` of `j` is a string that writes `v` in decimal.
pub open spec fn decimal_u8_field_decodes_to(j: JsonModel, key: Seq<char>, v: u8) -> bool {
    get_member(j, key) matches Some(JsonModel::Str(s)) && decimal_value(s) == Some(v as nat)
}

/// Reads the member `key` of `j` as a decimal `u8` written as a string.
pub fn decimal_u8_field(j: &Json, key: &str) -> (r: Option<u8>)
    ensures
        match r {
            Some(v) => decimal_u8_field_decodable(j@, key@) && decimal_u8_field_decodes_to(
                j@,
                key@,
                v,
            ),
            None => !decimal_u8_field_decodable(j@, key@),
        },
{
    match j.get(key) {
        Some(m) => match m.as_str() {
            Some(s) => parse_u8(s.as_str()),
            None => None,
        },
        None => None,
    }
}

/// The value of the decimal digits `s`, most significant first.
pub open spec fn digits_value(s: Seq<char>) -> nat
    decreases s.len(),
{
    if s.len() == 0 {
        0
    } else {
        digits_value(s.drop_last()) * 10 + (s.last() as nat - '0' as nat) as nat
    }
}

/// `s` is one or more ASCII digits.
pub open spec fn is_digits(s: Seq<char>) -> bool {
    s.len() > 0 && forall|k: int| 0 <= k < s.len() ==> '0' <= #[trigger] s[k] <= '9'
}

/// The number that `s` writes as an unsigned decimal: an optional `+`, then one or more
/// ASCII digits, nothing else.
pub open spec fn decimal_value(s: Seq<char>) -> Option<nat> {
    let digits = if s.len() > 0 && s[0] == '+' {
        s.drop_first()
    } else {
        s
    };
    if is_digits(digits) {
        Some(digits_value(digits))
    } else {
        None
    }
}

/// Relies on `str::parse::<u64>` (`u64::from_str`), documented to accept an optional `+`
/// followed by decimal digits only, and to fail on anything else or on a value above `u64::MAX`.
#[verifier::external_body]
fn parse_u64(s: &str) -> (r: Option<u64>)
    ensures
        match decimal_value(s@) {
            Some(n) => if n <= u64::MAX {
                r == Some(n as u64)
            } else {
                r is None
            },
            None => r is None,
        },
{
    s.parse::<u64>().ok()
}

/// Reads `s` as a decimal `u32`, as `str::parse::<u32>` does.
pub fn parse_u32(s: &str) -> (r: Option<u32>)
    ensures
        match decimal_value(s@) {
            Some(n) => if n <= u32::MAX {
                r == Some(n as u32)
            } else {
                r is None
            },
            None => r is None,
        },
{
    match parse_u64(s) {
        Some(n) => {
            if n <= u32::MAX as u64 {
                Some(n as u32)
            } else {
                None
            }
        },
        None => None,
    }
}

/// Reads `s` as a decimal `u8`, as `str::parse::<u8>` does.
pub fn parse_u8(s: &str) -> (r: Option<u8>)
    ensures
        match decimal_value(s@) {
            Some(n) => if n <= u8::MAX {
                r == Some(n as u8)
            } else {
                r is None
            },
            None => r is None,
        },
{
    match parse_u64(s) {
        Some(n) => {
            if n <= u8::MAX as u64 {
                Some(n as u8)
            } else {
                None
            }
        },
        None => None,
    }
}

} // verus!
