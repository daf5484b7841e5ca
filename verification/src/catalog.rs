//! The catalog: pattern entries, each a regular expression together with the
//! tool modes that identify its hash type, and the parser that reads a
//! catalog document into them.

use vstd::prelude::*;
use crate::errors::IdError;
use crate::json::JsonValue;
use crate::json::spec_field_of;
use crate::json::spec_parse_json;
use crate::json::field_of;
use crate::json::parse_json;

verus! {

/// One tool-specific identification of a hash type. `extended` is carried for
/// round-trip fidelity; nothing reads it after parsing.
pub struct Mode {
    pub name: String,
    pub extended: bool,
    pub john: Option<String>,
    pub hashcat: Option<u64>,
}

/// The mathematical value of a `Mode`.
pub struct ModeSpec {
    pub name: Seq<char>,
    pub extended: bool,
    pub john: Option<Seq<char>>,
    pub hashcat: Option<u64>,
}

impl DeepView for Mode {
    type V = ModeSpec;

    open spec fn deep_view(&self) -> ModeSpec {
        ModeSpec {
            name: self.name@,
            extended: self.extended,
            john: self.john.deep_view(),
            hashcat: self.hashcat,
        }
    }
}

impl Clone for Mode {
    fn clone(&self) -> (res: Self)
        ensures
            res == *self,
    {
        Mode {
            name: self.name.clone(),
            extended: self.extended,
            john: match &self.john {
                Some(s) => Some(s.clone()),
                None => None,
            },
            hashcat: self.hashcat,
        }
    }
}

/// One catalog record: a regular expression and the modes it identifies.
pub struct PatternEntry {
    pub regex: String,
    pub modes: Vec<Mode>,
}

/// The mathematical value of a `PatternEntry`.
pub struct EntrySpec {
    pub regex: Seq<char>,
    pub modes: Seq<ModeSpec>,
}

impl DeepView for PatternEntry {
    type V = EntrySpec;

    open spec fn deep_view(&self) -> EntrySpec {
        EntrySpec { regex: self.regex@, modes: self.modes.deep_view() }
    }
}

/// The object has a field `key` holding a string.
pub open spec fn required_text(fields: Seq<(String, JsonValue)>, key: Seq<char>) -> bool {
    match spec_field_of(fields, key) {
        Some(v) => v is Text,
        None => false,
    }
}

/// The object has a field `key` holding a boolean.
pub open spec fn required_bool(fields: Seq<(String, JsonValue)>, key: Seq<char>) -> bool {
    match spec_field_of(fields, key) {
        Some(v) => v is Bool,
        None => false,
    }
}

/// The field `key` is absent, null, or holds a string.
pub open spec fn optional_text(fields: Seq<(String, JsonValue)>, key: Seq<char>) -> bool {
    match spec_field_of(fields, key) {
        Some(v) => v is Text || v is Null,
        None => true,
    }
}

/// The field `key` is absent, null, or holds an unsigned 64-bit integer.
pub open spec fn optional_uint(fields: Seq<(String, JsonValue)>, key: Seq<char>) -> bool {
    match spec_field_of(fields, key) {
        Some(v) => v is UInt || v is Null,
        None => true,
    }
}

/// The string held by the required field `key`.
pub open spec fn spec_text_field(fields: Seq<(String, JsonValue)>, key: Seq<char>) -> Seq<char>
    recommends
        required_text(fields, key),
{
    spec_field_of(fields, key)->Some_0->Text_0@
}

/// The string held by the optional field `key`, if one is held.
pub open spec fn spec_opt_text_field(fields: Seq<(String, JsonValue)>, key: Seq<char>) -> Option<
    Seq<char>,
> {
    match spec_field_of(fields, key) {
        Some(JsonValue::Text(s)) => Some(s@),
        _ => None,
    }
}

/// The integer held by the optional field `key`, if one is held.
pub open spec fn spec_opt_uint_field(fields: Seq<(String, JsonValue)>, key: Seq<char>) -> Option<
    u64,
> {
    match spec_field_of(fields, key) {
        Some(JsonValue::UInt(u)) => Some(u),
        _ => None,
    }
}

/// A JSON value has the shape of a mode record: an object whose `name` field
/// is a string, whose `extended` field is a boolean, and whose `john` and
/// `hashcat` fields, where present and not null, are a string and an unsigned
/// 64-bit integer. Unknown fields are ignored.
pub open spec fn mode_shape_ok(j: JsonValue) -> bool {
    &&& j is Object
    &&& required_text(j->Object_0@, "name"@)
    &&& required_bool(j->Object_0@, "extended"@)
    &&& optional_text(j->Object_0@, "john"@)
    &&& optional_uint(j->Object_0@, "hashcat"@)
}

/// The mode record held by a JSON value of the right shape.
pub open spec fn spec_mode_of(j: JsonValue) -> ModeSpec
    recommends
        mode_shape_ok(j),
{
    ModeSpec {
        name: spec_text_field(j->Object_0@, "name"@),
        extended: spec_field_of(j->Object_0@, "extended"@)->Some_0->Bool_0,
        john: spec_opt_text_field(j->Object_0@, "john"@),
        hashcat: spec_opt_uint_field(j->Object_0@, "hashcat"@),
    }
}

/// A JSON value has the shape of a pattern entry: an object whose `regex`
/// field is a string and whose `modes` field is an array of mode records.
pub open spec fn entry_shape_ok(j: JsonValue) -> bool {
    &&& j is Object
    &&& required_text(j->Object_0@, "regex"@)
    &&& match spec_field_of(j->Object_0@, "modes"@) {
        Some(JsonValue::Array(items)) => forall|k: int|
            0 <= k < items@.len() ==> mode_shape_ok(#[trigger] items@[k]),
        _ => false,
    }
}

/// The pattern entry held by a JSON value of the right shape.
pub open spec fn spec_entry_of(j: JsonValue) -> EntrySpec
    recommends
        entry_shape_ok(j),
{
    EntrySpec {
        regex: spec_text_field(j->Object_0@, "regex"@),
        modes: match spec_field_of(j->Object_0@, "modes"@) {
            Some(JsonValue::Array(items)) => items@.map_values(|m: JsonValue| spec_mode_of(m)),
            _ => Seq::empty(),
        },
    }
}

/// A JSON value has the shape of a whole catalog: an array of pattern
/// entries.
pub open spec fn catalog_shape_ok(j: JsonValue) -> bool {
    &&& j is Array
    &&& forall|k: int|
        0 <= k < j->Array_0@.len() ==> entry_shape_ok(#[trigger] j->Array_0@[k])
}

/// The ordered catalog held by a JSON value of the right shape.
pub open spec fn spec_catalog_of(j: JsonValue) -> Seq<EntrySpec>
    recommends
        catalog_shape_ok(j),
{
    j->Array_0@.map_values(|e: JsonValue| spec_entry_of(e))
}

fn text_field(fields: &Vec<(String, JsonValue)>, key: &str) -> (r: Result<String, IdError>)
    ensures
        r is Ok <==> required_text(fields@, key@),
        r is Ok ==> r->Ok_0@ == spec_text_field(fields@, key@),
        r is Err ==> r->Err_0 is Parse,
{
    match field_of(fields, key) {
        Some(v) => match v {
            JsonValue::Text(s) => Ok(s.clone()),
            _ => Err(IdError::Parse),
        },
        None => Err(IdError::Parse),
    }
}

fn bool_field(fields: &Vec<(String, JsonValue)>, key: &str) -> (r: Result<bool, IdError>)
    ensures
        r is Ok <==> required_bool(fields@, key@),
        r is Ok ==> r->Ok_0 == spec_field_of(fields@, key@)->Some_0->Bool_0,
        r is Err ==> r->Err_0 is Parse,
{
    match field_of(fields, key) {
        Some(v) => match v {
            JsonValue::Bool(b) => Ok(*b),
            _ => Err(IdError::Parse),
        },
        None => Err(IdError::Parse),
    }
}

fn opt_text_field(fields: &Vec<(String, JsonValue)>, key: &str) -> (r: Result<
    Option<String>,
    IdError,
>)
    ensures
        r is Ok <==> optional_text(fields@, key@),
        r is Ok ==> r->Ok_0.deep_view() == spec_opt_text_field(fields@, key@),
        r is Err ==> r->Err_0 is Parse,
{
    match field_of(fields, key) {
        Some(v) => match v {
            JsonValue::Text(s) => Ok(Some(s.clone())),
            JsonValue::Null => Ok(None),
            _ => Err(IdError::Parse),
        },
        None => Ok(None),
    }
}

fn opt_uint_field(fields: &Vec<(String, JsonValue)>, key: &str) -> (r: Result<
    Option<u64>,
    IdError,
>)
    ensures
        r is Ok <==> optional_uint(fields@, key@),
        r is Ok ==> r->Ok_0 == spec_opt_uint_field(fields@, key@),
        r is Err ==> r->Err_0 is Parse,
{
    match field_of(fields, key) {
        Some(v) => match v {
            JsonValue::UInt(u) => Ok(Some(*u)),
            JsonValue::Null => Ok(None),
            _ => Err(IdError::Parse),
        },
        None => Ok(None),
    }
}

/// Reads one mode record out of a JSON value.
pub fn mode_of_json(j: &JsonValue) -> (r: Result<Mode, IdError>)
    ensures
        r is Ok <==> mode_shape_ok(*j),
        r is Ok ==> r->Ok_0.deep_view() == spec_mode_of(*j),
        r is Err ==> r->Err_0 is Parse,
{
    match j {
        JsonValue::Object(fields) => {
            let name = match text_field(fields, "name") {
                Ok(s) => s,
                Err(e) => {
                    return Err(e);
                },
            };
            let extended = match bool_field(fields, "extended") {
                Ok(b) => b,
                Err(e) => {
                    return Err(e);
                },
            };
            let john = match opt_text_field(fields, "john") {
                Ok(o) => o,
                Err(e) => {
                    return Err(e);
                },
            };
            let hashcat = match opt_uint_field(fields, "hashcat") {
                Ok(o) => o,
                Err(e) => {
                    return Err(e);
                },
            };
            Ok(Mode { name, extended, john, hashcat })
        },
        _ => Err(IdError::Parse),
    }
}

/// Reads one pattern entry out of a JSON value.
#[verifier::loop_isolation(false)]
pub fn entry_of_json(j: &JsonValue) -> (r: Result<PatternEntry, IdError>)
    ensures
        r is Ok <==> entry_shape_ok(*j),
        r is Ok ==> r->Ok_0.deep_view() == spec_entry_of(*j),
        r is Err ==> r->Err_0 is Parse,
{
    match j {
        JsonValue::Object(fields) => {
            let regex = match text_field(fields, "regex") {
                Ok(s) => s,
                Err(e) => {
                    return Err(e);
                },
            };
            let items = match field_of(fields, "modes") {
                Some(v) => match v {
                    JsonValue::Array(items) => items,
                    _ => {
                        return Err(IdError::Parse);
                    },
                },
                None => {
                    return Err(IdError::Parse);
                },
            };
            let mut modes: Vec<Mode> = Vec::new();
            let mut i: usize = 0;
            while i < items.len()
                invariant
                    i <= items@.len(),
                    modes.deep_view() =~= items@.take(i as int).map_values(
                        |m: JsonValue| spec_mode_of(m),
                    ),
                    forall|k: int| 0 <= k < i ==> mode_shape_ok(#[trigger] items@[k]),
                decreases items@.len() - i,
            {
                match mode_of_json(&items[i]) {
                    Ok(m) => {
                        modes.push(m);
                        proof {
                            assert(items@.take(i as int + 1).map_values(
                                |m: JsonValue| spec_mode_of(m),
                            ) =~= items@.take(i as int).map_values(|m: JsonValue| spec_mode_of(m)).push(
                                spec_mode_of(items@[i as int]),
                            ));
                        }
                    },
                    Err(e) => {
                        return Err(e);
                    },
                }
                i += 1;
            }
            proof {
                assert(items@.take(items@.len() as int) =~= items@);
            }
            Ok(PatternEntry { regex, modes })
        },
        _ => Err(IdError::Parse),
    }
}

/// Reads a whole catalog out of a JSON value: the document must be an array
/// of pattern entries, and a single ill-shaped record fails the entire parse.
#[verifier::loop_isolation(false)]
pub fn catalog_of_json(j: &JsonValue) -> (r: Result<Vec<PatternEntry>, IdError>)
    ensures
        r is Ok <==> catalog_shape_ok(*j),
        r is Ok ==> r->Ok_0.deep_view() == spec_catalog_of(*j),
        r is Err ==> r->Err_0 is Parse,
{
    match j {
        JsonValue::Array(items) => {
            let mut entries: Vec<PatternEntry> = Vec::new();
            let mut i: usize = 0;
            while i < items.len()
                invariant
                    i <= items@.len(),
                    entries.deep_view() =~= items@.take(i as int).map_values(
                        |e: JsonValue| spec_entry_of(e),
                    ),
                    forall|k: int| 0 <= k < i ==> entry_shape_ok(#[trigger] items@[k]),
                decreases items@.len() - i,
            {
                match entry_of_json(&items[i]) {
                    Ok(entry) => {
                        entries.push(entry);
                        proof {
                            assert(items@.take(i as int + 1).map_values(
                                |e: JsonValue| spec_entry_of(e),
                            ) =~= items@.take(i as int).map_values(|e: JsonValue| spec_entry_of(e)).push(
                                spec_entry_of(items@[i as int]),
                            ));
                        }
                    },
                    Err(e) => {
                        return Err(e);
                    },
                }
                i += 1;
            }
            proof {
                assert(items@.take(items@.len() as int) =~= items@);
            }
            Ok(entries)
        },
        _ => Err(IdError::Parse),
    }
}

/// Parses a catalog document. Succeeds exactly when the text is well-formed
/// JSON whose tree has the catalog shape; the entries come back in document
/// order.
pub fn parse_catalog(text: &str) -> (r: Result<Vec<PatternEntry>, IdError>)
    ensures
        r is Ok <==> (spec_parse_json(text@) matches Some(doc) && catalog_shape_ok(doc)),
        r is Ok ==> r->Ok_0.deep_view() == spec_catalog_of(spec_parse_json(text@)->Some_0),
        r is Err ==> r->Err_0 is Parse,
{
    match parse_json(text) {
        Ok(doc) => catalog_of_json(&doc),
        Err(_) => Err(IdError::Parse),
    }
}

} // verus!
