use vstd::prelude::*;

use crate::json::{
    find, key_pos, key_text, lemma_key_pos_bounds, lookup, same_text, JsonNumber, JsonValue, Key,
};
use crate::schema::{
    field_list_model, opt_str, schema_list_model, str_list, Enum, EnumModel, Field, FieldModel,
    Fixed, FixedModel, Order, Record, RecordModel, Schema, SchemaModel,
};

verus! {

/// Why a value could not be decoded.
#[derive(Debug, PartialEq)]
pub enum DecodeError {
    /// A required key is absent.
    MissingField(Key),
    /// The value under a key has the wrong shape.
    TypeMismatch(Key),
    /// The value under a key has the right shape but is not accepted: a name
    /// outside a closed set, or an empty type name.
    InvalidValue(Key),
    /// The `type` discriminator names no known kind of schema.
    Unsupported(String),
    /// The value is neither a string, nor an array, nor an object.
    NotASchema,
}

pub ghost enum DecodeErrorModel {
    MissingField(Key),
    TypeMismatch(Key),
    InvalidValue(Key),
    Unsupported(Seq<char>),
    NotASchema,
}

impl View for DecodeError {
    type V = DecodeErrorModel;

    open spec fn view(&self) -> DecodeErrorModel {
        match self {
            DecodeError::MissingField(k) => DecodeErrorModel::MissingField(*k),
            DecodeError::TypeMismatch(k) => DecodeErrorModel::TypeMismatch(*k),
            DecodeError::InvalidValue(k) => DecodeErrorModel::InvalidValue(*k),
            DecodeError::Unsupported(s) => DecodeErrorModel::Unsupported(s@),
            DecodeError::NotASchema => DecodeErrorModel::NotASchema,
        }
    }
}

/// The primitive schema that a type name denotes, if any.
pub open spec fn primitive_spec(name: Seq<char>) -> Option<SchemaModel> {
    if name == "null"@ {
        Some(SchemaModel::Null)
    } else if name == "boolean"@ {
        Some(SchemaModel::Boolean)
    } else if name == "string"@ {
        Some(SchemaModel::Str)
    } else if name == "bytes"@ {
        Some(SchemaModel::Bytes)
    } else if name == "int"@ {
        Some(SchemaModel::Int)
    } else if name == "long"@ {
        Some(SchemaModel::Long)
    } else if name == "float"@ {
        Some(SchemaModel::Float)
    } else if name == "double"@ {
        Some(SchemaModel::Double)
    } else {
        None
    }
}

/// The `type` discriminator of an object.
pub open spec fn type_spec(e: Seq<(String, JsonValue)>) -> Result<Seq<char>, DecodeErrorModel> {
    match lookup(e, "type"@) {
        None => Err(DecodeErrorModel::MissingField(Key::Type)),
        Some(JsonValue::String(s)) => Ok(s@),
        Some(_) => Err(DecodeErrorModel::TypeMismatch(Key::Type)),
    }
}

/// An optional string under `k`.
pub open spec fn string_spec(e: Seq<(String, JsonValue)>, k: Key) -> Result<
    Option<Seq<char>>,
    DecodeErrorModel,
> {
    match lookup(e, key_text(k)) {
        None => Ok(None),
        Some(JsonValue::String(s)) => Ok(Some(s@)),
        Some(_) => Err(DecodeErrorModel::TypeMismatch(k)),
    }
}

pub open spec fn all_strings(xs: Seq<JsonValue>) -> bool {
    forall|i: int| 0 <= i < xs.len() ==> (#[trigger] xs[i]) is String
}

/// A list of strings under `k`; an absent key gives the empty list.
pub open spec fn string_list_spec(e: Seq<(String, JsonValue)>, k: Key) -> Result<
    Seq<Seq<char>>,
    DecodeErrorModel,
> {
    match lookup(e, key_text(k)) {
        None => Ok(Seq::empty()),
        Some(JsonValue::Array(xs)) => if all_strings(xs@) {
            Ok(xs@.map_values(|x: JsonValue| x->String_0@))
        } else {
            Err(DecodeErrorModel::TypeMismatch(k))
        },
        Some(_) => Err(DecodeErrorModel::TypeMismatch(k)),
    }
}

/// The sort order that a name denotes, if any.
pub open spec fn order_of(s: Seq<char>) -> Option<Order> {
    if s == "ascending"@ {
        Some(Order::Ascending)
    } else if s == "descending"@ {
        Some(Order::Descending)
    } else if s == "ignore"@ {
        Some(Order::Ignore)
    } else {
        None
    }
}

/// An optional sort order under `order`.
pub open spec fn order_spec(e: Seq<(String, JsonValue)>) -> Result<Option<Order>, DecodeErrorModel> {
    match string_spec(e, Key::Order) {
        Err(x) => Err(x),
        Ok(None) => Ok(None),
        Ok(Some(s)) => match order_of(s) {
            Some(o) => Ok(Some(o)),
            None => Err(DecodeErrorModel::InvalidValue(Key::Order)),
        },
    }
}

/// The byte length under `size`: a non-negative integer that fits in `usize`.
pub open spec fn size_spec(e: Seq<(String, JsonValue)>) -> Result<nat, DecodeErrorModel> {
    match lookup(e, "size"@) {
        None => Err(DecodeErrorModel::MissingField(Key::Size)),
        Some(JsonValue::Number(JsonNumber::PosInt(n))) => if n <= usize::MAX {
            Ok(n as nat)
        } else {
            Err(DecodeErrorModel::TypeMismatch(Key::Size))
        },
        Some(JsonValue::Number(JsonNumber::NegInt(n))) => if 0 <= n && n <= usize::MAX {
            Ok(n as nat)
        } else {
            Err(DecodeErrorModel::TypeMismatch(Key::Size))
        },
        Some(_) => Err(DecodeErrorModel::TypeMismatch(Key::Size)),
    }
}

/// The required `name` of a named type.
pub open spec fn name_spec(e: Seq<(String, JsonValue)>) -> Result<Seq<char>, DecodeErrorModel> {
    match string_spec(e, Key::Name) {
        Err(x) => Err(x),
        Ok(None) => Err(DecodeErrorModel::MissingField(Key::Name)),
        Ok(Some(n)) => Ok(n),
    }
}

/// The required, non-empty `name` of a record, enum or fixed type.
pub open spec fn type_name_spec(e: Seq<(String, JsonValue)>) -> Result<
    Seq<char>,
    DecodeErrorModel,
> {
    match name_spec(e) {
        Err(x) => Err(x),
        Ok(n) => if n.len() == 0 {
            Err(DecodeErrorModel::InvalidValue(Key::Name))
        } else {
            Ok(n)
        },
    }
}

/// An enum: name, namespace, aliases, doc, symbols and default, read in that order.
pub open spec fn enum_spec(e: Seq<(String, JsonValue)>) -> Result<SchemaModel, DecodeErrorModel> {
    match type_name_spec(e) {
        Err(x) => Err(x),
        Ok(name) => match string_spec(e, Key::Namespace) {
            Err(x) => Err(x),
            Ok(namespace) => match string_list_spec(e, Key::Aliases) {
                Err(x) => Err(x),
                Ok(aliases) => match string_spec(e, Key::Doc) {
                    Err(x) => Err(x),
                    Ok(doc) => match string_list_spec(e, Key::Symbols) {
                        Err(x) => Err(x),
                        Ok(symbols) => match string_spec(e, Key::Default) {
                            Err(x) => Err(x),
                            Ok(default) => Ok(
                                SchemaModel::Enum(
                                    EnumModel { name, namespace, aliases, doc, symbols, default },
                                ),
                            ),
                        },
                    },
                },
            },
        },
    }
}

/// A fixed type: size, name, namespace, aliases and doc, read in that order.
pub open spec fn fixed_spec(e: Seq<(String, JsonValue)>) -> Result<SchemaModel, DecodeErrorModel> {
    match size_spec(e) {
        Err(x) => Err(x),
        Ok(size) => match type_name_spec(e) {
            Err(x) => Err(x),
            Ok(name) => match string_spec(e, Key::Namespace) {
                Err(x) => Err(x),
                Ok(namespace) => match string_list_spec(e, Key::Aliases) {
                    Err(x) => Err(x),
                    Ok(aliases) => match string_spec(e, Key::Doc) {
                        Err(x) => Err(x),
                        Ok(doc) => Ok(
                            SchemaModel::Fixed(FixedModel { name, namespace, doc, aliases, size }),
                        ),
                    },
                },
            },
        },
    }
}

/// A record: name, namespace, aliases, doc, then the decoded `fields`.
pub open spec fn record_spec(
    e: Seq<(String, JsonValue)>,
    fields: Result<Seq<FieldModel>, DecodeErrorModel>,
) -> Result<SchemaModel, DecodeErrorModel> {
    match type_name_spec(e) {
        Err(x) => Err(x),
        Ok(name) => match string_spec(e, Key::Namespace) {
            Err(x) => Err(x),
            Ok(namespace) => match string_list_spec(e, Key::Aliases) {
                Err(x) => Err(x),
                Ok(aliases) => match string_spec(e, Key::Doc) {
                    Err(x) => Err(x),
                    Ok(doc) => match fields {
                        Err(x) => Err(x),
                        Ok(fields) => Ok(
                            SchemaModel::Record(RecordModel { name, namespace, doc, aliases, fields }),
                        ),
                    },
                },
            },
        },
    }
}

/// A schema that must be present: `missing` when it is absent.
pub open spec fn required_spec(
    nested: Option<Result<SchemaModel, DecodeErrorModel>>,
    missing: Key,
) -> Result<SchemaModel, DecodeErrorModel> {
    match nested {
        None => Err(DecodeErrorModel::MissingField(missing)),
        Some(r) => r,
    }
}

/// A map schema, given the decoded `values`.
pub open spec fn map_spec(values: Option<Result<SchemaModel, DecodeErrorModel>>) -> Result<
    SchemaModel,
    DecodeErrorModel,
> {
    match required_spec(values, Key::Values) {
        Ok(s) => Ok(SchemaModel::Mapping(Box::new(s))),
        Err(x) => Err(x),
    }
}

/// An array schema, given the decoded `items`.
pub open spec fn array_spec(items: Option<Result<SchemaModel, DecodeErrorModel>>) -> Result<
    SchemaModel,
    DecodeErrorModel,
> {
    match required_spec(items, Key::Items) {
        Ok(s) => Ok(SchemaModel::Array(Box::new(s))),
        Err(x) => Err(x),
    }
}

/// An object schema, given the decoded `values`, `items` and `fields` it holds.
pub open spec fn object_spec(
    e: Seq<(String, JsonValue)>,
    values: Option<Result<SchemaModel, DecodeErrorModel>>,
    items: Option<Result<SchemaModel, DecodeErrorModel>>,
    fields: Result<Seq<FieldModel>, DecodeErrorModel>,
) -> Result<SchemaModel, DecodeErrorModel> {
    match type_spec(e) {
        Err(x) => Err(x),
        Ok(t) => match primitive_spec(t) {
            Some(p) => Ok(p),
            None => if t == "enum"@ {
                enum_spec(e)
            } else if t == "map"@ {
                map_spec(values)
            } else if t == "array"@ {
                array_spec(items)
            } else if t == "record"@ {
                record_spec(e, fields)
            } else if t == "fixed"@ {
                fixed_spec(e)
            } else {
                Err(DecodeErrorModel::Unsupported(t))
            },
        },
    }
}

/// A field, given the decoded `type` and `default` it holds: name, doc, type,
/// default, order and aliases, read in that order.
pub open spec fn field_of(
    e: Seq<(String, JsonValue)>,
    ty: Option<Result<SchemaModel, DecodeErrorModel>>,
    default: Option<Result<SchemaModel, DecodeErrorModel>>,
) -> Result<FieldModel, DecodeErrorModel> {
    match name_spec(e) {
        Err(x) => Err(x),
        Ok(name) => match string_spec(e, Key::Doc) {
            Err(x) => Err(x),
            Ok(doc) => match required_spec(ty, Key::Type) {
                Err(x) => Err(x),
                Ok(schema) => match default {
                    Some(Err(x)) => Err(x),
                    _ => match order_spec(e) {
                        Err(x) => Err(x),
                        Ok(order) => match string_list_spec(e, Key::Aliases) {
                            Err(x) => Err(x),
                            Ok(aliases) => Ok(
                                FieldModel {
                                    name,
                                    doc,
                                    schema,
                                    default: match default {
                                        Some(Ok(d)) => Some(d),
                                        _ => None,
                                    },
                                    order,
                                    aliases,
                                },
                            ),
                        },
                    },
                },
            },
        },
    }
}

/// The decoded schema under `key`, if the key is present.
pub open spec fn nested_spec(e: Seq<(String, JsonValue)>, key: Seq<char>) -> Option<
    Result<SchemaModel, DecodeErrorModel>,
>
    decreases e, 0int,
{
    let p = key_pos(e, key, e.len() as int);
    if 0 <= p < e.len() {
        Some(decode_spec(e[p].1))
    } else {
        None
    }
}

/// What decoding a JSON value as a schema gives.
pub open spec fn decode_spec(v: JsonValue) -> Result<SchemaModel, DecodeErrorModel>
    decreases v, 1int,
{
    match v {
        JsonValue::String(s) => match primitive_spec(s@) {
            Some(p) => Ok(p),
            None => Err(DecodeErrorModel::InvalidValue(Key::Type)),
        },
        JsonValue::Array(items) => match decode_list_spec(items@) {
            Ok(l) => Ok(SchemaModel::Union(l)),
            Err(x) => Err(x),
        },
        JsonValue::Object(entries) => object_spec(
            entries@,
            nested_spec(entries@, "values"@),
            nested_spec(entries@, "items"@),
            fields_spec(entries@),
        ),
        _ => Err(DecodeErrorModel::NotASchema),
    }
}

/// The decoded `fields` of a record object; an absent key gives no fields.
pub open spec fn fields_spec(e: Seq<(String, JsonValue)>) -> Result<
    Seq<FieldModel>,
    DecodeErrorModel,
>
    decreases e, 0int,
{
    let p = key_pos(e, "fields"@, e.len() as int);
    if 0 <= p < e.len() {
        match e[p].1 {
            JsonValue::Array(xs) => field_list_spec(xs@),
            _ => Err(DecodeErrorModel::TypeMismatch(Key::Fields)),
        }
    } else {
        Ok(Seq::empty())
    }
}

/// Each value of a list decoded as a schema; the first failure wins.
pub open spec fn decode_list_spec(xs: Seq<JsonValue>) -> Result<Seq<SchemaModel>, DecodeErrorModel>
    decreases xs, 0int,
{
    if xs.len() == 0 {
        Ok(Seq::empty())
    } else {
        match decode_list_spec(xs.subrange(0, xs.len() - 1)) {
            Err(x) => Err(x),
            Ok(l) => match decode_spec(xs[xs.len() - 1]) {
                Err(x) => Err(x),
                Ok(s) => Ok(l.push(s)),
            },
        }
    }
}

/// What decoding a JSON value as a record field gives.
pub open spec fn field_spec(v: JsonValue) -> Result<FieldModel, DecodeErrorModel>
    decreases v, 1int,
{
    match v {
        JsonValue::Object(entries) => field_of(
            entries@,
            nested_spec(entries@, "type"@),
            nested_spec(entries@, "default"@),
        ),
        _ => Err(DecodeErrorModel::TypeMismatch(Key::Fields)),
    }
}

/// Each value of a list decoded as a field; the first failure wins.
pub open spec fn field_list_spec(xs: Seq<JsonValue>) -> Result<Seq<FieldModel>, DecodeErrorModel>
    decreases xs, 0int,
{
    if xs.len() == 0 {
        Ok(Seq::empty())
    } else {
        match field_list_spec(xs.subrange(0, xs.len() - 1)) {
            Err(x) => Err(x),
            Ok(l) => match field_spec(xs[xs.len() - 1]) {
                Err(x) => Err(x),
                Ok(f) => Ok(l.push(f)),
            },
        }
    }
}

/// The primitive schema that a type name denotes, if any.
pub fn to_primitive(v: &str) -> (r: Option<Schema>)
    ensures
        match r {
            Some(s) => primitive_spec(v@) == Some(s@),
            None => primitive_spec(v@) is None,
        },
{
    if same_text(v, "null") {
        Some(Schema::Null)
    } else if same_text(v, "boolean") {
        Some(Schema::Boolean)
    } else if same_text(v, "string") {
        Some(Schema::String)
    } else if same_text(v, "bytes") {
        Some(Schema::Bytes)
    } else if same_text(v, "int") {
        Some(Schema::Int)
    } else if same_text(v, "long") {
        Some(Schema::Long)
    } else if same_text(v, "float") {
        Some(Schema::Float)
    } else if same_text(v, "double") {
        Some(Schema::Double)
    } else {
        None
    }
}

/// The string that a value holds; `TypeMismatch(key)` for any other value.
fn as_string(v: &JsonValue, key: Key) -> (r: Result<&String, DecodeError>)
    ensures
        match r {
            Ok(s) => *v == JsonValue::String(*s),
            Err(x) => !(*v is String) && x@ == DecodeErrorModel::TypeMismatch(key),
        },
{
    match v {
        JsonValue::String(s) => Ok(s),
        _ => Err(DecodeError::TypeMismatch(key)),
    }
}

/// The `type` discriminator of an object.
fn get_type(entries: &Vec<(String, JsonValue)>) -> (r: Result<&String, DecodeError>)
    ensures
        match r {
            Ok(s) => type_spec(entries@) == Ok::<Seq<char>, DecodeErrorModel>(s@),
            Err(x) => type_spec(entries@) == Err::<Seq<char>, DecodeErrorModel>(x@),
        },
{
    match find(entries, Key::Type.as_str()) {
        None => Err(DecodeError::MissingField(Key::Type)),
        Some(v) => as_string(v, Key::Type),
    }
}

/// The optional string under `key`.
fn get_string(entries: &Vec<(String, JsonValue)>, key: Key) -> (r: Result<
    Option<String>,
    DecodeError,
>)
    ensures
        match r {
            Ok(o) => string_spec(entries@, key) == Ok::<Option<Seq<char>>, DecodeErrorModel>(
                opt_str(o),
            ),
            Err(x) => string_spec(entries@, key) == Err::<Option<Seq<char>>, DecodeErrorModel>(
                x@,
            ),
        },
{
    match find(entries, key.as_str()) {
        None => Ok(None),
        Some(v) => match as_string(v, key) {
            Ok(s) => Ok(Some(s.clone())),
            Err(x) => Err(x),
        },
    }
}

/// The required `name` of a named type.
fn get_name(entries: &Vec<(String, JsonValue)>) -> (r: Result<String, DecodeError>)
    ensures
        match r {
            Ok(n) => name_spec(entries@) == Ok::<Seq<char>, DecodeErrorModel>(n@),
            Err(x) => name_spec(entries@) == Err::<Seq<char>, DecodeErrorModel>(x@),
        },
{
    match get_string(entries, Key::Name) {
        Ok(Some(n)) => Ok(n),
        Ok(None) => Err(DecodeError::MissingField(Key::Name)),
        Err(x) => Err(x),
    }
}

/// The required, non-empty `name` of a record, enum or fixed type.
fn get_type_name(entries: &Vec<(String, JsonValue)>) -> (r: Result<String, DecodeError>)
    ensures
        match r {
            Ok(n) => type_name_spec(entries@) == Ok::<Seq<char>, DecodeErrorModel>(n@),
            Err(x) => type_name_spec(entries@) == Err::<Seq<char>, DecodeErrorModel>(x@),
        },
{
    match get_name(entries) {
        Ok(n) => {
            if n.as_str().is_empty() {
                Err(DecodeError::InvalidValue(Key::Name))
            } else {
                Ok(n)
            }
        },
        Err(x) => Err(x),
    }
}

/// The list of strings under `key`; empty when the key is absent.
fn get_string_list(entries: &Vec<(String, JsonValue)>, key: Key) -> (r: Result<
    Vec<String>,
    DecodeError,
>)
    ensures
        match r {
            Ok(l) => string_list_spec(entries@, key) == Ok::<Seq<Seq<char>>, DecodeErrorModel>(
                str_list(l@),
            ),
            Err(x) => string_list_spec(entries@, key) == Err::<Seq<Seq<char>>, DecodeErrorModel>(
                x@,
            ),
        },
{
    match find(entries, key.as_str()) {
        None => {
            let out: Vec<String> = Vec::new();
            assert(str_list(out@) =~= Seq::empty());
            Ok(out)
        },
        Some(JsonValue::Array(xs)) => {
            let mut out: Vec<String> = Vec::new();
            let mut i: usize = 0;
            while i < xs.len()
                invariant
                    lookup(entries@, key_text(key)) == Some(JsonValue::Array(*xs)),
                    i <= xs@.len(),
                    out@.len() == i,
                    forall|j: int| 0 <= j < i ==> (#[trigger] xs@[j]) is String,
                    forall|j: int| 0 <= j < i ==> (#[trigger] out@[j])@ == xs@[j]->String_0@,
                decreases xs.len() - i,
            {
                match as_string(&xs[i], key) {
                    Ok(s) => {
                        out.push(s.clone());
                    },
                    Err(x) => {
                        assert(!all_strings(xs@));
                        return Err(x);
                    },
                }
                i = i + 1;
            }
            assert(str_list(out@) =~= xs@.map_values(|x: JsonValue| x->String_0@));
            Ok(out)
        },
        Some(_) => Err(DecodeError::TypeMismatch(key)),
    }
}

/// The optional sort order under `order`.
fn to_order(entries: &Vec<(String, JsonValue)>) -> (r: Result<Option<Order>, DecodeError>)
    ensures
        match r {
            Ok(o) => order_spec(entries@) == Ok::<Option<Order>, DecodeErrorModel>(o),
            Err(x) => order_spec(entries@) == Err::<Option<Order>, DecodeErrorModel>(x@),
        },
{
    match get_string(entries, Key::Order) {
        Err(x) => Err(x),
        Ok(None) => Ok(None),
        Ok(Some(s)) => {
            if same_text(s.as_str(), "ascending") {
                Ok(Some(Order::Ascending))
            } else if same_text(s.as_str(), "descending") {
                Ok(Some(Order::Descending))
            } else if same_text(s.as_str(), "ignore") {
                Ok(Some(Order::Ignore))
            } else {
                Err(DecodeError::InvalidValue(Key::Order))
            }
        },
    }
}

/// The byte length under `size`.
fn get_size(entries: &Vec<(String, JsonValue)>) -> (r: Result<usize, DecodeError>)
    ensures
        match r {
            Ok(n) => size_spec(entries@) == Ok::<nat, DecodeErrorModel>(n as nat),
            Err(x) => size_spec(entries@) == Err::<nat, DecodeErrorModel>(x@),
        },
{
    match find(entries, Key::Size.as_str()) {
        None => Err(DecodeError::MissingField(Key::Size)),
        Some(JsonValue::Number(JsonNumber::PosInt(n))) => {
            if *n <= usize::MAX as u64 {
                Ok(*n as usize)
            } else {
                Err(DecodeError::TypeMismatch(Key::Size))
            }
        },
        Some(JsonValue::Number(JsonNumber::NegInt(n))) => {
            if *n >= 0 && *n as u64 <= usize::MAX as u64 {
                Ok(*n as usize)
            } else {
                Err(DecodeError::TypeMismatch(Key::Size))
            }
        },
        Some(_) => Err(DecodeError::TypeMismatch(Key::Size)),
    }
}

/// An enum schema from the entries of its object.
fn to_enum(entries: &Vec<(String, JsonValue)>) -> (r: Result<Schema, DecodeError>)
    ensures
        match r {
            Ok(s) => enum_spec(entries@) == Ok::<SchemaModel, DecodeErrorModel>(s@),
            Err(x) => enum_spec(entries@) == Err::<SchemaModel, DecodeErrorModel>(x@),
        },
{
    let name = match get_type_name(entries) {
        Ok(n) => n,
        Err(x) => return Err(x),
    };
    let namespace = match get_string(entries, Key::Namespace) {
        Ok(n) => n,
        Err(x) => return Err(x),
    };
    let aliases = match get_string_list(entries, Key::Aliases) {
        Ok(a) => a,
        Err(x) => return Err(x),
    };
    let doc = match get_string(entries, Key::Doc) {
        Ok(d) => d,
        Err(x) => return Err(x),
    };
    let symbols = match get_string_list(entries, Key::Symbols) {
        Ok(s) => s,
        Err(x) => return Err(x),
    };
    let default = match get_string(entries, Key::Default) {
        Ok(d) => d,
        Err(x) => return Err(x),
    };
    Ok(Schema::Enum(Enum { name, namespace, aliases, doc, symbols, default }))
}

/// A fixed schema from the entries of its object.
fn to_fixed(entries: &Vec<(String, JsonValue)>) -> (r: Result<Schema, DecodeError>)
    ensures
        match r {
            Ok(s) => fixed_spec(entries@) == Ok::<SchemaModel, DecodeErrorModel>(s@),
            Err(x) => fixed_spec(entries@) == Err::<SchemaModel, DecodeErrorModel>(x@),
        },
{
    let size = match get_size(entries) {
        Ok(n) => n,
        Err(x) => return Err(x),
    };
    let name = match get_type_name(entries) {
        Ok(n) => n,
        Err(x) => return Err(x),
    };
    let namespace = match get_string(entries, Key::Namespace) {
        Ok(n) => n,
        Err(x) => return Err(x),
    };
    let aliases = match get_string_list(entries, Key::Aliases) {
        Ok(a) => a,
        Err(x) => return Err(x),
    };
    let doc = match get_string(entries, Key::Doc) {
        Ok(d) => d,
        Err(x) => return Err(x),
    };
    Ok(Schema::Fixed(Fixed { name, namespace, doc, aliases, size }))
}

/// Once a prefix of a list fails to decode, every longer prefix fails the same way.
pub proof fn lemma_decode_list_err(xs: Seq<JsonValue>, i: int, n: int)
    requires
        0 <= i <= n <= xs.len(),
        decode_list_spec(xs.subrange(0, i)) is Err,
    ensures
        decode_list_spec(xs.subrange(0, n)) == decode_list_spec(xs.subrange(0, i)),
    decreases n - i,
{
    if n > i {
        lemma_decode_list_err(xs, i, n - 1);
        assert(xs.subrange(0, n).subrange(0, n - 1) =~= xs.subrange(0, n - 1));
    }
}

/// Once a prefix of a list fails to decode as fields, every longer prefix fails the same way.
pub proof fn lemma_field_list_err(xs: Seq<JsonValue>, i: int, n: int)
    requires
        0 <= i <= n <= xs.len(),
        field_list_spec(xs.subrange(0, i)) is Err,
    ensures
        field_list_spec(xs.subrange(0, n)) == field_list_spec(xs.subrange(0, i)),
    decreases n - i,
{
    if n > i {
        lemma_field_list_err(xs, i, n - 1);
        assert(xs.subrange(0, n).subrange(0, n - 1) =~= xs.subrange(0, n - 1));
    }
}

/// Decodes a JSON value as a schema: a string names a primitive, an array is a
/// union of its decoded elements, and an object is dispatched on its `type`.
pub fn decode_schema(v: &JsonValue) -> (r: Result<Schema, DecodeError>)
    ensures
        match r {
            Ok(s) => decode_spec(*v) == Ok::<SchemaModel, DecodeErrorModel>(s@),
            Err(x) => decode_spec(*v) == Err::<SchemaModel, DecodeErrorModel>(x@),
        },
    decreases *v, 3int,
{
    match v {
        JsonValue::String(s) => match to_primitive(s.as_str()) {
            Some(p) => Ok(p),
            None => Err(DecodeError::InvalidValue(Key::Type)),
        },
        JsonValue::Array(items) => {
            let mut out: Vec<Schema> = Vec::new();
            let mut i: usize = 0;
            assert(items@.subrange(0, 0) =~= Seq::<JsonValue>::empty());
            while i < items.len()
                invariant
                    *v == JsonValue::Array(*items),
                    i <= items@.len(),
                    decode_list_spec(items@.subrange(0, i as int)) == Ok::<
                        Seq<SchemaModel>,
                        DecodeErrorModel,
                    >(schema_list_model(out@)),
                decreases items.len() - i,
            {
                proof {
                    assert(items@.subrange(0, i + 1).subrange(0, i as int) =~= items@.subrange(
                        0,
                        i as int,
                    ));
                    assert(decreases_to!(items@ => items@[i as int]));
                }
                match decode_schema(&items[i]) {
                    Ok(s) => {
                        proof {
                            crate::schema::lemma_schema_list_push(out@, s);
                        }
                        out.push(s);
                    },
                    Err(x) => {
                        proof {
                            lemma_decode_list_err(items@, i + 1, items@.len() as int);
                            assert(items@.subrange(0, items@.len() as int) =~= items@);
                        }
                        return Err(x);
                    },
                }
                i = i + 1;
            }
            assert(items@.subrange(0, items@.len() as int) =~= items@);
            Ok(Schema::Union(out))
        },
        JsonValue::Object(entries) => {
            let t = match get_type(entries) {
                Ok(t) => t,
                Err(x) => return Err(x),
            };
            match to_primitive(t.as_str()) {
                Some(p) => Ok(p),
                None => {
                    if same_text(t.as_str(), "enum") {
                        to_enum(entries)
                    } else if same_text(t.as_str(), "map") {
                        to_map(entries)
                    } else if same_text(t.as_str(), "array") {
                        to_array(entries)
                    } else if same_text(t.as_str(), "record") {
                        to_record(entries)
                    } else if same_text(t.as_str(), "fixed") {
                        to_fixed(entries)
                    } else {
                        Err(DecodeError::Unsupported(t.clone()))
                    }
                },
            }
        },
        _ => Err(DecodeError::NotASchema),
    }
}

/// The decoded schema under `key`, if the key is present.
fn to_schema(entries: &Vec<(String, JsonValue)>, key: Key) -> (r: Result<
    Option<Schema>,
    DecodeError,
>)
    ensures
        match r {
            Ok(None) => nested_spec(entries@, key_text(key)) is None,
            Ok(Some(s)) => nested_spec(entries@, key_text(key)) == Some(
                Ok::<SchemaModel, DecodeErrorModel>(s@),
            ),
            Err(x) => nested_spec(entries@, key_text(key)) == Some(
                Err::<SchemaModel, DecodeErrorModel>(x@),
            ),
        },
    decreases entries@, 0int,
{
    proof {
        lemma_key_pos_bounds(entries@, key_text(key), entries@.len() as int);
    }
    match find(entries, key.as_str()) {
        None => Ok(None),
        Some(x) => {
            proof {
                let p = key_pos(entries@, key_text(key), entries@.len() as int);
                assert(decreases_to!(entries@ => entries@[p]));
                assert(decreases_to!(entries@[p] => entries@[p].1));
            }
            match decode_schema(x) {
                Ok(s) => Ok(Some(s)),
                Err(e) => Err(e),
            }
        },
    }
}

/// A map schema: `values` is required.
fn to_map(entries: &Vec<(String, JsonValue)>) -> (r: Result<Schema, DecodeError>)
    ensures
        match r {
            Ok(s) => map_spec(nested_spec(entries@, "values"@)) == Ok::<
                SchemaModel,
                DecodeErrorModel,
            >(s@),
            Err(x) => map_spec(nested_spec(entries@, "values"@)) == Err::<
                SchemaModel,
                DecodeErrorModel,
            >(x@),
        },
    decreases entries@, 2int,
{
    match to_schema(entries, Key::Values) {
        Ok(Some(s)) => Ok(Schema::Mapping(Box::new(s))),
        Ok(None) => Err(DecodeError::MissingField(Key::Values)),
        Err(x) => Err(x),
    }
}

/// An array schema: `items` is required.
fn to_array(entries: &Vec<(String, JsonValue)>) -> (r: Result<Schema, DecodeError>)
    ensures
        match r {
            Ok(s) => array_spec(nested_spec(entries@, "items"@)) == Ok::<
                SchemaModel,
                DecodeErrorModel,
            >(s@),
            Err(x) => array_spec(nested_spec(entries@, "items"@)) == Err::<
                SchemaModel,
                DecodeErrorModel,
            >(x@),
        },
    decreases entries@, 2int,
{
    match to_schema(entries, Key::Items) {
        Ok(Some(s)) => Ok(Schema::Array(Box::new(s))),
        Ok(None) => Err(DecodeError::MissingField(Key::Items)),
        Err(x) => Err(x),
    }
}

/// The decoded `fields` of a record; none when the key is absent.
fn to_vec_fields(entries: &Vec<(String, JsonValue)>) -> (r: Result<Vec<Field>, DecodeError>)
    ensures
        match r {
            Ok(l) => fields_spec(entries@) == Ok::<Seq<FieldModel>, DecodeErrorModel>(
                field_list_model(l@),
            ),
            Err(x) => fields_spec(entries@) == Err::<Seq<FieldModel>, DecodeErrorModel>(x@),
        },
    decreases entries@, 1int,
{
    proof {
        lemma_key_pos_bounds(entries@, "fields"@, entries@.len() as int);
    }
    let ghost p = key_pos(entries@, "fields"@, entries@.len() as int);
    match find(entries, Key::Fields.as_str()) {
        None => Ok(Vec::new()),
        Some(JsonValue::Array(xs)) => {
            let mut out: Vec<Field> = Vec::new();
            let mut i: usize = 0;
            assert(xs@.subrange(0, 0) =~= Seq::<JsonValue>::empty());
            proof {
                assert(decreases_to!(entries@ => entries@[p]));
                assert(decreases_to!(entries@[p] => entries@[p].1));
                assert(decreases_to!(entries@[p].1 => *xs));
                assert(decreases_to!(*xs => xs@));
            }
            while i < xs.len()
                invariant
                    0 <= p < entries@.len(),
                    entries@[p].1 == JsonValue::Array(*xs),
                    fields_spec(entries@) == field_list_spec(xs@),
                    decreases_to!(entries@ => xs@),
                    i <= xs@.len(),
                    field_list_spec(xs@.subrange(0, i as int)) == Ok::<
                        Seq<FieldModel>,
                        DecodeErrorModel,
                    >(field_list_model(out@)),
                decreases xs.len() - i,
            {
                proof {
                    assert(xs@.subrange(0, i + 1).subrange(0, i as int) =~= xs@.subrange(
                        0,
                        i as int,
                    ));
                    assert(decreases_to!(xs@ => xs@[i as int]));
                }
                match decode_field(&xs[i]) {
                    Ok(f) => {
                        proof {
                            crate::schema::lemma_field_list_push(out@, f);
                        }
                        out.push(f);
                    },
                    Err(x) => {
                        proof {
                            lemma_field_list_err(xs@, i + 1, xs@.len() as int);
                            assert(xs@.subrange(0, xs@.len() as int) =~= xs@);
                        }
                        return Err(x);
                    },
                }
                i = i + 1;
            }
            assert(xs@.subrange(0, xs@.len() as int) =~= xs@);
            Ok(out)
        },
        Some(_) => Err(DecodeError::TypeMismatch(Key::Fields)),
    }
}

/// A record schema from the entries of its object.
fn to_record(entries: &Vec<(String, JsonValue)>) -> (r: Result<Schema, DecodeError>)
    ensures
        match r {
            Ok(s) => record_spec(entries@, fields_spec(entries@)) == Ok::<
                SchemaModel,
                DecodeErrorModel,
            >(s@),
            Err(x) => record_spec(entries@, fields_spec(entries@)) == Err::<
                SchemaModel,
                DecodeErrorModel,
            >(x@),
        },
    decreases entries@, 2int,
{
    let name = match get_type_name(entries) {
        Ok(n) => n,
        Err(x) => return Err(x),
    };
    let namespace = match get_string(entries, Key::Namespace) {
        Ok(n) => n,
        Err(x) => return Err(x),
    };
    let aliases = match get_string_list(entries, Key::Aliases) {
        Ok(a) => a,
        Err(x) => return Err(x),
    };
    let doc = match get_string(entries, Key::Doc) {
        Ok(d) => d,
        Err(x) => return Err(x),
    };
    let fields = match to_vec_fields(entries) {
        Ok(f) => f,
        Err(x) => return Err(x),
    };
    Ok(Schema::Record(Record { name, namespace, doc, aliases, fields }))
}

/// Decodes a JSON object as a record field: name, doc, type, default, order
/// and aliases.
pub fn decode_field(v: &JsonValue) -> (r: Result<Field, DecodeError>)
    ensures
        match r {
            Ok(f) => field_spec(*v) == Ok::<FieldModel, DecodeErrorModel>(f@),
            Err(x) => field_spec(*v) == Err::<FieldModel, DecodeErrorModel>(x@),
        },
    decreases *v, 3int,
{
    match v {
        JsonValue::Object(entries) => {
            let name = match get_name(entries) {
                Ok(n) => n,
                Err(x) => return Err(x),
            };
            let doc = match get_string(entries, Key::Doc) {
                Ok(d) => d,
                Err(x) => return Err(x),
            };
            let schema = match to_schema(entries, Key::Type) {
                Ok(Some(s)) => s,
                Ok(None) => return Err(DecodeError::MissingField(Key::Type)),
                Err(x) => return Err(x),
            };
            let default = match to_schema(entries, Key::Default) {
                Ok(d) => d,
                Err(x) => return Err(x),
            };
            let order = match to_order(entries) {
                Ok(o) => o,
                Err(x) => return Err(x),
            };
            let aliases = match get_string_list(entries, Key::Aliases) {
                Ok(a) => a,
                Err(x) => return Err(x),
            };
            Ok(Field { name, doc, schema, default, order, aliases })
        },
        _ => Err(DecodeError::TypeMismatch(Key::Fields)),
    }
}

} // verus!
