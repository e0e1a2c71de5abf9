use vstd::prelude::*;

use crate::decode::{
    decode_spec, field_spec, order_of, order_spec, primitive_spec, size_spec, type_spec, DecodeError,
    DecodeErrorModel,
};
use crate::json::{lookup, JsonValue, Key};
use crate::schema::{Order, Schema, SchemaModel};

verus! {

/// Length and first two characters of each name that decoding compares against.
proof fn lemma_literal_shapes()
    ensures
        "null"@.len() == 4 && "null"@[0] == 'n' && "null"@[1] == 'u',
        "boolean"@.len() == 7 && "boolean"@[0] == 'b' && "boolean"@[1] == 'o',
        "string"@.len() == 6 && "string"@[0] == 's' && "string"@[1] == 't',
        "bytes"@.len() == 5 && "bytes"@[0] == 'b' && "bytes"@[1] == 'y',
        "int"@.len() == 3 && "int"@[0] == 'i' && "int"@[1] == 'n',
        "long"@.len() == 4 && "long"@[0] == 'l' && "long"@[1] == 'o',
        "float"@.len() == 5 && "float"@[0] == 'f' && "float"@[1] == 'l',
        "double"@.len() == 6 && "double"@[0] == 'd' && "double"@[1] == 'o',
        "enum"@.len() == 4 && "enum"@[0] == 'e' && "enum"@[1] == 'n',
        "map"@.len() == 3 && "map"@[0] == 'm' && "map"@[1] == 'a',
        "array"@.len() == 5 && "array"@[0] == 'a' && "array"@[1] == 'r',
        "record"@.len() == 6 && "record"@[0] == 'r' && "record"@[1] == 'e',
        "fixed"@.len() == 5 && "fixed"@[0] == 'f' && "fixed"@[1] == 'i',
        "ascending"@.len() == 9 && "ascending"@[0] == 'a' && "ascending"@[1] == 's',
        "descending"@.len() == 10 && "descending"@[0] == 'd' && "descending"@[1] == 'e',
        "ignore"@.len() == 6 && "ignore"@[0] == 'i' && "ignore"@[1] == 'g',
{
    reveal_strlit("null");
    reveal_strlit("boolean");
    reveal_strlit("string");
    reveal_strlit("bytes");
    reveal_strlit("int");
    reveal_strlit("long");
    reveal_strlit("float");
    reveal_strlit("double");
    reveal_strlit("enum");
    reveal_strlit("map");
    reveal_strlit("array");
    reveal_strlit("record");
    reveal_strlit("fixed");
    reveal_strlit("ascending");
    reveal_strlit("descending");
    reveal_strlit("ignore");
}

/// The names that a bare string or a `type` discriminator may hold are all distinct.
pub proof fn lemma_type_names_distinct()
    ensures
        primitive_spec("enum"@) is None,
        primitive_spec("map"@) is None,
        primitive_spec("array"@) is None,
        primitive_spec("record"@) is None,
        primitive_spec("fixed"@) is None,
        "enum"@ != "map"@,
        "enum"@ != "array"@,
        "enum"@ != "record"@,
        "enum"@ != "fixed"@,
        "map"@ != "array"@,
        "map"@ != "record"@,
        "map"@ != "fixed"@,
        "array"@ != "record"@,
        "array"@ != "fixed"@,
        "record"@ != "fixed"@,
{
    lemma_literal_shapes();
}

/// A bare string decodes to the primitive it names; any other bare string
/// fails with `InvalidValue`.
pub proof fn lemma_bare_primitive_names(s: String)
    ensures
        s@ == "null"@ ==> decode_spec(JsonValue::String(s)) == Ok::<
            SchemaModel,
            DecodeErrorModel,
        >(SchemaModel::Null),
        s@ == "boolean"@ ==> decode_spec(JsonValue::String(s)) == Ok::<
            SchemaModel,
            DecodeErrorModel,
        >(SchemaModel::Boolean),
        s@ == "int"@ ==> decode_spec(JsonValue::String(s)) == Ok::<
            SchemaModel,
            DecodeErrorModel,
        >(SchemaModel::Int),
        s@ == "long"@ ==> decode_spec(JsonValue::String(s)) == Ok::<
            SchemaModel,
            DecodeErrorModel,
        >(SchemaModel::Long),
        s@ == "float"@ ==> decode_spec(JsonValue::String(s)) == Ok::<
            SchemaModel,
            DecodeErrorModel,
        >(SchemaModel::Float),
        s@ == "double"@ ==> decode_spec(JsonValue::String(s)) == Ok::<
            SchemaModel,
            DecodeErrorModel,
        >(SchemaModel::Double),
        s@ == "bytes"@ ==> decode_spec(JsonValue::String(s)) == Ok::<
            SchemaModel,
            DecodeErrorModel,
        >(SchemaModel::Bytes),
        s@ == "string"@ ==> decode_spec(JsonValue::String(s)) == Ok::<
            SchemaModel,
            DecodeErrorModel,
        >(SchemaModel::Str),
        !(s@ == "null"@ || s@ == "boolean"@ || s@ == "int"@ || s@ == "long"@ || s@ == "float"@
            || s@ == "double"@ || s@ == "bytes"@ || s@ == "string"@) ==> decode_spec(
            JsonValue::String(s),
        ) == Err::<SchemaModel, DecodeErrorModel>(DecodeErrorModel::InvalidValue(Key::Type)),
{
    lemma_literal_shapes();
}

/// A record, enum or fixed object without `name` fails with `MissingField(name)`,
/// whatever else it holds; a fixed object reads its `size` first, so there the
/// size must be valid.
pub proof fn lemma_named_types_need_name(entries: Vec<(String, JsonValue)>)
    requires
        type_spec(entries@) == Ok::<Seq<char>, DecodeErrorModel>("record"@) || type_spec(entries@)
            == Ok::<Seq<char>, DecodeErrorModel>("enum"@) || type_spec(entries@) == Ok::<
            Seq<char>,
            DecodeErrorModel,
        >("fixed"@),
        type_spec(entries@) == Ok::<Seq<char>, DecodeErrorModel>("fixed"@) ==> size_spec(
            entries@,
        ) is Ok,
        lookup(entries@, "name"@) is None,
    ensures
        decode_spec(JsonValue::Object(entries)) == Err::<SchemaModel, DecodeErrorModel>(
            DecodeErrorModel::MissingField(Key::Name),
        ),
{
    lemma_type_names_distinct();
}

/// Every record, enum or fixed schema that decoding produces has a non-empty name.
pub proof fn lemma_decoded_names_nonempty(v: JsonValue)
    ensures
        decode_spec(v) matches Ok(SchemaModel::Record(r)) ==> r.name.len() > 0,
        decode_spec(v) matches Ok(SchemaModel::Enum(e)) ==> e.name.len() > 0,
        decode_spec(v) matches Ok(SchemaModel::Fixed(f)) ==> f.name.len() > 0,
{
    lemma_type_names_distinct();
}

/// An array object without `items` fails with `MissingField(items)`.
pub proof fn lemma_array_needs_items(entries: Vec<(String, JsonValue)>)
    requires
        type_spec(entries@) == Ok::<Seq<char>, DecodeErrorModel>("array"@),
        lookup(entries@, "items"@) is None,
    ensures
        decode_spec(JsonValue::Object(entries)) == Err::<SchemaModel, DecodeErrorModel>(
            DecodeErrorModel::MissingField(Key::Items),
        ),
{
    lemma_type_names_distinct();
}

/// A map object without `values` fails with `MissingField(values)`.
pub proof fn lemma_map_needs_values(entries: Vec<(String, JsonValue)>)
    requires
        type_spec(entries@) == Ok::<Seq<char>, DecodeErrorModel>("map"@),
        lookup(entries@, "values"@) is None,
    ensures
        decode_spec(JsonValue::Object(entries)) == Err::<SchemaModel, DecodeErrorModel>(
            DecodeErrorModel::MissingField(Key::Values),
        ),
{
    lemma_type_names_distinct();
}

/// What `decode_schema` promises of its result on `v`.
pub open spec fn decodes_as(v: JsonValue, r: Result<Schema, DecodeError>) -> bool {
    match r {
        Ok(s) => decode_spec(v) == Ok::<SchemaModel, DecodeErrorModel>(s@),
        Err(x) => decode_spec(v) == Err::<SchemaModel, DecodeErrorModel>(x@),
    }
}

/// Decoding is deterministic: two results for the same input are structurally
/// equal, both schemas or both the same error.
pub proof fn lemma_decode_deterministic(
    v: JsonValue,
    r1: Result<Schema, DecodeError>,
    r2: Result<Schema, DecodeError>,
)
    requires
        decodes_as(v, r1),
        decodes_as(v, r2),
    ensures
        r1 is Ok <==> r2 is Ok,
        r1 is Ok ==> r1->Ok_0@ == r2->Ok_0@,
        r1 is Err ==> r1->Err_0@ == r2->Err_0@,
{
}

/// The `order` key accepts exactly `ascending`, `descending` and `ignore`; any
/// other string fails with `InvalidValue(order)`.
pub proof fn lemma_order_values(entries: Seq<(String, JsonValue)>, s: String)
    requires
        lookup(entries, "order"@) == Some(JsonValue::String(s)),
    ensures
        s@ == "ascending"@ ==> order_spec(entries) == Ok::<Option<Order>, DecodeErrorModel>(
            Some(Order::Ascending),
        ),
        s@ == "descending"@ ==> order_spec(entries) == Ok::<Option<Order>, DecodeErrorModel>(
            Some(Order::Descending),
        ),
        s@ == "ignore"@ ==> order_spec(entries) == Ok::<Option<Order>, DecodeErrorModel>(
            Some(Order::Ignore),
        ),
        !(s@ == "ascending"@ || s@ == "descending"@ || s@ == "ignore"@) ==> order_spec(entries)
            == Err::<Option<Order>, DecodeErrorModel>(DecodeErrorModel::InvalidValue(Key::Order)),
{
    lemma_literal_shapes();
    assert(order_of(s@) is Some ==> (s@ == "ascending"@ || s@ == "descending"@ || s@
        == "ignore"@));
}

/// Where an object has no `aliases`, the record, enum, fixed type or field
/// decoded from it has an empty list of aliases.
pub proof fn lemma_absent_aliases_are_empty(entries: Vec<(String, JsonValue)>)
    requires
        lookup(entries@, "aliases"@) is None,
    ensures
        decode_spec(JsonValue::Object(entries)) matches Ok(SchemaModel::Record(r)) ==> r.aliases
            == Seq::<Seq<char>>::empty(),
        decode_spec(JsonValue::Object(entries)) matches Ok(SchemaModel::Enum(e)) ==> e.aliases
            == Seq::<Seq<char>>::empty(),
        decode_spec(JsonValue::Object(entries)) matches Ok(SchemaModel::Fixed(f)) ==> f.aliases
            == Seq::<Seq<char>>::empty(),
        field_spec(JsonValue::Object(entries)) matches Ok(f) ==> f.aliases == Seq::<
            Seq<char>,
        >::empty(),
{
    lemma_type_names_distinct();
}

} // verus!
