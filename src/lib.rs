mod decode;
mod json;
mod lemmas;
mod schema;

pub use decode::{
    all_strings, array_spec, decode_field, decode_list_spec, decode_schema, decode_spec,
    enum_spec, field_list_spec, field_of, field_spec, fields_spec, fixed_spec, lemma_decode_list_err,
    lemma_field_list_err, map_spec, name_spec, type_name_spec, nested_spec, object_spec, order_of, order_spec,
    primitive_spec, record_spec, required_spec, size_spec, string_list_spec, string_spec,
    to_primitive, type_spec, DecodeError, DecodeErrorModel,
};
pub use json::{
    find, key_pos, key_text, lemma_key_pos_bounds, lookup, same_text, JsonNumber, JsonValue, Key,
};
pub use lemmas::{
    decodes_as, lemma_absent_aliases_are_empty, lemma_array_needs_items,
    lemma_bare_primitive_names, lemma_decode_deterministic, lemma_decoded_names_nonempty, lemma_map_needs_values,
    lemma_named_types_need_name, lemma_order_values, lemma_type_names_distinct,
};
pub use schema::{
    enum_model, field_list_model, field_model, fixed_model, lemma_field_list_push,
    lemma_schema_list_push, opt_str, schema_list_model, schema_model, str_list, Enum, EnumModel,
    Field, FieldModel, Fixed, FixedModel, Order, Record, RecordModel, Schema, SchemaModel,
};
