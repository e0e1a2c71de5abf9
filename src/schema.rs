use vstd::prelude::*;

verus! {

/// Sort order of a record field.
#[derive(Debug, Clone, Copy, PartialEq, Eq, Hash, Structural)]
pub enum Order {
    Ascending,
    Descending,
    Ignore,
}

/// One named, typed slot of a record.
#[derive(Debug, PartialEq, Hash)]
pub struct Field {
    pub name: String,
    pub doc: Option<String>,
    pub schema: Schema,
    pub default: Option<Schema>,
    pub order: Option<Order>,
    pub aliases: Vec<String>,
}

/// A named record type with an ordered list of fields.
#[derive(Debug, PartialEq, Hash)]
pub struct Record {
    pub name: String,
    pub namespace: Option<String>,
    pub doc: Option<String>,
    pub aliases: Vec<String>,
    pub fields: Vec<Field>,
}

/// A named byte sequence of fixed length.
#[derive(Debug, Clone, PartialEq, Hash)]
pub struct Fixed {
    pub name: String,
    pub namespace: Option<String>,
    pub doc: Option<String>,
    pub aliases: Vec<String>,
    pub size: usize,
}

/// A named enumeration of symbols.
#[derive(Debug, Clone, PartialEq, Hash)]
pub struct Enum {
    pub name: String,
    pub namespace: Option<String>,
    pub aliases: Vec<String>,
    pub doc: Option<String>,
    pub symbols: Vec<String>,
    pub default: Option<String>,
}

/// A schema node.
#[derive(Debug, PartialEq, Hash)]
pub enum Schema {
    Null,
    Boolean,
    Int,
    Long,
    Float,
    Double,
    Bytes,
    String,
    Record(Record),
    Enum(Enum),
    Array(Box<Schema>),
    Mapping(Box<Schema>),
    Union(Vec<Schema>),
    Fixed(Fixed),
}

// ---------------------------------------------------------------------------
// Mathematical model of the schema tree

pub ghost struct FieldModel {
    pub name: Seq<char>,
    pub doc: Option<Seq<char>>,
    pub schema: SchemaModel,
    pub default: Option<SchemaModel>,
    pub order: Option<Order>,
    pub aliases: Seq<Seq<char>>,
}

pub ghost struct RecordModel {
    pub name: Seq<char>,
    pub namespace: Option<Seq<char>>,
    pub doc: Option<Seq<char>>,
    pub aliases: Seq<Seq<char>>,
    pub fields: Seq<FieldModel>,
}

pub ghost struct FixedModel {
    pub name: Seq<char>,
    pub namespace: Option<Seq<char>>,
    pub doc: Option<Seq<char>>,
    pub aliases: Seq<Seq<char>>,
    pub size: nat,
}

pub ghost struct EnumModel {
    pub name: Seq<char>,
    pub namespace: Option<Seq<char>>,
    pub aliases: Seq<Seq<char>>,
    pub doc: Option<Seq<char>>,
    pub symbols: Seq<Seq<char>>,
    pub default: Option<Seq<char>>,
}

pub ghost enum SchemaModel {
    Null,
    Boolean,
    Int,
    Long,
    Float,
    Double,
    Bytes,
    Str,
    Record(RecordModel),
    Enum(EnumModel),
    Array(Box<SchemaModel>),
    Mapping(Box<SchemaModel>),
    Union(Seq<SchemaModel>),
    Fixed(FixedModel),
}

pub open spec fn opt_str(s: Option<String>) -> Option<Seq<char>> {
    match s {
        Some(x) => Some(x@),
        None => None,
    }
}

/// The characters of each string of a list.
pub open spec fn str_list(s: Seq<String>) -> Seq<Seq<char>> {
    s.map_values(|x: String| x@)
}

pub open spec fn schema_model(s: Schema) -> SchemaModel
    decreases s,
{
    match s {
        Schema::Null => SchemaModel::Null,
        Schema::Boolean => SchemaModel::Boolean,
        Schema::Int => SchemaModel::Int,
        Schema::Long => SchemaModel::Long,
        Schema::Float => SchemaModel::Float,
        Schema::Double => SchemaModel::Double,
        Schema::Bytes => SchemaModel::Bytes,
        Schema::String => SchemaModel::Str,
        Schema::Record(r) => SchemaModel::Record(
            RecordModel {
                name: r.name@,
                namespace: opt_str(r.namespace),
                doc: opt_str(r.doc),
                aliases: str_list(r.aliases@),
                fields: field_list_model(r.fields@),
            },
        ),
        Schema::Enum(e) => SchemaModel::Enum(enum_model(e)),
        Schema::Array(b) => SchemaModel::Array(Box::new(schema_model(*b))),
        Schema::Mapping(b) => SchemaModel::Mapping(Box::new(schema_model(*b))),
        Schema::Union(v) => SchemaModel::Union(schema_list_model(v@)),
        Schema::Fixed(f) => SchemaModel::Fixed(fixed_model(f)),
    }
}

pub open spec fn schema_list_model(s: Seq<Schema>) -> Seq<SchemaModel>
    decreases s,
{
    if s.len() == 0 {
        Seq::empty()
    } else {
        schema_list_model(s.subrange(0, s.len() - 1)).push(schema_model(s[s.len() - 1]))
    }
}

pub open spec fn field_model(f: Field) -> FieldModel
    decreases f,
{
    FieldModel {
        name: f.name@,
        doc: opt_str(f.doc),
        schema: schema_model(f.schema),
        default: match f.default {
            Some(d) => Some(schema_model(d)),
            None => None,
        },
        order: f.order,
        aliases: str_list(f.aliases@),
    }
}

pub open spec fn field_list_model(s: Seq<Field>) -> Seq<FieldModel>
    decreases s,
{
    if s.len() == 0 {
        Seq::empty()
    } else {
        field_list_model(s.subrange(0, s.len() - 1)).push(field_model(s[s.len() - 1]))
    }
}

pub open spec fn enum_model(e: Enum) -> EnumModel {
    EnumModel {
        name: e.name@,
        namespace: opt_str(e.namespace),
        aliases: str_list(e.aliases@),
        doc: opt_str(e.doc),
        symbols: str_list(e.symbols@),
        default: opt_str(e.default),
    }
}

pub open spec fn fixed_model(f: Fixed) -> FixedModel {
    FixedModel {
        name: f.name@,
        namespace: opt_str(f.namespace),
        doc: opt_str(f.doc),
        aliases: str_list(f.aliases@),
        size: f.size as nat,
    }
}

impl View for Schema {
    type V = SchemaModel;

    open spec fn view(&self) -> SchemaModel {
        schema_model(*self)
    }
}

impl View for Field {
    type V = FieldModel;

    open spec fn view(&self) -> FieldModel {
        field_model(*self)
    }
}

impl View for Record {
    type V = RecordModel;

    open spec fn view(&self) -> RecordModel {
        RecordModel {
            name: self.name@,
            namespace: opt_str(self.namespace),
            doc: opt_str(self.doc),
            aliases: str_list(self.aliases@),
            fields: field_list_model(self.fields@),
        }
    }
}

impl View for Fixed {
    type V = FixedModel;

    open spec fn view(&self) -> FixedModel {
        fixed_model(*self)
    }
}

impl View for Enum {
    type V = EnumModel;

    open spec fn view(&self) -> EnumModel {
        enum_model(*self)
    }
}

/// Appending one schema appends its model.
pub proof fn lemma_schema_list_push(s: Seq<Schema>, x: Schema)
    ensures
        schema_list_model(s.push(x)) == schema_list_model(s).push(schema_model(x)),
{
    assert(s.push(x).subrange(0, s.len() as int) =~= s);
}

/// Appending one field appends its model.
pub proof fn lemma_field_list_push(s: Seq<Field>, x: Field)
    ensures
        field_list_model(s.push(x)) == field_list_model(s).push(field_model(x)),
{
    assert(s.push(x).subrange(0, s.len() as int) =~= s);
}

fn clone_opt_string(o: &Option<String>) -> (r: Option<String>)
    ensures
        opt_str(r) == opt_str(*o),
{
    match o {
        Some(x) => Some(x.clone()),
        None => None,
    }
}

fn clone_strings(v: &Vec<String>) -> (r: Vec<String>)
    ensures
        str_list(r@) == str_list(v@),
{
    let mut out: Vec<String> = Vec::new();
    let mut i: usize = 0;
    while i < v.len()
        invariant
            i <= v@.len(),
            out@.len() == i,
            forall|j: int| 0 <= j < i ==> (#[trigger] out@[j])@ == v@[j]@,
        decreases v.len() - i,
    {
        out.push(v[i].clone());
        i = i + 1;
    }
    assert(str_list(out@) =~= str_list(v@));
    out
}

fn clone_enum(e: &Enum) -> (r: Enum)
    ensures
        r@ == e@,
{
    Enum {
        name: e.name.clone(),
        namespace: clone_opt_string(&e.namespace),
        aliases: clone_strings(&e.aliases),
        doc: clone_opt_string(&e.doc),
        symbols: clone_strings(&e.symbols),
        default: clone_opt_string(&e.default),
    }
}

fn clone_fixed(f: &Fixed) -> (r: Fixed)
    ensures
        r@ == f@,
{
    Fixed {
        name: f.name.clone(),
        namespace: clone_opt_string(&f.namespace),
        doc: clone_opt_string(&f.doc),
        aliases: clone_strings(&f.aliases),
        size: f.size,
    }
}

fn clone_field(f: &Field) -> (r: Field)
    ensures
        r@ == f@,
    decreases *f,
{
    let default = match &f.default {
        Some(d) => Some(clone_schema(d)),
        None => None,
    };
    Field {
        name: f.name.clone(),
        doc: clone_opt_string(&f.doc),
        schema: clone_schema(&f.schema),
        default,
        order: f.order,
        aliases: clone_strings(&f.aliases),
    }
}

fn clone_record(r: &Record) -> (out: Record)
    ensures
        out@ == r@,
    decreases *r,
{
    let mut fields: Vec<Field> = Vec::new();
    let mut i: usize = 0;
    assert(r.fields@.subrange(0, 0) =~= Seq::<Field>::empty());
    while i < r.fields.len()
        invariant
            i <= r.fields@.len(),
            field_list_model(fields@) == field_list_model(r.fields@.subrange(0, i as int)),
        decreases r.fields.len() - i,
    {
        proof {
            assert(decreases_to!(r.fields@ => r.fields@[i as int]));
            assert(r.fields@.subrange(0, i + 1).subrange(0, i as int) =~= r.fields@.subrange(
                0,
                i as int,
            ));
        }
        let f = clone_field(&r.fields[i]);
        proof {
            lemma_field_list_push(fields@, f);
        }
        fields.push(f);
        i = i + 1;
    }
    assert(r.fields@.subrange(0, r.fields@.len() as int) =~= r.fields@);
    Record {
        name: r.name.clone(),
        namespace: clone_opt_string(&r.namespace),
        doc: clone_opt_string(&r.doc),
        aliases: clone_strings(&r.aliases),
        fields,
    }
}

fn clone_schema(s: &Schema) -> (r: Schema)
    ensures
        r@ == s@,
    decreases *s,
{
    match s {
        Schema::Null => Schema::Null,
        Schema::Boolean => Schema::Boolean,
        Schema::Int => Schema::Int,
        Schema::Long => Schema::Long,
        Schema::Float => Schema::Float,
        Schema::Double => Schema::Double,
        Schema::Bytes => Schema::Bytes,
        Schema::String => Schema::String,
        Schema::Record(r) => Schema::Record(clone_record(r)),
        Schema::Enum(e) => Schema::Enum(clone_enum(e)),
        Schema::Array(b) => Schema::Array(Box::new(clone_schema(b))),
        Schema::Mapping(b) => Schema::Mapping(Box::new(clone_schema(b))),
        Schema::Union(v) => {
            let mut out: Vec<Schema> = Vec::new();
            let mut i: usize = 0;
            assert(v@.subrange(0, 0) =~= Seq::<Schema>::empty());
            while i < v.len()
                invariant
                    *s == Schema::Union(*v),
                    i <= v@.len(),
                    schema_list_model(out@) == schema_list_model(v@.subrange(0, i as int)),
                decreases v.len() - i,
            {
                proof {
                    assert(decreases_to!(*s => (*s)->Union_0));
                    assert(decreases_to!(*v => v@));
                    assert(decreases_to!(v@ => v@[i as int]));
                    assert(v@.subrange(0, i + 1).subrange(0, i as int) =~= v@.subrange(
                        0,
                        i as int,
                    ));
                }
                let x = clone_schema(&v[i]);
                proof {
                    lemma_schema_list_push(out@, x);
                }
                out.push(x);
                i = i + 1;
            }
            assert(v@.subrange(0, v@.len() as int) =~= v@);
            Schema::Union(out)
        },
        Schema::Fixed(f) => Schema::Fixed(clone_fixed(f)),
    }
}

impl Clone for Schema {
    fn clone(&self) -> (r: Self)
        ensures
            r@ == self@,
    {
        clone_schema(self)
    }
}

impl Clone for Field {
    fn clone(&self) -> (r: Self)
        ensures
            r@ == self@,
    {
        clone_field(self)
    }
}

impl Clone for Record {
    fn clone(&self) -> (r: Self)
        ensures
            r@ == self@,
    {
        clone_record(self)
    }
}

impl Field {
    /// A field with the given name and type and no other attributes.
    pub fn new(name: String, schema: Schema) -> (r: Self)
        ensures
            r@ == (FieldModel {
                name: name@,
                doc: None,
                schema: schema@,
                default: None,
                order: None,
                aliases: Seq::empty(),
            }),
    {
        let r = Field { name, doc: None, schema, default: None, order: None, aliases: Vec::new() };
        assert(str_list(r.aliases@) =~= Seq::empty());
        r
    }
}

impl Record {
    /// A record with the given name and fields and no other attributes.
    pub fn new(name: String, fields: Vec<Field>) -> (r: Self)
        ensures
            r@ == (RecordModel {
                name: name@,
                namespace: None,
                doc: None,
                aliases: Seq::empty(),
                fields: field_list_model(fields@),
            }),
    {
        let r = Record { name, namespace: None, doc: None, fields, aliases: Vec::new() };
        assert(str_list(r.aliases@) =~= Seq::empty());
        r
    }
}

impl Fixed {
    /// A fixed type with the given name and size and no other attributes.
    pub fn new(name: String, size: usize) -> (r: Self)
        ensures
            r@ == (FixedModel {
                name: name@,
                namespace: None,
                doc: None,
                aliases: Seq::empty(),
                size: size as nat,
            }),
    {
        let r = Fixed { name, namespace: None, doc: None, size, aliases: Vec::new() };
        assert(str_list(r.aliases@) =~= Seq::empty());
        r
    }
}

impl Enum {
    /// An enum with the given name and symbols and no other attributes.
    pub fn new(name: String, symbols: Vec<String>) -> (r: Self)
        ensures
            r@ == (EnumModel {
                name: name@,
                namespace: None,
                aliases: Seq::empty(),
                doc: None,
                symbols: str_list(symbols@),
                default: None,
            }),
    {
        let r = Enum {
            name,
            namespace: None,
            doc: None,
            symbols,
            aliases: Vec::new(),
            default: None,
        };
        assert(str_list(r.aliases@) =~= Seq::empty());
        r
    }
}

impl From<Enum> for Schema {
    fn from(enum_: Enum) -> (r: Schema)
        ensures
            r == Schema::Enum(enum_),
    {
        Schema::Enum(enum_)
    }
}

impl vstd::std_specs::convert::FromSpecImpl<Enum> for Schema {
    open spec fn obeys_from_spec() -> bool {
        true
    }

    open spec fn from_spec(v: Enum) -> Schema {
        Schema::Enum(v)
    }
}

impl From<Record> for Schema {
    fn from(record: Record) -> (r: Schema)
        ensures
            r == Schema::Record(record),
    {
        Schema::Record(record)
    }
}

impl vstd::std_specs::convert::FromSpecImpl<Record> for Schema {
    open spec fn obeys_from_spec() -> bool {
        true
    }

    open spec fn from_spec(v: Record) -> Schema {
        Schema::Record(v)
    }
}

impl From<Fixed> for Schema {
    fn from(fixed: Fixed) -> (r: Schema)
        ensures
            r == Schema::Fixed(fixed),
    {
        Schema::Fixed(fixed)
    }
}

impl vstd::std_specs::convert::FromSpecImpl<Fixed> for Schema {
    open spec fn obeys_from_spec() -> bool {
        true
    }

    open spec fn from_spec(v: Fixed) -> Schema {
        Schema::Fixed(v)
    }
}

} // verus!
