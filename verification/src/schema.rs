//! Fields and schemas.

use std::sync::Arc;
use vstd::prelude::*;

use iceberg::spec::{Literal, NestedField, PrimitiveType, Schema, Type};

verus! {

/// Trusted declaration of `iceberg::spec::Schema`. Its values are opaque here.
#[verifier::external_type_specification]
#[verifier::external_body]
pub struct ExSchema(Schema);

/// Trusted declaration of `iceberg::spec::Type`. Its values are opaque here.
#[verifier::external_type_specification]
#[verifier::external_body]
pub struct ExType(Type);

/// Trusted declaration of `iceberg::spec::Literal`. Its values are opaque here.
#[verifier::external_type_specification]
#[verifier::external_body]
pub struct ExLiteral(Literal);

/// Trusted declaration of `iceberg::Error`. Its values are opaque here.
#[verifier::external_type_specification]
#[verifier::external_body]
pub struct ExIcebergError(iceberg::Error);

/// One field of a schema, with everything that `iceberg::spec::NestedField` holds.
#[derive(Debug)]
pub struct Field {
    /// Id of the field, unique in its schema.
    pub id: i32,
    /// Name of the field.
    pub name: String,
    /// Whether every row has a value for the field.
    pub required: bool,
    /// Type of the field's values.
    pub field_type: Type,
    /// Documentation of the field.
    pub doc: Option<String>,
    /// Value of the field in rows written before the field existed.
    pub initial_default: Option<Literal>,
    /// Value of the field in rows written without it.
    pub write_default: Option<Literal>,
}

/// Mathematical value of a [`Field`].
pub ghost struct FieldView {
    pub id: int,
    pub name: Seq<char>,
    pub required: bool,
    pub field_type: Type,
    pub doc: Option<Seq<char>>,
    pub initial_default: Option<Literal>,
    pub write_default: Option<Literal>,
}

impl View for Field {
    type V = FieldView;

    open spec fn view(&self) -> FieldView {
        FieldView {
            id: self.id as int,
            name: self.name@,
            required: self.required,
            field_type: self.field_type,
            doc: match self.doc {
                Some(d) => Some(d@),
                None => None,
            },
            initial_default: self.initial_default,
            write_default: self.write_default,
        }
    }
}

/// The views of a list of fields, in order.
pub open spec fn field_views(fields: Seq<Field>) -> Seq<FieldView> {
    fields.map_values(|f: Field| f@)
}

/// The top-level fields of a schema, in order.
pub uninterp spec fn schema_fields(schema: Schema) -> Seq<FieldView>;

/// The greatest field id that a schema has indexed, nested fields included.
pub uninterp spec fn schema_highest_field_id(schema: Schema) -> int;

/// The fields of a schema by their ids, nested fields included.
pub uninterp spec fn schema_index(schema: Schema) -> Map<int, FieldView>;

/// Reads the top-level fields of a schema.
///
/// Trusted: `Schema::as_struct` and `StructType::fields` return the fields
/// the schema was built from, in order; each is copied field by field.
#[verifier::external_body]
pub(crate) fn top_level_fields(schema: &Schema) -> (fields: Vec<Field>)
    ensures
        field_views(fields@) == schema_fields(*schema),
{
    schema.as_struct().fields().iter().map(|f| Field {
        id: f.id,
        name: f.name.clone(),
        required: f.required,
        field_type: (*f.field_type).clone(),
        doc: f.doc.clone(),
        initial_default: f.initial_default.clone(),
        write_default: f.write_default.clone(),
    }).collect()
}

/// Reads the greatest field id of a schema.
///
/// Trusted: `Schema::highest_field_id` returns the value stored when the
/// schema was built.
#[verifier::external_body]
pub(crate) fn highest_field_id(schema: &Schema) -> (id: i32)
    ensures
        id == schema_highest_field_id(*schema),
{
    schema.highest_field_id()
}

/// Looks a field up by its id, among all fields of the schema, nested ones included.
///
/// Trusted: `Schema::field_by_id` reads the index that was made when the
/// schema was built; the field found is copied field by field.
#[verifier::external_body]
pub(crate) fn field_by_id(schema: &Schema, id: i32) -> (found: Option<Field>)
    ensures
        found is Some <==> schema_index(*schema).contains_key(id as int),
        found is Some ==> found->0@ == schema_index(*schema)[id as int],
{
    schema.field_by_id(id).map(|f| Field {
        id: f.id,
        name: f.name.clone(),
        required: f.required,
        field_type: (*f.field_type).clone(),
        doc: f.doc.clone(),
        initial_default: f.initial_default.clone(),
        write_default: f.write_default.clone(),
    })
}

/// Whether `schema` holds a field for every one of `ids`.
pub open spec fn resolvable(schema: Schema, ids: Seq<i32>) -> bool {
    forall|k: int|
        0 <= k < ids.len() ==> schema_index(schema).contains_key(#[trigger] ids[k] as int)
}

/// The fields of `schema` that `ids` name, in the order of `ids`.
pub open spec fn resolved_fields(schema: Schema, ids: Seq<i32>) -> Seq<FieldView> {
    Seq::new(ids.len(), |k: int| schema_index(schema)[ids[k] as int])
}

/// Trusted: `Schema`'s derived `Clone` copies every part of the schema.
pub assume_specification[ <Schema as Clone>::clone ](schema: &Schema) -> (copy: Schema)
    ensures
        copy == *schema,
;

/// Whether a schema can be built from these top-level fields alone.
pub uninterp spec fn schema_accepts(fields: Seq<FieldView>) -> bool;

/// Whether `base` can be rebuilt with `extra` appended to its top-level fields.
pub uninterp spec fn schema_accepts_more(base: Schema, extra: Seq<FieldView>) -> bool;

/// Builds a schema from top-level fields.
///
/// Trusted: `Schema::builder`, `SchemaBuilder::with_fields` and
/// `SchemaBuilder::build`. Whether the build succeeds depends on the fields
/// alone; a schema that was built holds exactly these fields, in order.
/// With no field at all the build indexes nothing and succeeds.
#[verifier::external_body]
pub(crate) fn schema_from_fields(
    fields: Vec<Field>,
) -> (built: Result<Schema, iceberg::Error>)
    ensures
        built is Ok <==> schema_accepts(field_views(fields@)),
        built is Ok ==> schema_fields(built->Ok_0) == field_views(fields@),
        fields@.len() == 0 ==> built is Ok,
{
    Schema::builder().with_fields(fields.into_iter().map(|f| Arc::new(NestedField {
        id: f.id,
        name: f.name,
        required: f.required,
        field_type: Box::new(f.field_type),
        doc: f.doc,
        initial_default: f.initial_default,
        write_default: f.write_default,
    }))).build()
}

/// Rebuilds a schema with more top-level fields behind its own.
///
/// Trusted: `Schema::into_builder` on a copy of `base`, then
/// `SchemaBuilder::with_fields` and `SchemaBuilder::build`. Whether the
/// build succeeds depends on `base` and the new fields alone; a schema that
/// was built holds the fields of `base` followed by the new ones.
#[verifier::external_body]
pub(crate) fn schema_with_more_fields(
    base: &Schema,
    extra: Vec<Field>,
) -> (built: Result<Schema, iceberg::Error>)
    ensures
        built is Ok <==> schema_accepts_more(*base, field_views(extra@)),
        built is Ok ==> schema_fields(built->Ok_0) == schema_fields(*base) + field_views(extra@),
{
    base.clone().into_builder().with_fields(extra.into_iter().map(|f| Arc::new(NestedField {
        id: f.id,
        name: f.name,
        required: f.required,
        field_type: Box::new(f.field_type),
        doc: f.doc,
        initial_default: f.initial_default,
        write_default: f.write_default,
    }))).build()
}

/// The two column types that hidden columns have.
#[derive(Clone, Copy, Debug, PartialEq, Eq, Structural)]
pub enum HiddenType {
    /// A 64-bit signed integer.
    Long,
    /// A string.
    Text,
}

/// The `iceberg::spec::Type` that stands for a hidden column type.
pub uninterp spec fn hidden_type(kind: HiddenType) -> Type;

/// Makes the primitive `iceberg::spec::Type` of a hidden column.
///
/// Trusted: builds `Type::Primitive` of `PrimitiveType::Long` for
/// [`HiddenType::Long`] and of `PrimitiveType::String` for [`HiddenType::Text`].
#[verifier::external_body]
pub(crate) fn make_hidden_type(kind: HiddenType) -> (t: Type)
    ensures
        t == hidden_type(kind),
{
    match kind {
        HiddenType::Long => Type::Primitive(PrimitiveType::Long),
        HiddenType::Text => Type::Primitive(PrimitiveType::String),
    }
}

/// The view of the hidden field with this id, name and type: a required
/// field without documentation or defaults.
pub open spec fn hidden_field_view(id: int, name: Seq<char>, kind: HiddenType) -> FieldView {
    FieldView {
        id,
        name,
        required: true,
        field_type: hidden_type(kind),
        doc: None,
        initial_default: None,
        write_default: None,
    }
}

/// Makes a hidden field.
pub fn hidden_field(id: i32, name: &str, kind: HiddenType) -> (field: Field)
    ensures
        field@ == hidden_field_view(id as int, name@, kind),
{
    Field {
        id,
        name: String::from_str(name),
        required: true,
        field_type: make_hidden_type(kind),
        doc: None,
        initial_default: None,
        write_default: None,
    }
}

} // verus!
