//! Record definitions: one field per column, in column order.

use vstd::prelude::*;
use vstd::string::*;
use crate::explain::{Output, OutputModel};
use crate::types::{
    classify, classify_spec, lemma_unknown_keeps_name, FloatWidth, IntWidth, SqlType,
    TypeDescriptor,
};
use crate::utils::{capitalize_first, capitalize_first_spec};

verus! {

/// A named way of turning a wire value into a native value.
#[derive(Clone, Copy, Debug, PartialEq, Eq, Structural)]
pub enum DecodeStrategy {
    /// `"YYYY-MM-DD"` to a calendar date.
    Date,
    /// `"YYYY-MM-DD HH:MM:SS[.fraction]"` to a timestamp without zone.
    DateTime,
    /// `"HH:MM:SS[.fraction]"` to a time of day.
    Time,
    /// An RFC 3339 string to a timestamp in UTC.
    TimestampTz,
    /// Base64 text to bytes.
    Binary,
    /// An array of scalars to a sequence of tagged elements.
    HomogeneousArray,
    /// An object to a mapping from keys to untyped values.
    MapPassthrough,
    /// A number, or the text `nan` in any case for a missing one.
    NanAsMissing,
}

/// The strategy that a column of type `t` needs, if the default decoding of
/// its native type does not suffice.
pub open spec fn strategy_for_spec(t: SqlType) -> Option<DecodeStrategy> {
    match t {
        SqlType::Date => Some(DecodeStrategy::Date),
        SqlType::Timestamp => Some(DecodeStrategy::DateTime),
        SqlType::Time => Some(DecodeStrategy::Time),
        SqlType::TimestampWithTimeZone => Some(DecodeStrategy::TimestampTz),
        SqlType::Binary => Some(DecodeStrategy::Binary),
        SqlType::Array(_) => Some(DecodeStrategy::HomogeneousArray),
        _ => None,
    }
}

/// Selects the decode strategy for a column type.
pub fn strategy_for(native_type: &TypeDescriptor) -> (strategy: Option<DecodeStrategy>)
    ensures
        strategy == strategy_for_spec(native_type@),
{
    match native_type {
        TypeDescriptor::Date => Some(DecodeStrategy::Date),
        TypeDescriptor::Timestamp => Some(DecodeStrategy::DateTime),
        TypeDescriptor::Time => Some(DecodeStrategy::Time),
        TypeDescriptor::TimestampWithTimeZone => Some(DecodeStrategy::TimestampTz),
        TypeDescriptor::Binary => Some(DecodeStrategy::Binary),
        TypeDescriptor::Array(_) => Some(DecodeStrategy::HomogeneousArray),
        _ => None,
    }
}

/// One field of a record: its identifier, its type, and how its wire value
/// is decoded. Every field is nullable.
#[derive(Debug, PartialEq, Eq)]
pub struct FieldSpec {
    pub identifier: String,
    pub native_type: TypeDescriptor,
    pub decode_strategy: Option<DecodeStrategy>,
}

/// The model of a [`FieldSpec`].
pub struct FieldModel {
    pub identifier: Seq<char>,
    pub native_type: SqlType,
    pub decode_strategy: Option<DecodeStrategy>,
}

impl View for FieldSpec {
    type V = FieldModel;

    open spec fn view(&self) -> FieldModel {
        FieldModel {
            identifier: self.identifier@,
            native_type: self.native_type@,
            decode_strategy: self.decode_strategy,
        }
    }
}

impl DeepView for FieldSpec {
    type V = FieldModel;

    open spec fn deep_view(&self) -> FieldModel {
        self@
    }
}

/// A named, ordered record definition.
#[derive(Debug, PartialEq, Eq)]
pub struct RecordSpec {
    pub name: String,
    pub fields: Vec<FieldSpec>,
}

/// The model of a [`RecordSpec`].
pub struct RecordModel {
    pub name: Seq<char>,
    pub fields: Seq<FieldModel>,
}

impl View for RecordSpec {
    type V = RecordModel;

    open spec fn view(&self) -> RecordModel {
        RecordModel { name: self.name@, fields: self.fields.deep_view() }
    }
}

/// The field that a column becomes: the symbol as it is, the descriptor of
/// the type name, and the strategy that the descriptor calls for.
pub open spec fn emit_field_spec(column: OutputModel) -> FieldModel {
    FieldModel {
        identifier: column.symbol,
        native_type: classify_spec(column.raw_type),
        decode_strategy: strategy_for_spec(classify_spec(column.raw_type)),
    }
}

/// Turns one column into one field. The symbol is used verbatim.
pub fn emit_field(column: &Output) -> (field: FieldSpec)
    ensures
        field@ == emit_field_spec(column@),
{
    let native_type = classify(column.raw_type.as_str());
    let decode_strategy = strategy_for(&native_type);
    FieldSpec { identifier: column.symbol.clone(), native_type, decode_strategy }
}

/// What every record name ends in.
pub const NAME_SUFFIX: &'static str = "QueryResult";

/// The name of the record generated for `name_seed`.
pub open spec fn record_name_spec(name_seed: Seq<char>) -> Seq<char> {
    capitalize_first_spec(name_seed) + NAME_SUFFIX@
}

/// Gathers fields into a record named after `name_seed`: the seed with its
/// first character capitalized, followed by `QueryResult`. The fields keep
/// their number and order.
pub fn emit_record(name_seed: &str, fields: Vec<FieldSpec>) -> (record: RecordSpec)
    ensures
        record@.name == record_name_spec(name_seed@),
        record@.fields == fields.deep_view(),
        record.fields@.len() == fields@.len(),
{
    let mut name = capitalize_first(name_seed);
    name.append(NAME_SUFFIX);
    RecordSpec { name, fields }
}

/// The fields of a column list, column by column.
pub open spec fn emit_fields_spec(columns: Seq<OutputModel>) -> Seq<FieldModel> {
    Seq::new(columns.len(), |i: int| emit_field_spec(columns[i]))
}

/// The record of a column list.
pub open spec fn record_spec(name_seed: Seq<char>, columns: Seq<OutputModel>) -> RecordModel {
    RecordModel { name: record_name_spec(name_seed), fields: emit_fields_spec(columns) }
}

/// Columns `i` and `j`, in this order, stand in the list and share a symbol.
pub open spec fn collide(columns: Seq<OutputModel>, i: int, j: int) -> bool {
    0 <= i < j < columns.len() && columns[i].symbol == columns[j].symbol
}

/// No two columns share a symbol.
pub open spec fn distinct_symbols(columns: Seq<OutputModel>) -> bool {
    forall|i: int, j: int| !collide(columns, i, j)
}

/// Two columns that would become fields of the same identifier.
#[derive(Clone, Debug, PartialEq, Eq)]
pub struct IdentifierCollisionError {
    /// The identifier that both columns resolve to.
    pub identifier: String,
    /// Position of the earlier column.
    pub first: usize,
    /// Position of the later column.
    pub second: usize,
}

impl IdentifierCollisionError {
    /// This error names the earliest collision of `columns`: the first column
    /// that repeats a symbol, together with the first column that bore it.
    pub open spec fn names_first_collision(&self, columns: Seq<OutputModel>) -> bool {
        &&& collide(columns, self.first as int, self.second as int)
        &&& self.identifier@ == columns[self.first as int].symbol
        &&& forall|i: int, j: int|
            collide(columns, i, j) ==> self.second < j || (self.second == j && self.first <= i)
    }
}

/// Looks for two columns that share a symbol.
pub fn find_collision(columns: &[Output]) -> (found: Option<IdentifierCollisionError>)
    ensures
        match found {
            None => distinct_symbols(columns.deep_view()),
            Some(e) => e.names_first_collision(columns.deep_view()),
        },
{
    let ghost model = columns.deep_view();
    let mut j: usize = 0;
    while j < columns.len()
        invariant
            j <= columns.len(),
            model == columns.deep_view(),
            forall|a: int, b: int| collide(model, a, b) ==> j <= b,
        decreases columns.len() - j,
    {
        let mut i: usize = 0;
        while i < j
            invariant
                i <= j < columns.len(),
                model == columns.deep_view(),
                forall|a: int, b: int| collide(model, a, b) ==> j < b || (j == b && i <= a),
            decreases j - i,
        {
            if columns[i].symbol == columns[j].symbol {
                let e = IdentifierCollisionError {
                    identifier: columns[i].symbol.clone(),
                    first: i,
                    second: j,
                };
                return Some(e);
            }
            i += 1;
        }
        j += 1;
    }
    None
}

/// Generates the record of a column list: one field per column, in column
/// order, under the name derived from `name_seed`.
///
/// Fails, with nothing generated, exactly when two columns share a symbol.
pub fn generate_record(name_seed: &str, columns: &[Output]) -> (generated: Result<
    RecordSpec,
    IdentifierCollisionError,
>)
    ensures
        match generated {
            Ok(record) => distinct_symbols(columns.deep_view()) && record@ == record_spec(
                name_seed@,
                columns.deep_view(),
            ),
            Err(e) => e.names_first_collision(columns.deep_view()),
        },
{
    if let Some(e) = find_collision(columns) {
        return Err(e);
    }
    let mut fields: Vec<FieldSpec> = Vec::new();
    let mut i: usize = 0;
    while i < columns.len()
        invariant
            i <= columns.len(),
            fields@.len() == i,
            forall|k: int| 0 <= k < i ==> (#[trigger] fields@[k])@ == emit_field_spec(columns@[k]@),
        decreases columns.len() - i,
    {
        fields.push(emit_field(&columns[i]));
        i += 1;
    }
    let record = emit_record(name_seed, fields);
    assert(record@.fields =~= emit_fields_spec(columns.deep_view()));
    Ok(record)
}

/// The native type that a field of type `t` is declared with.
pub open spec fn native_text(t: SqlType) -> Seq<char> {
    match t {
        SqlType::Integer(IntWidth::W8) => "Option<i8>"@,
        SqlType::Integer(IntWidth::W16) => "Option<i16>"@,
        SqlType::Integer(IntWidth::W32) => "Option<i32>"@,
        SqlType::Integer(IntWidth::W64) => "Option<i64>"@,
        SqlType::Float(FloatWidth::W32) => "Option<f32>"@,
        SqlType::Float(FloatWidth::W64) => "Option<f64>"@,
        SqlType::Decimal => "Option<bigdecimal::BigDecimal>"@,
        SqlType::Varchar => "Option<String>"@,
        SqlType::Boolean => "Option<bool>"@,
        SqlType::Date => "Option<chrono::NaiveDate>"@,
        SqlType::Time => "Option<chrono::NaiveTime>"@,
        SqlType::Timestamp => "Option<chrono::NaiveDateTime>"@,
        SqlType::TimestampWithTimeZone => "Option<chrono::DateTime<chrono::Utc>>"@,
        SqlType::Binary => "Option<Vec<u8>>"@,
        SqlType::Json => "Option<serde_json::Value>"@,
        SqlType::Uuid => "Option<uuid::Uuid>"@,
        SqlType::Array(_) => "Option<Vec<array::Element>>"@,
        SqlType::Mapping => "Option<std::collections::HashMap<String, serde_json::Value>>"@,
        SqlType::Unknown(_) => "Option<String>"@,
    }
}

/// The path of the function that carries out a strategy.
pub open spec fn strategy_path(strategy: DecodeStrategy) -> Seq<char> {
    match strategy {
        DecodeStrategy::Date => "dates::from_str_to_naive_date"@,
        DecodeStrategy::DateTime => "dates::from_str_to_naive_datetime"@,
        DecodeStrategy::Time => "dates::from_str_to_naive_time"@,
        DecodeStrategy::TimestampTz => "dates::from_str_to_datetime"@,
        DecodeStrategy::Binary => "binary::from_base64"@,
        DecodeStrategy::HomogeneousArray => "array::from_homogeneous_array"@,
        DecodeStrategy::MapPassthrough => "object::from_object"@,
        DecodeStrategy::NanAsMissing => "explain::nan_as_none"@,
    }
}

/// The line that binds a member to its decode strategy.
pub open spec fn directive_text(strategy: DecodeStrategy) -> Seq<char> {
    "    #[serde(deserialize_with = \""@ + strategy_path(strategy) + "\")]\n"@
}

/// The lines of one member: its directive, if it has one, and its
/// declaration.
pub open spec fn member_text(field: FieldModel) -> Seq<char> {
    let directive = match field.decode_strategy {
        Some(strategy) => directive_text(strategy),
        None => Seq::empty(),
    };
    directive + "    pub "@ + field.identifier + ": "@ + native_text(field.native_type) + ",\n"@
}

/// The lines of all members, in field order.
pub open spec fn members_text(fields: Seq<FieldModel>) -> Seq<char>
    decreases fields.len(),
{
    if fields.len() == 0 {
        Seq::empty()
    } else {
        members_text(fields.drop_last()) + member_text(fields.last())
    }
}

/// The definition of a record as source text.
pub open spec fn render_spec(record: RecordModel) -> Seq<char> {
    "#[derive(Debug, Deserialize)]\npub struct "@ + record.name + " {\n"@ + members_text(
        record.fields,
    ) + "}\n"@
}

/// The native type that a field of this descriptor is declared with.
pub fn native_type_text(native_type: &TypeDescriptor) -> (text: &'static str)
    ensures
        text@ == native_text(native_type@),
{
    match native_type {
        TypeDescriptor::Integer(IntWidth::W8) => "Option<i8>",
        TypeDescriptor::Integer(IntWidth::W16) => "Option<i16>",
        TypeDescriptor::Integer(IntWidth::W32) => "Option<i32>",
        TypeDescriptor::Integer(IntWidth::W64) => "Option<i64>",
        TypeDescriptor::Float(FloatWidth::W32) => "Option<f32>",
        TypeDescriptor::Float(FloatWidth::W64) => "Option<f64>",
        TypeDescriptor::Decimal => "Option<bigdecimal::BigDecimal>",
        TypeDescriptor::Varchar => "Option<String>",
        TypeDescriptor::Boolean => "Option<bool>",
        TypeDescriptor::Date => "Option<chrono::NaiveDate>",
        TypeDescriptor::Time => "Option<chrono::NaiveTime>",
        TypeDescriptor::Timestamp => "Option<chrono::NaiveDateTime>",
        TypeDescriptor::TimestampWithTimeZone => "Option<chrono::DateTime<chrono::Utc>>",
        TypeDescriptor::Binary => "Option<Vec<u8>>",
        TypeDescriptor::Json => "Option<serde_json::Value>",
        TypeDescriptor::Uuid => "Option<uuid::Uuid>",
        TypeDescriptor::Array(_) => "Option<Vec<array::Element>>",
        TypeDescriptor::Mapping => "Option<std::collections::HashMap<String, serde_json::Value>>",
        TypeDescriptor::Unknown(_) => "Option<String>",
    }
}

impl DecodeStrategy {
    /// The path of the function that carries out this strategy.
    pub fn path(self) -> (text: &'static str)
        ensures
            text@ == strategy_path(self),
    {
        match self {
            DecodeStrategy::Date => "dates::from_str_to_naive_date",
            DecodeStrategy::DateTime => "dates::from_str_to_naive_datetime",
            DecodeStrategy::Time => "dates::from_str_to_naive_time",
            DecodeStrategy::TimestampTz => "dates::from_str_to_datetime",
            DecodeStrategy::Binary => "binary::from_base64",
            DecodeStrategy::HomogeneousArray => "array::from_homogeneous_array",
            DecodeStrategy::MapPassthrough => "object::from_object",
            DecodeStrategy::NanAsMissing => "explain::nan_as_none",
        }
    }
}

impl FieldSpec {
    /// Appends the lines of this member to `out`.
    pub fn render_into(&self, out: &mut String)
        ensures
            final(out)@ == old(out)@ + member_text(self@),
    {
        if let Some(strategy) = self.decode_strategy {
            out.append("    #[serde(deserialize_with = \"");
            out.append(strategy.path());
            out.append("\")]\n");
        }
        out.append("    pub ");
        out.append(self.identifier.as_str());
        out.append(": ");
        out.append(native_type_text(&self.native_type));
        out.append(",\n");
    }
}

impl RecordSpec {
    /// Renders this record as a type definition.
    ///
    /// The text depends on the name and the fields alone: one member per
    /// field, in field order, each after the directive that binds it to its
    /// decode strategy, where it has one.
    pub fn render(&self) -> (text: String)
        ensures
            text@ == render_spec(self@),
    {
        let ghost fields = self.fields.deep_view();
        let mut text = String::from_str("#[derive(Debug, Deserialize)]\npub struct ");
        text.append(self.name.as_str());
        text.append(" {\n");
        let ghost head = text@;
        let mut i: usize = 0;
        while i < self.fields.len()
            invariant
                i <= self.fields.len(),
                fields == self.fields.deep_view(),
                text@ == head + members_text(fields.take(i as int)),
            decreases self.fields.len() - i,
        {
            self.fields[i].render_into(&mut text);
            proof {
                let next = fields.take(i + 1);
                assert(next.drop_last() =~= fields.take(i as int));
            }
            i += 1;
        }
        assert(fields.take(i as int) =~= fields);
        text.append("}\n");
        text
    }
}

impl FieldSpec {
    /// Whether the type name of the column was outside the vocabulary, so
    /// that the field fell back to a plain string. This is no error.
    pub fn is_fallback(&self) -> (fallback: bool)
        ensures
            fallback == (self@.native_type is Unknown),
    {
        match self.native_type {
            TypeDescriptor::Unknown(_) => true,
            _ => false,
        }
    }
}

/// A generated record has one field per column, in column order, and each
/// field bears its column's symbol as it was given.
pub proof fn lemma_record_mirrors_columns(name_seed: Seq<char>, columns: Seq<OutputModel>)
    ensures
        record_spec(name_seed, columns).fields.len() == columns.len(),
        forall|i: int|
            0 <= i < columns.len() ==> (#[trigger] record_spec(name_seed, columns).fields[i])
                == emit_field_spec(columns[i]),
        forall|i: int|
            0 <= i < columns.len() ==> (#[trigger] record_spec(
                name_seed,
                columns,
            ).fields[i]).identifier == columns[i].symbol,
{
}

/// The name of a record depends on the seed alone and ends in `QueryResult`.
pub proof fn lemma_record_name(name_seed: Seq<char>, columns: Seq<OutputModel>)
    ensures
        record_spec(name_seed, columns).name == record_name_spec(name_seed),
        record_name_spec(name_seed).len() >= NAME_SUFFIX@.len(),
        record_name_spec(name_seed).skip(record_name_spec(name_seed).len() - NAME_SUFFIX@.len())
            == NAME_SUFFIX@,
{
}

/// A column whose type name is outside the vocabulary becomes a string
/// field without a decode strategy.
pub proof fn lemma_unknown_is_plain_string(column: OutputModel)
    requires
        classify_spec(column.raw_type) is Unknown,
    ensures
        emit_field_spec(column).native_type == SqlType::Unknown(column.raw_type),
        emit_field_spec(column).decode_strategy is None,
        native_text(emit_field_spec(column).native_type) == "Option<String>"@,
{
    lemma_unknown_keeps_name(column.raw_type);
}

} // verus!
