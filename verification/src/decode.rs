//! Decoding of wire values against record definitions.
//!
//! A field is decoded by its decode strategy where it has one, and by the
//! default decoding of its native type where it has none. Every field is
//! nullable: `null` decodes to an absent value whatever the type.

use vstd::prelude::*;
use vstd::string::*;
use crate::explain::{nan_as_none, nan_as_none_spec, OutputModel};
use crate::json::{
    find_member, lemma_array_model, lemma_object_model, member_value, Json, JsonValue,
};
use crate::record::{
    distinct_symbols, record_spec, strategy_for, strategy_for_spec, DecodeStrategy, FieldModel,
    FieldSpec, RecordModel, RecordSpec,
};
use crate::text::{integer_in_range, parse_integer};
use crate::types::{IntWidth, SqlType, TypeDescriptor};
use crate::utils::array::{
    array_strategy, element_list_spec, element_spec, from_homogeneous_array, Element,
    ElementModel,
};
use crate::utils::binary::{binary_strategy, from_base64};
use crate::utils::dates::{
    date_strategy, datetime_strategy, from_str_to_datetime, from_str_to_naive_date,
    from_str_to_naive_datetime, from_str_to_naive_time, time_strategy, timestamptz_strategy,
    CalendarDate, TimeOfDay, Timestamp,
};
use crate::utils::object::{from_object, object_strategy};
use crate::utils::scalar::{
    decimal_strategy, from_decimal, from_uuid, uuid_strategy, Decimal, DecimalModel,
};

verus! {

/// The wire form that a value was expected to have.
#[derive(Clone, Copy, Debug, PartialEq, Eq, Structural)]
pub enum ExpectedFormat {
    /// A string `YYYY-MM-DD`.
    Date,
    /// A string `YYYY-MM-DD HH:MM:SS[.fraction]`.
    DateTime,
    /// A string `HH:MM:SS[.fraction]`.
    Time,
    /// An RFC 3339 string.
    TimestampTz,
    /// A string of base64 text in the standard alphabet.
    Base64,
    /// An array whose elements are integers, fractions, strings or `null`.
    ScalarArray,
    /// An object.
    Object,
    /// An integer that fits the width.
    Integer(IntWidth),
    /// A number.
    Number,
    /// A decimal number, as a string or a number.
    Decimal,
    /// A string.
    Text,
    /// A string, a number or a boolean.
    Scalar,
    /// A boolean.
    Boolean,
    /// A string that spells a UUID.
    Uuid,
    /// An array with one element per field, or an object.
    Row,
}

/// The outcome of decoding a text: what was read from it, or the format
/// that the text has not.
pub open spec fn text_outcome<T>(read: Option<T>, expected: ExpectedFormat) -> Result<
    Option<T>,
    ExpectedFormat,
> {
    match read {
        Some(decoded) => Ok(Some(decoded)),
        None => Err(expected),
    }
}

/// Turns what a text decoder read into the outcome of a decode strategy: a
/// present value, or a failure that names the format expected.
pub fn text_decoded<T>(read: Option<T>, expected: ExpectedFormat) -> (outcome: Result<
    Option<T>,
    ExpectedFormat,
>)
    ensures
        outcome == text_outcome(read, expected),
{
    match read {
        Some(decoded) => Ok(Some(decoded)),
        None => Err(expected),
    }
}

/// The outcome of decoding a nullable string value: `null` is absent, a
/// string is whatever its text decodes to, and any other value has not the
/// format.
pub open spec fn nullable_text<T>(
    value: JsonValue,
    decode: spec_fn(Seq<char>) -> Option<T>,
    expected: ExpectedFormat,
) -> Result<Option<T>, ExpectedFormat> {
    match value {
        JsonValue::Null => Ok(None),
        JsonValue::String(text) => text_outcome(decode(text), expected),
        _ => Err(expected),
    }
}

/// A decoded field value.
#[derive(Debug, PartialEq, Eq)]
pub enum Decoded {
    /// The wire value was `null`, or the row had none for the field.
    Absent,
    Integer(i64),
    /// A number that need not be an integer, by its text.
    Number(String),
    Decimal(Decimal),
    Text(String),
    Boolean(bool),
    Date(CalendarDate),
    Time(TimeOfDay),
    Timestamp(Timestamp),
    /// A timestamp in UTC.
    TimestampTz(Timestamp),
    Binary(Vec<u8>),
    Json(Json),
    /// The 128 bits of a UUID, most significant byte first.
    Uuid(u128),
    Array(Vec<Element>),
    Mapping(Vec<(String, Json)>),
}

/// The model of a [`Decoded`] value.
pub enum DecodedModel {
    Absent,
    Integer(i64),
    Number(Seq<char>),
    Decimal(DecimalModel),
    Text(Seq<char>),
    Boolean(bool),
    Date(CalendarDate),
    Time(TimeOfDay),
    Timestamp(Timestamp),
    TimestampTz(Timestamp),
    Binary(Seq<u8>),
    Json(JsonValue),
    Uuid(u128),
    Array(Seq<ElementModel>),
    Mapping(Seq<(Seq<char>, JsonValue)>),
}

impl DeepView for Decoded {
    type V = DecodedModel;

    open spec fn deep_view(&self) -> DecodedModel {
        match self {
            Decoded::Absent => DecodedModel::Absent,
            Decoded::Integer(n) => DecodedModel::Integer(*n),
            Decoded::Number(text) => DecodedModel::Number(text@),
            Decoded::Decimal(decimal) => DecodedModel::Decimal(decimal.deep_view()),
            Decoded::Text(text) => DecodedModel::Text(text@),
            Decoded::Boolean(b) => DecodedModel::Boolean(*b),
            Decoded::Date(date) => DecodedModel::Date(*date),
            Decoded::Time(time) => DecodedModel::Time(*time),
            Decoded::Timestamp(timestamp) => DecodedModel::Timestamp(*timestamp),
            Decoded::TimestampTz(timestamp) => DecodedModel::TimestampTz(*timestamp),
            Decoded::Binary(bytes) => DecodedModel::Binary(bytes.deep_view()),
            Decoded::Json(value) => DecodedModel::Json(value@),
            Decoded::Uuid(bits) => DecodedModel::Uuid(*bits),
            Decoded::Array(elements) => DecodedModel::Array(elements.deep_view()),
            Decoded::Mapping(members) => DecodedModel::Mapping(members.deep_view()),
        }
    }
}

/// A wire value that could not be decoded.
#[derive(Debug, PartialEq, Eq)]
pub struct DecodeError {
    /// The identifier of the field; `None` where the row as a whole has not
    /// the shape of a row.
    pub field: Option<String>,
    /// The wire value as it was received.
    pub raw: Json,
    /// The format that the wire value has not.
    pub expected: ExpectedFormat,
}

/// An integer fits the width.
pub open spec fn fits(width: IntWidth, n: int) -> bool {
    match width {
        IntWidth::W8 => -0x80 <= n <= 0x7f,
        IntWidth::W16 => -0x8000 <= n <= 0x7fff,
        IntWidth::W32 => -0x8000_0000 <= n <= 0x7fff_ffff,
        IntWidth::W64 => -0x8000_0000_0000_0000 <= n <= 0x7fff_ffff_ffff_ffff,
    }
}

/// The text that stands for a boolean.
pub open spec fn boolean_text(b: bool) -> Seq<char> {
    if b {
        "true"@
    } else {
        "false"@
    }
}

/// What a value decodes to by the default decoding of a plain native type:
/// one that calls for no strategy. A type outside the vocabulary takes every
/// scalar, as a string.
pub open spec fn plain_spec(native_type: SqlType, value: JsonValue) -> Result<
    DecodedModel,
    ExpectedFormat,
> {
    if value is Null {
        Ok(DecodedModel::Absent)
    } else {
        match native_type {
            SqlType::Integer(width) => match value {
                JsonValue::Number(text) => match integer_in_range(text) {
                    Some(n) => if fits(width, n as int) {
                        Ok(DecodedModel::Integer(n))
                    } else {
                        Err(ExpectedFormat::Integer(width))
                    },
                    None => Err(ExpectedFormat::Integer(width)),
                },
                _ => Err(ExpectedFormat::Integer(width)),
            },
            SqlType::Float(_) => match value {
                JsonValue::Number(text) => Ok(DecodedModel::Number(text)),
                _ => Err(ExpectedFormat::Number),
            },
            SqlType::Decimal => match decimal_strategy(value) {
                Ok(Some(decimal)) => Ok(DecodedModel::Decimal(decimal)),
                Ok(None) => Ok(DecodedModel::Absent),
                Err(e) => Err(e),
            },
            SqlType::Varchar => match value {
                JsonValue::String(text) => Ok(DecodedModel::Text(text)),
                _ => Err(ExpectedFormat::Text),
            },
            SqlType::Boolean => match value {
                JsonValue::Bool(b) => Ok(DecodedModel::Boolean(b)),
                _ => Err(ExpectedFormat::Boolean),
            },
            SqlType::Json => Ok(DecodedModel::Json(value)),
            SqlType::Uuid => match uuid_strategy(value) {
                Ok(Some(bits)) => Ok(DecodedModel::Uuid(bits)),
                Ok(None) => Ok(DecodedModel::Absent),
                Err(e) => Err(e),
            },
            SqlType::Mapping => match value {
                JsonValue::Object(members) => Ok(DecodedModel::Mapping(members)),
                _ => Err(ExpectedFormat::Object),
            },
            _ => match value {
                JsonValue::String(text) => Ok(DecodedModel::Text(text)),
                JsonValue::Number(text) => Ok(DecodedModel::Text(text)),
                JsonValue::Bool(b) => Ok(DecodedModel::Text(boolean_text(b))),
                _ => Err(ExpectedFormat::Scalar),
            },
        }
    }
}

/// What a value decodes to under a strategy.
pub open spec fn strategy_spec(strategy: DecodeStrategy, value: JsonValue) -> Result<
    DecodedModel,
    ExpectedFormat,
> {
    match strategy {
        DecodeStrategy::Date => match date_strategy(value) {
            Ok(Some(date)) => Ok(DecodedModel::Date(date)),
            Ok(None) => Ok(DecodedModel::Absent),
            Err(e) => Err(e),
        },
        DecodeStrategy::DateTime => match datetime_strategy(value) {
            Ok(Some(timestamp)) => Ok(DecodedModel::Timestamp(timestamp)),
            Ok(None) => Ok(DecodedModel::Absent),
            Err(e) => Err(e),
        },
        DecodeStrategy::Time => match time_strategy(value) {
            Ok(Some(time)) => Ok(DecodedModel::Time(time)),
            Ok(None) => Ok(DecodedModel::Absent),
            Err(e) => Err(e),
        },
        DecodeStrategy::TimestampTz => match timestamptz_strategy(value) {
            Ok(Some(timestamp)) => Ok(DecodedModel::TimestampTz(timestamp)),
            Ok(None) => Ok(DecodedModel::Absent),
            Err(e) => Err(e),
        },
        DecodeStrategy::Binary => match binary_strategy(value) {
            Ok(Some(bytes)) => Ok(DecodedModel::Binary(bytes)),
            Ok(None) => Ok(DecodedModel::Absent),
            Err(e) => Err(e),
        },
        DecodeStrategy::HomogeneousArray => match array_strategy(value) {
            Ok(Some(elements)) => Ok(DecodedModel::Array(elements)),
            Ok(None) => Ok(DecodedModel::Absent),
            Err(e) => Err(e),
        },
        DecodeStrategy::MapPassthrough => match object_strategy(value) {
            Ok(Some(members)) => Ok(DecodedModel::Mapping(members)),
            Ok(None) => Ok(DecodedModel::Absent),
            Err(e) => Err(e),
        },
        DecodeStrategy::NanAsMissing => match nan_as_none_spec(value) {
            Some(text) => Ok(DecodedModel::Number(text)),
            None => Ok(DecodedModel::Absent),
        },
    }
}

/// What a value decodes to by the decoding of a native type: under the
/// strategy that the type calls for, or else as a plain type.
pub open spec fn default_spec(native_type: SqlType, value: JsonValue) -> Result<
    DecodedModel,
    ExpectedFormat,
> {
    match strategy_for_spec(native_type) {
        Some(strategy) => strategy_spec(strategy, value),
        None => plain_spec(native_type, value),
    }
}

/// What a wire value decodes to as a value of a field: under the field's own
/// strategy, or else by the decoding of its native type.
pub open spec fn decode_spec(field: FieldModel, value: JsonValue) -> Result<
    DecodedModel,
    ExpectedFormat,
> {
    match field.decode_strategy {
        Some(strategy) => strategy_spec(strategy, value),
        None => default_spec(field.native_type, value),
    }
}

/// Whether `n` fits the width.
pub fn fits_width(width: IntWidth, n: i64) -> (r: bool)
    ensures
        r == fits(width, n as int),
{
    match width {
        IntWidth::W8 => -0x80 <= n && n <= 0x7f,
        IntWidth::W16 => -0x8000 <= n && n <= 0x7fff,
        IntWidth::W32 => -0x8000_0000 <= n && n <= 0x7fff_ffff,
        IntWidth::W64 => true,
    }
}

/// Decodes a value by the decoding of a native type.
pub fn decode_default(native_type: &TypeDescriptor, value: &Json) -> (decoded: Result<
    Decoded,
    ExpectedFormat,
>)
    ensures
        match decoded {
            Ok(d) => default_spec(native_type@, value@) == Ok::<_, ExpectedFormat>(d.deep_view()),
            Err(e) => default_spec(native_type@, value@) == Err::<DecodedModel, _>(e),
        },
{
    if let Some(strategy) = strategy_for(native_type) {
        return decode_with(strategy, value);
    }
    if let Json::Null = value {
        return Ok(Decoded::Absent);
    }
    match native_type {
        TypeDescriptor::Integer(width) => match value {
            Json::Number(text) => match parse_integer(text.as_str()) {
                Some(n) => if fits_width(*width, n) {
                    Ok(Decoded::Integer(n))
                } else {
                    Err(ExpectedFormat::Integer(*width))
                },
                None => Err(ExpectedFormat::Integer(*width)),
            },
            _ => Err(ExpectedFormat::Integer(*width)),
        },
        TypeDescriptor::Float(_) => match value {
            Json::Number(text) => Ok(Decoded::Number(text.clone())),
            _ => Err(ExpectedFormat::Number),
        },
        TypeDescriptor::Decimal => match from_decimal(value) {
            Ok(Some(decimal)) => Ok(Decoded::Decimal(decimal)),
            Ok(None) => Ok(Decoded::Absent),
            Err(e) => Err(e),
        },
        TypeDescriptor::Varchar => match value {
            Json::String(text) => Ok(Decoded::Text(text.clone())),
            _ => Err(ExpectedFormat::Text),
        },
        TypeDescriptor::Boolean => match value {
            Json::Bool(b) => Ok(Decoded::Boolean(*b)),
            _ => Err(ExpectedFormat::Boolean),
        },
        TypeDescriptor::Json => Ok(Decoded::Json(value.duplicate())),
        TypeDescriptor::Uuid => match from_uuid(value) {
            Ok(Some(bits)) => Ok(Decoded::Uuid(bits)),
            Ok(None) => Ok(Decoded::Absent),
            Err(e) => Err(e),
        },
        TypeDescriptor::Mapping => match from_object(value) {
            Ok(Some(members)) => Ok(Decoded::Mapping(members)),
            Ok(None) => Ok(Decoded::Absent),
            Err(e) => Err(e),
        },
        _ => match value {
            Json::String(text) => Ok(Decoded::Text(text.clone())),
            Json::Number(text) => Ok(Decoded::Text(text.clone())),
            Json::Bool(b) => Ok(
                Decoded::Text(
                    if *b {
                        String::from_str("true")
                    } else {
                        String::from_str("false")
                    },
                ),
            ),
            _ => Err(ExpectedFormat::Scalar),
        },
    }
}

/// Decodes a value under a strategy.
pub fn decode_with(strategy: DecodeStrategy, value: &Json) -> (decoded: Result<
    Decoded,
    ExpectedFormat,
>)
    ensures
        match decoded {
            Ok(d) => strategy_spec(strategy, value@) == Ok::<_, ExpectedFormat>(d.deep_view()),
            Err(e) => strategy_spec(strategy, value@) == Err::<DecodedModel, _>(e),
        },
{
    match strategy {
        DecodeStrategy::Date => match from_str_to_naive_date(value) {
            Ok(Some(date)) => Ok(Decoded::Date(date)),
            Ok(None) => Ok(Decoded::Absent),
            Err(e) => Err(e),
        },
        DecodeStrategy::DateTime => match from_str_to_naive_datetime(value) {
            Ok(Some(timestamp)) => Ok(Decoded::Timestamp(timestamp)),
            Ok(None) => Ok(Decoded::Absent),
            Err(e) => Err(e),
        },
        DecodeStrategy::Time => match from_str_to_naive_time(value) {
            Ok(Some(time)) => Ok(Decoded::Time(time)),
            Ok(None) => Ok(Decoded::Absent),
            Err(e) => Err(e),
        },
        DecodeStrategy::TimestampTz => match from_str_to_datetime(value) {
            Ok(Some(timestamp)) => Ok(Decoded::TimestampTz(timestamp)),
            Ok(None) => Ok(Decoded::Absent),
            Err(e) => Err(e),
        },
        DecodeStrategy::Binary => match from_base64(value) {
            Ok(Some(bytes)) => Ok(Decoded::Binary(bytes)),
            Ok(None) => Ok(Decoded::Absent),
            Err(e) => Err(e),
        },
        DecodeStrategy::HomogeneousArray => match from_homogeneous_array(value) {
            Ok(Some(elements)) => Ok(Decoded::Array(elements)),
            Ok(None) => Ok(Decoded::Absent),
            Err(e) => Err(e),
        },
        DecodeStrategy::MapPassthrough => match from_object(value) {
            Ok(Some(members)) => Ok(Decoded::Mapping(members)),
            Ok(None) => Ok(Decoded::Absent),
            Err(e) => Err(e),
        },
        DecodeStrategy::NanAsMissing => match nan_as_none(value) {
            Some(text) => Ok(Decoded::Number(text)),
            None => Ok(Decoded::Absent),
        },
    }
}

/// Decodes a wire value as a value of `field`.
///
/// Fails exactly when the value has not the wire form that the field's
/// strategy or native type accepts; the error then names the field, holds
/// the value as it was received and says which form was expected.
pub fn decode_field(field: &FieldSpec, value: &Json) -> (decoded: Result<Decoded, DecodeError>)
    ensures
        match decoded {
            Ok(d) => decode_spec(field@, value@) == Ok::<_, ExpectedFormat>(d.deep_view()),
            Err(e) => {
                &&& decode_spec(field@, value@) == Err::<DecodedModel, _>(e.expected)
                &&& e.field.deep_view() == Some(field@.identifier)
                &&& e.raw@ == value@
            },
        },
{
    let outcome = match field.decode_strategy {
        Some(strategy) => decode_with(strategy, value),
        None => decode_default(&field.native_type, value),
    };
    match outcome {
        Ok(d) => Ok(d),
        Err(expected) => Err(
            DecodeError {
                field: Some(field.identifier.clone()),
                raw: value.duplicate(),
                expected,
            },
        ),
    }
}

/// The wire value of each field of a record in a row.
///
/// A row is an array with one value per field, in field order, or an object
/// with the values under the fields' identifiers; a field that an object
/// leaves out has the wire value `null`. Anything else is no row.
pub open spec fn row_values(record: RecordModel, row: JsonValue) -> Option<Seq<JsonValue>> {
    match row {
        JsonValue::Array(items) => if items.len() == record.fields.len() {
            Some(items)
        } else {
            None
        },
        JsonValue::Object(members) => Some(
            Seq::new(
                record.fields.len(),
                |i: int|
                    match member_value(members, record.fields[i].identifier) {
                        Some(value) => value,
                        None => JsonValue::Null,
                    },
            ),
        ),
        _ => None,
    }
}

/// Field `i` is the first whose wire value does not decode, and `e` reports
/// it.
pub open spec fn reports_field(
    e: DecodeError,
    record: RecordModel,
    wire: Seq<JsonValue>,
    i: int,
) -> bool {
    &&& 0 <= i < record.fields.len()
    &&& forall|k: int| 0 <= k < i ==> (#[trigger] decode_spec(record.fields[k], wire[k])) is Ok
    &&& decode_spec(record.fields[i], wire[i]) == Err::<DecodedModel, _>(e.expected)
    &&& e.field.deep_view() == Some(record.fields[i].identifier)
    &&& e.raw@ == wire[i]
}

/// Decodes a row against a record: one value per field, in field order.
///
/// Fails on a row that is no row of the record, and on the first field whose
/// wire value does not decode; nothing is returned for the fields before it.
pub fn decode_row(record: &RecordSpec, row: &Json) -> (decoded: Result<Vec<Decoded>, DecodeError>)
    ensures
        match decoded {
            Ok(values) => {
                &&& row_values(record@, row@) is Some
                &&& values@.len() == record@.fields.len()
                &&& forall|i: int|
                    0 <= i < values@.len() ==> decode_spec(
                        record@.fields[i],
                        row_values(record@, row@)->0[i],
                    ) == Ok::<_, ExpectedFormat>((#[trigger] values@[i]).deep_view())
            },
            Err(e) => match row_values(record@, row@) {
                None => e.field is None && e.expected == ExpectedFormat::Row && e.raw@ == row@,
                Some(wire) => exists|i: int| reports_field(e, record@, wire, i),
            },
        },
{
    let count = record.fields.len();
    let shaped = match row {
        Json::Array(items) => {
            proof {
                lemma_array_model(*items);
            }
            items.len() == count
        },
        Json::Object(members) => {
            proof {
                lemma_object_model(*members);
            }
            true
        },
        _ => false,
    };
    if !shaped {
        return Err(
            DecodeError { field: None, raw: row.duplicate(), expected: ExpectedFormat::Row },
        );
    }
    let ghost wire = row_values(record@, row@)->0;
    let null = Json::Null;
    let mut values: Vec<Decoded> = Vec::new();
    let mut i: usize = 0;
    while i < count
        invariant
            i <= count,
            count == record.fields.len(),
            null@ == JsonValue::Null,
            row_values(record@, row@) == Some(wire),
            wire.len() == count,
            values@.len() == i,
            forall|k: int|
                0 <= k < i ==> decode_spec(record@.fields[k], wire[k]) == Ok::<_, ExpectedFormat>(
                    (#[trigger] values@[k]).deep_view(),
                ),
        decreases count - i,
    {
        let field = &record.fields[i];
        let value: &Json = match row {
            Json::Array(items) => {
                proof {
                    lemma_array_model(*items);
                }
                &items[i]
            },
            Json::Object(members) => {
                proof {
                    lemma_object_model(*members);
                }
                match find_member(members, field.identifier.as_str()) {
                    Some(value) => value,
                    None => &null,
                }
            },
            _ => &null,
        };
        match decode_field(field, value) {
            Ok(d) => {
                values.push(d);
            },
            Err(e) => {
                assert forall|k: int| 0 <= k < i implies (#[trigger] decode_spec(
                    record@.fields[k],
                    wire[k],
                )) is Ok by {
                    assert(decode_spec(record@.fields[k], wire[k]) == Ok::<_, ExpectedFormat>(
                        values@[k].deep_view(),
                    ));
                }
                assert(reports_field(e, record@, wire, i as int));
                return Err(e);
            },
        }
        i += 1;
    }
    Ok(values)
}

/// A JSON scalar: `null`, a boolean, a number or a string.
pub open spec fn is_scalar(value: JsonValue) -> bool {
    value is Null || value is Bool || value is Number || value is String
}

/// A field of a type outside the vocabulary decodes every scalar without
/// error: `null` as an absent value, anything else as a string.
pub proof fn lemma_unknown_decodes_scalars(field: FieldModel, value: JsonValue)
    requires
        field.native_type is Unknown,
        field.decode_strategy is None,
        is_scalar(value),
    ensures
        decode_spec(field, value) is Ok,
        value is Null ==> decode_spec(field, value) == Ok::<_, ExpectedFormat>(
            DecodedModel::Absent,
        ),
        !(value is Null) ==> decode_spec(field, value)->Ok_0 is Text,
        value matches JsonValue::String(text) ==> decode_spec(field, value) == Ok::<
            _,
            ExpectedFormat,
        >(DecodedModel::Text(text)),
{
}

/// An array decodes element by element: what comes out has the length and
/// the order of what came in, and the array fails exactly when one of its
/// items is no element.
pub proof fn lemma_array_keeps_order(items: Seq<JsonValue>)
    ensures
        match array_strategy(JsonValue::Array(items)) {
            Ok(Some(elements)) => elements.len() == items.len() && forall|i: int|
                0 <= i < items.len() ==> element_spec(items[i]) == Some(#[trigger] elements[i]),
            Ok(None) => false,
            Err(e) => e == ExpectedFormat::ScalarArray && exists|i: int|
                0 <= i < items.len() && (#[trigger] element_spec(items[i])) is None,
        },
{
    let read = Seq::new(items.len(), |i: int| element_spec(items[i]));
    if element_list_spec(items) is None {
        let i = choose|i: int| 0 <= i < read.len() && !((#[trigger] read[i]) is Some);
        assert(element_spec(items[i]) is None);
    }
}

/// The elements of an array are integers, fractions, strings and `null`s:
/// every such value is an element, and no other value is.
pub proof fn lemma_elements_are_scalars(value: JsonValue)
    ensures
        element_spec(value) is Some <==> (value is Null || value is Number || value is String),
{
}

/// Every field is nullable: `null` decodes to an absent value under every
/// strategy and every type.
pub proof fn lemma_null_is_absent(field: FieldModel)
    ensures
        decode_spec(field, JsonValue::Null) == Ok::<_, ExpectedFormat>(DecodedModel::Absent),
{
}

/// A column list without columns has no collision and makes a record
/// without fields; the empty row is a row of that record and decodes to no
/// values.
pub proof fn lemma_no_columns(name_seed: Seq<char>)
    ensures
        distinct_symbols(Seq::<OutputModel>::empty()),
        record_spec(name_seed, Seq::empty()).fields.len() == 0,
        row_values(record_spec(name_seed, Seq::empty()), JsonValue::Array(Seq::empty())) == Some(
            Seq::<JsonValue>::empty(),
        ),
{
}

} // verus!
