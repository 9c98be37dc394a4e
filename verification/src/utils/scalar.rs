//! Decimals and UUIDs sent as text.

use vstd::prelude::*;
use crate::decode::{nullable_text, text_decoded, text_outcome, ExpectedFormat};
use crate::json::{Json, JsonValue};

verus! {

/// A decimal number: the integer `unscaled`, written in decimal digits,
/// divided by ten to the power of `scale`.
#[derive(Clone, Debug, PartialEq, Eq)]
pub struct Decimal {
    pub unscaled: String,
    pub scale: i64,
}

/// The model of a [`Decimal`].
pub struct DecimalModel {
    pub unscaled: Seq<char>,
    pub scale: i64,
}

impl DeepView for Decimal {
    type V = DecimalModel;

    open spec fn deep_view(&self) -> DecimalModel {
        DecimalModel { unscaled: self.unscaled@, scale: self.scale }
    }
}

/// The decimal that `bigdecimal::BigDecimal` reads from `text`, by its
/// digits and its scale; `None` where it reports an error.
pub uninterp spec fn decimal_value(text: Seq<char>) -> Option<DecimalModel>;

/// Calls `BigDecimal::from_str`, through `str::parse`, and takes the number
/// apart with `BigDecimal::into_bigint_and_scale`.
///
/// Trusted: the result is the number that the crate reads from `text`, and
/// `None` stands for any error that it reports.
#[verifier::external_body]
fn parse_decimal(text: &str) -> (parsed: Option<Decimal>)
    ensures
        parsed.deep_view() == decimal_value(text@),
{
    text.parse::<bigdecimal::BigDecimal>().ok().map(|d| d.into_bigint_and_scale()).map(
        |(digits, scale)| Decimal { unscaled: digits.to_string(), scale },
    )
}

/// The 128 bits of the UUID that `uuid::Uuid::parse_str` reads from `text`,
/// most significant byte first; `None` where it reports an error.
pub uninterp spec fn uuid_value(text: Seq<char>) -> Option<u128>;

/// Calls `uuid::Uuid::parse_str` and takes the bits with `Uuid::as_u128`.
///
/// Trusted: the result is the UUID that the crate reads from `text`, and
/// `None` stands for any error that it reports.
#[verifier::external_body]
fn parse_uuid(text: &str) -> (parsed: Option<u128>)
    ensures
        parsed == uuid_value(text@),
{
    uuid::Uuid::parse_str(text).ok().map(|u| u.as_u128())
}

/// What a nullable decimal decodes to: `null` is absent; a string or a
/// number is the decimal that its text spells.
pub open spec fn decimal_strategy(value: JsonValue) -> Result<
    Option<DecimalModel>,
    ExpectedFormat,
> {
    match value {
        JsonValue::Number(text) => text_outcome(decimal_value(text), ExpectedFormat::Decimal),
        _ => nullable_text(value, |t: Seq<char>| decimal_value(t), ExpectedFormat::Decimal),
    }
}

/// Decodes a nullable decimal: `null` is absent; a string or a number is the
/// decimal that its text spells; anything else fails.
pub fn from_decimal(value: &Json) -> (decoded: Result<Option<Decimal>, ExpectedFormat>)
    ensures
        match decoded {
            Ok(decimal) => decimal_strategy(value@) == Ok::<_, ExpectedFormat>(
                decimal.deep_view(),
            ),
            Err(e) => decimal_strategy(value@) == Err::<Option<DecimalModel>, _>(e),
        },
{
    match value {
        Json::Null => Ok(None),
        Json::Number(text) => text_decoded(
            parse_decimal(text.as_str()),
            ExpectedFormat::Decimal,
        ),
        Json::String(text) => text_decoded(
            parse_decimal(text.as_str()),
            ExpectedFormat::Decimal,
        ),
        _ => Err(ExpectedFormat::Decimal),
    }
}

/// What a nullable UUID decodes to.
pub open spec fn uuid_strategy(value: JsonValue) -> Result<Option<u128>, ExpectedFormat> {
    nullable_text(value, |t: Seq<char>| uuid_value(t), ExpectedFormat::Uuid)
}

/// Decodes a nullable UUID: `null` is absent, a string that spells a UUID is
/// its 128 bits, anything else fails.
pub fn from_uuid(value: &Json) -> (decoded: Result<Option<u128>, ExpectedFormat>)
    ensures
        decoded == uuid_strategy(value@),
{
    match value {
        Json::Null => Ok(None),
        Json::String(text) => text_decoded(parse_uuid(text.as_str()), ExpectedFormat::Uuid),
        _ => Err(ExpectedFormat::Uuid),
    }
}

} // verus!
