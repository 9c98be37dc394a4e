//! Maps sent as objects. The values are passed through untyped.

use vstd::prelude::*;
use crate::decode::ExpectedFormat;
use crate::json::{lemma_object_model, Json, JsonValue};

verus! {

/// What a nullable map decodes to: its members, with their values as they
/// are.
pub open spec fn object_strategy(value: JsonValue) -> Result<
    Option<Seq<(Seq<char>, JsonValue)>>,
    ExpectedFormat,
> {
    match value {
        JsonValue::Null => Ok(None),
        JsonValue::Object(members) => Ok(Some(members)),
        _ => Err(ExpectedFormat::Object),
    }
}

/// Decodes a nullable map: `null` is absent, an object is the list of its
/// members with every key and every value kept, anything else fails.
pub fn from_object(value: &Json) -> (decoded: Result<Option<Vec<(String, Json)>>, ExpectedFormat>)
    ensures
        match decoded {
            Ok(members) => object_strategy(value@) == Ok::<_, ExpectedFormat>(
                members.deep_view(),
            ),
            Err(e) => object_strategy(value@) == Err::<Option<Seq<(Seq<char>, JsonValue)>>, _>(e),
        },
{
    match value {
        Json::Null => Ok(None),
        Json::Object(_) => match value.duplicate() {
            Json::Object(members) => {
                proof {
                    lemma_object_model(members);
                }
                Ok(Some(members))
            },
            _ => Err(ExpectedFormat::Object),
        },
        _ => Err(ExpectedFormat::Object),
    }
}

} // verus!
