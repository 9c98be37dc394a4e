//! Arrays whose elements carry no type of their own.
//!
//! The engine sends the elements of an array without saying what they are, so
//! each element is taken for what its JSON shape shows.

use vstd::prelude::*;
use crate::decode::ExpectedFormat;
use crate::json::{all_present, lemma_all_present, lemma_array_model, Json, JsonValue};
use crate::text::{integer_in_range, parse_integer};

verus! {

/// One element of an array.
#[derive(Clone, Debug, PartialEq, Eq)]
pub enum Element {
    /// An integer that fits into 32 bits.
    Int(i32),
    /// Any other number, by its text.
    Float(String),
    String(String),
    Null,
}

/// The model of an [`Element`].
pub enum ElementModel {
    Int(i32),
    Float(Seq<char>),
    String(Seq<char>),
    Null,
}

impl DeepView for Element {
    type V = ElementModel;

    open spec fn deep_view(&self) -> ElementModel {
        match self {
            Element::Int(n) => ElementModel::Int(*n),
            Element::Float(text) => ElementModel::Float(text@),
            Element::String(text) => ElementModel::String(text@),
            Element::Null => ElementModel::Null,
        }
    }
}

/// The 32-bit integer that a number's text spells, where it spells one.
pub open spec fn small_integer(text: Seq<char>) -> Option<i32> {
    match integer_in_range(text) {
        Some(n) => if i32::MIN <= n <= i32::MAX {
            Some(n as i32)
        } else {
            None
        },
        None => None,
    }
}

/// The element that a JSON value is taken for. Booleans, arrays and objects
/// are no elements.
pub open spec fn element_spec(value: JsonValue) -> Option<ElementModel> {
    match value {
        JsonValue::Null => Some(ElementModel::Null),
        JsonValue::Number(text) => match small_integer(text) {
            Some(n) => Some(ElementModel::Int(n)),
            None => Some(ElementModel::Float(text)),
        },
        JsonValue::String(text) => Some(ElementModel::String(text)),
        _ => None,
    }
}

/// The elements of a list of JSON values, in the order of the list.
pub open spec fn element_list_spec(items: Seq<JsonValue>) -> Option<Seq<ElementModel>> {
    all_present(Seq::new(items.len(), |i: int| element_spec(items[i])))
}

/// What a nullable array decodes to.
pub open spec fn array_strategy(value: JsonValue) -> Result<
    Option<Seq<ElementModel>>,
    ExpectedFormat,
> {
    match value {
        JsonValue::Null => Ok(None),
        JsonValue::Array(items) => match element_list_spec(items) {
            Some(elements) => Ok(Some(elements)),
            None => Err(ExpectedFormat::ScalarArray),
        },
        _ => Err(ExpectedFormat::ScalarArray),
    }
}

/// Takes a JSON value for an element.
pub fn element_of(value: &Json) -> (element: Option<Element>)
    ensures
        element.deep_view() == element_spec(value@),
{
    match value {
        Json::Null => Some(Element::Null),
        Json::Number(text) => {
            match parse_integer(text.as_str()) {
                Some(n) => {
                    if n >= -2147483648 && n <= 2147483647 {
                        Some(Element::Int(n as i32))
                    } else {
                        Some(Element::Float(text.clone()))
                    }
                },
                None => Some(Element::Float(text.clone())),
            }
        },
        Json::String(text) => Some(Element::String(text.clone())),
        _ => None,
    }
}

/// Takes each value of a list for an element.
pub fn elements_of(items: &Vec<Json>) -> (elements: Option<Vec<Element>>)
    ensures
        elements.deep_view() == element_list_spec(items.deep_view()),
{
    let ghost models = items.deep_view();
    let ghost read = Seq::new(models.len(), |i: int| element_spec(models[i]));
    let mut elements: Vec<Element> = Vec::new();
    let mut i: usize = 0;
    while i < items.len()
        invariant
            i <= items.len(),
            models == items.deep_view(),
            read == Seq::new(models.len(), |i: int| element_spec(models[i])),
            elements@.len() == i,
            forall|k: int| 0 <= k < i ==> (#[trigger] read[k]) == Some(elements@[k].deep_view()),
        decreases items.len() - i,
    {
        match element_of(&items[i]) {
            Some(element) => {
                elements.push(element);
            },
            None => {
                assert(read[i as int] is None);
                return None;
            },
        }
        i += 1;
    }
    proof {
        lemma_all_present(read, elements.deep_view());
    }
    Some(elements)
}

/// Decodes a nullable array: `null` is absent; an array of integers,
/// fractions, strings and `null`s is the sequence of its elements, in order;
/// anything else fails.
pub fn from_homogeneous_array(value: &Json) -> (decoded: Result<
    Option<Vec<Element>>,
    ExpectedFormat,
>)
    ensures
        match decoded {
            Ok(elements) => array_strategy(value@) == Ok::<_, ExpectedFormat>(
                elements.deep_view(),
            ),
            Err(e) => array_strategy(value@) == Err::<Option<Seq<ElementModel>>, _>(e),
        },
{
    match value {
        Json::Null => Ok(None),
        Json::Array(items) => {
            proof {
                lemma_array_model(*items);
            }
            match elements_of(items) {
                Some(elements) => Ok(Some(elements)),
                None => Err(ExpectedFormat::ScalarArray),
            }
        },
        _ => Err(ExpectedFormat::ScalarArray),
    }
}

} // verus!
