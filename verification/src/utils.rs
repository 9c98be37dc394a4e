//! Generation of record definitions from column lists, and the decode
//! strategies that the generated records refer to.

use vstd::prelude::*;
use vstd::string::*;
use crate::explain::Output;
use crate::record::{
    distinct_symbols, generate_record, record_spec, render_spec, IdentifierCollisionError,
};

pub mod array;
pub mod binary;
pub mod dates;
pub mod object;
pub mod scalar;

verus! {

/// The uppercase mapping of a character, as `char::to_uppercase` of the
/// standard library yields it: one or more characters.
pub uninterp spec fn uppercase_of(c: char) -> Seq<char>;

/// Calls `char::to_uppercase` and collects what it yields.
///
/// Trusted: the result is the standard library's uppercase mapping of `c`,
/// which holds at least one character.
#[verifier::external_body]
fn to_uppercase(c: char) -> (upper: String)
    ensures
        upper@ == uppercase_of(c),
        upper@.len() >= 1,
{
    c.to_uppercase().collect()
}

/// `s` with its first character dropped and `head` put in its place; `head`
/// alone where `s` is empty.
pub open spec fn with_head_spec(head: Seq<char>, s: Seq<char>) -> Seq<char> {
    if s.len() == 0 {
        head
    } else {
        head + s.skip(1)
    }
}

/// Puts `head` in the place of the first character of `s`.
pub fn with_head(head: &str, s: &str) -> (out: String)
    ensures
        out@ == with_head_spec(head@, s@),
{
    let n = s.unicode_len();
    let mut out = String::from_str(head);
    if n > 0 {
        let rest = s.substring_char(1, n);
        out.append(rest);
    }
    out
}

/// `s` with its first character replaced by that character's uppercase
/// mapping.
pub open spec fn capitalize_first_spec(s: Seq<char>) -> Seq<char> {
    if s.len() == 0 {
        s
    } else {
        with_head_spec(uppercase_of(s[0]), s)
    }
}

/// Capitalizes the first character of `s` and keeps the rest as it is.
///
/// The empty string stays empty. A first character whose uppercase mapping
/// holds several characters is replaced by all of them.
pub fn capitalize_first(s: &str) -> (out: String)
    ensures
        out@ == capitalize_first_spec(s@),
        s@.len() > 0 ==> out@.len() >= s@.len(),
{
    if s.unicode_len() == 0 {
        String::from_str(s)
    } else {
        let upper = to_uppercase(s.get_char(0));
        with_head(upper.as_str(), s)
    }
}

/// Generates the definition of the record for a column list, as source
/// text: one member per column, in column order, under the name derived from
/// `name_seed`.
///
/// Fails, with nothing generated, exactly when two columns share a symbol.
pub fn generate_struct(root_columns: &[Output], name_seed: &str) -> (generated: Result<
    String,
    IdentifierCollisionError,
>)
    ensures
        match generated {
            Ok(text) => distinct_symbols(root_columns.deep_view()) && text@ == render_spec(
                record_spec(name_seed@, root_columns.deep_view()),
            ),
            Err(e) => e.names_first_collision(root_columns.deep_view()),
        },
{
    match generate_record(name_seed, root_columns) {
        Ok(record) => Ok(record.render()),
        Err(e) => Err(e),
    }
}

/// The imports that a module with a generated record opens with.
pub const MODULE_IMPORTS: &'static str =
    "use serde::Deserialize;\nuse trino_codegen::utils::dates;\nuse trino_codegen::utils::binary;\nuse trino_codegen::utils::array;\n";

/// Generates the text of a module that holds the record for a column list:
/// the imports that the record's members refer to, then the record.
///
/// Fails, with nothing generated, exactly when two columns share a symbol.
pub fn generate_module(root_columns: &[Output], name_seed: &str) -> (generated: Result<
    String,
    IdentifierCollisionError,
>)
    ensures
        match generated {
            Ok(text) => distinct_symbols(root_columns.deep_view()) && text@ == MODULE_IMPORTS@
                + render_spec(record_spec(name_seed@, root_columns.deep_view())),
            Err(e) => e.names_first_collision(root_columns.deep_view()),
        },
{
    match generate_struct(root_columns, name_seed) {
        Ok(definition) => {
            let mut text = String::from_str(MODULE_IMPORTS);
            text.append(definition.as_str());
            Ok(text)
        },
        Err(e) => Err(e),
    }
}

} // verus!
