use vstd::prelude::*;

use crate::ports::http::suggestions::{item_views, JsonItem, StringOrStrings};

verus! {

/// `serde_json::Error`, carried through as an opaque value.
#[verifier::external_type_specification]
#[verifier::external_body]
pub struct ExJsonError(serde_json::Error);

/// The compact JSON text of the array whose elements are the given items,
/// a text as a JSON string and a list as an array of JSON strings; `None`
/// where the encoder gives no text.
pub uninterp spec fn json_array_text(items: Seq<JsonItem>) -> Option<Seq<char>>;

/// `serde_json::to_string`, applied to the items as an array of JSON values
/// (`serde_json::Value`, built with its `From` conversions for a string
/// slice and for a slice of strings). The text depends on the items alone.
#[verifier::external_body]
pub(crate) fn to_json_array(items: &Vec<StringOrStrings>) -> (encoded: Result<
    String,
    serde_json::Error,
>)
    ensures
        match encoded {
            Ok(text) => json_array_text(item_views(items@)) == Some(text@),
            Err(_) => json_array_text(item_views(items@)) is None,
        },
{
    let values: Vec<serde_json::Value> = items.iter().map(
        |item|
            match item {
                StringOrStrings::String(text) => serde_json::Value::from(text.as_str()),
                StringOrStrings::Strings(list) => serde_json::Value::from(list.as_slice()),
            },
    ).collect();
    serde_json::to_string(&values)
}

} // verus!
