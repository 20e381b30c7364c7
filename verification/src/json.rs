//! JSON text: quoted strings and arrays.

use vstd::prelude::*;
use vstd::string::StringExecFns;

verus! {

/// The JSON string literal that `serde_json` writes for the text `s`: `s`
/// between double quotes, with the characters that JSON cannot hold inside a
/// string written as escapes.
pub uninterp spec fn json_string(s: Seq<char>) -> Seq<char>;

/// `serde_json::to_string` on a string slice. The contract names the text it
/// returns `json_string`; it claims that the same characters always give the
/// same text. Serialising a string into memory has no way to fail, so the
/// result is always there to unwrap.
#[verifier::external_body]
pub(crate) fn quote(s: &str) -> (text: String)
    ensures
        text@ == json_string(s@),
{
    serde_json::to_string(s).unwrap()
}

/// The items of `items` in order, with a comma between neighbours.
pub open spec fn comma_separated(items: Seq<Seq<char>>) -> Seq<char>
    decreases items.len(),
{
    if items.len() == 0 {
        Seq::empty()
    } else if items.len() == 1 {
        items[0]
    } else {
        comma_separated(items.drop_last()) + ","@ + items.last()
    }
}

/// The JSON array whose elements are the JSON texts `items`.
pub open spec fn array_frame(items: Seq<Seq<char>>) -> Seq<char> {
    "["@ + comma_separated(items) + "]"@
}

/// The views of the strings of `items`.
pub open spec fn texts_of(items: Seq<String>) -> Seq<Seq<char>> {
    items.map_values(|s: String| s@)
}

/// Writes the JSON array whose elements are the JSON texts `items`.
pub fn frame_array(items: &Vec<String>) -> (text: String)
    ensures
        text@ == array_frame(texts_of(items@)),
{
    let ghost all = texts_of(items@);
    let mut text = String::new();
    text.append("[");
    let mut i: usize = 0;
    while i < items.len()
        invariant
            i <= items.len(),
            all == texts_of(items@),
            text@ == "["@ + comma_separated(all.take(i as int)),
        decreases items.len() - i,
    {
        if i > 0 {
            text.append(",");
        }
        text.append(items[i].as_str());
        proof {
            let before = all.take(i as int);
            let now = all.take(i + 1);
            assert(now.drop_last() == before);
            assert(now.last() == items@[i as int]@);
        }
        i += 1;
    }
    assert(all.take(items.len() as int) == all);
    text.append("]");
    text
}

} // verus!
