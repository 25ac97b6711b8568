use vstd::prelude::*;

verus! {

/// The JSON string literal — opening quote, escaped characters, closing
/// quote — that a standard JSON serializer produces for the given text.
/// The encoding depends on the characters alone; it is named here rather
/// than spelled out, and the record layout below is stated over the name.
pub uninterp spec fn json_string_of(s: Seq<char>) -> Seq<char>;

/// Relies on `serde_json::to_string` on `&str`: it returns the JSON string
/// literal for the text, quoted and escaped. On a `&str` this serializer
/// cannot fail — its writer is an in-memory buffer that never reports an
/// error and the string serializer itself never refuses an input — so the
/// error arm below is unreachable.
#[verifier::external_body]
pub fn json_quote(s: &str) -> (r: String)
    ensures
        r@ == json_string_of(s@),
{
    match serde_json::to_string(s) {
        Ok(q) => q,
        Err(_) => String::new(),
    }
}

} // verus!
