//! JSON classification of the body text, through serde_json. The crate
//! treats "parses as JSON" and "pretty-printed form" as named, opaque
//! functions of the text; everything built on top of them is verified.

use vstd::prelude::*;

verus! {

/// Whether a text parses as a JSON document under serde_json's grammar.
pub uninterp spec fn json_ok(s: Seq<char>) -> bool;

/// The pretty-printed form of a text that parses as JSON; a function of the
/// text alone.
pub uninterp spec fn pretty_json(s: Seq<char>) -> Seq<char>;

/// Relies on `serde_json::from_str::<Value>`, which returns `Ok` exactly on
/// texts that parse as JSON, and on `serde_json::Error::line`/`column`/
/// `to_string` for the location and message of the first parse failure.
#[verifier::external_body]
pub(crate) fn json_error_location(s: &str) -> (r: Option<(usize, usize, String)>)
    ensures
        r is None <==> json_ok(s@),
{
    match serde_json::from_str::<serde_json::Value>(s) {
        Ok(_) => None,
        Err(e) => Some((e.line(), e.column(), e.to_string())),
    }
}

/// Relies on `serde_json::from_str::<Value>` and
/// `serde_json::to_string_pretty`: a text that parses as JSON is replaced by
/// its pretty-printed form, a function of the text alone; any other text is
/// returned unchanged.
#[verifier::external_body]
pub(crate) fn prettified_json(s: &str) -> (r: String)
    ensures
        r@ == pretty_json(s@),
        !json_ok(s@) ==> r@ == s@,
{
    match serde_json::from_str::<serde_json::Value>(s) {
        Ok(v) => serde_json::to_string_pretty(&v).unwrap_or_else(|_| s.to_string()),
        Err(_) => s.to_string(),
    }
}

} // verus!
