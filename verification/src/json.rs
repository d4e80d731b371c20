//! The router's narrow view of the JSON library: parsing a candidate
//! document, and extracting or re-rendering its content as text. Grammar
//! payloads and tool-call outputs pass through these.

use vstd::prelude::*;

verus! {

/// Declares the JSON library's value type so that parsed documents can
/// pass through signatures; the value itself stays opaque.
#[verifier::external_type_specification]
#[verifier::external_body]
pub struct ExValue(serde_json::Value);

/// Whether a text is a well-formed JSON document, as the JSON library
/// decides it: a function of the text alone.
pub uninterp spec fn json_parses(s: Seq<char>) -> bool;

/// The rendered `function` member of the JSON document written in a text,
/// when the document is an object that has one: a function of the text
/// alone.
pub uninterp spec fn json_function_member(s: Seq<char>) -> Option<Seq<char>>;

/// The canonical rendering of the JSON document written in a text: a
/// function of the text alone.
pub uninterp spec fn json_rendered(s: Seq<char>) -> Seq<char>;

/// Relies on `serde_json::from_str::<Value>`: it returns `Ok` exactly on
/// well-formed JSON documents, deterministically in the text.
#[verifier::external_body]
pub(crate) fn json_parse(s: &str) -> (r: Option<serde_json::Value>)
    ensures
        r is Some <==> json_parses(s@),
{
    serde_json::from_str(s).ok()
}

/// Relies on `serde_json::from_str::<Value>`, `Value::get` and
/// `serde_json::to_string` composed: parses the document, reads its
/// `function` member, and renders the member back to text. Rendering a
/// `Value` cannot fail, so the result is `None` exactly when the document
/// has no such member.
#[verifier::external_body]
pub(crate) fn extract_function_member(text: &str) -> (r: Option<String>)
    requires
        json_parses(text@),
    ensures
        r is Some <==> json_function_member(text@) is Some,
        r matches Some(m) ==> m@ == json_function_member(text@)->0,
{
    let parsed: serde_json::Value = serde_json::from_str(text).ok()?;
    let member = parsed.get("function")?;
    serde_json::to_string(member).ok()
}

/// Relies on `serde_json::from_str::<Value>` and `serde_json::to_string`
/// composed: the canonical rendering of the document written in the text.
/// Rendering a `Value` cannot fail, since its maps only ever carry string
/// keys.
#[verifier::external_body]
pub(crate) fn render_document(text: &str) -> (r: String)
    requires
        json_parses(text@),
    ensures
        r@ == json_rendered(text@),
{
    serde_json::from_str::<serde_json::Value>(text)
        .ok()
        .and_then(|v| serde_json::to_string(&v).ok())
        .unwrap_or_default()
}

} // verus!
