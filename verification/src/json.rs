//! The trusted boundary around serde_json: the structural parse of a text
//! into a JSON document, and the lookup of one named numeric field in that
//! document. Everything the rest of the crate knows about these calls is
//! stated here, over uninterpreted names for their outcomes.

use vstd::prelude::*;

verus! {

#[verifier::external_type_specification]
#[verifier::external_body]
pub struct ExValue(serde_json::Value);

/// Whether serde_json accepts the text `s` as a JSON document.
pub uninterp spec fn json_wf(s: Seq<char>) -> bool;

/// The message of the syntax error that serde_json reports for a text it
/// rejects, position information included.
pub uninterp spec fn json_syntax_msg(s: Seq<char>) -> Seq<char>;

/// The field `name` of the document `v`, read as a `u32`: `None` when the
/// document is not an object or lacks the field, `Some(Err(m))` with serde's
/// diagnostic when the field holds anything but an integer in `u32` range,
/// and `Some(Ok(n))` otherwise.
pub uninterp spec fn u32_field_of(v: serde_json::Value, name: Seq<char>) -> Option<
    Result<u32, Seq<char>>,
>;

/// The field `name` of the document `v`, read as a `u64`, as `u32_field_of`
/// reads it as a `u32`.
pub uninterp spec fn u64_field_of(v: serde_json::Value, name: Seq<char>) -> Option<
    Result<u64, Seq<char>>,
>;

/// The field `name` of the text `s`, read as a `u32`: what `u32_field_of`
/// says of the document that `s` parses into.
pub uninterp spec fn u32_field_in(s: Seq<char>, name: Seq<char>) -> Option<
    Result<u32, Seq<char>>,
>;

/// The field `name` of the text `s`, read as a `u64`: what `u64_field_of`
/// says of the document that `s` parses into.
pub uninterp spec fn u64_field_in(s: Seq<char>, name: Seq<char>) -> Option<
    Result<u64, Seq<char>>,
>;

/// Relies on serde_json::from_str::<serde_json::Value>, whose outcome is a
/// function of the text alone, and on serde_json::Error::to_string for the
/// message of a rejected text.
#[verifier::external_body]
pub(crate) fn parse_document(s: &str) -> (r: Result<serde_json::Value, String>)
    ensures
        r is Ok <==> json_wf(s@),
        r matches Err(m) ==> m@ == json_syntax_msg(s@),
        r matches Ok(v) ==> forall|n: Seq<char>| #[trigger] u32_field_of(v, n) == u32_field_in(
            s@,
            n,
        ),
        r matches Ok(v) ==> forall|n: Seq<char>| #[trigger] u64_field_of(v, n) == u64_field_in(
            s@,
            n,
        ),
{
    match serde_json::from_str::<serde_json::Value>(s) {
        Ok(v) => Ok(v),
        Err(e) => Err(e.to_string()),
    }
}

/// Relies on serde_json::Value::get (`None` when the document is not an
/// object or has no such field), serde_json::from_value::<u32> (an integer in
/// `u32` range, or serde's diagnostic), and serde_json::Error::to_string; the
/// outcome is a function of the document and the field name alone.
#[verifier::external_body]
pub(crate) fn probe_u32_field(v: &serde_json::Value, name: &str) -> (r: Option<
    Result<u32, String>,
>)
    ensures
        r is None <==> u32_field_of(*v, name@) is None,
        r matches Some(Ok(n)) ==> u32_field_of(*v, name@) == Some(
            Result::<u32, Seq<char>>::Ok(n),
        ),
        u32_field_of(*v, name@) matches Some(Ok(n)) ==> r == Some(Result::<u32, String>::Ok(n)),
        r matches Some(Err(m)) ==> (u32_field_of(*v, name@) matches Some(Err(d)) && m@ == d),
{
    match v.get(name) {
        None => None,
        Some(w) => match serde_json::from_value::<u32>(w.clone()) {
            Ok(n) => Some(Ok(n)),
            Err(e) => Some(Err(e.to_string())),
        },
    }
}

/// Relies on serde_json::Value::get, serde_json::from_value::<u64>, and
/// serde_json::Error::to_string, exactly as `probe_u32_field` does for `u32`.
#[verifier::external_body]
pub(crate) fn probe_u64_field(v: &serde_json::Value, name: &str) -> (r: Option<
    Result<u64, String>,
>)
    ensures
        r is None <==> u64_field_of(*v, name@) is None,
        r matches Some(Ok(n)) ==> u64_field_of(*v, name@) == Some(
            Result::<u64, Seq<char>>::Ok(n),
        ),
        u64_field_of(*v, name@) matches Some(Ok(n)) ==> r == Some(Result::<u64, String>::Ok(n)),
        r matches Some(Err(m)) ==> (u64_field_of(*v, name@) matches Some(Err(d)) && m@ == d),
{
    match v.get(name) {
        None => None,
        Some(w) => match serde_json::from_value::<u64>(w.clone()) {
            Ok(n) => Some(Ok(n)),
            Err(e) => Some(Err(e.to_string())),
        },
    }
}

} // verus!
