//! The text of every diagnostic the pipeline can produce: the fixed prefix,
//! the field names of the wire format, and the message of each failure that
//! this crate composes itself.

use vstd::prelude::*;
use vstd::string::StringExecFns;

verus! {

/// The fixed prefix of every diagnostic, applied exactly once at the
/// pipeline boundary.
pub open spec fn diag_prefix() -> Seq<char> {
    "failed to parse config: "@
}

/// A complete diagnostic: the fixed prefix, then the underlying message.
pub open spec fn diagnostic(msg: Seq<char>) -> Seq<char> {
    diag_prefix() + msg
}

/// The wire name of the transfer-count field.
pub open spec fn transfers_field() -> Seq<char> {
    "nMaxTransfers"@
}

/// The wire name of the object-size field.
pub open spec fn size_field() -> Seq<char> {
    "nMaxObjectSize"@
}

/// The message reported when a required field is absent.
pub open spec fn missing_field_msg(name: Seq<char>) -> Seq<char> {
    "missing field `"@ + name + "`"@
}

/// The message reported when the transfer count is zero.
pub open spec fn zero_transfers_msg() -> Seq<char> {
    "nMaxTransfers cannot be zero"@
}

/// The message reported when the object-size ceiling is zero.
pub open spec fn zero_size_msg() -> Seq<char> {
    "nMaxObjectSize cannot be zero"@
}

/// Wraps an underlying failure message into the one diagnostic the caller
/// sees, prefix included.
pub fn compose_diagnostic(msg: &str) -> (r: String)
    ensures
        r@ == diagnostic(msg@),
{
    let mut out = String::from_str("failed to parse config: ");
    out.append(msg);
    out
}

/// Builds the missing-field message for a required field, under its wire
/// name.
pub fn missing_field_message(name: &str) -> (r: String)
    ensures
        r@ == missing_field_msg(name@),
{
    let mut out = String::from_str("missing field `");
    out.append(name);
    out.append("`");
    out
}

/// Every diagnostic starts with the fixed prefix, whatever the underlying
/// message was.
pub proof fn lemma_diagnostic_prefixed(msg: Seq<char>)
    ensures
        diagnostic(msg).subrange(0, diag_prefix().len() as int) == diag_prefix(),
        diagnostic(msg).skip(diag_prefix().len() as int) == msg,
{
    assert(diagnostic(msg).subrange(0, diag_prefix().len() as int) =~= diag_prefix());
    assert(diagnostic(msg).skip(diag_prefix().len() as int) =~= msg);
}

} // verus!
