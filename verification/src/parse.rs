//! The structural deserializer and the pipeline orchestrator.
//!
//! The deserializer consults an explicit field-name table — the transfer
//! count under `nMaxTransfers`, then the object size under `nMaxObjectSize`
//! — and turns a JSON document into a candidate configuration or the message
//! of the first field that is absent or mistyped. The orchestrator sequences
//! parse, deserialize and validate, and wraps any failure into the one
//! prefixed diagnostic the caller sees.

use crate::json::{
    json_syntax_msg, json_wf, parse_document, probe_u32_field, probe_u64_field, u32_field_in,
    u32_field_of, u64_field_in, u64_field_of,
};
use crate::messages::{
    compose_diagnostic, diag_prefix, diagnostic, missing_field_message, missing_field_msg,
    size_field, transfers_field, zero_size_msg, zero_transfers_msg,
};
use crate::validate::{validate_config, validation_outcome};
use crate::{config_valid, MoverConfig};
use vstd::prelude::*;

verus! {

/// What the structural deserializer decides for a document: a candidate
/// holding the two counts, or the message for the first entry of the field
/// table that is absent or mistyped.
pub open spec fn structural_outcome(v: serde_json::Value) -> Result<MoverConfig, Seq<char>> {
    match u32_field_of(v, transfers_field()) {
        None => Err(missing_field_msg(transfers_field())),
        Some(Err(d)) => Err(d),
        Some(Ok(t)) => match u64_field_of(v, size_field()) {
            None => Err(missing_field_msg(size_field())),
            Some(Err(d)) => Err(d),
            Some(Ok(z)) => Ok(MoverConfig { mc_nmax_transfers: t, mc_nmax_object_size: z }),
        },
    }
}

/// `structural_outcome`, stated of the text rather than of the document it
/// parses into.
pub open spec fn structural_outcome_in(s: Seq<char>) -> Result<MoverConfig, Seq<char>> {
    match u32_field_in(s, transfers_field()) {
        None => Err(missing_field_msg(transfers_field())),
        Some(Err(d)) => Err(d),
        Some(Ok(t)) => match u64_field_in(s, size_field()) {
            None => Err(missing_field_msg(size_field())),
            Some(Err(d)) => Err(d),
            Some(Ok(z)) => Ok(MoverConfig { mc_nmax_transfers: t, mc_nmax_object_size: z }),
        },
    }
}

/// What the whole pipeline decides for an input text: the validated
/// configuration, or a diagnostic carrying the fixed prefix and the message
/// of the stage that failed first.
pub open spec fn pipeline_outcome(s: Seq<char>) -> Result<MoverConfig, Seq<char>> {
    if !json_wf(s) {
        Err(diagnostic(json_syntax_msg(s)))
    } else {
        match structural_outcome_in(s) {
            Err(d) => Err(diagnostic(d)),
            Ok(c) => match validation_outcome(c) {
                Err(d) => Err(diagnostic(d)),
                Ok(k) => Ok(k),
            },
        }
    }
}

/// Reads the two required fields of the document through the field-name
/// table, in declaration order, and returns the candidate or the message of
/// the first failure.
pub fn deserialize_config(v: &serde_json::Value) -> (r: Result<MoverConfig, String>)
    ensures
        r matches Ok(c) ==> structural_outcome(*v) == Result::<MoverConfig, Seq<char>>::Ok(c),
        r matches Err(m) ==> (structural_outcome(*v) matches Err(d) && m@ == d),
{
    match probe_u32_field(v, "nMaxTransfers") {
        None => Err(missing_field_message("nMaxTransfers")),
        Some(Err(m)) => Err(m),
        Some(Ok(t)) => match probe_u64_field(v, "nMaxObjectSize") {
            None => Err(missing_field_message("nMaxObjectSize")),
            Some(Err(m)) => Err(m),
            Some(Ok(z)) => Ok(MoverConfig { mc_nmax_transfers: t, mc_nmax_object_size: z }),
        },
    }
}

/// The pipeline: parse the text, read the two fields, check the semantic
/// rules, and wrap any failure into the one prefixed diagnostic. The result
/// is all-or-nothing — a configuration with both counts positive, or the
/// diagnostic of the stage that failed first.
pub fn parse_config(input: &str) -> (r: Result<MoverConfig, String>)
    ensures
        r is Ok <==> pipeline_outcome(input@) is Ok,
        r matches Ok(c) ==> pipeline_outcome(input@) == Result::<MoverConfig, Seq<char>>::Ok(c),
        r matches Err(m) ==> (pipeline_outcome(input@) matches Err(d) && m@ == d),
        r matches Ok(c) ==> config_valid(c),
{
    let doc = match parse_document(input) {
        Err(m) => {
            return Err(compose_diagnostic(m.as_str()));
        },
        Ok(v) => v,
    };
    proof {
        assert(u32_field_of(doc, transfers_field()) == u32_field_in(input@, transfers_field()));
        assert(u64_field_of(doc, size_field()) == u64_field_in(input@, size_field()));
    }
    let candidate = match deserialize_config(&doc) {
        Err(m) => {
            return Err(compose_diagnostic(m.as_str()));
        },
        Ok(c) => c,
    };
    match validate_config(candidate) {
        Err(m) => Err(compose_diagnostic(m.as_str())),
        Ok(k) => Ok(k),
    }
}

/// Round-trip identity: any input that parses with both fields present as
/// non-zero numbers succeeds, and the two counts of the result equal the
/// input values exactly.
pub proof fn lemma_valid_input_identity(s: Seq<char>, t: u32, z: u64)
    requires
        json_wf(s),
        u32_field_in(s, transfers_field()) == Some(Result::<u32, Seq<char>>::Ok(t)),
        u64_field_in(s, size_field()) == Some(Result::<u64, Seq<char>>::Ok(z)),
        t != 0,
        z != 0,
    ensures
        pipeline_outcome(s) == Result::<MoverConfig, Seq<char>>::Ok(
            MoverConfig { mc_nmax_transfers: t, mc_nmax_object_size: z },
        ),
{
}

/// Every failure of the pipeline carries the fixed prefix, applied exactly
/// once: stripping it leaves the underlying stage's message.
pub proof fn lemma_failure_prefixed(s: Seq<char>)
    requires
        pipeline_outcome(s) is Err,
    ensures
        pipeline_outcome(s)->Err_0.subrange(0, diag_prefix().len() as int) == diag_prefix(),
{
    if !json_wf(s) {
        crate::messages::lemma_diagnostic_prefixed(json_syntax_msg(s));
    } else {
        match structural_outcome_in(s) {
            Err(d) => crate::messages::lemma_diagnostic_prefixed(d),
            Ok(c) => {
                match validation_outcome(c) {
                    Err(d) => crate::messages::lemma_diagnostic_prefixed(d),
                    Ok(_) => {},
                }
            },
        }
    }
}

/// When the text parses but its transfer-count field is absent, the pipeline
/// reports exactly the missing-field diagnostic for `nMaxTransfers`, whatever
/// the rest of the document holds.
pub proof fn lemma_missing_transfers_reported(s: Seq<char>)
    requires
        json_wf(s),
        u32_field_in(s, transfers_field()) is None,
    ensures
        pipeline_outcome(s) == Result::<MoverConfig, Seq<char>>::Err(
            diagnostic(missing_field_msg(transfers_field())),
        ),
{
}

/// When the text parses with a well-typed transfer count but no object-size
/// field, the pipeline reports exactly the missing-field diagnostic for
/// `nMaxObjectSize`.
pub proof fn lemma_missing_size_reported(s: Seq<char>, t: u32)
    requires
        json_wf(s),
        u32_field_in(s, transfers_field()) == Some(Result::<u32, Seq<char>>::Ok(t)),
        u64_field_in(s, size_field()) is None,
    ensures
        pipeline_outcome(s) == Result::<MoverConfig, Seq<char>>::Err(
            diagnostic(missing_field_msg(size_field())),
        ),
{
}

/// When the transfer count in the input is zero, the transfer-count rule is
/// the one reported, whatever the object size holds: the validator
/// short-circuits in declaration order.
pub proof fn lemma_zero_transfers_reported_first(s: Seq<char>, z: u64)
    requires
        json_wf(s),
        u32_field_in(s, transfers_field()) == Some(Result::<u32, Seq<char>>::Ok(0u32)),
        u64_field_in(s, size_field()) == Some(Result::<u64, Seq<char>>::Ok(z)),
    ensures
        pipeline_outcome(s) == Result::<MoverConfig, Seq<char>>::Err(
            diagnostic(zero_transfers_msg()),
        ),
{
}

/// When the transfer count is positive but the object size in the input is
/// zero, the object-size rule is the one reported.
pub proof fn lemma_zero_size_reported(s: Seq<char>, t: u32)
    requires
        json_wf(s),
        t != 0,
        u32_field_in(s, transfers_field()) == Some(Result::<u32, Seq<char>>::Ok(t)),
        u64_field_in(s, size_field()) == Some(Result::<u64, Seq<char>>::Ok(0u64)),
    ensures
        pipeline_outcome(s) == Result::<MoverConfig, Seq<char>>::Err(diagnostic(zero_size_msg())),
{
}

} // verus!
