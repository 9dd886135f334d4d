//! Reading the proving engine's output document and encoding its artifacts
//! for transport.
use vstd::prelude::*;
use base64::Engine;
use crate::error::ServiceError;
use crate::messages::ProofData;

verus! {

/// The standard base64 encoding (with padding) of the UTF-8 bytes of a text.
pub uninterp spec fn base64_of_text(s: Seq<char>) -> Seq<char>;

/// Whether a text is one JSON document.
pub uninterp spec fn json_parses(text: Seq<char>) -> bool;

/// The compact JSON text of the member `key` of the document `text`, when
/// the text is a JSON object whose member `key` is an array.
pub uninterp spec fn json_array_member_text(text: Seq<char>, key: Seq<char>) -> Option<Seq<char>>;

/// The contents of the member `key` of the document `text`, when the text is
/// a JSON object whose member `key` is a string.
pub uninterp spec fn json_string_member(text: Seq<char>, key: Seq<char>) -> Option<Seq<char>>;

/// Relies on serde_json::from_str: the parser's error message when the text
/// is not one JSON document, else `None`. An empty text holds no document.
#[verifier::external_body]
fn parse_error(text: &str) -> (r: Option<String>)
    ensures
        r is None <==> json_parses(text@),
        text@.len() == 0 ==> r is Some,
{
    match serde_json::from_str::<serde_json::Value>(text) {
        Ok(_) => None,
        Err(e) => Some(e.to_string()),
    }
}

/// Relies on serde_json::from_str, Value::get, Value::as_array and
/// serde_json::to_string: the compact JSON text of an array member.
#[verifier::external_body]
fn array_member_text(text: &str, key: &str) -> (r: Option<String>)
    ensures
        r is Some <==> json_array_member_text(text@, key@) is Some,
        r matches Some(t) ==> json_array_member_text(text@, key@) == Some(t@),
        !json_parses(text@) ==> r is None,
{
    let doc: serde_json::Value = serde_json::from_str(text).ok()?;
    let items = doc.get(key)?.as_array()?;
    serde_json::to_string(items).ok()
}

/// Relies on serde_json::from_str, Value::get and Value::as_str: the contents
/// of a string member.
#[verifier::external_body]
fn string_member(text: &str, key: &str) -> (r: Option<String>)
    ensures
        r is Some <==> json_string_member(text@, key@) is Some,
        r matches Some(t) ==> json_string_member(text@, key@) == Some(t@),
        !json_parses(text@) ==> r is None,
{
    let doc: serde_json::Value = serde_json::from_str(text).ok()?;
    Some(doc.get(key)?.as_str()?.to_string())
}

/// Relies on base64's `STANDARD.encode`: the padded standard encoding of the
/// text's bytes. Nothing encodes to nothing.
#[verifier::external_body]
fn encode_base64(text: &str) -> (r: String)
    ensures
        r@ == base64_of_text(text@),
        text@.len() == 0 ==> r@.len() == 0,
{
    base64::engine::general_purpose::STANDARD.encode(text.as_bytes())
}

/// The name of the proof member of the engine's output document.
pub open spec fn proof_field() -> Seq<char> {
    "proof"@
}

/// The name of the public-values member.
pub open spec fn public_values_field() -> Seq<char> {
    "publicValues"@
}

/// The name of the verification-key member.
pub open spec fn verification_key_field() -> Seq<char> {
    "riscvVKey"@
}

/// The text of an optional string.
pub open spec fn text_of(o: Option<String>) -> Option<Seq<char>> {
    match o {
        Some(s) => Some(s@),
        None => None,
    }
}

/// `r` is the result of assembling the artifacts from the three members of
/// the engine's output: each must be present (checked in the order proof,
/// public values, key) and is base64-encoded; the index is the job's.
pub open spec fn assembled(
    r: Result<ProofData, ServiceError>,
    proof: Option<Seq<char>>,
    public_values: Option<Seq<char>>,
    verification_key: Option<Seq<char>>,
    human_index: u32,
) -> bool {
    match (proof, public_values, verification_key) {
        (None, _, _) => r matches Err(ServiceError::ArtifactMissing(f)) && f@ == proof_field(),
        (Some(_), None, _) => r matches Err(ServiceError::ArtifactMissing(f)) && f@
            == public_values_field(),
        (Some(_), Some(_), None) => r matches Err(ServiceError::ArtifactMissing(f)) && f@
            == verification_key_field(),
        (Some(p), Some(pv), Some(vk)) => r matches Ok(d) && d.proof@ == base64_of_text(p)
            && d.public_inputs@ == base64_of_text(pv) && d.verification_key@ == base64_of_text(vk)
            && d.human_index == human_index,
    }
}

/// The proof artifacts from the three members of the engine's output.
pub fn assemble_proof_data(
    proof: Option<String>,
    public_values: Option<String>,
    verification_key: Option<String>,
    human_index: u32,
) -> (r: Result<ProofData, ServiceError>)
    ensures
        assembled(r, text_of(proof), text_of(public_values), text_of(verification_key), human_index),
{
    match (proof, public_values, verification_key) {
        (None, _, _) => Err(ServiceError::ArtifactMissing(String::from_str("proof"))),
        (Some(_), None, _) => Err(ServiceError::ArtifactMissing(String::from_str("publicValues"))),
        (Some(_), Some(_), None) => Err(
            ServiceError::ArtifactMissing(String::from_str("riscvVKey")),
        ),
        (Some(p), Some(pv), Some(vk)) => Ok(
            ProofData {
                proof: encode_base64(p.as_str()),
                public_inputs: encode_base64(pv.as_str()),
                verification_key: encode_base64(vk.as_str()),
                human_index,
            },
        ),
    }
}

/// `r` is the result of extracting the artifacts from the text of the
/// engine's output document: a parse error when the text is no JSON
/// document, else the artifacts assembled from its proof array (as compact
/// JSON text), its public values and its verification key.
pub open spec fn extracted(r: Result<ProofData, ServiceError>, text: Seq<char>, human_index: u32) -> bool {
    if json_parses(text) {
        assembled(
            r,
            json_array_member_text(text, proof_field()),
            json_string_member(text, public_values_field()),
            json_string_member(text, verification_key_field()),
            human_index,
        )
    } else {
        r matches Err(ServiceError::ArtifactParse(_))
    }
}

/// The proof artifacts from the text of the engine's output document, each
/// base64-encoded.
pub fn extract_proof_data(text: &str, human_index: u32) -> (r: Result<ProofData, ServiceError>)
    ensures
        extracted(r, text@, human_index),
        text@.len() == 0 ==> (r matches Err(ServiceError::ArtifactParse(_))),
{
    match parse_error(text) {
        Some(msg) => Err(ServiceError::ArtifactParse(msg)),
        None => {
            let proof = array_member_text(text, "proof");
            let public_values = string_member(text, "publicValues");
            let verification_key = string_member(text, "riscvVKey");
            assemble_proof_data(proof, public_values, verification_key, human_index)
        },
    }
}

} // verus!
