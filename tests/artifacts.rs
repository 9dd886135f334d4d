use human_index_prover::artifacts::{assemble_proof_data, extract_proof_data};
use human_index_prover::error::ServiceError;

#[test]
fn extracts_and_encodes_all_three_artifacts() {
    let text = r#"{"proof": [1, 2], "publicValues": "abc", "riscvVKey": "k", "other": 5}"#;
    let d = extract_proof_data(text, 242).unwrap();
    assert_eq!(d.proof, "WzEsMl0=");
    assert_eq!(d.public_inputs, "YWJj");
    assert_eq!(d.verification_key, "aw==");
    assert_eq!(d.human_index, 242);
}

#[test]
fn missing_members_are_named() {
    let no_proof = r#"{"publicValues": "abc", "riscvVKey": "k"}"#;
    assert!(matches!(extract_proof_data(no_proof, 1), Err(ServiceError::ArtifactMissing(f)) if f == "proof"));
    let proof_not_array = r#"{"proof": "x", "publicValues": "abc", "riscvVKey": "k"}"#;
    assert!(matches!(extract_proof_data(proof_not_array, 1), Err(ServiceError::ArtifactMissing(f)) if f == "proof"));
    let no_values = r#"{"proof": [], "riscvVKey": "k"}"#;
    assert!(matches!(extract_proof_data(no_values, 1), Err(ServiceError::ArtifactMissing(f)) if f == "publicValues"));
    let key_not_text = r#"{"proof": [], "publicValues": "abc", "riscvVKey": 3}"#;
    assert!(matches!(extract_proof_data(key_not_text, 1), Err(ServiceError::ArtifactMissing(f)) if f == "riscvVKey"));
}

#[test]
fn unreadable_document_is_a_parse_error() {
    assert!(matches!(extract_proof_data("", 1), Err(ServiceError::ArtifactParse(_))));
    assert!(matches!(extract_proof_data("{not json", 1), Err(ServiceError::ArtifactParse(_))));
    let trailing = r#"{"proof": [], "publicValues": "a", "riscvVKey": "k"} extra"#;
    assert!(matches!(extract_proof_data(trailing, 1), Err(ServiceError::ArtifactParse(_))));
    assert!(matches!(extract_proof_data("[1, 2]", 1), Err(ServiceError::ArtifactMissing(_))));
}

#[test]
fn assemble_checks_in_order_and_encodes() {
    let r = assemble_proof_data(None, None, None, 0);
    assert!(matches!(r, Err(ServiceError::ArtifactMissing(f)) if f == "proof"));
    let r = assemble_proof_data(Some("p".into()), None, None, 0);
    assert!(matches!(r, Err(ServiceError::ArtifactMissing(f)) if f == "publicValues"));
    let r = assemble_proof_data(Some("p".into()), Some("v".into()), None, 0);
    assert!(matches!(r, Err(ServiceError::ArtifactMissing(f)) if f == "riscvVKey"));
    let d = assemble_proof_data(Some("".into()), Some("hello".into()), Some("ab".into()), 7).unwrap();
    assert_eq!(d.proof, "");
    assert_eq!(d.public_inputs, "aGVsbG8=");
    assert_eq!(d.verification_key, "YWI=");
    assert_eq!(d.human_index, 7);
}
