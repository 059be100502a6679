use zkmb::codec::Artifact;
use zkmb::codec::ArtifactKind;
use zkmb::codec::CodecError;
use zkmb::codec::decode;
use zkmb::codec::encode;

#[test]
fn round_trip_every_artifact_kind() {
    let kinds = vec![
        ArtifactKind::ProverKey,
        ArtifactKind::VerifierKey,
        ArtifactKind::Generators,
        ArtifactKind::Instance,
        ArtifactKind::Proof,
    ];
    for kind in kinds {
        let artifact = Artifact { kind, payload: vec![7, 0, 255, 42, 1] };
        let bytes = encode(&artifact);
        let back = decode(&bytes).unwrap();
        assert_eq!(back, artifact);
        assert_eq!(back.payload.len(), artifact.payload.len());
    }
}

#[test]
fn round_trip_empty_payload() {
    let artifact = Artifact { kind: ArtifactKind::VerifierKey, payload: vec![] };
    let bytes = encode(&artifact);
    assert_eq!(bytes.len(), 9);
    assert_eq!(decode(&bytes).unwrap(), artifact);
}

#[test]
fn frame_layout_is_tag_length_payload() {
    let artifact = Artifact { kind: ArtifactKind::Proof, payload: vec![9, 8, 7] };
    let bytes = encode(&artifact);
    assert_eq!(bytes, vec![5, 3, 0, 0, 0, 0, 0, 0, 0, 9, 8, 7]);
}

#[test]
fn tampered_payload_never_passes_for_the_original() {
    let artifact = Artifact { kind: ArtifactKind::Proof, payload: vec![1, 2, 3, 4] };
    let bytes = encode(&artifact);
    for i in 0..bytes.len() {
        let mut tampered = bytes.clone();
        tampered[i] ^= 0x01;
        match decode(&tampered) {
            Ok(other) => assert_ne!(other, artifact),
            Err(_) => {}
        }
    }
}

#[test]
fn unknown_tag_is_reported() {
    let artifact = Artifact { kind: ArtifactKind::Generators, payload: vec![1] };
    let mut bytes = encode(&artifact);
    bytes[0] = 0;
    assert_eq!(decode(&bytes), Err(CodecError::UnknownTag));
    bytes[0] = 6;
    assert_eq!(decode(&bytes), Err(CodecError::UnknownTag));
}

#[test]
fn truncated_header_is_reported() {
    let artifact = Artifact { kind: ArtifactKind::Instance, payload: vec![1, 2] };
    let bytes = encode(&artifact);
    let truncated: Vec<u8> = bytes[..8].to_vec();
    assert_eq!(decode(&truncated), Err(CodecError::Truncated));
    assert_eq!(decode(&Vec::new()), Err(CodecError::Truncated));
}

#[test]
fn size_mismatch_is_reported() {
    let artifact = Artifact { kind: ArtifactKind::Instance, payload: vec![1, 2, 3] };
    let bytes = encode(&artifact);
    let shorter: Vec<u8> = bytes[..bytes.len() - 1].to_vec();
    assert_eq!(decode(&shorter), Err(CodecError::LengthMismatch));
    let mut longer = bytes.clone();
    longer.push(0);
    assert_eq!(decode(&longer), Err(CodecError::LengthMismatch));
    let mut wrong_length = bytes;
    wrong_length[1] = 200;
    assert_eq!(decode(&wrong_length), Err(CodecError::LengthMismatch));
}

#[test]
fn kinds_are_distinguished_on_read() {
    let prover = Artifact { kind: ArtifactKind::ProverKey, payload: vec![1, 2, 3] };
    let verifier = Artifact { kind: ArtifactKind::VerifierKey, payload: vec![1, 2, 3] };
    let decoded = decode(&encode(&prover)).unwrap();
    assert_eq!(decoded.kind, ArtifactKind::ProverKey);
    assert_ne!(decoded, verifier);
}

#[test]
fn long_payload_length_crosses_one_byte() {
    let artifact = Artifact { kind: ArtifactKind::ProverKey, payload: vec![0xAB; 300] };
    let bytes = encode(&artifact);
    assert_eq!(bytes.len(), 309);
    assert_eq!(bytes[1], 44);
    assert_eq!(bytes[2], 1);
    assert_eq!(decode(&bytes).unwrap(), artifact);
}
