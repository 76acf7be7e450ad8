use hypatia_ca::Error;
use hypatia_ca::ca::CaCore;
use hypatia_ca::engine::{Algorithm, generate_keypair, parse_algorithm, sign, verify, wipe};

const NOW: u64 = 1_700_000_000;

fn round_trip(alg: Algorithm) {
    let msg: Vec<u8> = b"a message worth signing".to_vec();
    let mut kp = generate_keypair(alg).unwrap();
    let sig = sign(alg, &kp.secret_key, &msg).unwrap();
    assert!(verify(alg, &kp.public_key, &sig, &msg));

    // a single flipped message byte must fail verification
    let mut tampered_msg = msg.clone();
    tampered_msg[0] ^= 0x01;
    assert!(!verify(alg, &kp.public_key, &sig, &tampered_msg));

    // a single flipped signature byte must fail verification
    let mut tampered_sig = sig.clone();
    let last = tampered_sig.len() - 1;
    tampered_sig[last] ^= 0x01;
    assert!(!verify(alg, &kp.public_key, &tampered_sig, &msg));

    wipe(&mut kp.secret_key);
    assert!(kp.secret_key.is_empty());
}

#[test]
fn round_trip_falcon512() {
    round_trip(Algorithm::Falcon512);
}

#[test]
fn round_trip_falcon1024() {
    round_trip(Algorithm::Falcon1024);
}

#[test]
fn round_trip_dilithium2() {
    round_trip(Algorithm::Dilithium2);
}

#[test]
fn round_trip_dilithium3() {
    round_trip(Algorithm::Dilithium3);
}

#[test]
fn round_trip_dilithium5() {
    round_trip(Algorithm::Dilithium5);
}

#[test]
fn unknown_algorithm_is_rejected() {
    let mut core = CaCore::new();
    let r = core.sign_message(&String::from("rot13-512"), &b"msg".to_vec(), NOW);
    assert_eq!(r, Err(Error::UnknownAlgorithm));
    // no artifact was stored and nothing was audited
    assert!(core.signature_artifacts().is_empty());
    assert!(core.audit_entries().is_empty());
    assert!(parse_algorithm(&String::from("rot13-512")).is_err());
    assert_eq!(
        parse_algorithm(&String::from("falcon512")),
        Ok(Algorithm::Falcon512)
    );
    assert_eq!(
        parse_algorithm(&String::from("dilithium5")),
        Ok(Algorithm::Dilithium5)
    );
}

#[test]
fn sign_message_stores_verifiable_artifact() {
    let mut core = CaCore::new();
    let msg: Vec<u8> = b"artifact message".to_vec();
    let id = core
        .sign_message(&String::from("dilithium2"), &msg, NOW)
        .unwrap();
    let artifact = &core.signature_artifacts()[id];
    assert_eq!(artifact.algorithm, Algorithm::Dilithium2);
    assert!(verify(
        artifact.algorithm,
        &artifact.public_key,
        &artifact.signature,
        &msg
    ));
    let last = core.audit_entries().last().unwrap();
    assert_eq!(last.action, "sign");
    assert_eq!(last.details, "dilithium2");
}

#[test]
fn verify_signature_fails_closed() {
    let mut core = CaCore::new();
    let msg: Vec<u8> = b"check me".to_vec();
    let id = core
        .sign_message(&String::from("falcon512"), &msg, NOW)
        .unwrap();
    let pk = core.signature_artifacts()[id].public_key.clone();
    let sig = core.signature_artifacts()[id].signature.clone();
    let tag = String::from("falcon512");
    assert!(core.verify_signature(&tag, &pk, &sig, &msg, NOW).is_ok());
    let r = core.verify_signature(&tag, &pk, &sig, &b"other".to_vec(), NOW);
    assert_eq!(r, Err(Error::ValidationFailed));
    // garbage key material is a plain failure, never a crash
    let r2 = core.verify_signature(&tag, &vec![1, 2, 3], &sig, &msg, NOW);
    assert_eq!(r2, Err(Error::ValidationFailed));
    let last = core.audit_entries().last().unwrap();
    assert_eq!(last.action, "signature-verify");
}

#[test]
fn file_sign_flow_audits_its_own_tag() {
    let mut core = CaCore::new();
    let data: Vec<u8> = b"file contents".to_vec();
    let id = core
        .signature_sign(&String::from("falcon512"), &data, NOW)
        .unwrap();
    let artifact = &core.signature_artifacts()[id];
    assert!(verify(
        artifact.algorithm,
        &artifact.public_key,
        &artifact.signature,
        &data
    ));
    // the file-sign workflow is recorded under its own action tag
    let last = core.audit_entries().last().unwrap();
    assert_eq!(last.action, "signature-sign");
    assert_eq!(last.details, "falcon512");
}
