use bb_rs::handle::{step, Composer, HandleOp, HandleState};

const OPS: [HandleOp; 6] = [
    HandleOp::InitProvingKey,
    HandleOp::CreateProof,
    HandleOp::LoadVerificationKey,
    HandleOp::InitVerificationKey,
    HandleOp::VerifyProof,
    HandleOp::Delete,
];

#[test]
fn verify_is_unreachable_from_created() {
    assert_eq!(step(HandleState::Created, HandleOp::VerifyProof), None);
    let c = Composer::new(0x1000);
    assert!(!c.can_verify());
}

#[test]
fn declared_transitions_only() {
    assert_eq!(
        step(HandleState::Created, HandleOp::InitProvingKey),
        Some(HandleState::KeyInitialized)
    );
    assert_eq!(
        step(HandleState::KeyInitialized, HandleOp::CreateProof),
        Some(HandleState::ProofGenerated)
    );
    assert_eq!(
        step(HandleState::Created, HandleOp::LoadVerificationKey),
        Some(HandleState::VerificationKeyLoaded)
    );
    assert_eq!(
        step(HandleState::Created, HandleOp::InitVerificationKey),
        Some(HandleState::VerificationKeyLoaded)
    );
    assert_eq!(
        step(HandleState::ProofGenerated, HandleOp::VerifyProof),
        Some(HandleState::ProofGenerated)
    );
    assert_eq!(
        step(HandleState::VerificationKeyLoaded, HandleOp::VerifyProof),
        Some(HandleState::VerificationKeyLoaded)
    );

    assert_eq!(step(HandleState::Created, HandleOp::CreateProof), None);
    assert_eq!(step(HandleState::KeyInitialized, HandleOp::InitProvingKey), None);
    assert_eq!(step(HandleState::KeyInitialized, HandleOp::VerifyProof), None);
    assert_eq!(step(HandleState::ProofGenerated, HandleOp::InitProvingKey), None);
}

#[test]
fn released_is_terminal() {
    for op in OPS {
        assert_eq!(step(HandleState::Released, op), None);
    }
}

#[test]
fn delete_is_legal_from_every_live_state() {
    for s in [
        HandleState::Created,
        HandleState::KeyInitialized,
        HandleState::ProofGenerated,
        HandleState::VerificationKeyLoaded,
    ] {
        assert_eq!(step(s, HandleOp::Delete), Some(HandleState::Released));
    }
}

#[test]
fn proving_lifecycle() {
    let mut c = Composer::new(0xbeef);
    assert_eq!(c.state(), HandleState::Created);
    assert_eq!(c.token(), 0xbeef);

    let circuit = [1u8, 2, 3];
    let wire = c.init_proving_key_request(&circuit);
    assert_eq!(wire, vec![0u8, 0, 0, 3, 1, 2, 3]);
    assert_eq!(c.state(), HandleState::KeyInitialized);

    let witness = [9u8];
    let (cw, ww) = c.create_proof_request(&circuit, &witness);
    assert_eq!(cw, vec![0u8, 0, 0, 3, 1, 2, 3]);
    assert_eq!(ww, vec![0u8, 0, 0, 1, 9]);
    assert_eq!(c.state(), HandleState::ProofGenerated);
    assert!(c.can_verify());

    let proof = [5u8, 6];
    let pw = c.verify_proof_request(&proof);
    assert_eq!(pw, vec![0u8, 0, 0, 2, 5, 6]);
    assert_eq!(c.state(), HandleState::ProofGenerated);

    let (sp, count_be) = c.serialize_proof_request(&proof, 258);
    assert_eq!(sp, vec![0u8, 0, 0, 2, 5, 6]);
    assert_eq!(count_be, [0u8, 0, 1, 2]);

    assert_eq!(c.delete(), 0xbeef);
}

#[test]
fn verify_only_lifecycle() {
    let mut c = Composer::new(7);
    let vk = [4u8, 4, 4, 4];
    let wire = c.load_verification_key_request(&vk);
    assert_eq!(wire, vec![0u8, 0, 0, 4, 4, 4, 4, 4]);
    assert_eq!(c.state(), HandleState::VerificationKeyLoaded);
    assert!(c.can_verify());
    assert_eq!(c.delete(), 7);
}

#[test]
fn derived_verification_key_lifecycle() {
    let mut c = Composer::new(11);
    c.init_verification_key();
    assert_eq!(c.state(), HandleState::VerificationKeyLoaded);
    assert!(c.can_verify());
}
