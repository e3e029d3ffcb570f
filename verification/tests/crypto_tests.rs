use cw_cyber_airdrop::crypto::{
    check_signature, ethereum_address_raw, get_recovery_param, recover_address, verify_cosmos,
    verify_eth,
};
use cw_cyber_airdrop::errors::ContractError;
use cw_cyber_airdrop::msg::{serialize_claim, ClaimMsg};
use k256::ecdsa::SigningKey;

const KNOWN_ADDRESS_HEX: &str = "9d8a62f656a8d1615c1294fd71e9cfb3e4855a4f";

fn keccak(data: &[u8]) -> Vec<u8> {
    <sha3::Keccak256 as sha3::Digest>::digest(data).to_vec()
}

fn known_key() -> SigningKey {
    SigningKey::from_slice(&[0x46u8; 32]).unwrap()
}

fn uncompressed_pubkey(sk: &SigningKey) -> Vec<u8> {
    sk.verifying_key().to_sec1_point(false).as_bytes().to_vec()
}

fn claim_digest(claim: &ClaimMsg) -> Vec<u8> {
    let serial = serialize_claim(claim);
    let mut payload = format!("\x19Ethereum Signed Message:\n{}", serial.len()).into_bytes();
    payload.extend_from_slice(&serial);
    keccak(&payload)
}

fn sign_digest(sk: &SigningKey, digest: &[u8]) -> Vec<u8> {
    let (sig, recid) = sk.sign_prehash_recoverable(digest);
    let mut sig65 = sig.to_bytes().to_vec();
    sig65.push(27 + recid.to_byte());
    sig65
}

fn eligibility_message(r: Result<Vec<u8>, ContractError>) -> String {
    match r {
        Err(ContractError::IsNotEligible { msg }) => msg,
        other => panic!("expected an eligibility error, got {:?}", other),
    }
}

#[test]
fn recovery_param_accepts_only_27_and_28() {
    assert_eq!(get_recovery_param(27), Ok(0));
    assert_eq!(get_recovery_param(28), Ok(1));
    for v in [0u8, 1, 26, 29, 35, 255] {
        match get_recovery_param(v) {
            Err(ContractError::IsNotEligible { msg }) => {
                assert!(msg.starts_with("Values of v other than 27 and 28"));
            }
            other => panic!("v={} must be rejected, got {:?}", v, other),
        }
    }
}

#[test]
fn address_derivation_checks_key_structure() {
    assert_eq!(
        eligibility_message(ethereum_address_raw(&vec![])),
        "Public key must not be empty"
    );
    assert_eq!(
        eligibility_message(ethereum_address_raw(&vec![2u8; 65])),
        "Public key must start with 0x04"
    );
    let mut short = vec![4u8];
    short.extend_from_slice(&[7u8; 10]);
    assert_eq!(
        eligibility_message(ethereum_address_raw(&short)),
        "Public key must be 65 bytes long"
    );
}

#[test]
fn known_key_derives_known_address() {
    let pub65 = uncompressed_pubkey(&known_key());
    let addr = ethereum_address_raw(&pub65).unwrap();
    assert_eq!(hex::encode(&addr), KNOWN_ADDRESS_HEX);
}

#[test]
fn signing_and_recovering_reproduces_the_known_address() {
    let sk = known_key();
    let claim = ClaimMsg {
        gift_claiming_address: "cyber1claimant".to_string(),
    };
    let digest = claim_digest(&claim);
    let sig65 = sign_digest(&sk, &digest);
    let recovered = recover_address(&digest, &sig65).unwrap();
    assert_eq!(hex::encode(&recovered), KNOWN_ADDRESS_HEX);
}

#[test]
fn altering_the_message_changes_the_recovered_address() {
    let sk = known_key();
    let claim = ClaimMsg {
        gift_claiming_address: "cyber1claimant".to_string(),
    };
    let digest = claim_digest(&claim);
    let sig65 = sign_digest(&sk, &digest);
    let altered = ClaimMsg {
        gift_claiming_address: "cyber1claimanu".to_string(),
    };
    let altered_digest = claim_digest(&altered);
    match recover_address(&altered_digest, &sig65) {
        Ok(addr) => assert_ne!(hex::encode(&addr), KNOWN_ADDRESS_HEX),
        Err(ContractError::IsNotEligible { .. }) => {}
        other => panic!("unexpected outcome {:?}", other),
    }
    match verify_eth(&altered, &sig65) {
        Err(ContractError::IsNotEligible { .. }) => {}
        other => panic!("altered claim must be ineligible, got {:?}", other),
    }
}

#[test]
fn recovery_marker_is_gated_before_recovery() {
    let claim = ClaimMsg {
        gift_claiming_address: "cyber1claimant".to_string(),
    };
    for v in [0u8, 26, 29, 37] {
        let mut sig65 = vec![1u8; 64];
        sig65.push(v);
        match verify_eth(&claim, &sig65) {
            Err(ContractError::IsNotEligible { msg }) => {
                assert!(msg.starts_with("Values of v other than 27 and 28"));
            }
            other => panic!("v={} must be rejected, got {:?}", v, other),
        }
    }
}

#[test]
fn empty_signature_is_rejected() {
    let claim = ClaimMsg {
        gift_claiming_address: "cyber1claimant".to_string(),
    };
    match verify_eth(&claim, &vec![]) {
        Err(ContractError::IsNotEligible { msg }) => {
            assert_eq!(msg, "Signature must not be empty");
        }
        other => panic!("empty signature must be rejected, got {:?}", other),
    }
}

#[test]
fn claimed_address_must_match_the_recovered_one() {
    let sk = known_key();
    let claim = ClaimMsg {
        gift_claiming_address: "cyber1claimant".to_string(),
    };
    let digest = claim_digest(&claim);
    let sig65 = sign_digest(&sk, &digest);
    match verify_eth(&claim, &sig65) {
        Err(ContractError::IsNotEligible { msg }) => {
            assert_eq!(msg, "signer address is not calculated addr");
        }
        other => panic!("mismatched claimed address must fail, got {:?}", other),
    }
}

#[test]
fn repeated_signature_verification_gives_identical_results() {
    let sk = known_key();
    let claim = ClaimMsg {
        gift_claiming_address: "cyber1claimant".to_string(),
    };
    let digest = claim_digest(&claim);
    let sig65 = sign_digest(&sk, &digest);
    let r1 = verify_eth(&claim, &sig65);
    let r2 = verify_eth(&claim, &sig65);
    assert_eq!(r1, r2);
    let d1 = recover_address(&digest, &sig65);
    let d2 = recover_address(&digest, &sig65);
    assert_eq!(d1, d2);
}

#[test]
fn independent_check_accepts_the_real_signature_only() {
    let sk = known_key();
    let pub65 = uncompressed_pubkey(&sk);
    let claim = ClaimMsg {
        gift_claiming_address: "cyber1claimant".to_string(),
    };
    let digest = claim_digest(&claim);
    let sig65 = sign_digest(&sk, &digest);
    let rs = sig65[..64].to_vec();
    assert_eq!(check_signature(&digest, &rs, &pub65), Ok(true));
    let other_digest = keccak(b"something else entirely");
    assert_eq!(check_signature(&other_digest, &rs, &pub65), Ok(false));
    match check_signature(&vec![1u8; 5], &rs, &pub65) {
        Err(ContractError::IsNotEligible { .. }) => {}
        other => panic!("short digest must be rejected, got {:?}", other),
    }
}

#[test]
fn native_verification_accepts_unconditionally() {
    let claim = ClaimMsg {
        gift_claiming_address: "whoever".to_string(),
    };
    assert_eq!(verify_cosmos(&claim, &vec![]), Ok(true));
    assert_eq!(verify_cosmos(&claim, &vec![9u8; 3]), Ok(true));
}
