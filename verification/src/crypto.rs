use vstd::prelude::*;
use vstd::string::*;

use crate::amount::{dec_rep, decimal_bytes};
use crate::byteops::{bytes_eq, push_slice};
use crate::errors::{fails_not_eligible, fails_not_eligible_with, ContractError};
use crate::hashing::{keccak256, keccak256_of};
use crate::msg::{serialize_claim, serialized_claim, ClaimMsg};

verus! {

#[verifier::external_type_specification]
#[verifier::external_body]
pub struct ExCryptoError(cosmwasm_crypto::CryptoError);

pub uninterp spec fn secp256k1_recover_of(digest: Seq<u8>, signature: Seq<u8>, param: u8) -> Option<
    Seq<u8>,
>;

/// Relies on cosmwasm_crypto::secp256k1_recover_pubkey: whether recovery
/// succeeds, and the key it yields, are functions of the digest, the 64-byte
/// signature and the recovery parameter alone; a digest that is not 32
/// bytes, a signature that is not 64 bytes, or a parameter other than 0 or 1
/// is always rejected.
#[verifier::external_body]
fn secp256k1_recover_pubkey(message_hash: &[u8], signature: &[u8], recovery_param: u8) -> (r:
    Result<Vec<u8>, cosmwasm_crypto::CryptoError>)
    ensures
        r matches Ok(k) ==> secp256k1_recover_of(message_hash@, signature@, recovery_param)
            == Some(k@),
        r is Err <==> secp256k1_recover_of(message_hash@, signature@, recovery_param) is None,
        message_hash@.len() != 32 ==> r is Err,
        signature@.len() != 64 ==> r is Err,
        recovery_param != 0 && recovery_param != 1 ==> r is Err,
{
    cosmwasm_crypto::secp256k1_recover_pubkey(message_hash, signature, recovery_param)
}

pub uninterp spec fn secp256k1_verify_of(digest: Seq<u8>, signature: Seq<u8>, pubkey: Seq<u8>) -> Option<
    bool,
>;

/// Relies on cosmwasm_crypto::secp256k1_verify: the verdict is a function
/// of the digest, the 64-byte signature and the public key alone; an error
/// comes only of inputs of the wrong shape, a wrong-but-well-formed
/// signature yields `Ok(false)`.
#[verifier::external_body]
fn secp256k1_verify(message_hash: &[u8], signature: &[u8], public_key: &[u8]) -> (r: Result<
    bool,
    cosmwasm_crypto::CryptoError,
>)
    ensures
        r matches Ok(b) ==> secp256k1_verify_of(message_hash@, signature@, public_key@) == Some(b),
        r is Err <==> secp256k1_verify_of(message_hash@, signature@, public_key@) is None,
        message_hash@.len() != 32 ==> r is Err,
        signature@.len() != 64 ==> r is Err,
{
    cosmwasm_crypto::secp256k1_verify(message_hash, signature, public_key)
}

/// Relies on the Display implementation of cosmwasm_crypto::CryptoError to
/// describe the failure; the text is only carried inside an error message.
#[verifier::external_body]
fn crypto_error_text(err: &cosmwasm_crypto::CryptoError) -> String {
    err.to_string()
}

/// Maps the recovery marker byte of a signature to the recovery id the
/// curve primitive expects: only the two plain, replay-unprotected values
/// are accepted, so chain-id-encoded markers always fail here, before any
/// cryptography runs.
pub fn get_recovery_param(v: u8) -> (r: Result<u8, ContractError>)
    ensures
        v == 27 ==> r == Ok::<u8, ContractError>(0u8),
        v == 28 ==> r == Ok::<u8, ContractError>(1u8),
        v != 27 && v != 28 ==> fails_not_eligible_with(
            r,
            "Values of v other than 27 and 28 not supported. Replay protection (EIP-155) cannot be used here."@,
        ),
{
    match v {
        27 => Ok(0),
        28 => Ok(1),
        _ => Err(
            ContractError::IsNotEligible {
                msg:
                    "Values of v other than 27 and 28 not supported. Replay protection (EIP-155) cannot be used here.".to_owned(),
            },
        ),
    }
}

/// The raw 20-byte address derived from an uncompressed public key: the
/// low 20 bytes of the address hash of the 64 coordinate bytes.
pub open spec fn eth_address_of(pubkey: Seq<u8>) -> Seq<u8> {
    keccak256_of(pubkey.skip(1)).skip(12)
}

/// Derives the raw 20-byte foreign-chain address from an uncompressed
/// public key: 65 bytes, tag byte 4, then 64 bytes of coordinates. A wrong
/// tag or length is a structural failure, not a cryptographic one.
pub fn ethereum_address_raw(pubkey: &Vec<u8>) -> (r: Result<Vec<u8>, ContractError>)
    ensures
        r is Ok <==> pubkey@.len() == 65 && pubkey@[0] == 4,
        r matches Ok(a) ==> a@ == eth_address_of(pubkey@) && a@.len() == 20,
        pubkey@.len() == 0 ==> fails_not_eligible_with(r, "Public key must not be empty"@),
        pubkey@.len() > 0 && pubkey@[0] != 4 ==> fails_not_eligible_with(
            r,
            "Public key must start with 0x04"@,
        ),
        pubkey@.len() > 0 && pubkey@[0] == 4 && pubkey@.len() != 65 ==> fails_not_eligible_with(
            r,
            "Public key must be 65 bytes long"@,
        ),
{
    if pubkey.len() == 0 {
        return Err(ContractError::IsNotEligible { msg: "Public key must not be empty".to_owned() });
    }
    if pubkey[0] != 4 {
        return Err(
            ContractError::IsNotEligible { msg: "Public key must start with 0x04".to_owned() },
        );
    }
    if pubkey.len() != 65 {
        return Err(
            ContractError::IsNotEligible { msg: "Public key must be 65 bytes long".to_owned() },
        );
    }
    let mut data: Vec<u8> = Vec::new();
    let mut i: usize = 1;
    while i < 65
        invariant
            pubkey@.len() == 65,
            1 <= i <= 65,
            data@ == pubkey@.subrange(1, i as int),
        decreases 65 - i,
    {
        data.push(pubkey[i]);
        proof {
            assert(data@ =~= pubkey@.subrange(1, i + 1));
        }
        i = i + 1;
    }
    proof {
        assert(data@ =~= pubkey@.skip(1));
    }
    let hash = keccak256(data.as_slice());
    let mut address: Vec<u8> = Vec::new();
    let mut j: usize = 12;
    while j < 32
        invariant
            hash@.len() == 32,
            12 <= j <= 32,
            address@ == hash@.subrange(12, j as int),
        decreases 32 - j,
    {
        address.push(hash[j]);
        proof {
            assert(address@ =~= hash@.subrange(12, j + 1));
        }
        j = j + 1;
    }
    proof {
        assert(address@ =~= hash@.skip(12));
    }
    Ok(address)
}

/// What address derivation answers for a recovered key: the derived raw
/// address for a well-shaped uncompressed key, an eligibility failure for
/// any other shape.
pub open spec fn derived_address_outcome(key: Seq<u8>, r: Result<Vec<u8>, ContractError>) -> bool {
    &&& key.len() == 65 && key[0] == 4 ==> returns_address(r, eth_address_of(key))
    &&& !(key.len() == 65 && key[0] == 4) ==> fails_not_eligible(r)
}

/// True of an outcome that hands back exactly the given raw address.
pub open spec fn returns_address(r: Result<Vec<u8>, ContractError>, addr: Seq<u8>) -> bool {
    r matches Ok(a) && a@ == addr
}

/// The recovery id named by an accepted recovery marker.
pub open spec fn recovery_param_of(v: u8) -> u8
    recommends
        v == 27 || v == 28,
{
    if v == 27 {
        0u8
    } else {
        1u8
    }
}

/// Copies the 64-byte `r ‖ s` part of a signature, everything before the
/// trailing recovery marker.
fn signature_rs(signature: &Vec<u8>) -> (r: Vec<u8>)
    requires
        signature@.len() > 0,
    ensures
        r@ == signature@.drop_last(),
{
    let mut rs: Vec<u8> = Vec::new();
    let mut i: usize = 0;
    while i < signature.len() - 1
        invariant
            signature@.len() > 0,
            i <= signature@.len() - 1,
            rs@ == signature@.subrange(0, i as int),
        decreases signature@.len() - 1 - i,
    {
        rs.push(signature[i]);
        proof {
            assert(rs@ =~= signature@.subrange(0, i + 1));
        }
        i = i + 1;
    }
    proof {
        assert(rs@ =~= signature@.drop_last());
    }
    rs
}

/// Recovers the raw foreign-chain address that signed `digest` from a
/// 65-byte signature `r ‖ s ‖ v`. Fails before any cryptographic recovery
/// whenever `v` is not one of the two accepted markers.
pub fn recover_address(digest: &Vec<u8>, signature: &Vec<u8>) -> (r: Result<Vec<u8>, ContractError>)
    ensures
        signature@.len() == 0 ==> fails_not_eligible_with(r, "Signature must not be empty"@),
        signature@.len() > 0 && signature@.last() != 27 && signature@.last() != 28
            ==> fails_not_eligible_with(
            r,
            "Values of v other than 27 and 28 not supported. Replay protection (EIP-155) cannot be used here."@,
        ),
        signature@.len() > 0 && (signature@.last() == 27 || signature@.last() == 28) ==> {
            let key = secp256k1_recover_of(
                digest@,
                signature@.drop_last(),
                recovery_param_of(signature@.last()),
            );
            &&& key is None ==> fails_not_eligible(r)
            &&& key is Some ==> derived_address_outcome(key.unwrap(), r)
        },
{
    if signature.len() == 0 {
        return Err(ContractError::IsNotEligible { msg: "Signature must not be empty".to_owned() });
    }
    let v = signature[signature.len() - 1];
    let rs = signature_rs(signature);
    let recovery = match get_recovery_param(v) {
        Ok(p) => p,
        Err(e) => {
            return Err(e);
        },
    };
    let pubkey = match secp256k1_recover_pubkey(digest.as_slice(), rs.as_slice(), recovery) {
        Ok(k) => k,
        Err(e) => {
            return Err(ContractError::IsNotEligible { msg: crypto_error_text(&e) });
        },
    };
    ethereum_address_raw(&pubkey)
}

/// The independent signature check run after key recovery as defense in
/// depth: answers what the curve primitive says of the digest, the 64-byte
/// signature and the public key, and reports inputs the primitive rejects
/// (shapes that recovery may have tolerated) as an eligibility failure.
pub fn check_signature(digest: &Vec<u8>, signature_rs: &Vec<u8>, pubkey: &Vec<u8>) -> (r: Result<
    bool,
    ContractError,
>)
    ensures
        secp256k1_verify_of(digest@, signature_rs@, pubkey@) matches Some(b) ==> r == Ok::<
            bool,
            ContractError,
        >(b),
        secp256k1_verify_of(digest@, signature_rs@, pubkey@) is None ==> fails_not_eligible(r),
{
    match secp256k1_verify(digest.as_slice(), signature_rs.as_slice(), pubkey.as_slice()) {
        Ok(b) => Ok(b),
        Err(e) => Err(ContractError::IsNotEligible { msg: crypto_error_text(&e) }),
    }
}

/// The bytes signed under the personal-message convention: a fixed textual
/// prefix, the decimal byte length of the serialized claim, then the
/// serialized claim itself.
pub open spec fn eth_signed_payload(serial: Seq<u8>) -> Seq<u8> {
    vstd::utf8::encode_utf8("\x19Ethereum Signed Message:\n"@) + dec_rep(serial.len()) + serial
}

/// The digest a foreign-chain claim is signed over.
pub open spec fn eth_claim_digest(addr: Seq<char>) -> Seq<u8> {
    keccak256_of(eth_signed_payload(serialized_claim(addr)))
}

/// What the foreign-chain check answers once a key has been recovered: a
/// structural failure of the key or a claimed address other than the
/// derived one is an eligibility failure; otherwise the answer is whatever
/// the independent signature check says of the recovered key.
pub open spec fn eth_check_outcome(
    addr: Seq<char>,
    digest: Seq<u8>,
    sig_rs: Seq<u8>,
    key: Seq<u8>,
    r: Result<bool, ContractError>,
) -> bool {
    &&& !(key.len() == 65 && key[0] == 4) ==> fails_not_eligible(r)
    &&& key.len() == 65 && key[0] == 4 && vstd::utf8::encode_utf8(addr) != eth_address_of(key)
        ==> fails_not_eligible_with(r, "signer address is not calculated addr"@)
    &&& key.len() == 65 && key[0] == 4 && vstd::utf8::encode_utf8(addr) == eth_address_of(key)
        ==> {
        let verdict = secp256k1_verify_of(digest, sig_rs, key);
        &&& verdict is Some ==> r == Ok::<bool, ContractError>(verdict.unwrap())
        &&& verdict is None ==> fails_not_eligible(r)
    }
}

/// Everything the foreign-chain check promises of its outcome, over the
/// claimed address and the raw 65-byte signature.
pub open spec fn eth_verdict_conforms(
    addr: Seq<char>,
    sig: Seq<u8>,
    r: Result<bool, ContractError>,
) -> bool {
    let digest = eth_claim_digest(addr);
    &&& sig.len() == 0 ==> fails_not_eligible_with(r, "Signature must not be empty"@)
    &&& sig.len() > 0 && sig.last() != 27 && sig.last() != 28 ==> fails_not_eligible_with(
        r,
        "Values of v other than 27 and 28 not supported. Replay protection (EIP-155) cannot be used here."@,
    )
    &&& sig.len() > 0 && (sig.last() == 27 || sig.last() == 28) ==> {
        let key = secp256k1_recover_of(digest, sig.drop_last(), recovery_param_of(sig.last()));
        &&& key is None ==> fails_not_eligible(r)
        &&& key is Some ==> eth_check_outcome(addr, digest, sig.drop_last(), key.unwrap(), r)
    }
}

/// The foreign-chain check has no hidden state: two outcomes that conform
/// to its contract for the same inputs succeed or fail together, and a
/// success holds the same answer both times. Only the descriptive text
/// inside an eligibility failure is not pinned, where it repeats what the
/// curve primitive said of its own error.
pub proof fn lemma_eth_verify_idempotent(
    addr: Seq<char>,
    sig: Seq<u8>,
    r1: Result<bool, ContractError>,
    r2: Result<bool, ContractError>,
)
    requires
        eth_verdict_conforms(addr, sig, r1),
        eth_verdict_conforms(addr, sig, r2),
    ensures
        r1 is Ok <==> r2 is Ok,
        r1 is Ok ==> r1 == r2,
{
}

/// Verifies a foreign-chain claim: serializes it canonically, hashes it
/// under the personal-message convention, recovers the signer's key and
/// address, demands that the claimed address match the recovered one byte
/// for byte, and then re-verifies the signature against the recovered key
/// as defense in depth. Only that last check can answer `Ok(false)`; every
/// earlier failure is an eligibility error.
pub fn verify_eth(claim_msg: &ClaimMsg, signature: &Vec<u8>) -> (r: Result<bool, ContractError>)
    ensures
        eth_verdict_conforms(claim_msg.gift_claiming_address@, signature@, r),
{
    let serial = serialize_claim(claim_msg);
    let mut payload: Vec<u8> = Vec::new();
    push_slice(&mut payload, "\x19Ethereum Signed Message:\n".as_bytes());
    let len_dec = decimal_bytes(serial.len() as u128);
    push_slice(&mut payload, len_dec.as_slice());
    push_slice(&mut payload, serial.as_slice());
    proof {
        assert(payload@ =~= eth_signed_payload(serialized_claim(claim_msg.gift_claiming_address@)));
    }
    let hash = keccak256(payload.as_slice());
    if signature.len() == 0 {
        return Err(ContractError::IsNotEligible { msg: "Signature must not be empty".to_owned() });
    }
    let v = signature[signature.len() - 1];
    let rs = signature_rs(signature);
    let recovery = match get_recovery_param(v) {
        Ok(p) => p,
        Err(e) => {
            return Err(e);
        },
    };
    let calculated_pubkey = match secp256k1_recover_pubkey(hash.as_slice(), rs.as_slice(), recovery)
        {
        Ok(k) => k,
        Err(e) => {
            return Err(ContractError::IsNotEligible { msg: crypto_error_text(&e) });
        },
    };
    let calculated_address = match ethereum_address_raw(&calculated_pubkey) {
        Ok(a) => a,
        Err(e) => {
            return Err(e);
        },
    };
    let claimed: Vec<u8> = claim_msg.gift_claiming_address.as_str().as_bytes_vec();
    if !bytes_eq(&claimed, &calculated_address) {
        return Err(
            ContractError::IsNotEligible { msg: "signer address is not calculated addr".to_owned() },
        );
    }
    check_signature(&hash, &rs, &calculated_pubkey)
}

/// Verifies a claim signed natively by the host chain's own key scheme.
/// Deliberately answers success without inspecting its inputs: the native
/// check is a separate, still-open piece, kept behind the same interface as
/// the other verifiers so it can be completed independently.
pub fn verify_cosmos(_claim_msg: &ClaimMsg, _signature: &Vec<u8>) -> (r: Result<
    bool,
    ContractError,
>)
    ensures
        r == Ok::<bool, ContractError>(true),
{
    Ok(true)
}

} // verus!
