use vstd::prelude::*;
use vstd::string::*;

use crate::amount::{dec_rep, decimal_bytes};
use crate::byteops::{bytes_eq, push_slice};
use crate::errors::ContractError;
use crate::hashing::{sha256, sha256_of};
use crate::hexcodec::{hex_decode_32, hex_decoded, valid_hex_64};

verus! {

/// Byte-lexicographic order on byte strings: `a` comes no later than `b`
/// when at the first differing position `a` holds the smaller byte, or when
/// `a` is a prefix of `b`.
pub open spec fn lex_le(a: Seq<u8>, b: Seq<u8>) -> bool
    decreases a.len(),
{
    if a.len() == 0 {
        true
    } else if b.len() == 0 {
        false
    } else if a[0] < b[0] {
        true
    } else if a[0] > b[0] {
        false
    } else {
        lex_le(a.skip(1), b.skip(1))
    }
}

pub proof fn lemma_lex_le_total(a: Seq<u8>, b: Seq<u8>)
    ensures
        lex_le(a, b) || lex_le(b, a),
    decreases a.len(),
{
    if a.len() > 0 && b.len() > 0 && a[0] == b[0] {
        lemma_lex_le_total(a.skip(1), b.skip(1));
    }
}

pub proof fn lemma_lex_le_antisymmetric(a: Seq<u8>, b: Seq<u8>)
    requires
        lex_le(a, b),
        lex_le(b, a),
    ensures
        a == b,
    decreases a.len(),
{
    if a.len() == 0 {
        assert(a =~= b);
    } else {
        lemma_lex_le_antisymmetric(a.skip(1), b.skip(1));
        assert forall|j: int| 0 <= j < a.len() implies a[j] == b[j] by {
            if j > 0 {
                assert(a[j] == a.skip(1)[j - 1]);
                assert(b[j] == b.skip(1)[j - 1]);
            }
        }
        assert(a =~= b);
    }
}

/// If two byte strings agree on their first `i` positions, their order is
/// decided past those positions.
proof fn lemma_lex_le_skip(a: Seq<u8>, b: Seq<u8>, i: int)
    requires
        0 <= i <= a.len(),
        i <= b.len(),
        forall|j: int| 0 <= j < i ==> a[j] == b[j],
    ensures
        lex_le(a, b) == lex_le(a.skip(i), b.skip(i)),
    decreases i,
{
    if i == 0 {
        assert(a.skip(0) =~= a);
        assert(b.skip(0) =~= b);
    } else {
        assert(a[0] == b[0]);
        lemma_lex_le_skip(a.skip(1), b.skip(1), i - 1);
        assert(a.skip(1).skip(i - 1) =~= a.skip(i));
        assert(b.skip(1).skip(i - 1) =~= b.skip(i));
    }
}

/// Decides the byte-lexicographic order of two byte vectors.
fn lex_le_bytes(a: &Vec<u8>, b: &Vec<u8>) -> (r: bool)
    ensures
        r == lex_le(a@, b@),
{
    let mut i: usize = 0;
    while i < a.len() && i < b.len()
        invariant
            i <= a.len(),
            i <= b.len(),
            forall|j: int| 0 <= j < i ==> a@[j] == b@[j],
        decreases a.len() - i,
    {
        if a[i] < b[i] {
            proof {
                lemma_lex_le_skip(a@, b@, i as int);
            }
            return true;
        }
        if a[i] > b[i] {
            proof {
                lemma_lex_le_skip(a@, b@, i as int);
            }
            return false;
        }
        i = i + 1;
    }
    proof {
        lemma_lex_le_skip(a@, b@, i as int);
    }
    a.len() <= b.len()
}

/// The digest of one claim leaf: the hash of the claimant's textual address
/// followed by the decimal text of the amount, with no separator.
pub open spec fn leaf_hash_of(sender: Seq<u8>, amount: nat) -> Seq<u8> {
    sha256_of(sender + dec_rep(amount))
}

/// The digest of an ordered pair of sibling digests: the smaller one under
/// byte-lexicographic order goes first, so the combination is symmetric.
pub open spec fn combine_of(a: Seq<u8>, b: Seq<u8>) -> Seq<u8> {
    if lex_le(a, b) {
        sha256_of(a + b)
    } else {
        sha256_of(b + a)
    }
}

/// Combining two sibling digests does not depend on the order in which the
/// caller presents them.
pub proof fn lemma_combine_symmetric(a: Seq<u8>, b: Seq<u8>)
    ensures
        combine_of(a, b) == combine_of(b, a),
{
    lemma_lex_le_total(a, b);
    if lex_le(a, b) && lex_le(b, a) {
        lemma_lex_le_antisymmetric(a, b);
    }
}

/// Computes the leaf digest for one claimant and amount.
pub fn leaf_hash(sender: &str, amount: u128) -> (r: Vec<u8>)
    ensures
        r@ == leaf_hash_of(sender.spec_bytes(), amount as nat),
        r@.len() == 32,
{
    let mut input: Vec<u8> = Vec::new();
    push_slice(&mut input, sender.as_bytes());
    let dec = decimal_bytes(amount);
    push_slice(&mut input, dec.as_slice());
    proof {
        assert(input@ =~= sender.spec_bytes() + dec_rep(amount as nat));
    }
    sha256(input.as_slice())
}

/// Computes the digest of two sibling digests, smaller side first.
pub fn combine_hashes(a: &Vec<u8>, b: &Vec<u8>) -> (r: Vec<u8>)
    ensures
        r@ == combine_of(a@, b@),
        r@.len() == 32,
{
    let mut buf: Vec<u8> = Vec::new();
    if lex_le_bytes(a, b) {
        push_slice(&mut buf, a.as_slice());
        push_slice(&mut buf, b.as_slice());
    } else {
        push_slice(&mut buf, b.as_slice());
        push_slice(&mut buf, a.as_slice());
    }
    sha256(buf.as_slice())
}

/// The digest reached by folding a list of sibling digests, leaf side first,
/// into a starting digest.
pub open spec fn fold_hashes(h: Seq<u8>, sibs: Seq<Seq<u8>>) -> Seq<u8>
    decreases sibs.len(),
{
    if sibs.len() == 0 {
        h
    } else {
        fold_hashes(combine_of(h, sibs[0]), sibs.skip(1))
    }
}

pub proof fn lemma_fold_hashes_snoc(h: Seq<u8>, sibs: Seq<Seq<u8>>, x: Seq<u8>)
    ensures
        fold_hashes(h, sibs.push(x)) == combine_of(fold_hashes(h, sibs), x),
    decreases sibs.len(),
{
    reveal_with_fuel(fold_hashes, 3);
    if sibs.len() == 0 {
        assert(sibs.push(x)[0] == x);
        assert(sibs.push(x).skip(1) =~= Seq::<Seq<u8>>::empty());
    } else {
        assert(sibs.push(x)[0] == sibs[0]);
        assert(sibs.push(x).skip(1) =~= sibs.skip(1).push(x));
        lemma_fold_hashes_snoc(combine_of(h, sibs[0]), sibs.skip(1), x);
    }
}

/// True when every proof entry is 64 hex digits.
pub open spec fn all_entries_valid(entries: Seq<Seq<u8>>) -> bool {
    forall|i: int| 0 <= i < entries.len() ==> valid_hex_64(#[trigger] entries[i])
}

/// The 32-byte sibling digests named by a list of hex proof entries.
pub open spec fn decoded_entries(entries: Seq<Seq<u8>>) -> Seq<Seq<u8>> {
    entries.map_values(|e: Seq<u8>| hex_decoded(e))
}

/// The bytes of each proof entry string.
pub open spec fn entry_bytes(proof: Seq<String>) -> Seq<Seq<u8>> {
    proof.map_values(|p: String| vstd::utf8::encode_utf8(p@))
}

/// The exact outcome of a merkle membership check: a malformed entry or
/// root is reported as such, a well-formed proof that folds to anything but
/// the stored root is a verification mismatch, and only a proof that folds
/// exactly to the root succeeds.
pub open spec fn merkle_verdict(
    root: Seq<u8>,
    sender: Seq<u8>,
    amount: nat,
    entries: Seq<Seq<u8>>,
) -> Result<bool, ContractError> {
    if !all_entries_valid(entries) {
        Err(ContractError::MalformedHex)
    } else if !valid_hex_64(root) {
        Err(ContractError::MalformedHex)
    } else if fold_hashes(leaf_hash_of(sender, amount), decoded_entries(entries)) == hex_decoded(
        root,
    ) {
        Ok(true)
    } else {
        Err(ContractError::VerificationMismatch)
    }
}

/// Checks a claimed `(sender, amount)` leaf against the stored root: folds
/// the hex-encoded sibling digests into the leaf digest and demands that the
/// result equal the decoded root. Never returns `Ok(false)`; a wrong proof
/// is a hard failure, distinguished by kind from malformed input.
pub fn verify_merkle_proof(
    merkle_root: &str,
    sender: &str,
    amount: u128,
    proof: &Vec<String>,
) -> (r: Result<bool, ContractError>)
    ensures
        r == merkle_verdict(
            merkle_root.spec_bytes(),
            sender.spec_bytes(),
            amount as nat,
            entry_bytes(proof@),
        ),
{
    let ghost entries = entry_bytes(proof@);
    let mut hash = leaf_hash(sender, amount);
    let mut i: usize = 0;
    while i < proof.len()
        invariant
            entries == entry_bytes(proof@),
            entries.len() == proof@.len(),
            i <= proof@.len(),
            forall|j: int| 0 <= j < i ==> valid_hex_64(#[trigger] entries[j]),
            hash@ == fold_hashes(
                leaf_hash_of(sender.spec_bytes(), amount as nat),
                decoded_entries(entries.take(i as int)),
            ),
            hash@.len() == 32,
        decreases proof@.len() - i,
    {
        proof {
            assert(entries[i as int] == vstd::utf8::encode_utf8(proof@[i as int]@));
        }
        let entry: &String = &proof[i];
        let sib = match hex_decode_32(entry.as_str()) {
            Ok(v) => v,
            Err(_) => {
                proof {
                    assert(!valid_hex_64(entries[i as int]));
                }
                return Err(ContractError::MalformedHex);
            },
        };
        hash = combine_hashes(&hash, &sib);
        proof {
            assert(decoded_entries(entries.take(i + 1)) =~= decoded_entries(
                entries.take(i as int),
            ).push(hex_decoded(entries[i as int])));
            lemma_fold_hashes_snoc(
                leaf_hash_of(sender.spec_bytes(), amount as nat),
                decoded_entries(entries.take(i as int)),
                hex_decoded(entries[i as int]),
            );
        }
        i = i + 1;
    }
    proof {
        assert(entries.take(i as int) =~= entries);
    }
    let root = match hex_decode_32(merkle_root) {
        Ok(v) => v,
        Err(_) => {
            return Err(ContractError::MalformedHex);
        },
    };
    if bytes_eq(&hash, &root) {
        Ok(true)
    } else {
        Err(ContractError::VerificationMismatch)
    }
}

/// A membership tree over leaf digests, as the external proof builder sees
/// it: every inner node's digest combines the digests of its two children.
pub enum HashTree {
    Leaf { hash: Seq<u8> },
    Node { left: Box<HashTree>, right: Box<HashTree> },
}

/// The digest at the top of a tree.
pub open spec fn root_of(t: HashTree) -> Seq<u8>
    decreases t,
{
    match t {
        HashTree::Leaf { hash } => hash,
        HashTree::Node { left, right } => combine_of(root_of(*left), root_of(*right)),
    }
}

/// True when `path` leads from the root of `t` down to a leaf; `false`
/// turns left, `true` turns right.
pub open spec fn valid_path(t: HashTree, path: Seq<bool>) -> bool
    decreases path.len(),
{
    match t {
        HashTree::Leaf { .. } => path.len() == 0,
        HashTree::Node { left, right } => path.len() > 0 && if !path[0] {
            valid_path(*left, path.skip(1))
        } else {
            valid_path(*right, path.skip(1))
        },
    }
}

/// The digest of the leaf that `path` reaches.
pub open spec fn leaf_at(t: HashTree, path: Seq<bool>) -> Seq<u8>
    recommends
        valid_path(t, path),
    decreases path.len(),
{
    match t {
        HashTree::Leaf { hash } => hash,
        HashTree::Node { left, right } => if path.len() == 0 {
            Seq::empty()
        } else if !path[0] {
            leaf_at(*left, path.skip(1))
        } else {
            leaf_at(*right, path.skip(1))
        },
    }
}

/// The sibling digests along `path`, ordered from the leaf up: exactly what
/// an external proof builder hands out as a membership proof.
pub open spec fn siblings(t: HashTree, path: Seq<bool>) -> Seq<Seq<u8>>
    recommends
        valid_path(t, path),
    decreases path.len(),
{
    match t {
        HashTree::Leaf { .. } => Seq::empty(),
        HashTree::Node { left, right } => if path.len() == 0 {
            Seq::empty()
        } else if !path[0] {
            siblings(*left, path.skip(1)).push(root_of(*right))
        } else {
            siblings(*right, path.skip(1)).push(root_of(*left))
        },
    }
}

/// Merkle round trip: for any tree and any leaf in it, folding the sibling
/// digests along the leaf's path into the leaf digest reproduces the root.
pub proof fn lemma_merkle_round_trip(t: HashTree, path: Seq<bool>)
    requires
        valid_path(t, path),
    ensures
        fold_hashes(leaf_at(t, path), siblings(t, path)) == root_of(t),
    decreases path.len(),
{
    match t {
        HashTree::Leaf { .. } => {
        },
        HashTree::Node { left, right } => {
            if !path[0] {
                lemma_merkle_round_trip(*left, path.skip(1));
                lemma_fold_hashes_snoc(
                    leaf_at(*left, path.skip(1)),
                    siblings(*left, path.skip(1)),
                    root_of(*right),
                );
            } else {
                lemma_merkle_round_trip(*right, path.skip(1));
                lemma_fold_hashes_snoc(
                    leaf_at(*right, path.skip(1)),
                    siblings(*right, path.skip(1)),
                    root_of(*left),
                );
                lemma_combine_symmetric(root_of(*right), root_of(*left));
            }
        },
    }
}

/// Merkle round trip, stated against the verifier itself: a proof whose hex
/// entries decode to the sibling digests of a leaf, checked against a root
/// that decodes to the digest at the top of the same tree, verifies.
pub proof fn lemma_valid_proof_verifies(
    t: HashTree,
    path: Seq<bool>,
    root: Seq<u8>,
    sender: Seq<u8>,
    amount: nat,
    entries: Seq<Seq<u8>>,
)
    requires
        valid_path(t, path),
        leaf_at(t, path) == leaf_hash_of(sender, amount),
        all_entries_valid(entries),
        entries.len() == siblings(t, path).len(),
        forall|i: int| 0 <= i < entries.len() ==> hex_decoded(#[trigger] entries[i]) == siblings(
            t,
            path,
        )[i],
        valid_hex_64(root),
        hex_decoded(root) == root_of(t),
    ensures
        merkle_verdict(root, sender, amount, entries) == Ok::<bool, ContractError>(true),
{
    lemma_merkle_round_trip(t, path);
    assert(decoded_entries(entries) =~= siblings(t, path));
}

/// True of the ASCII code of a lowercase hex digit. Distinct lowercase
/// digits always name distinct values, which tamper detection rests on;
/// an uppercase digit would name the same value as its lowercase twin.
pub open spec fn is_lower_hex_digit(b: u8) -> bool {
    (48 <= b && b <= 57) || (97 <= b && b <= 102)
}

/// Tamper sensitivity of the stored root: changing any single character of
/// a lowercase hex root that a proof verified against makes the same proof
/// fail with a verification mismatch.
pub proof fn lemma_root_tamper_fails(
    root1: Seq<u8>,
    root2: Seq<u8>,
    sender: Seq<u8>,
    amount: nat,
    entries: Seq<Seq<u8>>,
    k: int,
)
    requires
        merkle_verdict(root1, sender, amount, entries) == Ok::<bool, ContractError>(true),
        valid_hex_64(root2),
        0 <= k < 64,
        root1[k] != root2[k],
        is_lower_hex_digit(root1[k]),
        is_lower_hex_digit(root2[k]),
        forall|j: int| 0 <= j < 64 && j != k ==> root1[j] == root2[j],
    ensures
        merkle_verdict(root2, sender, amount, entries) == Err::<bool, ContractError>(
            ContractError::VerificationMismatch,
        ),
{
    let j = k / 2;
    assert(k == 2 * j || k == 2 * j + 1);
    assert(hex_decoded(root1)[j] == crate::hexcodec::hex_byte(root1[2 * j], root1[2 * j + 1]));
    assert(hex_decoded(root2)[j] == crate::hexcodec::hex_byte(root2[2 * j], root2[2 * j + 1]));
    assert(crate::hexcodec::hex_digit_value(root1[k]) != crate::hexcodec::hex_digit_value(
        root2[k],
    ));
    assert(hex_decoded(root1)[j] != hex_decoded(root2)[j]);
    assert(hex_decoded(root1) != hex_decoded(root2));
}

/// Verification is a pure function of its inputs: two outcomes computed over
/// identical inputs, with nothing changed in between, are identical.
pub proof fn lemma_merkle_verify_idempotent(
    root: Seq<u8>,
    sender: Seq<u8>,
    amount: nat,
    entries: Seq<Seq<u8>>,
    r1: Result<bool, ContractError>,
    r2: Result<bool, ContractError>,
)
    requires
        r1 == merkle_verdict(root, sender, amount, entries),
        r2 == merkle_verdict(root, sender, amount, entries),
    ensures
        r1 == r2,
{
}

} // verus!
