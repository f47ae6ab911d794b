//! Merkle-inclusion proofs with sorted-pair hashing.
use vstd::prelude::*;
use vstd::bytes::{spec_u64_to_le_bytes, u64_to_le_bytes};

verus! {

/// The Keccak-256 digest of a byte string.
pub uninterp spec fn keccak256(data: Seq<u8>) -> Seq<u8>;

/// Relies on `solana_program::keccak::hashv`, which feeds each slice to one
/// Keccak-256 hasher in turn: the digest of the two slices concatenated.
#[verifier::external_body]
fn keccak_hashv(a: &[u8], b: &[u8]) -> (r: [u8; 32])
    ensures
        r@ == keccak256(a@ + b@),
{
    anchor_lang::solana_program::keccak::hashv(&[a, b]).to_bytes()
}

/// Byte-wise lexicographic "less than" on two strings of equal length.
pub open spec fn lex_lt(a: Seq<u8>, b: Seq<u8>) -> bool {
    exists|i: int|
        0 <= i < a.len() && i < b.len() && a[i] < b[i]
            && (forall|k: int| 0 <= k < i ==> a[k] == b[k])
}

/// The two hashes concatenated, the lexicographically smaller first.
pub open spec fn sorted_pair(h: Seq<u8>, p: Seq<u8>) -> Seq<u8> {
    if lex_lt(h, p) {
        h + p
    } else {
        p + h
    }
}

/// The hash reached from `leaf` by combining it with each sibling of `proof`
/// in order.
pub open spec fn fold_root(leaf: Seq<u8>, proof: Seq<[u8; 32]>) -> Seq<u8>
    decreases proof.len(),
{
    if proof.len() == 0 {
        leaf
    } else {
        keccak256(sorted_pair(fold_root(leaf, proof.drop_last()), proof.last()@))
    }
}

/// The leaf that commits to a caller and an amount.
pub open spec fn leaf_of(user: Seq<u8>, amount: u64) -> Seq<u8> {
    keccak256(user + spec_u64_to_le_bytes(amount))
}

/// Whether `proof` takes `leaf` to `root`.
pub open spec fn proof_accepts(leaf: Seq<u8>, proof: Seq<[u8; 32]>, root: Seq<u8>) -> bool {
    fold_root(leaf, proof) == root
}

/// Lexicographic comparison of two 32-byte strings.
pub fn bytes_lt(a: &[u8; 32], b: &[u8; 32]) -> (r: bool)
    ensures
        r == lex_lt(a@, b@),
{
    let mut i: usize = 0;
    while i < 32
        invariant
            i <= 32,
            a@.len() == 32,
            b@.len() == 32,
            forall|k: int| 0 <= k < i ==> a@[k] == b@[k],
        decreases 32 - i,
    {
        if a[i] != b[i] {
            if a[i] < b[i] {
                assert(a@[i as int] < b@[i as int]);
                return true;
            } else {
                assert forall|j: int|
                    !(0 <= j < a@.len() && j < b@.len() && a@[j] < b@[j] && (forall|k: int|
                        0 <= k < j ==> a@[k] == b@[k])) by {
                    if 0 <= j < a@.len() && j < b@.len() && a@[j] < b@[j] && (forall|k: int|
                        0 <= k < j ==> a@[k] == b@[k]) {
                        if j > i {
                            assert(a@[i as int] == b@[i as int]);
                        }
                    }
                }
                return false;
            }
        }
        i = i + 1;
    }
    assert forall|j: int|
        !(0 <= j < a@.len() && j < b@.len() && a@[j] < b@[j] && (forall|k: int|
            0 <= k < j ==> a@[k] == b@[k])) by {
        if 0 <= j < a@.len() && j < b@.len() {
            assert(a@[j] == b@[j]);
        }
    }
    false
}

/// Byte-wise equality of two 32-byte strings.
pub fn bytes_eq(a: &[u8; 32], b: &[u8; 32]) -> (r: bool)
    ensures
        r == (a@ == b@),
{
    let mut i: usize = 0;
    while i < 32
        invariant
            i <= 32,
            a@.len() == 32,
            b@.len() == 32,
            forall|k: int| 0 <= k < i ==> a@[k] == b@[k],
        decreases 32 - i,
    {
        if a[i] != b[i] {
            return false;
        }
        i = i + 1;
    }
    assert(a@ =~= b@);
    true
}

/// The 64 bytes that one step of a proof hashes: the running hash and the
/// sibling, the lexicographically smaller first.
pub fn sorted_concat(h: &[u8; 32], p: &[u8; 32]) -> (r: Vec<u8>)
    ensures
        r@ == sorted_pair(h@, p@),
{
    let lt = bytes_lt(h, p);
    let (first, second) = if lt {
        (h, p)
    } else {
        (p, h)
    };
    let mut r: Vec<u8> = Vec::new();
    let mut i: usize = 0;
    while i < 32
        invariant
            i <= 32,
            first@.len() == 32,
            r@ =~= first@.subrange(0, i as int),
        decreases 32 - i,
    {
        r.push(first[i]);
        i = i + 1;
    }
    let mut j: usize = 0;
    while j < 32
        invariant
            j <= 32,
            first@.len() == 32,
            second@.len() == 32,
            r@ =~= first@ + second@.subrange(0, j as int),
        decreases 32 - j,
    {
        r.push(second[j]);
        j = j + 1;
    }
    assert(second@.subrange(0, 32) =~= second@);
    r
}

/// One step of a proof: the hash of the running hash and a sibling, ordered.
pub fn combine(h: &[u8; 32], p: &[u8; 32]) -> (r: [u8; 32])
    ensures
        r@ == keccak256(sorted_pair(h@, p@)),
{
    if bytes_lt(h, p) {
        keccak_hashv(h.as_slice(), p.as_slice())
    } else {
        keccak_hashv(p.as_slice(), h.as_slice())
    }
}

/// The root that `proof` reaches from `leaf`.
pub fn compute_root(leaf: &[u8; 32], proof: &Vec<[u8; 32]>) -> (r: [u8; 32])
    ensures
        r@ == fold_root(leaf@, proof@),
{
    let mut hash: [u8; 32] = *leaf;
    let mut i: usize = 0;
    while i < proof.len()
        invariant
            i <= proof@.len(),
            hash@ == fold_root(leaf@, proof@.subrange(0, i as int)),
        decreases proof@.len() - i,
    {
        let p = proof[i];
        let next = combine(&hash, &p);
        proof {
            let s = proof@.subrange(0, i + 1);
            assert(s.drop_last() =~= proof@.subrange(0, i as int));
            assert(s.last() == p);
        }
        hash = next;
        i = i + 1;
    }
    assert(proof@.subrange(0, proof@.len() as int) =~= proof@);
    hash
}

/// Checks that `proof` takes `leaf` to `root`. A malformed proof is simply
/// rejected.
pub fn verify_proof(leaf: &[u8; 32], proof: &Vec<[u8; 32]>, root: &[u8; 32]) -> (r: bool)
    ensures
        r == proof_accepts(leaf@, proof@, root@),
{
    let computed = compute_root(leaf, proof);
    bytes_eq(&computed, root)
}

/// The leaf hash for a caller identity and an amount: the digest of the
/// identity followed by the amount's eight little-endian bytes.
pub fn leaf_hash(user: &[u8; 32], amount: u64) -> (r: [u8; 32])
    ensures
        r@ == leaf_of(user@, amount),
{
    let amount_bytes = u64_to_le_bytes(amount);
    keccak_hashv(user.as_slice(), amount_bytes.as_slice())
}

/// A root built by folding a leaf with its siblings accepts that leaf and
/// those siblings.
pub proof fn lemma_folded_root_accepts(leaf: Seq<u8>, proof: Seq<[u8; 32]>)
    ensures
        proof_accepts(leaf, proof, fold_root(leaf, proof)),
{
}

} // verus!
