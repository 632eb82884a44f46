//! The scene snapshot and its placeholder digest.
//!
//! The digest is a cheap, deterministic mutation detector, not a
//! security-grade content hash: it folds a few stable features of the
//! snapshot into a fixed 32-byte token, and token equality is the sole
//! signal the evaluator uses to decide whether its two snapshot views
//! differ. A production deployment is expected to swap in a canonical
//! serialization followed by a cryptographic hash behind the same
//! bytes-in, token-out interface.

use vstd::prelude::*;
use vstd::string::StringSliceAdditionalSpecFns;
use vstd::utf8::encode_utf8;

verus! {

broadcast use vstd::array::group_array_axioms, vstd::slice::axiom_spec_len;

/// The UTF-8 byte length of a string of characters.
pub open spec fn utf8_len(s: Seq<char>) -> nat {
    encode_utf8(s).len()
}

/// An immutable record of simulated-scene identity and integrity anchors at
/// one instant. The evaluator treats it as read-only input and never writes to it.
#[derive(Debug, Clone, PartialEq, Eq)]
pub struct SceneCapsule {
    /// Opaque identifiers; the evaluator does not interpret them.
    pub scene_id: String,
    pub world_id: String,
    pub corridor_id: String,
    /// Opaque finality seal marker.
    pub finality_tag: String,
    /// Immutable content anchors.
    pub genesis_hash_sha256: [u8; 32],
    pub vaulted_blob_sha256: [u8; 32],
    /// Chain integrity anchors: current and previous ledger root.
    pub merkle_root: [u8; 32],
    pub prev_root: [u8; 32],
    /// Records an upstream impossible-worldline abort that must propagate.
    pub stage3_impossible_worldline: bool,
}

/// A fixed-size before/after comparison token over a `SceneCapsule`.
#[derive(Debug, Clone, Copy, PartialEq, Eq)]
pub struct CapsuleDigest(pub [u8; 32]);

/// The 32 bytes of the placeholder digest: the UTF-8 byte lengths (mod
/// 256) of the four identifier strings, the first 8 bytes of each content
/// and chain anchor except `prev_root`, the impossibility flag as one byte,
/// and three bytes of padding. Opaque: proofs that need the bytes reveal it.
#[verifier::opaque]
pub open spec fn spec_capsule_digest(sc: SceneCapsule) -> Seq<u8> {
    seq![
        (utf8_len(sc.scene_id@) % 256) as u8,
        (utf8_len(sc.world_id@) % 256) as u8,
        (utf8_len(sc.corridor_id@) % 256) as u8,
        (utf8_len(sc.finality_tag@) % 256) as u8,
        sc.genesis_hash_sha256@[0],
        sc.genesis_hash_sha256@[1],
        sc.genesis_hash_sha256@[2],
        sc.genesis_hash_sha256@[3],
        sc.genesis_hash_sha256@[4],
        sc.genesis_hash_sha256@[5],
        sc.genesis_hash_sha256@[6],
        sc.genesis_hash_sha256@[7],
        sc.vaulted_blob_sha256@[0],
        sc.vaulted_blob_sha256@[1],
        sc.vaulted_blob_sha256@[2],
        sc.vaulted_blob_sha256@[3],
        sc.vaulted_blob_sha256@[4],
        sc.vaulted_blob_sha256@[5],
        sc.vaulted_blob_sha256@[6],
        sc.vaulted_blob_sha256@[7],
        sc.merkle_root@[0],
        sc.merkle_root@[1],
        sc.merkle_root@[2],
        sc.merkle_root@[3],
        sc.merkle_root@[4],
        sc.merkle_root@[5],
        sc.merkle_root@[6],
        sc.merkle_root@[7],
        if sc.stage3_impossible_worldline { 1u8 } else { 0u8 },
        0u8,
        0u8,
        0u8,
    ]
}

/// The UTF-8 byte length of `s`, reduced mod 256 to fit one digest byte.
fn length_byte(s: &str) -> (r: u8)
    ensures
        r == (utf8_len(s@) % 256) as u8,
{
    (s.as_bytes().len() % 256) as u8
}

/// Computes the placeholder digest of a snapshot: a pure, total fold that
/// is equal on snapshots agreeing in the fields it reads.
pub fn digest_scene_capsule_placeholder(sc: &SceneCapsule) -> (d: CapsuleDigest)
    ensures
        d.0@ == spec_capsule_digest(*sc),
{
    let out: [u8; 32] = [
        length_byte(sc.scene_id.as_str()),
        length_byte(sc.world_id.as_str()),
        length_byte(sc.corridor_id.as_str()),
        length_byte(sc.finality_tag.as_str()),
        sc.genesis_hash_sha256[0],
        sc.genesis_hash_sha256[1],
        sc.genesis_hash_sha256[2],
        sc.genesis_hash_sha256[3],
        sc.genesis_hash_sha256[4],
        sc.genesis_hash_sha256[5],
        sc.genesis_hash_sha256[6],
        sc.genesis_hash_sha256[7],
        sc.vaulted_blob_sha256[0],
        sc.vaulted_blob_sha256[1],
        sc.vaulted_blob_sha256[2],
        sc.vaulted_blob_sha256[3],
        sc.vaulted_blob_sha256[4],
        sc.vaulted_blob_sha256[5],
        sc.vaulted_blob_sha256[6],
        sc.vaulted_blob_sha256[7],
        sc.merkle_root[0],
        sc.merkle_root[1],
        sc.merkle_root[2],
        sc.merkle_root[3],
        sc.merkle_root[4],
        sc.merkle_root[5],
        sc.merkle_root[6],
        sc.merkle_root[7],
        if sc.stage3_impossible_worldline { 1 } else { 0 },
        0,
        0,
        0,
    ];
    proof {
        reveal(spec_capsule_digest);
        assert(out@ =~= spec_capsule_digest(*sc));
    }
    CapsuleDigest(out)
}

/// True when every byte of `s` is zero.
pub open spec fn all_zero_bytes(s: Seq<u8>) -> bool {
    forall|k: int| 0 <= k < s.len() ==> s[k] == 0
}

/// Compares two 32-byte anchors for equality of their contents.
pub fn bytes32_eq(a: &[u8; 32], b: &[u8; 32]) -> (r: bool)
    ensures
        r <==> a@ == b@,
{
    let mut i: usize = 0;
    while i < 32
        invariant
            0 <= i <= 32,
            forall|k: int| 0 <= k < i ==> a@[k] == b@[k],
        decreases 32 - i,
    {
        if a[i] != b[i] {
            return false;
        }
        i += 1;
    }
    proof {
        assert(a@ =~= b@);
    }
    true
}

/// Tests whether a 32-byte anchor is entirely zeroed.
pub fn bytes32_is_zero(a: &[u8; 32]) -> (r: bool)
    ensures
        r <==> all_zero_bytes(a@),
{
    let mut i: usize = 0;
    while i < 32
        invariant
            0 <= i <= 32,
            forall|k: int| 0 <= k < i ==> a@[k] == 0,
        decreases 32 - i,
    {
        if a[i] != 0 {
            return false;
        }
        i += 1;
    }
    true
}

} // verus!
