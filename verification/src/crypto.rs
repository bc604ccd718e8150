//! Hashing, hex coding and secp256k1 signing, as the agent's authentication
//! needs them.  The digests and signatures come from the `sha2`, `sha3` and
//! `k256` crates; hex coding from the `hex` crate.
use vstd::prelude::*;
use sha2::Digest;
use k256::ecdsa::signature::hazmat::PrehashSigner;

verus! {

// ---------------------------------------------------------------------------
// Hex
// ---------------------------------------------------------------------------

/// Lowercase hex digit for a value below 16.
pub open spec fn hex_digit(v: int) -> char {
    if v < 10 {
        (('0' as int) + v) as char
    } else {
        (('a' as int) + v - 10) as char
    }
}

/// Lowercase hex encoding: two digits per byte, high nibble first.
pub open spec fn hex_lower(b: Seq<u8>) -> Seq<char>
    decreases b.len(),
{
    if b.len() == 0 {
        seq![]
    } else {
        hex_lower(b.drop_last()) + seq![hex_digit((b.last() / 16) as int), hex_digit((b.last() % 16) as int)]
    }
}

/// Hex text has two digits per byte.
pub proof fn lemma_hex_lower_len(b: Seq<u8>)
    ensures
        hex_lower(b).len() == 2 * b.len(),
    decreases b.len(),
{
    if b.len() > 0 {
        lemma_hex_lower_len(b.drop_last());
    }
}

/// Value of a hex digit of either case.
pub open spec fn hex_value(c: char) -> Option<int> {
    if '0' <= c && c <= '9' {
        Some((c as int) - ('0' as int))
    } else if 'a' <= c && c <= 'f' {
        Some((c as int) - ('a' as int) + 10)
    } else if 'A' <= c && c <= 'F' {
        Some((c as int) - ('A' as int) + 10)
    } else {
        None
    }
}

/// `s` has an even number of characters, all hex digits.
pub open spec fn is_hex_text(s: Seq<char>) -> bool {
    s.len() % 2 == 0 && forall|i: int| 0 <= i < s.len() ==> (#[trigger] hex_value(s[i])) is Some
}

/// The bytes that the hex text `s` denotes.
pub open spec fn hex_bytes(s: Seq<char>) -> Seq<u8> {
    Seq::new(
        s.len() / 2,
        |i: int| (hex_value(s[2 * i]).unwrap() * 16 + hex_value(s[2 * i + 1]).unwrap()) as u8,
    )
}

/// `hex::encode`: lowercase hex, two digits per byte.
#[verifier::external_body]
pub(crate) fn hex_encode(data: &[u8]) -> (r: String)
    ensures
        r@ == hex_lower(data@),
{
    hex::encode(data)
}

/// `hex::decode`: succeeds exactly when the text has an even number of
/// characters, all hex digits of either case, and then yields the bytes they
/// denote.
#[verifier::external_body]
pub(crate) fn hex_decode(s: &str) -> (r: Option<Vec<u8>>)
    ensures
        r is Some <==> is_hex_text(s@),
        r matches Some(b) ==> b@ == hex_bytes(s@),
{
    hex::decode(s).ok()
}

// ---------------------------------------------------------------------------
// Digests
// ---------------------------------------------------------------------------

/// The SHA-256 digest of `data`.
pub uninterp spec fn sha256(data: Seq<u8>) -> Seq<u8>;

/// The Keccak-256 digest of `data` (the Ethereum hash, not SHA3-256).
pub uninterp spec fn keccak256(data: Seq<u8>) -> Seq<u8>;

/// `sha2::Sha256::digest`.  The digest is named `sha256`; the crate documents
/// it as 32 bytes long.
#[verifier::external_body]
pub(crate) fn sha256_digest(data: &[u8]) -> (r: Vec<u8>)
    ensures
        r@ == sha256(data@),
        r@.len() == 32,
{
    sha2::Sha256::digest(data).to_vec()
}

/// `sha3::Keccak256::digest`.  The digest is named `keccak256`; the crate
/// documents it as 32 bytes long.
#[verifier::external_body]
pub(crate) fn keccak256_digest(data: &[u8]) -> (r: Vec<u8>)
    ensures
        r@ == keccak256(data@),
        r@.len() == 32,
{
    sha3::Keccak256::digest(data).to_vec()
}

// ---------------------------------------------------------------------------
// secp256k1
// ---------------------------------------------------------------------------

/// Big-endian value of a byte string.
pub open spec fn be_value(b: Seq<u8>) -> nat
    decreases b.len(),
{
    if b.len() == 0 {
        0
    } else {
        be_value(b.drop_last()) * 256 + b.last() as nat
    }
}

/// The order of the secp256k1 group.
pub open spec fn secp256k1_order() -> nat {
    0xFFFFFFFFFFFFFFFFFFFFFFFFFFFFFFFEBAAEDCE6AF48A03BBFD25E8CD0364141nat
}

/// What `k256::ecdsa::SigningKey::from_slice` accepts: 24 to 32 bytes (a
/// shorter slice is padded with leading zeros) whose big-endian value is a
/// non-zero scalar below the group order.
pub open spec fn valid_secret_key(b: Seq<u8>) -> bool {
    24 <= b.len() <= 32 && 0 < be_value(b) < secp256k1_order()
}

/// The deterministic (RFC 6979) ECDSA signature of a prehashed message under
/// a secret key: the 64 bytes `r || s` and the recovery id.
pub uninterp spec fn secp256k1_prehash_signature(key: Seq<u8>, prehash: Seq<u8>) -> Option<(Seq<u8>, u8)>;

/// The SEC1 uncompressed encoding (`0x04 || x || y`) of the public key of a
/// secret key.
pub uninterp spec fn secp256k1_public_key(key: Seq<u8>) -> Option<Seq<u8>>;

/// `SigningKey::from_slice` followed by `sign_prehash` returning
/// `(Signature, RecoveryId)`, the signature as `Signature::to_bytes` and the
/// id as `RecoveryId::to_byte`.  The result is named
/// `secp256k1_prehash_signature`: RFC 6979 makes it a function of the key and
/// the prehash.  The crate source shows: it fails when the key is not a valid
/// secret key; on success the signature has 64 bytes and the id is at most 3.
/// It also fails for a prehash shorter than 16 bytes and, with negligible
/// probability, inside the RFC 6979 loop; when exactly it succeeds is left
/// unsaid here.
#[verifier::external_body]
pub(crate) fn sign_prehash_recoverable(key: &[u8], prehash: &[u8]) -> (r: Option<(Vec<u8>, u8)>)
    ensures
        match r {
            Some((sig, id)) => secp256k1_prehash_signature(key@, prehash@) == Some((sig@, id)),
            None => secp256k1_prehash_signature(key@, prehash@) is None,
        },
        r is Some ==> valid_secret_key(key@),
        r matches Some((sig, id)) ==> sig@.len() == 64 && id <= 3,
{
    let signing_key = k256::ecdsa::SigningKey::from_slice(key).ok()?;
    let signed: Result<(k256::ecdsa::Signature, k256::ecdsa::RecoveryId), _> = signing_key.sign_prehash(prehash);
    let (sig, id) = signed.ok()?;
    Some((sig.to_bytes().to_vec(), id.to_byte()))
}

/// `SigningKey::from_slice` followed by `verifying_key().to_encoded_point(false)`.
/// The result is named `secp256k1_public_key`.  The crate source shows that it
/// succeeds exactly for a valid secret key, and that the uncompressed
/// encoding has 65 bytes beginning with `0x04`.
#[verifier::external_body]
pub(crate) fn public_key_uncompressed(key: &[u8]) -> (r: Option<Vec<u8>>)
    ensures
        match r {
            Some(p) => secp256k1_public_key(key@) == Some(p@),
            None => secp256k1_public_key(key@) is None,
        },
        r is Some <==> valid_secret_key(key@),
        r matches Some(p) ==> p@.len() == 65 && p@[0] == 4u8,
{
    let signing_key = k256::ecdsa::SigningKey::from_slice(key).ok()?;
    let point = signing_key.verifying_key().to_encoded_point(false);
    Some(point.as_bytes().to_vec())
}

} // verus!
