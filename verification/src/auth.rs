//! Request authentication: the EIP-191 message that every authenticated
//! request signs, signing it with a secp256k1 key, the wallet address a key
//! belongs to, and reading what the `awp-wallet` tool prints.
//!
//! Three signing modes exist, in priority order: a private key given in the
//! environment, a development bypass, and the `awp-wallet` tool.  Running
//! the tool is the caller's business; choosing the mode, preparing its
//! arguments and reading its output are done here.
use vstd::prelude::*;
use crate::crypto;
use crate::json::{self, Json};
use crate::text::{self, dec_nat};

verus! {

/// The headers that authenticate a request.
#[derive(Debug, PartialEq)]
pub struct AuthHeaders {
    pub address: String,
    pub timestamp: String,
    pub signature: String,
}

/// Why authentication could not be prepared.
#[derive(Debug, PartialEq)]
pub enum AuthError {
    /// The private key is not hex.
    InvalidKeyHex,
    /// The private key is not a valid secp256k1 secret key.
    InvalidKey,
    /// Signing failed.
    SigningFailed,
    /// The wallet session expired or its token is invalid (the tool's
    /// error output kept).
    SessionExpired(String),
    /// The wallet tool failed (exit status text, error output).
    WalletFailed(String, String),
    /// The wallet tool did not print JSON (its output kept).
    InvalidWalletJson(String),
    /// The wallet signed with another address than the one in use.
    AddressMismatch { expected: String, signer: String },
    /// The wallet's answer has no `signature`.
    MissingSignature,
    /// The wallet's `receive` answer has no address.
    MissingAddress,
    /// `awp-wallet unlock` printed no token.
    EmptyToken,
}

// ---------------------------------------------------------------------------
// The message
// ---------------------------------------------------------------------------

/// The text that authenticates one request.
pub open spec fn auth_message_spec(addr_lower: Seq<char>, timestamp: Seq<char>, method: Seq<char>, path: Seq<char>, body_hash: Seq<char>) -> Seq<char> {
    "AWP Predict WorkNet\nAddress: "@ + addr_lower + "\nTimestamp: "@ + timestamp + "\nMethod: "@
        + text::uppercase(method) + "\nPath: "@ + path + "\nBody-Hash: "@ + body_hash
}

/// The text that authenticates one request: address, timestamp, method (in
/// upper case), path and body hash, one per line under a fixed title.
pub fn auth_message(addr_lower: &str, timestamp: &str, method: &str, path: &str, body_hash: &str) -> (r: String)
    ensures
        r@ == auth_message_spec(addr_lower@, timestamp@, method@, path@, body_hash@),
{
    let mut out = text::chars_of("AWP Predict WorkNet\nAddress: ");
    text::push_str(&mut out, addr_lower);
    text::push_str(&mut out, "\nTimestamp: ");
    text::push_str(&mut out, timestamp);
    text::push_str(&mut out, "\nMethod: ");
    let m = text::to_uppercase(method);
    text::push_str(&mut out, m.as_str());
    text::push_str(&mut out, "\nPath: ");
    text::push_str(&mut out, path);
    text::push_str(&mut out, "\nBody-Hash: ");
    text::push_str(&mut out, body_hash);
    text::string_of(&out)
}

/// Texts that differ only in a middle part differ.
proof fn lemma_middle_differs(x: Seq<char>, u: Seq<char>, v: Seq<char>, y: Seq<char>)
    requires
        u != v,
    ensures
        x + u + y != x + v + y,
{
    if u.len() == v.len() {
        assert(!(u =~= v));
        let i = choose|i: int| 0 <= i < u.len() && u[i] != v[i];
        assert((x + u + y)[x.len() + i] == u[i]);
        assert((x + v + y)[x.len() + i] == v[i]);
    } else {
        assert((x + u + y).len() != (x + v + y).len());
    }
}

/// Each field of a request is bound by its message: two requests that differ
/// only in the address, only in the timestamp or only in the path sign
/// different messages, whatever the method.
pub proof fn lemma_auth_message_binds_fields(addr_lower: Seq<char>, timestamp: Seq<char>, method: Seq<char>,
    path: Seq<char>, body_hash: Seq<char>, other: Seq<char>)
    ensures
        addr_lower != other ==> auth_message_spec(addr_lower, timestamp, method, path, body_hash)
            != auth_message_spec(other, timestamp, method, path, body_hash),
        timestamp != other ==> auth_message_spec(addr_lower, timestamp, method, path, body_hash)
            != auth_message_spec(addr_lower, other, method, path, body_hash),
        path != other ==> auth_message_spec(addr_lower, timestamp, method, path, body_hash)
            != auth_message_spec(addr_lower, timestamp, method, other, body_hash),
{
    let title = "AWP Predict WorkNet\nAddress: "@;
    let m = text::uppercase(method);
    if addr_lower != other {
        let y = "\nTimestamp: "@ + timestamp + "\nMethod: "@ + m + "\nPath: "@ + path + "\nBody-Hash: "@ + body_hash;
        lemma_middle_differs(title, addr_lower, other, y);
        assert(auth_message_spec(addr_lower, timestamp, method, path, body_hash) =~= title + addr_lower + y);
        assert(auth_message_spec(other, timestamp, method, path, body_hash) =~= title + other + y);
    }
    if timestamp != other {
        let x = title + addr_lower + "\nTimestamp: "@;
        let y = "\nMethod: "@ + m + "\nPath: "@ + path + "\nBody-Hash: "@ + body_hash;
        lemma_middle_differs(x, timestamp, other, y);
        assert(auth_message_spec(addr_lower, timestamp, method, path, body_hash) =~= x + timestamp + y);
        assert(auth_message_spec(addr_lower, other, method, path, body_hash) =~= x + other + y);
    }
    if path != other {
        let x = title + addr_lower + "\nTimestamp: "@ + timestamp + "\nMethod: "@ + m + "\nPath: "@;
        let y = "\nBody-Hash: "@ + body_hash;
        lemma_middle_differs(x, path, other, y);
        assert(auth_message_spec(addr_lower, timestamp, method, path, body_hash) =~= x + path + y);
        assert(auth_message_spec(addr_lower, timestamp, method, other, body_hash) =~= x + other + y);
    }
}

/// Whatever the method, the request message starts with the fixed title and
/// the address and ends with the body hash on a `Body-Hash` line of its own,
/// so two requests with different body hashes sign different messages.
pub proof fn lemma_auth_message_binds_body_hash(addr_lower: Seq<char>, timestamp: Seq<char>, method: Seq<char>,
    path: Seq<char>, body_hash: Seq<char>, other_hash: Seq<char>)
    ensures
        ({
            let s = auth_message_spec(addr_lower, timestamp, method, path, body_hash);
            &&& s.len() >= body_hash.len() + 12
            &&& s.subrange(s.len() - body_hash.len() - 12, s.len() as int) == "\nBody-Hash: "@ + body_hash
            &&& s.take(29int + addr_lower.len()) == "AWP Predict WorkNet\nAddress: "@ + addr_lower
        }),
        body_hash != other_hash ==> auth_message_spec(addr_lower, timestamp, method, path, body_hash)
            != auth_message_spec(addr_lower, timestamp, method, path, other_hash),
{
    reveal_strlit("\nBody-Hash: ");
    reveal_strlit("AWP Predict WorkNet\nAddress: ");
    let head = "AWP Predict WorkNet\nAddress: "@ + addr_lower + "\nTimestamp: "@ + timestamp + "\nMethod: "@
        + text::uppercase(method) + "\nPath: "@ + path + "\nBody-Hash: "@;
    let s = auth_message_spec(addr_lower, timestamp, method, path, body_hash);
    let s2 = auth_message_spec(addr_lower, timestamp, method, path, other_hash);
    assert(s =~= head + body_hash);
    assert(s2 =~= head + other_hash);
    assert(s.subrange(s.len() - body_hash.len() - 12, s.len() as int) =~= "\nBody-Hash: "@ + body_hash);
    assert(s.take(29int + addr_lower.len()) =~= "AWP Predict WorkNet\nAddress: "@ + addr_lower);
    if body_hash != other_hash && s == s2 {
        assert(s.skip(head.len() as int) =~= body_hash);
        assert(s2.skip(head.len() as int) =~= other_hash);
    }
}

/// The lowercase hex SHA-256 digest of a request body, as the server
/// computes it.
pub fn body_hash_hex(body: &[u8]) -> (r: String)
    ensures
        r@ == crypto::hex_lower(crypto::sha256(body@)),
        r@.len() == 64,
{
    let d = crypto::sha256_digest(body);
    proof {
        crypto::lemma_hex_lower_len(d@);
    }
    crypto::hex_encode(d.as_slice())
}

fn push_bytes(out: &mut Vec<u8>, b: &[u8])
    ensures
        final(out)@ == old(out)@ + b@,
{
    let ghost start = out@;
    let mut i: usize = 0;
    while i < b.len()
        invariant
            i <= b@.len(),
            out@ == start + b@.take(i as int),
        decreases b@.len() - i,
    {
        out.push(b[i]);
        i = i + 1;
        assert(b@.take(i as int) == b@.take(i - 1).push(b@[i - 1]));
    }
    assert(b@.take(b@.len() as int) == b@);
}

/// The EIP-191 prefix for a message of `n` bytes.
pub open spec fn eip191_prefix(n: nat) -> Seq<u8> {
    vstd::utf8::encode_utf8("\x19Ethereum Signed Message:\n"@ + dec_nat(n))
}

/// The EIP-191 `personal_sign` hash of a message: Keccak-256 of the prefix
/// `"\x19Ethereum Signed Message:\n"`, the message length in decimal, and the
/// message.
pub fn personal_sign_hash(message: &[u8]) -> (r: Vec<u8>)
    ensures
        r@ == crypto::keccak256(eip191_prefix(message@.len()) + message@),
        r@.len() == 32,
{
    let mut p = text::chars_of("\x19Ethereum Signed Message:\n");
    text::push_u64(&mut p, message.len() as u64);
    let ps = text::string_of(&p);
    let mut data: Vec<u8> = Vec::new();
    push_bytes(&mut data, ps.as_str().as_bytes());
    push_bytes(&mut data, message);
    assert(data@ == eip191_prefix(message@.len()) + message@);
    crypto::keccak256_digest(data.as_slice())
}

// ---------------------------------------------------------------------------
// Keys
// ---------------------------------------------------------------------------

/// `s` without one leading `0x`.
pub open spec fn strip_0x(s: Seq<char>) -> Seq<char> {
    if s.len() >= 2 && s[0] == '0' && s[1] == 'x' {
        s.skip(2)
    } else {
        s
    }
}

/// `s` without one leading `0x` (what `strip_prefix("0x").unwrap_or(s)` gives).
pub fn strip_hex_prefix(s: &str) -> (r: String)
    ensures
        r@ == strip_0x(s@),
{
    let v = text::chars_of(s);
    if v.len() >= 2 && v[0] == '0' && v[1] == 'x' {
        let mut out: Vec<char> = Vec::new();
        let mut k: usize = 2;
        while k < v.len()
            invariant
                2 <= k <= v@.len(),
                out@ == v@.subrange(2, k as int),
            decreases v@.len() - k,
        {
            out.push(v[k]);
            k = k + 1;
        }
        text::string_of(&out)
    } else {
        text::string_of(&v)
    }
}

/// The secret key bytes of a hex private key with or without `0x`.
pub open spec fn key_bytes(pk_hex: Seq<char>) -> Option<Seq<u8>> {
    if crypto::is_hex_text(strip_0x(pk_hex)) {
        Some(crypto::hex_bytes(strip_0x(pk_hex)))
    } else {
        None
    }
}

fn decode_key(pk_hex: &str) -> (r: Result<Vec<u8>, AuthError>)
    ensures
        match key_bytes(pk_hex@) {
            Some(b) => r is Ok && r->Ok_0@ == b,
            None => r == Err::<Vec<u8>, AuthError>(AuthError::InvalidKeyHex),
        },
{
    let stripped = strip_hex_prefix(pk_hex);
    match crypto::hex_decode(stripped.as_str()) {
        Some(b) => Ok(b),
        None => Err(AuthError::InvalidKeyHex),
    }
}

/// The 65-byte signature `r || s || v` with `v` the recovery id plus 27, as
/// `0x`-prefixed lowercase hex.
pub open spec fn signature_text(sig: Seq<u8>, id: u8) -> Seq<char> {
    "0x"@ + crypto::hex_lower(sig.push((id + 27) as u8))
}

/// Signs the authentication message of a request with a private key given
/// in hex.  Fails when the key is not hex, or not a valid secret key, or
/// when the signer fails.
pub fn sign_with_key(pk_hex: &str, addr_lower: &str, timestamp: &str, method: &str, path: &str, body_hash: &str) -> (r: Result<String, AuthError>)
    ensures
        match key_bytes(pk_hex@) {
            None => r == Err::<String, AuthError>(AuthError::InvalidKeyHex),
            Some(key) => if !crypto::valid_secret_key(key) {
                r == Err::<String, AuthError>(AuthError::InvalidKey)
            } else {
                let hash = crypto::keccak256(
                    eip191_prefix(vstd::utf8::encode_utf8(auth_message_spec(addr_lower@, timestamp@, method@, path@, body_hash@)).len())
                    + vstd::utf8::encode_utf8(auth_message_spec(addr_lower@, timestamp@, method@, path@, body_hash@)),
                );
                match crypto::secp256k1_prehash_signature(key, hash) {
                    Some((sig, id)) => r is Ok && r->Ok_0@ == signature_text(sig, id),
                    None => r == Err::<String, AuthError>(AuthError::SigningFailed),
                }
            },
        },
{
    let key = decode_key(pk_hex)?;
    if crypto::public_key_uncompressed(key.as_slice()).is_none() {
        return Err(AuthError::InvalidKey);
    }
    let message = auth_message(addr_lower, timestamp, method, path, body_hash);
    let hash = personal_sign_hash(message.as_str().as_bytes());
    match crypto::sign_prehash_recoverable(key.as_slice(), hash.as_slice()) {
        Some((sig, id)) => {
            let mut bytes = sig;
            bytes.push(id + 27);
            let h = crypto::hex_encode(bytes.as_slice());
            Ok(text::concat2("0x", h.as_str()))
        },
        None => Err(AuthError::SigningFailed),
    }
}

/// The Ethereum address of a secret key: `0x` and the lowercase hex of the
/// last 20 bytes of the Keccak-256 hash of the uncompressed public key
/// without its leading byte.
pub open spec fn address_of_public_key(p: Seq<u8>) -> Seq<char> {
    "0x"@ + crypto::hex_lower(crypto::keccak256(p.skip(1)).skip(12))
}

/// The wallet address that a hex private key belongs to.
pub fn derive_address_from_key(pk_hex: &str) -> (r: Result<String, AuthError>)
    ensures
        match key_bytes(pk_hex@) {
            None => r == Err::<String, AuthError>(AuthError::InvalidKeyHex),
            Some(key) => match crypto::secp256k1_public_key(key) {
                Some(p) => r is Ok && r->Ok_0@ == address_of_public_key(p),
                None => r == Err::<String, AuthError>(AuthError::InvalidKey),
            },
        },
{
    let key = decode_key(pk_hex)?;
    match crypto::public_key_uncompressed(key.as_slice()) {
        Some(p) => {
            let mut tail: Vec<u8> = Vec::new();
            let mut k: usize = 1;
            while k < p.len()
                invariant
                    1 <= k <= p@.len(),
                    tail@ == p@.subrange(1, k as int),
                decreases p@.len() - k,
            {
                tail.push(p[k]);
                k = k + 1;
            }
            assert(tail@ == p@.skip(1));
            let h = crypto::keccak256_digest(tail.as_slice());
            let mut last: Vec<u8> = Vec::new();
            let mut j: usize = 12;
            while j < h.len()
                invariant
                    12 <= j <= h@.len(),
                    h@.len() == 32,
                    last@ == h@.subrange(12, j as int),
                decreases h@.len() - j,
            {
                last.push(h[j]);
                j = j + 1;
            }
            assert(last@ == h@.skip(12));
            let hx = crypto::hex_encode(last.as_slice());
            Ok(text::concat2("0x", hx.as_str()))
        },
        None => Err(AuthError::InvalidKey),
    }
}

// ---------------------------------------------------------------------------
// Choosing how to sign, and where the address comes from
// ---------------------------------------------------------------------------

/// How requests are signed.
#[derive(Debug, PartialEq)]
pub enum SigningMode {
    /// With the private key given in the environment.
    PrivateKey(String),
    /// Development bypass: the signature is the word `dev`.
    DevBypass,
    /// With the `awp-wallet` tool.
    Wallet,
}

/// The signing mode the environment selects: a private key when one is set,
/// else the development bypass when `AWP_DEV_MODE` is `true` or `1`, else the
/// wallet tool.
pub fn signing_mode(private_key: Option<&str>, dev_mode: Option<&str>) -> (r: SigningMode)
    ensures
        match private_key {
            Some(k) => r matches SigningMode::PrivateKey(x) && x@ == k@,
            None => match dev_mode {
                Some(d) => if d@ == "true"@ || d@ == "1"@ {
                    r is DevBypass
                } else {
                    r is Wallet
                },
                None => r is Wallet,
            },
        },
{
    match private_key {
        Some(k) => SigningMode::PrivateKey(text::to_owned_string(k)),
        None => match dev_mode {
            Some(d) => if json::eq_str(d, "true") || json::eq_str(d, "1") {
                SigningMode::DevBypass
            } else {
                SigningMode::Wallet
            },
            None => SigningMode::Wallet,
        },
    }
}

/// Where the wallet address comes from.
#[derive(Debug, PartialEq)]
pub enum AddressSource {
    /// Given in the environment (lowercased).
    Given(String),
    /// Derived from the private key in the environment.
    FromKey(String),
    /// Read from `awp-wallet receive`.
    Wallet,
}

/// The address source the environment selects: `AWP_ADDRESS` (lowercased),
/// else the private key, else the wallet tool.
pub fn address_source(address: Option<&str>, private_key: Option<&str>) -> (r: AddressSource)
    ensures
        match address {
            Some(a) => r matches AddressSource::Given(x) && x@ == text::lowercase(a@),
            None => match private_key {
                Some(k) => r matches AddressSource::FromKey(x) && x@ == k@,
                None => r is Wallet,
            },
        },
{
    match address {
        Some(a) => AddressSource::Given(text::to_lowercase(a)),
        None => match private_key {
            Some(k) => AddressSource::FromKey(text::to_owned_string(k)),
            None => AddressSource::Wallet,
        },
    }
}

// ---------------------------------------------------------------------------
// The wallet tool
// ---------------------------------------------------------------------------

/// The views of a list of strings.
pub open spec fn views(v: Seq<String>) -> Seq<Seq<char>> {
    v.map_values(|s: String| s@)
}

/// `base`, plus `--agent id` when the agent id is not empty.
pub open spec fn with_agent(base: Seq<Seq<char>>, agent_id: Seq<char>) -> Seq<Seq<char>> {
    if agent_id.len() == 0 {
        base
    } else {
        base + seq!["--agent"@, agent_id]
    }
}

fn push_agent(args: &mut Vec<String>, agent_id: &str)
    ensures
        views(final(args)@) == with_agent(views(old(args)@), agent_id@),
{
    if !agent_id.is_empty() {
        let ghost before = args@;
        args.push(text::to_owned_string("--agent"));
        args.push(text::to_owned_string(agent_id));
        assert(views(args@) =~= views(before) + seq!["--agent"@, agent_id@]);
    } else {
        assert(agent_id@.len() == 0);
    }
}

/// The arguments of `awp-wallet receive`.
pub fn receive_args(agent_id: &str) -> (r: Vec<String>)
    ensures
        views(r@) == with_agent(seq!["receive"@], agent_id@),
{
    let mut args: Vec<String> = Vec::new();
    args.push(text::to_owned_string("receive"));
    assert(views(args@) =~= seq!["receive"@]);
    push_agent(&mut args, agent_id);
    args
}

/// The arguments of `awp-wallet unlock` for a day-long, full-scope session
/// printing the bare token.
pub fn unlock_args(agent_id: &str) -> (r: Vec<String>)
    ensures
        views(r@) == with_agent(seq!["unlock"@, "--duration"@, "86400"@, "--scope"@, "full"@, "--raw"@], agent_id@),
{
    let mut args: Vec<String> = Vec::new();
    args.push(text::to_owned_string("unlock"));
    args.push(text::to_owned_string("--duration"));
    args.push(text::to_owned_string("86400"));
    args.push(text::to_owned_string("--scope"));
    args.push(text::to_owned_string("full"));
    args.push(text::to_owned_string("--raw"));
    assert(views(args@) =~= seq!["unlock"@, "--duration"@, "86400"@, "--scope"@, "full"@, "--raw"@]);
    push_agent(&mut args, agent_id);
    args
}

/// The token printed by `awp-wallet unlock`: its output trimmed, which must
/// not be empty.
pub fn token_from_unlock(stdout: &str) -> (r: Result<String, AuthError>)
    ensures
        text::trim(stdout@).len() == 0 ==> r == Err::<String, AuthError>(AuthError::EmptyToken),
        text::trim(stdout@).len() > 0 ==> r is Ok && r->Ok_0@ == text::trim(stdout@),
{
    let t = text::trim_str(stdout);
    if t.as_str().is_empty() {
        Err(AuthError::EmptyToken)
    } else {
        Ok(t)
    }
}

/// How a failed `awp-wallet sign-message` is reported: an expired or
/// invalid session when its error output says so, else a plain failure
/// (with the error output trimmed in both cases).
pub fn sign_failure(exit_code: &str, stderr: &str) -> (r: AuthError)
    ensures
        if text::contains(stderr@, "expired"@) || text::contains(stderr@, "invalid token"@) {
            r matches AuthError::SessionExpired(e) && e@ == text::trim(stderr@)
        } else {
            r matches AuthError::WalletFailed(c, e) && c@ == exit_code@ && e@ == text::trim(stderr@)
        },
{
    let t = text::trim_str(stderr);
    if text::contains_str(stderr, "expired") || text::contains_str(stderr, "invalid token") {
        AuthError::SessionExpired(t)
    } else {
        AuthError::WalletFailed(text::to_owned_string(exit_code), t)
    }
}

/// What a successful `awp-wallet sign-message` printed, read: the
/// signature, after checking that the signer, when reported, is the address
/// in use (ignoring case).
pub open spec fn signature_from_output_spec(stdout: Seq<char>, addr_lower: Seq<char>, r: Result<String, AuthError>) -> bool {
    match json::json_parse(stdout) {
        None => r matches Err(AuthError::InvalidWalletJson(o)) && o@ == text::trim(stdout),
        Some(v) => if v.field_str("signer"@) is Some && text::lowercase(v.field_str("signer"@).unwrap()) != addr_lower {
            r matches Err(AuthError::AddressMismatch { expected, signer }) && expected@ == addr_lower
                && signer@ == text::lowercase(v.field_str("signer"@).unwrap())
        } else {
            match v.field_str("signature"@) {
                Some(s) => r is Ok && r->Ok_0@ == s,
                None => r matches Err(AuthError::MissingSignature),
            }
        },
    }
}

/// Reads what a successful `awp-wallet sign-message` printed.
pub fn signature_from_output(stdout: &str, addr_lower: &str) -> (r: Result<String, AuthError>)
    ensures
        signature_from_output_spec(stdout@, addr_lower@, r),
{
    let v = match json::parse_json(stdout) {
        Some(v) => v,
        None => {
            return Err(AuthError::InvalidWalletJson(text::trim_str(stdout)));
        },
    };
    if let Some(signer) = v.field_str_exec("signer") {
        let s = text::to_lowercase(signer);
        if !json::eq_str(s.as_str(), addr_lower) {
            return Err(AuthError::AddressMismatch { expected: text::to_owned_string(addr_lower), signer: s });
        }
    }
    match v.field_str_exec("signature") {
        Some(s) => Ok(text::to_owned_string(s)),
        None => Err(AuthError::MissingSignature),
    }
}

/// Reads what a successful `awp-wallet receive` printed: `eoaAddress`, else
/// `address`, lowercased.
pub fn address_from_receive(stdout: &str) -> (r: Result<String, AuthError>)
    ensures
        match json::json_parse(stdout@) {
            None => r matches Err(AuthError::InvalidWalletJson(o)) && o@ == text::trim(stdout@),
            Some(v) => match v.field_str("eoaAddress"@) {
                Some(a) => r is Ok && r->Ok_0@ == text::lowercase(a),
                None => match v.field_str("address"@) {
                    Some(a) => r is Ok && r->Ok_0@ == text::lowercase(a),
                    None => r matches Err(AuthError::MissingAddress),
                },
            },
        },
{
    let v = match json::parse_json(stdout) {
        Some(v) => v,
        None => {
            return Err(AuthError::InvalidWalletJson(text::trim_str(stdout)));
        },
    };
    match v.field_str_exec("eoaAddress") {
        Some(a) => Ok(text::to_lowercase(a)),
        None => match v.field_str_exec("address") {
            Some(a) => Ok(text::to_lowercase(a)),
            None => Err(AuthError::MissingAddress),
        },
    }
}

/// The headers of an authenticated request.
pub fn auth_headers(address: &str, timestamp: String, signature: String) -> (r: AuthHeaders)
    ensures
        r.address@ == address@,
        r.timestamp == timestamp,
        r.signature == signature,
{
    AuthHeaders { address: text::to_owned_string(address), timestamp, signature }
}


/// The arguments of `awp-wallet sign-message` for `message`, with the
/// session token `token`.
pub fn sign_message_args(token: &str, message: &str) -> (r: Vec<String>)
    ensures
        views(r@) == seq!["sign-message"@, "--token"@, token@, "--message"@, message@],
{
    let mut args: Vec<String> = Vec::new();
    args.push(text::to_owned_string("sign-message"));
    args.push(text::to_owned_string("--token"));
    args.push(text::to_owned_string(token));
    args.push(text::to_owned_string("--message"));
    args.push(text::to_owned_string(message));
    assert(views(args@) =~= seq!["sign-message"@, "--token"@, token@, "--message"@, message@]);
    args
}

} // verus!
