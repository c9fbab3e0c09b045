//! Request authentication with a shared secret (the second tier): the
//! canonical message, its HMAC-SHA256 under the decoded secret, and the
//! headers that carry it. Query strings are added to the path only after
//! signing.

use vstd::prelude::*;
use crate::error::Error;

verus! {

/// Credentials issued by the exchange for shared-secret authentication.
#[derive(Clone)]
pub struct ApiCreds {
    pub api_key: String,
    /// URL-safe base64 of the HMAC key.
    pub secret: String,
    pub passphrase: String,
}

impl ApiCreds {
    pub fn new(api_key: String, secret: String, passphrase: String) -> (r: ApiCreds)
        ensures
            r.api_key@ == api_key@,
            r.secret@ == secret@,
            r.passphrase@ == passphrase@,
    {
        ApiCreds { api_key, secret, passphrase }
    }
}

/// The headers of a request signed with the shared secret.
#[derive(Clone, Debug)]
pub struct L2Headers {
    pub address: String,
    pub api_key: String,
    pub passphrase: String,
    pub signature: String,
    pub timestamp: String,
}

pub open spec fn digit_char(d: nat) -> char {
    if d == 0 {
        '0'
    } else if d == 1 {
        '1'
    } else if d == 2 {
        '2'
    } else if d == 3 {
        '3'
    } else if d == 4 {
        '4'
    } else if d == 5 {
        '5'
    } else if d == 6 {
        '6'
    } else if d == 7 {
        '7'
    } else if d == 8 {
        '8'
    } else {
        '9'
    }
}

/// The decimal digits of `n`, with no leading zero.
pub open spec fn decimal_digits(n: nat) -> Seq<char>
    decreases n,
{
    if n < 10 {
        seq![digit_char(n)]
    } else {
        decimal_digits(n / 10).push(digit_char(n % 10))
    }
}

/// Relies on `u64::to_string`, which writes the number in decimal.
#[verifier::external_body]
pub(crate) fn u64_to_decimal(n: u64) -> (r: String)
    ensures
        r@ == decimal_digits(n as nat),
{
    n.to_string()
}

/// What URL-safe base64 decoding (with padding) gives on `s`, if it is valid.
pub uninterp spec fn base64url_decoded(s: Seq<char>) -> Option<Seq<u8>>;

/// The HMAC-SHA256 of the UTF-8 bytes of `message` under `key`.
pub uninterp spec fn hmac_sha256_of(key: Seq<u8>, message: Seq<char>) -> Seq<u8>;

/// URL-safe base64 of `bytes`, without padding.
pub uninterp spec fn base64url_nopad_of(bytes: Seq<u8>) -> Seq<char>;

/// Relies on `base64::engine::general_purpose::URL_SAFE` decoding, which refuses
/// text that is not canonical padded URL-safe base64.
#[verifier::external_body]
fn decode_secret(s: &str) -> (r: Option<Vec<u8>>)
    ensures
        r matches Some(v) ==> base64url_decoded(s@) == Some(v@),
        r is None ==> base64url_decoded(s@) is None,
{
    base64::Engine::decode(&base64::engine::general_purpose::URL_SAFE, s).ok()
}

/// Relies on `hmac::Hmac<sha2::Sha256>`: keyed with `key` (HMAC takes a key of
/// any length, so `new_from_slice` always succeeds), fed the bytes of
/// `message`, finalized.
#[verifier::external_body]
fn hmac_sha256(key: &Vec<u8>, message: &str) -> (r: Option<Vec<u8>>)
    ensures
        r is Some,
        r matches Some(v) ==> v@ == hmac_sha256_of(key@, message@),
{
    let mut mac = match <hmac::Hmac<sha2::Sha256> as hmac::Mac>::new_from_slice(key) {
        Ok(m) => m,
        Err(_) => return None,
    };
    hmac::Mac::update(&mut mac, message.as_bytes());
    Some(hmac::Mac::finalize(mac).into_bytes().to_vec())
}

/// Relies on `base64::engine::general_purpose::URL_SAFE_NO_PAD` encoding.
#[verifier::external_body]
fn encode_signature(bytes: &Vec<u8>) -> (r: String)
    ensures
        r@ == base64url_nopad_of(bytes@),
{
    base64::Engine::encode(&base64::engine::general_purpose::URL_SAFE_NO_PAD, bytes)
}

/// The string that is signed: timestamp, method, path and body, concatenated.
pub open spec fn l2_message(timestamp: u64, method: Seq<char>, path: Seq<char>, body: Option<Seq<char>>) -> Seq<char> {
    let b = match body {
        Some(b) => b,
        None => Seq::<char>::empty(),
    };
    decimal_digits(timestamp as nat) + method + path + b
}

/// The signature of a request: the URL-safe base64 of the HMAC of the message
/// under the decoded secret, if the secret decodes.
pub open spec fn l2_signature(secret: Seq<char>, timestamp: u64, method: Seq<char>, path: Seq<char>, body: Option<Seq<char>>) -> Option<Seq<char>> {
    match base64url_decoded(secret) {
        Some(key) => Some(base64url_nopad_of(hmac_sha256_of(key, l2_message(timestamp, method, path, body)))),
        None => None,
    }
}

/// Builds the canonical message that the shared-secret signature covers.
pub fn build_l2_message(timestamp: u64, method: &str, path: &str, body: Option<&str>) -> (r: String)
    ensures
        r@ == l2_message(timestamp, method@, path@, match body { Some(b) => Some(b@), None => None }),
{
    let mut message = u64_to_decimal(timestamp);
    message.append(method);
    message.append(path);
    match body {
        Some(b) => message.append(b),
        None => {},
    }
    message
}

/// Signs a request with the shared secret and returns its headers.
/// `path` is the request path without its query string; `body` the exact JSON
/// text sent, if any. Every call recomputes the signature from its inputs.
pub fn create_l2_headers(
    address: &str,
    creds: Option<&ApiCreds>,
    method: &str,
    path: &str,
    body: Option<&str>,
    timestamp: u64,
) -> (r: Result<L2Headers, Error>)
    ensures
        creds is None ==> (r matches Err(Error::AuthRequired(_))),
        creds matches Some(c) && base64url_decoded(c.secret@) is None ==> (r matches Err(Error::Signing(_))),
        creds matches Some(c) && base64url_decoded(c.secret@) is Some ==> r is Ok,
        r matches Ok(h) ==> {
            &&& creds matches Some(c)
            &&& Some(h.signature@) == l2_signature(c.secret@, timestamp, method@, path@, match body { Some(b) => Some(b@), None => None })
            &&& h.api_key@ == c.api_key@
            &&& h.passphrase@ == c.passphrase@
            &&& h.timestamp@ == decimal_digits(timestamp as nat)
            &&& h.address@ == address@
        },
{
    let creds = match creds {
        Some(c) => c,
        None => { return Err(Error::AuthRequired(String::from_str("API credentials required"))); },
    };
    let key = match decode_secret(creds.secret.as_str()) {
        Some(k) => k,
        None => { return Err(Error::Signing(String::from_str("API secret is not valid URL-safe base64"))); },
    };
    let message = build_l2_message(timestamp, method, path, body);
    let digest = match hmac_sha256(&key, message.as_str()) {
        Some(d) => d,
        None => { return Err(Error::Signing(String::from_str("HMAC could not be keyed"))); },
    };
    Ok(L2Headers {
        address: String::from_str(address),
        api_key: creds.api_key.clone(),
        passphrase: creds.passphrase.clone(),
        signature: encode_signature(&digest),
        timestamp: u64_to_decimal(timestamp),
    })
}

/// The signature depends on the secret, timestamp, method, path and body alone:
/// two requests that agree on them carry the same signature, and the timestamp
/// signed is the one given.
pub proof fn lemma_l2_signature_is_pure(
    secret: Seq<char>,
    timestamp: u64,
    method: Seq<char>,
    path: Seq<char>,
    body: Option<Seq<char>>,
    secret2: Seq<char>,
    timestamp2: u64,
    method2: Seq<char>,
    path2: Seq<char>,
    body2: Option<Seq<char>>,
)
    requires
        secret == secret2,
        timestamp == timestamp2,
        method == method2,
        path == path2,
        body == body2,
    ensures
        l2_signature(secret, timestamp, method, path, body) == l2_signature(secret2, timestamp2, method2, path2, body2),
        l2_message(timestamp, method, path, body).subrange(0, decimal_digits(timestamp as nat).len() as int)
            == decimal_digits(timestamp as nat),
{
    let d = decimal_digits(timestamp as nat);
    let b = match body {
        Some(b) => b,
        None => Seq::<char>::empty(),
    };
    assert((d + method + path + b).subrange(0, d.len() as int) =~= d);
}

/// `key=value` for one query parameter.
pub open spec fn query_pair(p: (String, String)) -> Seq<char> {
    p.0@ + seq!['='] + p.1@
}

/// The first `n` parameters as `k1=v1&k2=v2...`.
pub open spec fn query_string(params: Seq<(String, String)>, n: nat) -> Seq<char>
    decreases n,
{
    if n == 0 {
        Seq::<char>::empty()
    } else if n == 1 {
        query_pair(params[0])
    } else {
        query_string(params, (n - 1) as nat) + seq!['&'] + query_pair(params[n - 1])
    }
}

/// The request path sent: the signed base path, then `?` and the query
/// parameters where there are any.
pub fn build_request_path(base_path: &str, params: &Vec<(String, String)>) -> (r: String)
    ensures
        params@.len() == 0 ==> r@ == base_path@,
        params@.len() > 0 ==> r@ == base_path@ + seq!['?'] + query_string(params@, params@.len()),
{
    let mut path = String::from_str(base_path);
    if params.len() == 0 {
        return path;
    }
    proof {
        reveal_strlit("?");
        reveal_strlit("=");
        reveal_strlit("&");
    }
    path.append("?");
    let ghost start = path@;
    let mut i: usize = 0;
    while i < params.len()
        invariant
            i <= params@.len(),
            params@.len() > 0,
            start == base_path@ + seq!['?'],
            path@ == start + query_string(params@, i as nat),
            "="@ == seq!['='],
            "&"@ == seq!['&'],
        decreases params@.len() - i,
    {
        let ghost before = path@;
        if i > 0 {
            path.append("&");
        }
        path.append(params[i].0.as_str());
        path.append("=");
        path.append(params[i].1.as_str());
        proof {
            if i == 0 {
                assert(path@ =~= start + query_string(params@, 1));
            } else {
                assert(path@ =~= start + query_string(params@, (i + 1) as nat));
            }
        }
        i = i + 1;
    }
    path
}

} // verus!
