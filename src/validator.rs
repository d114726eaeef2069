//! Authentication of inbound requests: an Ed25519 signature, sent in hex,
//! over the timestamp followed by the raw body, under a public key that is
//! loaded once.
use vstd::prelude::*;
use vstd::utf8::encode_utf8;

verus! {

/// Whether a byte is a hex digit of either case.
pub open spec fn is_hex_digit(c: u8) -> bool {
    (48 <= c <= 57) || (65 <= c <= 70) || (97 <= c <= 102)
}

/// The value of a hex digit.
pub open spec fn hex_value(c: u8) -> int {
    if 48 <= c <= 57 {
        c - 48
    } else if 65 <= c <= 70 {
        c - 55
    } else {
        c - 87
    }
}

/// Whether a text is an even number of hex digits.
pub open spec fn is_hex(s: Seq<u8>) -> bool {
    s.len() % 2 == 0 && forall|i: int| 0 <= i < s.len() ==> is_hex_digit(#[trigger] s[i])
}

/// The bytes that a hex text stands for, high digit first.
pub open spec fn hex_decoded(s: Seq<u8>) -> Seq<u8> {
    Seq::new(s.len() / 2, |i: int| (hex_value(s[2 * i]) * 16 + hex_value(s[2 * i + 1])) as u8)
}

/// Relies on hex::decode: it accepts exactly an even number of hex digits
/// of either case, and gives one byte for each pair, high digit first.
#[verifier::external_body]
fn decode_hex(s: &[u8]) -> (r: Option<Vec<u8>>)
    ensures
        r is Some <==> is_hex(s@),
        r matches Some(v) ==> v@ == hex_decoded(s@),
{
    hex::decode(s).ok()
}

/// Whether bytes are a usable Ed25519 public key.
pub uninterp spec fn ed25519_key_ok(key: Seq<u8>) -> bool;

/// Relies on ed25519_dalek::PublicKey::from_bytes: it accepts 32 bytes that
/// decompress to a curve point, and nothing else.
#[verifier::external_body]
fn public_key_accepted(key: &[u8]) -> (r: bool)
    ensures
        r == ed25519_key_ok(key@),
        r ==> key@.len() == 32,
{
    ed25519_dalek::PublicKey::from_bytes(key).is_ok()
}

/// Whether a signature over a message verifies under a key.
pub uninterp spec fn ed25519_verifies(key: Seq<u8>, msg: Seq<u8>, sig: Seq<u8>) -> bool;

/// Relies on ed25519_dalek's `Verifier::verify` for `PublicKey`, with the key
/// and the signature read from bytes by `PublicKey::from_bytes` and
/// `Signature::from_bytes`; bytes that these refuse do not verify. The
/// answer depends on the three byte strings alone.
#[verifier::external_body]
fn signature_verifies(key: &[u8], msg: &[u8], sig: &[u8]) -> (r: bool)
    ensures
        r == ed25519_verifies(key@, msg@, sig@),
{
    match (ed25519_dalek::PublicKey::from_bytes(key), ed25519_dalek::Signature::from_bytes(sig)) {
        (Ok(k), Ok(s)) => ed25519_dalek::Verifier::verify(&k, msg, &s).is_ok(),
        _ => false,
    }
}

/// Why a configured public key was refused.
#[derive(Clone, Copy, Debug, PartialEq, Eq)]
pub enum KeyError {
    NotHex,
    WrongLength,
    NotOnCurve,
}

/// The verifier of request signatures, holding the application's public
/// key; it is built once, at start-up.
pub struct SignatureVerifier {
    key: Vec<u8>,
}

impl SignatureVerifier {
    /// The key's bytes.
    pub closed spec fn key(&self) -> Seq<u8> {
        self.key@
    }

    pub closed spec fn wf(&self) -> bool {
        self.key@.len() == 32 && ed25519_key_ok(self.key@)
    }

    /// Reads the public key from its hex form; a text that is not hex, that
    /// is not 32 bytes long or that is no curve point is refused.
    pub fn from_hex(hex: &str) -> (r: Result<SignatureVerifier, KeyError>)
        ensures
            !is_hex(encode_utf8(hex@)) <==> r == Err::<SignatureVerifier, KeyError>(KeyError::NotHex),
            (is_hex(encode_utf8(hex@)) && hex_decoded(encode_utf8(hex@)).len() != 32) <==> r == Err::<
                SignatureVerifier,
                KeyError,
            >(KeyError::WrongLength),
            (is_hex(encode_utf8(hex@)) && hex_decoded(encode_utf8(hex@)).len() == 32
                && !ed25519_key_ok(hex_decoded(encode_utf8(hex@)))) <==> r == Err::<
                SignatureVerifier,
                KeyError,
            >(KeyError::NotOnCurve),
            r matches Ok(v) ==> v.wf() && v.key() == hex_decoded(encode_utf8(hex@)),
    {
        match decode_hex(hex.as_bytes()) {
            None => Err(KeyError::NotHex),
            Some(key) => if key.len() != 32 {
                Err(KeyError::WrongLength)
            } else if !public_key_accepted(key.as_slice()) {
                Err(KeyError::NotOnCurve)
            } else {
                Ok(SignatureVerifier { key })
            },
        }
    }
}

/// The body of a request as the host delivers it.
pub enum RequestBody {
    Empty,
    Text(String),
    Binary(Vec<u8>),
}

/// The two signature headers of a request, as raw bytes, where present.
pub struct SignatureHeaders {
    pub signature: Option<Vec<u8>>,
    pub timestamp: Option<Vec<u8>>,
}

/// Why a request was not authenticated.
#[derive(Clone, Copy, Debug, PartialEq, Eq)]
pub enum AuthError {
    MissingHeader,
    MalformedSignature,
    InvalidBodyEncoding,
    VerificationFailed,
}

pub open spec fn bytes_view(o: Option<Vec<u8>>) -> Option<Seq<u8>> {
    match o {
        Some(v) => Some(v@),
        None => None,
    }
}

/// The body's text, where it is text.
pub open spec fn body_text(b: RequestBody) -> Option<Seq<char>> {
    match b {
        RequestBody::Text(s) => Some(s@),
        _ => None,
    }
}

/// The verdict on a request: both headers present, the signature an exact
/// 64 bytes of hex, the body text, and the signature valid over the
/// timestamp followed by the body's bytes.
pub open spec fn authenticate(
    key: Seq<u8>,
    signature: Option<Seq<u8>>,
    timestamp: Option<Seq<u8>>,
    body: Option<Seq<char>>,
) -> Result<(), AuthError> {
    match signature {
        None => Err(AuthError::MissingHeader),
        Some(s) => if !is_hex(s) || hex_decoded(s).len() != 64 {
            Err(AuthError::MalformedSignature)
        } else {
            match timestamp {
                None => Err(AuthError::MissingHeader),
                Some(t) => match body {
                    None => Err(AuthError::InvalidBodyEncoding),
                    Some(b) => if ed25519_verifies(key, t + encode_utf8(b), hex_decoded(s)) {
                        Ok(())
                    } else {
                        Err(AuthError::VerificationFailed)
                    },
                },
            }
        },
    }
}

/// A request is accepted only when both headers are there, the signature is
/// 64 bytes of hex, the body is text, and the signature verifies over the
/// timestamp followed by the body.
pub proof fn lemma_accepts_only_exact_match(
    key: Seq<u8>,
    signature: Option<Seq<u8>>,
    timestamp: Option<Seq<u8>>,
    body: Option<Seq<char>>,
)
    requires
        authenticate(key, signature, timestamp, body) is Ok,
    ensures
        signature is Some,
        timestamp is Some,
        body is Some,
        is_hex(signature->Some_0),
        hex_decoded(signature->Some_0).len() == 64,
        ed25519_verifies(
            key,
            timestamp->Some_0 + encode_utf8(body->Some_0),
            hex_decoded(signature->Some_0),
        ),
{
}

fn concat_bytes(a: &[u8], b: &[u8]) -> (r: Vec<u8>)
    ensures
        r@ == a@ + b@,
{
    let mut r: Vec<u8> = Vec::new();
    let mut i: usize = 0;
    while i < a.len()
        invariant
            i <= a@.len(),
            r@ == a@.subrange(0, i as int),
        decreases a@.len() - i,
    {
        r.push(a[i]);
        i = i + 1;
    }
    let mut j: usize = 0;
    while j < b.len()
        invariant
            j <= b@.len(),
            r@ == a@ + b@.subrange(0, j as int),
        decreases b@.len() - j,
    {
        r.push(b[j]);
        j = j + 1;
    }
    assert(a@.subrange(0, a@.len() as int) =~= a@);
    assert(b@.subrange(0, b@.len() as int) =~= b@);
    r
}

/// Authenticates a request. Nothing of the request is to be acted on
/// unless this returns `Ok`.
pub fn validate_discord_signature(
    verifier: &SignatureVerifier,
    headers: &SignatureHeaders,
    body: &RequestBody,
) -> (r: Result<(), AuthError>)
    ensures
        r == authenticate(
            verifier.key(),
            bytes_view(headers.signature),
            bytes_view(headers.timestamp),
            body_text(*body),
        ),
{
    let signature = match &headers.signature {
        None => {
            return Err(AuthError::MissingHeader);
        },
        Some(s) => match decode_hex(s.as_slice()) {
            None => {
                return Err(AuthError::MalformedSignature);
            },
            Some(d) => d,
        },
    };
    if signature.len() != 64 {
        return Err(AuthError::MalformedSignature);
    }
    let timestamp = match &headers.timestamp {
        None => {
            return Err(AuthError::MissingHeader);
        },
        Some(t) => t,
    };
    match body {
        RequestBody::Text(text) => {
            let content = concat_bytes(timestamp.as_slice(), text.as_str().as_bytes());
            if signature_verifies(verifier.key.as_slice(), content.as_slice(), signature.as_slice()) {
                Ok(())
            } else {
                Err(AuthError::VerificationFailed)
            }
        },
        _ => Err(AuthError::InvalidBodyEncoding),
    }
}

} // verus!
