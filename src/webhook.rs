use vstd::prelude::*;

use hmac::Mac;
use vstd::utf8::encode_utf8;

use crate::config::RouteConfig;
use crate::github::{event_read, message_of, normalized, GitHubEvent};
use crate::json::{body_document, ParseError};
use crate::telegram::{route_targets, targets_of};
use crate::text::prefix_of;

verus! {

/// HMAC-SHA256 of `msg` under `key`.
pub uninterp spec fn hmac_sha256_of(key: Seq<u8>, msg: Seq<u8>) -> Seq<u8>;

/// Value of one hexadecimal digit, either case.
pub open spec fn hex_val(c: u8) -> Option<u8> {
    if 48 <= c <= 57 {
        Some((c - 48) as u8)
    } else if 65 <= c <= 70 {
        Some((c - 55) as u8)
    } else if 97 <= c <= 102 {
        Some((c - 87) as u8)
    } else {
        None
    }
}

/// Bytes spelled by a hexadecimal text, two digits per byte; `None` for an
/// odd length or a character that is not a hexadecimal digit.
pub open spec fn hex_decoded(s: Seq<u8>) -> Option<Seq<u8>> {
    if s.len() % 2 == 0 && forall|i: int| 0 <= i < s.len() ==> (#[trigger] hex_val(s[i])).is_some() {
        Some(
            Seq::new(
                (s.len() / 2) as nat,
                |i: int| (hex_val(s[2 * i]).unwrap() * 16 + hex_val(s[2 * i + 1]).unwrap()) as u8,
            ),
        )
    } else {
        None
    }
}

/// Lower-case hexadecimal digit of a value below 16.
pub open spec fn hex_digit(n: u8) -> u8 {
    if n < 10 {
        (n + 48) as u8
    } else {
        (n + 87) as u8
    }
}

/// Lower-case hexadecimal spelling of a byte string.
pub open spec fn hex_encoded(b: Seq<u8>) -> Seq<u8> {
    Seq::new(
        2 * b.len(),
        |i: int|
            if i % 2 == 0 {
                hex_digit(b[i / 2] / 16)
            } else {
                hex_digit(b[i / 2] % 16)
            },
    )
}

/// A signature is accepted exactly when it is the hexadecimal spelling of the
/// HMAC-SHA256 of the body under the secret.
pub open spec fn signature_valid(secret: Seq<u8>, body: Seq<u8>, signature: Seq<u8>) -> bool {
    hex_decoded(signature) == Some(hmac_sha256_of(secret, body))
}

/// Relies on hex::decode: bytes from pairs of hexadecimal digits of either
/// case, an error on an odd length or a non-digit.
#[verifier::external_body]
fn hex_decode(s: &[u8]) -> (r: Option<Vec<u8>>)
    ensures
        match r {
            Some(v) => hex_decoded(s@) == Some(v@),
            None => hex_decoded(s@) is None,
        },
{
    hex::decode(s).ok()
}

/// Relies on hmac's `Hmac<Sha256>`: `new_from_slice` takes a key of any
/// length, and `finalize` yields the 32-byte tag of the bytes fed in.
#[verifier::external_body]
fn hmac_sha256(key: &[u8], msg: &[u8]) -> (r: Option<Vec<u8>>)
    ensures
        match r {
            Some(v) => v@ == hmac_sha256_of(key@, msg@) && v@.len() == 32,
            None => false,
        },
{
    let mut mac = match hmac::Hmac::<sha2::Sha256>::new_from_slice(key) {
        Ok(m) => m,
        Err(_) => return None,
    };
    mac.update(msg);
    Some(mac.finalize().into_bytes().to_vec())
}

/// Byte-wise equality of two byte strings.
fn bytes_eq(a: &[u8], b: &[u8]) -> (r: bool)
    ensures
        r == (a@ == b@),
{
    if a.len() != b.len() {
        return false;
    }
    let mut i: usize = 0;
    while i < a.len()
        invariant
            a@.len() == b@.len(),
            i <= a@.len(),
            forall|j: int| 0 <= j < i ==> a@[j] == b@[j],
        decreases a@.len() - i,
    {
        if a[i] != b[i] {
            return false;
        }
        i = i + 1;
    }
    assert(a@ =~= b@);
    true
}

/// Whether `signature` is the hexadecimal HMAC-SHA256 of `body` keyed with
/// `secret`. A signature that is not valid hexadecimal is rejected.
pub fn verify_signature(secret: &str, body: &[u8], signature: &str) -> (r: bool)
    ensures
        r == signature_valid(encode_utf8(secret@), body@, encode_utf8(signature@)),
{
    let expected = match hex_decode(signature.as_bytes()) {
        Some(v) => v,
        None => return false,
    };
    let actual = match hmac_sha256(secret.as_bytes(), body) {
        Some(v) => v,
        None => return false,
    };
    bytes_eq(expected.as_slice(), actual.as_slice())
}

/// The hexadecimal part of a signature header of the form `sha256=<hex>`;
/// `None` when the header is absent or lacks that prefix.
pub fn signature_from_header(header: Option<&str>) -> (r: Option<&str>)
    ensures
        match header {
            Some(h) => if "sha256="@.is_prefix_of(h@) {
                r matches Some(s) && s@ == h@.subrange("sha256="@.len() as int, h@.len() as int)
            } else {
                r is None
            },
            None => r is None,
        },
{
    match header {
        Some(h) => {
            let p = "sha256=";
            proof {
                reveal_strlit("sha256=");
                assert(p@.subrange(0, 7) =~= p@);
            }
            if prefix_of(p, 7, h) {
                Some(h.substring_char(7, h.unicode_len()))
            } else {
                None
            }
        },
        None => None,
    }
}

/// An inbound request is authentic when its signature header is present,
/// carries the `sha256=` prefix, and the rest is a valid signature.
pub open spec fn request_authentic(secret: Seq<char>, body: Seq<u8>, header: Option<&str>) -> bool {
    match header {
        Some(h) => "sha256="@.is_prefix_of(h@) && signature_valid(
            encode_utf8(secret),
            body,
            encode_utf8(h@.subrange("sha256="@.len() as int, h@.len() as int)),
        ),
        None => false,
    }
}

/// Authentication gate of an inbound request: the signature header must be
/// present, carry the `sha256=` prefix, and hold a valid signature.
pub fn authenticate(secret: &str, body: &[u8], header: Option<&str>) -> (r: bool)
    ensures
        r == request_authentic(secret@, body@, header),
{
    match signature_from_header(header) {
        Some(sig) => verify_signature(secret, body, sig),
        None => false,
    }
}

/// Why an inbound request was turned away.
#[derive(Debug, Clone, Copy, PartialEq, Eq)]
pub enum Rejection {
    /// Missing, malformed or wrong signature.
    Unauthorized,
    /// A body that holds no structured document.
    BadRequest(ParseError),
}

/// What an accepted request leads to: the normalised event, its message, and
/// the destinations to deliver that message to, in rule order.
#[derive(Debug, Clone)]
pub struct Dispatch {
    pub event: GitHubEvent,
    pub message: String,
    pub targets: Vec<i64>,
}

/// Handles one inbound request up to delivery: authenticate, then normalise,
/// then format and route. Authentication gates everything after it, and an
/// unreadable body stops the request before any delivery.
pub fn ingest(
    secret: &str,
    header: Option<&str>,
    event_type: &str,
    body: &[u8],
    routes: &[RouteConfig],
) -> (r: Result<Dispatch, Rejection>)
    ensures
        !request_authentic(secret@, body@, header) ==> r == Err::<Dispatch, Rejection>(
            Rejection::Unauthorized,
        ),
        request_authentic(secret@, body@, header) ==> match body_document(body@) {
            Err(e) => r == Err::<Dispatch, Rejection>(Rejection::BadRequest(e)),
            Ok(doc) => r matches Ok(d) && event_read(event_type@, doc, d.event) && normalized(d.event)
                && d.message@ == message_of(d.event) && d.targets@ == targets_of(routes@, d.event),
        },
{
    if !authenticate(secret, body, header) {
        return Err(Rejection::Unauthorized);
    }
    let event = match GitHubEvent::parse(event_type, body) {
        Ok(e) => e,
        Err(e) => return Err(Rejection::BadRequest(e)),
    };
    let message = event.format_message();
    let targets = route_targets(routes, &event);
    Ok(Dispatch { event, message, targets })
}

proof fn lemma_hex_digit(n: u8)
    requires
        n < 16,
    ensures
        hex_val(hex_digit(n)) == Some(n),
{
}

/// Hexadecimal decoding inverts lower-case hexadecimal encoding.
pub proof fn lemma_hex_round_trip(b: Seq<u8>)
    ensures
        hex_decoded(hex_encoded(b)) == Some(b),
{
    let s = hex_encoded(b);
    assert forall|i: int| 0 <= i < s.len() implies (#[trigger] hex_val(s[i])).is_some() by {
        if i % 2 == 0 {
            lemma_hex_digit(b[i / 2] / 16);
        } else {
            lemma_hex_digit(b[i / 2] % 16);
        }
    }
    let d = hex_decoded(s).unwrap();
    assert forall|j: int| 0 <= j < b.len() implies d[j] == b[j] by {
        assert((2 * j) % 2 == 0 && (2 * j) / 2 == j);
        assert((2 * j + 1) % 2 == 1 && (2 * j + 1) / 2 == j);
        lemma_hex_digit(b[j] / 16);
        lemma_hex_digit(b[j] % 16);
        assert((b[j] / 16) * 16 + b[j] % 16 == b[j]);
    }
    assert(d =~= b);
}

/// Verification accepts exactly the correct digest: the hexadecimal spelling
/// of the HMAC of the body under the secret is accepted, and a signature is
/// accepted only if it decodes to that HMAC.
pub proof fn lemma_accepts_exactly_the_digest(secret: Seq<u8>, body: Seq<u8>, signature: Seq<u8>)
    ensures
        signature_valid(secret, body, hex_encoded(hmac_sha256_of(secret, body))),
        signature_valid(secret, body, signature) <==> hex_decoded(signature) == Some(
            hmac_sha256_of(secret, body),
        ),
{
    lemma_hex_round_trip(hmac_sha256_of(secret, body));
}

} // verus!
