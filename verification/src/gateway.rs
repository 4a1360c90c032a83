//! The remote gateway's computational edge: what of a request can be computed
//! and checked without doing any I/O. Status codes are classified here, the
//! keyed-hash authorization of the asset-deletion endpoint is built here, and
//! the basic-authentication header is encoded here. The hash, hex and base64
//! primitives are outside crates, called through trusted wrappers; everything
//! around them is verified.

use vstd::prelude::*;
use vstd::string::StringSliceAdditionalSpecFns;

verus! {

/// How a gateway call can fail: the request never completed, the body did
/// not parse, access was denied, or the store answered with any other
/// non-success status.
#[derive(Clone, Copy, PartialEq, Eq, Structural, Debug)]
pub enum ApiError {
    NetworkError,
    DeserializationError,
    Forbidden,
    NotFound,
}

/// Classifies the status of a fetch of one album: 200 means the body is to
/// be parsed, 403 means access to the shared resource was denied, anything
/// else is a generic failure.
pub fn get_item_outcome(status: u16) -> (r: Result<(), ApiError>)
    ensures
        r == if status == 200 {
            Ok::<(), ApiError>(())
        } else if status == 403 {
            Err::<(), ApiError>(ApiError::Forbidden)
        } else {
            Err::<(), ApiError>(ApiError::NotFound)
        },
{
    if status == 200 {
        Ok(())
    } else if status == 403 {
        Err(ApiError::Forbidden)
    } else {
        Err(ApiError::NotFound)
    }
}

/// Classifies one fetch attempt end to end: a request that never completed
/// is a network error, then the status decides as [`get_item_outcome`] does.
pub fn fetch_outcome(completed: bool, status: u16) -> (r: Result<(), ApiError>)
    ensures
        r == if !completed {
            Err::<(), ApiError>(ApiError::NetworkError)
        } else if status == 200 {
            Ok::<(), ApiError>(())
        } else if status == 403 {
            Err::<(), ApiError>(ApiError::Forbidden)
        } else {
            Err::<(), ApiError>(ApiError::NotFound)
        },
{
    if !completed {
        Err(ApiError::NetworkError)
    } else {
        get_item_outcome(status)
    }
}

/// Classifies what came out of decoding a response body: a body that did not
/// parse is a deserialization error for that one call, nothing more.
pub fn parse_outcome<T>(parsed: Option<T>) -> (r: Result<T, ApiError>)
    ensures
        r == match parsed {
            Some(v) => Ok::<T, ApiError>(v),
            None => Err::<T, ApiError>(ApiError::DeserializationError),
        },
{
    match parsed {
        Some(v) => Ok(v),
        None => Err(ApiError::DeserializationError),
    }
}

/// Listing, upserting, uploading and asset deletion succeed exactly on
/// status 200.
pub fn ok_status(status: u16) -> (r: bool)
    ensures
        r == (status == 200),
{
    status == 200
}

/// Deleting an album or a sharing succeeds exactly on status 204.
pub fn delete_item_success(status: u16) -> (r: bool)
    ensures
        r == (status == 204),
{
    status == 204
}

/// The lowercase hex digit of a nibble.
pub open spec fn hex_digit(n: u8) -> char {
    if n == 0 {
        '0'
    } else if n == 1 {
        '1'
    } else if n == 2 {
        '2'
    } else if n == 3 {
        '3'
    } else if n == 4 {
        '4'
    } else if n == 5 {
        '5'
    } else if n == 6 {
        '6'
    } else if n == 7 {
        '7'
    } else if n == 8 {
        '8'
    } else if n == 9 {
        '9'
    } else if n == 10 {
        'a'
    } else if n == 11 {
        'b'
    } else if n == 12 {
        'c'
    } else if n == 13 {
        'd'
    } else if n == 14 {
        'e'
    } else {
        'f'
    }
}

/// Lowercase hex encoding: two digits per byte, high nibble first.
pub open spec fn hex_of(data: Seq<u8>) -> Seq<char>
    decreases data.len(),
{
    if data.len() == 0 {
        Seq::empty()
    } else {
        hex_of(data.drop_last()) + seq![
            hex_digit((data.last() / 16) as u8),
            hex_digit((data.last() % 16) as u8),
        ]
    }
}

/// Relies on `hex::encode`: each input byte becomes exactly two lowercase
/// hex digits, high nibble first, in input order.
#[verifier::external_body]
fn to_hex(data: &Vec<u8>) -> (r: String)
    ensures
        r@ == hex_of(data@),
{
    hex::encode(data.as_slice())
}

/// The SHA-1 digest as the `ring` crate computes it: a function of the input
/// bytes alone.
pub uninterp spec fn sha1_of(data: Seq<u8>) -> Seq<u8>;

/// Relies on `ring::digest::digest` with `SHA1_FOR_LEGACY_USE_ONLY`: the
/// 20-byte SHA-1 digest of the input, depending on the input alone. `ring`
/// panics on inputs at or beyond SHA-1's length limit of 2^61 bytes, so
/// those stay out.
#[verifier::external_body]
fn sha1_digest(data: &Vec<u8>) -> (r: Vec<u8>)
    requires
        data@.len() < 0x2000000000000000,
    ensures
        r@ == sha1_of(data@),
        r@.len() == 20,
{
    let digest = ring::digest::digest(&ring::digest::SHA1_FOR_LEGACY_USE_ONLY, data.as_slice());
    digest.as_ref().to_vec()
}

/// The lowercase hex rendering of the SHA-1 digest of the given bytes — the
/// shape of the asset store's request signatures.
pub fn signature_hex(data: &Vec<u8>) -> (r: String)
    requires
        data@.len() < 0x2000000000000000,
    ensures
        r@ == hex_of(sha1_of(data@)),
{
    let digest = sha1_digest(data);
    to_hex(&digest)
}

/// The canonical byte string the asset store expects to be signed for a
/// deletion: the asset's remote key, the literal `&timestamp=`, the request
/// timestamp, and the shared secret, in that order.
pub open spec fn canonical_delete_bytes(public_id: Seq<u8>, timestamp: Seq<u8>, secret: Seq<u8>)
    -> Seq<u8> {
    public_id + "&timestamp=".spec_bytes() + timestamp + secret
}

/// Builds the authorization signature of one asset deletion: the lowercase
/// hex SHA-1 of the canonical byte string. `None` only when the canonical
/// string would breach SHA-1's length limit, which no real request does.
pub fn delete_signature(public_id: &str, timestamp: &str, secret: &str) -> (r: Option<String>)
    ensures
        ({
            let canonical = canonical_delete_bytes(
                public_id.spec_bytes(),
                timestamp.spec_bytes(),
                secret.spec_bytes(),
            );
            match r {
                Some(sig) => sig@ == hex_of(sha1_of(canonical)) && canonical.len()
                    < 0x2000000000000000,
                None => canonical.len() >= 0x2000000000000000,
            }
        }),
{
    let mut bytes = public_id.as_bytes_vec();
    let mut mid = "&timestamp=".as_bytes_vec();
    bytes.append(&mut mid);
    let mut ts = timestamp.as_bytes_vec();
    bytes.append(&mut ts);
    let mut sec = secret.as_bytes_vec();
    bytes.append(&mut sec);
    if (bytes.len() as u64) < 0x2000000000000000u64 {
        Some(signature_hex(&bytes))
    } else {
        None
    }
}

/// What `base64::encode` returns for the given bytes: a function of the
/// input alone.
pub uninterp spec fn base64_of(data: Seq<u8>) -> Seq<char>;

/// Relies on `base64::encode`: the standard alphabet with padding, whose
/// output is a function of the input bytes alone and spends four characters
/// on every three-byte block begun.
#[verifier::external_body]
fn to_base64(data: &Vec<u8>) -> (r: String)
    ensures
        r@ == base64_of(data@),
        r@.len() == 4 * ((data@.len() + 2) / 3),
{
    base64::encode(data.as_slice())
}

/// Builds the `Basic` authorization header for the given credentials: the
/// word `Basic`, a space, and the base64 of `username:password`.
pub fn basic_auth_header(username: &str, password: &str) -> (r: String)
    ensures
        r@ == "Basic "@ + base64_of(
            username.spec_bytes() + ":".spec_bytes() + password.spec_bytes(),
        ),
{
    let mut creds = username.as_bytes_vec();
    let mut colon = ":".as_bytes_vec();
    creds.append(&mut colon);
    let mut pwd = password.as_bytes_vec();
    creds.append(&mut pwd);
    let encoded = to_base64(&creds);
    let mut r = "Basic ".to_owned();
    r.append(encoded.as_str());
    r
}

} // verus!
