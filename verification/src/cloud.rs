//! Remote-storage request signing and handle handling.
//!
//! The storage service authenticates mutating calls with a SHA-1
//! signature over the alphabetically ordered request parameters followed
//! by the account secret, hex-encoded.  The HTTP calls themselves live
//! outside; here stand the exact signature strings and the extraction of
//! a handle's public id.

use sha1::Digest;
use vstd::prelude::*;

verus! {

/// The SHA-1 digest (20 bytes) of a string's UTF-8 encoding.
pub uninterp spec fn sha1_of(msg: Seq<char>) -> Seq<u8>;

/// Relies on `sha1::Sha1::digest`: the digest is a function of the input
/// bytes alone and is 20 bytes long.
#[verifier::external_body]
fn sha1_digest(msg: &str) -> (r: Vec<u8>)
    ensures
        r@ == sha1_of(msg@),
        r@.len() == 20,
{
    sha1::Sha1::digest(msg.as_bytes()).to_vec()
}

/// The lower-case hex character of a value below 16.
pub open spec fn hex_digit(d: u8) -> char
    recommends
        d < 16,
{
    if d < 10 {
        ((d + 48) as u8) as char
    } else {
        ((d + 87) as u8) as char
    }
}

/// The lower-case hex encoding of a byte string, two characters per
/// byte, high nibble first.
pub open spec fn hex_of(bytes: Seq<u8>) -> Seq<char>
    decreases bytes.len(),
{
    if bytes.len() == 0 {
        Seq::empty()
    } else {
        seq![hex_digit(bytes.first() / 16), hex_digit(bytes.first() % 16)] + hex_of(
            bytes.drop_first(),
        )
    }
}

/// Relies on `hex::encode`: lower-case hex, two digits per byte, high
/// nibble first.
#[verifier::external_body]
fn hex_encode(bytes: &Vec<u8>) -> (r: String)
    ensures
        r@ == hex_of(bytes@),
{
    hex::encode(bytes)
}

/// The signature of an upload request: SHA-1 over
/// `timestamp=<t>` followed by the secret, in hex.
pub fn upload_signature(timestamp: &str, api_secret: &str) -> (r: String)
    ensures
        r@ == hex_of(sha1_of("timestamp="@ + timestamp@ + api_secret@)),
{
    let mut to_sign = String::from_str("timestamp=");
    to_sign.append(timestamp);
    to_sign.append(api_secret);
    let digest = sha1_digest(to_sign.as_str());
    hex_encode(&digest)
}

/// The signature of a deletion request: SHA-1 over
/// `public_id=<p>&timestamp=<t>` followed by the secret, in hex.  The
/// parameters stand in alphabetical order, as the service requires.
pub fn delete_signature(public_id: &str, timestamp: &str, api_secret: &str) -> (r: String)
    ensures
        r@ == hex_of(
            sha1_of(
                "public_id="@ + public_id@ + "&timestamp="@ + timestamp@ + api_secret@,
            ),
        ),
{
    let mut to_sign = String::from_str("public_id=");
    to_sign.append(public_id);
    to_sign.append("&timestamp=");
    to_sign.append(timestamp);
    to_sign.append(api_secret);
    let digest = sha1_digest(to_sign.as_str());
    hex_encode(&digest)
}

/// The public id of a storage handle: the part after the last `/`, or
/// the whole string when it holds none.
pub open spec fn spec_public_id(s: Seq<char>) -> Seq<char>
    decreases s.len(),
{
    if s.len() == 0 {
        Seq::empty()
    } else if s[s.len() - 1] == '/' {
        Seq::empty()
    } else {
        spec_public_id(s.drop_last()).push(s[s.len() - 1])
    }
}

/// Extracts the public id from a storage URL: the segment after the
/// final `/`.
pub fn extract_public_id(file_url: &str) -> (r: String)
    ensures
        r@ == spec_public_id(file_url@),
{
    let n = file_url.unicode_len();
    let mut k: usize = n;
    while k > 0
        invariant
            k <= n,
            n == file_url@.len(),
            forall|j: int| k <= j < n ==> file_url@[j] != '/',
        decreases k,
    {
        if file_url.get_char(k - 1) == '/' {
            proof {
                lemma_public_id_after_slash(file_url@, k - 1);
            }
            let rest = file_url.substring_char(k, n);
            return String::from_str(rest);
        }
        k -= 1;
    }
    proof {
        lemma_public_id_no_slash(file_url@);
    }
    String::from_str(file_url)
}

proof fn lemma_public_id_after_slash(s: Seq<char>, i: int)
    requires
        0 <= i < s.len(),
        s[i] == '/',
        forall|j: int| i < j < s.len() ==> s[j] != '/',
    ensures
        spec_public_id(s) == s.subrange(i + 1, s.len() as int),
    decreases s.len(),
{
    if i == s.len() - 1 {
        assert(s.subrange(i + 1, s.len() as int) =~= Seq::<char>::empty());
    } else {
        let dropped = s.drop_last();
        lemma_public_id_after_slash(dropped, i);
        assert(dropped.subrange(i + 1, dropped.len() as int) =~= s.subrange(i + 1, s.len() - 1));
        assert(s.subrange(i + 1, s.len() as int) =~= s.subrange(i + 1, s.len() - 1).push(
            s[s.len() - 1],
        ));
    }
}

proof fn lemma_public_id_no_slash(s: Seq<char>)
    requires
        forall|j: int| 0 <= j < s.len() ==> s[j] != '/',
    ensures
        spec_public_id(s) == s,
    decreases s.len(),
{
    if s.len() > 0 {
        let dropped = s.drop_last();
        lemma_public_id_no_slash(dropped);
        assert(s =~= dropped.push(s[s.len() - 1]));
    }
}

} // verus!
