//! The canonical query string of a call, its signature and the signed URL.

use vstd::prelude::*;
use vstd::string::*;
use vstd::utf8::*;
use crate::encode::{url_encode, url_encoded};
use crate::order::{
    distinct_names, lemma_given_order_is_irrelevant, pairs_view, sort_by_name, sorted_by_name,
    Pair,
};

verus! {

/// The HMAC-SHA1 code of a message under a key.
pub uninterp spec fn hmac_sha1_code(key: Seq<u8>, message: Seq<u8>) -> Seq<u8>;

/// The standard base64 text of a byte string, padded.
pub uninterp spec fn base64_text(bytes: Seq<u8>) -> Seq<char>;

/// The parameters that every call carries.
pub open spec fn baseline_params() -> Seq<Pair> {
    seq![
        ("Format"@, "JSON"@),
        ("SignatureMethod"@, "HMAC-SHA1"@),
        ("SignatureVersion"@, "1.0"@),
    ]
}

/// The parameters that each call adds for itself.
pub open spec fn call_params(
    action: Seq<char>,
    access_key_id: Seq<char>,
    nonce: Seq<char>,
    timestamp: Seq<char>,
    version: Seq<char>,
) -> Seq<Pair> {
    seq![
        ("Action"@, action),
        ("AccessKeyId"@, access_key_id),
        ("SignatureNonce"@, nonce),
        ("Timestamp"@, timestamp),
        ("Version"@, version),
    ]
}

/// All parameters of a call, before sorting: the baseline, the call's own,
/// then the caller's in the order given.
pub open spec fn merged_params(
    action: Seq<char>,
    access_key_id: Seq<char>,
    nonce: Seq<char>,
    timestamp: Seq<char>,
    version: Seq<char>,
    query: Seq<Pair>,
) -> Seq<Pair> {
    baseline_params() + call_params(action, access_key_id, nonce, timestamp, version) + query
}

/// One parameter on the wire: encoded name, `=`, encoded value.
pub open spec fn encoded_pair(p: Pair) -> Seq<char> {
    url_encoded(p.0) + "="@ + url_encoded(p.1)
}

/// The encoded parameters in the order given, joined by `&`.
pub open spec fn joined_pairs(ps: Seq<Pair>) -> Seq<char>
    decreases ps.len(),
{
    if ps.len() == 0 {
        Seq::empty()
    } else if ps.len() == 1 {
        encoded_pair(ps[0])
    } else {
        joined_pairs(ps.drop_last()) + "&"@ + encoded_pair(ps.last())
    }
}

/// The canonical query string: the parameters sorted by name, encoded and
/// joined.
pub open spec fn canonical_query_of(params: Seq<Pair>) -> Seq<char> {
    joined_pairs(sorted_by_name(params))
}

/// The text that is signed: the method, the encoded root path and the encoded
/// canonical query string, joined by `&`.
pub open spec fn string_to_sign_of(canonical: Seq<char>) -> Seq<char> {
    "GET&"@ + url_encoded("/"@) + "&"@ + url_encoded(canonical)
}

/// The base64 text of the HMAC-SHA1 code of `body` under `key`, both taken
/// as UTF-8 bytes.
pub open spec fn signature_of(key: Seq<char>, body: Seq<char>) -> Seq<char> {
    base64_text(hmac_sha1_code(encode_utf8(key), encode_utf8(body)))
}

/// The signature of a canonical query string under a credential's secret:
/// the signing key is the secret followed by `&`.
pub open spec fn query_signature_of(secret: Seq<char>, canonical: Seq<char>) -> Seq<char> {
    signature_of(secret + "&"@, string_to_sign_of(canonical))
}

/// The URL to fetch: the endpoint, the encoded signature as the first
/// parameter, then the canonical query string.
pub open spec fn final_url_of(
    endpoint: Seq<char>,
    signature: Seq<char>,
    canonical: Seq<char>,
) -> Seq<char> {
    endpoint + "?Signature="@ + url_encoded(signature) + "&"@ + canonical
}

/// The signed URL of a set of parameters.
pub open spec fn signed_url_of(endpoint: Seq<char>, secret: Seq<char>, params: Seq<Pair>) -> Seq<
    char,
> {
    let canonical = canonical_query_of(params);
    final_url_of(endpoint, query_signature_of(secret, canonical), canonical)
}

/// Signing is a function of the parameters, the secret and the endpoint:
/// with nonce and timestamp fixed among the parameters, two signings give the
/// same canonical query string, the same signature and the same URL.
pub proof fn lemma_signing_is_deterministic(
    endpoint: Seq<char>,
    secret: Seq<char>,
    first: Seq<Pair>,
    second: Seq<Pair>,
)
    requires
        first =~= second,
    ensures
        canonical_query_of(first) == canonical_query_of(second),
        query_signature_of(secret, canonical_query_of(first)) == query_signature_of(
            secret,
            canonical_query_of(second),
        ),
        signed_url_of(endpoint, secret, first) == signed_url_of(endpoint, secret, second),
{
}

/// Where every name occurs once, the canonical query string and the signed
/// URL do not depend on the order in which the parameters were given.
pub proof fn lemma_signing_ignores_given_order(
    endpoint: Seq<char>,
    secret: Seq<char>,
    first: Seq<Pair>,
    second: Seq<Pair>,
)
    requires
        distinct_names(first),
        first.to_multiset() == second.to_multiset(),
    ensures
        canonical_query_of(first) == canonical_query_of(second),
        signed_url_of(endpoint, secret, first) == signed_url_of(endpoint, secret, second),
{
    lemma_given_order_is_irrelevant(first, second);
}

/// Runs `crypto::hmac::Hmac` over `crypto::sha1::Sha1` with the key, feeds it
/// the message and returns the code, which for SHA-1 has twenty bytes.
#[verifier::external_body]
fn hmac_sha1(key: &[u8], message: &[u8]) -> (r: Vec<u8>)
    ensures
        r@ == hmac_sha1_code(key@, message@),
        r@.len() == 20,
{
    let mut mac = crypto::hmac::Hmac::new(crypto::sha1::Sha1::new(), key);
    crypto::mac::Mac::input(&mut mac, message);
    crypto::mac::Mac::result(&mut mac).code().to_vec()
}

/// Calls `base64::encode`, the standard alphabet with padding. The crate
/// panics where the length of the text would not fit in `usize`, so the
/// input is kept far below that.
#[verifier::external_body]
fn base64_encode(bytes: &[u8]) -> (r: String)
    requires
        bytes@.len() <= 0x4000_0000,
    ensures
        r@ == base64_text(bytes@),
{
    base64::encode(bytes)
}

/// Signs `body` with `key`: HMAC-SHA1, then base64.
pub fn sign(key: &str, body: &str) -> (r: String)
    ensures
        r@ == signature_of(key@, body@),
{
    let code = hmac_sha1(key.as_bytes(), body.as_bytes());
    base64_encode(code.as_slice())
}

/// Builds the parameter list of a call, unsorted.
pub fn build_params(
    action: &str,
    access_key_id: &str,
    nonce: &str,
    timestamp: &str,
    version: &str,
    query: &Vec<(String, String)>,
) -> (r: Vec<(String, String)>)
    ensures
        pairs_view(r@) == merged_params(
            action@,
            access_key_id@,
            nonce@,
            timestamp@,
            version@,
            pairs_view(query@),
        ),
{
    let mut params: Vec<(String, String)> = Vec::new();
    params.push((String::from_str("Format"), String::from_str("JSON")));
    params.push((String::from_str("SignatureMethod"), String::from_str("HMAC-SHA1")));
    params.push((String::from_str("SignatureVersion"), String::from_str("1.0")));
    params.push((String::from_str("Action"), String::from_str(action)));
    params.push((String::from_str("AccessKeyId"), String::from_str(access_key_id)));
    params.push((String::from_str("SignatureNonce"), String::from_str(nonce)));
    params.push((String::from_str("Timestamp"), String::from_str(timestamp)));
    params.push((String::from_str("Version"), String::from_str(version)));
    let ghost fixed = baseline_params() + call_params(
        action@,
        access_key_id@,
        nonce@,
        timestamp@,
        version@,
    );
    assert(pairs_view(params@) =~= fixed);
    let mut i: usize = 0;
    while i < query.len()
        invariant
            i <= query.len(),
            pairs_view(params@) =~= fixed + pairs_view(query@).take(i as int),
        decreases query.len() - i,
    {
        let name = query[i].0.clone();
        let value = query[i].1.clone();
        let ghost before = pairs_view(params@);
        params.push((name, value));
        proof {
            let next = pairs_view(query@).take(i + 1);
            assert(next =~= pairs_view(query@).take(i as int).push((name@, value@)));
            assert(pairs_view(params@) =~= before.push((name@, value@)));
        }
        i += 1;
    }
    assert(pairs_view(query@).take(query@.len() as int) =~= pairs_view(query@));
    params
}

/// Sorts the parameters by name, encodes each name and value and joins the
/// pairs with `&`.
pub fn canonical_query(params: &Vec<(String, String)>) -> (r: String)
    ensures
        r@ == canonical_query_of(pairs_view(params@)),
{
    let sorted = sort_by_name(params);
    let ghost ps = pairs_view(sorted@);
    let mut out = String::new();
    let mut i: usize = 0;
    assert(ps.take(0) =~= Seq::<Pair>::empty());
    while i < sorted.len()
        invariant
            i <= sorted.len(),
            ps == pairs_view(sorted@),
            out@ == joined_pairs(ps.take(i as int)),
        decreases sorted.len() - i,
    {
        let ghost before = out@;
        if i > 0 {
            out.append("&");
        }
        let name = url_encode(sorted[i].0.as_str());
        let value = url_encode(sorted[i].1.as_str());
        out.append(name.as_str());
        out.append("=");
        out.append(value.as_str());
        proof {
            let upto = ps.take(i + 1);
            assert(upto.drop_last() =~= ps.take(i as int));
            assert(upto.last() == ps[i as int]);
            assert(encoded_pair(ps[i as int]) == name@ + "="@ + value@);
            if i == 0 {
                assert(before =~= Seq::<char>::empty());
                assert(upto[0] == ps[0]);
                assert(out@ =~= encoded_pair(ps[0]));
            } else {
                assert(out@ =~= before + "&"@ + (name@ + "="@ + value@));
            }
        }
        i += 1;
    }
    assert(ps.take(sorted@.len() as int) =~= ps);
    out
}

/// Builds the text that is signed for a canonical query string.
pub fn string_to_sign(canonical: &str) -> (r: String)
    ensures
        r@ == string_to_sign_of(canonical@),
{
    let mut out = String::from_str("GET&");
    let root = url_encode("/");
    out.append(root.as_str());
    out.append("&");
    let query = url_encode(canonical);
    out.append(query.as_str());
    out
}

/// Signs a canonical query string with a credential's secret.
pub fn sign_query(secret: &str, canonical: &str) -> (r: String)
    ensures
        r@ == query_signature_of(secret@, canonical@),
{
    let mut key = String::from_str(secret);
    key.append("&");
    let body = string_to_sign(canonical);
    sign(key.as_str(), body.as_str())
}

/// Puts the encoded signature and the canonical query string behind the
/// endpoint.
pub fn final_url(endpoint: &str, signature: &str, canonical: &str) -> (r: String)
    ensures
        r@ == final_url_of(endpoint@, signature@, canonical@),
{
    let mut out = String::from_str(endpoint);
    out.append("?Signature=");
    let encoded = url_encode(signature);
    out.append(encoded.as_str());
    out.append("&");
    out.append(canonical);
    out
}

/// Produces the signed URL of a parameter list.
pub fn signed_url(endpoint: &str, secret: &str, params: &Vec<(String, String)>) -> (r: String)
    ensures
        r@ == signed_url_of(endpoint@, secret@, pairs_view(params@)),
{
    let canonical = canonical_query(params);
    let signature = sign_query(secret, canonical.as_str());
    final_url(endpoint, signature.as_str(), canonical.as_str())
}

} // verus!
