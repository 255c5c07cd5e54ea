use alidns_updater::encode::url_encode;
use alidns_updater::order::{bytes_le, sort_by_name};
use alidns_updater::signer::{
    build_params, canonical_query, final_url, sign, sign_query, signed_url, string_to_sign,
};
use alidns_updater::{Call, RpcClient};

fn owned(pairs: &[(&str, &str)]) -> Vec<(String, String)> {
    pairs.iter().map(|(k, v)| (k.to_string(), v.to_string())).collect()
}

#[test]
fn encodes_space_star_and_tilde() {
    assert_eq!(url_encode("a b*c~d"), "a%20b%2Ac~d");
    assert_eq!(url_encode(" "), "%20");
    assert_eq!(url_encode("*"), "%2A");
    assert_eq!(url_encode("~"), "~");
}

#[test]
fn encodes_reserved_bytes_as_upper_case_triples() {
    assert_eq!(url_encode("+/=&:%"), "%2B%2F%3D%26%3A%25");
    assert_eq!(url_encode("/"), "%2F");
    assert_eq!(url_encode("%7E"), "%257E");
    assert_eq!(url_encode("\u{e9}"), "%C3%A9");
}

#[test]
fn leaves_unreserved_bytes_alone() {
    assert_eq!(url_encode("A-z_0.9"), "A-z_0.9");
    assert_eq!(url_encode(""), "");
}

#[test]
fn byte_order_puts_upper_case_first() {
    assert!(bytes_le(b"A", b"b"));
    assert!(!bytes_le(b"b", b"A"));
    assert!(bytes_le(b"Z", b"a"));
    assert!(bytes_le(b"", b"a"));
    assert!(!bytes_le(b"a", b""));
    assert!(bytes_le(b"ab", b"abc"));
    assert!(!bytes_le(b"abc", b"ab"));
    assert!(bytes_le(b"same", b"same"));
}

#[test]
fn sort_is_by_byte_value_and_stable() {
    let sorted = sort_by_name(&owned(&[("k", "2"), ("a b", "x*y"), ("k", "1"), ("K", "~")]));
    assert_eq!(sorted, owned(&[("K", "~"), ("a b", "x*y"), ("k", "2"), ("k", "1")]));
    assert_eq!(sort_by_name(&Vec::new()), Vec::new());
}

#[test]
fn canonical_query_sorts_encodes_and_joins() {
    let query = canonical_query(&owned(&[("k", "2"), ("a b", "x*y"), ("k", "1"), ("K", "~")]));
    assert_eq!(query, "K=~&a%20b=x%2Ay&k=2&k=1");
    assert_eq!(canonical_query(&Vec::new()), "");
    assert_eq!(canonical_query(&owned(&[("one", "1")])), "one=1");
}

#[test]
fn upper_case_parameter_sorts_before_baseline_and_lower_case() {
    let params = build_params(
        "DoIt",
        "testid",
        "12345",
        "2016-03-24T16:41:54Z",
        "2015-01-09",
        &owned(&[("b", "2"), ("A", "1")]),
    );
    assert_eq!(params.len(), 10);
    assert_eq!(params[0], ("Format".to_string(), "JSON".to_string()));
    assert_eq!(params[9], ("A".to_string(), "1".to_string()));
    assert_eq!(
        canonical_query(&params),
        "A=1&AccessKeyId=testid&Action=DoIt&Format=JSON&SignatureMethod=HMAC-SHA1\
         &SignatureNonce=12345&SignatureVersion=1.0&Timestamp=2016-03-24T16%3A41%3A54Z\
         &Version=2015-01-09&b=2"
    );
}

#[test]
fn string_to_sign_encodes_the_query_again() {
    assert_eq!(string_to_sign("a=1&b=2"), "GET&%2F&a%3D1%26b%3D2");
    assert_eq!(string_to_sign(""), "GET&%2F&");
}

#[test]
fn signature_known_answer() {
    let body = "GET&%2F&AccessKeyId%3Dtestid%26Action%3DDescribeDomainRecords\
                %26DomainName%3Dexample.com%26Format%3DXML%26SignatureMethod%3DHMAC-SHA1\
                %26SignatureNonce%3Df59ed6a9-83fc-473b-9cc6-99c95df3856e\
                %26SignatureVersion%3D1.0%26Timestamp%3D2016-03-24T16%253A41%253A54Z\
                %26Version%3D2015-01-09";
    assert_eq!(sign("testsecret&", body), "uRpHwaSEt3J+6KQD//svCh/x+pI=");
    assert_eq!(
        sign("key", "The quick brown fox jumps over the lazy dog"),
        "3nybhbi3iqa8ino29wqQcBydtNk="
    );
}

#[test]
fn query_signature_appends_ampersand_to_secret() {
    assert_eq!(sign_query("s3cret", "a=1&b=2"), "OOIPgNYSX71Zc/9qSfKHLa2iSC8=");
    assert_eq!(sign_query("s3cret", "a=1&b=2"), sign("s3cret&", "GET&%2F&a%3D1%26b%3D2"));
}

#[test]
fn final_url_puts_encoded_signature_first() {
    assert_eq!(
        final_url("https://example.org", "a+b/c=", "x=1"),
        "https://example.org?Signature=a%2Bb%2Fc%3D&x=1"
    );
}

#[test]
fn signed_url_of_a_call() {
    let call = Call::new("testid", "testsecret", "https://example.org", "2015-01-09")
        .get("DoIt")
        .query(&[("b", "2")])
        .query(&[("A", "1")]);
    assert_eq!(
        call.request_url("12345", "2016-03-24T16:41:54Z"),
        "https://example.org?Signature=j%2BeKAvus5bMJVkRPqimFGZs0hlE%3D&A=1&AccessKeyId=testid\
         &Action=DoIt&Format=JSON&SignatureMethod=HMAC-SHA1&SignatureNonce=12345\
         &SignatureVersion=1.0&Timestamp=2016-03-24T16%3A41%3A54Z&Version=2015-01-09&b=2"
    );
}

#[test]
fn signing_twice_gives_the_same_bytes() {
    let client = RpcClient::new(
        "testid".to_string(),
        "testsecret".to_string(),
        "https://example.org".to_string(),
        "2015-01-09".to_string(),
    );
    let first = client.get("DoIt").query(&[("b", "2"), ("A", "1")]);
    let second = client.get("DoIt").query(&[("b", "2"), ("A", "1")]);
    assert_eq!(
        first.request_url("12345", "2016-03-24T16:41:54Z"),
        second.request_url("12345", "2016-03-24T16:41:54Z")
    );
    assert_eq!(
        first.request_url("12345", "2016-03-24T16:41:54Z"),
        first.request_url("12345", "2016-03-24T16:41:54Z")
    );
    let params = owned(&[("b", "2"), ("A", "1")]);
    assert_eq!(canonical_query(&params), canonical_query(&params));
    assert_eq!(
        signed_url("https://example.org", "testsecret", &params),
        signed_url("https://example.org", "testsecret", &params)
    );
}

#[test]
fn nonce_changes_the_signature() {
    let call = Call::new("testid", "testsecret", "https://example.org", "2015-01-09").get("DoIt");
    assert_ne!(
        call.request_url("1", "2016-03-24T16:41:54Z"),
        call.request_url("2", "2016-03-24T16:41:54Z")
    );
}

#[test]
fn duplicate_parameters_are_both_sent() {
    let call = Call::new("id", "secret", "https://example.org", "1")
        .get("DoIt")
        .query(&[("k", "2")])
        .query(&[("k", "1")]);
    let url = call.request_url("0", "2020-01-02T03:04:05Z");
    assert!(url.ends_with("&Version=1&k=2&k=1"));
}

#[test]
fn prepared_url_carries_clock_values() {
    let call = Call::new("testid", "testsecret", "https://example.org", "2015-01-09").get("DoIt");
    let url = call.prepare();
    assert!(url.starts_with("https://example.org?Signature="));
    let from = url.find("&SignatureNonce=").unwrap() + "&SignatureNonce=".len();
    let nonce: String = url[from..].chars().take_while(|c| *c != '&').collect();
    assert!(!nonce.is_empty() && nonce.len() <= 10);
    assert!(nonce.chars().all(|c| c.is_ascii_digit()));
    let at = url.find("&Timestamp=").unwrap() + "&Timestamp=".len();
    let stamp = &url[at..at + 24];
    assert_eq!(stamp.len(), 24);
    assert_eq!(&stamp[4..5], "-");
    assert_eq!(&stamp[10..11], "T");
    assert_eq!(&stamp[13..16], "%3A");
    assert!(stamp.ends_with("Z"));
    assert!(url.ends_with("&Version=2015-01-09"));
}

#[test]
fn order_of_distinct_parameters_does_not_matter() {
    let one = owned(&[("b", "2"), ("A", "1"), ("c", "3")]);
    let other = owned(&[("c", "3"), ("b", "2"), ("A", "1")]);
    assert_eq!(canonical_query(&one), "A=1&b=2&c=3");
    assert_eq!(canonical_query(&one), canonical_query(&other));
    assert_eq!(
        signed_url("https://example.org", "testsecret", &one),
        signed_url("https://example.org", "testsecret", &other)
    );
}
