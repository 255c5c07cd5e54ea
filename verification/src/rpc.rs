//! The client for RPC-style calls and the call that it builds.

use vstd::prelude::*;
use vstd::string::*;
use crate::order::{pairs_view, Pair};
use crate::signer::{build_params, merged_params, signed_url, signed_url_of};

verus! {

/// A named record.
#[derive(Debug, Clone)]
pub struct Record {
    name: String,
}

/// The pattern of a request timestamp: UTC, to the second, with a `Z`.
pub open spec fn timestamp_pattern() -> Seq<char> {
    "%Y-%m-%dT%H:%M:%SZ"@
}

/// A whole number written in decimal digits, as many as a 32-bit number may
/// have.
pub open spec fn is_decimal(text: Seq<char>) -> bool {
    1 <= text.len() <= 10 && forall|i: int| 0 <= i < text.len() ==> '0' <= #[trigger] text[i] <= '9'
}

/// What a client holds: the credential pair and the endpoint descriptor.
pub struct RpcClientView {
    pub access_key_id: Seq<char>,
    pub access_key_secret: Seq<char>,
    pub endpoint: Seq<char>,
    pub version: Seq<char>,
}

/// What a call holds: its client's configuration, its action and the
/// caller's parameters in the order in which they were added.
pub struct CallView {
    pub access_key_id: Seq<char>,
    pub access_key_secret: Seq<char>,
    pub endpoint: Seq<char>,
    pub version: Seq<char>,
    pub action: Seq<char>,
    pub query: Seq<Pair>,
}

impl CallView {
    /// The call's parameters for a given nonce and timestamp, unsorted.
    pub open spec fn params(self, nonce: Seq<char>, timestamp: Seq<char>) -> Seq<Pair> {
        merged_params(
            self.action,
            self.access_key_id,
            nonce,
            timestamp,
            self.version,
            self.query,
        )
    }

    /// The signed URL of the call for a given nonce and timestamp.
    pub open spec fn url(self, nonce: Seq<char>, timestamp: Seq<char>) -> Seq<char> {
        signed_url_of(self.endpoint, self.access_key_secret, self.params(nonce, timestamp))
    }
}

/// The parameters that a slice of borrowed pairs stands for.
pub open spec fn borrowed_pairs_view(s: Seq<(&str, &str)>) -> Seq<Pair> {
    s.map_values(|p: (&str, &str)| (p.0@, p.1@))
}

/// Action and parameters of a call that has not been sent.
struct Config {
    action: String,
    query: Vec<(String, String)>,
}

/// The client for RPC-style calls. It has no `Debug`: the secret is not to
/// be written out.
#[derive(Clone)]
pub struct RpcClient {
    /// The identifier of the credential pair.
    access_key_id: String,
    /// The secret of the credential pair.
    access_key_secret: String,
    /// The endpoint's base URL, scheme included.
    endpoint: String,
    /// The version of the API.
    version: String,
}

impl View for RpcClient {
    type V = RpcClientView;

    closed spec fn view(&self) -> RpcClientView {
        RpcClientView {
            access_key_id: self.access_key_id@,
            access_key_secret: self.access_key_secret@,
            endpoint: self.endpoint@,
            version: self.version@,
        }
    }
}

impl RpcClient {
    /// Creates a client from a credential pair and an endpoint descriptor.
    pub fn new(
        access_key_id: String,
        access_key_secret: String,
        endpoint: String,
        version: String,
    ) -> (r: Self)
        ensures
            r@ == (RpcClientView {
                access_key_id: access_key_id@,
                access_key_secret: access_key_secret@,
                endpoint: endpoint@,
                version: version@,
            }),
    {
        RpcClient { access_key_id, access_key_secret, endpoint, version }
    }

    /// Starts a call of the given action, with no parameters yet.
    pub fn get<'a>(&'a self, action: &str) -> (r: Call<'a>)
        ensures
            r@ == (CallView {
                access_key_id: self@.access_key_id,
                access_key_secret: self@.access_key_secret,
                endpoint: self@.endpoint,
                version: self@.version,
                action: action@,
                query: Seq::empty(),
            }),
    {
        Call::new(
            self.access_key_id.as_str(),
            self.access_key_secret.as_str(),
            self.endpoint.as_str(),
            self.version.as_str(),
        ).get(action)
    }
}

/// One call that has not been sent.
pub struct Call<'a> {
    /// The identifier of the credential pair.
    access_key_id: &'a str,
    /// The secret of the credential pair.
    access_key_secret: &'a str,
    /// The endpoint's base URL, scheme included.
    endpoint: &'a str,
    /// The version of the API.
    version: &'a str,
    /// Action and parameters.
    config: Config,
}

impl<'a> View for Call<'a> {
    type V = CallView;

    closed spec fn view(&self) -> CallView {
        CallView {
            access_key_id: self.access_key_id@,
            access_key_secret: self.access_key_secret@,
            endpoint: self.endpoint@,
            version: self.version@,
            action: self.config.action@,
            query: pairs_view(self.config.query@),
        }
    }
}

/// Reads the sub-second part of the local clock through
/// `chrono::Local::now` and `timestamp_subsec_nanos`, a 32-bit number, and
/// writes it in decimal. Which number it is differs from call to call.
#[verifier::external_body]
fn clock_nonce() -> (r: String)
    ensures
        is_decimal(r@),
{
    chrono::Local::now().timestamp_subsec_nanos().to_string()
}

/// Reads the clock through `chrono::Utc::now` and writes it with `format` in
/// the timestamp pattern. Nothing is claimed of the text: it depends on the
/// time of the call.
#[verifier::external_body]
fn clock_timestamp(pattern: &str) -> (r: String)
    requires
        pattern@ == timestamp_pattern(),
{
    chrono::Utc::now().format(pattern).to_string()
}

impl<'a> Call<'a> {
    /// Creates a call with an empty action and no parameters.
    pub fn new(
        access_key_id: &'a str,
        access_key_secret: &'a str,
        endpoint: &'a str,
        version: &'a str,
    ) -> (r: Self)
        ensures
            r@ == (CallView {
                access_key_id: access_key_id@,
                access_key_secret: access_key_secret@,
                endpoint: endpoint@,
                version: version@,
                action: Seq::empty(),
                query: Seq::empty(),
            }),
    {
        let r = Call {
            access_key_id,
            access_key_secret,
            endpoint,
            version,
            config: Config { action: String::new(), query: Vec::new() },
        };
        assert(pairs_view(r.config.query@) =~= Seq::<Pair>::empty());
        r
    }

    /// Sets the action of the call.
    pub fn get(self, action: &str) -> (r: Self)
        ensures
            r@ == (CallView { action: action@, ..self@ }),
    {
        let mut call = self;
        call.config.action = String::from_str(action);
        call
    }

    /// Adds parameters behind those already there. A name that is already
    /// present is added again: both are sent.
    pub fn query(self, pairs: &[(&str, &str)]) -> (r: Self)
        ensures
            r@ == (CallView { query: self@.query + borrowed_pairs_view(pairs@), ..self@ }),
    {
        let mut call = self;
        let ghost start = call@;
        let mut i: usize = 0;
        assert(start.query + borrowed_pairs_view(pairs@).take(0) =~= start.query);
        while i < pairs.len()
            invariant
                i <= pairs.len(),
                call@ == (CallView {
                    query: start.query + borrowed_pairs_view(pairs@).take(i as int),
                    ..start
                }),
            decreases pairs.len() - i,
        {
            let name = String::from_str(pairs[i].0);
            let value = String::from_str(pairs[i].1);
            let ghost before = pairs_view(call.config.query@);
            call.config.query.push((name, value));
            proof {
                assert(pairs_view(call.config.query@) =~= before.push((name@, value@)));
                assert(borrowed_pairs_view(pairs@).take(i + 1) =~= borrowed_pairs_view(
                    pairs@,
                ).take(i as int).push((name@, value@)));
                assert(call@.query =~= start.query + borrowed_pairs_view(pairs@).take(i + 1));
            }
            i += 1;
        }
        assert(borrowed_pairs_view(pairs@).take(pairs@.len() as int) =~= borrowed_pairs_view(
            pairs@,
        ));
        call
    }

    /// The signed URL of the call for a given nonce and timestamp: the
    /// parameters merged, sorted, encoded and signed.
    pub fn request_url(&self, nonce: &str, timestamp: &str) -> (r: String)
        ensures
            r@ == self@.url(nonce@, timestamp@),
    {
        let params = build_params(
            self.config.action.as_str(),
            self.access_key_id,
            nonce,
            timestamp,
            self.version,
            &self.config.query,
        );
        signed_url(self.endpoint, self.access_key_secret, &params)
    }

    /// The signed URL of the call for a nonce and a timestamp read from the
    /// clock now. It is good for one request.
    pub fn prepare(&self) -> (r: String)
        ensures
            exists|nonce: Seq<char>, timestamp: Seq<char>|
                is_decimal(nonce) && r@ == self@.url(nonce, timestamp),
    {
        let nonce = clock_nonce();
        let timestamp = clock_timestamp("%Y-%m-%dT%H:%M:%SZ");
        self.request_url(nonce.as_str(), timestamp.as_str())
    }
}

} // verus!
