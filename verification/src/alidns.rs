//! The DNS provider's client: its four operations as calls, and the records
//! that it answers with.

use vstd::prelude::*;
use vstd::string::*;
use crate::order::Pair;
use crate::rpc::{borrowed_pairs_view, Call, CallView, RpcClient, RpcClientView};
use crate::text::same_text;
use crate::update::{full_name, UpdateAction};

verus! {

/// The provider's endpoint.
pub open spec fn provider_endpoint() -> Seq<char> {
    "https://alidns.cn-shanghai.aliyuncs.com"@
}

/// The version of the provider's API.
pub open spec fn provider_version() -> Seq<char> {
    "2015-01-09"@
}

/// The call that a client makes for an action and a list of parameters.
pub open spec fn call_of(client: RpcClientView, action: Seq<char>, query: Seq<Pair>) -> CallView {
    CallView {
        access_key_id: client.access_key_id,
        access_key_secret: client.access_key_secret,
        endpoint: client.endpoint,
        version: client.version,
        action,
        query,
    }
}

/// The call that carries out one step of a replacement: the read asks for
/// the full name, the delete and the create go by the host label. The two
/// steps that end a replacement ask nothing of the provider.
pub open spec fn replacement_call_of(
    client: RpcClientView,
    action: UpdateAction,
    name: Seq<char>,
    domain: Seq<char>,
    address: Seq<char>,
) -> Option<CallView> {
    match action {
        UpdateAction::List => Some(
            call_of(
                client,
                "DescribeSubDomainRecords"@,
                seq![("SubDomain"@, name + "."@ + domain), ("DomainName"@, domain)],
            ),
        ),
        UpdateAction::Delete => Some(
            call_of(client, "DeleteSubDomainRecords"@, seq![("RR"@, name), ("DomainName"@, domain)]),
        ),
        UpdateAction::Create => Some(
            call_of(
                client,
                "AddDomainRecord"@,
                seq![("DomainName"@, domain), ("RR"@, name), ("Type"@, "A"@), ("Value"@, address)],
            ),
        ),
        UpdateAction::Finish => None,
        UpdateAction::Abort => None,
    }
}

/// The type of a record.
#[derive(Debug, Clone, Copy, PartialEq, Eq, Structural)]
pub enum DNSType {
    A,
    AAAA,
    CNAME,
    TXT,
    NS,
    MX,
    SRV,
    CAA,
    /// Any type that this client does not know.
    Unknown,
}

/// True of the names of the types that this client knows.
pub open spec fn known_type_name(name: Seq<char>) -> bool {
    name == "A"@ || name == "AAAA"@ || name == "CNAME"@ || name == "TXT"@ || name == "NS"@ || name
        == "MX"@ || name == "SRV"@ || name == "CAA"@
}

/// The type that a type name stands for; a name that is not known stands for
/// `Unknown`.
pub open spec fn dns_type_of(name: Seq<char>) -> DNSType {
    if name == "A"@ {
        DNSType::A
    } else if name == "AAAA"@ {
        DNSType::AAAA
    } else if name == "CNAME"@ {
        DNSType::CNAME
    } else if name == "TXT"@ {
        DNSType::TXT
    } else if name == "NS"@ {
        DNSType::NS
    } else if name == "MX"@ {
        DNSType::MX
    } else if name == "SRV"@ {
        DNSType::SRV
    } else if name == "CAA"@ {
        DNSType::CAA
    } else {
        DNSType::Unknown
    }
}

impl DNSType {
    /// Reads a type from its name as the provider writes it. A name that is
    /// not known gives `Unknown`.
    pub fn from_name(name: &str) -> (r: DNSType)
        ensures
            r == dns_type_of(name@),
    {
        if same_text(name, "A") {
            DNSType::A
        } else if same_text(name, "AAAA") {
            DNSType::AAAA
        } else if same_text(name, "CNAME") {
            DNSType::CNAME
        } else if same_text(name, "TXT") {
            DNSType::TXT
        } else if same_text(name, "NS") {
            DNSType::NS
        } else if same_text(name, "MX") {
            DNSType::MX
        } else if same_text(name, "SRV") {
            DNSType::SRV
        } else if same_text(name, "CAA") {
            DNSType::CAA
        } else {
            DNSType::Unknown
        }
    }
}

/// Where a page stands in a list of records.
#[derive(Debug, Clone)]
pub struct Pagination {
    pub total_count: usize,
    pub page_number: usize,
    pub page_size: usize,
}

/// One resource record as the provider returned it.
#[derive(Debug, Clone)]
pub struct Record {
    pub id: String,
    pub typ: DNSType,
    pub rr: String,
    pub domain_name: String,
    pub value: String,
    /// Time to live, in seconds.
    pub ttl: u64,
    pub weight: Option<usize>,
    pub status: String,
    pub line: String,
    pub locked: bool,
}

/// One page of records.
#[derive(Debug, Clone)]
pub struct DomainList {
    pub pagination: Pagination,
    pub records: Vec<Record>,
}

/// The provider's client. It has no `Debug`: the secret is not to be
/// written out.
pub struct AliDNS {
    key: String,
    secret: String,
    client: RpcClient,
}

impl AliDNS {
    /// The credential pair and endpoint descriptor that the client signs
    /// with.
    pub closed spec fn client_view(&self) -> RpcClientView {
        self.client@
    }

    /// Creates a client for the provider's endpoint from a credential pair.
    pub fn new(key: String, secret: String) -> (r: Self)
        ensures
            r.client_view() == (RpcClientView {
                access_key_id: key@,
                access_key_secret: secret@,
                endpoint: provider_endpoint(),
                version: provider_version(),
            }),
    {
        let client = RpcClient::new(
            key.clone(),
            secret.clone(),
            String::from_str("https://alidns.cn-shanghai.aliyuncs.com"),
            String::from_str("2015-01-09"),
        );
        AliDNS { key, secret, client }
    }

    /// The call of an action with the given parameters.
    fn call<'a>(&'a self, cmd: &str, args: &[(&str, &str)]) -> (r: Call<'a>)
        ensures
            r@ == call_of(self.client_view(), cmd@, borrowed_pairs_view(args@)),
    {
        let r = self.client.get(cmd).query(args);
        assert(r@.query =~= borrowed_pairs_view(args@));
        r
    }

    /// The call that lists all records of a domain: the first page, of five
    /// hundred records at most.
    pub fn get_all<'a>(&'a self, domain: &str) -> (r: Call<'a>)
        ensures
            r@ == call_of(
                self.client_view(),
                "DescribeDomainRecords"@,
                seq![("DomainName"@, domain@), ("PageSize"@, "500"@)],
            ),
    {
        let mut args: Vec<(&str, &str)> = Vec::new();
        args.push(("DomainName", domain));
        args.push(("PageSize", "500"));
        assert(borrowed_pairs_view(args@) =~= seq![
            ("DomainName"@, domain@),
            ("PageSize"@, "500"@),
        ]);
        self.call("DescribeDomainRecords", args.as_slice())
    }

    /// The call that lists the records of one full name.
    pub fn get<'a>(&'a self, full_name: &str, domain: &str) -> (r: Call<'a>)
        ensures
            r@ == call_of(
                self.client_view(),
                "DescribeSubDomainRecords"@,
                seq![("SubDomain"@, full_name@), ("DomainName"@, domain@)],
            ),
    {
        let mut args: Vec<(&str, &str)> = Vec::new();
        args.push(("SubDomain", full_name));
        args.push(("DomainName", domain));
        assert(borrowed_pairs_view(args@) =~= seq![
            ("SubDomain"@, full_name@),
            ("DomainName"@, domain@),
        ]);
        self.call("DescribeSubDomainRecords", args.as_slice())
    }

    /// The call that deletes every record under a host label, whatever its
    /// type.
    pub fn remove<'a>(&'a self, sub_name: &str, domain: &str) -> (r: Call<'a>)
        ensures
            r@ == call_of(
                self.client_view(),
                "DeleteSubDomainRecords"@,
                seq![("RR"@, sub_name@), ("DomainName"@, domain@)],
            ),
    {
        let mut args: Vec<(&str, &str)> = Vec::new();
        args.push(("RR", sub_name));
        args.push(("DomainName", domain));
        assert(borrowed_pairs_view(args@) =~= seq![("RR"@, sub_name@), ("DomainName"@, domain@)]);
        self.call("DeleteSubDomainRecords", args.as_slice())
    }

    /// The call that creates an address record under a host label. `value`
    /// is the address as text.
    pub fn append<'a>(&'a self, sub_name: &str, domain: &str, value: &str) -> (r: Call<'a>)
        ensures
            r@ == call_of(
                self.client_view(),
                "AddDomainRecord"@,
                seq![
                    ("DomainName"@, domain@),
                    ("RR"@, sub_name@),
                    ("Type"@, "A"@),
                    ("Value"@, value@),
                ],
            ),
    {
        let mut args: Vec<(&str, &str)> = Vec::new();
        args.push(("DomainName", domain));
        args.push(("RR", sub_name));
        args.push(("Type", "A"));
        args.push(("Value", value));
        assert(borrowed_pairs_view(args@) =~= seq![
            ("DomainName"@, domain@),
            ("RR"@, sub_name@),
            ("Type"@, "A"@),
            ("Value"@, value@),
        ]);
        self.call("AddDomainRecord", args.as_slice())
    }

    /// The call that carries out one step of replacing a host's address
    /// record, if the step asks anything of the provider.
    pub fn replacement_call<'a>(
        &'a self,
        action: UpdateAction,
        name: &str,
        domain: &str,
        address: &str,
    ) -> (r: Option<Call<'a>>)
        ensures
            match r {
                Some(call) => replacement_call_of(
                    self.client_view(),
                    action,
                    name@,
                    domain@,
                    address@,
                ) == Some(call@),
                None => replacement_call_of(self.client_view(), action, name@, domain@, address@)
                    is None,
            },
    {
        match action {
            UpdateAction::List => {
                let full = full_name(name, domain);
                Some(self.get(full.as_str(), domain))
            },
            UpdateAction::Delete => Some(self.remove(name, domain)),
            UpdateAction::Create => Some(self.append(name, domain, address)),
            UpdateAction::Finish => None,
            UpdateAction::Abort => None,
        }
    }
}

} // verus!
