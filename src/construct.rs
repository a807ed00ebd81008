//! Planning a wallet's construction: the transport to its remote data source.
use vstd::prelude::*;
use crate::error::{BdkJniError, ErrorKind};
use crate::request::BdkRequest;

verus! {

/// `p` is a prefix of `s`.
pub open spec fn starts_with_spec(s: Seq<char>, p: Seq<char>) -> bool {
    p.len() <= s.len() && s.subrange(0, p.len() as int) == p
}

/// Whether `s` begins with `p`.
pub fn starts_with(s: &str, p: &str) -> (r: bool)
    ensures
        r == starts_with_spec(s@, p@),
{
    let n = p.unicode_len();
    if n > s.unicode_len() {
        return false;
    }
    let mut i: usize = 0;
    while i < n
        invariant
            n == p@.len(),
            n <= s@.len(),
            i <= n,
            forall|j: int| 0 <= j < i ==> s@[j] == p@[j],
        decreases n - i,
    {
        if s.get_char(i) != p.get_char(i) {
            assert(s@.subrange(0, n as int)[i as int] != p@[i as int]);
            return false;
        }
        i = i + 1;
    }
    assert(s@.subrange(0, n as int) =~= p@);
    true
}

/// How the wallet reaches its remote data source.
#[derive(Clone, Copy, Debug, PartialEq, Eq, Structural)]
pub enum Transport {
    /// Plain TCP: a `tcp://` address, or one without a scheme.
    Plaintext,
    /// TLS: an `ssl://` address; the server's domain is validated.
    Tls,
}

/// The transport an address asks for.
pub open spec fn transport_of(url: Seq<char>) -> Transport {
    if starts_with_spec(url, "ssl://"@) {
        Transport::Tls
    } else {
        Transport::Plaintext
    }
}

/// A checked plan for connecting to the remote data source.
#[derive(Debug)]
pub struct Connection {
    pub transport: Transport,
    /// The address as given, scheme included.
    pub url: String,
    /// The SOCKS5 proxy to go through, if any.
    pub proxy: Option<String>,
}

fn clone_text(s: &Option<String>) -> (r: Option<String>)
    ensures
        r matches Some(c) ==> s matches Some(o) && c@ == o@,
        r is None <==> s is None,
{
    match s {
        Some(t) => Some(t.clone()),
        None => None,
    }
}

/// Plans the connection to `url`, through `proxy` if one is given. TLS
/// through a proxy is refused as unsupported.
pub fn plan_connection(url: &String, proxy: &Option<String>) -> (r: Result<Connection, BdkJniError>)
    ensures
        r is Err <==> (transport_of(url@) == Transport::Tls && proxy is Some),
        r matches Err(e) ==> e.kind_spec() == ErrorKind::UnsupportedOperation,
        r matches Ok(c) ==> {
            &&& c.transport == transport_of(url@)
            &&& c.url@ == url@
            &&& c.proxy is Some <==> proxy is Some
            &&& c.proxy matches Some(p) ==> proxy matches Some(q) && p@ == q@
        },
{
    let transport = if starts_with(url.as_str(), "ssl://") {
        Transport::Tls
    } else {
        Transport::Plaintext
    };
    if transport == Transport::Tls && proxy.is_some() {
        return Err(BdkJniError::Unsupported(String::from_str("TLS through a proxy is not supported")));
    }
    Ok(Connection { transport, url: url.clone(), proxy: clone_text(proxy) })
}

/// Plans the connection for a constructor request; any other request is
/// refused as unsupported.
pub fn plan_constructor(req: &BdkRequest) -> (r: Result<Connection, BdkJniError>)
    ensures
        !(req is Constructor) ==> (r matches Err(e) && e.kind_spec()
            == ErrorKind::UnsupportedOperation),
        req matches BdkRequest::Constructor { electrum_url, electrum_proxy, .. } ==> {
            &&& r is Err <==> (transport_of(electrum_url@) == Transport::Tls && electrum_proxy is Some)
            &&& r matches Err(e) ==> e.kind_spec() == ErrorKind::UnsupportedOperation
            &&& r matches Ok(c) ==> c.transport == transport_of(electrum_url@) && c.url@ == electrum_url@
                && (c.proxy is Some <==> electrum_proxy is Some)
        },
{
    match req {
        BdkRequest::Constructor { electrum_url, electrum_proxy, .. } => plan_connection(
            electrum_url,
            electrum_proxy,
        ),
        _ => Err(BdkJniError::Unsupported(String::from_str("not a constructor request"))),
    }
}

} // verus!
