//! Proxy URLs and the descriptors parsed from them.

use vstd::prelude::*;

verus! {

/// The parts of a proxy URL that select and parameterize a SOCKS proxy.
///
/// `username` is empty when the URL has no user-info; `password` is present
/// only when the user-info holds a colon; `port` is the explicit port, or the
/// scheme's well-known one.
#[derive(Debug, PartialEq, Eq)]
pub struct ProxyUrl {
    pub scheme: String,
    pub username: String,
    pub password: Option<String>,
    pub host: Option<String>,
    pub port: Option<u16>,
}

pub ghost struct ProxyUrlModel {
    pub scheme: Seq<char>,
    pub username: Seq<char>,
    pub password: Option<Seq<char>>,
    pub host: Option<Seq<char>>,
    pub port: Option<u16>,
}

impl View for ProxyUrl {
    type V = ProxyUrlModel;

    open spec fn view(&self) -> ProxyUrlModel {
        ProxyUrlModel {
            scheme: self.scheme@,
            username: self.username@,
            password: self.password.deep_view(),
            host: self.host.deep_view(),
            port: self.port,
        }
    }
}

/// The SOCKS handshake to run, with its credentials.
#[derive(Debug, PartialEq, Eq)]
pub enum ProtocolVariant {
    V4Anonymous,
    V4WithIdentification { user_id: String },
    V5Anonymous,
    V5WithAuthorization { username: String, password: String },
}

pub ghost enum VariantModel {
    V4Anonymous,
    V4WithIdentification { user_id: Seq<char> },
    V5Anonymous,
    V5WithAuthorization { username: Seq<char>, password: Seq<char> },
}

impl View for ProtocolVariant {
    type V = VariantModel;

    open spec fn view(&self) -> VariantModel {
        match self {
            ProtocolVariant::V4Anonymous => VariantModel::V4Anonymous,
            ProtocolVariant::V4WithIdentification { user_id } => VariantModel::V4WithIdentification {
                user_id: user_id@,
            },
            ProtocolVariant::V5Anonymous => VariantModel::V5Anonymous,
            ProtocolVariant::V5WithAuthorization { username, password } =>
                VariantModel::V5WithAuthorization { username: username@, password: password@ },
        }
    }
}

/// Where the proxy listens, and which handshake it is spoken to with.
#[derive(Debug, PartialEq, Eq)]
pub struct ProxyDescriptor {
    pub host: String,
    pub port: u16,
    pub variant: ProtocolVariant,
}

pub ghost struct DescriptorModel {
    pub host: Seq<char>,
    pub port: u16,
    pub variant: VariantModel,
}

impl View for ProxyDescriptor {
    type V = DescriptorModel;

    open spec fn view(&self) -> DescriptorModel {
        DescriptorModel { host: self.host@, port: self.port, variant: self.variant@ }
    }
}

/// `socks` followed by the protocol digit `d`.
pub open spec fn socks_prefix(d: char) -> Seq<char> {
    seq!['s', 'o', 'c', 'k', 's', d]
}

pub open spec fn has_prefix(s: Seq<char>, p: Seq<char>) -> bool {
    p.len() <= s.len() && s.subrange(0, p.len() as int) == p
}

/// The handshake that a URL selects: a `socks4` scheme family selects SOCKS4,
/// identified by the user name when there is one; a `socks5` family selects
/// SOCKS5, with username/password authorization when a password is given.
pub open spec fn variant_spec(u: ProxyUrlModel) -> Option<VariantModel> {
    if has_prefix(u.scheme, socks_prefix('4')) {
        if u.username.len() == 0 {
            Some(VariantModel::V4Anonymous)
        } else {
            Some(VariantModel::V4WithIdentification { user_id: u.username })
        }
    } else if has_prefix(u.scheme, socks_prefix('5')) {
        match u.password {
            Some(p) => Some(VariantModel::V5WithAuthorization { username: u.username, password: p }),
            None => Some(VariantModel::V5Anonymous),
        }
    } else {
        None
    }
}

/// The descriptor of a URL: none unless its scheme is a SOCKS one and it
/// names both a host and a port.
pub open spec fn parse_spec(u: ProxyUrlModel) -> Option<DescriptorModel> {
    match (variant_spec(u), u.host, u.port) {
        (Some(v), Some(h), Some(p)) => Some(DescriptorModel { host: h, port: p, variant: v }),
        _ => None,
    }
}

/// Whether `scheme` starts with `socks` and the digit `d`.
fn has_socks_prefix(scheme: &String, d: char) -> (r: bool)
    ensures
        r == has_prefix(scheme@, socks_prefix(d)),
{
    let s = scheme.as_str();
    if s.unicode_len() < 6 {
        return false;
    }
    let r = s.get_char(0) == 's' && s.get_char(1) == 'o' && s.get_char(2) == 'c'
        && s.get_char(3) == 'k' && s.get_char(4) == 's' && s.get_char(5) == d;
    proof {
        let p = socks_prefix(d);
        if r {
            assert(s@.subrange(0, 6) =~= p);
        } else if s@.subrange(0, 6) == p {
            assert(forall|i: int| 0 <= i < 6 ==> s@[i] == #[trigger] p[i]) by {
                assert forall|i: int| 0 <= i < 6 implies s@[i] == #[trigger] p[i] by {
                    assert(s@.subrange(0, 6)[i] == s@[i]);
                }
            }
        }
    }
    r
}

fn clone_string_option(o: &Option<String>) -> (r: Option<String>)
    ensures
        r.deep_view() == o.deep_view(),
{
    match o {
        Some(s) => Some(s.clone()),
        None => None,
    }
}

/// The handshake selected by a proxy URL, or none for a scheme that is not a
/// SOCKS one.
pub fn socks_variant(url: &ProxyUrl) -> (r: Option<ProtocolVariant>)
    ensures
        r matches Some(v) ==> variant_spec(url@) == Some(v@),
        r is None ==> variant_spec(url@) is None,
{
    if has_socks_prefix(&url.scheme, '4') {
        if url.username.as_str().unicode_len() == 0 {
            Some(ProtocolVariant::V4Anonymous)
        } else {
            Some(ProtocolVariant::V4WithIdentification { user_id: url.username.clone() })
        }
    } else if has_socks_prefix(&url.scheme, '5') {
        match clone_string_option(&url.password) {
            Some(password) => Some(
                ProtocolVariant::V5WithAuthorization { username: url.username.clone(), password },
            ),
            None => Some(ProtocolVariant::V5Anonymous),
        }
    } else {
        None
    }
}

/// Parses a proxy URL into a descriptor of the proxy; none when the URL is not
/// a SOCKS URL or lacks a host or a port.
pub fn parse_socks_proxy(url: &ProxyUrl) -> (r: Option<ProxyDescriptor>)
    ensures
        r matches Some(d) ==> parse_spec(url@) == Some(d@),
        r is None ==> parse_spec(url@) is None,
{
    let variant = match socks_variant(url) {
        Some(v) => v,
        None => return None,
    };
    let host = match &url.host {
        Some(h) => h.clone(),
        None => return None,
    };
    let port = match url.port {
        Some(p) => p,
        None => return None,
    };
    Some(ProxyDescriptor { host, port, variant })
}

} // verus!
