//! What holds of every connection attempt, stated over the models of
//! `descriptor` and `connector`.

use vstd::prelude::*;
use crate::connector::{connect_spec, negotiation_of, TargetModel};
use crate::descriptor::{has_prefix, parse_spec, socks_prefix, ProxyUrlModel, VariantModel};

verus! {

/// A URL whose scheme is neither of the `socks4` nor of the `socks5` family
/// (an `http` URL, say) starts no attempt: `connect_with_proxy` fails with
/// `InvalidProxyUrl` and yields no address to dial, whatever the target.
pub proof fn lemma_non_socks_url_never_dials(proxy: ProxyUrlModel, target: TargetModel)
    requires
        !has_prefix(proxy.scheme, socks_prefix('4')),
        !has_prefix(proxy.scheme, socks_prefix('5')),
    ensures
        parse_spec(proxy) is None,
        connect_spec(proxy, target) is None,
{
}

/// A `socks4` URL with a host, a port and no user-info dials that host and
/// port and then runs an anonymous SOCKS4 handshake towards the target.
pub proof fn lemma_socks4_anonymous(proxy: ProxyUrlModel, target: TargetModel)
    requires
        has_prefix(proxy.scheme, socks_prefix('4')),
        proxy.username.len() == 0,
        proxy.host is Some,
        proxy.port is Some,
    ensures
        connect_spec(proxy, target) matches Some(d) && d.descriptor.host == proxy.host->Some_0
            && d.descriptor.port == proxy.port->Some_0
            && negotiation_of(d).variant == VariantModel::V4Anonymous
            && negotiation_of(d).target == target,
{
}

/// A `socks4` URL with a host, a port and a user name runs a SOCKS4 handshake
/// identified by that user name.
pub proof fn lemma_socks4_identified(proxy: ProxyUrlModel, target: TargetModel)
    requires
        has_prefix(proxy.scheme, socks_prefix('4')),
        proxy.username.len() > 0,
        proxy.host is Some,
        proxy.port is Some,
    ensures
        connect_spec(proxy, target) matches Some(d) && d.descriptor.host == proxy.host->Some_0
            && d.descriptor.port == proxy.port->Some_0
            && negotiation_of(d).variant == (VariantModel::V4WithIdentification {
                user_id: proxy.username,
            })
            && negotiation_of(d).target == target,
{
}

/// A `socks5` URL with a host, a port and a password runs a SOCKS5 handshake
/// with username/password authorization, with the URL's user name and
/// password.
pub proof fn lemma_socks5_authorized(proxy: ProxyUrlModel, target: TargetModel)
    requires
        has_prefix(proxy.scheme, socks_prefix('5')),
        proxy.password is Some,
        proxy.host is Some,
        proxy.port is Some,
    ensures
        connect_spec(proxy, target) matches Some(d) && d.descriptor.host == proxy.host->Some_0
            && d.descriptor.port == proxy.port->Some_0
            && negotiation_of(d).variant == (VariantModel::V5WithAuthorization {
                username: proxy.username,
                password: proxy.password->Some_0,
            })
            && negotiation_of(d).target == target,
{
    assert(!has_prefix(proxy.scheme, socks_prefix('4'))) by {
        if has_prefix(proxy.scheme, socks_prefix('4')) {
            assert(proxy.scheme[5] == proxy.scheme.subrange(0, 6)[5]);
        }
    }
}

/// A `socks5` URL with a host, a port and no password runs an anonymous
/// SOCKS5 handshake.
pub proof fn lemma_socks5_anonymous(proxy: ProxyUrlModel, target: TargetModel)
    requires
        has_prefix(proxy.scheme, socks_prefix('5')),
        proxy.password is None,
        proxy.host is Some,
        proxy.port is Some,
    ensures
        connect_spec(proxy, target) matches Some(d) && d.descriptor.host == proxy.host->Some_0
            && d.descriptor.port == proxy.port->Some_0
            && negotiation_of(d).variant == VariantModel::V5Anonymous
            && negotiation_of(d).target == target,
{
    assert(!has_prefix(proxy.scheme, socks_prefix('4'))) by {
        if has_prefix(proxy.scheme, socks_prefix('4')) {
            assert(proxy.scheme[5] == proxy.scheme.subrange(0, 6)[5]);
        }
    }
}

/// Attempts keep nothing from one to the next: every attempt with a URL that
/// parses yields the URL's proxy address to dial afresh, whatever came
/// before and whatever its target.
pub proof fn lemma_every_attempt_dials(proxy: ProxyUrlModel, first: TargetModel, second: TargetModel)
    requires
        parse_spec(proxy) is Some,
    ensures
        connect_spec(proxy, first) matches Some(d) && d.descriptor == parse_spec(proxy)->Some_0
            && d.target == first,
        connect_spec(proxy, second) matches Some(d) && d.descriptor == parse_spec(proxy)->Some_0
            && d.target == second,
{
}

} // verus!
