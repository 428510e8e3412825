//! One connection attempt through a SOCKS proxy, as a sequence of phases.
//!
//! `connect_with_proxy` parses the proxy URL and yields a `Dialing` value, the
//! only way to learn which address to open a transport connection to. Once the
//! caller has tried to open it, `Dialing::on_transport` yields a `Negotiating`
//! value, which names the handshake to run over that connection towards the
//! target; `Negotiating::on_handshake` ends the attempt. Each phase is consumed
//! by the next, and every failure is terminal.

use vstd::prelude::*;
use crate::descriptor::{
    parse_socks_proxy, parse_spec, DescriptorModel, ProtocolVariant, ProxyDescriptor, ProxyUrl,
    ProxyUrlModel, VariantModel,
};

verus! {

/// The host and port that the proxy is asked to reach.
#[derive(Debug, PartialEq, Eq)]
pub struct Target {
    pub host: String,
    pub port: u16,
}

pub ghost struct TargetModel {
    pub host: Seq<char>,
    pub port: u16,
}

impl View for Target {
    type V = TargetModel;

    open spec fn view(&self) -> TargetModel {
        TargetModel { host: self.host@, port: self.port }
    }
}

/// Why a connection attempt failed. The causes are the underlying errors'
/// descriptions.
#[derive(Debug, PartialEq, Eq)]
pub enum ConnectError {
    /// The proxy URL is not a usable SOCKS URL; nothing was dialed.
    InvalidProxyUrl,
    /// The transport connection to the proxy could not be opened.
    TransportFailure(String),
    /// The proxy refused the handshake or answered it wrongly.
    HandshakeFailure(String),
}

pub open spec fn message_spec(e: ConnectError) -> Seq<char> {
    match e {
        ConnectError::InvalidProxyUrl => "Parsing proxy url failed"@,
        ConnectError::TransportFailure(_) => "Failed to connect to socks proxy"@,
        ConnectError::HandshakeFailure(_) => "error connecting to socks"@,
    }
}

impl ConnectError {
    /// The phase that failed, in words.
    pub fn message(&self) -> (r: String)
        ensures
            r@ == message_spec(*self),
    {
        match self {
            ConnectError::InvalidProxyUrl => String::from_str("Parsing proxy url failed"),
            ConnectError::TransportFailure(_) => String::from_str("Failed to connect to socks proxy"),
            ConnectError::HandshakeFailure(_) => String::from_str("error connecting to socks"),
        }
    }

    /// The description of the underlying error, if there is one.
    pub fn cause(&self) -> (r: Option<&str>)
        ensures
            self is InvalidProxyUrl ==> r is None,
            self matches ConnectError::TransportFailure(c) ==> (r matches Some(s) && s@ == c@),
            self matches ConnectError::HandshakeFailure(c) ==> (r matches Some(s) && s@ == c@),
    {
        match self {
            ConnectError::InvalidProxyUrl => None,
            ConnectError::TransportFailure(c) => Some(c.as_str()),
            ConnectError::HandshakeFailure(c) => Some(c.as_str()),
        }
    }
}

/// An attempt whose proxy URL parsed, waiting for the transport connection to
/// the proxy.
pub struct Dialing {
    descriptor: ProxyDescriptor,
    target: Target,
}

pub ghost struct DialingModel {
    pub descriptor: DescriptorModel,
    pub target: TargetModel,
}

impl View for Dialing {
    type V = DialingModel;

    closed spec fn view(&self) -> DialingModel {
        DialingModel { descriptor: self.descriptor@, target: self.target@ }
    }
}

/// An attempt whose transport connection is open, waiting for the handshake.
pub struct Negotiating {
    variant: ProtocolVariant,
    target: Target,
}

pub ghost struct NegotiatingModel {
    pub variant: VariantModel,
    pub target: TargetModel,
}

impl View for Negotiating {
    type V = NegotiatingModel;

    closed spec fn view(&self) -> NegotiatingModel {
        NegotiatingModel { variant: self.variant@, target: self.target@ }
    }
}

/// What starting an attempt gives: none when the URL does not parse.
pub open spec fn connect_spec(proxy: ProxyUrlModel, target: TargetModel) -> Option<DialingModel> {
    match parse_spec(proxy) {
        Some(d) => Some(DialingModel { descriptor: d, target }),
        None => None,
    }
}

/// The handshake that follows an opened transport: the descriptor's variant,
/// towards the same target.
pub open spec fn negotiation_of(d: DialingModel) -> NegotiatingModel {
    NegotiatingModel { variant: d.descriptor.variant, target: d.target }
}

/// Starts an attempt to reach `target` through the proxy at `proxy`.
///
/// A URL that does not parse fails with `InvalidProxyUrl` and yields no
/// address to dial: the attempt never falls back to a direct connection.
pub fn connect_with_proxy(proxy: &ProxyUrl, target: Target) -> (r: Result<Dialing, ConnectError>)
    ensures
        connect_spec(proxy@, target@) is None <==> r matches Err(ConnectError::InvalidProxyUrl),
        connect_spec(proxy@, target@) matches Some(d) ==> (r matches Ok(s) && s@ == d),
{
    match parse_socks_proxy(proxy) {
        Some(descriptor) => Ok(Dialing { descriptor, target }),
        None => Err(ConnectError::InvalidProxyUrl),
    }
}

impl Dialing {
    /// The host of the proxy, to open the transport connection to.
    pub fn proxy_host(&self) -> (r: &str)
        ensures
            r@ == self@.descriptor.host,
    {
        self.descriptor.host.as_str()
    }

    /// The port of the proxy, to open the transport connection to.
    pub fn proxy_port(&self) -> (r: u16)
        ensures
            r == self@.descriptor.port,
    {
        self.descriptor.port
    }

    /// Goes on from the outcome of opening the transport connection: on
    /// success to the handshake, else to `TransportFailure` with the cause.
    pub fn on_transport(self, opened: Result<(), String>) -> (r: Result<Negotiating, ConnectError>)
        ensures
            opened is Ok ==> (r matches Ok(n) && n@ == negotiation_of(self@)),
            opened matches Err(c) ==> (r matches Err(ConnectError::TransportFailure(m)) && m@ == c@),
    {
        match opened {
            Ok(()) => Ok(Negotiating { variant: self.descriptor.variant, target: self.target }),
            Err(cause) => Err(ConnectError::TransportFailure(cause)),
        }
    }
}

impl Negotiating {
    /// The handshake to run over the open transport connection.
    pub fn variant(&self) -> (r: &ProtocolVariant)
        ensures
            r@ == self@.variant,
    {
        &self.variant
    }

    /// The host that the proxy is asked to reach.
    pub fn target_host(&self) -> (r: &str)
        ensures
            r@ == self@.target.host,
    {
        self.target.host.as_str()
    }

    /// The port that the proxy is asked to reach.
    pub fn target_port(&self) -> (r: u16)
        ensures
            r == self@.target.port,
    {
        self.target.port
    }

    /// Ends the attempt with the outcome of the handshake: success, or
    /// `HandshakeFailure` with the cause.
    pub fn on_handshake(self, outcome: Result<(), String>) -> (r: Result<(), ConnectError>)
        ensures
            outcome is Ok ==> r is Ok,
            outcome matches Err(c) ==> (r matches Err(ConnectError::HandshakeFailure(m)) && m@ == c@),
    {
        match outcome {
            Ok(()) => Ok(()),
            Err(cause) => Err(ConnectError::HandshakeFailure(cause)),
        }
    }
}

} // verus!
