//! Network clients and the certificate they trust.

pub mod ca_certs;
pub mod ntp;

use vstd::prelude::*;
use crate::config::CaCert;
use crate::https::{Engine, Stack, TlsConfig, TlsReference, TlsVersion};
use crate::net::ca_certs::LETS_ENCRYPT_ISRG_ROOT_X1;

verus! {

/// The root certificate of Let's Encrypt as the TLS layer takes it: the
/// bytes of its PEM text and a closing NUL.
pub fn lets_encrypt_isrg_root_x1() -> (cert: CaCert)
    ensures
        cert.wf(),
        cert@ == crate::config::pem_bytes(LETS_ENCRYPT_ISRG_ROOT_X1@),
{
    CaCert::from_pem_text(LETS_ENCRYPT_ISRG_ROOT_X1)
}

/// Holds what many short-lived clients share: the network stack, a
/// connection pool of `N` slots with buffers of `TX_SZ` and `RX_SZ` bytes,
/// a DNS resolver and one TLS engine. It makes clients; it sends nothing.
#[derive(Debug, Clone, Copy, PartialEq, Eq)]
pub struct NetClientFactory<const N: usize, const TX_SZ: usize, const RX_SZ: usize> {
    pub stack: Stack,
    pub tls: TlsReference,
}

/// A TCP client that draws its connections from a factory's pool.
#[derive(Debug, Clone, Copy, PartialEq, Eq)]
pub struct TcpClient<const N: usize, const TX_SZ: usize, const RX_SZ: usize> {
    pub stack: Stack,
}

/// An HTTPS client view: a TCP client, the resolver of its stack, and the
/// TLS configuration under which it connects.
#[derive(Debug, Clone, PartialEq, Eq)]
pub struct HttpClient<const N: usize, const TX_SZ: usize, const RX_SZ: usize> {
    pub tcp_client: TcpClient<N, TX_SZ, RX_SZ>,
    pub dns: Stack,
    pub tls: TlsConfig,
}

impl<const N: usize, const TX_SZ: usize, const RX_SZ: usize> NetClientFactory<N, TX_SZ, RX_SZ> {
    /// A factory on `stack` whose TLS engine is the one behind `tls`.
    pub fn new(stack: Stack, tls: TlsReference) -> (factory: Self)
        ensures
            factory.stack == stack,
            factory.tls == tls,
    {
        NetClientFactory { stack, tls }
    }

    /// A TCP client on the factory's stack and pool.
    pub fn new_tcp_client(&self) -> (tcp_client: TcpClient<N, TX_SZ, RX_SZ>)
        ensures
            tcp_client.stack == self.stack,
    {
        TcpClient { stack: self.stack }
    }

    /// An HTTPS client over `tcp_client` that resolves names on the
    /// factory's stack, accepts TLS 1.2 and later, trusts `ca_cert` and
    /// works through the factory's engine.
    pub fn new_https_client(&self, tcp_client: &TcpClient<N, TX_SZ, RX_SZ>, ca_cert: &CaCert) -> (client:
        HttpClient<N, TX_SZ, RX_SZ>)
        requires
            ca_cert.wf(),
        ensures
            client.tcp_client == *tcp_client,
            client.dns == self.stack,
            client.tls.wf(),
            client.tls.version == TlsVersion::Tls1_2,
            client.tls.ca_chain@ == ca_cert@,
            client.tls.engine == Engine::Supplied(self.tls),
    {
        HttpClient {
            tcp_client: *tcp_client,
            dns: self.stack,
            tls: TlsConfig::new(TlsVersion::Tls1_2, ca_cert, Engine::Supplied(self.tls)),
        }
    }
}

} // verus!
