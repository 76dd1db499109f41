//! The HTTPS client bundle.
//!
//! A bundle owns what an HTTPS client needs: the state block of the
//! connection pool, a DNS resolver, and a TLS configuration. A fourth part,
//! the client view, borrows the other three for as long as it lives. The
//! sockets and the TLS engine belong to the caller; [`Client`] is the record
//! of the bundle's life that decides what may happen when: the parts come
//! into being in the order of their dependencies, one request is under way
//! at a time, an abandoned request leaves every part in place, and closing
//! releases the view before what it borrows.

use vstd::prelude::*;
use crate::config::{nul_terminated, CaCert};

verus! {

/// A handle on the network stack that the caller keeps.
#[derive(Debug, Clone, Copy, PartialEq, Eq, Structural)]
pub struct Stack(pub u32);

/// A handle on a TLS engine that the caller keeps.
#[derive(Debug, Clone, Copy, PartialEq, Eq, Structural)]
pub struct TlsReference(pub u32);

/// A version of the TLS protocol.
#[derive(Debug, Clone, Copy, PartialEq, Eq, Structural)]
pub enum TlsVersion {
    Tls1_2,
    Tls1_3,
}

/// The TLS engine that a configuration refers to.
#[derive(Debug, Clone, Copy, PartialEq, Eq, Structural)]
pub enum Engine {
    /// One that the bundle owns.
    Owned,
    /// One that was handed to the bundle.
    Supplied(TlsReference),
}

/// An HTTP request method.
#[derive(Debug, Clone, Copy, PartialEq, Eq, Structural)]
pub enum Method {
    GET,
    PUT,
    POST,
    DELETE,
    HEAD,
}

/// The parts of a bundle, in the order in which they come into being.
#[derive(Debug, Clone, Copy, PartialEq, Eq, Structural)]
pub enum Part {
    /// The state block of the connection pool, with its buffers.
    Pool,
    /// The DNS resolver.
    Resolver,
    /// The TLS configuration.
    Tls,
    /// The client view, which borrows the other three.
    View,
}

/// A stage in the life of a bundle.
#[derive(Debug, Clone, Copy, PartialEq, Eq, Structural)]
pub enum Stage {
    /// The pool state and the resolver stand in their final storage.
    Allocated,
    /// The TLS configuration has been made.
    Configured,
    /// The view is bound and no request is under way.
    Ready,
    /// A request is under way.
    Busy,
    /// Every part has been released.
    Closed,
}

/// How an exchange with a server failed, as the transport reports it.
#[derive(Debug, Clone, Copy, PartialEq, Eq, Structural)]
pub enum Failure {
    Dns,
    Network,
    Codec,
    InvalidUrl,
    Tls,
    BufferTooSmall,
    AlreadySent,
    IncorrectBodyWritten,
    ConnectionAborted,
}

/// Why a request came to nothing.
#[derive(Debug, Clone, Copy, PartialEq, Eq, Structural)]
pub enum RequestError {
    /// The bundle is not ready: it is still being built, or closed.
    NotReady,
    /// Another request of this bundle is under way.
    Busy,
    /// No connection to the server could be established.
    Connection,
    /// The TLS handshake failed.
    Handshake,
    /// The exchange broke the protocol: a malformed URL, request or response.
    Protocol,
}

/// The minimum TLS version with which a bundle is configured, with the
/// certificates it trusts and the engine that does the work.
#[derive(Debug, Clone, PartialEq, Eq)]
pub struct TlsConfig {
    pub version: TlsVersion,
    pub ca_chain: Vec<u8>,
    pub engine: Engine,
}

/// A request that the bundle has admitted and the caller is to carry out.
#[derive(Debug, Clone, PartialEq, Eq)]
pub struct RequestHandle {
    pub method: Method,
    pub url: String,
}

/// The parts that are alive at a stage, in the order in which they came
/// into being.
pub open spec fn live(stage: Stage) -> Seq<Part> {
    match stage {
        Stage::Allocated => seq![Part::Pool, Part::Resolver],
        Stage::Configured => seq![Part::Pool, Part::Resolver, Part::Tls],
        Stage::Ready => seq![Part::Pool, Part::Resolver, Part::Tls, Part::View],
        Stage::Busy => seq![Part::Pool, Part::Resolver, Part::Tls, Part::View],
        Stage::Closed => Seq::<Part>::empty(),
    }
}

/// The stage after a request has been asked for: a ready bundle is busy,
/// any other stays as it is.
pub open spec fn admitting(stage: Stage) -> Stage {
    if stage == Stage::Ready {
        Stage::Busy
    } else {
        stage
    }
}

/// The stage after the request under way has ended, completed or
/// abandoned: a busy bundle is ready, any other stays as it is.
pub open spec fn settling(stage: Stage) -> Stage {
    if stage == Stage::Busy {
        Stage::Ready
    } else {
        stage
    }
}

/// The stage after a close has been asked for: a busy bundle stays busy,
/// any other is closed.
pub open spec fn closing(stage: Stage) -> Stage {
    if stage == Stage::Busy {
        Stage::Busy
    } else {
        Stage::Closed
    }
}

/// True when `part` borrows `other`.
pub open spec fn borrows(part: Part, other: Part) -> bool {
    part == Part::View && other != Part::View
}

/// The class of error that a failure of the transport belongs to.
pub open spec fn classify_spec(failure: Failure) -> RequestError {
    match failure {
        Failure::Dns => RequestError::Connection,
        Failure::Network => RequestError::Connection,
        Failure::ConnectionAborted => RequestError::Connection,
        Failure::Tls => RequestError::Handshake,
        Failure::Codec => RequestError::Protocol,
        Failure::InvalidUrl => RequestError::Protocol,
        Failure::BufferTooSmall => RequestError::Protocol,
        Failure::AlreadySent => RequestError::Protocol,
        Failure::IncorrectBodyWritten => RequestError::Protocol,
    }
}

/// Sorts a failure of the transport into the class that callers act on.
pub fn classify(failure: Failure) -> (error: RequestError)
    ensures
        error == classify_spec(failure),
{
    match failure {
        Failure::Dns => RequestError::Connection,
        Failure::Network => RequestError::Connection,
        Failure::ConnectionAborted => RequestError::Connection,
        Failure::Tls => RequestError::Handshake,
        Failure::Codec => RequestError::Protocol,
        Failure::InvalidUrl => RequestError::Protocol,
        Failure::BufferTooSmall => RequestError::Protocol,
        Failure::AlreadySent => RequestError::Protocol,
        Failure::IncorrectBodyWritten => RequestError::Protocol,
    }
}

impl TlsConfig {
    /// True when the chain ends in the NUL that the certificate parser needs.
    pub open spec fn wf(&self) -> bool {
        nul_terminated(self.ca_chain@)
    }

    /// A TLS configuration that accepts `version` and later, trusts the
    /// certificate `ca_cert` and works through `engine`.
    pub fn new(version: TlsVersion, ca_cert: &CaCert, engine: Engine) -> (tls: TlsConfig)
        requires
            ca_cert.wf(),
        ensures
            tls.wf(),
            tls.version == version,
            tls.ca_chain@ == ca_cert@,
            tls.engine == engine,
    {
        TlsConfig { version, ca_chain: ca_cert.pem.clone(), engine }
    }
}

/// The record of one bundle: a connection pool of `N` slots with transmit
/// buffers of `TX_SZ` and receive buffers of `RX_SZ` bytes, its resolver,
/// its TLS configuration and the view over them.
#[derive(Debug, Clone, PartialEq, Eq)]
pub struct Client<const N: usize, const TX_SZ: usize, const RX_SZ: usize> {
    stack: Stack,
    stage: Stage,
    tls: Option<TlsConfig>,
}

impl<const N: usize, const TX_SZ: usize, const RX_SZ: usize> Client<N, TX_SZ, RX_SZ> {
    /// The stage that the bundle is in.
    pub closed spec fn stage(&self) -> Stage {
        self.stage
    }

    /// The network stack under the bundle.
    pub closed spec fn stack(&self) -> Stack {
        self.stack
    }

    /// The TLS configuration of the bundle, once it has one.
    pub closed spec fn tls(&self) -> Option<TlsConfig> {
        self.tls
    }

    /// True when the record is consistent: the TLS configuration is there
    /// exactly while the part is alive, and it is usable.
    pub open spec fn wf(&self) -> bool {
        &&& self.tls() is Some <==> live(self.stage()).contains(Part::Tls)
        &&& self.tls() matches Some(tls) ==> tls.wf()
    }

    /// First step: the pool state and the resolver, bound to `stack`, are
    /// put where they will stay.
    pub fn allocate(stack: Stack) -> (bundle: Self)
        ensures
            bundle.wf(),
            bundle.stage() == Stage::Allocated,
            bundle.stack() == stack,
    {
        Client { stack, stage: Stage::Allocated, tls: None }
    }

    /// Second step: the TLS configuration is made. A bundle at any other
    /// stage refuses and stays as it is.
    pub fn configure(&mut self, tls: TlsConfig) -> (done: bool)
        requires
            old(self).wf(),
            tls.wf(),
        ensures
            final(self).wf(),
            final(self).stack() == old(self).stack(),
            done == (old(self).stage() == Stage::Allocated),
            done ==> final(self).stage() == Stage::Configured && final(self).tls() == Some(tls),
            !done ==> *final(self) == *old(self),
    {
        match self.stage {
            Stage::Allocated => {
                self.tls = Some(tls);
                self.stage = Stage::Configured;
                true
            },
            _ => false,
        }
    }

    /// Third step: the view is bound to the three parts it borrows. A
    /// bundle at any other stage refuses and stays as it is.
    pub fn bind(&mut self) -> (done: bool)
        requires
            old(self).wf(),
        ensures
            final(self).wf(),
            final(self).stack() == old(self).stack(),
            final(self).tls() == old(self).tls(),
            done == (old(self).stage() == Stage::Configured),
            done ==> final(self).stage() == Stage::Ready,
            !done ==> *final(self) == *old(self),
    {
        match self.stage {
            Stage::Configured => {
                self.stage = Stage::Ready;
                true
            },
            _ => false,
        }
    }

    /// The stage that the bundle is in.
    pub fn current_stage(&self) -> (stage: Stage)
        ensures
            stage == self.stage(),
    {
        self.stage
    }

    /// The TLS configuration of the bundle, once it has one.
    pub fn tls_config(&self) -> (tls: Option<&TlsConfig>)
        ensures
            match tls {
                Some(tls) => self.tls() == Some(*tls),
                None => self.tls() is None,
            },
    {
        self.tls.as_ref()
    }

    /// The number of slots of the connection pool.
    pub fn capacity(&self) -> (slots: usize)
        ensures
            slots == N,
    {
        N
    }

    /// Admits a request. A ready bundle becomes busy and hands out the
    /// request for the caller to carry out; a busy one, or one that is not
    /// built or closed, refuses and stays as it is.
    pub fn request(&mut self, method: Method, url: &str) -> (admitted: Result<
        RequestHandle,
        RequestError,
    >)
        requires
            old(self).wf(),
        ensures
            final(self).wf(),
            final(self).stack() == old(self).stack(),
            final(self).tls() == old(self).tls(),
            final(self).stage() == admitting(old(self).stage()),
            match old(self).stage() {
                Stage::Ready => admitted matches Ok(handle) && handle.method == method
                    && handle.url@ == url@,
                Stage::Busy => admitted == Err::<RequestHandle, RequestError>(RequestError::Busy),
                _ => admitted == Err::<RequestHandle, RequestError>(RequestError::NotReady),
            },
    {
        match self.stage {
            Stage::Ready => {
                self.stage = Stage::Busy;
                Ok(RequestHandle { method, url: url.to_owned() })
            },
            Stage::Busy => Err(RequestError::Busy),
            _ => Err(RequestError::NotReady),
        }
    }

    /// Ends the request under way with what the transport reported: the
    /// bundle is ready again, and a failure is handed on by its class.
    /// Nothing is retried. Without a request under way nothing changes,
    /// and the report is handed on all the same.
    pub fn complete(&mut self, handle: RequestHandle, report: Result<(), Failure>) -> (result: Result<
        (),
        RequestError,
    >)
        requires
            old(self).wf(),
        ensures
            final(self).wf(),
            final(self).stack() == old(self).stack(),
            final(self).tls() == old(self).tls(),
            final(self).stage() == settling(old(self).stage()),
            result == (match report {
                Ok(_) => Ok::<(), RequestError>(()),
                Err(failure) => Err::<(), RequestError>(classify_spec(failure)),
            }),
    {
        self.settle();
        match report {
            Ok(_) => Ok(()),
            Err(failure) => Err(classify(failure)),
        }
    }

    /// Abandons the request under way. Every part of the bundle stays
    /// alive, and the bundle is ready for the next request.
    pub fn cancel(&mut self, handle: RequestHandle)
        requires
            old(self).wf(),
        ensures
            final(self).wf(),
            final(self).stack() == old(self).stack(),
            final(self).tls() == old(self).tls(),
            final(self).stage() == settling(old(self).stage()),
    {
        self.settle();
    }

    fn settle(&mut self)
        requires
            old(self).wf(),
        ensures
            final(self).wf(),
            final(self).stack() == old(self).stack(),
            final(self).tls() == old(self).tls(),
            final(self).stage() == settling(old(self).stage()),
    {
        match self.stage {
            Stage::Busy => {
                self.stage = Stage::Ready;
            },
            _ => {},
        }
    }

    /// Closes the bundle and names the parts released, in the order of
    /// their release: the last made first, so the view goes before what it
    /// borrows. While a request is under way the bundle refuses, releases
    /// nothing and stays as it is.
    pub fn close(&mut self) -> (released: Vec<Part>)
        requires
            old(self).wf(),
        ensures
            final(self).wf(),
            final(self).stack() == old(self).stack(),
            final(self).stage() == closing(old(self).stage()),
            old(self).stage() == Stage::Busy ==> released@.len() == 0 && *final(self) == *old(self),
            old(self).stage() != Stage::Busy ==> released@ == live(old(self).stage()).reverse(),
    {
        let mut released: Vec<Part> = Vec::new();
        match self.stage {
            Stage::Busy => {
                return released;
            },
            Stage::Ready => {
                released.push(Part::View);
                released.push(Part::Tls);
                released.push(Part::Resolver);
                released.push(Part::Pool);
            },
            Stage::Configured => {
                released.push(Part::Tls);
                released.push(Part::Resolver);
                released.push(Part::Pool);
            },
            Stage::Allocated => {
                released.push(Part::Resolver);
                released.push(Part::Pool);
            },
            Stage::Closed => {},
        }
        self.stage = Stage::Closed;
        self.tls = None;
        released
    }
}

/// Builds a bundle over `stack`, step by step: storage first, then a TLS
/// configuration that accepts TLS 1.2 and later, trusts `ca_cert` and works
/// through the engine behind `tls_reference`, then the view.
pub fn client<const N: usize, const TX_SZ: usize, const RX_SZ: usize>(
    stack: Stack,
    tls_reference: TlsReference,
    ca_cert: &CaCert,
) -> (bundle: Client<N, TX_SZ, RX_SZ>)
    requires
        ca_cert.wf(),
    ensures
        bundle.wf(),
        bundle.stage() == Stage::Ready,
        bundle.stack() == stack,
        bundle.tls() matches Some(tls) && tls.version == TlsVersion::Tls1_2 && tls.ca_chain@
            == ca_cert@ && tls.engine == Engine::Supplied(tls_reference),
{
    let mut bundle = Client::<N, TX_SZ, RX_SZ>::allocate(stack);
    let tls = TlsConfig::new(TlsVersion::Tls1_2, ca_cert, Engine::Supplied(tls_reference));
    let configured = bundle.configure(tls);
    let bound = bundle.bind();
    bundle
}

/// A request under way takes nothing from the bundle and adds nothing:
/// asking for one and ending one, by completion or by abandoning it, leave
/// every part alive.
pub proof fn lemma_requests_keep_every_part(stage: Stage)
    ensures
        live(admitting(stage)) == live(stage),
        live(settling(stage)) == live(stage),
{
}

/// After a request has ended, by completion or by abandoning it, the bundle
/// is where it was before the request: ready for the next one.
pub proof fn lemma_ended_request_leaves_ready()
    ensures
        admitting(Stage::Ready) == Stage::Busy,
        settling(admitting(Stage::Ready)) == Stage::Ready,
        admitting(settling(admitting(Stage::Ready))) == Stage::Busy,
{
}

/// A bundle that is closed after its requests have ended releases each of
/// its four parts once, the view first, and nothing stays alive.
pub proof fn lemma_close_releases_every_part_once()
    ensures
        closing(settling(admitting(Stage::Ready))) == Stage::Closed,
        live(Stage::Ready).reverse() == seq![Part::View, Part::Tls, Part::Resolver, Part::Pool],
        live(Stage::Closed).len() == 0,
        live(closing(Stage::Busy)) == live(Stage::Busy),
{
    assert(live(Stage::Ready).reverse() =~= seq![Part::View, Part::Tls, Part::Resolver, Part::Pool]);
}

/// While the view is alive, so is every part it borrows.
pub proof fn lemma_view_never_outlives(stage: Stage, other: Part)
    requires
        live(stage).contains(Part::View),
        borrows(Part::View, other),
    ensures
        live(stage).contains(other),
{
}

/// In the order of making, what is borrowed comes before what borrows it;
/// in the order of release, after it.
pub proof fn lemma_orders_respect_borrows(stage: Stage, i: int, j: int)
    requires
        0 <= i < live(stage).len(),
        0 <= j < live(stage).len(),
        borrows(live(stage)[i], live(stage)[j]),
    ensures
        j < i,
        live(stage).reverse()[live(stage).len() - 1 - i] == live(stage)[i],
        live(stage).reverse()[live(stage).len() - 1 - j] == live(stage)[j],
        live(stage).len() - 1 - i < live(stage).len() - 1 - j,
{
}

} // verus!
