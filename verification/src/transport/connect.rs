//! Establishing a connection, up to the exchange of hello and acknowledge.
//!
//! A [`Handshake`] decides what to do next. The program around the library does it, on sockets
//! of its own, and reports what came of it.

use std::sync::Arc;

use opcua_types::EndpointDescription;
use vstd::prelude::*;
use vstd::string::StringExecFns;
use vstd::utf8::encode_utf8;

use crate::endpoint::{
    clone_endpoint, endpoint_from_url, endpoint_url, unsecured_endpoint, url_of,
};
use crate::message::{AcknowledgeMessage, Message, ReverseHelloMessage};
use crate::stack::{encode_hello, hello_encoding, law_hello_holds_what_it_says, le_u32};
use crate::status::{
    StatusCode, BAD_COMMUNICATION_ERROR, BAD_CONNECTION_CLOSED, BAD_INVALID_ARGUMENT,
    BAD_TCP_ENDPOINT_URL_INVALID,
};
use crate::transport::tcp::TransportConfiguration;
use crate::url::{
    address_from_url, binary_url, host_and_port, is_opc_ua_binary_url,
    law_address_names_host_and_port, law_any_number_of_slashes_is_ignored,
    law_same_urls_differ_only_in_slashes, read_decimal, same_but_for_trailing_slashes, slashes, socket_address, trim_trailing_slashes,
    DEFAULT_OPC_UA_SERVER_PORT,
};

verus! {

/// Why a connector could not be made.
#[derive(Debug)]
pub struct ConnectorError {
    /// The status code that stands for the error.
    pub status: StatusCode,
    /// What went wrong, in words.
    pub context: String,
}

/// Connector for `opc.tcp` transport.
#[derive(Debug)]
pub struct TcpConnector {
    endpoint_url: String,
}

impl View for TcpConnector {
    type V = Seq<char>;

    closed spec fn view(&self) -> Seq<char> {
        self.endpoint_url@
    }
}

impl TcpConnector {
    /// Create a new `TcpConnector` with the given endpoint URL.
    pub fn new(endpoint_url: &str) -> (res: Result<Self, ConnectorError>)
        ensures
            connector_made(endpoint_url@, binary_url(endpoint_url@), res),
    {
        let is_binary = is_opc_ua_binary_url(endpoint_url);
        Self::new_checked(endpoint_url, is_binary)
    }

    /// Create a new `TcpConnector` for an endpoint URL that is an `opc.tcp` URL, or refuse to
    /// if it is not one.
    pub fn new_checked(endpoint_url: &str, is_binary: bool) -> (res: Result<Self, ConnectorError>)
        ensures
            connector_made(endpoint_url@, is_binary, res),
    {
        if is_binary {
            Ok(TcpConnector { endpoint_url: endpoint_url.to_owned() })
        } else {
            let mut context = "Invalid OPC-UA URL: ".to_owned();
            context.append(endpoint_url);
            Err(ConnectorError { status: StatusCode(BAD_INVALID_ARGUMENT), context })
        }
    }

    /// The endpoint URL.
    pub fn endpoint_url(&self) -> (res: &str)
        ensures
            res@ == self@,
    {
        self.endpoint_url.as_str()
    }

    /// Get the default endpoint for this connector.
    pub fn default_endpoint(&self) -> (res: EndpointDescription)
        ensures
            res == unsecured_endpoint(self@),
            url_of(res) == self@,
    {
        endpoint_from_url(self.endpoint_url.as_str())
    }
}

/// What comes of making a connector for a URL.
pub open spec fn connector_made(
    url: Seq<char>,
    is_binary: bool,
    res: Result<TcpConnector, ConnectorError>,
) -> bool {
    match res {
        Ok(connector) => is_binary && connector@ == url,
        Err(e) => !is_binary && e.status == StatusCode(BAD_INVALID_ARGUMENT) && e.context@
            == "Invalid OPC-UA URL: "@ + url,
    }
}

/// Receiver for a reverse TCP connection.
pub enum TcpConnectorReceiver<L, A> {
    /// Pre-established TCP listener.
    Listener(Arc<L>),
    /// Address to bind to and listen for a connection.
    Address(A),
}

/// Trait for verifying the server URI in a ReverseHello message.
pub trait ReverseHelloVerifier {
    /// Verify that the server URI and endpoint URL are valid and accepted.
    fn verify(&self, endpoint_url: &str, server_url: &str) -> Result<(), StatusCode>;
}

/// The verifier that just compares the endpoint URL with an expected one.
#[derive(Debug)]
pub struct EndpointUrlVerifier {
    expected_url: String,
}

impl View for EndpointUrlVerifier {
    type V = Seq<char>;

    closed spec fn view(&self) -> Seq<char> {
        self.expected_url@
    }
}

/// What comes of comparing endpoint URLs. Slashes at their ends make no difference.
pub open spec fn url_verdict(expected: Seq<char>, endpoint_url: Seq<char>) -> Result<
    (),
    StatusCode,
> {
    if same_but_for_trailing_slashes(expected, endpoint_url) {
        Ok(())
    } else {
        Err(StatusCode(BAD_TCP_ENDPOINT_URL_INVALID))
    }
}

impl EndpointUrlVerifier {
    /// Expect a URL.
    pub fn new(expected_url: String) -> (res: Self)
        ensures
            res@ == expected_url@,
    {
        EndpointUrlVerifier { expected_url }
    }
}

impl ReverseHelloVerifier for EndpointUrlVerifier {
    fn verify(&self, endpoint_url: &str, server_url: &str) -> (res: Result<(), StatusCode>)
        ensures
            res == url_verdict(self@, endpoint_url@),
    {
        let expected_url = trim_trailing_slashes(self.expected_url.as_str()).to_owned();
        if expected_url == trim_trailing_slashes(endpoint_url).to_owned() {
            Ok(())
        } else {
            Err(StatusCode(BAD_TCP_ENDPOINT_URL_INVALID))
        }
    }
}

/// Connector for reverse connections over opc/tcp.
/// This connector will listen for a connection from the server and then
/// use that to connect, instead of the other way around like the normal
/// direct connector.
pub struct ReverseTcpConnector<L, A, V> {
    listener: TcpConnectorReceiver<L, A>,
    verifier: V,
    target_endpoint: EndpointDescription,
}

/// The mathematical content of a [`ReverseTcpConnector`].
pub struct ReverseTcpConnectorView<L, A, V> {
    pub listener: TcpConnectorReceiver<L, A>,
    pub verifier: V,
    pub target_endpoint: EndpointDescription,
}

impl<L, A, V> View for ReverseTcpConnector<L, A, V> {
    type V = ReverseTcpConnectorView<L, A, V>;

    closed spec fn view(&self) -> ReverseTcpConnectorView<L, A, V> {
        ReverseTcpConnectorView {
            listener: self.listener,
            verifier: self.verifier,
            target_endpoint: self.target_endpoint,
        }
    }
}

impl<L, A, V> ReverseTcpConnector<L, A, V> {
    /// Create a new `ReverseTcpConnector` with the given listener and verifier.
    pub fn new(
        listener: TcpConnectorReceiver<L, A>,
        verifier: V,
        target_endpoint: EndpointDescription,
    ) -> (res: Self)
        ensures
            res@ == (ReverseTcpConnectorView { listener, verifier, target_endpoint }),
    {
        ReverseTcpConnector { listener, verifier, target_endpoint }
    }

    /// Create a new `ReverseTcpConnector` with the given listener and verifier.
    pub fn new_listener(listener: L, verifier: V, target_endpoint: EndpointDescription) -> (res:
        Self)
        ensures
            res@ == (ReverseTcpConnectorView {
                listener: TcpConnectorReceiver::<L, A>::Listener(Arc::new(listener)),
                verifier,
                target_endpoint,
            }),
    {
        ReverseTcpConnector {
            listener: TcpConnectorReceiver::Listener(Arc::new(listener)),
            verifier,
            target_endpoint,
        }
    }

    /// Create a new `ReverseTcpConnector` with the given address and verifier.
    /// This will bind to the address and listen for a connection.
    pub fn new_address(address: A, verifier: V, target_endpoint: EndpointDescription) -> (res: Self)
        ensures
            res@ == (ReverseTcpConnectorView {
                listener: TcpConnectorReceiver::<L, A>::Address(address),
                verifier,
                target_endpoint,
            }),
    {
        ReverseTcpConnector {
            listener: TcpConnectorReceiver::Address(address),
            verifier,
            target_endpoint,
        }
    }

    /// Where the connection of the server is received.
    pub fn listener(&self) -> (res: &TcpConnectorReceiver<L, A>)
        ensures
            *res == self@.listener,
    {
        &self.listener
    }

    /// Get the default endpoint for this connector.
    pub fn default_endpoint(&self) -> (res: EndpointDescription)
        ensures
            res == self@.target_endpoint,
    {
        clone_endpoint(&self.target_endpoint)
    }
}

impl<L, A> ReverseTcpConnector<L, A, EndpointUrlVerifier> {
    /// Create a new `ReverseTcpConnector` with a default verifier that just compares the
    /// endpoint URL with the target endpoint.
    pub fn new_default(
        target_endpoint: EndpointDescription,
        listener: TcpConnectorReceiver<L, A>,
    ) -> (res: Self)
        ensures
            res@.target_endpoint == target_endpoint,
            res@.listener == listener,
            res@.verifier@ == url_of(target_endpoint),
    {
        let verifier = EndpointUrlVerifier::new(endpoint_url(&target_endpoint));
        ReverseTcpConnector { listener, verifier, target_endpoint }
    }
}

/// What a handshake waits for.
#[derive(Clone, Copy, Debug, PartialEq, Eq, Structural)]
pub enum Phase {
    /// The address of the server is looked up.
    Resolving,
    /// A connection to the server is opened.
    Connecting,
    /// An address is bound.
    Binding,
    /// A connection from the server is awaited.
    Accepting,
    /// The server is to say first which endpoint it is.
    AwaitingReverseHello,
    /// The endpoint of the server is verified.
    Verifying,
    /// The hello is sent.
    SendingHello,
    /// The hello is to be acknowledged.
    AwaitingAcknowledge,
    /// The connection is established.
    Finished,
    /// The connection was given up.
    Failed,
}

/// What happened in a handshake.
pub enum ConnectEvent {
    /// The address was looked up: whether a socket address was found.
    Resolved(bool),
    /// A connection was opened: whether that succeeded.
    Connected(bool),
    /// An address was bound: whether that succeeded.
    Bound(bool),
    /// A connection was accepted: whether that succeeded.
    Accepted(bool),
    /// A message was read, or reading failed, or, for `None`, the stream ended.
    Read(Option<Result<Message, ()>>),
    /// The endpoint was accepted or rejected.
    Verified(Result<(), StatusCode>),
    /// The hello was sent: whether that succeeded.
    HelloSent(bool),
}

/// What to do next in a handshake.
#[derive(Debug)]
pub enum ConnectAction {
    /// Look this address up.
    Resolve(String),
    /// Open a connection to the socket address that was found.
    Connect,
    /// Bind the address of the connector.
    Bind,
    /// Accept a connection.
    Accept,
    /// Read a message from the connection.
    Read,
    /// Have this endpoint URL and server URI verified.
    Verify { endpoint_url: String, server_uri: String },
    /// Write these bytes to the connection.
    SendHello(Vec<u8>),
    /// The connection is established on these terms.
    Finish(AcknowledgeMessage),
    /// Give the connection up.
    Fail(StatusCode),
}

/// The mathematical content of a [`ConnectAction`].
pub enum ActionView {
    Resolve(Seq<char>),
    Connect,
    Bind,
    Accept,
    Read,
    Verify { endpoint_url: Seq<char>, server_uri: Seq<char> },
    SendHello(Seq<u8>),
    Finish(AcknowledgeMessage),
    Fail(StatusCode),
}

impl View for ConnectAction {
    type V = ActionView;

    open spec fn view(&self) -> ActionView {
        match *self {
            ConnectAction::Resolve(address) => ActionView::Resolve(address@),
            ConnectAction::Connect => ActionView::Connect,
            ConnectAction::Bind => ActionView::Bind,
            ConnectAction::Accept => ActionView::Accept,
            ConnectAction::Read => ActionView::Read,
            ConnectAction::Verify { endpoint_url, server_uri } => ActionView::Verify {
                endpoint_url: endpoint_url@,
                server_uri: server_uri@,
            },
            ConnectAction::SendHello(bytes) => ActionView::SendHello(bytes@),
            ConnectAction::Finish(ack) => ActionView::Finish(ack),
            ConnectAction::Fail(status) => ActionView::Fail(status),
        }
    }
}

/// Establishing one connection.
#[derive(Debug)]
pub struct Handshake {
    config: TransportConfiguration,
    phase: Phase,
    endpoint_url: String,
    connected_url: String,
}

/// The mathematical content of a [`Handshake`].
pub struct HandshakeView {
    pub config: TransportConfiguration,
    pub phase: Phase,
    /// The endpoint that the hello names. Empty until it is known.
    pub endpoint_url: Seq<char>,
    /// The endpoint that the transport reports. Empty until it is known.
    pub connected_url: Seq<char>,
}

impl View for Handshake {
    type V = HandshakeView;

    closed spec fn view(&self) -> HandshakeView {
        HandshakeView {
            config: self.config,
            phase: self.phase,
            endpoint_url: self.endpoint_url@,
            connected_url: self.connected_url@,
        }
    }
}

impl HandshakeView {
    /// The same handshake in another phase.
    pub open spec fn at(self, phase: Phase) -> HandshakeView {
        HandshakeView { phase, ..self }
    }

    /// The hello of the client.
    pub open spec fn hello(self) -> Seq<u8> {
        hello_encoding(
            encode_utf8(self.endpoint_url),
            self.config.send_buffer_size as int,
            self.config.recv_buffer_size as int,
            self.config.max_message_size as int,
            self.config.max_chunk_count as int,
        )
    }

    /// Give the connection up.
    pub open spec fn failed(self, status: StatusCode) -> (HandshakeView, ActionView) {
        (self.at(Phase::Failed), ActionView::Fail(status))
    }
}

/// Whether a phase waits for such an event.
pub open spec fn awaits(phase: Phase, event: ConnectEvent) -> bool {
    match phase {
        Phase::Resolving => event is Resolved,
        Phase::Connecting => event is Connected,
        Phase::Binding => event is Bound,
        Phase::Accepting => event is Accepted,
        Phase::AwaitingReverseHello => event is Read,
        Phase::Verifying => event is Verified,
        Phase::SendingHello => event is HelloSent,
        Phase::AwaitingAcknowledge => event is Read,
        Phase::Finished | Phase::Failed => false,
    }
}

/// The text of a string. A null string counts as empty.
pub open spec fn text(s: Option<String>) -> Seq<char> {
    match s {
        Some(s) => s@,
        None => Seq::empty(),
    }
}

/// The text of a string as it is displayed.
pub open spec fn displayed(s: Option<String>) -> Seq<char> {
    match s {
        Some(s) => s@,
        None => "[null]"@,
    }
}

/// The handshake after a step that may have failed, and what to do next.
pub open spec fn went_on(
    before: HandshakeView,
    succeeded: bool,
    failure: u32,
    phase: Phase,
    action: ActionView,
) -> (HandshakeView, ActionView) {
    if succeeded {
        (before.at(phase), action)
    } else {
        before.failed(StatusCode(failure))
    }
}

/// The handshake after an event that its phase waits for, and what to do next.
pub open spec fn handshake_step(before: HandshakeView, event: ConnectEvent) -> (
    HandshakeView,
    ActionView,
) {
    match event {
        ConnectEvent::Resolved(found) => went_on(
            before,
            found,
            BAD_TCP_ENDPOINT_URL_INVALID,
            Phase::Connecting,
            ActionView::Connect,
        ),
        ConnectEvent::Connected(succeeded) => went_on(
            before,
            succeeded,
            BAD_COMMUNICATION_ERROR,
            Phase::SendingHello,
            ActionView::SendHello(before.hello()),
        ),
        ConnectEvent::Bound(succeeded) => went_on(
            before,
            succeeded,
            BAD_COMMUNICATION_ERROR,
            Phase::Accepting,
            ActionView::Accept,
        ),
        ConnectEvent::Accepted(succeeded) => went_on(
            before,
            succeeded,
            BAD_COMMUNICATION_ERROR,
            Phase::AwaitingReverseHello,
            ActionView::Read,
        ),
        ConnectEvent::Verified(verdict) => match verdict {
            Ok(_) => (before.at(Phase::SendingHello), ActionView::SendHello(before.hello())),
            Err(status) => before.failed(status),
        },
        ConnectEvent::HelloSent(succeeded) => went_on(
            before,
            succeeded,
            BAD_COMMUNICATION_ERROR,
            Phase::AwaitingAcknowledge,
            ActionView::Read,
        ),
        ConnectEvent::Read(read) => match (before.phase, read) {
            (Phase::AwaitingReverseHello, Some(Ok(Message::ReverseHello(hello)))) => (
                HandshakeView {
                    phase: Phase::Verifying,
                    endpoint_url: text(hello.endpoint_url),
                    connected_url: displayed(hello.endpoint_url),
                    ..before
                },
                ActionView::Verify {
                    endpoint_url: text(hello.endpoint_url),
                    server_uri: text(hello.server_uri),
                },
            ),
            (Phase::AwaitingAcknowledge, Some(Ok(Message::Acknowledge(ack)))) => (
                before.at(Phase::Finished),
                ActionView::Finish(ack),
            ),
            _ => before.failed(StatusCode(BAD_CONNECTION_CLOSED)),
        },
    }
}

/// Copy the text of a string. A null string counts as empty.
fn text_of(s: &Option<String>) -> (res: String)
    ensures
        res@ == text(*s),
{
    match s {
        Some(s) => s.as_str().to_owned(),
        None => {
            proof {
                reveal_strlit("");
            }
            "".to_owned()
        },
    }
}

/// Display a string.
fn display_of(s: &Option<String>) -> (res: String)
    ensures
        res@ == displayed(*s),
{
    match s {
        Some(s) => s.as_str().to_owned(),
        None => "[null]".to_owned(),
    }
}

impl Handshake {
    /// Start connecting to an endpoint.
    pub fn start(config: TransportConfiguration, connector: &TcpConnector) -> (res: (
        Self,
        ConnectAction,
    ))
        ensures
            match host_and_port(connector@, DEFAULT_OPC_UA_SERVER_PORT) {
                Some((host, port)) => res.0@.phase == Phase::Resolving && res.1@
                    == ActionView::Resolve(socket_address(host, port)),
                None => res.0@.phase == Phase::Failed && res.1@ == ActionView::Fail(
                    StatusCode(BAD_TCP_ENDPOINT_URL_INVALID),
                ),
            },
            res.0@.config == config,
            res.0@.endpoint_url == connector@,
            res.0@.connected_url == connector@,
    {
        Self::start_at(config, connector, address_from_url(connector.endpoint_url()))
    }

    /// Start connecting to an endpoint whose address, if it has one, is known.
    pub fn start_at(
        config: TransportConfiguration,
        connector: &TcpConnector,
        address: Result<String, StatusCode>,
    ) -> (res: (Self, ConnectAction))
        ensures
            res.0@ == (HandshakeView {
                config,
                phase: if address is Ok {
                    Phase::Resolving
                } else {
                    Phase::Failed
                },
                endpoint_url: connector@,
                connected_url: connector@,
            }),
            match address {
                Ok(address) => res.1@ == ActionView::Resolve(address@),
                Err(status) => res.1@ == ActionView::Fail(status),
            },
    {
        let endpoint_url = connector.endpoint_url().to_owned();
        let connected_url = connector.endpoint_url().to_owned();
        match address {
            Ok(address) => (
                Handshake { config, phase: Phase::Resolving, endpoint_url, connected_url },
                ConnectAction::Resolve(address),
            ),
            Err(status) => (
                Handshake { config, phase: Phase::Failed, endpoint_url, connected_url },
                ConnectAction::Fail(status),
            ),
        }
    }

    /// Start waiting for a connection from the server, if need be on an address that is bound
    /// first.
    pub fn start_reverse<L, A, V>(
        config: TransportConfiguration,
        connector: &ReverseTcpConnector<L, A, V>,
    ) -> (res: (Self, ConnectAction))
        ensures
            res.0@ == (HandshakeView {
                config,
                phase: match connector@.listener {
                    TcpConnectorReceiver::Listener(_) => Phase::Accepting,
                    TcpConnectorReceiver::Address(_) => Phase::Binding,
                },
                endpoint_url: Seq::empty(),
                connected_url: Seq::empty(),
            }),
            res.1@ == match connector@.listener {
                TcpConnectorReceiver::Listener(_) => ActionView::Accept,
                TcpConnectorReceiver::Address(_) => ActionView::Bind,
            },
    {
        let (phase, action) = match connector.listener {
            TcpConnectorReceiver::Listener(_) => (Phase::Accepting, ConnectAction::Accept),
            TcpConnectorReceiver::Address(_) => (Phase::Binding, ConnectAction::Bind),
        };
        let handshake = Handshake {
            config,
            phase,
            endpoint_url: text_of(&None),
            connected_url: text_of(&None),
        };
        (handshake, action)
    }

    /// The endpoint that the transport will report.
    pub fn connected_url(&self) -> (res: String)
        ensures
            res@ == self@.connected_url,
    {
        self.connected_url.as_str().to_owned()
    }

    /// Whether the handshake waits for such an event.
    pub fn awaits(&self, event: &ConnectEvent) -> (res: bool)
        ensures
            res == awaits(self@.phase, *event),
    {
        match (self.phase, event) {
            (Phase::Resolving, ConnectEvent::Resolved(_)) => true,
            (Phase::Connecting, ConnectEvent::Connected(_)) => true,
            (Phase::Binding, ConnectEvent::Bound(_)) => true,
            (Phase::Accepting, ConnectEvent::Accepted(_)) => true,
            (Phase::AwaitingReverseHello, ConnectEvent::Read(_)) => true,
            (Phase::Verifying, ConnectEvent::Verified(_)) => true,
            (Phase::SendingHello, ConnectEvent::HelloSent(_)) => true,
            (Phase::AwaitingAcknowledge, ConnectEvent::Read(_)) => true,
            _ => false,
        }
    }

    /// Go on after an event, and find out what to do next.
    pub fn next(&mut self, event: ConnectEvent) -> (res: ConnectAction)
        requires
            awaits(old(self)@.phase, event),
        ensures
            (final(self)@, res@) == handshake_step(old(self)@, event),
    {
        match event {
            ConnectEvent::Resolved(found) => if found {
                self.phase = Phase::Connecting;
                ConnectAction::Connect
            } else {
                self.fail(StatusCode(BAD_TCP_ENDPOINT_URL_INVALID))
            },
            ConnectEvent::Connected(succeeded) => if succeeded {
                self.say_hello()
            } else {
                self.fail(StatusCode(BAD_COMMUNICATION_ERROR))
            },
            ConnectEvent::Bound(succeeded) => if succeeded {
                self.phase = Phase::Accepting;
                ConnectAction::Accept
            } else {
                self.fail(StatusCode(BAD_COMMUNICATION_ERROR))
            },
            ConnectEvent::Accepted(succeeded) => if succeeded {
                self.phase = Phase::AwaitingReverseHello;
                ConnectAction::Read
            } else {
                self.fail(StatusCode(BAD_COMMUNICATION_ERROR))
            },
            ConnectEvent::Verified(verdict) => match verdict {
                Ok(_) => self.say_hello(),
                Err(status) => self.fail(status),
            },
            ConnectEvent::HelloSent(succeeded) => if succeeded {
                self.phase = Phase::AwaitingAcknowledge;
                ConnectAction::Read
            } else {
                self.fail(StatusCode(BAD_COMMUNICATION_ERROR))
            },
            ConnectEvent::Read(read) => match (self.phase, read) {
                (
                    Phase::AwaitingReverseHello,
                    Some(Ok(Message::ReverseHello(hello))),
                ) => self.verify(hello),
                (Phase::AwaitingAcknowledge, Some(Ok(Message::Acknowledge(ack)))) => {
                    self.phase = Phase::Finished;
                    ConnectAction::Finish(ack)
                },
                _ => self.fail(StatusCode(BAD_CONNECTION_CLOSED)),
            },
        }
    }

    /// Give the connection up.
    fn fail(&mut self, status: StatusCode) -> (res: ConnectAction)
        ensures
            (final(self)@, res@) == old(self)@.failed(status),
    {
        self.phase = Phase::Failed;
        ConnectAction::Fail(status)
    }

    /// Send the hello of the client.
    fn say_hello(&mut self) -> (res: ConnectAction)
        ensures
            final(self)@ == old(self)@.at(Phase::SendingHello),
            res@ == ActionView::SendHello(old(self)@.hello()),
    {
        self.phase = Phase::SendingHello;
        let hello = encode_hello(
            self.endpoint_url.as_str(),
            self.config.send_buffer_size,
            self.config.recv_buffer_size,
            self.config.max_message_size,
            self.config.max_chunk_count,
        );
        ConnectAction::SendHello(hello)
    }

    /// Have the endpoint that the server named verified.
    fn verify(&mut self, hello: ReverseHelloMessage) -> (res: ConnectAction)
        requires
            old(self)@.phase == Phase::AwaitingReverseHello,
        ensures
            (final(self)@, res@) == handshake_step(
                old(self)@,
                ConnectEvent::Read(Some(Ok(Message::ReverseHello(hello)))),
            ),
    {
        self.phase = Phase::Verifying;
        self.endpoint_url = text_of(&hello.endpoint_url);
        self.connected_url = display_of(&hello.endpoint_url);
        ConnectAction::Verify {
            endpoint_url: text_of(&hello.endpoint_url),
            server_uri: text_of(&hello.server_uri),
        }
    }
}

/// The verifier was asked about the endpoint URL and the server URI, and its verdict decided.
pub open spec fn verified_step<V: ReverseHelloVerifier>(
    verifier: V,
    endpoint_url: Seq<char>,
    server_uri: Seq<char>,
    before: HandshakeView,
    after: (HandshakeView, ActionView),
) -> bool {
    exists|url: &str, uri: &str, verdict: Result<(), StatusCode>|
        {
            &&& #[trigger] call_ensures(V::verify, (&verifier, url, uri), verdict)
            &&& url@ == endpoint_url
            &&& uri@ == server_uri
            &&& after == handshake_step(before, ConnectEvent::Verified(verdict))
        }
}

impl<L, A, V: ReverseHelloVerifier> ReverseTcpConnector<L, A, V> {
    /// Go on after an event. Where the server has named its endpoint, the verifier decides.
    pub fn next(&self, handshake: &mut Handshake, event: ConnectEvent) -> (res: ConnectAction)
        requires
            awaits(old(handshake)@.phase, event),
        ensures
            ({
                let (mid, action) = handshake_step(old(handshake)@, event);
                match action {
                    ActionView::Verify { endpoint_url, server_uri } => verified_step(
                        self@.verifier,
                        endpoint_url,
                        server_uri,
                        mid,
                        (final(handshake)@, res@),
                    ),
                    _ => (final(handshake)@, res@) == (mid, action),
                }
            }),
    {
        let action = handshake.next(event);
        match action {
            ConnectAction::Verify { endpoint_url, server_uri } => {
                let url = endpoint_url.as_str();
                let uri = server_uri.as_str();
                let verdict = self.verifier.verify(url, uri);
                handshake.next(ConnectEvent::Verified(verdict))
            },
            action => action,
        }
    }
}

/// The handshake after a series of events that it waits for.
pub open spec fn after_events(start: HandshakeView, events: Seq<ConnectEvent>) -> HandshakeView
    decreases events.len(),
{
    if events.len() == 0 {
        start
    } else {
        handshake_step(after_events(start, events.drop_last()), events.last()).0
    }
}

/// Each event comes in a phase that waits for it.
pub open spec fn in_turn(start: HandshakeView, events: Seq<ConnectEvent>) -> bool
    decreases events.len(),
{
    events.len() > 0 ==> in_turn(start, events.drop_last()) && awaits(
        after_events(start, events.drop_last()).phase,
        events.last(),
    )
}

/// Whether the hello has been sent or is being sent.
pub open spec fn said_hello(phase: Phase) -> bool {
    phase == Phase::SendingHello || phase == Phase::AwaitingAcknowledge || phase == Phase::Finished
}

/// The verifier accepted the endpoint.
pub open spec fn is_acceptance(event: ConnectEvent) -> bool {
    event matches ConnectEvent::Verified(Ok(_))
}

/// The only event that lets a server that opened the connection be told hello is that its
/// endpoint was accepted.
proof fn lemma_only_acceptance_leads_to_hello(before: HandshakeView, event: ConnectEvent)
    requires
        awaits(before.phase, event),
        before.phase != Phase::Resolving,
        before.phase != Phase::Connecting,
    ensures
        ({
            let phase = handshake_step(before, event).0.phase;
            &&& phase != Phase::Resolving
            &&& phase != Phase::Connecting
            &&& said_hello(phase) ==> said_hello(before.phase) || is_acceptance(event)
        }),
{
}

/// A server that opened the connection itself is told nothing before its endpoint has been
/// verified: the hello is only sent once the verifier has accepted the endpoint.
pub proof fn law_hello_waits_for_verification(start: HandshakeView, events: Seq<ConnectEvent>)
    requires
        start.phase == Phase::Binding || start.phase == Phase::Accepting,
        in_turn(start, events),
    ensures
        said_hello(after_events(start, events).phase) ==> exists|i: int|
            0 <= i < events.len() && is_acceptance(#[trigger] events[i]),
        after_events(start, events).phase != Phase::Resolving,
        after_events(start, events).phase != Phase::Connecting,
    decreases events.len(),
{
    if events.len() > 0 {
        let earlier = events.drop_last();
        law_hello_waits_for_verification(start, earlier);
        lemma_only_acceptance_leads_to_hello(after_events(start, earlier), events.last());
        if said_hello(after_events(start, earlier).phase) {
            let i = choose|i: int| 0 <= i < earlier.len() && is_acceptance(#[trigger] earlier[i]);
            assert(events[i] == earlier[i]);
        }
        assert(events[events.len() - 1] == events.last());
    }
}

/// A handshake ends: every event that it waits for brings it closer to its end, where it waits
/// for none.
pub proof fn law_handshake_ends(before: HandshakeView, event: ConnectEvent)
    ensures
        awaits(before.phase, event) ==> steps_left(handshake_step(before, event).0.phase)
            < steps_left(before.phase),
{
}

/// The most events that a handshake in a phase can still take.
pub open spec fn steps_left(phase: Phase) -> nat {
    match phase {
        Phase::Binding => 6,
        Phase::Accepting => 5,
        Phase::AwaitingReverseHello => 4,
        Phase::Resolving => 4,
        Phase::Verifying => 3,
        Phase::Connecting => 3,
        Phase::SendingHello => 2,
        Phase::AwaitingAcknowledge => 1,
        Phase::Finished => 0,
        Phase::Failed => 0,
    }
}

/// With the verifier that compares endpoint URLs, a server is told hello exactly if it names
/// the expected endpoint, but for slashes at the end of the URL. Any other server is turned
/// away.
pub proof fn law_only_the_expected_endpoint_is_accepted(
    verifier: EndpointUrlVerifier,
    endpoint_url: Seq<char>,
    server_uri: Seq<char>,
    before: HandshakeView,
    after: (HandshakeView, ActionView),
)
    requires
        verified_step(verifier, endpoint_url, server_uri, before, after),
    ensures
        after == if same_but_for_trailing_slashes(verifier@, endpoint_url) {
            (before.at(Phase::SendingHello), ActionView::SendHello(before.hello()))
        } else {
            before.failed(StatusCode(BAD_TCP_ENDPOINT_URL_INVALID))
        },
{
}

/// A connector is made exactly for an `opc.tcp` URL, and it holds that URL. Any other URL is
/// refused as an invalid argument, and named in the refusal.
pub proof fn law_connector_holds_its_url(
    url: Seq<char>,
    is_binary: bool,
    res: Result<TcpConnector, ConnectorError>,
)
    requires
        connector_made(url, is_binary, res),
    ensures
        res is Ok <==> is_binary,
        res matches Ok(connector) ==> connector@ == url,
        res matches Err(e) ==> e.status.0 == BAD_INVALID_ARGUMENT && e.context@
            == "Invalid OPC-UA URL: "@ + url,
{
}

/// The verifier accepts a URL only if it is the expected one but for slashes at the ends: both
/// are the same characters, `s`, followed by `m` and `n` slashes. Any other URL is turned away as
/// invalid.
pub proof fn law_accepted_url_is_the_expected_one(expected: Seq<char>, named: Seq<char>) -> (res: (
    Seq<char>,
    nat,
    nat,
))
    ensures
        url_verdict(expected, named) is Ok ==> {
            let (s, m, n) = res;
            expected == s + slashes(m) && named == s + slashes(n)
        },
        url_verdict(expected, named) is Ok && expected.len() > 0 && named.len() > 0
            && expected[expected.len() - 1] != '/' && named[named.len() - 1] != '/' ==> expected
            == named,
        url_verdict(expected, named) matches Err(status) ==> status.0
            == BAD_TCP_ENDPOINT_URL_INVALID,
{
    if url_verdict(expected, named) is Ok {
        law_same_urls_differ_only_in_slashes(expected, named)
    } else {
        (Seq::empty(), 0, 0)
    }
}

/// The expected URL is accepted, with any number of slashes at its end or without.
pub proof fn law_expected_url_is_accepted(s: Seq<char>, m: nat, n: nat)
    ensures
        url_verdict(s + slashes(m), s + slashes(n)) is Ok,
        url_verdict(s, s) is Ok,
{
    law_any_number_of_slashes_is_ignored(s, m, n);
}

/// Each phase waits for one kind of event, and once a handshake has ended it waits for none.
pub proof fn law_each_phase_waits_for_its_event(phase: Phase, event: ConnectEvent)
    ensures
        event is Resolved ==> (awaits(phase, event) <==> phase == Phase::Resolving),
        event is Connected ==> (awaits(phase, event) <==> phase == Phase::Connecting),
        event is Bound ==> (awaits(phase, event) <==> phase == Phase::Binding),
        event is Accepted ==> (awaits(phase, event) <==> phase == Phase::Accepting),
        event is Verified ==> (awaits(phase, event) <==> phase == Phase::Verifying),
        event is HelloSent ==> (awaits(phase, event) <==> phase == Phase::SendingHello),
        event is Read ==> (awaits(phase, event) <==> phase == Phase::AwaitingReverseHello || phase
            == Phase::AwaitingAcknowledge),
{
}

/// The handshake takes no terms of its own: whatever the server acknowledges is what it finishes
/// with, in each of the five fields.
pub proof fn law_handshake_finishes_on_the_terms_of_the_server(
    before: HandshakeView,
    ack: AcknowledgeMessage,
    after: HandshakeView,
    action: ConnectAction,
)
    requires
        before.phase == Phase::AwaitingAcknowledge,
        (after, action@) == handshake_step(
            before,
            ConnectEvent::Read(Some(Ok(Message::Acknowledge(ack)))),
        ),
    ensures
        after.phase == Phase::Finished,
        action matches ConnectAction::Finish(terms) && {
            &&& terms.protocol_version == ack.protocol_version
            &&& terms.receive_buffer_size == ack.receive_buffer_size
            &&& terms.send_buffer_size == ack.send_buffer_size
            &&& terms.max_message_size == ack.max_message_size
            &&& terms.max_chunk_count == ack.max_chunk_count
        },
{
}

/// A handshake finishes in no other way than on an acknowledge of the server.
pub proof fn law_only_an_acknowledge_finishes(
    before: HandshakeView,
    event: ConnectEvent,
    after: HandshakeView,
    action: ConnectAction,
)
    requires
        awaits(before.phase, event),
        (after, action@) == handshake_step(before, event),
        action is Finish || after.phase == Phase::Finished,
    ensures
        before.phase == Phase::AwaitingAcknowledge,
        event matches ConnectEvent::Read(Some(Ok(Message::Acknowledge(_)))),
{
}

/// A step that fails ends the handshake with the status that stands for the step, and one that
/// succeeds is followed by the next.
pub proof fn law_handshake_goes_step_by_step(
    before: HandshakeView,
    event: ConnectEvent,
    after: HandshakeView,
    action: ConnectAction,
)
    requires
        awaits(before.phase, event),
        (after, action@) == handshake_step(before, event),
    ensures
        event matches ConnectEvent::Resolved(found) ==> if found {
            after.phase == Phase::Connecting && action is Connect
        } else {
            after.phase == Phase::Failed && (action matches ConnectAction::Fail(status)
                && status.0 == BAD_TCP_ENDPOINT_URL_INVALID)
        },
        event matches ConnectEvent::Connected(succeeded) ==> if succeeded {
            after.phase == Phase::SendingHello && action is SendHello
        } else {
            after.phase == Phase::Failed && (action matches ConnectAction::Fail(status)
                && status.0 == BAD_COMMUNICATION_ERROR)
        },
        event matches ConnectEvent::Bound(succeeded) ==> if succeeded {
            after.phase == Phase::Accepting && action is Accept
        } else {
            after.phase == Phase::Failed && (action matches ConnectAction::Fail(status)
                && status.0 == BAD_COMMUNICATION_ERROR)
        },
        event matches ConnectEvent::Accepted(succeeded) ==> if succeeded {
            after.phase == Phase::AwaitingReverseHello && action is Read
        } else {
            after.phase == Phase::Failed && (action matches ConnectAction::Fail(status)
                && status.0 == BAD_COMMUNICATION_ERROR)
        },
        event matches ConnectEvent::HelloSent(succeeded) ==> if succeeded {
            after.phase == Phase::AwaitingAcknowledge && action is Read
        } else {
            after.phase == Phase::Failed && (action matches ConnectAction::Fail(status)
                && status.0 == BAD_COMMUNICATION_ERROR)
        },
        event matches ConnectEvent::Verified(Ok(_)) ==> after.phase == Phase::SendingHello
            && action is SendHello,
        event matches ConnectEvent::Verified(Err(verdict)) ==> after.phase == Phase::Failed && (
        action matches ConnectAction::Fail(status) && status == verdict),
{
}

/// Whatever is read where an acknowledge or a reverse hello is due, and is not that, ends the
/// handshake as a closed connection: the end of the stream, a failure to read and any other
/// message.
pub proof fn law_handshake_takes_no_other_message(
    before: HandshakeView,
    read: Option<Result<Message, ()>>,
    after: HandshakeView,
    action: ConnectAction,
)
    requires
        awaits(before.phase, ConnectEvent::Read(read)),
        (after, action@) == handshake_step(before, ConnectEvent::Read(read)),
        before.phase == Phase::AwaitingAcknowledge ==> !(read matches Some(
            Ok(Message::Acknowledge(_)),
        )),
        before.phase == Phase::AwaitingReverseHello ==> !(read matches Some(
            Ok(Message::ReverseHello(_)),
        )),
    ensures
        after.phase == Phase::Failed,
        action matches ConnectAction::Fail(status) && status.0 == BAD_CONNECTION_CLOSED,
{
}

/// What a server names in its reverse hello is what is verified, and the endpoint that it names
/// is the one that the hello will name and that the transport will report. A null string counts
/// as empty, and is reported as such.
pub proof fn law_reverse_hello_is_verified_as_it_is(
    before: HandshakeView,
    hello: ReverseHelloMessage,
    after: HandshakeView,
    action: ConnectAction,
)
    requires
        before.phase == Phase::AwaitingReverseHello,
        (after, action@) == handshake_step(
            before,
            ConnectEvent::Read(Some(Ok(Message::ReverseHello(hello)))),
        ),
    ensures
        after.phase == Phase::Verifying,
        after.config == before.config,
        action matches ConnectAction::Verify { endpoint_url, server_uri } && {
            &&& endpoint_url@ == after.endpoint_url
            &&& hello.server_uri matches Some(uri) ==> server_uri@ == uri@
            &&& hello.server_uri is None ==> server_uri@.len() == 0
        },
        hello.endpoint_url matches Some(url) ==> after.endpoint_url == url@ && after.connected_url
            == url@,
        hello.endpoint_url is None ==> after.endpoint_url.len() == 0 && after.connected_url
            == "[null]"@,
{
}

/// Nothing but a reverse hello changes what a handshake is about: its limits and its URLs stay.
pub proof fn law_handshake_keeps_its_subject(
    before: HandshakeView,
    event: ConnectEvent,
    after: HandshakeView,
    action: ConnectAction,
)
    requires
        awaits(before.phase, event),
        (after, action@) == handshake_step(before, event),
    ensures
        after.config == before.config,
        !(event is Read) || before.phase == Phase::AwaitingAcknowledge ==> after.endpoint_url
            == before.endpoint_url && after.connected_url == before.connected_url,
{
}

/// The hello of a handshake holds, each in its place, the limits of the client and the endpoint
/// URL.
pub proof fn law_hello_tells_the_limits_of_the_client(
    before: HandshakeView,
    event: ConnectEvent,
    after: HandshakeView,
    action: ConnectAction,
)
    requires
        awaits(before.phase, event),
        (after, action@) == handshake_step(before, event),
        action is SendHello,
    ensures
        action matches ConnectAction::SendHello(bytes) && {
            let url = encode_utf8(before.endpoint_url);
            &&& bytes@.len() == 32 + url.len()
            &&& bytes@.take(4) == seq![0x48u8, 0x45, 0x4C, 0x46]
            &&& le_u32(bytes@, 4) == bytes@.len() % 0x1_0000_0000
            &&& le_u32(bytes@, 8) == 0
            &&& le_u32(bytes@, 12) == before.config.recv_buffer_size as int % 0x1_0000_0000
            &&& le_u32(bytes@, 16) == before.config.send_buffer_size as int % 0x1_0000_0000
            &&& le_u32(bytes@, 20) == before.config.max_message_size as int % 0x1_0000_0000
            &&& le_u32(bytes@, 24) == before.config.max_chunk_count as int % 0x1_0000_0000
            &&& le_u32(bytes@, 28) == url.len() % 0x1_0000_0000
            &&& bytes@.skip(32) == url
        },
{
    law_hello_holds_what_it_says(
        encode_utf8(before.endpoint_url),
        before.config.send_buffer_size as int,
        before.config.recv_buffer_size as int,
        before.config.max_message_size as int,
        before.config.max_chunk_count as int,
    );
}

/// The verdict of a verifier decides: it was asked about exactly the URL and the URI that were
/// named, a server that it accepts is told hello, and one that it rejects is turned away with the
/// status of the verdict.
pub proof fn law_verdict_decides<V: ReverseHelloVerifier>(
    verifier: V,
    endpoint_url: Seq<char>,
    server_uri: Seq<char>,
    before: HandshakeView,
    after: HandshakeView,
    action: ConnectAction,
) -> (verdict: Result<(), StatusCode>)
    requires
        verified_step(verifier, endpoint_url, server_uri, before, (after, action@)),
    ensures
        exists|url: &str, uri: &str| #[trigger]
            call_ensures(V::verify, (&verifier, url, uri), verdict) && url@ == endpoint_url && uri@
                == server_uri,
        verdict is Ok ==> after.phase == Phase::SendingHello && action is SendHello,
        verdict matches Err(status) ==> after.phase == Phase::Failed && (
        action matches ConnectAction::Fail(s) && s == status),
        after.config == before.config,
        after.endpoint_url == before.endpoint_url,
        after.connected_url == before.connected_url,
{
    let (url, uri, verdict) = choose|url: &str, uri: &str, verdict: Result<(), StatusCode>|
        {
            &&& #[trigger] call_ensures(V::verify, (&verifier, url, uri), verdict)
            &&& url@ == endpoint_url
            &&& uri@ == server_uri
            &&& (after, action@) == handshake_step(before, ConnectEvent::Verified(verdict))
        };
    verdict
}

/// An acknowledge, read where it is due, finishes the handshake with that acknowledge, field by
/// field.
pub proof fn law_next_finishes_with_the_acknowledge()
    ensures
        forall|handshake: &mut Handshake, ack: AcknowledgeMessage, action: ConnectAction| #[trigger]
            call_ensures(
                Handshake::next,
                (handshake, ConnectEvent::Read(Some(Ok(Message::Acknowledge(ack))))),
                action,
            ) && handshake@.phase == Phase::AwaitingAcknowledge ==> {
                &&& final(handshake)@.phase == Phase::Finished
                &&& final(handshake)@.connected_url == handshake@.connected_url
                &&& action matches ConnectAction::Finish(terms)
                &&& terms.protocol_version == ack.protocol_version
                &&& terms.receive_buffer_size == ack.receive_buffer_size
                &&& terms.send_buffer_size == ack.send_buffer_size
                &&& terms.max_message_size == ack.max_message_size
                &&& terms.max_chunk_count == ack.max_chunk_count
            },
{
}

/// An address that does not resolve is an invalid URL, and one that does is connected to.
pub proof fn law_next_connects_to_what_was_found()
    ensures
        forall|handshake: &mut Handshake, found: bool, action: ConnectAction| #[trigger]
            call_ensures(Handshake::next, (handshake, ConnectEvent::Resolved(found)), action) ==> {
                &&& found ==> final(handshake)@.phase == Phase::Connecting && action is Connect
                &&& !found ==> final(handshake)@.phase == Phase::Failed && (
                action matches ConnectAction::Fail(status) && status.0
                    == BAD_TCP_ENDPOINT_URL_INVALID)
            },
{
}

/// A connection that is there is said hello to, and one that is not is a failed communication.
pub proof fn law_next_says_hello_on_a_connection()
    ensures
        forall|handshake: &mut Handshake, succeeded: bool, action: ConnectAction| #[trigger]
            call_ensures(Handshake::next, (handshake, ConnectEvent::Connected(succeeded)), action)
                ==> {
                &&& succeeded ==> final(handshake)@.phase == Phase::SendingHello && (
                action matches ConnectAction::SendHello(bytes) && bytes@ == handshake@.hello())
                &&& !succeeded ==> final(handshake)@.phase == Phase::Failed && (
                action matches ConnectAction::Fail(status) && status.0 == BAD_COMMUNICATION_ERROR)
            },
{
}

/// A server that connects is listened to, on an address that is bound first if need be. Where
/// either fails, communication failed.
pub proof fn law_next_accepts_and_listens()
    ensures
        forall|handshake: &mut Handshake, succeeded: bool, action: ConnectAction| #[trigger]
            call_ensures(Handshake::next, (handshake, ConnectEvent::Bound(succeeded)), action)
                ==> {
                &&& succeeded ==> final(handshake)@.phase == Phase::Accepting && action is Accept
                &&& !succeeded ==> final(handshake)@.phase == Phase::Failed && (
                action matches ConnectAction::Fail(status) && status.0 == BAD_COMMUNICATION_ERROR)
            },
        forall|handshake: &mut Handshake, succeeded: bool, action: ConnectAction| #[trigger]
            call_ensures(Handshake::next, (handshake, ConnectEvent::Accepted(succeeded)), action)
                ==> {
                &&& succeeded ==> final(handshake)@.phase == Phase::AwaitingReverseHello
                    && action is Read
                &&& !succeeded ==> final(handshake)@.phase == Phase::Failed && (
                action matches ConnectAction::Fail(status) && status.0 == BAD_COMMUNICATION_ERROR)
            },
{
}

/// Once the hello is sent, its acknowledge is read. If it cannot be sent, communication failed.
pub proof fn law_next_reads_the_answer_to_the_hello()
    ensures
        forall|handshake: &mut Handshake, succeeded: bool, action: ConnectAction| #[trigger]
            call_ensures(Handshake::next, (handshake, ConnectEvent::HelloSent(succeeded)), action)
                ==> {
                &&& succeeded ==> final(handshake)@.phase == Phase::AwaitingAcknowledge
                    && action is Read
                &&& !succeeded ==> final(handshake)@.phase == Phase::Failed && (
                action matches ConnectAction::Fail(status) && status.0 == BAD_COMMUNICATION_ERROR)
            },
{
}

/// A server that was rejected is turned away with the status of the rejection.
pub proof fn law_next_turns_rejected_servers_away()
    ensures
        forall|handshake: &mut Handshake, verdict: StatusCode, action: ConnectAction| #[trigger]
            call_ensures(
                Handshake::next,
                (handshake, ConnectEvent::Verified(Err(verdict))),
                action,
            ) ==> final(handshake)@.phase == Phase::Failed && (
            action matches ConnectAction::Fail(status) && status == verdict),
{
}

/// A handshake with an endpoint starts with the address that its URL names, and names the URL of
/// the connector in its hello and in its report. A URL without a host ends it at once.
pub proof fn law_handshake_starts_with_the_url(
    config: TransportConfiguration,
    connector: TcpConnector,
    res: (Handshake, ConnectAction),
)
    requires
        call_ensures(Handshake::start, (config, &connector), res),
    ensures
        res.0@.config == config,
        res.0@.endpoint_url == connector@,
        res.0@.connected_url == connector@,
        host_and_port(connector@, 4840) is Some <==> res.0@.phase == Phase::Resolving,
        host_and_port(connector@, 4840) matches Some((host, port)) ==> (
        res.1 matches ConnectAction::Resolve(address) && address@.take(host.len() as int) == host
            && address@[host.len() as int] == ':' && read_decimal(
            address@.skip((host.len() + 1) as int),
        ) == port),
        host_and_port(connector@, 4840) is None ==> res.0@.phase == Phase::Failed && (
        res.1 matches ConnectAction::Fail(status) && status.0 == BAD_TCP_ENDPOINT_URL_INVALID),
{
    if let Some((host, port)) = host_and_port(connector@, 4840) {
        law_address_names_host_and_port(host, port);
    }
}

/// A handshake with an address that is known starts with that address, and one without ends at
/// once with the reason.
pub proof fn law_handshake_starts_with_the_address(
    config: TransportConfiguration,
    connector: TcpConnector,
    address: Result<String, StatusCode>,
    res: (Handshake, ConnectAction),
)
    requires
        call_ensures(Handshake::start_at, (config, &connector, address), res),
    ensures
        res.0@.config == config,
        res.0@.endpoint_url == connector@,
        res.0@.connected_url == connector@,
        address matches Ok(a) ==> res.0@.phase == Phase::Resolving && (
        res.1 matches ConnectAction::Resolve(b) && b@ == a@),
        address matches Err(s) ==> res.0@.phase == Phase::Failed && (
        res.1 matches ConnectAction::Fail(t) && t == s),
{
}

/// A reverse handshake accepts a connection where there is a listener, and binds the address first
/// where there is none. It knows of no endpoint yet.
pub proof fn law_reverse_handshake_starts_with_the_listener<L, A, V>(
    config: TransportConfiguration,
    connector: ReverseTcpConnector<L, A, V>,
    res: (Handshake, ConnectAction),
)
    requires
        call_ensures(Handshake::start_reverse::<L, A, V>, (config, &connector), res),
    ensures
        res.0@.config == config,
        res.0@.endpoint_url.len() == 0,
        res.0@.connected_url.len() == 0,
        connector@.listener is Listener ==> res.0@.phase == Phase::Accepting && res.1 is Accept,
        connector@.listener is Address ==> res.0@.phase == Phase::Binding && res.1 is Bind,
{
}

/// The verifier of a connector that is made by default expects the URL of the target endpoint, and
/// its verdict on a URL is that it is that URL, but for slashes at the ends, or that it is invalid.
pub proof fn law_default_verifier_expects_the_target<L, A>(
    target: EndpointDescription,
    listener: TcpConnectorReceiver<L, A>,
    connector: ReverseTcpConnector<L, A, EndpointUrlVerifier>,
    named: &str,
    uri: &str,
    verdict: Result<(), StatusCode>,
) -> (res: (Seq<char>, nat, nat))
    requires
        call_ensures(
            ReverseTcpConnector::<L, A, EndpointUrlVerifier>::new_default,
            (target, listener),
            connector,
        ),
        call_ensures(
            <EndpointUrlVerifier as ReverseHelloVerifier>::verify,
            (&connector@.verifier, named, uri),
            verdict,
        ),
    ensures
        connector@.target_endpoint == target,
        connector@.listener == listener,
        verdict is Ok ==> {
            let (s, m, n) = res;
            url_of(target) == s + slashes(m) && named@ == s + slashes(n)
        },
        named@ == url_of(target) ==> verdict is Ok,
        verdict matches Err(status) ==> status.0 == BAD_TCP_ENDPOINT_URL_INVALID,
{
    law_accepted_url_is_the_expected_one(url_of(target), named@)
}

/// A connector holds what it was made of, and says so.
pub proof fn law_connectors_hold_what_they_are_made_of<L, A, V>(
    listener: TcpConnectorReceiver<L, A>,
    bound: L,
    address: A,
    verifier: V,
    target: EndpointDescription,
    made: ReverseTcpConnector<L, A, V>,
    listening: ReverseTcpConnector<L, A, V>,
    binding: ReverseTcpConnector<L, A, V>,
    endpoint: EndpointDescription,
    direct: TcpConnector,
    default_endpoint: EndpointDescription,
    url: &str,
)
    requires
        call_ensures(ReverseTcpConnector::<L, A, V>::new, (listener, verifier, target), made),
        call_ensures(
            ReverseTcpConnector::<L, A, V>::new_listener,
            (bound, verifier, target),
            listening,
        ),
        call_ensures(
            ReverseTcpConnector::<L, A, V>::new_address,
            (address, verifier, target),
            binding,
        ),
        call_ensures(ReverseTcpConnector::<L, A, V>::default_endpoint, (&made,), endpoint),
        call_ensures(TcpConnector::default_endpoint, (&direct,), default_endpoint),
        call_ensures(TcpConnector::endpoint_url, (&direct,), url),
    ensures
        made@.listener == listener,
        made@.verifier == verifier,
        made@.target_endpoint == target,
        listening@.listener matches TcpConnectorReceiver::Listener(l) && *l == bound,
        listening@.verifier == verifier,
        listening@.target_endpoint == target,
        binding@.listener matches TcpConnectorReceiver::Address(a) && a == address,
        binding@.verifier == verifier,
        binding@.target_endpoint == target,
        endpoint == target,
        url_of(default_endpoint) == direct@,
        default_endpoint == unsecured_endpoint(direct@),
        url@ == direct@,
{
}

/// A connector for a URL is made exactly if the stack takes it for an `opc.tcp` URL.
pub proof fn law_connectors_are_made_for_binary_urls(
    url: &str,
    res: Result<TcpConnector, ConnectorError>,
    is_binary: bool,
    checked: Result<TcpConnector, ConnectorError>,
)
    requires
        call_ensures(TcpConnector::new, (url,), res),
        call_ensures(TcpConnector::new_checked, (url, is_binary), checked),
    ensures
        res is Ok <==> binary_url(url@),
        res matches Ok(connector) ==> connector@ == url@,
        res matches Err(e) ==> e.status.0 == BAD_INVALID_ARGUMENT && e.context@
            == "Invalid OPC-UA URL: "@ + url@,
        checked is Ok <==> is_binary,
        checked matches Ok(connector) ==> connector@ == url@,
        checked matches Err(e) ==> e.status.0 == BAD_INVALID_ARGUMENT && e.context@
            == "Invalid OPC-UA URL: "@ + url@,
{
}

/// What is asked of a handshake is answered as it is.
pub proof fn law_answers_of_handshakes_are_right(
    handshake: Handshake,
    url: String,
    event: ConnectEvent,
    waits: bool,
)
    requires
        call_ensures(Handshake::connected_url, (&handshake,), url),
        call_ensures(Handshake::awaits, (&handshake, &event), waits),
    ensures
        url@ == handshake@.connected_url,
        waits <==> {
            ||| event is Resolved && handshake@.phase == Phase::Resolving
            ||| event is Connected && handshake@.phase == Phase::Connecting
            ||| event is Bound && handshake@.phase == Phase::Binding
            ||| event is Accepted && handshake@.phase == Phase::Accepting
            ||| event is Verified && handshake@.phase == Phase::Verifying
            ||| event is HelloSent && handshake@.phase == Phase::SendingHello
            ||| event is Read && handshake@.phase == Phase::AwaitingReverseHello
            ||| event is Read && handshake@.phase == Phase::AwaitingAcknowledge
        },
{
}

/// A reverse connector goes on as any handshake does, except that a server that has named its
/// endpoint is verified at once: the verifier is asked about exactly the URL and the URI that the
/// server named, one that it accepts is told hello under that URL, and one that it rejects is
/// turned away with the status of the verdict.
pub proof fn law_reverse_connector_verifies_what_the_server_names<L, A, V: ReverseHelloVerifier>()
    ensures
        forall|
            connector: ReverseTcpConnector<L, A, V>,
            handshake: &mut Handshake,
            hello: ReverseHelloMessage,
            action: ConnectAction,
        | #[trigger]
            call_ensures(
                ReverseTcpConnector::<L, A, V>::next,
                (&connector, handshake, ConnectEvent::Read(Some(Ok(Message::ReverseHello(hello))))),
                action,
            ) && handshake@.phase == Phase::AwaitingReverseHello ==> exists|
                url: &str,
                uri: &str,
                verdict: Result<(), StatusCode>,
            |
                {
                    &&& #[trigger] call_ensures(
                        V::verify,
                        (&connector@.verifier, url, uri),
                        verdict,
                    )
                    &&& hello.endpoint_url matches Some(u) ==> url@ == u@
                    &&& hello.endpoint_url is None ==> url@.len() == 0
                    &&& hello.server_uri matches Some(u) ==> uri@ == u@
                    &&& hello.server_uri is None ==> uri@.len() == 0
                    &&& verdict is Ok ==> final(handshake)@.phase == Phase::SendingHello
                        && action is SendHello && final(handshake)@.endpoint_url == url@
                    &&& verdict matches Err(status) ==> final(handshake)@.phase == Phase::Failed && (
                    action matches ConnectAction::Fail(s) && s == status)
                },
{
}

/// Every step of a handshake is the one that its laws speak of, and so is every step of a reverse
/// connector, but for the one on a reverse hello.
pub proof fn law_handshakes_take_their_steps<L, A, V: ReverseHelloVerifier>()
    ensures
        forall|handshake: &mut Handshake, event: ConnectEvent, action: ConnectAction| #[trigger]
            call_ensures(Handshake::next, (handshake, event), action) ==> (
            final(handshake)@,
            action@,
        ) == handshake_step(handshake@, event),
        forall|
            connector: ReverseTcpConnector<L, A, V>,
            handshake: &mut Handshake,
            event: ConnectEvent,
            action: ConnectAction,
        | #[trigger]
            call_ensures(
                ReverseTcpConnector::<L, A, V>::next,
                (&connector, handshake, event),
                action,
            ) && !(event is Read && handshake@.phase == Phase::AwaitingReverseHello) ==> (
            final(handshake)@,
            action@,
        ) == handshake_step(handshake@, event),
{
}

} // verus!
