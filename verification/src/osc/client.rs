//! The single-socket client, one step at a time.
//!
//! A client owns one UDP socket, bound to a port that the operating system
//! picked, and talks to one fixed peer. This module holds every decision of
//! that client and none of its waiting: an [`Exchange`] is one operation in
//! progress, and [`Exchange::step`] says, for each thing that can happen on
//! the socket or in the wire codec, what is to be done next. A driver performs
//! the [`Action`]s and reports back with [`Event`]s.

use crate::error::{Error, ResponseFault};
use crate::osc::response::{is_fault, raw_args, FromOsc};
use crate::osc::value::{
    packets_view, values_view, MessageView, OscMessage, OscPacket, OscValue, PacketView,
};
use vstd::pervasive::unreached;
use vstd::prelude::*;
use vstd::string::StringExecFns;

verus! {

/// The port on which the peer listens.
pub const ABLETON_OSC_PORT: u16 = 11000;

/// How long a reply is waited for, in milliseconds.
pub const DEFAULT_TIMEOUT_MS: u64 = 500;

/// How long one attempt to drain a stale datagram waits, in milliseconds.
pub const FLUSH_TIMEOUT_MS: u64 = 1;

/// The size of the buffer that a reply is received into.
pub const RESPONSE_CAPACITY: usize = 65536;

/// The size of the buffer that a stale datagram is drained into.
pub const FLUSH_CAPACITY: usize = 1024;

/// An IPv4 host and a port.
#[derive(Clone, Copy, Debug, PartialEq, Eq)]
pub struct Endpoint {
    pub host: [u8; 4],
    pub port: u16,
}

impl Endpoint {
    /// The address to bind the client's socket to: the loopback host, and
    /// port 0, which lets the operating system pick a free port.
    pub fn ephemeral() -> (endpoint: Endpoint)
        ensures
            endpoint.port == 0,
            endpoint.host@ == seq![127u8, 0u8, 0u8, 1u8],
    {
        Endpoint { host: [127, 0, 0, 1], port: 0 }
    }

    /// The peer's fixed address: the loopback host and the peer's port.
    pub open spec fn peer_spec() -> Endpoint {
        Endpoint { host: [127u8, 0u8, 0u8, 1u8], port: ABLETON_OSC_PORT }
    }

    /// The peer's fixed address: the loopback host and the peer's port.
    pub fn peer() -> (endpoint: Endpoint)
        ensures
            endpoint == Endpoint::peer_spec(),
    {
        Endpoint { host: [127, 0, 0, 1], port: ABLETON_OSC_PORT }
    }
}

/// The state of a client: the port its socket is bound to, the peer it sends
/// to, and how long it waits for a reply.
#[derive(Clone, Copy, Debug, PartialEq, Eq)]
pub struct OscClient {
    pub local_port: u16,
    pub remote: Endpoint,
    pub response_timeout_ms: u64,
}

/// What a client was asked to do.
#[derive(Clone, Copy, Debug, PartialEq, Eq)]
pub enum Operation {
    /// Send a message and expect nothing back.
    Send,
    /// Send a message and wait for one reply.
    Query,
    /// Send a message and collect replies until the peer falls silent.
    QueryAll,
}

/// Where an exchange stands.
#[derive(Clone, Copy, Debug, PartialEq, Eq)]
pub enum Phase {
    /// Draining datagrams that arrived before the query was sent.
    Flushing,
    /// The message is with the wire codec.
    Encoding,
    /// The datagram is with the socket.
    Sending,
    /// Waiting for a reply datagram.
    Awaiting,
    /// A reply datagram is with the wire codec.
    Decoding,
    /// The exchange is over.
    Finished,
}

/// What happened since the last action.
#[derive(Debug)]
pub enum Event {
    /// A datagram arrived within the time allowed.
    Datagram(Vec<u8>),
    /// No datagram arrived within the time allowed.
    Silence,
    /// Receiving failed.
    ReceiveFailed(std::io::Error),
    /// The codec encoded the message.
    Encoded(Vec<u8>),
    /// The codec refused the message.
    EncodeFailed(rosc::OscError),
    /// The datagram was handed to the network.
    Transmitted,
    /// Sending failed.
    TransmitFailed(std::io::Error),
    /// The codec decoded the datagram.
    Decoded(OscPacket),
    /// The codec refused the datagram.
    DecodeFailed(rosc::OscError),
}

/// How an exchange ended.
#[derive(Debug)]
pub enum Outcome {
    /// The message was sent.
    Sent,
    /// The reply to a query.
    Reply(OscPacket),
    /// The replies to a collecting query, in the order of their arrival.
    Replies(Vec<OscPacket>),
    /// The exchange failed.
    Failed(Error),
}

/// What the driver is to do next.
#[derive(Debug)]
pub enum Action {
    /// Wait up to `timeout_ms` milliseconds for one datagram, in a buffer of
    /// `capacity` bytes.
    Receive { timeout_ms: u64, capacity: usize },
    /// Encode the message with the wire codec.
    Encode(OscMessage),
    /// Send the datagram to the endpoint.
    Transmit { datagram: Vec<u8>, to: Endpoint },
    /// Decode the datagram with the wire codec.
    Decode(Vec<u8>),
    /// Nothing more: the exchange has ended.
    Finish(Outcome),
}

/// The mathematical value of an [`Event`].
pub enum EventView {
    Datagram(Seq<u8>),
    Silence,
    ReceiveFailed(std::io::Error),
    Encoded(Seq<u8>),
    EncodeFailed(rosc::OscError),
    Transmitted,
    TransmitFailed(std::io::Error),
    Decoded(PacketView),
    DecodeFailed(rosc::OscError),
}

/// The mathematical value of an [`Outcome`].
pub enum OutcomeView {
    Sent,
    Reply(PacketView),
    Replies(Seq<PacketView>),
    Failed(Error),
}

/// The mathematical value of an [`Action`].
pub enum ActionView {
    Receive { timeout_ms: u64, capacity: usize },
    Encode(MessageView),
    Transmit { datagram: Seq<u8>, to: Endpoint },
    Decode(Seq<u8>),
    Finish(OutcomeView),
}

/// The mathematical value of an [`Exchange`].
pub struct ExchangeView {
    pub operation: Operation,
    pub phase: Phase,
    pub client: OscClient,
    /// The message that waits for the flush to end.
    pub message: Option<MessageView>,
    /// The replies collected so far.
    pub collected: Seq<PacketView>,
}

impl View for Event {
    type V = EventView;

    open spec fn view(&self) -> EventView {
        match self {
            Event::Datagram(bytes) => EventView::Datagram(bytes@),
            Event::Silence => EventView::Silence,
            Event::ReceiveFailed(e) => EventView::ReceiveFailed(*e),
            Event::Encoded(bytes) => EventView::Encoded(bytes@),
            Event::EncodeFailed(e) => EventView::EncodeFailed(*e),
            Event::Transmitted => EventView::Transmitted,
            Event::TransmitFailed(e) => EventView::TransmitFailed(*e),
            Event::Decoded(packet) => EventView::Decoded(packet@),
            Event::DecodeFailed(e) => EventView::DecodeFailed(*e),
        }
    }
}

impl View for Outcome {
    type V = OutcomeView;

    open spec fn view(&self) -> OutcomeView {
        match self {
            Outcome::Sent => OutcomeView::Sent,
            Outcome::Reply(packet) => OutcomeView::Reply(packet@),
            Outcome::Replies(packets) => OutcomeView::Replies(packets_view(packets@)),
            Outcome::Failed(e) => OutcomeView::Failed(*e),
        }
    }
}

impl View for Action {
    type V = ActionView;

    open spec fn view(&self) -> ActionView {
        match self {
            Action::Receive { timeout_ms, capacity } => ActionView::Receive {
                timeout_ms: *timeout_ms,
                capacity: *capacity,
            },
            Action::Encode(message) => ActionView::Encode(message@),
            Action::Transmit { datagram, to } => ActionView::Transmit {
                datagram: datagram@,
                to: *to,
            },
            Action::Decode(bytes) => ActionView::Decode(bytes@),
            Action::Finish(outcome) => ActionView::Finish(outcome@),
        }
    }
}

/// The wait for one stale datagram.
pub open spec fn flush_receive() -> ActionView {
    ActionView::Receive { timeout_ms: FLUSH_TIMEOUT_MS, capacity: FLUSH_CAPACITY }
}

/// The wait for one reply.
pub open spec fn reply_receive(client: OscClient) -> ActionView {
    ActionView::Receive { timeout_ms: client.response_timeout_ms, capacity: RESPONSE_CAPACITY }
}

/// Whether an event answers the action that a phase is waiting on.
pub open spec fn accepts(phase: Phase, event: EventView) -> bool {
    match phase {
        Phase::Flushing | Phase::Awaiting => event is Datagram || event is Silence
            || event is ReceiveFailed,
        Phase::Encoding => event is Encoded || event is EncodeFailed,
        Phase::Sending => event is Transmitted || event is TransmitFailed,
        Phase::Decoding => event is Decoded || event is DecodeFailed,
        Phase::Finished => false,
    }
}

impl ExchangeView {
    /// What holds of every exchange: a message waits exactly while the flush
    /// lasts, a plain send neither flushes nor waits for replies, and only a
    /// collecting query collects.
    pub open spec fn wf(self) -> bool {
        &&& self.phase is Flushing <==> self.message is Some
        &&& self.operation is Send ==> self.phase is Encoding || self.phase is Sending
            || self.phase is Finished
        &&& !(self.operation is QueryAll) ==> self.collected.len() == 0
        &&& self.phase is Finished ==> self.collected.len() == 0
    }

    /// The exchange in another phase.
    pub open spec fn at(self, phase: Phase) -> ExchangeView {
        ExchangeView { phase, message: None, ..self }
    }

    /// The end of the exchange with the given outcome.
    pub open spec fn finish(self, outcome: OutcomeView) -> (ExchangeView, ActionView) {
        (
            ExchangeView { phase: Phase::Finished, message: None, collected: Seq::empty(), ..self },
            ActionView::Finish(outcome),
        )
    }

    /// The exchange after an event, and the action that follows. It is
    /// defined for the events that the phase accepts.
    pub open spec fn step(self, event: EventView) -> (ExchangeView, ActionView)
        recommends
            self.wf(),
            accepts(self.phase, event),
    {
        match self.phase {
            // Whatever arrives before the query is sent is stale and dropped;
            // the flush ends with the first wait that stays empty.
            Phase::Flushing => match event {
                EventView::Silence => (
                    self.at(Phase::Encoding),
                    ActionView::Encode(self.message.unwrap()),
                ),
                _ => (self, flush_receive()),
            },
            Phase::Encoding => match event {
                EventView::Encoded(datagram) => (
                    self.at(Phase::Sending),
                    ActionView::Transmit { datagram, to: self.client.remote },
                ),
                EventView::EncodeFailed(e) => self.finish(OutcomeView::Failed(Error::OscEncode(e))),
                _ => arbitrary(),
            },
            Phase::Sending => match event {
                EventView::Transmitted => if self.operation is Send {
                    self.finish(OutcomeView::Sent)
                } else {
                    (self.at(Phase::Awaiting), reply_receive(self.client))
                },
                EventView::TransmitFailed(e) => self.finish(
                    OutcomeView::Failed(Error::Network(e)),
                ),
                _ => arbitrary(),
            },
            Phase::Awaiting => match event {
                EventView::Datagram(datagram) => (
                    self.at(Phase::Decoding),
                    ActionView::Decode(datagram),
                ),
                EventView::Silence => if self.operation is QueryAll {
                    self.finish(OutcomeView::Replies(self.collected))
                } else {
                    self.finish(OutcomeView::Failed(Error::Timeout))
                },
                // Only silence ends a collection well: a failed receive is
                // reported, whatever has been collected.
                EventView::ReceiveFailed(e) => self.finish(OutcomeView::Failed(Error::Network(e))),
                _ => arbitrary(),
            },
            Phase::Decoding => match event {
                EventView::Decoded(packet) => if self.operation is QueryAll {
                    (
                        ExchangeView {
                            phase: Phase::Awaiting,
                            collected: self.collected.push(packet),
                            ..self
                        },
                        reply_receive(self.client),
                    )
                } else {
                    self.finish(OutcomeView::Reply(packet))
                },
                // A collection keeps what decodes and goes on; to a query for
                // one reply, a datagram that is not OSC is an invalid response.
                EventView::DecodeFailed(e) => if self.operation is QueryAll {
                    (self.at(Phase::Awaiting), reply_receive(self.client))
                } else {
                    self.finish(
                        OutcomeView::Failed(Error::InvalidResponse(ResponseFault::Undecodable(e))),
                    )
                },
                _ => arbitrary(),
            },
            Phase::Finished => arbitrary(),
        }
    }
}

/// One operation of a client, in progress.
#[derive(Debug)]
pub struct Exchange {
    operation: Operation,
    phase: Phase,
    client: OscClient,
    message: Option<OscMessage>,
    collected: Vec<OscPacket>,
}

impl View for Exchange {
    type V = ExchangeView;

    closed spec fn view(&self) -> ExchangeView {
        ExchangeView {
            operation: self.operation,
            phase: self.phase,
            client: self.client,
            message: match self.message {
                Some(m) => Some(m@),
                None => None,
            },
            collected: packets_view(self.collected@),
        }
    }
}

impl Exchange {
    #[verifier::type_invariant]
    spec fn well_formed(self) -> bool {
        self@.wf()
    }

    /// What the client was asked to do.
    pub fn operation(&self) -> (operation: Operation)
        ensures
            operation == self@.operation,
    {
        self.operation
    }

    /// Where the exchange stands.
    pub fn phase(&self) -> (phase: Phase)
        ensures
            phase == self@.phase,
    {
        self.phase
    }

    /// Whether the event answers the action that the exchange is waiting on.
    pub fn accepts(&self, event: &Event) -> (r: bool)
        ensures
            r == accepts(self@.phase, event@),
    {
        match self.phase {
            Phase::Flushing | Phase::Awaiting => match event {
                Event::Datagram(_) | Event::Silence | Event::ReceiveFailed(_) => true,
                _ => false,
            },
            Phase::Encoding => match event {
                Event::Encoded(_) | Event::EncodeFailed(_) => true,
                _ => false,
            },
            Phase::Sending => match event {
                Event::Transmitted | Event::TransmitFailed(_) => true,
                _ => false,
            },
            Phase::Decoding => match event {
                Event::Decoded(_) | Event::DecodeFailed(_) => true,
                _ => false,
            },
            Phase::Finished => false,
        }
    }

    fn ended(operation: Operation, client: OscClient, outcome: Outcome) -> (next: (
        Exchange,
        Action,
    ))
        ensures
            next.0@ == (ExchangeView {
                operation,
                phase: Phase::Finished,
                client,
                message: None,
                collected: Seq::empty(),
            }),
            next.1@ == ActionView::Finish(outcome@),
    {
        let exchange = Exchange {
            operation,
            phase: Phase::Finished,
            client,
            message: None,
            collected: Vec::new(),
        };
        assert(exchange@.collected =~= Seq::empty());
        (exchange, Action::Finish(outcome))
    }

    /// Takes the exchange one step further: given what happened since the
    /// last action, the new state and the next action.
    pub fn step(self, event: Event) -> (next: (Exchange, Action))
        requires
            accepts(self@.phase, event@),
        ensures
            (next.0@, next.1@) == self@.step(event@),
            next.0@.wf(),
    {
        proof {
            use_type_invariant(&self);
        }
        let ghost before = self@;
        let operation = self.operation;
        let client = self.client;
        let timeout_ms = client.response_timeout_ms;
        match self.phase {
            Phase::Flushing => match event {
                Event::Silence => match self.message {
                    Some(message) => {
                        let exchange = Exchange {
                            operation,
                            phase: Phase::Encoding,
                            client,
                            message: None,
                            collected: self.collected,
                        };
                        (exchange, Action::Encode(message))
                    },
                    None => unreached(),
                },
                _ => (
                    self,
                    Action::Receive { timeout_ms: FLUSH_TIMEOUT_MS, capacity: FLUSH_CAPACITY },
                ),
            },
            Phase::Encoding => match event {
                Event::Encoded(datagram) => {
                    let exchange = Exchange {
                        operation,
                        phase: Phase::Sending,
                        client,
                        message: None,
                        collected: self.collected,
                    };
                    (exchange, Action::Transmit { datagram, to: client.remote })
                },
                Event::EncodeFailed(e) => Exchange::ended(
                    operation,
                    client,
                    Outcome::Failed(Error::OscEncode(e)),
                ),
                _ => unreached(),
            },
            Phase::Sending => match event {
                Event::Transmitted => match operation {
                    Operation::Send => Exchange::ended(operation, client, Outcome::Sent),
                    _ => {
                        let exchange = Exchange {
                            operation,
                            phase: Phase::Awaiting,
                            client,
                            message: None,
                            collected: self.collected,
                        };
                        (exchange, Action::Receive { timeout_ms, capacity: RESPONSE_CAPACITY })
                    },
                },
                Event::TransmitFailed(e) => Exchange::ended(
                    operation,
                    client,
                    Outcome::Failed(Error::Network(e)),
                ),
                _ => unreached(),
            },
            Phase::Awaiting => match event {
                Event::Datagram(datagram) => {
                    let exchange = Exchange {
                        operation,
                        phase: Phase::Decoding,
                        client,
                        message: None,
                        collected: self.collected,
                    };
                    (exchange, Action::Decode(datagram))
                },
                Event::Silence => match operation {
                    Operation::QueryAll => Exchange::ended(
                        operation,
                        client,
                        Outcome::Replies(self.collected),
                    ),
                    _ => Exchange::ended(operation, client, Outcome::Failed(Error::Timeout)),
                },
                Event::ReceiveFailed(e) => Exchange::ended(
                    operation,
                    client,
                    Outcome::Failed(Error::Network(e)),
                ),
                _ => unreached(),
            },
            Phase::Decoding => match event {
                Event::Decoded(packet) => match operation {
                    Operation::QueryAll => {
                        let mut collected = self.collected;
                        collected.push(packet);
                        let exchange = Exchange {
                            operation,
                            phase: Phase::Awaiting,
                            client,
                            message: None,
                            collected,
                        };
                        assert(exchange@.collected =~= before.collected.push(packet@));
                        (exchange, Action::Receive { timeout_ms, capacity: RESPONSE_CAPACITY })
                    },
                    _ => Exchange::ended(operation, client, Outcome::Reply(packet)),
                },
                Event::DecodeFailed(e) => match operation {
                    Operation::QueryAll => {
                        let exchange = Exchange {
                            operation,
                            phase: Phase::Awaiting,
                            client,
                            message: None,
                            collected: self.collected,
                        };
                        (exchange, Action::Receive { timeout_ms, capacity: RESPONSE_CAPACITY })
                    },
                    _ => Exchange::ended(
                        operation,
                        client,
                        Outcome::Failed(Error::InvalidResponse(ResponseFault::Undecodable(e))),
                    ),
                },
                _ => unreached(),
            },
            Phase::Finished => unreached(),
        }
    }
}

/// The first state and action of an operation: a plain send goes straight to
/// the codec, a query first drains what is stale.
pub open spec fn begin(client: OscClient, operation: Operation, message: MessageView) -> (
    ExchangeView,
    ActionView,
) {
    if operation is Send {
        (
            ExchangeView {
                operation,
                phase: Phase::Encoding,
                client,
                message: None,
                collected: Seq::empty(),
            },
            ActionView::Encode(message),
        )
    } else {
        (
            ExchangeView {
                operation,
                phase: Phase::Flushing,
                client,
                message: Some(message),
                collected: Seq::empty(),
            },
            flush_receive(),
        )
    }
}

/// The query that probes whether the peer answers: the song's tempo, without
/// arguments.
pub open spec fn probe_message() -> MessageView {
    MessageView { addr: "/live/song/get/tempo"@, args: Seq::empty() }
}

impl OutcomeView {
    /// Whether the outcome is one that the operation can end with.
    pub open spec fn answers(self, operation: Operation) -> bool {
        match operation {
            Operation::Send => self is Sent || self is Failed,
            Operation::Query => self is Reply || self is Failed,
            Operation::QueryAll => self is Replies || self is Failed,
        }
    }
}

impl Outcome {
    /// The result of a send.
    pub fn into_sent(self) -> (r: Result<(), Error>)
        requires
            self@.answers(Operation::Send),
        ensures
            match self {
                Outcome::Failed(e) => r == Err::<(), Error>(e),
                _ => r is Ok,
            },
    {
        match self {
            Outcome::Failed(e) => Err(e),
            _ => Ok(()),
        }
    }

    /// The result of a query, decoded into the requested type.
    pub fn into_reply<T: FromOsc>(self) -> (r: Result<T, Error>)
        requires
            self@.answers(Operation::Query),
        ensures
            match self {
                Outcome::Reply(packet) => T::reply_of(packet@, r),
                Outcome::Failed(e) => r == Err::<T, Error>(e),
                _ => false,
            },
    {
        match self {
            Outcome::Reply(packet) => T::from_osc(packet),
            Outcome::Failed(e) => Err(e),
            _ => unreached(),
        }
    }

    /// The result of a collecting query.
    pub fn into_replies(self) -> (r: Result<Vec<OscPacket>, Error>)
        requires
            self@.answers(Operation::QueryAll),
        ensures
            match self {
                Outcome::Replies(packets) => r == Ok::<Vec<OscPacket>, Error>(packets),
                Outcome::Failed(e) => r == Err::<Vec<OscPacket>, Error>(e),
                _ => false,
            },
    {
        match self {
            Outcome::Replies(packets) => Ok(packets),
            Outcome::Failed(e) => Err(e),
            _ => unreached(),
        }
    }
}

impl OscClient {
    /// The state of a client whose socket is bound to `local_port`: it sends
    /// to the peer's fixed address and waits the default time for a reply.
    pub fn new(local_port: u16) -> (client: OscClient)
        ensures
            client.local_port == local_port,
            client.remote == Endpoint::peer_spec(),
            client.response_timeout_ms == DEFAULT_TIMEOUT_MS,
    {
        OscClient { local_port, remote: Endpoint::peer(), response_timeout_ms: DEFAULT_TIMEOUT_MS }
    }

    /// The local port that the client's socket is bound to.
    pub fn local_port(&self) -> (port: u16)
        ensures
            port == self.local_port,
    {
        self.local_port
    }

    fn start(&self, operation: Operation, addr: &str, args: Vec<OscValue>) -> (first: (
        Exchange,
        Action,
    ))
        ensures
            (first.0@, first.1@) == begin(
                *self,
                operation,
                MessageView { addr: addr@, args: values_view(args@) },
            ),
            first.0@.wf(),
    {
        let message = OscMessage { addr: String::from_str(addr), args };
        match operation {
            Operation::Send => {
                let exchange = Exchange {
                    operation,
                    phase: Phase::Encoding,
                    client: *self,
                    message: None,
                    collected: Vec::new(),
                };
                assert(exchange@.collected =~= Seq::empty());
                (exchange, Action::Encode(message))
            },
            _ => {
                let exchange = Exchange {
                    operation,
                    phase: Phase::Flushing,
                    client: *self,
                    message: Some(message),
                    collected: Vec::new(),
                };
                assert(exchange@.collected =~= Seq::empty());
                (
                    exchange,
                    Action::Receive { timeout_ms: FLUSH_TIMEOUT_MS, capacity: FLUSH_CAPACITY },
                )
            },
        }
    }

    /// Begins sending one message, for which no reply is awaited.
    pub fn send(&self, addr: &str, args: Vec<OscValue>) -> (first: (Exchange, Action))
        ensures
            (first.0@, first.1@) == begin(
                *self,
                Operation::Send,
                MessageView { addr: addr@, args: values_view(args@) },
            ),
            first.0@.wf(),
    {
        self.start(Operation::Send, addr, args)
    }

    /// Begins a query for one reply. The exchange ends with
    /// [`Outcome::Reply`], to be decoded with [`Outcome::into_reply`].
    pub fn query(&self, addr: &str, args: Vec<OscValue>) -> (first: (Exchange, Action))
        ensures
            (first.0@, first.1@) == begin(
                *self,
                Operation::Query,
                MessageView { addr: addr@, args: values_view(args@) },
            ),
            first.0@.wf(),
    {
        self.start(Operation::Query, addr, args)
    }

    /// Begins a query whose replies are collected until none arrives within
    /// the response timeout.
    pub fn query_all(&self, addr: &str, args: Vec<OscValue>) -> (first: (Exchange, Action))
        ensures
            (first.0@, first.1@) == begin(
                *self,
                Operation::QueryAll,
                MessageView { addr: addr@, args: values_view(args@) },
            ),
            first.0@.wf(),
    {
        self.start(Operation::QueryAll, addr, args)
    }

    /// Begins the query that probes whether the peer answers. What its
    /// outcome means is told by [`OscClient::connection_verdict`].
    pub fn test_connection(&self) -> (first: (Exchange, Action))
        ensures
            (first.0@, first.1@) == begin(*self, Operation::Query, probe_message()),
            first.0@.wf(),
    {
        let args: Vec<OscValue> = Vec::new();
        assert(values_view(args@) =~= Seq::empty());
        self.start(Operation::Query, "/live/song/get/tempo", args)
    }

    /// Reads the outcome of the probe: a reply with an argument list means
    /// that the peer is there, silence means that it is not, and everything
    /// else is an error.
    pub fn connection_verdict(outcome: Outcome) -> (r: Result<bool, Error>)
        requires
            outcome@.answers(Operation::Query),
        ensures
            match outcome {
                Outcome::Reply(packet) => match raw_args(packet@) {
                    Ok(_) => r == Ok::<bool, Error>(true),
                    Err(fault) => r matches Err(e) && is_fault(e, fault),
                },
                Outcome::Failed(Error::Timeout) => r == Ok::<bool, Error>(false),
                Outcome::Failed(e) => r == Err::<bool, Error>(e),
                _ => false,
            },
    {
        match outcome.into_reply::<Vec<OscValue>>() {
            Ok(_) => Ok(true),
            Err(Error::Timeout) => Ok(false),
            Err(e) => Err(e),
        }
    }
}

/// A step keeps an exchange well formed, and changes neither the operation
/// nor the client.
pub proof fn lemma_step_keeps_wf(x: ExchangeView, event: EventView)
    requires
        x.wf(),
        accepts(x.phase, event),
    ensures
        x.step(event).0.wf(),
        x.step(event).0.operation == x.operation,
        x.step(event).0.client == x.client,
{
}

/// An exchange ends only with an outcome that its operation can end with: a
/// send with `Sent`, a query with `Reply`, a collecting query with `Replies`,
/// or any of them with `Failed`. It is then in the phase `Finished`.
pub proof fn lemma_outcome_answers(x: ExchangeView, event: EventView)
    requires
        x.wf(),
        accepts(x.phase, event),
        x.step(event).1 is Finish,
    ensures
        x.step(event).1->Finish_0.answers(x.operation),
        x.step(event).0.phase is Finished,
{
}

/// An exchange sends to its own client's peer and to nobody else, and a
/// datagram goes out exactly as the codec made it.
pub proof fn lemma_transmits_to_own_peer(x: ExchangeView, event: EventView)
    requires
        x.wf(),
        accepts(x.phase, event),
        x.step(event).1 is Transmit,
    ensures
        x.step(event).1->to == x.client.remote,
        event matches EventView::Encoded(datagram) && x.step(event).1->datagram == datagram,
{
}

/// Whatever arrives while a query is flushing is dropped: the exchange stays
/// as it is and drains once more.
pub proof fn lemma_flush_drops(x: ExchangeView, event: EventView)
    requires
        x.wf(),
        x.phase is Flushing,
        event is Datagram || event is ReceiveFailed,
    ensures
        x.step(event) == (x, flush_receive()),
{
}

/// A query to a peer that never replies: once the flush falls silent the
/// message is encoded and sent to the client's peer, one reply is waited for
/// during the client's response timeout, and silence then ends the query
/// with `Timeout`.
pub proof fn lemma_silent_peer_times_out(
    client: OscClient,
    message: MessageView,
    datagram: Seq<u8>,
)
    ensures
        ({
            let (flushing, drain) = begin(client, Operation::Query, message);
            let (encoding, encode) = flushing.step(EventView::Silence);
            let (sending, transmit) = encoding.step(EventView::Encoded(datagram));
            let (awaiting, receive) = sending.step(EventView::Transmitted);
            let (end, finish) = awaiting.step(EventView::Silence);
            &&& drain == flush_receive()
            &&& encode == ActionView::Encode(message)
            &&& transmit == (ActionView::Transmit { datagram, to: client.remote })
            &&& receive == (ActionView::Receive {
                timeout_ms: client.response_timeout_ms,
                capacity: RESPONSE_CAPACITY,
            })
            &&& finish == ActionView::Finish(OutcomeView::Failed(Error::Timeout))
            &&& end.phase is Finished
        }),
{
}

/// The exchange after the given replies have each arrived and been decoded.
pub open spec fn after_replies(x: ExchangeView, replies: Seq<PacketView>) -> ExchangeView
    decreases replies.len(),
{
    if replies.len() == 0 {
        x
    } else {
        after_replies(
            x.step(EventView::Datagram(Seq::empty())).0.step(EventView::Decoded(replies[0])).0,
            replies.skip(1),
        )
    }
}

/// A collecting query keeps every decoded reply, in the order of arrival, and
/// hands them all over when the peer falls silent.
pub proof fn lemma_collects_until_silence(x: ExchangeView, replies: Seq<PacketView>)
    requires
        x.wf(),
        x.operation is QueryAll,
        x.phase is Awaiting,
    ensures
        after_replies(x, replies) == (ExchangeView { collected: x.collected + replies, ..x }),
        after_replies(x, replies).step(EventView::Silence).1 == ActionView::Finish(
            OutcomeView::Replies(x.collected + replies),
        ),
    decreases replies.len(),
{
    if replies.len() == 0 {
        assert(x.collected + replies =~= x.collected);
    } else {
        let next = x.step(EventView::Datagram(Seq::empty())).0.step(
            EventView::Decoded(replies[0]),
        ).0;
        lemma_collects_until_silence(next, replies.skip(1));
        assert(next.collected + replies.skip(1) =~= x.collected + replies);
    }
}

/// A receive that fails while a reply is awaited ends the exchange with the
/// network error, for a query and for a collecting query alike: what a
/// collecting query has gathered does not turn the failure into a success.
pub proof fn lemma_failed_receive_is_reported(x: ExchangeView, error: std::io::Error)
    requires
        x.wf(),
        x.phase is Awaiting,
    ensures
        x.step(EventView::ReceiveFailed(error)).1 == ActionView::Finish(
            OutcomeView::Failed(Error::Network(error)),
        ),
{
}

/// A reply to a query that the codec cannot decode ends the query as an
/// invalid response.
pub proof fn lemma_undecodable_reply_is_invalid(x: ExchangeView, error: rosc::OscError)
    requires
        x.wf(),
        x.operation is Query,
        x.phase is Decoding,
    ensures
        x.step(EventView::DecodeFailed(error)).1 == ActionView::Finish(
            OutcomeView::Failed(Error::InvalidResponse(ResponseFault::Undecodable(error))),
        ),
{
}

/// A reply that decodes to a message is handed to the caller as it is: a
/// query answered by a message ends with that message, and decoding it as
/// the raw argument list succeeds and gives that message's arguments, all of
/// them and in their order. So with a peer that echoes the request, and a
/// codec that decodes what it encoded, a query returns what was sent.
pub proof fn lemma_reply_arguments_come_back(
    client: OscClient,
    request: MessageView,
    datagram: Seq<u8>,
    incoming: Seq<u8>,
    reply: MessageView,
    result: Result<Vec<OscValue>, Error>,
)
    ensures
        ({
            let (flushing, _) = begin(client, Operation::Query, request);
            let (encoding, _) = flushing.step(EventView::Silence);
            let (sending, _) = encoding.step(EventView::Encoded(datagram));
            let (awaiting, _) = sending.step(EventView::Transmitted);
            let (decoding, decode) = awaiting.step(EventView::Datagram(incoming));
            let (_, finish) = decoding.step(EventView::Decoded(PacketView::Message(reply)));
            &&& decode == ActionView::Decode(incoming)
            &&& finish == ActionView::Finish(OutcomeView::Reply(PacketView::Message(reply)))
        }),
        Vec::<OscValue>::reply_of(PacketView::Message(reply), result) <==> (result matches Ok(list)
            && values_view(list@) == reply.args),
{
}

/// A datagram that the codec refuses is left out of a collecting query, which
/// goes on waiting.
pub proof fn lemma_undecodable_is_skipped(x: ExchangeView, error: rosc::OscError)
    requires
        x.wf(),
        x.operation is QueryAll,
        x.phase is Decoding,
    ensures
        x.step(EventView::DecodeFailed(error)) == (x.at(Phase::Awaiting), reply_receive(x.client)),
        x.step(EventView::DecodeFailed(error)).0.collected == x.collected,
{
}

} // verus!
