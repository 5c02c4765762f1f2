use remix_mcp::error::{Error, ResponseFault};
use remix_mcp::osc::client::{Action, Event, Exchange, Outcome};
use remix_mcp::osc::{
    FloatBits, OscBundle, OscClient, OscColor, OscMessage, OscMessageBuilder, OscMidiMessage,
    OscPacket, OscTime, OscValue,
};
use std::collections::{HashMap, VecDeque};

fn to_wire(value: &OscValue) -> rosc::OscType {
    match value {
        OscValue::Int(v) => rosc::OscType::Int(*v),
        OscValue::Float(bits) => rosc::OscType::Float(f32::from_bits(*bits)),
        OscValue::Str(s) => rosc::OscType::String(s.clone()),
        OscValue::Blob(b) => rosc::OscType::Blob(b.clone()),
        OscValue::Time(t) => rosc::OscType::Time(rosc::OscTime {
            seconds: t.seconds,
            fractional: t.fractional,
        }),
        OscValue::Long(v) => rosc::OscType::Long(*v),
        OscValue::Double(bits) => rosc::OscType::Double(f64::from_bits(*bits)),
        OscValue::Char(c) => rosc::OscType::Char(*c),
        OscValue::Color(c) => rosc::OscType::Color(rosc::OscColor {
            red: c.red,
            green: c.green,
            blue: c.blue,
            alpha: c.alpha,
        }),
        OscValue::Midi(m) => rosc::OscType::Midi(rosc::OscMidiMessage {
            port: m.port,
            status: m.status,
            data1: m.data1,
            data2: m.data2,
        }),
        OscValue::Bool(b) => rosc::OscType::Bool(*b),
        OscValue::Array(items) => rosc::OscType::Array(rosc::OscArray {
            content: items.iter().map(to_wire).collect(),
        }),
        OscValue::Nil => rosc::OscType::Nil,
        OscValue::Inf => rosc::OscType::Inf,
    }
}

fn from_wire(value: rosc::OscType) -> OscValue {
    match value {
        rosc::OscType::Int(v) => OscValue::Int(v),
        rosc::OscType::Float(v) => OscValue::Float(v.to_bits()),
        rosc::OscType::String(s) => OscValue::Str(s),
        rosc::OscType::Blob(b) => OscValue::Blob(b),
        rosc::OscType::Time(t) => OscValue::Time(OscTime {
            seconds: t.seconds,
            fractional: t.fractional,
        }),
        rosc::OscType::Long(v) => OscValue::Long(v),
        rosc::OscType::Double(v) => OscValue::Double(v.to_bits()),
        rosc::OscType::Char(c) => OscValue::Char(c),
        rosc::OscType::Color(c) => OscValue::Color(OscColor {
            red: c.red,
            green: c.green,
            blue: c.blue,
            alpha: c.alpha,
        }),
        rosc::OscType::Midi(m) => OscValue::Midi(OscMidiMessage {
            port: m.port,
            status: m.status,
            data1: m.data1,
            data2: m.data2,
        }),
        rosc::OscType::Bool(b) => OscValue::Bool(b),
        rosc::OscType::Array(a) => OscValue::Array(a.content.into_iter().map(from_wire).collect()),
        rosc::OscType::Nil => OscValue::Nil,
        rosc::OscType::Inf => OscValue::Inf,
    }
}

fn packet_from_wire(packet: rosc::OscPacket) -> OscPacket {
    match packet {
        rosc::OscPacket::Message(m) => OscPacket::Message(OscMessage {
            addr: m.addr,
            args: m.args.into_iter().map(from_wire).collect(),
        }),
        rosc::OscPacket::Bundle(b) => OscPacket::Bundle(OscBundle {
            timetag: OscTime { seconds: b.timetag.seconds, fractional: b.timetag.fractional },
            content: b.content.into_iter().map(packet_from_wire).collect(),
        }),
    }
}

fn packet_to_wire(packet: &OscPacket) -> rosc::OscPacket {
    match packet {
        OscPacket::Message(m) => rosc::OscPacket::Message(rosc::OscMessage {
            addr: m.addr.clone(),
            args: m.args.iter().map(to_wire).collect(),
        }),
        OscPacket::Bundle(b) => rosc::OscPacket::Bundle(rosc::OscBundle {
            timetag: rosc::OscTime {
                seconds: b.timetag.seconds,
                fractional: b.timetag.fractional,
            },
            content: b.content.iter().map(packet_to_wire).collect(),
        }),
    }
}

fn encode(packet: &OscPacket) -> Result<Vec<u8>, rosc::OscError> {
    rosc::encoder::encode(&packet_to_wire(packet))
}

fn decode(bytes: &[u8]) -> Result<OscPacket, rosc::OscError> {
    rosc::decoder::decode_udp(bytes).map(|(_, packet)| packet_from_wire(packet))
}

fn message(addr: &str, args: Vec<OscValue>) -> OscPacket {
    OscPacket::Message(OscMessage { addr: addr.to_string(), args })
}

fn round_trip(args: Vec<OscValue>) {
    let sent = message("/live/test", args);
    let bytes = encode(&sent).unwrap();
    assert_eq!(bytes.len() % 4, 0);
    assert_eq!(decode(&bytes).unwrap(), sent);
}

/// Datagrams in flight, by the port they are addressed to.
struct Network {
    inboxes: HashMap<u16, VecDeque<Vec<u8>>>,
    /// How many datagrams the peer has received.
    received: usize,
}

impl Network {
    fn new() -> Network {
        Network { inboxes: HashMap::new(), received: 0 }
    }

    fn deliver(&mut self, port: u16, datagram: Vec<u8>) {
        self.inboxes.entry(port).or_default().push_back(datagram);
    }

    fn take(&mut self, port: u16) -> Option<Vec<u8>> {
        self.inboxes.entry(port).or_default().pop_front()
    }
}

/// Performs one action of a client on the network. `peer` is called with
/// the sender's port and the datagram for every datagram sent.
fn perform(
    network: &mut Network,
    client: &OscClient,
    action: Action,
    peer: &dyn Fn(&mut Network, u16, Vec<u8>),
) -> Result<Event, Outcome> {
    match action {
        Action::Receive { capacity, .. } => Ok(match network.take(client.local_port()) {
            Some(mut datagram) => {
                datagram.truncate(capacity);
                Event::Datagram(datagram)
            }
            None => Event::Silence,
        }),
        Action::Encode(message) => Ok(match encode(&OscPacket::Message(message)) {
            Ok(bytes) => Event::Encoded(bytes),
            Err(e) => Event::EncodeFailed(e),
        }),
        Action::Transmit { datagram, to } => {
            assert_eq!(to, client.remote);
            network.received += 1;
            peer(network, client.local_port(), datagram);
            Ok(Event::Transmitted)
        }
        Action::Decode(bytes) => Ok(match decode(&bytes) {
            Ok(packet) => Event::Decoded(packet),
            Err(e) => Event::DecodeFailed(e),
        }),
        Action::Finish(outcome) => Err(outcome),
    }
}

fn run(
    network: &mut Network,
    client: &OscClient,
    first: (Exchange, Action),
    peer: &dyn Fn(&mut Network, u16, Vec<u8>),
) -> Outcome {
    let (mut exchange, mut action) = first;
    loop {
        match perform(network, client, action, peer) {
            Ok(event) => {
                assert!(exchange.accepts(&event));
                let next = exchange.step(event);
                exchange = next.0;
                action = next.1;
            }
            Err(outcome) => return outcome,
        }
    }
}

/// A peer that answers every message with the sender's port.
fn echo_port(network: &mut Network, sender: u16, datagram: Vec<u8>) {
    if let OscPacket::Message(m) = decode(&datagram).unwrap() {
        let reply = message(&m.addr, vec![OscValue::Int(i32::from(sender))]);
        network.deliver(sender, encode(&reply).unwrap());
    }
}

fn silent(_: &mut Network, _: u16, _: Vec<u8>) {}

#[test]
fn round_trip_of_each_supported_argument() {
    round_trip(vec![]);
    round_trip(vec![OscValue::Int(42)]);
    round_trip(vec![OscValue::Int(i32::MIN)]);
    round_trip(vec![OscValue::Float(0.85f32.to_bits())]);
    round_trip(vec![OscValue::Float(std::f32::consts::PI.to_bits())]);
    round_trip(vec![OscValue::Str("hello".to_string())]);
    round_trip(vec![OscValue::Str(String::new())]);
    round_trip(vec![OscValue::Bool(true)]);
    round_trip(vec![OscValue::Bool(false)]);
}

#[test]
fn round_trip_preserves_order_of_mixed_arguments() {
    round_trip(vec![
        OscValue::Int(1),
        OscValue::Float(2.0f32.to_bits()),
        OscValue::Str("three".to_string()),
    ]);
    round_trip(vec![
        OscValue::Str("a".to_string()),
        OscValue::Int(0),
        OscValue::Int(0),
        OscValue::Int(60),
        OscValue::Float(0.0f32.to_bits()),
        OscValue::Float(1.0f32.to_bits()),
        OscValue::Int(100),
        OscValue::Bool(false),
        OscValue::Str("b".to_string()),
    ]);
}

#[test]
fn round_trip_of_builder_output() {
    for a in [-1, 0, 7] {
        for b in [0.0f32, -0.5, 120.25] {
            for c in ["", "x", "Lead Synth"] {
                for d in [true, false] {
                    round_trip(
                        OscMessageBuilder::new().integer(a).float(b.to_bits()).string(c).bool(d).build(),
                    );
                    round_trip(
                        OscMessageBuilder::new().bool(d).string(c).float(b.to_bits()).integer(a).build(),
                    );
                }
            }
        }
    }
}

#[test]
fn round_trip_of_the_remaining_argument_types() {
    round_trip(vec![
        OscValue::Nil,
        OscValue::Inf,
        OscValue::Double(0.1f64.to_bits()),
        OscValue::Long(i64::MIN),
        OscValue::Char('x'),
        OscValue::Blob(vec![1, 2, 3]),
        OscValue::Time(OscTime { seconds: 5, fractional: 6 }),
        OscValue::Color(OscColor { red: 1, green: 2, blue: 3, alpha: 4 }),
        OscValue::Midi(OscMidiMessage { port: 1, status: 0x90, data1: 60, data2: 100 }),
        OscValue::Array(vec![OscValue::Int(1), OscValue::Array(vec![OscValue::Nil])]),
    ]);
}

#[test]
fn round_trip_keeps_float_bits() {
    for bits in [0u32, 0x8000_0000, 0x7f80_0000, 0xff80_0000, 0x0000_0001, 0x3f80_0000] {
        round_trip(vec![OscValue::Float(bits)]);
    }
}

#[test]
fn round_trip_of_a_bundle() {
    let sent = OscPacket::Bundle(OscBundle {
        timetag: OscTime { seconds: 1, fractional: 2 },
        content: vec![
            message("/a", vec![OscValue::Int(1)]),
            OscPacket::Bundle(OscBundle {
                timetag: OscTime { seconds: 3, fractional: 4 },
                content: vec![message("/b", vec![OscValue::Str("x".to_string())])],
            }),
        ],
    });
    assert_eq!(decode(&encode(&sent).unwrap()).unwrap(), sent);
}

#[test]
fn copies_are_equal_and_independent() {
    let first = OscPacket::Bundle(OscBundle {
        timetag: OscTime { seconds: 1, fractional: 2 },
        content: vec![
            message(
                "/a",
                vec![
                    OscValue::Int(1),
                    OscValue::Str("x".to_string()),
                    OscValue::Blob(vec![1, 2]),
                    OscValue::Array(vec![OscValue::Float(7), OscValue::Array(vec![OscValue::Nil])]),
                ],
            ),
            OscPacket::Bundle(OscBundle {
                timetag: OscTime { seconds: 3, fractional: 4 },
                content: vec![message("/b", vec![])],
            }),
        ],
    });
    let mut copy = first.clone();
    assert_eq!(copy, first);
    assert_eq!(encode(&copy).unwrap(), encode(&first).unwrap());
    if let OscPacket::Bundle(bundle) = &mut copy {
        bundle.content.pop();
        assert_eq!(bundle.clone().content.len(), 1);
    }
    assert_ne!(copy, first);
    let value = OscValue::Array(vec![OscValue::Str("deep".to_string())]);
    assert_eq!(value.clone(), value);
    let one = OscMessage { addr: "/m".to_string(), args: vec![value] };
    assert_eq!(one.clone(), one);
}

#[test]
fn tempo_query_on_the_wire() {
    let bytes = encode(&message("/live/song/get/tempo", vec![])).unwrap();
    assert_eq!(bytes, b"/live/song/get/tempo\0\0\0\0,\0\0\0".to_vec());
}

#[test]
fn two_clients_receive_own_responses_from_mock_server() {
    let mut network = Network::new();
    let a = OscClient::new(50001);
    let b = OscClient::new(50002);
    assert_ne!(a.local_port(), b.local_port());

    // Both queries are in flight at once: the clients take turns, one step
    // each.
    let (mut exchange_a, mut action_a) = a.query("/test/echo", vec![]);
    let (mut exchange_b, mut action_b) = b.query("/test/echo", vec![]);
    let mut outcome_a = None;
    let mut outcome_b = None;
    while outcome_a.is_none() || outcome_b.is_none() {
        if outcome_a.is_none() {
            match perform(&mut network, &a, action_a, &echo_port) {
                Ok(event) => {
                    let next = exchange_a.step(event);
                    exchange_a = next.0;
                    action_a = next.1;
                }
                Err(outcome) => {
                    outcome_a = Some(outcome);
                    action_a = Action::Finish(Outcome::Sent);
                }
            }
        }
        if outcome_b.is_none() {
            match perform(&mut network, &b, action_b, &echo_port) {
                Ok(event) => {
                    let next = exchange_b.step(event);
                    exchange_b = next.0;
                    action_b = next.1;
                }
                Err(outcome) => {
                    outcome_b = Some(outcome);
                    action_b = Action::Finish(Outcome::Sent);
                }
            }
        }
    }
    let port_in_a: i32 = outcome_a.unwrap().into_reply().unwrap();
    let port_in_b: i32 = outcome_b.unwrap().into_reply().unwrap();
    assert_eq!(port_in_a, 50001);
    assert_eq!(port_in_b, 50002);
    assert_eq!(network.received, 2);
    assert!(network.take(50001).is_none());
    assert!(network.take(50002).is_none());
}

#[test]
fn query_on_silent_peer_sends_once_and_times_out() {
    let mut network = Network::new();
    let client = OscClient::new(50003);
    let first = client.query("/live/song/get/tempo", vec![]);
    let outcome = run(&mut network, &client, first, &silent);
    let result: Result<FloatBits, Error> = outcome.into_reply();
    assert!(matches!(result, Err(Error::Timeout)));
    assert_eq!(network.received, 1);
}

#[test]
fn query_is_not_answered_by_a_stale_datagram() {
    let mut network = Network::new();
    let client = OscClient::new(50004);
    let stale = encode(&message("/old", vec![OscValue::Int(-1)])).unwrap();
    network.deliver(50004, stale.clone());
    network.deliver(50004, stale);
    let first = client.query("/test/echo", vec![]);
    let outcome = run(&mut network, &client, first, &echo_port);
    let got: i32 = outcome.into_reply().unwrap();
    assert_eq!(got, 50004);
}

#[test]
fn query_all_collects_three_replies_from_mock_server() {
    let three = |network: &mut Network, sender: u16, _: Vec<u8>| {
        for i in 0..3 {
            let reply = message("/live/track/get/name", vec![OscValue::Int(i)]);
            network.deliver(sender, encode(&reply).unwrap());
        }
    };
    let mut network = Network::new();
    let client = OscClient::new(50005);
    let first = client.query_all("/live/track/get/name", vec![]);
    let replies = run(&mut network, &client, first, &three).into_replies().unwrap();
    assert_eq!(replies.len(), 3);
    for (i, reply) in replies.iter().enumerate() {
        assert_eq!(*reply, message("/live/track/get/name", vec![OscValue::Int(i as i32)]));
    }
}

#[test]
fn query_all_skips_a_datagram_that_is_not_osc() {
    let noisy = |network: &mut Network, sender: u16, _: Vec<u8>| {
        network.deliver(sender, encode(&message("/r", vec![OscValue::Int(1)])).unwrap());
        network.deliver(sender, vec![0xff, 0xfe, 0xfd]);
        network.deliver(sender, encode(&message("/r", vec![OscValue::Int(2)])).unwrap());
    };
    let mut network = Network::new();
    let client = OscClient::new(50006);
    let first = client.query_all("/q", vec![]);
    let replies = run(&mut network, &client, first, &noisy).into_replies().unwrap();
    assert_eq!(
        replies,
        vec![message("/r", vec![OscValue::Int(1)]), message("/r", vec![OscValue::Int(2)])]
    );
}

#[test]
fn query_fails_on_a_reply_that_is_not_osc() {
    let garbage = |network: &mut Network, sender: u16, _: Vec<u8>| {
        network.deliver(sender, vec![0xff, 0xfe, 0xfd]);
    };
    let mut network = Network::new();
    let client = OscClient::new(50007);
    let first = client.query("/q", vec![]);
    let result: Result<i32, Error> = run(&mut network, &client, first, &garbage).into_reply();
    assert!(matches!(result, Err(Error::InvalidResponse(ResponseFault::Undecodable(_)))));
}

#[test]
fn send_reaches_the_peer_and_awaits_nothing() {
    let mut network = Network::new();
    let client = OscClient::new(50008);
    let first = client.send("/test/echo", vec![OscValue::Int(1)]);
    let outcome = run(&mut network, &client, first, &echo_port);
    assert!(outcome.into_sent().is_ok());
    assert_eq!(network.received, 1);
    // The echo is left in the socket; the next query drains it first.
    assert!(network.take(50008).is_some());
}

#[test]
fn connection_test_against_mock_server() {
    let tempo = |network: &mut Network, sender: u16, _: Vec<u8>| {
        let reply = message("/live/song/get/tempo", vec![OscValue::Float(120.0f32.to_bits())]);
        network.deliver(sender, encode(&reply).unwrap());
    };
    let client = OscClient::new(50009);
    let mut network = Network::new();
    let outcome = run(&mut network, &client, client.test_connection(), &tempo);
    assert!(matches!(OscClient::connection_verdict(outcome), Ok(true)));
    let mut network = Network::new();
    let outcome = run(&mut network, &client, client.test_connection(), &silent);
    assert!(matches!(OscClient::connection_verdict(outcome), Ok(false)));
}
