//! The OSC data model: typed arguments, messages, bundles.
//!
//! Floating-point arguments are held as their IEEE-754 bit patterns, so that
//! every value here is plain data with a mathematical view.

use vstd::prelude::*;

verus! {

/// An OSC time tag: seconds since 1900-01-01 and fractions of a second.
#[derive(Clone, Copy, Debug, PartialEq, Eq)]
pub struct OscTime {
    pub seconds: u32,
    pub fractional: u32,
}

/// An RGBA color argument.
#[derive(Clone, Copy, Debug, PartialEq, Eq)]
pub struct OscColor {
    pub red: u8,
    pub green: u8,
    pub blue: u8,
    pub alpha: u8,
}

/// The four bytes of a MIDI message argument.
#[derive(Clone, Copy, Debug, PartialEq, Eq)]
pub struct OscMidiMessage {
    pub port: u8,
    pub status: u8,
    pub data1: u8,
    pub data2: u8,
}

/// One typed OSC argument.
///
/// `Float` and `Double` carry the bit pattern of the number, not the number.
#[derive(Debug, PartialEq)]
pub enum OscValue {
    Int(i32),
    Float(u32),
    Str(String),
    Blob(Vec<u8>),
    Time(OscTime),
    Long(i64),
    Double(u64),
    Char(char),
    Color(OscColor),
    Midi(OscMidiMessage),
    Bool(bool),
    Array(Vec<OscValue>),
    Nil,
    Inf,
}

/// The mathematical value of an [`OscValue`].
pub enum ValueView {
    Int(i32),
    Float(u32),
    Str(Seq<char>),
    Blob(Seq<u8>),
    Time(OscTime),
    Long(i64),
    Double(u64),
    Char(char),
    Color(OscColor),
    Midi(OscMidiMessage),
    Bool(bool),
    Array(Seq<ValueView>),
    Nil,
    Inf,
}

impl View for OscValue {
    type V = ValueView;

    open spec fn view(&self) -> ValueView
        decreases self,
    {
        match self {
            OscValue::Int(v) => ValueView::Int(*v),
            OscValue::Float(bits) => ValueView::Float(*bits),
            OscValue::Str(s) => ValueView::Str(s@),
            OscValue::Blob(b) => ValueView::Blob(b@),
            OscValue::Time(t) => ValueView::Time(*t),
            OscValue::Long(v) => ValueView::Long(*v),
            OscValue::Double(bits) => ValueView::Double(*bits),
            OscValue::Char(c) => ValueView::Char(*c),
            OscValue::Color(c) => ValueView::Color(*c),
            OscValue::Midi(m) => ValueView::Midi(*m),
            OscValue::Bool(b) => ValueView::Bool(*b),
            OscValue::Array(items) => ValueView::Array(
                Seq::new(
                    items@.len(),
                    |i: int|
                        if 0 <= i < items@.len() {
                            items@[i].view()
                        } else {
                            ValueView::Nil
                        },
                ),
            ),
            OscValue::Nil => ValueView::Nil,
            OscValue::Inf => ValueView::Inf,
        }
    }
}

/// The views of a sequence of arguments, in order.
pub open spec fn values_view(args: Seq<OscValue>) -> Seq<ValueView> {
    Seq::new(args.len(), |i: int| args[i]@)
}

/// An OSC message: an address pattern and its ordered arguments.
#[derive(Debug, PartialEq)]
pub struct OscMessage {
    pub addr: String,
    pub args: Vec<OscValue>,
}

/// An OSC bundle: a time tag and an ordered sequence of nested packets.
#[derive(Debug, PartialEq)]
pub struct OscBundle {
    pub timetag: OscTime,
    pub content: Vec<OscPacket>,
}

/// An OSC packet: a single message or a bundle of packets.
#[derive(Debug, PartialEq)]
pub enum OscPacket {
    Message(OscMessage),
    Bundle(OscBundle),
}

/// The mathematical value of an [`OscMessage`].
pub struct MessageView {
    pub addr: Seq<char>,
    pub args: Seq<ValueView>,
}

/// The mathematical value of an [`OscPacket`].
pub enum PacketView {
    Message(MessageView),
    Bundle { timetag: OscTime, content: Seq<PacketView> },
}

impl View for OscMessage {
    type V = MessageView;

    open spec fn view(&self) -> MessageView {
        MessageView { addr: self.addr@, args: values_view(self.args@) }
    }
}

impl View for OscPacket {
    type V = PacketView;

    open spec fn view(&self) -> PacketView
        decreases self,
    {
        match self {
            OscPacket::Message(m) => PacketView::Message(m@),
            OscPacket::Bundle(b) => PacketView::Bundle {
                timetag: b.timetag,
                content: Seq::new(
                    b.content@.len(),
                    |i: int|
                        if 0 <= i < b.content@.len() {
                            b.content@[i].view()
                        } else {
                            PacketView::Message(MessageView { addr: Seq::empty(), args: Seq::empty() })
                        },
                ),
            },
        }
    }
}

/// The views of a sequence of packets, in order.
pub open spec fn packets_view(packets: Seq<OscPacket>) -> Seq<PacketView> {
    Seq::new(packets.len(), |i: int| packets[i]@)
}

impl Clone for OscValue {
    /// A copy with the same view.
    fn clone(&self) -> (copy: Self)
        ensures
            copy@ == self@,
        decreases self,
    {
        match self {
            OscValue::Int(v) => OscValue::Int(*v),
            OscValue::Float(bits) => OscValue::Float(*bits),
            OscValue::Str(s) => OscValue::Str(s.clone()),
            OscValue::Blob(b) => OscValue::Blob(b.clone()),
            OscValue::Time(t) => OscValue::Time(*t),
            OscValue::Long(v) => OscValue::Long(*v),
            OscValue::Double(bits) => OscValue::Double(*bits),
            OscValue::Char(c) => OscValue::Char(*c),
            OscValue::Color(c) => OscValue::Color(*c),
            OscValue::Midi(m) => OscValue::Midi(*m),
            OscValue::Bool(b) => OscValue::Bool(*b),
            OscValue::Array(items) => {
                let mut copies: Vec<OscValue> = Vec::new();
                let mut i: usize = 0;
                while i < items.len()
                    invariant
                        i <= items.len(),
                        copies@.len() == i,
                        forall|j: int| 0 <= j < i ==> (#[trigger] copies@[j])@ == items@[j]@,
                        *self == OscValue::Array(*items),
                    decreases items.len() - i,
                {
                    proof {
                        vstd::std_specs::vec::axiom_vec_index_decreases(*items, i as int);
                        assert(self->Array_0 == *items);
                        assert(decreases_to!(*self => self->Array_0));
                    }
                    copies.push(items[i].clone());
                    i = i + 1;
                }
                proof {
                    lemma_array_view(*items);
                    lemma_array_view(copies);
                    assert(values_view(copies@) =~= values_view(items@));
                }
                OscValue::Array(copies)
            },
            OscValue::Nil => OscValue::Nil,
            OscValue::Inf => OscValue::Inf,
        }
    }
}

/// A copy of a list of arguments, with the same views.
fn clone_values(args: &Vec<OscValue>) -> (copies: Vec<OscValue>)
    ensures
        values_view(copies@) == values_view(args@),
{
    let mut copies: Vec<OscValue> = Vec::new();
    let mut i: usize = 0;
    while i < args.len()
        invariant
            i <= args.len(),
            copies@.len() == i,
            forall|j: int| 0 <= j < i ==> (#[trigger] copies@[j])@ == args@[j]@,
        decreases args.len() - i,
    {
        copies.push(args[i].clone());
        i = i + 1;
    }
    assert(values_view(copies@) =~= values_view(args@));
    copies
}

impl Clone for OscMessage {
    /// A copy with the same view.
    fn clone(&self) -> (copy: Self)
        ensures
            copy@ == self@,
    {
        OscMessage { addr: self.addr.clone(), args: clone_values(&self.args) }
    }
}

impl Clone for OscBundle {
    /// A copy that, as a packet, has the same view.
    fn clone(&self) -> (copy: Self)
        ensures
            OscPacket::Bundle(copy)@ == OscPacket::Bundle(*self)@,
        decreases self,
    {
        let mut copies: Vec<OscPacket> = Vec::new();
        let mut i: usize = 0;
        while i < self.content.len()
            invariant
                i <= self.content.len(),
                copies@.len() == i,
                forall|j: int| 0 <= j < i ==> (#[trigger] copies@[j])@ == self.content@[j]@,
            decreases self.content.len() - i,
        {
            proof {
                vstd::std_specs::vec::axiom_vec_index_decreases(self.content, i as int);
                assert(decreases_to!(*self => self.content));
            }
            copies.push(self.content[i].clone());
            i = i + 1;
        }
        let copy = OscBundle { timetag: self.timetag, content: copies };
        proof {
            lemma_bundle_view(*self);
            lemma_bundle_view(copy);
            assert(packets_view(copy.content@) =~= packets_view(self.content@));
        }
        copy
    }
}

impl Clone for OscPacket {
    /// A copy with the same view.
    fn clone(&self) -> (copy: Self)
        ensures
            copy@ == self@,
        decreases self,
    {
        match self {
            OscPacket::Message(message) => OscPacket::Message(message.clone()),
            OscPacket::Bundle(bundle) => {
                proof {
                    assert(self->Bundle_0 == *bundle);
                    assert(decreases_to!(*self => self->Bundle_0));
                }
                OscPacket::Bundle(bundle.clone())
            },
        }
    }
}

/// The view of an array argument is the views of its items.
pub proof fn lemma_array_view(items: Vec<OscValue>)
    ensures
        OscValue::Array(items)@ == ValueView::Array(values_view(items@)),
{
    reveal_with_fuel(<OscValue as View>::view, 2);
    assert(OscValue::Array(items)@->Array_0 =~= values_view(items@));
}

/// The view of a bundle holds the views of its nested packets.
pub proof fn lemma_bundle_view(bundle: OscBundle)
    ensures
        OscPacket::Bundle(bundle)@ == (PacketView::Bundle {
            timetag: bundle.timetag,
            content: packets_view(bundle.content@),
        }),
{
    reveal_with_fuel(<OscPacket as View>::view, 2);
    assert(OscPacket::Bundle(bundle)@->content =~= packets_view(bundle.content@));
}

} // verus!
