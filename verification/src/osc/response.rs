//! Decoding a reply into the value that the caller asked for.
//!
//! The peer's replies are not uniform: some carry just the value, others
//! repeat the indices of the query before it. The decoders therefore look for
//! the wanted value from the end of the argument list, and fall back on the
//! first argument.

use crate::error::{Error, Expected, FaultView, ResponseFault};
use crate::osc::float::{float_bits_to_int, int_as_float, int_to_float_bits, truncated};
use crate::osc::value::{
    lemma_bundle_view, packets_view, values_view, OscPacket, OscValue, PacketView, ValueView,
};
use vstd::prelude::*;

verus! {

/// The bit pattern of a single-precision reply value.
#[derive(Clone, Copy, Debug, PartialEq, Eq)]
pub struct FloatBits(pub u32);

/// Whether an argument is of the requested kind, without any coercion.
pub open spec fn has_kind(value: ValueView, kind: Expected) -> bool {
    match kind {
        Expected::Float => value is Float,
        Expected::Int => value is Int,
        Expected::Text => value is Str,
        Expected::Bool => value is Bool,
    }
}

/// The position of the last argument of the requested kind.
pub open spec fn last_index(args: Seq<ValueView>, kind: Expected) -> Option<int>
    decreases args.len(),
{
    if args.len() == 0 {
        None
    } else if has_kind(args.last(), kind) {
        Some(args.len() - 1)
    } else {
        last_index(args.drop_last(), kind)
    }
}

/// The arguments of the first message that stands directly in a bundle.
pub open spec fn first_message_args(content: Seq<PacketView>) -> Option<Seq<ValueView>>
    decreases content.len(),
{
    if content.len() == 0 {
        None
    } else {
        match content[0] {
            PacketView::Message(m) => Some(m.args),
            _ => first_message_args(content.skip(1)),
        }
    }
}

/// The argument list that a packet is decoded from: a message's own, or that
/// of the first message directly in a bundle.
pub open spec fn raw_args(packet: PacketView) -> Result<Seq<ValueView>, FaultView> {
    match packet {
        PacketView::Message(m) => Ok(m.args),
        PacketView::Bundle { content, .. } => match first_message_args(content) {
            Some(args) => Ok(args),
            None => Err(FaultView::EmptyBundle),
        },
    }
}

/// The fault that names the first argument as unfit for the requested kind.
pub open spec fn unexpected(kind: Expected, args: Seq<ValueView>) -> FaultView {
    FaultView::Unexpected { expected: kind, found: args[0] }
}

/// An argument list as an integer: with several arguments the last `Int`;
/// otherwise the first argument, a float being truncated toward zero.
pub open spec fn decode_int(args: Seq<ValueView>) -> Result<i32, FaultView> {
    if args.len() == 0 {
        Err(FaultView::NoArguments)
    } else if args.len() > 1 && last_index(args, Expected::Int) is Some {
        Ok(args[last_index(args, Expected::Int).unwrap()]->Int_0)
    } else {
        match args[0] {
            ValueView::Int(v) => Ok(v),
            ValueView::Float(bits) => Ok(truncated(bits) as i32),
            _ => Err(unexpected(Expected::Int, args)),
        }
    }
}

/// An argument list as a float: the last `Float`; without one, the first
/// argument if it is an `Int`, converted to the nearest float.
pub open spec fn decode_float(args: Seq<ValueView>) -> Result<FloatBits, FaultView> {
    if args.len() == 0 {
        Err(FaultView::NoArguments)
    } else if last_index(args, Expected::Float) is Some {
        Ok(FloatBits(args[last_index(args, Expected::Float).unwrap()]->Float_0))
    } else {
        match args[0] {
            ValueView::Int(v) => Ok(FloatBits(int_as_float(v as int) as u32)),
            _ => Err(unexpected(Expected::Float, args)),
        }
    }
}

/// An argument list as text: the last `Str`.
pub open spec fn decode_text(args: Seq<ValueView>) -> Result<Seq<char>, FaultView> {
    if args.len() == 0 {
        Err(FaultView::NoArguments)
    } else if last_index(args, Expected::Text) is Some {
        Ok(args[last_index(args, Expected::Text).unwrap()]->Str_0)
    } else {
        Err(unexpected(Expected::Text, args))
    }
}

/// An argument list as a truth value: the first argument alone, a `Bool` as
/// it is and an `Int` as "not zero".
pub open spec fn decode_bool(args: Seq<ValueView>) -> Result<bool, FaultView> {
    if args.len() == 0 {
        Err(FaultView::NoArguments)
    } else {
        match args[0] {
            ValueView::Bool(b) => Ok(b),
            ValueView::Int(v) => Ok(v != 0),
            _ => Err(unexpected(Expected::Bool, args)),
        }
    }
}

/// Whether an error is the given decoding fault.
pub open spec fn is_fault(error: Error, fault: FaultView) -> bool {
    error matches Error::InvalidResponse(f) && f@ == fault
}

/// `last_index` names the greatest position that holds the requested kind.
pub proof fn lemma_last_index(args: Seq<ValueView>, kind: Expected)
    ensures
        match last_index(args, kind) {
            Some(i) => 0 <= i < args.len() && has_kind(args[i], kind) && forall|j: int|
                i < j < args.len() ==> !has_kind(#[trigger] args[j], kind),
            None => forall|j: int| 0 <= j < args.len() ==> !has_kind(#[trigger] args[j], kind),
        },
    decreases args.len(),
{
    if args.len() > 0 && !has_kind(args.last(), kind) {
        let front = args.drop_last();
        lemma_last_index(front, kind);
        assert forall|j: int| 0 <= j < front.len() implies front[j] == args[j] by {}
    }
}

/// A position that holds the requested kind, with none after it, is the one
/// that `last_index` names.
pub proof fn lemma_last_index_is(args: Seq<ValueView>, kind: Expected, i: int)
    requires
        0 <= i < args.len(),
        has_kind(args[i], kind),
        forall|j: int| i < j < args.len() ==> !has_kind(#[trigger] args[j], kind),
    ensures
        last_index(args, kind) == Some(i),
{
    lemma_last_index(args, kind);
}

/// Without any argument of the requested kind `last_index` names none.
pub proof fn lemma_last_index_none(args: Seq<ValueView>, kind: Expected)
    requires
        forall|j: int| 0 <= j < args.len() ==> !has_kind(#[trigger] args[j], kind),
    ensures
        last_index(args, kind) is None,
{
    lemma_last_index(args, kind);
}

/// A message with only bundles before it is the one whose arguments
/// `first_message_args` gives.
pub proof fn lemma_first_message_is(content: Seq<PacketView>, i: int)
    requires
        0 <= i < content.len(),
        content[i] is Message,
        forall|j: int| 0 <= j < i ==> !(#[trigger] content[j] is Message),
    ensures
        first_message_args(content) == Some(content[i]->Message_0.args),
    decreases i,
{
    if i > 0 {
        let rest = content.skip(1);
        assert(!(content[0] is Message));
        assert forall|j: int| 0 <= j < i - 1 implies !(#[trigger] rest[j] is Message) by {
            assert(rest[j] == content[j + 1]);
        }
        assert(rest[i - 1] == content[i]);
        lemma_first_message_is(rest, i - 1);
    }
}

/// A bundle with no message directly in it has no arguments to give.
pub proof fn lemma_first_message_none(content: Seq<PacketView>)
    requires
        forall|j: int| 0 <= j < content.len() ==> !(#[trigger] content[j] is Message),
    ensures
        first_message_args(content) is None,
    decreases content.len(),
{
    if content.len() > 0 {
        let rest = content.skip(1);
        assert(!(content[0] is Message));
        assert forall|j: int| 0 <= j < rest.len() implies !(#[trigger] rest[j] is Message) by {
            assert(rest[j] == content[j + 1]);
        }
        lemma_first_message_none(rest);
    }
}

/// A type that a reply packet can be decoded into.
pub trait FromOsc: Sized {
    /// Whether `result` is what decoding `packet` into this type gives.
    spec fn reply_of(packet: PacketView, result: Result<Self, Error>) -> bool;

    /// Decodes a reply packet. Every failure is an
    /// [`Error::InvalidResponse`].
    fn from_osc(packet: OscPacket) -> (result: Result<Self, Error>)
        ensures
            Self::reply_of(packet@, result),
    ;
}

fn is_of_kind(value: &OscValue, kind: Expected) -> (r: bool)
    ensures
        r == has_kind(value@, kind),
{
    match kind {
        Expected::Float => match value {
            OscValue::Float(_) => true,
            _ => false,
        },
        Expected::Int => match value {
            OscValue::Int(_) => true,
            _ => false,
        },
        Expected::Text => match value {
            OscValue::Str(_) => true,
            _ => false,
        },
        Expected::Bool => match value {
            OscValue::Bool(_) => true,
            _ => false,
        },
    }
}

fn find_last(args: &Vec<OscValue>, kind: Expected) -> (found: Option<usize>)
    ensures
        match found {
            Some(i) => last_index(values_view(args@), kind) == Some(i as int) && i < args.len()
                && has_kind(args@[i as int]@, kind),
            None => last_index(values_view(args@), kind) is None,
        },
{
    let mut i: usize = args.len();
    while i > 0
        invariant
            i <= args.len(),
            forall|j: int|
                i <= j < args.len() ==> !has_kind(#[trigger] values_view(args@)[j], kind),
        decreases i,
    {
        i = i - 1;
        if is_of_kind(&args[i], kind) {
            proof {
                lemma_last_index_is(values_view(args@), kind, i as int);
            }
            return Some(i);
        }
    }
    proof {
        lemma_last_index_none(values_view(args@), kind);
    }
    None
}

fn unexpected_first(mut args: Vec<OscValue>, kind: Expected) -> (error: Error)
    requires
        args.len() > 0,
    ensures
        is_fault(error, unexpected(kind, values_view(args@))),
{
    let found = args.swap_remove(0);
    Error::InvalidResponse(ResponseFault::Unexpected { expected: kind, found })
}

impl FromOsc for Vec<OscValue> {
    open spec fn reply_of(packet: PacketView, result: Result<Self, Error>) -> bool {
        match raw_args(packet) {
            Ok(args) => result matches Ok(list) && values_view(list@) == args,
            Err(fault) => result matches Err(e) && is_fault(e, fault),
        }
    }

    /// The raw argument list: the identity on a message, and the first
    /// directly nested message's arguments on a bundle.
    fn from_osc(packet: OscPacket) -> (result: Result<Self, Error>) {
        match packet {
            OscPacket::Message(message) => Ok(message.args),
            OscPacket::Bundle(bundle) => {
                proof {
                    lemma_bundle_view(bundle);
                }
                let ghost views = packets_view(bundle.content@);
                let mut content = bundle.content;
                let mut i: usize = 0;
                while i < content.len()
                    invariant
                        i <= content.len(),
                        packets_view(content@) == views,
                        packet@ matches PacketView::Bundle { content: nested, .. } && nested == views,
                        forall|j: int| 0 <= j < i ==> !(#[trigger] views[j] is Message),
                    decreases content.len() - i,
                {
                    let is_message = match &content[i] {
                        OscPacket::Message(_) => true,
                        OscPacket::Bundle(_) => false,
                    };
                    assert(is_message == (views[i as int] is Message));
                    if is_message {
                        proof {
                            lemma_first_message_is(views, i as int);
                        }
                        assert(views[i as int] == content@[i as int]@);
                        let nested = content.swap_remove(i);
                        return match nested {
                            OscPacket::Message(message) => Ok(message.args),
                            OscPacket::Bundle(_) => Err(
                                Error::InvalidResponse(ResponseFault::EmptyBundle),
                            ),
                        };
                    }
                    i = i + 1;
                }
                proof {
                    lemma_first_message_none(views);
                }
                Err(Error::InvalidResponse(ResponseFault::EmptyBundle))
            },
        }
    }
}

impl FromOsc for i32 {
    open spec fn reply_of(packet: PacketView, result: Result<Self, Error>) -> bool {
        match raw_args(packet) {
            Ok(args) => match decode_int(args) {
                Ok(v) => result == Ok::<i32, Error>(v),
                Err(fault) => result matches Err(e) && is_fault(e, fault),
            },
            Err(fault) => result matches Err(e) && is_fault(e, fault),
        }
    }

    /// A single integer: with several arguments the last `Int` wins, the
    /// leading ones being indices; otherwise the first argument is coerced.
    fn from_osc(packet: OscPacket) -> (result: Result<Self, Error>) {
        let args = match Vec::<OscValue>::from_osc(packet) {
            Ok(args) => args,
            Err(e) => {
                return Err(e);
            },
        };
        if args.len() == 0 {
            return Err(Error::InvalidResponse(ResponseFault::NoArguments));
        }
        if args.len() > 1 {
            if let Some(i) = find_last(&args, Expected::Int) {
                if let OscValue::Int(v) = &args[i] {
                    return Ok(*v);
                }
            }
        }
        let coerced = match &args[0] {
            OscValue::Int(v) => Some(*v),
            OscValue::Float(bits) => Some(float_bits_to_int(*bits)),
            _ => None,
        };
        match coerced {
            Some(v) => Ok(v),
            None => Err(unexpected_first(args, Expected::Int)),
        }
    }
}

impl FromOsc for FloatBits {
    open spec fn reply_of(packet: PacketView, result: Result<Self, Error>) -> bool {
        match raw_args(packet) {
            Ok(args) => match decode_float(args) {
                Ok(v) => result == Ok::<FloatBits, Error>(v),
                Err(fault) => result matches Err(e) && is_fault(e, fault),
            },
            Err(fault) => result matches Err(e) && is_fault(e, fault),
        }
    }

    /// A single float: the last `Float` wins; without one, a leading `Int`
    /// is converted.
    fn from_osc(packet: OscPacket) -> (result: Result<Self, Error>) {
        let args = match Vec::<OscValue>::from_osc(packet) {
            Ok(args) => args,
            Err(e) => {
                return Err(e);
            },
        };
        if args.len() == 0 {
            return Err(Error::InvalidResponse(ResponseFault::NoArguments));
        }
        if let Some(i) = find_last(&args, Expected::Float) {
            if let OscValue::Float(bits) = &args[i] {
                return Ok(FloatBits(*bits));
            }
        }
        let coerced = match &args[0] {
            OscValue::Int(v) => Some(int_to_float_bits(*v)),
            _ => None,
        };
        match coerced {
            Some(bits) => Ok(FloatBits(bits)),
            None => Err(unexpected_first(args, Expected::Float)),
        }
    }
}

impl FromOsc for String {
    open spec fn reply_of(packet: PacketView, result: Result<Self, Error>) -> bool {
        match raw_args(packet) {
            Ok(args) => match decode_text(args) {
                Ok(text) => result matches Ok(s) && s@ == text,
                Err(fault) => result matches Err(e) && is_fault(e, fault),
            },
            Err(fault) => result matches Err(e) && is_fault(e, fault),
        }
    }

    /// A single text: the last `Str` in the reply.
    fn from_osc(packet: OscPacket) -> (result: Result<Self, Error>) {
        let args = match Vec::<OscValue>::from_osc(packet) {
            Ok(args) => args,
            Err(e) => {
                return Err(e);
            },
        };
        if args.len() == 0 {
            return Err(Error::InvalidResponse(ResponseFault::NoArguments));
        }
        if let Some(i) = find_last(&args, Expected::Text) {
            if let OscValue::Str(text) = &args[i] {
                return Ok(text.clone());
            }
        }
        Err(unexpected_first(args, Expected::Text))
    }
}

impl FromOsc for bool {
    open spec fn reply_of(packet: PacketView, result: Result<Self, Error>) -> bool {
        match raw_args(packet) {
            Ok(args) => match decode_bool(args) {
                Ok(v) => result == Ok::<bool, Error>(v),
                Err(fault) => result matches Err(e) && is_fault(e, fault),
            },
            Err(fault) => result matches Err(e) && is_fault(e, fault),
        }
    }

    /// A truth value: only the first argument is consulted.
    fn from_osc(packet: OscPacket) -> (result: Result<Self, Error>) {
        let args = match Vec::<OscValue>::from_osc(packet) {
            Ok(args) => args,
            Err(e) => {
                return Err(e);
            },
        };
        if args.len() == 0 {
            return Err(Error::InvalidResponse(ResponseFault::NoArguments));
        }
        let coerced = match &args[0] {
            OscValue::Bool(b) => Some(*b),
            OscValue::Int(v) => Some(*v != 0),
            _ => None,
        };
        match coerced {
            Some(b) => Ok(b),
            None => Err(unexpected_first(args, Expected::Bool)),
        }
    }
}

/// The argument at `index` as an integer: an `Int` as it is, a `Float`
/// truncated toward zero.
pub open spec fn int_at(args: Seq<ValueView>, index: int) -> Option<i32> {
    if 0 <= index < args.len() {
        match args[index] {
            ValueView::Int(v) => Some(v),
            ValueView::Float(bits) => Some(truncated(bits) as i32),
            _ => None,
        }
    } else {
        None
    }
}

/// The argument at `index` as a float: a `Float` as it is, an `Int`
/// converted to the nearest float.
pub open spec fn float_at(args: Seq<ValueView>, index: int) -> Option<FloatBits> {
    if 0 <= index < args.len() {
        match args[index] {
            ValueView::Float(bits) => Some(FloatBits(bits)),
            ValueView::Int(v) => Some(FloatBits(int_as_float(v as int) as u32)),
            _ => None,
        }
    } else {
        None
    }
}

/// The argument at `index` as text, if it is a `Str`.
pub open spec fn text_at(args: Seq<ValueView>, index: int) -> Option<Seq<char>> {
    if 0 <= index < args.len() {
        match args[index] {
            ValueView::Str(text) => Some(text),
            _ => None,
        }
    } else {
        None
    }
}

/// The float at a position of an argument list, an integer being converted.
pub fn get_float(args: &[OscValue], index: usize) -> (r: Option<FloatBits>)
    ensures
        r == float_at(values_view(args@), index as int),
{
    if index >= args.len() {
        return None;
    }
    match &args[index] {
        OscValue::Float(bits) => Some(FloatBits(*bits)),
        OscValue::Int(v) => Some(FloatBits(int_to_float_bits(*v))),
        _ => None,
    }
}

/// The integer at a position of an argument list, a float being truncated.
pub fn get_int(args: &[OscValue], index: usize) -> (r: Option<i32>)
    ensures
        r == int_at(values_view(args@), index as int),
{
    if index >= args.len() {
        return None;
    }
    match &args[index] {
        OscValue::Int(v) => Some(*v),
        OscValue::Float(bits) => Some(float_bits_to_int(*bits)),
        _ => None,
    }
}

/// The text at a position of an argument list.
pub fn get_string(args: &[OscValue], index: usize) -> (r: Option<String>)
    ensures
        match text_at(values_view(args@), index as int) {
            Some(text) => r matches Some(s) && s@ == text,
            None => r is None,
        },
{
    if index >= args.len() {
        return None;
    }
    match &args[index] {
        OscValue::Str(text) => Some(text.clone()),
        _ => None,
    }
}

/// The truth value at a position of an argument list: whether the integer
/// there, coerced as by [`get_int`], is not zero.
pub fn get_bool(args: &[OscValue], index: usize) -> (r: Option<bool>)
    ensures
        r == match int_at(values_view(args@), index as int) {
            Some(v) => Some(v != 0),
            None => None,
        },
{
    match get_int(args, index) {
        Some(v) => Some(v != 0),
        None => None,
    }
}

} // verus!
