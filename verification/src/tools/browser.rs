//! Turning the browser's replies into text.

use crate::osc::value::{packets_view, values_view, OscPacket, OscValue, PacketView, ValueView};
use vstd::prelude::*;
use vstd::string::StringExecFns;

verus! {

/// The texts among a list of arguments, in order.
pub open spec fn texts_of(args: Seq<ValueView>) -> Seq<Seq<char>>
    decreases args.len(),
{
    if args.len() == 0 {
        Seq::empty()
    } else {
        match args.last() {
            ValueView::Str(text) => texts_of(args.drop_last()).push(text),
            _ => texts_of(args.drop_last()),
        }
    }
}

/// The texts among the arguments of the messages in a list of packets, in
/// order. Bundles contribute nothing.
pub open spec fn texts_in(packets: Seq<PacketView>) -> Seq<Seq<char>>
    decreases packets.len(),
{
    if packets.len() == 0 {
        Seq::empty()
    } else {
        match packets.last() {
            PacketView::Message(m) => texts_in(packets.drop_last()) + texts_of(m.args),
            _ => texts_in(packets.drop_last()),
        }
    }
}

/// The views of a sequence of strings, in order.
pub open spec fn strings_view(items: Seq<String>) -> Seq<Seq<char>> {
    Seq::new(items.len(), |i: int| items[i]@)
}

/// The items of a list, each but the first preceded by the separator.
pub open spec fn joined(items: Seq<Seq<char>>, separator: Seq<char>) -> Seq<char>
    decreases items.len(),
{
    if items.len() == 0 {
        Seq::empty()
    } else if items.len() == 1 {
        items[0]
    } else {
        joined(items.drop_last(), separator) + separator + items.last()
    }
}

/// The text that shows a list: the message for an empty list if there is
/// nothing to show, else the header and, below it, one item per line.
pub open spec fn list_text(items: Seq<Seq<char>>, header: Seq<char>, empty_msg: Seq<char>) -> Seq<
    char,
> {
    if items.len() == 0 {
        empty_msg
    } else {
        header + "\n"@ + joined(items, "\n"@)
    }
}

/// Extracts every string argument from the messages among the packets, in
/// the order in which they stand.
pub fn extract_strings_from_packets(packets: Vec<OscPacket>) -> (texts: Vec<String>)
    ensures
        strings_view(texts@) == texts_in(packets_view(packets@)),
{
    let mut texts: Vec<String> = Vec::new();
    let mut i: usize = 0;
    assert(packets_view(packets@).take(0) =~= Seq::empty());
    assert(strings_view(texts@) =~= Seq::empty());
    while i < packets.len()
        invariant
            i <= packets.len(),
            strings_view(texts@) == texts_in(packets_view(packets@).take(i as int)),
        decreases packets.len() - i,
    {
        let ghost views = packets_view(packets@);
        let ghost before = strings_view(texts@);
        assert(views.take(i + 1).drop_last() =~= views.take(i as int));
        assert(views.take(i + 1).last() == packets@[i as int]@);
        match &packets[i] {
            OscPacket::Message(message) => {
                let ghost args = values_view(message.args@);
                let mut j: usize = 0;
                assert(args.take(0) =~= Seq::empty());
                assert(before + texts_of(args.take(0)) =~= before);
                while j < message.args.len()
                    invariant
                        j <= message.args.len(),
                        args == values_view(message.args@),
                        strings_view(texts@) == before + texts_of(args.take(j as int)),
                    decreases message.args.len() - j,
                {
                    assert(args.take(j + 1).drop_last() =~= args.take(j as int));
                    assert(args.take(j + 1).last() == message.args@[j as int]@);
                    match &message.args[j] {
                        OscValue::Str(text) => {
                            let ghost old_texts = strings_view(texts@);
                            texts.push(text.clone());
                            assert(strings_view(texts@) =~= old_texts.push(text@));
                            assert(before + texts_of(args.take(j + 1)) =~= (before + texts_of(
                                args.take(j as int),
                            )).push(text@));
                        },
                        _ => {},
                    }
                    j = j + 1;
                }
                assert(args.take(message.args.len() as int) =~= args);
            },
            OscPacket::Bundle(_) => {},
        }
        i = i + 1;
    }
    assert(packets_view(packets@).take(packets.len() as int) =~= packets_view(packets@));
    texts
}

/// Formats a list of items for display: the header and one item per line,
/// or the message for an empty list.
pub fn format_list(items: &[String], header: &str, empty_msg: &str) -> (text: String)
    ensures
        text@ == list_text(strings_view(items@), header@, empty_msg@),
{
    if items.len() == 0 {
        return String::from_str(empty_msg);
    }
    let ghost lines = strings_view(items@);
    let mut text = String::from_str(header);
    text.append("\n");
    text.append(items[0].as_str());
    assert(lines.take(1) =~= seq![lines[0]]);
    assert(joined(lines.take(1), "\n"@) == lines[0]);
    let mut i: usize = 1;
    while i < items.len()
        invariant
            1 <= i <= items.len(),
            lines == strings_view(items@),
            text@ == header@ + "\n"@ + joined(lines.take(i as int), "\n"@),
        decreases items.len() - i,
    {
        assert(lines.take(i + 1).drop_last() =~= lines.take(i as int));
        assert(lines.take(i + 1).last() == items@[i as int]@);
        text.append("\n");
        text.append(items[i].as_str());
        assert(text@ =~= header@ + "\n"@ + joined(lines.take(i + 1), "\n"@));
        i = i + 1;
    }
    assert(lines.take(items.len() as int) =~= lines);
    text
}

} // verus!
