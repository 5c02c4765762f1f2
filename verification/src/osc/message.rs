//! Building the argument list of an outgoing message.

use crate::osc::value::{values_view, OscValue, ValueView};
use vstd::prelude::*;
use vstd::string::StringExecFns;

verus! {

/// Collects typed arguments in the order in which they are added.
pub struct OscMessageBuilder {
    args: Vec<OscValue>,
}

impl View for OscMessageBuilder {
    type V = Seq<ValueView>;

    /// The arguments added so far.
    closed spec fn view(&self) -> Seq<ValueView> {
        values_view(self.args@)
    }
}

impl OscMessageBuilder {
    /// A builder without arguments.
    pub fn new() -> (builder: Self)
        ensures
            builder@ == Seq::<ValueView>::empty(),
    {
        let builder = Self { args: Vec::new() };
        assert(builder@ =~= Seq::<ValueView>::empty());
        builder
    }

    fn with(self, value: OscValue) -> (builder: Self)
        ensures
            builder@ == self@.push(value@),
    {
        let mut args = self.args;
        args.push(value);
        let builder = Self { args };
        assert(builder@ =~= self@.push(value@));
        builder
    }

    /// Adds an integer argument.
    pub fn integer(self, value: i32) -> (builder: Self)
        ensures
            builder@ == self@.push(ValueView::Int(value)),
    {
        self.with(OscValue::Int(value))
    }

    /// Adds a float argument, given as its bit pattern.
    pub fn float(self, bits: u32) -> (builder: Self)
        ensures
            builder@ == self@.push(ValueView::Float(bits)),
    {
        self.with(OscValue::Float(bits))
    }

    /// Adds a string argument.
    pub fn string(self, value: &str) -> (builder: Self)
        ensures
            builder@ == self@.push(ValueView::Str(value@)),
    {
        self.with(OscValue::Str(String::from_str(value)))
    }

    /// Adds a boolean argument, as the integer 1 or 0.
    pub fn bool(self, value: bool) -> (builder: Self)
        ensures
            builder@ == self@.push(
                ValueView::Int(
                    if value {
                        1i32
                    } else {
                        0i32
                    },
                ),
            ),
    {
        self.with(
            OscValue::Int(
                if value {
                    1
                } else {
                    0
                },
            ),
        )
    }

    /// The argument list, in the order of the additions.
    pub fn build(self) -> (args: Vec<OscValue>)
        ensures
            values_view(args@) == self@,
    {
        self.args
    }
}

impl Default for OscMessageBuilder {
    fn default() -> (builder: Self)
        ensures
            builder@ == Seq::<ValueView>::empty(),
    {
        Self::new()
    }
}

} // verus!
