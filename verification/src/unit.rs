//! The floating-point unit that the evaluator asks for what it cannot
//! compute on bit patterns.
use vstd::prelude::*;

verus! {

/// The four arithmetic operators.
#[derive(Clone, Copy, Debug, PartialEq, Eq, Structural)]
pub enum Arithmetic {
    Subtract,
    Add,
    Multiply,
    Divide,
}

/// The answers that a unit may give, as three relations on plain values.
pub struct UnitModel {
    /// Whether the unit may read a text as a number, or as none.
    pub reads: spec_fn(Seq<char>, Option<u64>) -> bool,
    /// Whether the unit may give a result for an operator and two numbers.
    pub computes: spec_fn(Arithmetic, u64, u64, u64) -> bool,
    /// Whether the unit may write a number as a text.
    pub writes: spec_fn(u64, Seq<char>) -> bool,
}

impl UnitModel {
    /// Whether the unit has a reading for `text`, be it a number or none.
    pub open spec fn can_read(self, text: Seq<char>) -> bool {
        exists|parsed: Option<u64>| #[trigger] (self.reads)(text, parsed)
    }

    /// Whether the unit has a result for `a operator b`.
    pub open spec fn can_compute(self, operator: Arithmetic, a: u64, b: u64) -> bool {
        exists|result: u64| #[trigger] (self.computes)(operator, a, b, result)
    }

    /// Whether the unit has a text for the number `bits`.
    pub open spec fn can_write(self, bits: u64) -> bool {
        exists|text: Seq<char>| #[trigger] (self.writes)(bits, text)
    }

    /// Whether each question has an answer.
    pub open spec fn total(self) -> bool {
        &&& forall|text: Seq<char>| #[trigger] self.can_read(text)
        &&& forall|operator: Arithmetic, a: u64, b: u64| #[trigger] self.can_compute(operator, a, b)
        &&& forall|bits: u64| #[trigger] self.can_write(bits)
    }

    /// Whether each question has one answer only.
    pub open spec fn deterministic(self) -> bool {
        &&& forall|text: Seq<char>, first: Option<u64>, second: Option<u64>|
            #![trigger (self.reads)(text, first), (self.reads)(text, second)]
            (self.reads)(text, first) && (self.reads)(text, second) ==> first == second
        &&& forall|operator: Arithmetic, a: u64, b: u64, first: u64, second: u64|
            #![trigger (self.computes)(operator, a, b, first), (self.computes)(operator, a, b, second)]
            (self.computes)(operator, a, b, first) && (self.computes)(operator, a, b, second)
                ==> first == second
        &&& forall|bits: u64, first: Seq<char>, second: Seq<char>|
            #![trigger (self.writes)(bits, first), (self.writes)(bits, second)]
            (self.writes)(bits, first) && (self.writes)(bits, second) ==> first == second
    }
}

/// A floating-point unit: three closures that decide what stays open in the
/// evaluator. Numbers go in and come out as bit patterns.
pub struct FloatUnit<P, A, R> {
    /// Reads a number from text, or gives `None` where the text is no number.
    pub parse: P,
    /// Applies an arithmetic operator to two numbers.
    pub arith: A,
    /// Writes a number in decimal.
    pub render: R,
}

impl<P, A, R> FloatUnit<P, A, R> where
    P: Fn(&str) -> Option<u64>,
    A: Fn(Arithmetic, u64, u64) -> u64,
    R: Fn(u64) -> String,
 {
    /// Whether the unit takes every question: none of its closures asks
    /// anything of its arguments.
    pub open spec fn ready(&self) -> bool {
        &&& forall|text: &str| #[trigger] self.parse.requires((text,))
        &&& forall|operator: Arithmetic, a: u64, b: u64| #[trigger]
            self.arith.requires((operator, a, b))
        &&& forall|bits: u64| #[trigger] self.render.requires((bits,))
    }

    /// Whether the unit may read the characters `text` as `parsed`.
    pub open spec fn reads(&self, text: Seq<char>, parsed: Option<u64>) -> bool {
        exists|given: &str| given@ == text && #[trigger] self.parse.ensures((given,), parsed)
    }

    /// Whether the unit may write the number `bits` as the characters `text`.
    pub open spec fn writes(&self, bits: u64, text: Seq<char>) -> bool {
        exists|written: String| #[trigger] self.render.ensures((bits,), written) && written@ == text
    }

    /// The answers that the unit may give: whatever its closures ensure.
    pub open spec fn model(&self) -> UnitModel {
        UnitModel {
            reads: |text: Seq<char>, parsed: Option<u64>| self.reads(text, parsed),
            computes: |operator: Arithmetic, a: u64, b: u64, result: u64|
                self.arith.ensures((operator, a, b), result),
            writes: |bits: u64, text: Seq<char>| self.writes(bits, text),
        }
    }

    pub fn new(parse: P, arith: A, render: R) -> (unit: Self)
        ensures
            unit == (FloatUnit { parse, arith, render }),
    {
        FloatUnit { parse, arith, render }
    }

    /// Asks the unit to read `text`.
    pub fn read(&self, text: &str) -> (parsed: Option<u64>)
        requires
            self.ready(),
        ensures
            (self.model().reads)(text@, parsed),
    {
        let parsed = (self.parse)(text);
        assert(self.parse.ensures((text,), parsed));
        parsed
    }

    /// Asks the unit for `a operator b`.
    pub fn compute(&self, operator: Arithmetic, a: u64, b: u64) -> (result: u64)
        requires
            self.ready(),
        ensures
            (self.model().computes)(operator, a, b, result),
    {
        (self.arith)(operator, a, b)
    }

    /// Asks the unit to write the number `bits`.
    pub fn write(&self, bits: u64) -> (written: String)
        requires
            self.ready(),
        ensures
            (self.model().writes)(bits, written@),
    {
        let written = (self.render)(bits);
        assert(self.render.ensures((bits,), written));
        written
    }
}

} // verus!
