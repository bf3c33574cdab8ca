//! Double dispatch over the nodes of an expression: a node accepts an
//! interpreter and hands itself to the method for its kind.
use vstd::prelude::*;
use crate::ast::{Binary, Grouping, Literal, Unary};
use crate::errors::RuntimeError;
use crate::interpreter::{outcome, visit_binary, visit_grouping, visit_literal, visit_unary, Obj};
use crate::semantics::{binary_evaluates, evaluates, literal_evaluates, unary_evaluates};
use crate::unit::{Arithmetic, FloatUnit};

verus! {

/// One method for each kind of node that has a value. What a method may
/// give for a node is the interpreter's to say.
pub trait Interpreter<T> {
    /// Whether the interpreter can be asked at all.
    spec fn can_visit(&self) -> bool;

    /// Whether `result` is what the interpreter may give for an infix operator node.
    spec fn binary_result(&self, binary: Binary, result: Result<T, RuntimeError>) -> bool;

    /// Whether `result` is what the interpreter may give for a prefix operator node.
    spec fn unary_result(&self, unary: Unary, result: Result<T, RuntimeError>) -> bool;

    /// Whether `result` is what the interpreter may give for a literal.
    spec fn literal_result(&self, literal: Literal, result: Result<T, RuntimeError>) -> bool;

    /// Whether `result` is what the interpreter may give for a grouping.
    spec fn grouping_result(&self, grouping: Grouping, result: Result<T, RuntimeError>) -> bool;

    fn visit_binary(&self, binary: &Binary) -> (result: Result<T, RuntimeError>)
        requires
            self.can_visit(),
        ensures
            self.binary_result(*binary, result),
    ;

    fn visit_unary(&self, unary: &Unary) -> (result: Result<T, RuntimeError>)
        requires
            self.can_visit(),
        ensures
            self.unary_result(*unary, result),
    ;

    fn visit_literal(&self, literal: &Literal) -> (result: Result<T, RuntimeError>)
        requires
            self.can_visit(),
        ensures
            self.literal_result(*literal, result),
    ;

    fn visit_grouping(&self, grouping: &Grouping) -> (result: Result<T, RuntimeError>)
        requires
            self.can_visit(),
        ensures
            self.grouping_result(*grouping, result),
    ;
}

/// A node that hands itself to the method of an interpreter for its kind.
/// Each kind of node says which method that is.
pub trait Visitor<E> {
    fn accept<T, V: Interpreter<T>>(&self, visitor: &V) -> (result: Result<T, E>)
        requires
            visitor.can_visit(),
    ;
}

impl Visitor<RuntimeError> for Unary {
    fn accept<T, V: Interpreter<T>>(&self, visitor: &V) -> (result: Result<T, RuntimeError>)
        ensures
            visitor.unary_result(*self, result),
    {
        visitor.visit_unary(self)
    }
}

impl Visitor<RuntimeError> for Literal {
    fn accept<T, V: Interpreter<T>>(&self, visitor: &V) -> (result: Result<T, RuntimeError>)
        ensures
            visitor.literal_result(*self, result),
    {
        visitor.visit_literal(self)
    }
}

impl Visitor<RuntimeError> for Binary {
    fn accept<T, V: Interpreter<T>>(&self, visitor: &V) -> (result: Result<T, RuntimeError>)
        ensures
            visitor.binary_result(*self, result),
    {
        visitor.visit_binary(self)
    }
}

impl Visitor<RuntimeError> for Grouping {
    fn accept<T, V: Interpreter<T>>(&self, visitor: &V) -> (result: Result<T, RuntimeError>)
        ensures
            visitor.grouping_result(*self, result),
    {
        visitor.visit_grouping(self)
    }
}

/// A floating-point unit interprets nodes to runtime values: each method
/// gives what evaluation of the node gives with that unit.
impl<P, A, R> Interpreter<Obj> for FloatUnit<P, A, R> where
    P: Fn(&str) -> Option<u64>,
    A: Fn(Arithmetic, u64, u64) -> u64,
    R: Fn(u64) -> String,
 {
    open spec fn can_visit(&self) -> bool {
        self.ready()
    }

    open spec fn binary_result(&self, binary: Binary, result: Result<Obj, RuntimeError>) -> bool {
        binary_evaluates(binary, self.model(), outcome(result))
    }

    open spec fn unary_result(&self, unary: Unary, result: Result<Obj, RuntimeError>) -> bool {
        unary_evaluates(unary, self.model(), outcome(result))
    }

    open spec fn literal_result(&self, literal: Literal, result: Result<Obj, RuntimeError>) -> bool {
        literal_evaluates(literal, self.model(), outcome(result))
    }

    open spec fn grouping_result(
        &self,
        grouping: Grouping,
        result: Result<Obj, RuntimeError>,
    ) -> bool {
        evaluates(grouping.expr, self.model(), outcome(result))
    }

    fn visit_binary(&self, binary: &Binary) -> (result: Result<Obj, RuntimeError>) {
        visit_binary(binary, self)
    }

    fn visit_unary(&self, unary: &Unary) -> (result: Result<Obj, RuntimeError>) {
        visit_unary(unary, self)
    }

    fn visit_literal(&self, literal: &Literal) -> (result: Result<Obj, RuntimeError>) {
        visit_literal(literal, self)
    }

    fn visit_grouping(&self, grouping: &Grouping) -> (result: Result<Obj, RuntimeError>) {
        visit_grouping(grouping, self)
    }
}

} // verus!
