//! What evaluation means: the value of each operator on each pair of
//! values, and the outcomes that an expression may have.
//!
//! Where the floating-point unit decides, an outcome is stated relative to
//! the answers that the unit may give. Everything else is a function of the
//! values at hand.
use vstd::prelude::*;
use crate::ast::{Binary, Conditional, Expr, Literal, Unary};
use crate::errors::RuntimeErrorView;
use crate::interpreter::{Comparison, ObjView};
use crate::number;
use crate::token::{Token, TokenType};
use crate::unit::{Arithmetic, UnitModel};

verus! {

/// What evaluation gives, with texts as character sequences.
pub type Outcome = Result<ObjView, RuntimeErrorView>;

/// Every value but `false` and `nil` counts as true.
pub open spec fn truthy(value: ObjView) -> bool {
    match value {
        ObjView::Bool(b) => b,
        ObjView::Nil => false,
        _ => true,
    }
}

/// Whether two values are of one kind.
pub open spec fn same_kind(left: ObjView, right: ObjView) -> bool {
    match (left, right) {
        (ObjView::Bool(_), ObjView::Bool(_)) => true,
        (ObjView::Text(_), ObjView::Text(_)) => true,
        (ObjView::Number(_), ObjView::Number(_)) => true,
        (ObjView::Nil, ObjView::Nil) => true,
        _ => false,
    }
}

/// Whether two values are equal. Values of different kinds never are;
/// numbers are equal as IEEE-754 says.
pub open spec fn values_equal(left: ObjView, right: ObjView) -> bool {
    match (left, right) {
        (ObjView::Bool(a), ObjView::Bool(b)) => a == b,
        (ObjView::Text(a), ObjView::Text(b)) => a == b,
        (ObjView::Number(a), ObjView::Number(b)) => number::equals(a, b),
        (ObjView::Nil, ObjView::Nil) => true,
        _ => false,
    }
}

/// What an ordering operator says of two numbers.
pub open spec fn in_order(operator: Comparison, a: u64, b: u64) -> bool {
    match operator {
        Comparison::Less => number::precedes(a, b),
        Comparison::LessEqual => number::precedes_or_equals(a, b),
        Comparison::Greater => number::precedes(b, a),
        Comparison::GreaterEqual => number::precedes_or_equals(b, a),
    }
}

/// The name of a value's kind, as error messages give it.
pub open spec fn kind_text(value: ObjView) -> Seq<char> {
    match value {
        ObjView::Bool(_) => "Bool"@,
        ObjView::Text(_) => "String"@,
        ObjView::Number(_) => "Number"@,
        ObjView::Nil => "Nil"@,
    }
}

/// The message for a prefix operator that was given an operand of the wrong kind.
pub open spec fn operand_message(expected: Seq<char>, lexeme: Seq<char>, operand: ObjView) -> Seq<
    char,
> {
    "Expected "@ + expected + " for "@ + lexeme + " given "@ + kind_text(operand)
}

/// The message for an infix operator that was given operands of the wrong kinds.
pub open spec fn operands_message(
    expected: Seq<char>,
    lexeme: Seq<char>,
    left: ObjView,
    right: ObjView,
) -> Seq<char> {
    operand_message(expected, lexeme, left) + " "@ + kind_text(right)
}

/// The error that a token reports with a message: it carries the token's
/// lexeme and line.
pub open spec fn error_at(token: Token, message: Seq<char>) -> RuntimeErrorView {
    RuntimeErrorView { lexeme: token.lexeme@, message, line: token.line }
}

/// The error of an infix operator whose operands are not the kinds it expects.
pub open spec fn operands_error(
    expected: Seq<char>,
    token: Token,
    left: ObjView,
    right: ObjView,
) -> RuntimeErrorView {
    error_at(token, operands_message(expected, token.lexeme@, left, right))
}

/// Whether `text` is how a value may be written out: a boolean and `nil` as
/// their words, a text between double quotes, a number as the unit writes it.
pub open spec fn value_written(value: ObjView, unit: UnitModel, text: Seq<char>) -> bool {
    match value {
        ObjView::Bool(b) => text == if b {
            "true"@
        } else {
            "false"@
        },
        ObjView::Nil => text == "nil"@,
        ObjView::Text(s) => text == "\""@ + s + "\""@,
        ObjView::Number(bits) => (unit.writes)(bits, text),
    }
}

/// The value of a literal whose text the unit has read as `parsed`: the
/// number, where there is one; else a boolean or `nil` for their exact
/// words; else the text itself.
pub open spec fn classify(text: Seq<char>, parsed: Option<u64>) -> ObjView {
    match parsed {
        Some(bits) => ObjView::Number(bits),
        None => if text == "true"@ {
            ObjView::Bool(true)
        } else if text == "false"@ {
            ObjView::Bool(false)
        } else if text == "nil"@ {
            ObjView::Nil
        } else {
            ObjView::Text(text)
        },
    }
}

/// What a prefix operator gives for a value: `-` negates a number, `!` turns
/// any value into the opposite of its truth; every other token is an error.
pub open spec fn unary_outcome(operator: Token, operand: ObjView) -> Outcome {
    match operator.token_type {
        TokenType::Minus => match operand {
            ObjView::Number(bits) => Ok(ObjView::Number(number::negated(bits))),
            _ => Err(error_at(operator, operand_message("Number"@, operator.lexeme@, operand))),
        },
        TokenType::Bang => Ok(ObjView::Bool(!truthy(operand))),
        _ => Err(error_at(operator, "Invalid token for Unary"@)),
    }
}

/// What an ordering operator gives for two values: for two numbers whether
/// they stand in that order, for anything else an error.
pub open spec fn comparison_outcome(
    left: ObjView,
    right: ObjView,
    operator: Comparison,
    token: Token,
) -> Outcome {
    match (left, right) {
        (ObjView::Number(a), ObjView::Number(b)) => Ok(ObjView::Bool(in_order(operator, a, b))),
        _ => Err(operands_error("Numbers"@, token, left, right)),
    }
}

/// Whether `out` is what an arithmetic operator may give for two values:
/// for two numbers the number that the unit computes, for anything else an
/// error.
pub open spec fn arithmetic_outcome(
    left: ObjView,
    right: ObjView,
    operator: Arithmetic,
    token: Token,
    unit: UnitModel,
    out: Outcome,
) -> bool {
    match (left, right) {
        (ObjView::Number(a), ObjView::Number(b)) => {
            &&& out matches Ok(ObjView::Number(result))
            &&& (unit.computes)(operator, a, b, result)
        },
        _ => out == Err::<ObjView, RuntimeErrorView>(operands_error("Numbers"@, token, left, right)),
    }
}

/// Whether `joined` is `text` followed by `bits` as the unit may write it.
pub open spec fn text_then_number(text: Seq<char>, bits: u64, unit: UnitModel, joined: Seq<char>) -> bool {
    exists|written: Seq<char>| #[trigger] (unit.writes)(bits, written) && joined == text + written
}

/// Whether `joined` is `bits` as the unit may write it, followed by `text`.
pub open spec fn number_then_text(bits: u64, text: Seq<char>, unit: UnitModel, joined: Seq<char>) -> bool {
    exists|written: Seq<char>| #[trigger] (unit.writes)(bits, written) && joined == written + text
}

/// Whether `out` is what `++` may give for two values: two texts joined, or
/// a text joined with a number as the unit writes it, in the order of the
/// operands; for every other pair an error.
pub open spec fn concatenation_outcome(
    left: ObjView,
    right: ObjView,
    token: Token,
    unit: UnitModel,
    out: Outcome,
) -> bool {
    match (left, right) {
        (ObjView::Text(a), ObjView::Text(b)) => out == Ok::<ObjView, RuntimeErrorView>(
            ObjView::Text(a + b),
        ),
        (ObjView::Text(a), ObjView::Number(b)) => {
            &&& out matches Ok(ObjView::Text(joined))
            &&& text_then_number(a, b, unit, joined)
        },
        (ObjView::Number(a), ObjView::Text(b)) => {
            &&& out matches Ok(ObjView::Text(joined))
            &&& number_then_text(a, b, unit, joined)
        },
        _ => out == Err::<ObjView, RuntimeErrorView>(
            operands_error("a String and a String or Number"@, token, left, right),
        ),
    }
}

/// Whether `out` is what an infix operator may give for two values. The
/// token picks the operator; one that is no infix operator is an error.
pub open spec fn binary_outcome(
    operator: Token,
    left: ObjView,
    right: ObjView,
    unit: UnitModel,
    out: Outcome,
) -> bool {
    match operator.token_type {
        TokenType::Minus => arithmetic_outcome(
            left,
            right,
            Arithmetic::Subtract,
            operator,
            unit,
            out,
        ),
        TokenType::Plus => arithmetic_outcome(left, right, Arithmetic::Add, operator, unit, out),
        TokenType::Star => arithmetic_outcome(
            left,
            right,
            Arithmetic::Multiply,
            operator,
            unit,
            out,
        ),
        TokenType::Slash => arithmetic_outcome(
            left,
            right,
            Arithmetic::Divide,
            operator,
            unit,
            out,
        ),
        TokenType::PlusPlus => concatenation_outcome(left, right, operator, unit, out),
        TokenType::EqualEqual => out == Ok::<ObjView, RuntimeErrorView>(
            ObjView::Bool(values_equal(left, right)),
        ),
        TokenType::BangEqual => out == Ok::<ObjView, RuntimeErrorView>(
            ObjView::Bool(!values_equal(left, right)),
        ),
        TokenType::Less => out == comparison_outcome(left, right, Comparison::Less, operator),
        TokenType::LessEqual => out == comparison_outcome(
            left,
            right,
            Comparison::LessEqual,
            operator,
        ),
        TokenType::Greater => out == comparison_outcome(
            left,
            right,
            Comparison::Greater,
            operator,
        ),
        TokenType::GreaterEqual => out == comparison_outcome(
            left,
            right,
            Comparison::GreaterEqual,
            operator,
        ),
        _ => out == Err::<ObjView, RuntimeErrorView>(
            error_at(operator, "Expected expression, given "@ + operator.lexeme@),
        ),
    }
}

/// The error for a variable: this evaluator keeps no bindings.
pub open spec fn variable_error(name: Token) -> RuntimeErrorView {
    error_at(name, "Cannot evaluate a variable without an environment"@)
}

/// The error for an assignment: this evaluator keeps no bindings.
pub open spec fn assignment_error(name: Token) -> RuntimeErrorView {
    error_at(name, "Cannot evaluate an assignment without an environment"@)
}

/// The error for a conditional, which this evaluator leaves to its caller.
pub open spec fn conditional_error(conditional: Conditional) -> RuntimeErrorView {
    RuntimeErrorView {
        lexeme: "?"@,
        message: "Cannot evaluate a conditional without an environment"@,
        line: conditional.line_num,
    }
}

/// Whether `out` is what a literal may evaluate to: the value of its text,
/// classified by what the unit reads the text as.
pub open spec fn literal_evaluates(literal: Literal, unit: UnitModel, out: Outcome) -> bool {
    exists|parsed: Option<u64>| #[trigger]
        (unit.reads)(literal.val@, parsed) && out == Ok::<ObjView, RuntimeErrorView>(
            classify(literal.val@, parsed),
        )
}

/// The outcome of a prefix operator node once its operand has given
/// `operand`: an error of the operand is the node's error.
pub open spec fn after_operand(operator: Token, operand: Outcome) -> Outcome {
    match operand {
        Ok(value) => unary_outcome(operator, value),
        Err(error) => Err(error),
    }
}

/// Whether `out` is what an infix operator node may give once its operands
/// have given `left` and `right`: the first error among them, or else what
/// the operator makes of the two values. The right operand counts only
/// where the left one gave a value.
pub open spec fn after_operands(
    operator: Token,
    left: Outcome,
    right: Outcome,
    unit: UnitModel,
    out: Outcome,
) -> bool {
    match (left, right) {
        (Err(error), _) => out == Err::<ObjView, RuntimeErrorView>(error),
        (Ok(_), Err(error)) => out == Err::<ObjView, RuntimeErrorView>(error),
        (Ok(l), Ok(r)) => binary_outcome(operator, l, r, unit, out),
    }
}

/// Whether `out` is what an expression may evaluate to. Operands are
/// evaluated before their operator is applied, the left one first, and the
/// first error ends the evaluation. A grouping stands for the expression
/// inside it. Variables, assignments and conditionals have no rule here and
/// give their error.
pub open spec fn evaluates(expr: Expr, unit: UnitModel, out: Outcome) -> bool
    decreases expr, 0nat,
{
    match expr {
        Expr::L(literal) => literal_evaluates(literal, unit, out),
        Expr::U(unary) => unary_evaluates(*unary, unit, out),
        Expr::B(binary) => binary_evaluates(*binary, unit, out),
        Expr::G(grouping) => evaluates(grouping.expr, unit, out),
        Expr::C(conditional) => out == Err::<ObjView, RuntimeErrorView>(
            conditional_error(*conditional),
        ),
        Expr::V(name) => out == Err::<ObjView, RuntimeErrorView>(variable_error(name)),
        Expr::A(name, _) => out == Err::<ObjView, RuntimeErrorView>(assignment_error(name)),
    }
}

/// Whether `out` is what a prefix operator node may evaluate to.
pub open spec fn unary_evaluates(unary: Unary, unit: UnitModel, out: Outcome) -> bool
    decreases unary, 0nat,
{
    exists|operand: Outcome|
        evaluates(unary.expr, unit, operand) && out == #[trigger] after_operand(
            unary.operator,
            operand,
        )
}

/// Whether `out` is what an infix operator node may evaluate to.
pub open spec fn binary_evaluates(binary: Binary, unit: UnitModel, out: Outcome) -> bool
    decreases binary, 0nat,
{
    exists|left: Outcome, right: Outcome|
        {
            &&& evaluates(binary.left, unit, left)
            &&& left is Ok ==> evaluates(binary.right, unit, right)
            &&& #[trigger] after_operands(binary.operator, left, right, unit, out)
        }
}

/// How deep evaluation descends into an expression: one level for each
/// operator or grouping on the longest way down, and one for the node at
/// its end. Evaluation does not descend into a variable, an assignment or a
/// conditional, so each of them ends the way.
pub open spec fn depth(expr: Expr) -> nat
    decreases expr,
{
    match expr {
        Expr::U(unary) => 1 + depth(unary.expr),
        Expr::B(binary) => 1 + if depth(binary.left) >= depth(binary.right) {
            depth(binary.left)
        } else {
            depth(binary.right)
        },
        Expr::G(grouping) => 1 + depth(grouping.expr),
        _ => 1,
    }
}

} // verus!
