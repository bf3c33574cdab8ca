//! What holds of evaluation, whatever the expression and the values.
use vstd::prelude::*;
use crate::ast::{Expr, Grouping, Literal};
use crate::errors::RuntimeErrorView;
use crate::interpreter::{Comparison, ObjView};
use crate::number;
use crate::semantics::{
    after_operand,
    after_operands,
    arithmetic_outcome,
    assignment_error,
    binary_evaluates,
    binary_outcome,
    classify,
    comparison_outcome,
    conditional_error,
    error_at,
    evaluates,
    literal_evaluates,
    operands_error,
    same_kind,
    truthy,
    unary_evaluates,
    unary_outcome,
    values_equal,
    variable_error,
    Outcome,
};
use crate::token::{Token, TokenType};
use crate::unit::{Arithmetic, UnitModel};

verus! {

/// A literal evaluates to the number that the unit reads its text as; where
/// the unit reads none, to a boolean for `true` and `false`, to `nil` for
/// `nil`, and to the text itself for every other text. It never fails.
pub proof fn lemma_literal_value(
    literal: Literal,
    unit: UnitModel,
    parsed: Option<u64>,
    out: Outcome,
)
    requires
        evaluates(Expr::L(literal), unit, out),
        forall|other: Option<u64>| #[trigger] (unit.reads)(literal.val@, other) ==> other == parsed,
    ensures
        out == Ok::<ObjView, RuntimeErrorView>(classify(literal.val@, parsed)),
        parsed matches Some(bits) ==> out == Ok::<ObjView, RuntimeErrorView>(ObjView::Number(bits)),
        parsed is None && literal.val@ == "true"@ ==> out == Ok::<ObjView, RuntimeErrorView>(
            ObjView::Bool(true),
        ),
        parsed is None && literal.val@ == "false"@ ==> out == Ok::<ObjView, RuntimeErrorView>(
            ObjView::Bool(false),
        ),
        parsed is None && literal.val@ == "nil"@ ==> out == Ok::<ObjView, RuntimeErrorView>(
            ObjView::Nil,
        ),
        parsed is None && literal.val@ != "true"@ && literal.val@ != "false"@ && literal.val@
            != "nil"@ ==> out == Ok::<ObjView, RuntimeErrorView>(ObjView::Text(literal.val@)),
{
    reveal_strlit("true");
    reveal_strlit("false");
    reveal_strlit("nil");
    assert("true"@.len() == 4 && "false"@.len() == 5 && "nil"@.len() == 3);
}

/// Truthiness is total: `false` and `nil` are false, every other value is
/// true, the number zero and the empty text among them.
pub proof fn lemma_truthiness(value: ObjView)
    ensures
        !truthy(ObjView::Bool(false)),
        !truthy(ObjView::Nil),
        value != ObjView::Bool(false) && value != ObjView::Nil ==> truthy(value),
        truthy(ObjView::Number(0)),
        truthy(ObjView::Text(Seq::empty())),
{
}

/// Equality holds of every value and itself, but for a NaN; it does not
/// depend on the order of its operands; and values of different kinds are
/// never equal.
pub proof fn lemma_equality(left: ObjView, right: ObjView)
    ensures
        !(left matches ObjView::Number(bits) && number::is_nan(bits)) ==> values_equal(left, left),
        left matches ObjView::Number(bits) && number::is_nan(bits) ==> !values_equal(left, left),
        values_equal(left, right) == values_equal(right, left),
        !same_kind(left, right) ==> !values_equal(left, right),
{
}

/// Arithmetic is closed on numbers and refuses everything else: two numbers
/// give a number, division by zero included; any other pair of operands
/// gives an error.
pub proof fn lemma_arithmetic_on_numbers_only(
    left: ObjView,
    right: ObjView,
    operator: Arithmetic,
    token: Token,
    unit: UnitModel,
    out: Outcome,
)
    requires
        arithmetic_outcome(left, right, operator, token, unit, out),
    ensures
        left is Number && right is Number ==> out is Ok && out->Ok_0 is Number,
        !(left is Number && right is Number) ==> out is Err,
{
}

/// The ordering operators answer for two numbers and refuse everything else.
pub proof fn lemma_comparison_on_numbers_only(
    left: ObjView,
    right: ObjView,
    operator: Comparison,
    token: Token,
)
    ensures
        left is Number && right is Number ==> comparison_outcome(left, right, operator, token) is Ok
            && comparison_outcome(left, right, operator, token)->Ok_0 is Bool,
        !(left is Number && right is Number) ==> comparison_outcome(
            left,
            right,
            operator,
            token,
        ) is Err,
{
}

/// An error of a prefix operator carries the lexeme and the line of its
/// token. Only `-` on a value that is no number and a token that is no
/// prefix operator give one.
pub proof fn lemma_unary_error_carries_the_token(operator: Token, operand: ObjView)
    ensures
        unary_outcome(operator, operand) matches Err(error) ==> error.lexeme == operator.lexeme@
            && error.line == operator.line,
        unary_outcome(operator, operand) is Err <==> (operator.token_type == TokenType::Minus
            && !(operand is Number)) || (operator.token_type != TokenType::Minus
            && operator.token_type != TokenType::Bang),
{
}

/// An error of an infix operator carries the lexeme and the line of its token.
pub proof fn lemma_binary_error_carries_the_token(
    operator: Token,
    left: ObjView,
    right: ObjView,
    unit: UnitModel,
    out: Outcome,
)
    requires
        binary_outcome(operator, left, right, unit, out),
    ensures
        out matches Err(error) ==> error.lexeme == operator.lexeme@ && error.line == operator.line,
{
}

/// The equality operators answer for every pair of values: they never fail,
/// and `!=` says the opposite of `==`.
pub proof fn lemma_equality_is_total(
    operator: Token,
    left: ObjView,
    right: ObjView,
    unit: UnitModel,
    out: Outcome,
)
    requires
        operator.token_type == TokenType::EqualEqual || operator.token_type
            == TokenType::BangEqual,
        binary_outcome(operator, left, right, unit, out),
    ensures
        out == Ok::<ObjView, RuntimeErrorView>(
            ObjView::Bool(
                values_equal(left, right) == (operator.token_type == TokenType::EqualEqual),
            ),
        ),
{
}

/// A grouping is transparent: it evaluates to whatever the expression
/// inside it evaluates to.
pub proof fn lemma_grouping_is_transparent(expr: Expr, unit: UnitModel, out: Outcome)
    ensures
        evaluates(Expr::G(Box::new(Grouping { expr })), unit, out) == evaluates(expr, unit, out),
{
}

/// With a unit that answers each question in one way only, an infix
/// operator gives one outcome for two values.
pub proof fn lemma_operator_is_a_function(
    operator: Token,
    left: ObjView,
    right: ObjView,
    unit: UnitModel,
    first: Outcome,
    second: Outcome,
)
    requires
        unit.deterministic(),
        binary_outcome(operator, left, right, unit, first),
        binary_outcome(operator, left, right, unit, second),
    ensures
        first == second,
{
    if operator.token_type == TokenType::PlusPlus {
        match (left, right) {
            (ObjView::Text(a), ObjView::Number(b)) => {
                let one = choose|written: Seq<char>| #[trigger]
                    (unit.writes)(b, written) && first->Ok_0->Text_0 == a + written;
                let other = choose|written: Seq<char>| #[trigger]
                    (unit.writes)(b, written) && second->Ok_0->Text_0 == a + written;
                assert(one == other);
            },
            (ObjView::Number(a), ObjView::Text(b)) => {
                let one = choose|written: Seq<char>| #[trigger]
                    (unit.writes)(a, written) && first->Ok_0->Text_0 == written + b;
                let other = choose|written: Seq<char>| #[trigger]
                    (unit.writes)(a, written) && second->Ok_0->Text_0 == written + b;
                assert(one == other);
            },
            _ => {},
        }
    }
}

/// Evaluation is a function of the expression: with a unit that answers
/// each question in one way only, an expression has one outcome.
pub proof fn lemma_evaluation_is_a_function(
    expr: Expr,
    unit: UnitModel,
    first: Outcome,
    second: Outcome,
)
    requires
        unit.deterministic(),
        evaluates(expr, unit, first),
        evaluates(expr, unit, second),
    ensures
        first == second,
    decreases expr,
{
    match expr {
        Expr::L(literal) => {
            assert(literal_evaluates(literal, unit, first));
            assert(literal_evaluates(literal, unit, second));
            let one = choose|parsed: Option<u64>| #[trigger]
                (unit.reads)(literal.val@, parsed) && first == Ok::<ObjView, RuntimeErrorView>(
                    classify(literal.val@, parsed),
                );
            let other = choose|parsed: Option<u64>| #[trigger]
                (unit.reads)(literal.val@, parsed) && second == Ok::<ObjView, RuntimeErrorView>(
                    classify(literal.val@, parsed),
                );
            assert(one == other);
        },
        Expr::U(unary) => {
            assert(unary_evaluates(*unary, unit, first));
            assert(unary_evaluates(*unary, unit, second));
            let one = choose|operand: Outcome|
                evaluates(unary.expr, unit, operand) && first == #[trigger] after_operand(
                    unary.operator,
                    operand,
                );
            let other = choose|operand: Outcome|
                evaluates(unary.expr, unit, operand) && second == #[trigger] after_operand(
                    unary.operator,
                    operand,
                );
            lemma_evaluation_is_a_function(unary.expr, unit, one, other);
        },
        Expr::B(binary) => {
            assert(binary_evaluates(*binary, unit, first));
            assert(binary_evaluates(*binary, unit, second));
            let (left1, right1) = choose|left: Outcome, right: Outcome|
                {
                    &&& evaluates(binary.left, unit, left)
                    &&& left is Ok ==> evaluates(binary.right, unit, right)
                    &&& #[trigger] after_operands(binary.operator, left, right, unit, first)
                };
            let (left2, right2) = choose|left: Outcome, right: Outcome|
                {
                    &&& evaluates(binary.left, unit, left)
                    &&& left is Ok ==> evaluates(binary.right, unit, right)
                    &&& #[trigger] after_operands(binary.operator, left, right, unit, second)
                };
            lemma_evaluation_is_a_function(binary.left, unit, left1, left2);
            if left1 is Ok {
                lemma_evaluation_is_a_function(binary.right, unit, right1, right2);
                if right1 is Ok {
                    lemma_operator_is_a_function(
                        binary.operator,
                        left1->Ok_0,
                        right1->Ok_0,
                        unit,
                        first,
                        second,
                    );
                }
            }
        },
        Expr::G(grouping) => {
            lemma_evaluation_is_a_function(grouping.expr, unit, first, second);
        },
        _ => {},
    }
}

/// With a unit that has an answer to each question, an infix operator has
/// an outcome for every two values.
pub proof fn lemma_operator_has_an_outcome(
    operator: Token,
    left: ObjView,
    right: ObjView,
    unit: UnitModel,
) -> (out: Outcome)
    requires
        unit.total(),
    ensures
        binary_outcome(operator, left, right, unit, out),
{
    match operator.token_type {
        TokenType::Minus => lemma_arithmetic_has_an_outcome(
            left,
            right,
            Arithmetic::Subtract,
            operator,
            unit,
        ),
        TokenType::Plus => lemma_arithmetic_has_an_outcome(
            left,
            right,
            Arithmetic::Add,
            operator,
            unit,
        ),
        TokenType::Star => lemma_arithmetic_has_an_outcome(
            left,
            right,
            Arithmetic::Multiply,
            operator,
            unit,
        ),
        TokenType::Slash => lemma_arithmetic_has_an_outcome(
            left,
            right,
            Arithmetic::Divide,
            operator,
            unit,
        ),
        TokenType::PlusPlus => match (left, right) {
            (ObjView::Text(a), ObjView::Text(b)) => Ok(ObjView::Text(a + b)),
            (ObjView::Text(a), ObjView::Number(b)) => {
                assert(unit.can_write(b));
                let written = choose|written: Seq<char>| #[trigger] (unit.writes)(b, written);
                Ok(ObjView::Text(a + written))
            },
            (ObjView::Number(a), ObjView::Text(b)) => {
                assert(unit.can_write(a));
                let written = choose|written: Seq<char>| #[trigger] (unit.writes)(a, written);
                Ok(ObjView::Text(written + b))
            },
            _ => Err(operands_error("a String and a String or Number"@, operator, left, right)),
        },
        TokenType::EqualEqual => Ok(ObjView::Bool(values_equal(left, right))),
        TokenType::BangEqual => Ok(ObjView::Bool(!values_equal(left, right))),
        TokenType::Less => comparison_outcome(left, right, Comparison::Less, operator),
        TokenType::LessEqual => comparison_outcome(left, right, Comparison::LessEqual, operator),
        TokenType::Greater => comparison_outcome(left, right, Comparison::Greater, operator),
        TokenType::GreaterEqual => comparison_outcome(
            left,
            right,
            Comparison::GreaterEqual,
            operator,
        ),
        _ => Err(error_at(operator, "Expected expression, given "@ + operator.lexeme@)),
    }
}

/// With a unit that has an answer to each question, an arithmetic operator
/// has an outcome for every two values.
pub proof fn lemma_arithmetic_has_an_outcome(
    left: ObjView,
    right: ObjView,
    operator: Arithmetic,
    token: Token,
    unit: UnitModel,
) -> (out: Outcome)
    requires
        unit.total(),
    ensures
        arithmetic_outcome(left, right, operator, token, unit, out),
{
    match (left, right) {
        (ObjView::Number(a), ObjView::Number(b)) => {
            assert(unit.can_compute(operator, a, b));
            let result = choose|result: u64| #[trigger] (unit.computes)(operator, a, b, result);
            Ok(ObjView::Number(result))
        },
        _ => Err(operands_error("Numbers"@, token, left, right)),
    }
}

/// Evaluation always ends in an outcome: with a unit that has an answer to
/// each question, every expression evaluates to a value or to an error.
pub proof fn lemma_evaluation_has_an_outcome(expr: Expr, unit: UnitModel) -> (out: Outcome)
    requires
        unit.total(),
    ensures
        evaluates(expr, unit, out),
    decreases expr,
{
    match expr {
        Expr::L(literal) => {
            assert(unit.can_read(literal.val@));
            let parsed = choose|parsed: Option<u64>| #[trigger] (unit.reads)(literal.val@, parsed);
            Ok(classify(literal.val@, parsed))
        },
        Expr::U(unary) => {
            let operand = lemma_evaluation_has_an_outcome(unary.expr, unit);
            let out = after_operand(unary.operator, operand);
            assert(unary_evaluates(*unary, unit, out));
            out
        },
        Expr::B(binary) => {
            let left = lemma_evaluation_has_an_outcome(binary.left, unit);
            match left {
                Ok(l) => {
                    let right = lemma_evaluation_has_an_outcome(binary.right, unit);
                    let out = match right {
                        Ok(r) => lemma_operator_has_an_outcome(binary.operator, l, r, unit),
                        Err(error) => Err(error),
                    };
                    assert(after_operands(binary.operator, left, right, unit, out));
                    assert(binary_evaluates(*binary, unit, out));
                    out
                },
                Err(error) => {
                    let out = Err(error);
                    assert(after_operands(binary.operator, left, left, unit, out));
                    assert(binary_evaluates(*binary, unit, out));
                    out
                },
            }
        },
        Expr::G(grouping) => lemma_evaluation_has_an_outcome(grouping.expr, unit),
        Expr::C(conditional) => Err(conditional_error(*conditional)),
        Expr::V(name) => Err(variable_error(name)),
        Expr::A(name, _) => Err(assignment_error(name)),
    }
}

} // verus!
