//! The evaluator: runtime values, the operators, and the walk over the tree.
use vstd::prelude::*;
use crate::ast::{Binary, Expr, Grouping, Literal, Unary};
use crate::errors::{RuntimeError, RuntimeErrorView};
use crate::number;
use crate::semantics::{
    after_operand,
    after_operands,
    arithmetic_outcome,
    binary_evaluates,
    classify,
    comparison_outcome,
    concatenation_outcome,
    depth,
    error_at,
    evaluates,
    kind_text,
    literal_evaluates,
    operand_message,
    operands_error,
    truthy,
    unary_evaluates,
    unary_outcome,
    value_written,
    values_equal,
    Outcome,
};
use crate::token::{Token, TokenType};
use crate::unit::{Arithmetic, FloatUnit};
pub use crate::visitor::{Interpreter, Visitor};

verus! {

/// A runtime value. A number is held by its IEEE-754 binary64 bit pattern.
#[derive(Clone, Debug, PartialEq)]
pub enum Obj {
    BOOL(bool),
    STRING(String),
    NUMBER(u64),
    Nil,
}

/// A runtime value with its text as a character sequence.
pub enum ObjView {
    Bool(bool),
    Text(Seq<char>),
    Number(u64),
    Nil,
}

impl View for Obj {
    type V = ObjView;

    open spec fn view(&self) -> ObjView {
        match self {
            Obj::BOOL(b) => ObjView::Bool(*b),
            Obj::STRING(s) => ObjView::Text(s@),
            Obj::NUMBER(bits) => ObjView::Number(*bits),
            Obj::Nil => ObjView::Nil,
        }
    }
}

impl Obj {
    /// Writes the value out for reading.
    pub fn render<P, A, R>(&self, unit: &FloatUnit<P, A, R>) -> (text: String) where
        P: Fn(&str) -> Option<u64>,
        A: Fn(Arithmetic, u64, u64) -> u64,
        R: Fn(u64) -> String,

        requires
            unit.ready(),
        ensures
            value_written(self@, unit.model(), text@),
    {
        match self {
            Obj::BOOL(val) => if *val {
                String::from_str("true")
            } else {
                String::from_str("false")
            },
            Obj::Nil => String::from_str("nil"),
            Obj::STRING(val) => {
                let mut text = String::from_str("\"");
                text.append(val.as_str());
                text.append("\"");
                text
            },
            Obj::NUMBER(val) => unit.write(*val),
        }
    }
}

/// The two equality operators.
#[derive(Clone, Copy, Debug, PartialEq, Eq, Structural)]
pub enum Equality {
    Equal,
    NotEqual,
}

/// The four ordering operators.
#[derive(Clone, Copy, Debug, PartialEq, Eq, Structural)]
pub enum Comparison {
    Less,
    LessEqual,
    Greater,
    GreaterEqual,
}

/// The outcome that a result stands for.
pub open spec fn outcome(result: Result<Obj, RuntimeError>) -> Outcome {
    match result {
        Ok(value) => Ok(value@),
        Err(error) => Err(error@),
    }
}

/// Determines if a value is truthy or falsy.
pub fn is_truthy(value: Obj) -> (result: bool)
    ensures
        result == truthy(value@),
        result == !(value@ == ObjView::Nil || value@ == ObjView::Bool(false)),
{
    match value {
        Obj::BOOL(false) | Obj::Nil => false,
        _ => true,
    }
}

/// Applies `==` or `!=`. Every pairing of kinds has an answer.
pub fn determine_equality(pair: (Obj, Obj), operator: Equality) -> (result: Obj)
    ensures
        result == Obj::BOOL(values_equal(pair.0@, pair.1@) == (operator == Equality::Equal)),
{
    let equal = match pair {
        (Obj::BOOL(v), Obj::BOOL(v2)) => v == v2,
        (Obj::Nil, Obj::Nil) => true,
        (Obj::STRING(v), Obj::STRING(v2)) => v == v2,
        (Obj::NUMBER(v), Obj::NUMBER(v2)) => number::equal(v, v2),
        _ => false,
    };
    match operator {
        Equality::Equal => Obj::BOOL(equal),
        Equality::NotEqual => Obj::BOOL(!equal),
    }
}

/// The name of a value's kind.
fn kind_name(value: &Obj) -> (name: &'static str)
    ensures
        name@ == kind_text(value@),
{
    match value {
        Obj::BOOL(_) => "Bool",
        Obj::STRING(_) => "String",
        Obj::NUMBER(_) => "Number",
        Obj::Nil => "Nil",
    }
}

/// Builds the error that a token reports with a message.
fn error_with(token: &Token, message: String) -> (error: RuntimeError)
    ensures
        error@ == error_at(*token, message@),
{
    RuntimeError::new(token.lexeme.clone(), message, token.line)
}

/// Starts the message for an operator that misses the kind it expects.
fn expectation(expected: &str, token: &Token, operand: &Obj) -> (message: String)
    ensures
        message@ == operand_message(expected@, token.lexeme@, operand@),
{
    let mut message = String::from_str("Expected ");
    message.append(expected);
    message.append(" for ");
    message.append(token.lexeme.as_str());
    message.append(" given ");
    message.append(kind_name(operand));
    message
}

/// Builds the error of an infix operator whose operands have the wrong kinds.
fn mismatch(expected: &str, token: &Token, left: &Obj, right: &Obj) -> (error: RuntimeError)
    ensures
        error@ == operands_error(expected@, *token, left@, right@),
{
    let mut message = expectation(expected, token, left);
    message.append(" ");
    message.append(kind_name(right));
    error_with(token, message)
}

/// Applies `<`, `<=`, `>` or `>=`. Only two numbers can be ordered.
pub fn determine_int_comparison(pair: (Obj, Obj), operator: Comparison, token: &Token) -> (result:
    Result<Obj, RuntimeError>)
    ensures
        outcome(result) == comparison_outcome(pair.0@, pair.1@, operator, *token),
{
    match pair {
        (Obj::NUMBER(val), Obj::NUMBER(val2)) => {
            let holds = match operator {
                Comparison::Less => number::less(val, val2),
                Comparison::LessEqual => number::less_equal(val, val2),
                Comparison::Greater => number::less(val2, val),
                Comparison::GreaterEqual => number::less_equal(val2, val),
            };
            Ok(Obj::BOOL(holds))
        },
        (left, right) => Err(mismatch("Numbers", token, &left, &right)),
    }
}

/// Classifies the text of a literal, given what the unit read it as.
pub fn classify_literal(text: &String, parsed: Option<u64>) -> (value: Obj)
    ensures
        value@ == classify(text@, parsed),
{
    match parsed {
        Some(bits) => Obj::NUMBER(bits),
        None => {
            if *text == String::from_str("true") {
                Obj::BOOL(true)
            } else if *text == String::from_str("false") {
                Obj::BOOL(false)
            } else if *text == String::from_str("nil") {
                Obj::Nil
            } else {
                Obj::STRING(text.clone())
            }
        },
    }
}

/// Applies `-`, `+`, `*` or `/`. Both operands must be numbers.
pub fn check_numbers<P, A, R>(
    pair: (Obj, Obj),
    operator: Arithmetic,
    token: &Token,
    unit: &FloatUnit<P, A, R>,
) -> (result: Result<Obj, RuntimeError>) where
    P: Fn(&str) -> Option<u64>,
    A: Fn(Arithmetic, u64, u64) -> u64,
    R: Fn(u64) -> String,

    requires
        unit.ready(),
    ensures
        arithmetic_outcome(pair.0@, pair.1@, operator, *token, unit.model(), outcome(result)),
{
    match pair {
        (Obj::NUMBER(left), Obj::NUMBER(right)) => Ok(
            Obj::NUMBER(unit.compute(operator, left, right)),
        ),
        (left, right) => Err(mismatch("Numbers", token, &left, &right)),
    }
}

/// Joins two texts into one string value, the first one in front.
pub fn join(first: String, second: &str) -> (joined: Obj)
    ensures
        joined@ == ObjView::Text(first@ + second@),
{
    let mut text = first;
    text.append(second);
    Obj::STRING(text)
}

/// Applies `++`: joins two texts, or a text and a number as the unit writes it.
pub fn concatenate_values<P, A, R>(
    pairs: (Obj, Obj),
    token: &Token,
    unit: &FloatUnit<P, A, R>,
) -> (result: Result<Obj, RuntimeError>) where
    P: Fn(&str) -> Option<u64>,
    A: Fn(Arithmetic, u64, u64) -> u64,
    R: Fn(u64) -> String,

    requires
        unit.ready(),
    ensures
        concatenation_outcome(pairs.0@, pairs.1@, *token, unit.model(), outcome(result)),
{
    match pairs {
        (Obj::STRING(v), Obj::STRING(v2)) => Ok(join(v, v2.as_str())),
        (Obj::STRING(v), Obj::NUMBER(v2)) => {
            let written = unit.write(v2);
            Ok(join(v, written.as_str()))
        },
        (Obj::NUMBER(v), Obj::STRING(v2)) => {
            let written = unit.write(v);
            Ok(join(written, v2.as_str()))
        },
        (left, right) => Err(mismatch("a String and a String or Number", token, &left, &right)),
    }
}

/// Applies a prefix operator to the value of its operand.
pub fn apply_unary(operator: &Token, operand: Obj) -> (result: Result<Obj, RuntimeError>)
    ensures
        outcome(result) == unary_outcome(*operator, operand@),
{
    match operator.token_type {
        TokenType::Minus => match operand {
            Obj::NUMBER(v) => Ok(Obj::NUMBER(number::negate(v))),
            other => Err(error_with(operator, expectation("Number", operator, &other))),
        },
        TokenType::Bang => Ok(Obj::BOOL(!is_truthy(operand))),
        _ => Err(error_with(operator, String::from_str("Invalid token for Unary"))),
    }
}

/// Applies an infix operator to the values of its two operands.
pub fn apply_binary<P, A, R>(
    operator: &Token,
    left: Obj,
    right: Obj,
    unit: &FloatUnit<P, A, R>,
) -> (result: Result<Obj, RuntimeError>) where
    P: Fn(&str) -> Option<u64>,
    A: Fn(Arithmetic, u64, u64) -> u64,
    R: Fn(u64) -> String,

    requires
        unit.ready(),
    ensures
        crate::semantics::binary_outcome(*operator, left@, right@, unit.model(), outcome(result)),
{
    match operator.token_type {
        TokenType::Minus => check_numbers((left, right), Arithmetic::Subtract, operator, unit),
        TokenType::Plus => check_numbers((left, right), Arithmetic::Add, operator, unit),
        TokenType::Star => check_numbers((left, right), Arithmetic::Multiply, operator, unit),
        TokenType::Slash => check_numbers((left, right), Arithmetic::Divide, operator, unit),
        TokenType::PlusPlus => concatenate_values((left, right), operator, unit),
        TokenType::EqualEqual => Ok(determine_equality((left, right), Equality::Equal)),
        TokenType::BangEqual => Ok(determine_equality((left, right), Equality::NotEqual)),
        TokenType::Less => determine_int_comparison((left, right), Comparison::Less, operator),
        TokenType::LessEqual => determine_int_comparison(
            (left, right),
            Comparison::LessEqual,
            operator,
        ),
        TokenType::Greater => determine_int_comparison(
            (left, right),
            Comparison::Greater,
            operator,
        ),
        TokenType::GreaterEqual => determine_int_comparison(
            (left, right),
            Comparison::GreaterEqual,
            operator,
        ),
        _ => {
            let mut message = String::from_str("Expected expression, given ");
            message.append(operator.lexeme.as_str());
            Err(error_with(operator, message))
        },
    }
}

/// Evaluates an expression to a value, or to the first error met on the way.
pub fn interpret_ast<P, A, R>(expression: Expr, unit: &FloatUnit<P, A, R>) -> (result: Result<
    Obj,
    RuntimeError,
>) where
    P: Fn(&str) -> Option<u64>,
    A: Fn(Arithmetic, u64, u64) -> u64,
    R: Fn(u64) -> String,

    requires
        unit.ready(),
    ensures
        evaluates(expression, unit.model(), outcome(result)),
{
    evaluate(&expression, unit)
}

/// Evaluates an expression that the caller keeps.
pub fn evaluate<P, A, R>(expression: &Expr, unit: &FloatUnit<P, A, R>) -> (result: Result<
    Obj,
    RuntimeError,
>) where
    P: Fn(&str) -> Option<u64>,
    A: Fn(Arithmetic, u64, u64) -> u64,
    R: Fn(u64) -> String,

    requires
        unit.ready(),
    ensures
        evaluates(*expression, unit.model(), outcome(result)),
    decreases *expression, 0nat,
{
    match expression {
        Expr::L(val) => visit_literal(val, unit),
        Expr::U(val) => visit_unary(val, unit),
        Expr::B(val) => visit_binary(val, unit),
        Expr::G(val) => visit_grouping(val, unit),
        Expr::C(val) => Err(
            RuntimeError::new(
                String::from_str("?"),
                String::from_str("Cannot evaluate a conditional without an environment"),
                val.line_num,
            ),
        ),
        Expr::V(name) => Err(
            error_with(
                name,
                String::from_str("Cannot evaluate a variable without an environment"),
            ),
        ),
        Expr::A(name, _) => Err(
            error_with(
                name,
                String::from_str("Cannot evaluate an assignment without an environment"),
            ),
        ),
    }
}

/// Tells whether evaluation descends at most `limit` levels into an
/// expression. It descends no deeper than that itself.
pub fn within_depth(expression: &Expr, limit: usize) -> (fits: bool)
    ensures
        fits == (depth(*expression) <= limit),
    decreases *expression,
{
    if limit == 0 {
        return false;
    }
    match expression {
        Expr::U(val) => within_depth(&val.expr, limit - 1),
        Expr::B(val) => within_depth(&val.left, limit - 1) && within_depth(&val.right, limit - 1),
        Expr::G(val) => within_depth(&val.expr, limit - 1),
        _ => true,
    }
}

/// Evaluates an expression that is at most `limit` levels deep, and gives
/// `None` for a deeper one without descending further: a guard for the
/// caller's stack.
pub fn evaluate_within<P, A, R>(
    expression: &Expr,
    unit: &FloatUnit<P, A, R>,
    limit: usize,
) -> (result: Option<Result<Obj, RuntimeError>>) where
    P: Fn(&str) -> Option<u64>,
    A: Fn(Arithmetic, u64, u64) -> u64,
    R: Fn(u64) -> String,

    requires
        unit.ready(),
    ensures
        result is Some <==> depth(*expression) <= limit,
        result matches Some(found) ==> evaluates(*expression, unit.model(), outcome(found)),
{
    if within_depth(expression, limit) {
        Some(evaluate(expression, unit))
    } else {
        None
    }
}

/// Evaluates a literal: asks the unit to read its text, then classifies it.
pub fn visit_literal<P, A, R>(literal: &Literal, unit: &FloatUnit<P, A, R>) -> (result: Result<
    Obj,
    RuntimeError,
>) where
    P: Fn(&str) -> Option<u64>,
    A: Fn(Arithmetic, u64, u64) -> u64,
    R: Fn(u64) -> String,

    requires
        unit.ready(),
    ensures
        literal_evaluates(*literal, unit.model(), outcome(result)),
{
    let parsed = unit.read(literal.val.as_str());
    Ok(classify_literal(&literal.val, parsed))
}

/// Evaluates a prefix operator node: the operand, then the operator.
pub fn visit_unary<P, A, R>(unary: &Unary, unit: &FloatUnit<P, A, R>) -> (result: Result<
    Obj,
    RuntimeError,
>) where
    P: Fn(&str) -> Option<u64>,
    A: Fn(Arithmetic, u64, u64) -> u64,
    R: Fn(u64) -> String,

    requires
        unit.ready(),
    ensures
        unary_evaluates(*unary, unit.model(), outcome(result)),
    decreases *unary, 0nat,
{
    let operand = evaluate(&unary.expr, unit);
    let ghost seen = outcome(operand);
    let result = match operand {
        Ok(value) => apply_unary(&unary.operator, value),
        Err(error) => Err(error),
    };
    assert(outcome(result) == after_operand(unary.operator, seen));
    result
}

/// Evaluates an infix operator node: the left operand, the right operand,
/// then the operator.
pub fn visit_binary<P, A, R>(binary: &Binary, unit: &FloatUnit<P, A, R>) -> (result: Result<
    Obj,
    RuntimeError,
>) where
    P: Fn(&str) -> Option<u64>,
    A: Fn(Arithmetic, u64, u64) -> u64,
    R: Fn(u64) -> String,

    requires
        unit.ready(),
    ensures
        binary_evaluates(*binary, unit.model(), outcome(result)),
    decreases *binary, 0nat,
{
    let left = evaluate(&binary.left, unit);
    let ghost seen_left = outcome(left);
    match left {
        Ok(left) => {
            let right = evaluate(&binary.right, unit);
            let ghost seen_right = outcome(right);
            let result = match right {
                Ok(right) => apply_binary(&binary.operator, left, right, unit),
                Err(error) => Err(error),
            };
            assert(after_operands(
                binary.operator,
                seen_left,
                seen_right,
                unit.model(),
                outcome(result),
            ));
            result
        },
        Err(error) => {
            let result = Err(error);
            assert(after_operands(
                binary.operator,
                seen_left,
                seen_left,
                unit.model(),
                outcome(result),
            ));
            result
        },
    }
}

/// Evaluates a grouping: the expression inside it.
pub fn visit_grouping<P, A, R>(grouping: &Grouping, unit: &FloatUnit<P, A, R>) -> (result: Result<
    Obj,
    RuntimeError,
>) where
    P: Fn(&str) -> Option<u64>,
    A: Fn(Arithmetic, u64, u64) -> u64,
    R: Fn(u64) -> String,

    requires
        unit.ready(),
    ensures
        evaluates(grouping.expr, unit.model(), outcome(result)),
    decreases *grouping, 0nat,
{
    evaluate(&grouping.expr, unit)
}

} // verus!
