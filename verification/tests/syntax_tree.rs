use flax::ast::{Binary, Conditional, Expr, Grouping, Literal, Stmt, Unary};
use flax::errors::RuntimeError;
use flax::token::{Token, TokenType};

fn token(token_type: TokenType, lexeme: &str, line: u64) -> Token {
    Token::new(token_type, lexeme.to_string(), line)
}

fn literal(text: &str) -> Expr {
    Expr::new_literal(text.to_string())
}

#[test]
fn token_new_keeps_its_parts() {
    let plus = Token::new(TokenType::Plus, "+".to_string(), 7);
    assert_eq!(plus.token_type, TokenType::Plus);
    assert_eq!(plus.lexeme, "+");
    assert_eq!(plus.line, 7);
}

#[test]
fn runtime_error_new_keeps_its_parts() {
    let error = RuntimeError::new("+".to_string(), "no".to_string(), 3);
    assert_eq!(error.lexeme, "+");
    assert_eq!(error.message, "no");
    assert_eq!(error.line, 3);
}

#[test]
fn literal_new_keeps_the_raw_text() {
    assert_eq!(Literal::new("12".to_string()), Literal { val: "12".to_string() });
    assert_eq!(literal("true"), Expr::L(Literal { val: "true".to_string() }));
}

#[test]
fn unary_new_keeps_operator_and_operand() {
    let node = Unary::new(token(TokenType::Minus, "-", 2), literal("1"));
    assert_eq!(node.operator, token(TokenType::Minus, "-", 2));
    assert_eq!(node.expr, literal("1"));
    assert_eq!(
        Expr::new_unary(token(TokenType::Minus, "-", 2), literal("1")),
        Expr::U(Box::new(node))
    );
}

#[test]
fn binary_new_keeps_operator_and_both_sides() {
    let node = Binary::new(token(TokenType::Star, "*", 4), literal("2"), literal("3"));
    assert_eq!(node.operator, token(TokenType::Star, "*", 4));
    assert_eq!(node.left, literal("2"));
    assert_eq!(node.right, literal("3"));
    assert_eq!(
        Expr::new_binary(literal("2"), token(TokenType::Star, "*", 4), literal("3")),
        Expr::B(Box::new(node))
    );
}

#[test]
fn grouping_new_keeps_the_inner_expression() {
    let node = Grouping::new(literal("x"));
    assert_eq!(node.expr, literal("x"));
    assert_eq!(Expr::new_grouping(literal("x")), Expr::G(Box::new(node)));
}

#[test]
fn conditional_new_keeps_branches_and_line() {
    let node = Conditional::new(literal("c"), literal("t"), literal("e"), 9);
    assert_eq!(node.cond, literal("c"));
    assert_eq!(node.then_expr, literal("t"));
    assert_eq!(node.else_expr, literal("e"));
    assert_eq!(node.line_num, 9);
    assert_eq!(
        Expr::new_conditional(literal("c"), literal("t"), literal("e"), 9),
        Expr::C(Box::new(node))
    );
}

#[test]
fn variable_and_assignment_keep_the_name_token() {
    let name = token(TokenType::Identifier, "x", 1);
    assert_eq!(Expr::new_variable(token(TokenType::Identifier, "x", 1)), Expr::V(name));
    assert_eq!(
        Expr::new_assignment(token(TokenType::Identifier, "x", 1), literal("1")),
        Expr::A(token(TokenType::Identifier, "x", 1), Box::new(literal("1")))
    );
}

#[test]
fn new_block_keeps_the_statements_in_order() {
    let block = Stmt::new_block(vec![Stmt::PrintStmt(literal("1")), Stmt::ExprStmt(literal("2"))]);
    assert_eq!(
        block,
        Stmt::Block(Box::new(vec![Stmt::PrintStmt(literal("1")), Stmt::ExprStmt(literal("2"))]))
    );
    assert_eq!(Stmt::new_block(vec![]), Stmt::Block(Box::new(vec![])));
}

#[test]
fn literal_renders_as_its_raw_text() {
    assert_eq!(literal("12.50").render(), "12.50");
    assert_eq!(literal("true").render(), "true");
    assert_eq!(literal("").render(), "");
    assert_eq!(Literal::new("nil".to_string()).render(), "nil");
}

#[test]
fn unary_renders_operator_then_operand() {
    let node = Expr::new_unary(token(TokenType::Bang, "!", 1), literal("true"));
    assert_eq!(node.render(), "(! true)");
    assert_eq!(Unary::new(token(TokenType::Minus, "-", 1), literal("3")).render(), "(- 3)");
}

#[test]
fn binary_renders_operator_then_both_sides() {
    let node = Expr::new_binary(literal("1"), token(TokenType::Plus, "+", 1), literal("2"));
    assert_eq!(node.render(), "(+ 1 2)");
    assert_eq!(
        Binary::new(token(TokenType::PlusPlus, "++", 1), literal("a"), literal("b")).render(),
        "(++ a b)"
    );
}

#[test]
fn grouping_renders_with_its_tag() {
    assert_eq!(Expr::new_grouping(literal("1")).render(), "(Grp 1)");
    assert_eq!(Grouping::new(literal("x")).render(), "(Grp x)");
}

#[test]
fn conditional_renders_infix() {
    let node = Expr::new_conditional(literal("c"), literal("1"), literal("2"), 5);
    assert_eq!(node.render(), "(c ? 1 : 2)");
    assert_eq!(Conditional::new(literal("a"), literal("b"), literal("c"), 1).render(), "(a ? b : c)");
}

#[test]
fn variable_renders_as_its_name_and_assignment_as_its_value() {
    assert_eq!(Expr::new_variable(token(TokenType::Identifier, "count", 1)).render(), "count");
    let assignment = Expr::new_assignment(
        token(TokenType::Identifier, "count", 1),
        Expr::new_binary(literal("1"), token(TokenType::Plus, "+", 1), literal("2")),
    );
    assert_eq!(assignment.render(), "(+ 1 2)");
}

#[test]
fn nested_expression_renders_inside_out() {
    let inner = Expr::new_grouping(Expr::new_binary(
        literal("1"),
        token(TokenType::Less, "<", 1),
        literal("2"),
    ));
    let outer = Expr::new_binary(
        Expr::new_unary(token(TokenType::Minus, "-", 1), inner),
        token(TokenType::EqualEqual, "==", 1),
        literal("true"),
    );
    assert_eq!(outer.render(), "(== (- (Grp (< 1 2))) true)");
}

#[test]
fn statements_render_their_expression() {
    let sum = || Expr::new_binary(literal("1"), token(TokenType::Plus, "+", 1), literal("2"));
    assert_eq!(Stmt::ExprStmt(sum()).render(), "(+ 1 2)");
    assert_eq!(Stmt::PrintStmt(sum()).render(), "(+ 1 2)");
}

#[test]
fn declarations_render_the_name_and_the_value() {
    let name = || token(TokenType::Identifier, "x", 1);
    assert_eq!(Stmt::VarDecl(name(), None).render(), "(x)");
    assert_eq!(Stmt::VarDecl(name(), Some(literal("4"))).render(), "(x = 4)");
}

#[test]
fn a_block_renders_as_its_placeholder() {
    let block = Stmt::new_block(vec![Stmt::PrintStmt(literal("1"))]);
    assert_eq!(block.render(), "Placeholder for block");
}
