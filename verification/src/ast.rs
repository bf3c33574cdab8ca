//! The syntax tree: expressions and statements as the parser builds them.
use vstd::prelude::*;
use crate::token::Token;

verus! {

/// An expression node. Each composite node owns its children.
#[derive(Debug, PartialEq)]
pub enum Expr {
    /// A literal, carried as raw text.
    L(Literal),
    /// A prefix operator and its operand.
    U(Box<Unary>),
    /// An infix operator and its two operands.
    B(Box<Binary>),
    /// A parenthesised expression.
    G(Box<Grouping>),
    /// A ternary conditional.
    C(Box<Conditional>),
    /// A reference to a variable, by its name token.
    V(Token),
    /// An assignment to the variable that the token names.
    A(Token, Box<Expr>),
}

/// A parenthesised expression.
#[derive(Debug, PartialEq)]
pub struct Grouping {
    pub expr: Expr,
}

/// An infix operator between two operands.
#[derive(Debug, PartialEq)]
pub struct Binary {
    pub operator: Token,
    pub left: Expr,
    pub right: Expr,
}

/// A literal as raw text. What kind of value it is shows at evaluation.
#[derive(Debug, PartialEq)]
pub struct Literal {
    pub val: String,
}

/// A prefix operator before its operand.
#[derive(Debug, PartialEq)]
pub struct Unary {
    pub operator: Token,
    pub expr: Expr,
}

/// A ternary conditional, with the line it stands on.
#[derive(Debug, PartialEq)]
pub struct Conditional {
    pub cond: Expr,
    pub line_num: u64,
    pub then_expr: Expr,
    pub else_expr: Expr,
}

/// A statement node. Statements own their expressions and nested blocks.
#[derive(Debug, PartialEq)]
pub enum Stmt {
    PrintStmt(Expr),
    ExprStmt(Expr),
    VarDecl(Token, Option<Expr>),
    Block(Box<Vec<Stmt>>),
}

impl Grouping {
    pub fn new(expr: Expr) -> (node: Grouping)
        ensures
            node == (Grouping { expr }),
    {
        Grouping { expr }
    }
}

impl Binary {
    pub fn new(token: Token, left: Expr, right: Expr) -> (node: Binary)
        ensures
            node == (Binary { operator: token, left, right }),
    {
        Binary { operator: token, left, right }
    }
}

impl Literal {
    pub fn new(val: String) -> (node: Literal)
        ensures
            node == (Literal { val }),
    {
        Literal { val }
    }
}

impl Unary {
    pub fn new(operator: Token, expr: Expr) -> (node: Unary)
        ensures
            node == (Unary { operator, expr }),
    {
        Unary { operator, expr }
    }
}

impl Conditional {
    pub fn new(cond: Expr, then_expr: Expr, else_expr: Expr, line_num: u64) -> (node: Conditional)
        ensures
            node == (Conditional { cond, line_num, then_expr, else_expr }),
    {
        Conditional { cond, then_expr, else_expr, line_num }
    }
}

impl Expr {
    pub fn new_literal(val: String) -> (node: Expr)
        ensures
            node == Expr::L(Literal { val }),
    {
        Expr::L(Literal::new(val))
    }

    pub fn new_unary(op: Token, expr: Expr) -> (node: Expr)
        ensures
            node == Expr::U(Box::new(Unary { operator: op, expr })),
    {
        Expr::U(Box::new(Unary::new(op, expr)))
    }

    pub fn new_binary(left: Expr, op: Token, right: Expr) -> (node: Expr)
        ensures
            node == Expr::B(Box::new(Binary { operator: op, left, right })),
    {
        Expr::B(Box::new(Binary::new(op, left, right)))
    }

    pub fn new_grouping(expr: Expr) -> (node: Expr)
        ensures
            node == Expr::G(Box::new(Grouping { expr })),
    {
        Expr::G(Box::new(Grouping::new(expr)))
    }

    pub fn new_variable(token: Token) -> (node: Expr)
        ensures
            node == Expr::V(token),
    {
        Expr::V(token)
    }

    pub fn new_assignment(token: Token, expr: Expr) -> (node: Expr)
        ensures
            node == Expr::A(token, Box::new(expr)),
    {
        Expr::A(token, Box::new(expr))
    }

    pub fn new_conditional(conditional: Expr, then_expr: Expr, else_expr: Expr, line: u64) -> (node: Expr)
        ensures
            node == Expr::C(
                Box::new(
                    Conditional { cond: conditional, line_num: line, then_expr, else_expr },
                ),
            ),
    {
        Expr::C(Box::new(Conditional::new(conditional, then_expr, else_expr, line)))
    }
}

impl Stmt {
    pub fn new_block(statements: Vec<Stmt>) -> (node: Stmt)
        ensures
            node == Stmt::Block(Box::new(statements)),
    {
        Stmt::Block(Box::new(statements))
    }
}

impl Literal {
    /// A literal reads as its raw text.
    pub open spec fn rendered(self) -> Seq<char> {
        self.val@
    }

    /// Renders the literal for reading.
    pub fn render(&self) -> (text: String)
        ensures
            text@ == self.rendered(),
    {
        self.val.clone()
    }
}

impl Unary {
    /// A prefix operator node reads as `(<op> <operand>)`.
    pub open spec fn rendered(self) -> Seq<char>
        decreases self, 0nat,
    {
        "("@ + self.operator.lexeme@ + " "@ + self.expr.rendered() + ")"@
    }

    /// Renders the node for reading.
    pub fn render(&self) -> (text: String)
        ensures
            text@ == self.rendered(),
        decreases *self, 0nat,
    {
        let mut text = String::from_str("(");
        text.append(self.operator.lexeme.as_str());
        text.append(" ");
        text.append(self.expr.render().as_str());
        text.append(")");
        text
    }
}

impl Binary {
    /// An infix operator node reads as `(<op> <left> <right>)`.
    pub open spec fn rendered(self) -> Seq<char>
        decreases self, 0nat,
    {
        "("@ + self.operator.lexeme@ + " "@ + self.left.rendered() + " "@ + self.right.rendered()
            + ")"@
    }

    /// Renders the node for reading.
    pub fn render(&self) -> (text: String)
        ensures
            text@ == self.rendered(),
        decreases *self, 0nat,
    {
        let mut text = String::from_str("(");
        text.append(self.operator.lexeme.as_str());
        text.append(" ");
        text.append(self.left.render().as_str());
        text.append(" ");
        text.append(self.right.render().as_str());
        text.append(")");
        text
    }
}

impl Grouping {
    /// A grouping reads as `(Grp <inner>)`.
    pub open spec fn rendered(self) -> Seq<char>
        decreases self, 0nat,
    {
        "(Grp "@ + self.expr.rendered() + ")"@
    }

    /// Renders the node for reading.
    pub fn render(&self) -> (text: String)
        ensures
            text@ == self.rendered(),
        decreases *self, 0nat,
    {
        let mut text = String::from_str("(Grp ");
        text.append(self.expr.render().as_str());
        text.append(")");
        text
    }
}

impl Conditional {
    /// A conditional reads as `(<condition> ? <then> : <else>)`.
    pub open spec fn rendered(self) -> Seq<char>
        decreases self, 0nat,
    {
        "("@ + self.cond.rendered() + " ? "@ + self.then_expr.rendered() + " : "@
            + self.else_expr.rendered() + ")"@
    }

    /// Renders the node for reading.
    pub fn render(&self) -> (text: String)
        ensures
            text@ == self.rendered(),
        decreases *self, 0nat,
    {
        let mut text = String::from_str("(");
        text.append(self.cond.render().as_str());
        text.append(" ? ");
        text.append(self.then_expr.render().as_str());
        text.append(" : ");
        text.append(self.else_expr.render().as_str());
        text.append(")");
        text
    }
}

impl Expr {
    /// How an expression reads: literals as their raw text, variables as
    /// their names, an assignment as the value assigned, and every other
    /// node in parentheses with its parts.
    pub open spec fn rendered(self) -> Seq<char>
        decreases self, 0nat,
    {
        match self {
            Expr::L(literal) => literal.rendered(),
            Expr::U(unary) => unary.rendered(),
            Expr::B(binary) => binary.rendered(),
            Expr::G(grouping) => grouping.rendered(),
            Expr::C(conditional) => conditional.rendered(),
            Expr::V(name) => name.lexeme@,
            Expr::A(_, value) => value.rendered(),
        }
    }

    /// Renders the expression for reading.
    pub fn render(&self) -> (text: String)
        ensures
            text@ == self.rendered(),
        decreases *self, 0nat,
    {
        match self {
            Expr::L(lit) => lit.render(),
            Expr::U(ur) => ur.render(),
            Expr::B(bi) => bi.render(),
            Expr::G(grp) => grp.render(),
            Expr::C(cond) => cond.render(),
            Expr::V(tok) => tok.lexeme.clone(),
            Expr::A(_, expr) => expr.render(),
        }
    }
}

impl Stmt {
    /// How a statement reads: a print or expression statement as its
    /// expression, a declaration as `(<name> = <value>)` or `(<name>)`. A
    /// block is not looked into: every block reads as the same fixed text.
    pub open spec fn rendered(self) -> Seq<char> {
        match self {
            Stmt::ExprStmt(expr) => expr.rendered(),
            Stmt::PrintStmt(expr) => expr.rendered(),
            Stmt::VarDecl(name, Some(value)) => "("@ + name.lexeme@ + " = "@ + value.rendered()
                + ")"@,
            Stmt::VarDecl(name, None) => "("@ + name.lexeme@ + ")"@,
            Stmt::Block(_) => "Placeholder for block"@,
        }
    }

    /// Renders the statement for reading.
    pub fn render(&self) -> (text: String)
        ensures
            text@ == self.rendered(),
    {
        match self {
            Stmt::ExprStmt(expr) => expr.render(),
            Stmt::PrintStmt(expr) => expr.render(),
            Stmt::VarDecl(name, expr) => {
                let mut text = String::from_str("(");
                text.append(name.lexeme.as_str());
                match expr {
                    Some(e) => {
                        text.append(" = ");
                        text.append(e.render().as_str());
                    },
                    None => {},
                }
                text.append(")");
                text
            },
            Stmt::Block(_) => String::from_str("Placeholder for block"),
        }
    }
}

} // verus!
