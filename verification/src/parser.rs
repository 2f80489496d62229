//! The parser: turns a finite sequence of located tokens into an abstract
//! syntax tree.
//!
//! Statements and declarations are parsed by recursive descent; expressions
//! by precedence climbing.  The specification side (`spec_parse_*`) defines
//! the exact result, success or failure, for every token sequence; the
//! executable `Parser` is proved to return exactly that.

use vstd::prelude::*;

use crate::data::{Locatable, LocatedView, Location, LocationView, Token, TokenView, str_matches};

verus! {

broadcast use vstd::group_vstd_default, vstd::seq::axiom_seq_index_decreases;

// ---------------------------------------------------------------------------
// Errors
// ---------------------------------------------------------------------------
/// A parse error.  The first structural error aborts the whole parse; the
/// carried text is a human-readable description of what was expected or
/// found.
#[derive(Debug, PartialEq)]
pub enum ParseError {
    UnexpectedToken(String),
    MissingToken(String),
    InvalidExpression,
}

/// The mathematical value of a `ParseError`: which of the three failures
/// occurred.  The description text is diagnostic only and not part of the
/// parser's specification.
#[derive(PartialEq, Eq, Structural)]
pub enum ParseErrorView {
    UnexpectedToken,
    MissingToken,
    InvalidExpression,
}

impl View for ParseError {
    type V = ParseErrorView;

    open spec fn view(&self) -> ParseErrorView {
        match self {
            ParseError::UnexpectedToken(_) => ParseErrorView::UnexpectedToken,
            ParseError::MissingToken(_) => ParseErrorView::MissingToken,
            ParseError::InvalidExpression => ParseErrorView::InvalidExpression,
        }
    }
}

/// The views of a vector of identifier names.
pub open spec fn names_view(s: Seq<String>) -> Seq<Seq<char>> {
    s.map_values(|x: String| x@)
}

/// The views of a vector of `(name, type)` pairs.
pub open spec fn pairs_view(s: Seq<(String, String)>) -> Seq<(Seq<char>, Seq<char>)> {
    s.map_values(|p: (String, String)| (p.0@, p.1@))
}

/// Common trait of located AST nodes.
pub trait AstNode {
    /// The position of the node's first constituent token.
    fn location(&self) -> &Location;
}

// ---------------------------------------------------------------------------
// AST: operators and literals
// ---------------------------------------------------------------------------
/// A literal expression payload, carried forward unchanged from the token.
#[derive(Debug, Clone, PartialEq)]
pub enum Literal {
    Integer(String),
    Float(String),
    String(String),
    Char(char),
    Boolean(bool),
}

/// The mathematical value of a `Literal`.
pub enum LiteralView {
    Integer(Seq<char>),
    Float(Seq<char>),
    Str(Seq<char>),
    Char(char),
    Boolean(bool),
}

impl View for Literal {
    type V = LiteralView;

    open spec fn view(&self) -> LiteralView {
        match self {
            Literal::Integer(s) => LiteralView::Integer(s@),
            Literal::Float(s) => LiteralView::Float(s@),
            Literal::String(s) => LiteralView::Str(s@),
            Literal::Char(c) => LiteralView::Char(*c),
            Literal::Boolean(b) => LiteralView::Boolean(*b),
        }
    }
}

/// A binary operator, in increasing precedence groups:
/// `||` < `&&` < `==`,`!=` < `<`,`<=`,`>`,`>=` < `+`,`-` < `*`,`/`,`%`.
#[derive(Debug, Clone, Copy, PartialEq, Eq, Structural)]
pub enum BinaryOperator {
    Add,
    Subtract,
    Multiply,
    Divide,
    Modulo,
    Equal,
    NotEqual,
    Less,
    LessEqual,
    Greater,
    GreaterEqual,
    And,
    Or,
}

/// A prefix operator.
#[derive(Debug, Clone, Copy, PartialEq, Eq, Structural)]
pub enum UnaryOperator {
    Negate,
    Not,
}

// ---------------------------------------------------------------------------
// AST: effect declarations
// ---------------------------------------------------------------------------
/// One operation of an effect declaration: name, `(name, type)` parameters,
/// and an optional return type.
#[derive(Debug, Clone, PartialEq)]
pub struct EffectOperation {
    pub name: String,
    pub parameters: Vec<(String, String)>,
    pub return_type: Option<String>,
}

pub struct EffectOperationView {
    pub name: Seq<char>,
    pub parameters: Seq<(Seq<char>, Seq<char>)>,
    pub return_type: Option<Seq<char>>,
}

impl View for EffectOperation {
    type V = EffectOperationView;

    open spec fn view(&self) -> EffectOperationView {
        EffectOperationView {
            name: self.name@,
            parameters: pairs_view(self.parameters@),
            return_type: match self.return_type {
                Some(ref t) => Some(t@),
                None => None,
            },
        }
    }
}

/// The views of a sequence of effect operations.
pub open spec fn ops_view(s: Seq<EffectOperation>) -> Seq<EffectOperationView> {
    s.map_values(|o: EffectOperation| o@)
}

/// An `effect Name { ... }` declaration.
#[derive(Debug, Clone, PartialEq)]
pub struct EffectDeclaration {
    pub name: String,
    pub operations: Vec<EffectOperation>,
}

pub struct EffectDeclarationView {
    pub name: Seq<char>,
    pub operations: Seq<EffectOperationView>,
}

impl View for EffectDeclaration {
    type V = EffectDeclarationView;

    open spec fn view(&self) -> EffectDeclarationView {
        EffectDeclarationView {
            name: self.name@,
            operations: ops_view(self.operations@),
        }
    }
}

/// An `effect_group Name = A, B;` declaration.
#[derive(Debug, Clone, PartialEq)]
pub struct EffectGroupDeclaration {
    pub name: String,
    pub effects: Vec<String>,
}

pub struct EffectGroupDeclarationView {
    pub name: Seq<char>,
    pub effects: Seq<Seq<char>>,
}

impl View for EffectGroupDeclaration {
    type V = EffectGroupDeclarationView;

    open spec fn view(&self) -> EffectGroupDeclarationView {
        EffectGroupDeclarationView {
            name: self.name@,
            effects: names_view(self.effects@),
        }
    }
}

/// A `handler_group Name = A, B;` declaration.
#[derive(Debug, Clone, PartialEq)]
pub struct HandlerGroupDeclaration {
    pub name: String,
    pub handlers: Vec<String>,
}

pub struct HandlerGroupDeclarationView {
    pub name: Seq<char>,
    pub handlers: Seq<Seq<char>>,
}

impl View for HandlerGroupDeclaration {
    type V = HandlerGroupDeclarationView;

    open spec fn view(&self) -> HandlerGroupDeclarationView {
        HandlerGroupDeclarationView {
            name: self.name@,
            handlers: names_view(self.handlers@),
        }
    }
}

// ---------------------------------------------------------------------------
// AST: expressions and statements
// ---------------------------------------------------------------------------
/// An expression node.  Every node carries the location of its first
/// constituent token.
#[derive(Debug, PartialEq)]
pub enum Expr {
    Literal {
        location_line: usize,
        location_column: usize,
        location_file: String,
        value: Literal,
    },
    Identifier {
        location_line: usize,
        location_column: usize,
        location_file: String,
        name: String,
    },
    Binary {
        location_line: usize,
        location_column: usize,
        location_file: String,
        left: Box<Expr>,
        operator: BinaryOperator,
        right: Box<Expr>,
    },
    Unary {
        location_line: usize,
        location_column: usize,
        location_file: String,
        operator: UnaryOperator,
        operand: Box<Expr>,
    },
    Call {
        location_line: usize,
        location_column: usize,
        location_file: String,
        function: Box<Expr>,
        arguments: Vec<Expr>,
    },
    Grouping {
        location_line: usize,
        location_column: usize,
        location_file: String,
        expression: Box<Expr>,
    },
    EffectOperation {
        location_line: usize,
        location_column: usize,
        location_file: String,
        effect: String,
        operation: String,
        arguments: Vec<Expr>,
    },
}

/// The mathematical value of an `Expr`.
pub enum ExprView {
    Literal { loc: LocationView, value: LiteralView },
    Identifier { loc: LocationView, name: Seq<char> },
    Binary { loc: LocationView, left: Box<ExprView>, operator: BinaryOperator, right: Box<ExprView> },
    Unary { loc: LocationView, operator: UnaryOperator, operand: Box<ExprView> },
    Call { loc: LocationView, function: Box<ExprView>, arguments: Seq<ExprView> },
    Grouping { loc: LocationView, expression: Box<ExprView> },
    EffectOperation {
        loc: LocationView,
        effect: Seq<char>,
        operation: Seq<char>,
        arguments: Seq<ExprView>,
    },
}

/// The location view built from a node's location fields.
pub open spec fn node_loc(line: usize, column: usize, file: Seq<char>) -> LocationView {
    LocationView { line: line as nat, column: column as nat, file }
}

/// The views of a sequence of expressions.
pub open spec fn exprs_view(s: Seq<Expr>) -> Seq<ExprView>
    decreases s,
{
    if s.len() == 0 {
        Seq::empty()
    } else {
        seq![s[0]@] + exprs_view(s.drop_first())
    }
}

impl View for Expr {
    type V = ExprView;

    open spec fn view(&self) -> ExprView
        decreases self,
    {
        match self {
            Expr::Literal { location_line, location_column, location_file, value } => {
                ExprView::Literal {
                    loc: node_loc(*location_line, *location_column, location_file@),
                    value: value@,
                }
            },
            Expr::Identifier { location_line, location_column, location_file, name } => {
                ExprView::Identifier {
                    loc: node_loc(*location_line, *location_column, location_file@),
                    name: name@,
                }
            },
            Expr::Binary { location_line, location_column, location_file, left, operator, right } => {
                ExprView::Binary {
                    loc: node_loc(*location_line, *location_column, location_file@),
                    left: Box::new((**left)@),
                    operator: *operator,
                    right: Box::new((**right)@),
                }
            },
            Expr::Unary { location_line, location_column, location_file, operator, operand } => {
                ExprView::Unary {
                    loc: node_loc(*location_line, *location_column, location_file@),
                    operator: *operator,
                    operand: Box::new((**operand)@),
                }
            },
            Expr::Call { location_line, location_column, location_file, function, arguments } => {
                ExprView::Call {
                    loc: node_loc(*location_line, *location_column, location_file@),
                    function: Box::new((**function)@),
                    arguments: exprs_view(arguments@),
                }
            },
            Expr::Grouping { location_line, location_column, location_file, expression } => {
                ExprView::Grouping {
                    loc: node_loc(*location_line, *location_column, location_file@),
                    expression: Box::new((**expression)@),
                }
            },
            Expr::EffectOperation {
                location_line,
                location_column,
                location_file,
                effect,
                operation,
                arguments,
            } => {
                ExprView::EffectOperation {
                    loc: node_loc(*location_line, *location_column, location_file@),
                    effect: effect@,
                    operation: operation@,
                    arguments: exprs_view(arguments@),
                }
            },
        }
    }
}

impl ExprView {
    /// The location carried by this node.
    pub open spec fn loc(&self) -> LocationView {
        match self {
            ExprView::Literal { loc, .. } => *loc,
            ExprView::Identifier { loc, .. } => *loc,
            ExprView::Binary { loc, .. } => *loc,
            ExprView::Unary { loc, .. } => *loc,
            ExprView::Call { loc, .. } => *loc,
            ExprView::Grouping { loc, .. } => *loc,
            ExprView::EffectOperation { loc, .. } => *loc,
        }
    }
}

impl Expr {
    /// The position of the node's first constituent token.
    pub fn location(&self) -> (r: Location)
        ensures
            r@ == self@.loc(),
    {
        match self {
            Expr::Literal { location_line, location_column, location_file, .. } => Location {
                line: *location_line,
                column: *location_column,
                file: location_file.clone(),
            },
            Expr::Identifier { location_line, location_column, location_file, .. } => Location {
                line: *location_line,
                column: *location_column,
                file: location_file.clone(),
            },
            Expr::Binary { location_line, location_column, location_file, .. } => Location {
                line: *location_line,
                column: *location_column,
                file: location_file.clone(),
            },
            Expr::Unary { location_line, location_column, location_file, .. } => Location {
                line: *location_line,
                column: *location_column,
                file: location_file.clone(),
            },
            Expr::Call { location_line, location_column, location_file, .. } => Location {
                line: *location_line,
                column: *location_column,
                file: location_file.clone(),
            },
            Expr::Grouping { location_line, location_column, location_file, .. } => Location {
                line: *location_line,
                column: *location_column,
                file: location_file.clone(),
            },
            Expr::EffectOperation { location_line, location_column, location_file, .. } => Location {
                line: *location_line,
                column: *location_column,
                file: location_file.clone(),
            },
        }
    }
}

/// A statement node.
#[derive(Debug, PartialEq)]
pub enum Stmt {
    Expression {
        location_line: usize,
        location_column: usize,
        location_file: String,
        expression: Expr,
    },
    Let {
        location_line: usize,
        location_column: usize,
        location_file: String,
        identifier: String,
        initializer: Option<Expr>,
    },
    Var {
        location_line: usize,
        location_column: usize,
        location_file: String,
        identifier: String,
        initializer: Option<Expr>,
    },
    Function {
        location_line: usize,
        location_column: usize,
        location_file: String,
        name: String,
        parameters: Vec<String>,
        body: Vec<Stmt>,
    },
    Block {
        location_line: usize,
        location_column: usize,
        location_file: String,
        statements: Vec<Stmt>,
    },
    Effect {
        location_line: usize,
        location_column: usize,
        location_file: String,
        declaration: EffectDeclaration,
    },
    Handler {
        location_line: usize,
        location_column: usize,
        location_file: String,
        declaration: HandlerDeclaration,
    },
    EffectGroup {
        location_line: usize,
        location_column: usize,
        location_file: String,
        declaration: EffectGroupDeclaration,
    },
    HandlerGroup {
        location_line: usize,
        location_column: usize,
        location_file: String,
        declaration: HandlerGroupDeclaration,
    },
}

/// One clause of a handler declaration: operation name, parameter names and
/// a statement body.
#[derive(Debug, PartialEq)]
pub struct HandlerClause {
    pub operation: String,
    pub parameters: Vec<String>,
    pub body: Vec<Stmt>,
}

pub struct HandlerClauseView {
    pub operation: Seq<char>,
    pub parameters: Seq<Seq<char>>,
    pub body: Seq<StmtView>,
}

/// A `handle Effect { ... }` declaration.
#[derive(Debug, PartialEq)]
pub struct HandlerDeclaration {
    pub effect: String,
    pub clauses: Vec<HandlerClause>,
}

pub struct HandlerDeclarationView {
    pub effect: Seq<char>,
    pub clauses: Seq<HandlerClauseView>,
}

/// The mathematical value of a `Stmt`.
pub enum StmtView {
    Expression { loc: LocationView, expression: ExprView },
    Let { loc: LocationView, identifier: Seq<char>, initializer: Option<ExprView> },
    Var { loc: LocationView, identifier: Seq<char>, initializer: Option<ExprView> },
    Function { loc: LocationView, name: Seq<char>, parameters: Seq<Seq<char>>, body: Seq<StmtView> },
    Block { loc: LocationView, statements: Seq<StmtView> },
    Effect { loc: LocationView, declaration: EffectDeclarationView },
    Handler { loc: LocationView, declaration: HandlerDeclarationView },
    EffectGroup { loc: LocationView, declaration: EffectGroupDeclarationView },
    HandlerGroup { loc: LocationView, declaration: HandlerGroupDeclarationView },
}

/// The views of a sequence of statements.
pub open spec fn stmts_view(s: Seq<Stmt>) -> Seq<StmtView>
    decreases s,
{
    if s.len() == 0 {
        Seq::empty()
    } else {
        seq![s[0]@] + stmts_view(s.drop_first())
    }
}

/// The views of a sequence of handler clauses.
pub open spec fn clauses_view(s: Seq<HandlerClause>) -> Seq<HandlerClauseView>
    decreases s,
{
    if s.len() == 0 {
        Seq::empty()
    } else {
        seq![s[0]@] + clauses_view(s.drop_first())
    }
}

impl View for HandlerClause {
    type V = HandlerClauseView;

    open spec fn view(&self) -> HandlerClauseView
        decreases self,
    {
        HandlerClauseView {
            operation: self.operation@,
            parameters: names_view(self.parameters@),
            body: stmts_view(self.body@),
        }
    }
}

impl View for HandlerDeclaration {
    type V = HandlerDeclarationView;

    open spec fn view(&self) -> HandlerDeclarationView
        decreases self,
    {
        HandlerDeclarationView {
            effect: self.effect@,
            clauses: clauses_view(self.clauses@),
        }
    }
}

impl View for Stmt {
    type V = StmtView;

    open spec fn view(&self) -> StmtView
        decreases self,
    {
        match self {
            Stmt::Expression { location_line, location_column, location_file, expression } => {
                StmtView::Expression {
                    loc: node_loc(*location_line, *location_column, location_file@),
                    expression: expression@,
                }
            },
            Stmt::Let { location_line, location_column, location_file, identifier, initializer } => {
                StmtView::Let {
                    loc: node_loc(*location_line, *location_column, location_file@),
                    identifier: identifier@,
                    initializer: match initializer {
                        Some(e) => Some(e@),
                        None => None,
                    },
                }
            },
            Stmt::Var { location_line, location_column, location_file, identifier, initializer } => {
                StmtView::Var {
                    loc: node_loc(*location_line, *location_column, location_file@),
                    identifier: identifier@,
                    initializer: match initializer {
                        Some(e) => Some(e@),
                        None => None,
                    },
                }
            },
            Stmt::Function {
                location_line,
                location_column,
                location_file,
                name,
                parameters,
                body,
            } => {
                StmtView::Function {
                    loc: node_loc(*location_line, *location_column, location_file@),
                    name: name@,
                    parameters: names_view(parameters@),
                    body: stmts_view(body@),
                }
            },
            Stmt::Block { location_line, location_column, location_file, statements } => {
                StmtView::Block {
                    loc: node_loc(*location_line, *location_column, location_file@),
                    statements: stmts_view(statements@),
                }
            },
            Stmt::Effect { location_line, location_column, location_file, declaration } => {
                StmtView::Effect {
                    loc: node_loc(*location_line, *location_column, location_file@),
                    declaration: declaration@,
                }
            },
            Stmt::Handler { location_line, location_column, location_file, declaration } => {
                StmtView::Handler {
                    loc: node_loc(*location_line, *location_column, location_file@),
                    declaration: declaration@,
                }
            },
            Stmt::EffectGroup { location_line, location_column, location_file, declaration } => {
                StmtView::EffectGroup {
                    loc: node_loc(*location_line, *location_column, location_file@),
                    declaration: declaration@,
                }
            },
            Stmt::HandlerGroup { location_line, location_column, location_file, declaration } => {
                StmtView::HandlerGroup {
                    loc: node_loc(*location_line, *location_column, location_file@),
                    declaration: declaration@,
                }
            },
        }
    }
}

impl StmtView {
    /// The location carried by this node.
    pub open spec fn loc(&self) -> LocationView {
        match self {
            StmtView::Expression { loc, .. } => *loc,
            StmtView::Let { loc, .. } => *loc,
            StmtView::Var { loc, .. } => *loc,
            StmtView::Function { loc, .. } => *loc,
            StmtView::Block { loc, .. } => *loc,
            StmtView::Effect { loc, .. } => *loc,
            StmtView::Handler { loc, .. } => *loc,
            StmtView::EffectGroup { loc, .. } => *loc,
            StmtView::HandlerGroup { loc, .. } => *loc,
        }
    }
}

impl Stmt {
    /// The position of the node's first constituent token (for a block, of
    /// its closing brace).
    pub fn location(&self) -> (r: Location)
        ensures
            r@ == self@.loc(),
    {
        match self {
            Stmt::Expression { location_line, location_column, location_file, .. } => Location {
                line: *location_line,
                column: *location_column,
                file: location_file.clone(),
            },
            Stmt::Let { location_line, location_column, location_file, .. } => Location {
                line: *location_line,
                column: *location_column,
                file: location_file.clone(),
            },
            Stmt::Var { location_line, location_column, location_file, .. } => Location {
                line: *location_line,
                column: *location_column,
                file: location_file.clone(),
            },
            Stmt::Function { location_line, location_column, location_file, .. } => Location {
                line: *location_line,
                column: *location_column,
                file: location_file.clone(),
            },
            Stmt::Block { location_line, location_column, location_file, .. } => Location {
                line: *location_line,
                column: *location_column,
                file: location_file.clone(),
            },
            Stmt::Effect { location_line, location_column, location_file, .. } => Location {
                line: *location_line,
                column: *location_column,
                file: location_file.clone(),
            },
            Stmt::Handler { location_line, location_column, location_file, .. } => Location {
                line: *location_line,
                column: *location_column,
                file: location_file.clone(),
            },
            Stmt::EffectGroup { location_line, location_column, location_file, .. } => Location {
                line: *location_line,
                column: *location_column,
                file: location_file.clone(),
            },
            Stmt::HandlerGroup { location_line, location_column, location_file, .. } => Location {
                line: *location_line,
                column: *location_column,
                file: location_file.clone(),
            },
        }
    }
}



// ---------------------------------------------------------------------------
// The grammar, specified positionally
// ---------------------------------------------------------------------------
// Every `spec_parse_*` function takes the token views `t` and a cursor `pos`
// and gives either the parsed node together with the cursor after it, or the
// parse error the parser reports.
//
// All the functions recurse on the lexicographic measure
// `(t.len() - pos, rank)`: a call either moves the cursor strictly forward,
// or keeps it and moves to a production with a strictly smaller rank.  Where
// a continuation depends on a sub-parse's cursor, a guard checks that the
// sub-parse advanced; a successful sub-parse always does (the executable
// parser proves it), so the guard's failure branch is unreachable and only
// makes the recursion visibly well-founded.
/// The token at `i`, with an implicit `Eof` past the end.
pub open spec fn tok_at(t: Seq<LocatedView<TokenView>>, i: int) -> TokenView {
    if 0 <= i < t.len() {
        t[i].data
    } else {
        TokenView::Eof
    }
}

/// The location of the token at `i`.
pub open spec fn loc_at(t: Seq<LocatedView<TokenView>>, i: int) -> LocationView {
    if 0 <= i < t.len() {
        t[i].location
    } else {
        LocationView { line: 0, column: 0, file: Seq::empty() }
    }
}

/// The cursor has reached the end of the token sequence.
pub open spec fn at_end(t: Seq<LocatedView<TokenView>>, i: int) -> bool {
    i >= t.len() || tok_at(t, i) is Eof
}

/// The precedence of a binary operator token, `None` for any other token.
pub open spec fn spec_precedence(tok: TokenView) -> Option<int> {
    match tok {
        TokenView::Or => Some(1int),
        TokenView::And => Some(2int),
        TokenView::EqualEqual => Some(3int),
        TokenView::BangEqual => Some(3int),
        TokenView::Less => Some(4int),
        TokenView::LessEqual => Some(4int),
        TokenView::Greater => Some(4int),
        TokenView::GreaterEqual => Some(4int),
        TokenView::Plus => Some(5int),
        TokenView::Minus => Some(5int),
        TokenView::Star => Some(6int),
        TokenView::Slash => Some(6int),
        TokenView::Percent => Some(6int),
        _ => None,
    }
}

/// The binary operator denoted by an operator token.
pub open spec fn spec_binary_op(tok: TokenView) -> BinaryOperator {
    match tok {
        TokenView::Plus => BinaryOperator::Add,
        TokenView::Minus => BinaryOperator::Subtract,
        TokenView::Star => BinaryOperator::Multiply,
        TokenView::Slash => BinaryOperator::Divide,
        TokenView::Percent => BinaryOperator::Modulo,
        TokenView::EqualEqual => BinaryOperator::Equal,
        TokenView::BangEqual => BinaryOperator::NotEqual,
        TokenView::Less => BinaryOperator::Less,
        TokenView::LessEqual => BinaryOperator::LessEqual,
        TokenView::Greater => BinaryOperator::Greater,
        TokenView::GreaterEqual => BinaryOperator::GreaterEqual,
        TokenView::And => BinaryOperator::And,
        TokenView::Or => BinaryOperator::Or,
        _ => arbitrary(),
    }
}

/// A comma-separated, non-empty list of identifiers (function parameters,
/// handler clause parameters, effects clauses and group member lists).
pub open spec fn spec_parse_name_list(t: Seq<LocatedView<TokenView>>, pos: int) -> Result<
    (Seq<Seq<char>>, int),
    ParseErrorView,
>
    decreases t.len() - pos, 5int, when 0 <= pos <= t.len()
{
    match tok_at(t, pos) {
        TokenView::Identifier(name) => {
            if tok_at(t, pos + 1) is Comma {
                match spec_parse_name_list(t, pos + 2) {
                    Ok((rest, n)) => Ok((seq![name] + rest, n)),
                    Err(e) => Err(e),
                }
            } else {
                Ok((seq![name], pos + 1))
            }
        },
        _ => Err(ParseErrorView::UnexpectedToken),
    }
}

/// A comma-separated, non-empty list of `name: type` pairs (the parameters
/// of an effect operation).
pub open spec fn spec_parse_typed_params(t: Seq<LocatedView<TokenView>>, pos: int) -> Result<
    (Seq<(Seq<char>, Seq<char>)>, int),
    ParseErrorView,
>
    decreases t.len() - pos, 5int, when 0 <= pos <= t.len()
{
    match tok_at(t, pos) {
        TokenView::Identifier(pname) => {
            if !(tok_at(t, pos + 1) is Colon) {
                Err(ParseErrorView::MissingToken)
            } else {
                match tok_at(t, pos + 2) {
                    TokenView::Identifier(ptype) => {
                        if tok_at(t, pos + 3) is Comma {
                            match spec_parse_typed_params(t, pos + 4) {
                                Ok((rest, n)) => Ok((seq![(pname, ptype)] + rest, n)),
                                Err(e) => Err(e),
                            }
                        } else {
                            Ok((seq![(pname, ptype)], pos + 3))
                        }
                    },
                    _ => Err(ParseErrorView::UnexpectedToken),
                }
            }
        },
        _ => Err(ParseErrorView::UnexpectedToken),
    }
}

/// A comma-separated, non-empty argument list of an effect operation call.
pub open spec fn spec_parse_args(t: Seq<LocatedView<TokenView>>, pos: int) -> Result<
    (Seq<ExprView>, int),
    ParseErrorView,
>
    decreases t.len() - pos, 5int, when 0 <= pos <= t.len()
{
    match spec_parse_expression(t, pos) {
        Err(e) => Err(e),
        Ok((e1, p1)) => {
            if !(pos < p1 <= t.len()) {
                Err(ParseErrorView::InvalidExpression)
            } else if tok_at(t, p1) is Comma {
                match spec_parse_args(t, p1 + 1) {
                    Ok((rest, n)) => Ok((seq![e1] + rest, n)),
                    Err(e) => Err(e),
                }
            } else {
                Ok((seq![e1], p1))
            }
        },
    }
}

/// A primary expression: a literal, an identifier, an effect operation call
/// `Effect.operation(args)`, or a parenthesized grouping.
pub open spec fn spec_parse_primary(t: Seq<LocatedView<TokenView>>, pos: int) -> Result<
    (ExprView, int),
    ParseErrorView,
>
    decreases t.len() - pos, 1int, when 0 <= pos <= t.len()
{
    match tok_at(t, pos) {
        TokenView::True => Ok(
            (
                ExprView::Literal { loc: loc_at(t, pos), value: LiteralView::Boolean(true) },
                pos + 1,
            ),
        ),
        TokenView::False => Ok(
            (
                ExprView::Literal { loc: loc_at(t, pos), value: LiteralView::Boolean(false) },
                pos + 1,
            ),
        ),
        TokenView::IntegerLiteral(s) => Ok(
            (ExprView::Literal { loc: loc_at(t, pos), value: LiteralView::Integer(s) }, pos + 1),
        ),
        TokenView::FloatLiteral(s) => Ok(
            (ExprView::Literal { loc: loc_at(t, pos), value: LiteralView::Float(s) }, pos + 1),
        ),
        TokenView::StringLiteral(s) => Ok(
            (ExprView::Literal { loc: loc_at(t, pos), value: LiteralView::Str(s) }, pos + 1),
        ),
        TokenView::CharLiteral(c) => Ok(
            (ExprView::Literal { loc: loc_at(t, pos), value: LiteralView::Char(c) }, pos + 1),
        ),
        TokenView::Identifier(name) => {
            if tok_at(t, pos + 1) is Dot {
                match tok_at(t, pos + 2) {
                    TokenView::Identifier(operation) => {
                        if !(tok_at(t, pos + 3) is LParen) {
                            Err(ParseErrorView::MissingToken)
                        } else {
                            let args_res: Result<(Seq<ExprView>, int), ParseErrorView> = if tok_at(
                                t,
                                pos + 4,
                            ) is RParen {
                                Ok((Seq::empty(), pos + 4))
                            } else {
                                spec_parse_args(t, pos + 4)
                            };
                            match args_res {
                                Err(e) => Err(e),
                                Ok((args, pa)) => {
                                    if !(tok_at(t, pa) is RParen) {
                                        Err(ParseErrorView::MissingToken)
                                    } else {
                                        Ok(
                                            (
                                                ExprView::EffectOperation {
                                                    loc: loc_at(t, pos),
                                                    effect: name,
                                                    operation,
                                                    arguments: args,
                                                },
                                                pa + 1,
                                            ),
                                        )
                                    }
                                },
                            }
                        }
                    },
                    _ => Err(ParseErrorView::UnexpectedToken),
                }
            } else {
                Ok((ExprView::Identifier { loc: loc_at(t, pos), name }, pos + 1))
            }
        },
        TokenView::LParen => {
            match spec_parse_expression(t, pos + 1) {
                Err(e) => Err(e),
                Ok((e1, p1)) => {
                    if tok_at(t, p1) is RParen {
                        Ok(
                            (
                                ExprView::Grouping {
                                    loc: loc_at(t, pos),
                                    expression: Box::new(e1),
                                },
                                p1 + 1,
                            ),
                        )
                    } else {
                        Err(ParseErrorView::MissingToken)
                    }
                },
            }
        },
        _ => Err(ParseErrorView::UnexpectedToken),
    }
}

/// A unary expression: prefix `-` and `!` over a primary; right-recursive.
pub open spec fn spec_parse_unary(t: Seq<LocatedView<TokenView>>, pos: int) -> Result<
    (ExprView, int),
    ParseErrorView,
>
    decreases t.len() - pos, 2int, when 0 <= pos <= t.len()
{
    match tok_at(t, pos) {
        TokenView::Minus => {
            match spec_parse_unary(t, pos + 1) {
                Err(e) => Err(e),
                Ok((operand, p1)) => Ok(
                    (
                        ExprView::Unary {
                            loc: loc_at(t, pos),
                            operator: UnaryOperator::Negate,
                            operand: Box::new(operand),
                        },
                        p1,
                    ),
                ),
            }
        },
        TokenView::Bang => {
            match spec_parse_unary(t, pos + 1) {
                Err(e) => Err(e),
                Ok((operand, p1)) => Ok(
                    (
                        ExprView::Unary {
                            loc: loc_at(t, pos),
                            operator: UnaryOperator::Not,
                            operand: Box::new(operand),
                        },
                        p1,
                    ),
                ),
            }
        },
        _ => spec_parse_primary(t, pos),
    }
}

/// The precedence-climbing loop: after `left`, consume operators of
/// precedence at least `prec`, parsing each right operand one level higher,
/// which makes same-precedence chains left-associative.
pub open spec fn spec_parse_binary_rest(
    t: Seq<LocatedView<TokenView>>,
    pos: int,
    left: ExprView,
    prec: int,
) -> Result<(ExprView, int), ParseErrorView>
    decreases t.len() - pos, 3int, when 0 <= pos <= t.len()
{
    match spec_precedence(tok_at(t, pos)) {
        None => Ok((left, pos)),
        Some(cp) => {
            if cp < prec {
                Ok((left, pos))
            } else {
                let op = spec_binary_op(tok_at(t, pos));
                match spec_parse_binary(t, pos + 1, cp + 1) {
                    Err(e) => Err(e),
                    Ok((right, p2)) => {
                        if !(pos < p2 <= t.len()) {
                            Err(ParseErrorView::InvalidExpression)
                        } else {
                            spec_parse_binary_rest(
                                t,
                                p2,
                                ExprView::Binary {
                                    loc: left.loc(),
                                    left: Box::new(left),
                                    operator: op,
                                    right: Box::new(right),
                                },
                                prec,
                            )
                        }
                    },
                }
            }
        },
    }
}

/// A binary expression at minimum precedence `prec`.
pub open spec fn spec_parse_binary(t: Seq<LocatedView<TokenView>>, pos: int, prec: int) -> Result<
    (ExprView, int),
    ParseErrorView,
>
    decreases t.len() - pos, 3int, when 0 <= pos <= t.len()
{
    match spec_parse_unary(t, pos) {
        Err(e) => Err(e),
        Ok((left, p1)) => {
            if !(pos < p1 <= t.len()) {
                Err(ParseErrorView::InvalidExpression)
            } else {
                spec_parse_binary_rest(t, p1, left, prec)
            }
        },
    }
}

/// An expression: a precedence climb rooted at precedence 0.
pub open spec fn spec_parse_expression(t: Seq<LocatedView<TokenView>>, pos: int) -> Result<
    (ExprView, int),
    ParseErrorView,
>
    decreases t.len() - pos, 4int, when 0 <= pos <= t.len()
{
    spec_parse_binary(t, pos, 0)
}

/// An expression statement: an expression followed by `;`.  The statement
/// carries the expression's location.
pub open spec fn spec_parse_expression_statement(
    t: Seq<LocatedView<TokenView>>,
    pos: int,
) -> Result<(StmtView, int), ParseErrorView>
    decreases t.len() - pos, 6int, when 0 <= pos <= t.len()
{
    match spec_parse_expression(t, pos) {
        Err(e) => Err(e),
        Ok((e1, p1)) => {
            if tok_at(t, p1) is Semicolon {
                Ok((StmtView::Expression { loc: e1.loc(), expression: e1 }, p1 + 1))
            } else {
                Err(ParseErrorView::MissingToken)
            }
        },
    }
}

/// A `let` declaration: `let name (= expr)? ;`, carrying the location of
/// the `let` keyword.
pub open spec fn spec_parse_let(t: Seq<LocatedView<TokenView>>, pos: int) -> Result<
    (StmtView, int),
    ParseErrorView,
>
    decreases t.len() - pos, 6int, when 0 <= pos <= t.len()
{
    if !(tok_at(t, pos) is Let) {
        Err(ParseErrorView::MissingToken)
    } else {
        match tok_at(t, pos + 1) {
            TokenView::Identifier(name) => {
                if tok_at(t, pos + 2) is Equal {
                    match spec_parse_expression(t, pos + 3) {
                        Err(e) => Err(e),
                        Ok((init, p1)) => {
                            if tok_at(t, p1) is Semicolon {
                                Ok(
                                    (
                                        StmtView::Let {
                                            loc: loc_at(t, pos),
                                            identifier: name,
                                            initializer: Some(init),
                                        },
                                        p1 + 1,
                                    ),
                                )
                            } else {
                                Err(ParseErrorView::MissingToken)
                            }
                        },
                    }
                } else if tok_at(t, pos + 2) is Semicolon {
                    Ok(
                        (
                            StmtView::Let {
                                loc: loc_at(t, pos),
                                identifier: name,
                                initializer: None,
                            },
                            pos + 3,
                        ),
                    )
                } else {
                    Err(ParseErrorView::MissingToken)
                }
            },
            _ => Err(ParseErrorView::UnexpectedToken),
        }
    }
}

/// A `var` declaration: `var name (= expr)? ;`.
pub open spec fn spec_parse_var(t: Seq<LocatedView<TokenView>>, pos: int) -> Result<
    (StmtView, int),
    ParseErrorView,
>
    decreases t.len() - pos, 6int, when 0 <= pos <= t.len()
{
    if !(tok_at(t, pos) is Var) {
        Err(ParseErrorView::MissingToken)
    } else {
        match tok_at(t, pos + 1) {
            TokenView::Identifier(name) => {
                if tok_at(t, pos + 2) is Equal {
                    match spec_parse_expression(t, pos + 3) {
                        Err(e) => Err(e),
                        Ok((init, p1)) => {
                            if tok_at(t, p1) is Semicolon {
                                Ok(
                                    (
                                        StmtView::Var {
                                            loc: loc_at(t, pos),
                                            identifier: name,
                                            initializer: Some(init),
                                        },
                                        p1 + 1,
                                    ),
                                )
                            } else {
                                Err(ParseErrorView::MissingToken)
                            }
                        },
                    }
                } else if tok_at(t, pos + 2) is Semicolon {
                    Ok(
                        (
                            StmtView::Var {
                                loc: loc_at(t, pos),
                                identifier: name,
                                initializer: None,
                            },
                            pos + 3,
                        ),
                    )
                } else {
                    Err(ParseErrorView::MissingToken)
                }
            },
            _ => Err(ParseErrorView::UnexpectedToken),
        }
    }
}

/// The header of a function declaration: `fn name(params) (-> Type)?
/// (effects A, B)?`, up to (not including) the body's opening brace.
/// Gives the name, the parameter names, and the cursor after the header.
pub open spec fn spec_parse_fn_header(t: Seq<LocatedView<TokenView>>, pos: int) -> Result<
    (Seq<char>, Seq<Seq<char>>, int),
    ParseErrorView,
>
    decreases t.len() - pos, 5int, when 0 <= pos <= t.len()
{
    if !(tok_at(t, pos) is Fn) {
        Err(ParseErrorView::MissingToken)
    } else {
        match tok_at(t, pos + 1) {
            TokenView::Identifier(name) => {
                if !(tok_at(t, pos + 2) is LParen) {
                    Err(ParseErrorView::MissingToken)
                } else {
                    let params_res: Result<(Seq<Seq<char>>, int), ParseErrorView> = if tok_at(
                        t,
                        pos + 3,
                    ) is RParen {
                        Ok((Seq::empty(), pos + 3))
                    } else {
                        spec_parse_name_list(t, pos + 3)
                    };
                    match params_res {
                        Err(e) => Err(e),
                        Ok((params, pp)) => {
                            if !(pos + 3 <= pp <= t.len()) {
                                Err(ParseErrorView::InvalidExpression)
                            } else if !(tok_at(t, pp) is RParen) {
                                Err(ParseErrorView::MissingToken)
                            } else {
                                let ret_res: Result<int, ParseErrorView> = if tok_at(
                                    t,
                                    pp + 1,
                                ) is Arrow {
                                    match tok_at(t, pp + 2) {
                                        TokenView::Identifier(_) => Ok(pp + 3),
                                        _ => Err(ParseErrorView::UnexpectedToken),
                                    }
                                } else {
                                    Ok(pp + 1)
                                };
                                match ret_res {
                                    Err(e) => Err(e),
                                    Ok(pr) => {
                                        let eff_res: Result<int, ParseErrorView> = match tok_at(
                                            t,
                                            pr,
                                        ) {
                                            TokenView::Identifier(id) => {
                                                if id == "effects"@ {
                                                    match spec_parse_name_list(t, pr + 1) {
                                                        Ok((_, pe)) => Ok(pe),
                                                        Err(e) => Err(e),
                                                    }
                                                } else {
                                                    Ok(pr)
                                                }
                                            },
                                            _ => Ok(pr),
                                        };
                                        match eff_res {
                                            Err(e) => Err(e),
                                            Ok(pe) => Ok((name, params, pe)),
                                        }
                                    },
                                }
                            }
                        },
                    }
                }
            },
            _ => Err(ParseErrorView::UnexpectedToken),
        }
    }
}

/// A function declaration: its header, then a braced body.  The return
/// type and effects list are checked but not stored.
pub open spec fn spec_parse_function(t: Seq<LocatedView<TokenView>>, pos: int) -> Result<
    (StmtView, int),
    ParseErrorView,
>
    decreases t.len() - pos, 6int, when 0 <= pos <= t.len()
{
    match spec_parse_fn_header(t, pos) {
        Err(e) => Err(e),
        Ok((name, params, pe)) => {
            if !(pos < pe <= t.len()) {
                Err(ParseErrorView::InvalidExpression)
            } else if !(tok_at(t, pe) is LBrace) {
                Err(ParseErrorView::MissingToken)
            } else {
                match spec_parse_block(t, pe + 1) {
                    Err(e) => Err(e),
                    Ok((blk, pb)) => match blk {
                        StmtView::Block { statements, .. } => Ok(
                            (
                                StmtView::Function {
                                    loc: loc_at(t, pos),
                                    name,
                                    parameters: params,
                                    body: statements,
                                },
                                pb,
                            ),
                        ),
                        _ => Err(ParseErrorView::InvalidExpression),
                    },
                }
            }
        },
    }
}

/// One operation of an `effect` block:
/// `fn name(p: T, ...) (-> R)? ;`.
pub open spec fn spec_parse_effect_op(t: Seq<LocatedView<TokenView>>, pos: int) -> Result<
    (EffectOperationView, int),
    ParseErrorView,
>
    decreases t.len() - pos, 4int, when 0 <= pos <= t.len()
{
    if !(tok_at(t, pos) is Fn) {
        Err(ParseErrorView::MissingToken)
    } else {
        match tok_at(t, pos + 1) {
            TokenView::Identifier(opname) => {
                if !(tok_at(t, pos + 2) is LParen) {
                    Err(ParseErrorView::MissingToken)
                } else {
                    let params_res: Result<
                        (Seq<(Seq<char>, Seq<char>)>, int),
                        ParseErrorView,
                    > = if tok_at(t, pos + 3) is RParen {
                        Ok((Seq::empty(), pos + 3))
                    } else {
                        spec_parse_typed_params(t, pos + 3)
                    };
                    match params_res {
                        Err(e) => Err(e),
                        Ok((params, pp)) => {
                            if !(pos + 3 <= pp <= t.len()) {
                                Err(ParseErrorView::InvalidExpression)
                            } else if !(tok_at(t, pp) is RParen) {
                                Err(ParseErrorView::MissingToken)
                            } else {
                                let ret_res: Result<
                                    (Option<Seq<char>>, int),
                                    ParseErrorView,
                                > = if tok_at(t, pp + 1) is Arrow {
                                    match tok_at(t, pp + 2) {
                                        TokenView::Identifier(rt) => Ok((Some(rt), pp + 3)),
                                        _ => Err(ParseErrorView::UnexpectedToken),
                                    }
                                } else {
                                    Ok((None, pp + 1))
                                };
                                match ret_res {
                                    Err(e) => Err(e),
                                    Ok((ret, pr)) => {
                                        if !(tok_at(t, pr) is Semicolon) {
                                            Err(ParseErrorView::MissingToken)
                                        } else {
                                            Ok(
                                                (
                                                    EffectOperationView {
                                                        name: opname,
                                                        parameters: params,
                                                        return_type: ret,
                                                    },
                                                    pr + 1,
                                                ),
                                            )
                                        }
                                    },
                                }
                            }
                        },
                    }
                }
            },
            _ => Err(ParseErrorView::UnexpectedToken),
        }
    }
}

/// The operations of an `effect` block, up to the closing brace.
pub open spec fn spec_parse_effect_ops(t: Seq<LocatedView<TokenView>>, pos: int) -> Result<
    (Seq<EffectOperationView>, int),
    ParseErrorView,
>
    decreases t.len() - pos, 5int, when 0 <= pos <= t.len()
{
    if at_end(t, pos) || tok_at(t, pos) is RBrace {
        Ok((Seq::empty(), pos))
    } else {
        match spec_parse_effect_op(t, pos) {
            Err(e) => Err(e),
            Ok((op, p1)) => {
                if !(pos < p1 <= t.len()) {
                    Err(ParseErrorView::InvalidExpression)
                } else {
                    match spec_parse_effect_ops(t, p1) {
                        Err(e) => Err(e),
                        Ok((rest, n)) => Ok((seq![op] + rest, n)),
                    }
                }
            },
        }
    }
}

/// An `effect Name { operations }` declaration.
pub open spec fn spec_parse_effect(t: Seq<LocatedView<TokenView>>, pos: int) -> Result<
    (StmtView, int),
    ParseErrorView,
>
    decreases t.len() - pos, 6int, when 0 <= pos <= t.len()
{
    if !(tok_at(t, pos) is Effect) {
        Err(ParseErrorView::MissingToken)
    } else {
        match tok_at(t, pos + 1) {
            TokenView::Identifier(name) => {
                if !(tok_at(t, pos + 2) is LBrace) {
                    Err(ParseErrorView::MissingToken)
                } else {
                    match spec_parse_effect_ops(t, pos + 3) {
                        Err(e) => Err(e),
                        Ok((ops, p1)) => {
                            if !(tok_at(t, p1) is RBrace) {
                                Err(ParseErrorView::MissingToken)
                            } else {
                                Ok(
                                    (
                                        StmtView::Effect {
                                            loc: loc_at(t, pos),
                                            declaration: EffectDeclarationView {
                                                name,
                                                operations: ops,
                                            },
                                        },
                                        p1 + 1,
                                    ),
                                )
                            }
                        },
                    }
                }
            },
            _ => Err(ParseErrorView::UnexpectedToken),
        }
    }
}

/// One clause of a `handle` block: `op(params) { body }`.
pub open spec fn spec_parse_handler_clause(t: Seq<LocatedView<TokenView>>, pos: int) -> Result<
    (HandlerClauseView, int),
    ParseErrorView,
>
    decreases t.len() - pos, 4int, when 0 <= pos <= t.len()
{
    match tok_at(t, pos) {
        TokenView::Identifier(opname) => {
            if !(tok_at(t, pos + 1) is LParen) {
                Err(ParseErrorView::MissingToken)
            } else {
                let params_res: Result<(Seq<Seq<char>>, int), ParseErrorView> = if tok_at(
                    t,
                    pos + 2,
                ) is RParen {
                    Ok((Seq::empty(), pos + 2))
                } else {
                    spec_parse_name_list(t, pos + 2)
                };
                match params_res {
                    Err(e) => Err(e),
                    Ok((params, pp)) => {
                        if !(pos + 2 <= pp <= t.len()) {
                            Err(ParseErrorView::InvalidExpression)
                        } else if !(tok_at(t, pp) is RParen) {
                            Err(ParseErrorView::MissingToken)
                        } else if !(tok_at(t, pp + 1) is LBrace) {
                            Err(ParseErrorView::MissingToken)
                        } else {
                            match spec_parse_block(t, pp + 2) {
                                Err(e) => Err(e),
                                Ok((blk, pb)) => match blk {
                                    StmtView::Block { statements, .. } => Ok(
                                        (
                                            HandlerClauseView {
                                                operation: opname,
                                                parameters: params,
                                                body: statements,
                                            },
                                            pb,
                                        ),
                                    ),
                                    _ => Err(ParseErrorView::InvalidExpression),
                                },
                            }
                        }
                    },
                }
            }
        },
        _ => Err(ParseErrorView::UnexpectedToken),
    }
}

/// The clauses of a `handle` block, up to the closing brace.
pub open spec fn spec_parse_handler_clauses(t: Seq<LocatedView<TokenView>>, pos: int) -> Result<
    (Seq<HandlerClauseView>, int),
    ParseErrorView,
>
    decreases t.len() - pos, 5int, when 0 <= pos <= t.len()
{
    if at_end(t, pos) || tok_at(t, pos) is RBrace {
        Ok((Seq::empty(), pos))
    } else {
        match spec_parse_handler_clause(t, pos) {
            Err(e) => Err(e),
            Ok((cl, p1)) => {
                if !(pos < p1 <= t.len()) {
                    Err(ParseErrorView::InvalidExpression)
                } else {
                    match spec_parse_handler_clauses(t, p1) {
                        Err(e) => Err(e),
                        Ok((rest, n)) => Ok((seq![cl] + rest, n)),
                    }
                }
            },
        }
    }
}

/// A `handle Effect { clauses }` declaration.
pub open spec fn spec_parse_handler(t: Seq<LocatedView<TokenView>>, pos: int) -> Result<
    (StmtView, int),
    ParseErrorView,
>
    decreases t.len() - pos, 6int, when 0 <= pos <= t.len()
{
    if !(tok_at(t, pos) is Handle) {
        Err(ParseErrorView::MissingToken)
    } else {
        match tok_at(t, pos + 1) {
            TokenView::Identifier(effect) => {
                if !(tok_at(t, pos + 2) is LBrace) {
                    Err(ParseErrorView::MissingToken)
                } else {
                    match spec_parse_handler_clauses(t, pos + 3) {
                        Err(e) => Err(e),
                        Ok((clauses, p1)) => {
                            if !(tok_at(t, p1) is RBrace) {
                                Err(ParseErrorView::MissingToken)
                            } else {
                                Ok(
                                    (
                                        StmtView::Handler {
                                            loc: loc_at(t, pos),
                                            declaration: HandlerDeclarationView {
                                                effect,
                                                clauses,
                                            },
                                        },
                                        p1 + 1,
                                    ),
                                )
                            }
                        },
                    }
                }
            },
            _ => Err(ParseErrorView::UnexpectedToken),
        }
    }
}

/// An `effect_group Name = A, B;` declaration; `pos` is at the contextual
/// `effect_group` identifier.
pub open spec fn spec_parse_effect_group(t: Seq<LocatedView<TokenView>>, pos: int) -> Result<
    (StmtView, int),
    ParseErrorView,
>
    decreases t.len() - pos, 6int, when 0 <= pos <= t.len()
{
    match tok_at(t, pos + 1) {
        TokenView::Identifier(name) => {
            if !(tok_at(t, pos + 2) is Equal) {
                Err(ParseErrorView::MissingToken)
            } else {
                match spec_parse_name_list(t, pos + 3) {
                    Err(e) => Err(e),
                    Ok((names, p1)) => {
                        if !(tok_at(t, p1) is Semicolon) {
                            Err(ParseErrorView::MissingToken)
                        } else {
                            Ok(
                                (
                                    StmtView::EffectGroup {
                                        loc: loc_at(t, pos),
                                        declaration: EffectGroupDeclarationView {
                                            name,
                                            effects: names,
                                        },
                                    },
                                    p1 + 1,
                                ),
                            )
                        }
                    },
                }
            }
        },
        _ => Err(ParseErrorView::UnexpectedToken),
    }
}

/// A `handler_group Name = A, B;` declaration; `pos` is at the contextual
/// `handler_group` identifier.
pub open spec fn spec_parse_handler_group(t: Seq<LocatedView<TokenView>>, pos: int) -> Result<
    (StmtView, int),
    ParseErrorView,
>
    decreases t.len() - pos, 6int, when 0 <= pos <= t.len()
{
    match tok_at(t, pos + 1) {
        TokenView::Identifier(name) => {
            if !(tok_at(t, pos + 2) is Equal) {
                Err(ParseErrorView::MissingToken)
            } else {
                match spec_parse_name_list(t, pos + 3) {
                    Err(e) => Err(e),
                    Ok((names, p1)) => {
                        if !(tok_at(t, p1) is Semicolon) {
                            Err(ParseErrorView::MissingToken)
                        } else {
                            Ok(
                                (
                                    StmtView::HandlerGroup {
                                        loc: loc_at(t, pos),
                                        declaration: HandlerGroupDeclarationView {
                                            name,
                                            handlers: names,
                                        },
                                    },
                                    p1 + 1,
                                ),
                            )
                        }
                    },
                }
            }
        },
        _ => Err(ParseErrorView::UnexpectedToken),
    }
}

/// Dispatches a declaration on the current token: `let`, `var`, `fn`,
/// `effect`, `handle`, or the contextual group keywords.
pub open spec fn spec_parse_declaration_statement(
    t: Seq<LocatedView<TokenView>>,
    pos: int,
) -> Result<(StmtView, int), ParseErrorView>
    decreases t.len() - pos, 7int, when 0 <= pos <= t.len()
{
    match tok_at(t, pos) {
        TokenView::Let => spec_parse_let(t, pos),
        TokenView::Var => spec_parse_var(t, pos),
        TokenView::Fn => spec_parse_function(t, pos),
        TokenView::Effect => spec_parse_effect(t, pos),
        TokenView::Handle => spec_parse_handler(t, pos),
        TokenView::EffectGroup => spec_parse_effect_group(t, pos),
        TokenView::HandlerGroup => spec_parse_handler_group(t, pos),
        TokenView::Identifier(id) => {
            if id == "effect_group"@ {
                spec_parse_effect_group(t, pos)
            } else if id == "handler_group"@ {
                spec_parse_handler_group(t, pos)
            } else {
                Err(ParseErrorView::UnexpectedToken)
            }
        },
        _ => Err(ParseErrorView::UnexpectedToken),
    }
}

/// A statement: a block in braces, or an expression statement.
pub open spec fn spec_parse_statement(t: Seq<LocatedView<TokenView>>, pos: int) -> Result<
    (StmtView, int),
    ParseErrorView,
>
    decreases t.len() - pos, 7int, when 0 <= pos <= t.len()
{
    if tok_at(t, pos) is LBrace {
        spec_parse_block(t, pos + 1)
    } else {
        spec_parse_expression_statement(t, pos)
    }
}

/// A declaration, or failing the declaration keywords, a statement.
pub open spec fn spec_parse_declaration(t: Seq<LocatedView<TokenView>>, pos: int) -> Result<
    (StmtView, int),
    ParseErrorView,
>
    decreases t.len() - pos, 8int, when 0 <= pos <= t.len()
{
    let tk = tok_at(t, pos);
    if tk is Let || tk is Var || tk is Fn || tk is Effect || tk is Handle || tk is EffectGroup
        || tk is HandlerGroup {
        spec_parse_declaration_statement(t, pos)
    } else {
        match tk {
            TokenView::Identifier(id) => {
                if id == "effect_group"@ || id == "handler_group"@ {
                    spec_parse_declaration_statement(t, pos)
                } else {
                    spec_parse_statement(t, pos)
                }
            },
            _ => spec_parse_statement(t, pos),
        }
    }
}

/// The declarations of a block, up to the closing brace or the end.
pub open spec fn spec_parse_block_items(t: Seq<LocatedView<TokenView>>, pos: int) -> Result<
    (Seq<StmtView>, int),
    ParseErrorView,
>
    decreases t.len() - pos, 9int, when 0 <= pos <= t.len()
{
    if at_end(t, pos) || tok_at(t, pos) is RBrace {
        Ok((Seq::empty(), pos))
    } else {
        match spec_parse_declaration(t, pos) {
            Err(e) => Err(e),
            Ok((s1, p1)) => {
                if !(pos < p1 <= t.len()) {
                    Err(ParseErrorView::InvalidExpression)
                } else {
                    match spec_parse_block_items(t, p1) {
                        Err(e) => Err(e),
                        Ok((rest, n)) => Ok((seq![s1] + rest, n)),
                    }
                }
            },
        }
    }
}

/// A block whose opening brace is already consumed: its declarations and
/// the closing brace.  The block carries the closing brace's location.
pub open spec fn spec_parse_block(t: Seq<LocatedView<TokenView>>, pos: int) -> Result<
    (StmtView, int),
    ParseErrorView,
>
    decreases t.len() - pos, 10int, when 0 <= pos <= t.len()
{
    match spec_parse_block_items(t, pos) {
        Err(e) => Err(e),
        Ok((items, p1)) => {
            if tok_at(t, p1) is RBrace {
                Ok((StmtView::Block { loc: loc_at(t, p1), statements: items }, p1 + 1))
            } else {
                Err(ParseErrorView::MissingToken)
            }
        },
    }
}

/// A whole program: declarations until the end of the token sequence.
pub open spec fn spec_parse_program(t: Seq<LocatedView<TokenView>>, pos: int) -> Result<
    Seq<StmtView>,
    ParseErrorView,
>
    decreases t.len() - pos, 9int, when 0 <= pos <= t.len()
{
    if at_end(t, pos) {
        Ok(Seq::empty())
    } else {
        match spec_parse_declaration(t, pos) {
            Err(e) => Err(e),
            Ok((s1, p1)) => {
                if !(pos < p1 <= t.len()) {
                    Err(ParseErrorView::InvalidExpression)
                } else {
                    match spec_parse_program(t, p1) {
                        Err(e) => Err(e),
                        Ok(rest) => Ok(seq![s1] + rest),
                    }
                }
            },
        }
    }
}

/// Parsing is deterministic: the result is a function of the token sequence
/// alone, so any two parses of the same tokens yield the same statements or
/// the same error.
pub proof fn lemma_parse_deterministic(
    t: Seq<LocatedView<TokenView>>,
    a: Result<Seq<StmtView>, ParseErrorView>,
    b: Result<Seq<StmtView>, ParseErrorView>,
)
    requires
        a == spec_parse_program(t, 0),
        b == spec_parse_program(t, 0),
    ensures
        a == b,
{
}


// ---------------------------------------------------------------------------
// The executable parser
// ---------------------------------------------------------------------------
/// The views of a vector of located tokens.
pub open spec fn tokens_view(s: Seq<Locatable<Token>>) -> Seq<LocatedView<TokenView>> {
    s.map_values(|l: Locatable<Token>| LocatedView { location: l.location@, data: l.data@ })
}

/// How an executable expression parse must relate to its specification:
/// same success or failure, the same node view, and on success the cursor
/// lands exactly where the specification says, strictly past where it began.
pub open spec fn expr_outcome(
    sp: Result<(ExprView, int), ParseErrorView>,
    r: Result<Expr, ParseError>,
    p0: int,
    n: int,
) -> bool {
    match sp {
        Ok((ev, sn)) => r matches Ok(e) && e@ == ev && n == sn && p0 < sn,
        Err(se) => r matches Err(e) && e@ == se,
    }
}

/// The statement counterpart of `expr_outcome`.
pub open spec fn stmt_outcome(
    sp: Result<(StmtView, int), ParseErrorView>,
    r: Result<Stmt, ParseError>,
    p0: int,
    n: int,
) -> bool {
    match sp {
        Ok((sv, sn)) => r matches Ok(s) && s@ == sv && n == sn && p0 < sn,
        Err(se) => r matches Err(e) && e@ == se,
    }
}

/// The parser: owns the token sequence and a single cursor into it.
pub struct Parser {
    tokens: Vec<Locatable<Token>>,
    current: usize,
}

impl Parser {
    /// The views of the owned tokens.
    pub closed spec fn toks(&self) -> Seq<LocatedView<TokenView>> {
        tokens_view(self.tokens@)
    }

    /// The cursor position.
    pub closed spec fn cursor(&self) -> int {
        self.current as int
    }

    /// The cursor never passes the end of the token sequence.
    pub closed spec fn wf(&self) -> bool {
        self.current <= self.tokens.len()
    }

    /// Builds a parser over an already-collected token sequence.
    pub fn new(tokens: Vec<Locatable<Token>>) -> (p: Parser)
        ensures
            p.wf(),
            p.cursor() == 0,
            p.toks() == tokens_view(tokens@),
    {
        Parser { tokens, current: 0 }
    }

    /// The cursor is past the last token, or on an explicit `Eof`.
    fn is_at_end(&self) -> (r: bool)
        requires
            self.wf(),
        ensures
            r == at_end(self.toks(), self.cursor()),
    {
        self.current >= self.tokens.len() || matches!(
            self.tokens[self.current].data,
            Token::Eof,
        )
    }

    /// Consumes one token.
    fn advance(&mut self)
        requires
            old(self).wf(),
            old(self).cursor() < old(self).toks().len(),
        ensures
            final(self).wf(),
            final(self).toks() == old(self).toks(),
            final(self).cursor() == old(self).cursor() + 1,
    {
        self.current = self.current + 1;
    }

    /// A copy of the location of the token under the cursor.
    fn token_location(&self) -> (r: Location)
        requires
            self.wf(),
            self.cursor() < self.toks().len(),
        ensures
            r@ == loc_at(self.toks(), self.cursor()),
    {
        self.tokens[self.current].location.clone()
    }


    /// True when the token under the cursor is `fn`.
    fn at_fn(&self) -> (r: bool)
        requires
            self.wf(),
        ensures
            r == (tok_at(self.toks(), self.cursor()) is Fn),
    {
        self.current < self.tokens.len() && matches!(self.tokens[self.current].data, Token::Fn)
    }

    /// True when the token under the cursor is `handle`.
    fn at_handle(&self) -> (r: bool)
        requires
            self.wf(),
        ensures
            r == (tok_at(self.toks(), self.cursor()) is Handle),
    {
        self.current < self.tokens.len() && matches!(self.tokens[self.current].data, Token::Handle)
    }

    /// True when the token under the cursor is `(`.
    fn at_lparen(&self) -> (r: bool)
        requires
            self.wf(),
        ensures
            r == (tok_at(self.toks(), self.cursor()) is LParen),
    {
        self.current < self.tokens.len() && matches!(self.tokens[self.current].data, Token::LParen)
    }

    /// True when the token under the cursor is `)`.
    fn at_rparen(&self) -> (r: bool)
        requires
            self.wf(),
        ensures
            r == (tok_at(self.toks(), self.cursor()) is RParen),
    {
        self.current < self.tokens.len() && matches!(self.tokens[self.current].data, Token::RParen)
    }

    /// True when the token under the cursor is `{`.
    fn at_lbrace(&self) -> (r: bool)
        requires
            self.wf(),
        ensures
            r == (tok_at(self.toks(), self.cursor()) is LBrace),
    {
        self.current < self.tokens.len() && matches!(self.tokens[self.current].data, Token::LBrace)
    }

    /// True when the token under the cursor is `}`.
    fn at_rbrace(&self) -> (r: bool)
        requires
            self.wf(),
        ensures
            r == (tok_at(self.toks(), self.cursor()) is RBrace),
    {
        self.current < self.tokens.len() && matches!(self.tokens[self.current].data, Token::RBrace)
    }

    /// True when the token under the cursor is `->`.
    fn at_arrow(&self) -> (r: bool)
        requires
            self.wf(),
        ensures
            r == (tok_at(self.toks(), self.cursor()) is Arrow),
    {
        self.current < self.tokens.len() && matches!(self.tokens[self.current].data, Token::Arrow)
    }

    /// True when the token under the cursor is `;`.
    fn at_semicolon(&self) -> (r: bool)
        requires
            self.wf(),
        ensures
            r == (tok_at(self.toks(), self.cursor()) is Semicolon),
    {
        self.current < self.tokens.len() && matches!(
            self.tokens[self.current].data,
            Token::Semicolon,
        )
    }

    /// The identifier text under the cursor, if the cursor is on an
    /// identifier token.
    fn clone_identifier(&self) -> (r: Option<String>)
        requires
            self.wf(),
        ensures
            match tok_at(self.toks(), self.cursor()) {
                TokenView::Identifier(nm) => r matches Some(s) && s@ == nm && self.cursor()
                    < self.toks().len(),
                _ => r is None,
            },
    {
        if self.current < self.tokens.len() {
            match &self.tokens[self.current].data {
                Token::Identifier(name) => Some(name.clone()),
                _ => None,
            }
        } else {
            None
        }
    }

    /// The precedence of the binary operator under the cursor, if any.
    fn get_precedence(&self) -> (r: Option<u8>)
        requires
            self.wf(),
        ensures
            match spec_precedence(tok_at(self.toks(), self.cursor())) {
                Some(p) => r matches Some(v) && v as int == p && 1 <= v <= 6 && self.cursor()
                    < self.toks().len(),
                None => r is None,
            },
    {
        if self.current >= self.tokens.len() {
            return None;
        }
        match &self.tokens[self.current].data {
            Token::Or => Some(1),
            Token::And => Some(2),
            Token::EqualEqual | Token::BangEqual => Some(3),
            Token::Less | Token::LessEqual | Token::Greater | Token::GreaterEqual => Some(4),
            Token::Plus | Token::Minus => Some(5),
            Token::Star | Token::Slash | Token::Percent => Some(6),
            _ => None,
        }
    }

    /// The binary operator denoted by the token under the cursor.
    fn parse_binary_operator(&self) -> (r: Result<BinaryOperator, ParseError>)
        requires
            self.wf(),
        ensures
            spec_precedence(tok_at(self.toks(), self.cursor())) is Some ==> (r matches Ok(op)
                && op == spec_binary_op(tok_at(self.toks(), self.cursor()))),
            spec_precedence(tok_at(self.toks(), self.cursor())) is None ==> r is Err,
    {
        if self.current >= self.tokens.len() {
            return Err(ParseError::UnexpectedToken("expected a binary operator".to_owned()));
        }
        match &self.tokens[self.current].data {
            Token::Plus => Ok(BinaryOperator::Add),
            Token::Minus => Ok(BinaryOperator::Subtract),
            Token::Star => Ok(BinaryOperator::Multiply),
            Token::Slash => Ok(BinaryOperator::Divide),
            Token::Percent => Ok(BinaryOperator::Modulo),
            Token::EqualEqual => Ok(BinaryOperator::Equal),
            Token::BangEqual => Ok(BinaryOperator::NotEqual),
            Token::Less => Ok(BinaryOperator::Less),
            Token::LessEqual => Ok(BinaryOperator::LessEqual),
            Token::Greater => Ok(BinaryOperator::Greater),
            Token::GreaterEqual => Ok(BinaryOperator::GreaterEqual),
            Token::And => Ok(BinaryOperator::And),
            Token::Or => Ok(BinaryOperator::Or),
            _ => Err(ParseError::UnexpectedToken("expected a binary operator".to_owned())),
        }
    }

    /// Parses a comma-separated, non-empty identifier list.
    fn parse_name_list(&mut self) -> (r: Result<Vec<String>, ParseError>)
        requires
            old(self).wf(),
        ensures
            final(self).wf(),
            final(self).toks() == old(self).toks(),
            match spec_parse_name_list(old(self).toks(), old(self).cursor()) {
                Ok((names, n)) => r matches Ok(v) && names_view(v@) == names
                    && final(self).cursor() == n && old(self).cursor() < n,
                Err(se) => r matches Err(e) && e@ == se,
            },
        decreases old(self).toks().len() - old(self).cursor(), 5int,
    {
        let name = match self.clone_identifier() {
            Some(n) => n,
            None => {
                return Err(ParseError::UnexpectedToken("Expected name".to_owned()));
            },
        };
        self.advance();
        if self.current < self.tokens.len() && matches!(
            self.tokens[self.current].data,
            Token::Comma,
        ) {
            self.advance();
            let ghost nm = name@;
            match self.parse_name_list() {
                Ok(mut rest) => {
                    let ghost r0 = rest@;
                    rest.insert(0, name);
                    proof {
                        assert(names_view(rest@) =~= seq![nm] + names_view(r0));
                    }
                    Ok(rest)
                },
                Err(e) => Err(e),
            }
        } else {
            let ghost nm = name@;
            let mut names: Vec<String> = Vec::new();
            names.push(name);
            proof {
                assert(names_view(names@) =~= seq![nm]);
            }
            Ok(names)
        }
    }

    /// Parses a comma-separated, non-empty `name: type` parameter list.
    fn parse_typed_params(&mut self) -> (r: Result<Vec<(String, String)>, ParseError>)
        requires
            old(self).wf(),
        ensures
            final(self).wf(),
            final(self).toks() == old(self).toks(),
            match spec_parse_typed_params(old(self).toks(), old(self).cursor()) {
                Ok((ps, n)) => r matches Ok(v) && pairs_view(v@) == ps
                    && final(self).cursor() == n && old(self).cursor() < n,
                Err(se) => r matches Err(e) && e@ == se,
            },
        decreases old(self).toks().len() - old(self).cursor(), 5int,
    {
        let pname = match self.clone_identifier() {
            Some(n) => n,
            None => {
                return Err(ParseError::UnexpectedToken("Expected parameter name".to_owned()));
            },
        };
        self.advance();
        if !(self.current < self.tokens.len() && matches!(
            self.tokens[self.current].data,
            Token::Colon,
        )) {
            return Err(ParseError::MissingToken("Expected ':' after parameter name".to_owned()));
        }
        self.advance();
        let ptype = match self.clone_identifier() {
            Some(n) => n,
            None => {
                return Err(ParseError::UnexpectedToken("Expected parameter type".to_owned()));
            },
        };
        self.advance();
        let ghost pv = (pname@, ptype@);
        if self.current < self.tokens.len() && matches!(
            self.tokens[self.current].data,
            Token::Comma,
        ) {
            self.advance();
            match self.parse_typed_params() {
                Ok(mut rest) => {
                    let ghost r0 = rest@;
                    rest.insert(0, (pname, ptype));
                    proof {
                        assert(pairs_view(rest@) =~= seq![pv] + pairs_view(r0));
                    }
                    Ok(rest)
                },
                Err(e) => Err(e),
            }
        } else {
            let mut params: Vec<(String, String)> = Vec::new();
            params.push((pname, ptype));
            proof {
                assert(pairs_view(params@) =~= seq![pv]);
            }
            Ok(params)
        }
    }

    /// Parses a comma-separated, non-empty argument list.
    fn parse_arguments(&mut self) -> (r: Result<Vec<Expr>, ParseError>)
        requires
            old(self).wf(),
        ensures
            final(self).wf(),
            final(self).toks() == old(self).toks(),
            match spec_parse_args(old(self).toks(), old(self).cursor()) {
                Ok((args, n)) => r matches Ok(v) && exprs_view(v@) == args
                    && final(self).cursor() == n && old(self).cursor() < n,
                Err(se) => r matches Err(e) && e@ == se,
            },
        decreases old(self).toks().len() - old(self).cursor(), 5int,
    {
        let e1 = match self.parse_expression() {
            Ok(e) => e,
            Err(e) => {
                return Err(e);
            },
        };
        let ghost ev = e1@;
        if self.current < self.tokens.len() && matches!(
            self.tokens[self.current].data,
            Token::Comma,
        ) {
            self.advance();
            match self.parse_arguments() {
                Ok(mut rest) => {
                    let ghost r0 = rest@;
                    rest.insert(0, e1);
                    proof {
                        assert(rest@.drop_first() =~= r0);
                        assert(exprs_view(rest@) == seq![ev] + exprs_view(r0));
                    }
                    Ok(rest)
                },
                Err(e) => Err(e),
            }
        } else {
            let mut args: Vec<Expr> = Vec::new();
            args.push(e1);
            proof {
                assert(args@.drop_first() =~= Seq::<Expr>::empty());
                assert(exprs_view(args@) == seq![ev] + exprs_view(Seq::<Expr>::empty()));
                assert(exprs_view(args@) =~= seq![ev]);
            }
            Ok(args)
        }
    }

    /// Parses a primary expression: a literal, an identifier, an effect
    /// operation call `Effect.operation(args)`, or a parenthesized grouping.
    fn parse_primary_expression(&mut self) -> (r: Result<Expr, ParseError>)
        requires
            old(self).wf(),
        ensures
            final(self).wf(),
            final(self).toks() == old(self).toks(),
            expr_outcome(
                spec_parse_primary(old(self).toks(), old(self).cursor()),
                r,
                old(self).cursor(),
                final(self).cursor(),
            ),
        decreases old(self).toks().len() - old(self).cursor(), 1int,
    {
        if self.current >= self.tokens.len() {
            return Err(ParseError::UnexpectedToken("unexpected end of input".to_owned()));
        }
        if matches!(self.tokens[self.current].data, Token::Eof) {
            return Err(ParseError::UnexpectedToken("unexpected end of input".to_owned()));
        }
        if matches!(self.tokens[self.current].data, Token::True) {
            let location = self.token_location();
            self.advance();
            return Ok(
                Expr::Literal {
                    location_line: location.line,
                    location_column: location.column,
                    location_file: location.file,
                    value: Literal::Boolean(true),
                },
            );
        }
        if matches!(self.tokens[self.current].data, Token::False) {
            let location = self.token_location();
            self.advance();
            return Ok(
                Expr::Literal {
                    location_line: location.line,
                    location_column: location.column,
                    location_file: location.file,
                    value: Literal::Boolean(false),
                },
            );
        }
        let int_text: Option<String> = match &self.tokens[self.current].data {
            Token::IntegerLiteral(s) => Some(s.clone()),
            _ => None,
        };
        if let Some(text) = int_text {
            let location = self.token_location();
            self.advance();
            return Ok(
                Expr::Literal {
                    location_line: location.line,
                    location_column: location.column,
                    location_file: location.file,
                    value: Literal::Integer(text),
                },
            );
        }
        let float_text: Option<String> = match &self.tokens[self.current].data {
            Token::FloatLiteral(s) => Some(s.clone()),
            _ => None,
        };
        if let Some(text) = float_text {
            let location = self.token_location();
            self.advance();
            return Ok(
                Expr::Literal {
                    location_line: location.line,
                    location_column: location.column,
                    location_file: location.file,
                    value: Literal::Float(text),
                },
            );
        }
        let string_text: Option<String> = match &self.tokens[self.current].data {
            Token::StringLiteral(s) => Some(s.clone()),
            _ => None,
        };
        if let Some(text) = string_text {
            let location = self.token_location();
            self.advance();
            return Ok(
                Expr::Literal {
                    location_line: location.line,
                    location_column: location.column,
                    location_file: location.file,
                    value: Literal::String(text),
                },
            );
        }
        let char_value: Option<char> = match &self.tokens[self.current].data {
            Token::CharLiteral(c) => Some(*c),
            _ => None,
        };
        if let Some(c) = char_value {
            let location = self.token_location();
            self.advance();
            return Ok(
                Expr::Literal {
                    location_line: location.line,
                    location_column: location.column,
                    location_file: location.file,
                    value: Literal::Char(c),
                },
            );
        }
        if let Some(name) = self.clone_identifier() {
            let location = self.token_location();
            self.advance();
            if self.current < self.tokens.len() && matches!(
                self.tokens[self.current].data,
                Token::Dot,
            ) {
                self.advance();
                let operation = match self.clone_identifier() {
                    Some(op) => op,
                    None => {
                        return Err(
                            ParseError::UnexpectedToken("Expected operation name".to_owned()),
                        );
                    },
                };
                self.advance();
                if !(self.current < self.tokens.len() && matches!(
                    self.tokens[self.current].data,
                    Token::LParen,
                )) {
                    return Err(
                        ParseError::MissingToken("Expected '(' after operation name".to_owned()),
                    );
                }
                self.advance();
                let arguments: Vec<Expr> = if self.current < self.tokens.len() && matches!(
                    self.tokens[self.current].data,
                    Token::RParen,
                ) {
                    Vec::new()
                } else {
                    match self.parse_arguments() {
                        Ok(v) => v,
                        Err(e) => {
                            return Err(e);
                        },
                    }
                };
                if !(self.current < self.tokens.len() && matches!(
                    self.tokens[self.current].data,
                    Token::RParen,
                )) {
                    return Err(
                        ParseError::MissingToken("Expected ')' after arguments".to_owned()),
                    );
                }
                self.advance();
                proof {
                    assert(exprs_view(Seq::<Expr>::empty()) =~= Seq::<ExprView>::empty());
                }
                let e = Expr::EffectOperation {
                    location_line: location.line,
                    location_column: location.column,
                    location_file: location.file,
                    effect: name,
                    operation,
                    arguments,
                };
                return Ok(e);
            }
            return Ok(
                Expr::Identifier {
                    location_line: location.line,
                    location_column: location.column,
                    location_file: location.file,
                    name,
                },
            );
        }
        if matches!(self.tokens[self.current].data, Token::LParen) {
            let location = self.token_location();
            self.advance();
            let expression = match self.parse_expression() {
                Ok(e) => e,
                Err(e) => {
                    return Err(e);
                },
            };
            if !(self.current < self.tokens.len() && matches!(
                self.tokens[self.current].data,
                Token::RParen,
            )) {
                return Err(ParseError::MissingToken("Expected ')' after expression".to_owned()));
            }
            self.advance();
            return Ok(
                Expr::Grouping {
                    location_line: location.line,
                    location_column: location.column,
                    location_file: location.file,
                    expression: Box::new(expression),
                },
            );
        }
        Err(ParseError::UnexpectedToken("unexpected token in expression".to_owned()))
    }

    /// Parses a unary expression: prefix `-` or `!`, right-recursively, then
    /// a primary expression.
    fn parse_unary_expression(&mut self) -> (r: Result<Expr, ParseError>)
        requires
            old(self).wf(),
        ensures
            final(self).wf(),
            final(self).toks() == old(self).toks(),
            expr_outcome(
                spec_parse_unary(old(self).toks(), old(self).cursor()),
                r,
                old(self).cursor(),
                final(self).cursor(),
            ),
        decreases old(self).toks().len() - old(self).cursor(), 2int,
    {
        if self.current < self.tokens.len() && matches!(
            self.tokens[self.current].data,
            Token::Minus,
        ) {
            let location = self.token_location();
            self.advance();
            let operand = match self.parse_unary_expression() {
                Ok(e) => e,
                Err(e) => {
                    return Err(e);
                },
            };
            return Ok(
                Expr::Unary {
                    location_line: location.line,
                    location_column: location.column,
                    location_file: location.file,
                    operator: UnaryOperator::Negate,
                    operand: Box::new(operand),
                },
            );
        }
        if self.current < self.tokens.len() && matches!(
            self.tokens[self.current].data,
            Token::Bang,
        ) {
            let location = self.token_location();
            self.advance();
            let operand = match self.parse_unary_expression() {
                Ok(e) => e,
                Err(e) => {
                    return Err(e);
                },
            };
            return Ok(
                Expr::Unary {
                    location_line: location.line,
                    location_column: location.column,
                    location_file: location.file,
                    operator: UnaryOperator::Not,
                    operand: Box::new(operand),
                },
            );
        }
        self.parse_primary_expression()
    }

    /// Parses a binary expression with minimum precedence `precedence`:
    /// after a left operand, operators of at least that precedence are
    /// consumed greedily, each right operand parsed one level higher.
    #[verifier::loop_isolation(false)]
    fn parse_binary_expression(&mut self, precedence: u8) -> (r: Result<Expr, ParseError>)
        requires
            old(self).wf(),
        ensures
            final(self).wf(),
            final(self).toks() == old(self).toks(),
            expr_outcome(
                spec_parse_binary(old(self).toks(), old(self).cursor(), precedence as int),
                r,
                old(self).cursor(),
                final(self).cursor(),
            ),
        decreases old(self).toks().len() - old(self).cursor(), 3int,
    {
        let ghost t = self.toks();
        let ghost p0 = self.cursor();
        let mut left = match self.parse_unary_expression() {
            Ok(e) => e,
            Err(e) => {
                return Err(e);
            },
        };
        loop
            invariant
                self.wf(),
                self.toks() == t,
                p0 < self.cursor() <= t.len(),
                spec_parse_binary(t, p0, precedence as int) == spec_parse_binary_rest(
                    t,
                    self.cursor(),
                    left@,
                    precedence as int,
                ),
            decreases t.len() - self.cursor(),
        {
            let prec_opt = self.get_precedence();
            match prec_opt {
                None => {
                    return Ok(left);
                },
                Some(cp) => {
                    if cp < precedence {
                        return Ok(left);
                    }
                    let operator = match self.parse_binary_operator() {
                        Ok(op) => op,
                        Err(e) => {
                            return Err(e);
                        },
                    };
                    let ghost cur0 = self.cursor();
                    self.advance();
                    let right = match self.parse_binary_expression(cp + 1) {
                        Ok(e) => e,
                        Err(e) => {
                            return Err(e);
                        },
                    };
                    let location = left.location();
                    let ghost leftv = left@;
                    let ghost rightv = right@;
                    left = Expr::Binary {
                        location_line: location.line,
                        location_column: location.column,
                        location_file: location.file,
                        left: Box::new(left),
                        operator,
                        right: Box::new(right),
                    };
                    proof {
                        assert(left@ == ExprView::Binary {
                            loc: leftv.loc(),
                            left: Box::new(leftv),
                            operator: spec_binary_op(tok_at(t, cur0)),
                            right: Box::new(rightv),
                        });
                    }
                },
            }
        }
    }

    /// Parses an expression: a precedence climb rooted at precedence 0.
    fn parse_expression(&mut self) -> (r: Result<Expr, ParseError>)
        requires
            old(self).wf(),
        ensures
            final(self).wf(),
            final(self).toks() == old(self).toks(),
            expr_outcome(
                spec_parse_expression(old(self).toks(), old(self).cursor()),
                r,
                old(self).cursor(),
                final(self).cursor(),
            ),
        decreases old(self).toks().len() - old(self).cursor(), 4int,
    {
        self.parse_binary_expression(0)
    }

    /// Parses an expression statement: an expression followed by `;`.
    fn parse_expression_statement(&mut self) -> (r: Result<Stmt, ParseError>)
        requires
            old(self).wf(),
        ensures
            final(self).wf(),
            final(self).toks() == old(self).toks(),
            stmt_outcome(
                spec_parse_expression_statement(old(self).toks(), old(self).cursor()),
                r,
                old(self).cursor(),
                final(self).cursor(),
            ),
        decreases old(self).toks().len() - old(self).cursor(), 6int,
    {
        let expression = match self.parse_expression() {
            Ok(e) => e,
            Err(e) => {
                return Err(e);
            },
        };
        let location = expression.location();
        if !(self.current < self.tokens.len() && matches!(
            self.tokens[self.current].data,
            Token::Semicolon,
        )) {
            return Err(ParseError::MissingToken("Expected ';' after expression".to_owned()));
        }
        self.advance();
        Ok(
            Stmt::Expression {
                location_line: location.line,
                location_column: location.column,
                location_file: location.file,
                expression,
            },
        )
    }

    /// Parses a `let` declaration.
    fn parse_let_declaration(&mut self) -> (r: Result<Stmt, ParseError>)
        requires
            old(self).wf(),
        ensures
            final(self).wf(),
            final(self).toks() == old(self).toks(),
            stmt_outcome(
                spec_parse_let(old(self).toks(), old(self).cursor()),
                r,
                old(self).cursor(),
                final(self).cursor(),
            ),
        decreases old(self).toks().len() - old(self).cursor(), 6int,
    {
        if !(self.current < self.tokens.len() && matches!(
            self.tokens[self.current].data,
            Token::Let,
        )) {
            return Err(ParseError::MissingToken("Expected 'let' keyword".to_owned()));
        }
        let location = self.token_location();
        self.advance();
        let identifier = match self.clone_identifier() {
            Some(n) => n,
            None => {
                return Err(ParseError::UnexpectedToken("Expected identifier".to_owned()));
            },
        };
        self.advance();
        let initializer: Option<Expr> = if self.current < self.tokens.len() && matches!(
            self.tokens[self.current].data,
            Token::Equal,
        ) {
            self.advance();
            match self.parse_expression() {
                Ok(e) => Some(e),
                Err(e) => {
                    return Err(e);
                },
            }
        } else {
            None
        };
        if !(self.current < self.tokens.len() && matches!(
            self.tokens[self.current].data,
            Token::Semicolon,
        )) {
            return Err(ParseError::MissingToken("Expected ';' after let declaration".to_owned()));
        }
        self.advance();
        Ok(
            Stmt::Let {
                location_line: location.line,
                location_column: location.column,
                location_file: location.file,
                identifier,
                initializer,
            },
        )
    }

    /// Parses a `var` declaration.
    fn parse_var_declaration(&mut self) -> (r: Result<Stmt, ParseError>)
        requires
            old(self).wf(),
        ensures
            final(self).wf(),
            final(self).toks() == old(self).toks(),
            stmt_outcome(
                spec_parse_var(old(self).toks(), old(self).cursor()),
                r,
                old(self).cursor(),
                final(self).cursor(),
            ),
        decreases old(self).toks().len() - old(self).cursor(), 6int,
    {
        if !(self.current < self.tokens.len() && matches!(
            self.tokens[self.current].data,
            Token::Var,
        )) {
            return Err(ParseError::MissingToken("Expected 'var' keyword".to_owned()));
        }
        let location = self.token_location();
        self.advance();
        let identifier = match self.clone_identifier() {
            Some(n) => n,
            None => {
                return Err(ParseError::UnexpectedToken("Expected identifier".to_owned()));
            },
        };
        self.advance();
        let initializer: Option<Expr> = if self.current < self.tokens.len() && matches!(
            self.tokens[self.current].data,
            Token::Equal,
        ) {
            self.advance();
            match self.parse_expression() {
                Ok(e) => Some(e),
                Err(e) => {
                    return Err(e);
                },
            }
        } else {
            None
        };
        if !(self.current < self.tokens.len() && matches!(
            self.tokens[self.current].data,
            Token::Semicolon,
        )) {
            return Err(ParseError::MissingToken("Expected ';' after var declaration".to_owned()));
        }
        self.advance();
        Ok(
            Stmt::Var {
                location_line: location.line,
                location_column: location.column,
                location_file: location.file,
                identifier,
                initializer,
            },
        )
    }

    /// Parses the statements of a block, up to the closing brace.
    fn parse_block_items(&mut self) -> (r: Result<Vec<Stmt>, ParseError>)
        requires
            old(self).wf(),
        ensures
            final(self).wf(),
            final(self).toks() == old(self).toks(),
            match spec_parse_block_items(old(self).toks(), old(self).cursor()) {
                Ok((items, n)) => r matches Ok(v) && stmts_view(v@) == items
                    && final(self).cursor() == n && old(self).cursor() <= n,
                Err(se) => r matches Err(e) && e@ == se,
            },
        decreases old(self).toks().len() - old(self).cursor(), 9int,
    {
        if self.is_at_end() || (self.current < self.tokens.len() && matches!(
            self.tokens[self.current].data,
            Token::RBrace,
        )) {
            let empty: Vec<Stmt> = Vec::new();
            return Ok(empty);
        }
        let s1 = match self.parse_declaration() {
            Ok(s) => s,
            Err(e) => {
                return Err(e);
            },
        };
        let ghost sv = s1@;
        match self.parse_block_items() {
            Ok(mut rest) => {
                let ghost r0 = rest@;
                rest.insert(0, s1);
                proof {
                    assert(rest@.drop_first() =~= r0);
                    assert(stmts_view(rest@) == seq![sv] + stmts_view(r0));
                }
                Ok(rest)
            },
            Err(e) => Err(e),
        }
    }

    /// Parses a block whose opening brace is already consumed, through its
    /// closing brace.  The block carries the closing brace's location.
    fn parse_block_statement(&mut self) -> (r: Result<Stmt, ParseError>)
        requires
            old(self).wf(),
        ensures
            final(self).wf(),
            final(self).toks() == old(self).toks(),
            stmt_outcome(
                spec_parse_block(old(self).toks(), old(self).cursor()),
                r,
                old(self).cursor(),
                final(self).cursor(),
            ),
        decreases old(self).toks().len() - old(self).cursor(), 10int,
    {
        let statements = match self.parse_block_items() {
            Ok(v) => v,
            Err(e) => {
                return Err(e);
            },
        };
        if !(self.current < self.tokens.len() && matches!(
            self.tokens[self.current].data,
            Token::RBrace,
        )) {
            return Err(ParseError::MissingToken("Expected '}' after block".to_owned()));
        }
        let location = self.token_location();
        self.advance();
        Ok(
            Stmt::Block {
                location_line: location.line,
                location_column: location.column,
                location_file: location.file,
                statements,
            },
        )
    }

    /// Parses a statement: a block in braces, or an expression statement.
    fn parse_statement(&mut self) -> (r: Result<Stmt, ParseError>)
        requires
            old(self).wf(),
        ensures
            final(self).wf(),
            final(self).toks() == old(self).toks(),
            stmt_outcome(
                spec_parse_statement(old(self).toks(), old(self).cursor()),
                r,
                old(self).cursor(),
                final(self).cursor(),
            ),
        decreases old(self).toks().len() - old(self).cursor(), 7int,
    {
        if self.current < self.tokens.len() && matches!(
            self.tokens[self.current].data,
            Token::LBrace,
        ) {
            self.advance();
            self.parse_block_statement()
        } else {
            self.parse_expression_statement()
        }
    }

    /// Parses a function header: name, parameters, and the checked but
    /// unstored return type and effects clause.
    #[verifier::rlimit(50)]
    fn parse_function_header(&mut self) -> (r: Result<(String, Vec<String>), ParseError>)
        requires
            old(self).wf(),
        ensures
            final(self).wf(),
            final(self).toks() == old(self).toks(),
            match spec_parse_fn_header(old(self).toks(), old(self).cursor()) {
                Ok((name, params, n)) => r matches Ok(p) && p.0@ == name && names_view(p.1@)
                    == params && final(self).cursor() == n && old(self).cursor() < n,
                Err(se) => r matches Err(e) && e@ == se,
            },
        decreases old(self).toks().len() - old(self).cursor(), 5int,
    {
        if !(self.current < self.tokens.len() && matches!(
            self.tokens[self.current].data,
            Token::Fn,
        )) {
            return Err(ParseError::MissingToken("Expected 'fn' keyword".to_owned()));
        }
        self.advance();
        let name = match self.clone_identifier() {
            Some(n) => n,
            None => {
                return Err(ParseError::UnexpectedToken("Expected function name".to_owned()));
            },
        };
        self.advance();
        if !(self.current < self.tokens.len() && matches!(
            self.tokens[self.current].data,
            Token::LParen,
        )) {
            return Err(ParseError::MissingToken("Expected '(' after function name".to_owned()));
        }
        self.advance();
        let parameters: Vec<String> = if self.current < self.tokens.len() && matches!(
            self.tokens[self.current].data,
            Token::RParen,
        ) {
            Vec::new()
        } else {
            match self.parse_name_list() {
                Ok(v) => v,
                Err(e) => {
                    return Err(e);
                },
            }
        };
        if !(self.current < self.tokens.len() && matches!(
            self.tokens[self.current].data,
            Token::RParen,
        )) {
            return Err(ParseError::MissingToken("Expected ')' after parameters".to_owned()));
        }
        self.advance();
        if self.current < self.tokens.len() && matches!(
            self.tokens[self.current].data,
            Token::Arrow,
        ) {
            self.advance();
            match self.clone_identifier() {
                Some(_) => {
                    self.advance();
                },
                None => {
                    return Err(ParseError::UnexpectedToken("Expected return type".to_owned()));
                },
            }
        }
        let effects_follow: bool = match self.clone_identifier() {
            Some(id) => str_matches(&id, "effects"),
            None => false,
        };
        if effects_follow {
            self.advance();
            match self.parse_name_list() {
                Ok(_) => {},
                Err(e) => {
                    return Err(e);
                },
            }
        }
        Ok((name, parameters))
    }

    /// Parses a function declaration: its header, then a braced body.
    fn parse_function_declaration(&mut self) -> (r: Result<Stmt, ParseError>)
        requires
            old(self).wf(),
        ensures
            final(self).wf(),
            final(self).toks() == old(self).toks(),
            stmt_outcome(
                spec_parse_function(old(self).toks(), old(self).cursor()),
                r,
                old(self).cursor(),
                final(self).cursor(),
            ),
        decreases old(self).toks().len() - old(self).cursor(), 6int,
    {
        if !(self.current < self.tokens.len() && matches!(
            self.tokens[self.current].data,
            Token::Fn,
        )) {
            return Err(ParseError::MissingToken("Expected 'fn' keyword".to_owned()));
        }
        let location = self.token_location();
        let (name, parameters) = match self.parse_function_header() {
            Ok(p) => p,
            Err(e) => {
                return Err(e);
            },
        };
        if !(self.current < self.tokens.len() && matches!(
            self.tokens[self.current].data,
            Token::LBrace,
        )) {
            return Err(ParseError::MissingToken("Expected '{' before function body".to_owned()));
        }
        self.advance();
        let blk = match self.parse_block_statement() {
            Ok(s) => s,
            Err(e) => {
                return Err(e);
            },
        };
        match blk {
            Stmt::Block { statements, .. } => Ok(
                Stmt::Function {
                    location_line: location.line,
                    location_column: location.column,
                    location_file: location.file,
                    name,
                    parameters,
                    body: statements,
                },
            ),
            _ => Err(ParseError::InvalidExpression),
        }
    }

    /// Parses one operation of an `effect` block.
    #[verifier::rlimit(100)]
    #[verifier::spinoff_prover]
    fn parse_effect_operation(&mut self) -> (r: Result<EffectOperation, ParseError>)
        requires
            old(self).wf(),
        ensures
            final(self).wf(),
            final(self).toks() == old(self).toks(),
            match spec_parse_effect_op(old(self).toks(), old(self).cursor()) {
                Ok((op, n)) => r matches Ok(o) && o@ == op && final(self).cursor() == n
                    && old(self).cursor() < n,
                Err(se) => r matches Err(e) && e@ == se,
            },
        decreases old(self).toks().len() - old(self).cursor(), 4int,
    {
        let ghost t = self.toks();
        let ghost p0 = self.cursor();
        if !(self.at_fn()) {
            return Err(ParseError::MissingToken("Expected 'fn' keyword".to_owned()));
        }
        self.advance();
        let name = match self.clone_identifier() {
            Some(n) => n,
            None => {
                return Err(ParseError::UnexpectedToken("Expected operation name".to_owned()));
            },
        };
        self.advance();
        proof {
            assert(tok_at(t, p0) is Fn);
            assert(tok_at(t, p0 + 1) == TokenView::Identifier(name@));
            assert(self.cursor() == p0 + 2);
        }
        if !(self.at_lparen()) {
            return Err(ParseError::MissingToken("Expected '(' after operation name".to_owned()));
        }
        self.advance();
        proof {
            assert(tok_at(t, p0 + 2) is LParen);
        }
        let parameters: Vec<(String, String)> = if self.at_rparen() {
            let no_params: Vec<(String, String)> = Vec::new();
            proof {
                assert(pairs_view(no_params@) =~= Seq::<(Seq<char>, Seq<char>)>::empty());
            }
            no_params
        } else {
            match self.parse_typed_params() {
                Ok(v) => v,
                Err(e) => {
                    return Err(e);
                },
            }
        };
        let ghost pp = self.cursor();
        proof {
            assert(p0 + 3 <= pp <= t.len());
            let params_res: Result<(Seq<(Seq<char>, Seq<char>)>, int), ParseErrorView> = if tok_at(
                t,
                p0 + 3,
            ) is RParen {
                Ok((Seq::empty(), p0 + 3))
            } else {
                spec_parse_typed_params(t, p0 + 3)
            };
            assert(params_res == Ok::<(Seq<(Seq<char>, Seq<char>)>, int), ParseErrorView>(
                (pairs_view(parameters@), pp),
            ));
        }
        if !(self.at_rparen()) {
            return Err(ParseError::MissingToken("Expected ')' after parameters".to_owned()));
        }
        self.advance();
        let return_type: Option<String> = if self.at_arrow() {
            self.advance();
            match self.clone_identifier() {
                Some(t) => {
                    self.advance();
                    Some(t)
                },
                None => {
                    return Err(ParseError::UnexpectedToken("Expected return type".to_owned()));
                },
            }
        } else {
            None
        };
        let ghost pr = self.cursor();
        proof {
            assert(tok_at(t, pp) is RParen);
            let ret_res: Result<(Option<Seq<char>>, int), ParseErrorView> = if tok_at(
                t,
                pp + 1,
            ) is Arrow {
                match tok_at(t, pp + 2) {
                    TokenView::Identifier(rt) => Ok((Some(rt), pp + 3)),
                    _ => Err(ParseErrorView::UnexpectedToken),
                }
            } else {
                Ok((None, pp + 1))
            };
            assert(ret_res == Ok::<(Option<Seq<char>>, int), ParseErrorView>(
                (
                    match return_type {
                        Some(ref s) => Some(s@),
                        None => None,
                    },
                    pr,
                ),
            ));
        }
        if !(self.at_semicolon()) {
            return Err(ParseError::MissingToken("Expected ';' after operation".to_owned()));
        }
        self.advance();
        let op = EffectOperation { name, parameters, return_type };
        proof {
            assert(spec_parse_effect_op(t, p0) matches Ok(x) && x.0 == op@ && x.1 == pr + 1);
        }
        Ok(op)
    }

    /// Parses the operations of an `effect` block, up to the closing brace.
    fn parse_effect_operations(&mut self) -> (r: Result<Vec<EffectOperation>, ParseError>)
        requires
            old(self).wf(),
        ensures
            final(self).wf(),
            final(self).toks() == old(self).toks(),
            match spec_parse_effect_ops(old(self).toks(), old(self).cursor()) {
                Ok((ops, n)) => r matches Ok(v) && ops_view(v@) == ops
                    && final(self).cursor() == n && old(self).cursor() <= n,
                Err(se) => r matches Err(e) && e@ == se,
            },
        decreases old(self).toks().len() - old(self).cursor(), 5int,
    {
        if self.is_at_end() || (self.current < self.tokens.len() && matches!(
            self.tokens[self.current].data,
            Token::RBrace,
        )) {
            let empty: Vec<EffectOperation> = Vec::new();
            proof {
                assert(ops_view(empty@) =~= Seq::<EffectOperationView>::empty());
            }
            return Ok(empty);
        }
        let op = match self.parse_effect_operation() {
            Ok(o) => o,
            Err(e) => {
                return Err(e);
            },
        };
        let ghost opv = op@;
        match self.parse_effect_operations() {
            Ok(mut rest) => {
                let ghost r0 = rest@;
                rest.insert(0, op);
                proof {
                    assert(ops_view(rest@) =~= seq![opv] + ops_view(r0));
                }
                Ok(rest)
            },
            Err(e) => Err(e),
        }
    }

    /// Parses an `effect Name { operations }` declaration.
    fn parse_effect_declaration(&mut self) -> (r: Result<Stmt, ParseError>)
        requires
            old(self).wf(),
        ensures
            final(self).wf(),
            final(self).toks() == old(self).toks(),
            stmt_outcome(
                spec_parse_effect(old(self).toks(), old(self).cursor()),
                r,
                old(self).cursor(),
                final(self).cursor(),
            ),
        decreases old(self).toks().len() - old(self).cursor(), 6int,
    {
        if !(self.current < self.tokens.len() && matches!(
            self.tokens[self.current].data,
            Token::Effect,
        )) {
            return Err(ParseError::MissingToken("Expected 'effect' keyword".to_owned()));
        }
        let location = self.token_location();
        self.advance();
        let name = match self.clone_identifier() {
            Some(n) => n,
            None => {
                return Err(ParseError::UnexpectedToken("Expected effect name".to_owned()));
            },
        };
        self.advance();
        if !(self.current < self.tokens.len() && matches!(
            self.tokens[self.current].data,
            Token::LBrace,
        )) {
            return Err(ParseError::MissingToken("Expected '{' after effect name".to_owned()));
        }
        self.advance();
        let operations = match self.parse_effect_operations() {
            Ok(v) => v,
            Err(e) => {
                return Err(e);
            },
        };
        if !(self.current < self.tokens.len() && matches!(
            self.tokens[self.current].data,
            Token::RBrace,
        )) {
            return Err(ParseError::MissingToken("Expected '}' after effect operations".to_owned()));
        }
        self.advance();
        Ok(
            Stmt::Effect {
                location_line: location.line,
                location_column: location.column,
                location_file: location.file,
                declaration: EffectDeclaration { name, operations },
            },
        )
    }

    /// Parses one clause of a `handle` block: `op(params) { body }`.
    #[verifier::rlimit(100)]
    #[verifier::spinoff_prover]
    fn parse_handler_clause(&mut self) -> (r: Result<HandlerClause, ParseError>)
        requires
            old(self).wf(),
        ensures
            final(self).wf(),
            final(self).toks() == old(self).toks(),
            match spec_parse_handler_clause(old(self).toks(), old(self).cursor()) {
                Ok((cl, n)) => r matches Ok(c) && c@ == cl && final(self).cursor() == n
                    && old(self).cursor() < n,
                Err(se) => r matches Err(e) && e@ == se,
            },
        decreases old(self).toks().len() - old(self).cursor(), 4int,
    {
        let operation = match self.clone_identifier() {
            Some(n) => n,
            None => {
                return Err(ParseError::UnexpectedToken("Expected operation name".to_owned()));
            },
        };
        self.advance();
        if !(self.at_lparen()) {
            return Err(ParseError::MissingToken("Expected '(' after operation name".to_owned()));
        }
        self.advance();
        let parameters: Vec<String> = if self.at_rparen() {
            let no_params: Vec<String> = Vec::new();
            proof {
                assert(names_view(no_params@) =~= Seq::<Seq<char>>::empty());
            }
            no_params
        } else {
            match self.parse_name_list() {
                Ok(v) => v,
                Err(e) => {
                    return Err(e);
                },
            }
        };
        if !(self.at_rparen()) {
            return Err(ParseError::MissingToken("Expected ')' after parameters".to_owned()));
        }
        self.advance();
        if !(self.at_lbrace()) {
            return Err(ParseError::MissingToken("Expected '{' before clause body".to_owned()));
        }
        self.advance();
        let blk = match self.parse_block_statement() {
            Ok(s) => s,
            Err(e) => {
                return Err(e);
            },
        };
        let body: Vec<Stmt> = match blk {
            Stmt::Block { statements, .. } => statements,
            _ => {
                return Err(ParseError::InvalidExpression);
            },
        };
        Ok(HandlerClause { operation, parameters, body })
    }

    /// Parses the clauses of a `handle` block, up to the closing brace.
    fn parse_handler_clauses(&mut self) -> (r: Result<Vec<HandlerClause>, ParseError>)
        requires
            old(self).wf(),
        ensures
            final(self).wf(),
            final(self).toks() == old(self).toks(),
            match spec_parse_handler_clauses(old(self).toks(), old(self).cursor()) {
                Ok((cs, n)) => r matches Ok(v) && clauses_view(v@) == cs
                    && final(self).cursor() == n && old(self).cursor() <= n,
                Err(se) => r matches Err(e) && e@ == se,
            },
        decreases old(self).toks().len() - old(self).cursor(), 5int,
    {
        if self.is_at_end() || (self.current < self.tokens.len() && matches!(
            self.tokens[self.current].data,
            Token::RBrace,
        )) {
            let empty: Vec<HandlerClause> = Vec::new();
            return Ok(empty);
        }
        let clause = match self.parse_handler_clause() {
            Ok(c) => c,
            Err(e) => {
                return Err(e);
            },
        };
        let ghost cv = clause@;
        match self.parse_handler_clauses() {
            Ok(mut rest) => {
                let ghost r0 = rest@;
                rest.insert(0, clause);
                proof {
                    assert(rest@.drop_first() =~= r0);
                    assert(clauses_view(rest@) == seq![cv] + clauses_view(r0));
                }
                Ok(rest)
            },
            Err(e) => Err(e),
        }
    }

    /// Parses a `handle Effect { clauses }` declaration.
    #[verifier::rlimit(100)]
    #[verifier::spinoff_prover]
    fn parse_handler_declaration(&mut self) -> (r: Result<Stmt, ParseError>)
        requires
            old(self).wf(),
        ensures
            final(self).wf(),
            final(self).toks() == old(self).toks(),
            stmt_outcome(
                spec_parse_handler(old(self).toks(), old(self).cursor()),
                r,
                old(self).cursor(),
                final(self).cursor(),
            ),
        decreases old(self).toks().len() - old(self).cursor(), 6int,
    {
        if !(self.at_handle()) {
            return Err(ParseError::MissingToken("Expected 'handle' keyword".to_owned()));
        }
        let location = self.token_location();
        self.advance();
        let effect = match self.clone_identifier() {
            Some(n) => n,
            None => {
                return Err(ParseError::UnexpectedToken("Expected effect name".to_owned()));
            },
        };
        self.advance();
        if !(self.at_lbrace()) {
            return Err(ParseError::MissingToken("Expected '{' after effect name".to_owned()));
        }
        self.advance();
        let clauses = match self.parse_handler_clauses() {
            Ok(v) => v,
            Err(e) => {
                return Err(e);
            },
        };
        if !(self.at_rbrace()) {
            return Err(ParseError::MissingToken("Expected '}' after handler clauses".to_owned()));
        }
        self.advance();
        Ok(
            Stmt::Handler {
                location_line: location.line,
                location_column: location.column,
                location_file: location.file,
                declaration: HandlerDeclaration { effect, clauses },
            },
        )
    }

    /// Parses an `effect_group Name = A, B;` declaration; the cursor is on
    /// the contextual `effect_group` identifier.
    fn parse_effect_group_declaration(&mut self) -> (r: Result<Stmt, ParseError>)
        requires
            old(self).wf(),
        ensures
            final(self).wf(),
            final(self).toks() == old(self).toks(),
            stmt_outcome(
                spec_parse_effect_group(old(self).toks(), old(self).cursor()),
                r,
                old(self).cursor(),
                final(self).cursor(),
            ),
        decreases old(self).toks().len() - old(self).cursor(), 6int,
    {
        if self.current >= self.tokens.len() {
            return Err(ParseError::UnexpectedToken("Expected effect group name".to_owned()));
        }
        let location = self.token_location();
        self.advance();
        let name = match self.clone_identifier() {
            Some(n) => n,
            None => {
                return Err(ParseError::UnexpectedToken("Expected effect group name".to_owned()));
            },
        };
        self.advance();
        if !(self.current < self.tokens.len() && matches!(
            self.tokens[self.current].data,
            Token::Equal,
        )) {
            return Err(ParseError::MissingToken("Expected '=' after effect group name".to_owned()));
        }
        self.advance();
        let effects = match self.parse_name_list() {
            Ok(v) => v,
            Err(e) => {
                return Err(e);
            },
        };
        if !(self.current < self.tokens.len() && matches!(
            self.tokens[self.current].data,
            Token::Semicolon,
        )) {
            return Err(
                ParseError::MissingToken("Expected ';' after effect group declaration".to_owned()),
            );
        }
        self.advance();
        Ok(
            Stmt::EffectGroup {
                location_line: location.line,
                location_column: location.column,
                location_file: location.file,
                declaration: EffectGroupDeclaration { name, effects },
            },
        )
    }

    /// Parses a `handler_group Name = A, B;` declaration; the cursor is on
    /// the contextual `handler_group` identifier.
    fn parse_handler_group_declaration(&mut self) -> (r: Result<Stmt, ParseError>)
        requires
            old(self).wf(),
        ensures
            final(self).wf(),
            final(self).toks() == old(self).toks(),
            stmt_outcome(
                spec_parse_handler_group(old(self).toks(), old(self).cursor()),
                r,
                old(self).cursor(),
                final(self).cursor(),
            ),
        decreases old(self).toks().len() - old(self).cursor(), 6int,
    {
        if self.current >= self.tokens.len() {
            return Err(ParseError::UnexpectedToken("Expected handler group name".to_owned()));
        }
        let location = self.token_location();
        self.advance();
        let name = match self.clone_identifier() {
            Some(n) => n,
            None => {
                return Err(ParseError::UnexpectedToken("Expected handler group name".to_owned()));
            },
        };
        self.advance();
        if !(self.current < self.tokens.len() && matches!(
            self.tokens[self.current].data,
            Token::Equal,
        )) {
            return Err(
                ParseError::MissingToken("Expected '=' after handler group name".to_owned()),
            );
        }
        self.advance();
        let handlers = match self.parse_name_list() {
            Ok(v) => v,
            Err(e) => {
                return Err(e);
            },
        };
        if !(self.current < self.tokens.len() && matches!(
            self.tokens[self.current].data,
            Token::Semicolon,
        )) {
            return Err(
                ParseError::MissingToken("Expected ';' after handler group declaration".to_owned()),
            );
        }
        self.advance();
        Ok(
            Stmt::HandlerGroup {
                location_line: location.line,
                location_column: location.column,
                location_file: location.file,
                declaration: HandlerGroupDeclaration { name, handlers },
            },
        )
    }

    /// Dispatches one declaration on the current token.
    #[verifier::rlimit(100)]
    #[verifier::spinoff_prover]
    fn parse_declaration_statement(&mut self) -> (r: Result<Stmt, ParseError>)
        requires
            old(self).wf(),
        ensures
            final(self).wf(),
            final(self).toks() == old(self).toks(),
            stmt_outcome(
                spec_parse_declaration_statement(old(self).toks(), old(self).cursor()),
                r,
                old(self).cursor(),
                final(self).cursor(),
            ),
        decreases old(self).toks().len() - old(self).cursor(), 7int,
    {
        let kind: u8 = if self.current >= self.tokens.len() {
            0
        } else {
            match &self.tokens[self.current].data {
                Token::Let => 1,
                Token::Var => 2,
                Token::Fn => 3,
                Token::Effect => 4,
                Token::Handle => 5,
                Token::EffectGroup => 6,
                Token::HandlerGroup => 7,
                Token::Identifier(id) => {
                    if str_matches(id, "effect_group") {
                        6
                    } else if str_matches(id, "handler_group") {
                        7
                    } else {
                        0
                    }
                },
                _ => 0,
            }
        };
        match kind {
            1 => self.parse_let_declaration(),
            2 => self.parse_var_declaration(),
            3 => self.parse_function_declaration(),
            4 => self.parse_effect_declaration(),
            5 => self.parse_handler_declaration(),
            6 => self.parse_effect_group_declaration(),
            7 => self.parse_handler_group_declaration(),
            _ => Err(ParseError::UnexpectedToken("unexpected token in declaration".to_owned())),
        }
    }

    /// Parses a declaration, or failing the declaration keywords, a
    /// statement.
    fn parse_declaration(&mut self) -> (r: Result<Stmt, ParseError>)
        requires
            old(self).wf(),
        ensures
            final(self).wf(),
            final(self).toks() == old(self).toks(),
            stmt_outcome(
                spec_parse_declaration(old(self).toks(), old(self).cursor()),
                r,
                old(self).cursor(),
                final(self).cursor(),
            ),
        decreases old(self).toks().len() - old(self).cursor(), 8int,
    {
        let is_decl_keyword: bool = self.current < self.tokens.len() && matches!(
            self.tokens[self.current].data,
            Token::Let | Token::Var | Token::Fn | Token::Effect | Token::Handle
                | Token::EffectGroup | Token::HandlerGroup,
        );
        let is_group_keyword: bool = if self.current < self.tokens.len() {
            match &self.tokens[self.current].data {
                Token::Identifier(id) => str_matches(id, "effect_group") || str_matches(
                    id,
                    "handler_group",
                ),
                _ => false,
            }
        } else {
            false
        };
        if is_decl_keyword || is_group_keyword {
            self.parse_declaration_statement()
        } else {
            self.parse_statement()
        }
    }

    /// Parses the remaining declarations of the program.
    fn parse_program_items(&mut self) -> (r: Result<Vec<Stmt>, ParseError>)
        requires
            old(self).wf(),
        ensures
            final(self).wf(),
            final(self).toks() == old(self).toks(),
            match spec_parse_program(old(self).toks(), old(self).cursor()) {
                Ok(sv) => r matches Ok(v) && stmts_view(v@) == sv,
                Err(se) => r matches Err(e) && e@ == se,
            },
        decreases old(self).toks().len() - old(self).cursor(), 9int,
    {
        if self.is_at_end() {
            let empty: Vec<Stmt> = Vec::new();
            return Ok(empty);
        }
        let s1 = match self.parse_declaration() {
            Ok(s) => s,
            Err(e) => {
                return Err(e);
            },
        };
        let ghost sv = s1@;
        match self.parse_program_items() {
            Ok(mut rest) => {
                let ghost r0 = rest@;
                rest.insert(0, s1);
                proof {
                    assert(rest@.drop_first() =~= r0);
                    assert(stmts_view(rest@) == seq![sv] + stmts_view(r0));
                }
                Ok(rest)
            },
            Err(e) => Err(e),
        }
    }

    /// Parses the whole token sequence into a statement list, or fails with
    /// the first parse error.  The result is exactly what
    /// `spec_parse_program` gives for the token views: the same statements
    /// on success, and the same error kind on the same inputs otherwise.
    pub fn parse(&mut self) -> (r: Result<Vec<Stmt>, ParseError>)
        requires
            old(self).wf(),
        ensures
            final(self).wf(),
            match spec_parse_program(old(self).toks(), old(self).cursor()) {
                Ok(sv) => r matches Ok(v) && stmts_view(v@) == sv,
                Err(se) => r matches Err(e) && e@ == se,
            },
    {
        self.parse_program_items()
    }
}

} // verus!
