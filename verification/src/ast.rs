//! The node taxonomy: one closed tagged union per syntactic category, a
//! uniform block model covering both lexical conventions, and first-class
//! error nodes so that a parse can keep building a tree past a bad construct.
//!
//! Every composite node exclusively owns its children: trees are strict
//! (no sharing, no cycles) and are never mutated after construction.
//! Cross-references that are not ownership (a parent class, a trait name,
//! a custom type name) are stored as plain name strings.

use num_bigint::BigInt;
use vstd::prelude::*;

verus! {

/// The lexical convention that produced a block: indentation-delimited
/// or brace-delimited. The tag is the single source of truth for which
/// mode-specific payload a `Block` must carry.
#[derive(Debug, Clone, Copy, PartialEq, Eq, Structural)]
pub enum SyntaxMode {
    Indentation,
    Braces,
}

/// A source position, as the lexer reports it.
#[derive(Debug, Clone, Copy, PartialEq, Eq, Structural)]
pub struct Position {
    pub line: usize,
    pub column: usize,
}

/// A lexer token: a kind and the position where it was read. The block
/// model stores the opening and closing delimiter tokens of a brace-mode
/// block; nothing else in this crate looks inside a token.
#[derive(Debug, Clone)]
pub struct Token {
    pub kind: String,
    pub position: Position,
}

/// A parser-level syntax error, kept as data rather than raised: message
/// and position are retained so the error can be surfaced verbatim after
/// the whole parse completes.
#[derive(Debug, Clone)]
pub struct ParseError {
    pub message: String,
    pub position: Position,
}

/// The root tagged union: exactly one variant is active per node, and node
/// identity is determined solely by the tag. A `Program` owns its ordered
/// top-level sequence; an `Error` node stands in place of whatever construct
/// failed to parse.
#[derive(Debug)]
pub enum ASTNode {
    Program(Vec<ASTNode>),
    Block(Block),
    Declaration(Declaration),
    Expression(Expression),
    Statement(Statement),
    Function(Function),
    Error(ParseError),
}

/// A lexical scope body. Exactly one of `indent_level` / `braces` is
/// meaningful, and it must match `syntax_mode`; `validate` checks that the
/// mode-specific payload is present. The model does not self-validate at
/// construction time, so the parser may build a block incrementally.
#[derive(Debug)]
pub struct Block {
    pub statements: Vec<Statement>,
    pub syntax_mode: SyntaxMode,
    pub indent_level: Option<usize>,
    pub braces: Option<(Token, Token)>,
}

/// Binary operators as a fixed enumerated tag: operator identity is checked
/// by tag equality, never by string comparison.
#[derive(Debug, Clone, Copy, PartialEq, Eq, Structural)]
pub enum Operator {
    Addition,
    Substraction,
    Multiplication,
    Division,
    Modulo,
    Equal,
    NotEqual,
    LessThan,
    GreaterThan,
    And,
    Or,
    LesshanOrEqual,
    GreaterThanOrEqual,
}

/// Unary operators, likewise a fixed enumerated tag.
#[derive(Debug, Clone, Copy, PartialEq, Eq, Structural)]
pub enum UnaryOperator {
    Negate,
    Not,
    Increment,
    Decrement,
    Reference,
    Dereference,
    BitwiseNot,
    LogicalNot,
    Positive,
    Negative,
}

/// A nominal type applied to an ordered list of type parameters.
/// `Clone` and `PartialEq` are written by hand in `crate::type_eq`, where
/// `==` is given its structural meaning.
#[derive(Debug)]
pub struct GenericType {
    pub base: String,
    pub parameters: Vec<Type>,
}

/// The closed set of types: primitive scalars, arrays, tuples, nominal
/// references resolved later, generic applications, and an inference
/// placeholder. Equality is structural and total (see `crate::type_eq`,
/// which also implements `Clone` by hand); types are immutable once built.
#[derive(Debug)]
pub enum Type {
    Int,
    Float,
    String,
    Bool,
    Char,
    Array(Box<Type>),
    Tuple(Vec<Type>),
    Custom(String),
    Generic(GenericType),
    Infer,
}

/// Named bindings, one variant per declarable form. Declarations are created
/// exactly once by the parser and never mutated afterwards.
#[derive(Debug)]
pub enum Declaration {
    Variable(VariableDeclaration),
    Function(FunctionDeclaration),
    Constante(ConstanteDeclaration),
    Structure(StructDeclaration),
    Class(ClassDeclaration),
    Enum(EnumDeclaration),
    Trait(TraitDeclaration),
    Impl(ImplDeclaration),
    Module(ModuleDeclaration),
    Macro(MacroDeclaration),
}

#[derive(Debug)]
pub struct VariableDeclaration {
    pub name: String,
    pub variable_type: Option<Type>,
    pub value: Option<Expression>,
    pub mutable: bool,
}

#[derive(Debug)]
pub struct FunctionDeclaration {
    pub name: String,
    pub parameters: Vec<(String, Type)>,
    pub return_type: Option<Type>,
    pub body: Block,
}

#[derive(Debug)]
pub struct ConstanteDeclaration {
    pub name: String,
    pub constant_type: Option<Type>,
    pub value: Expression,
}

#[derive(Debug, Clone)]
pub struct StructDeclaration {
    pub name: String,
    pub fields: Vec<Field>,
}

/// A class may reference an optional parent class by name: a nominal
/// reference resolved by a later stage, never an ownership edge.
#[derive(Debug)]
pub struct ClassDeclaration {
    pub name: String,
    pub parent_class: Option<String>,
    pub fields: Vec<Field>,
    pub methods: Vec<FunctionDeclaration>,
}

#[derive(Debug, Clone)]
pub struct EnumDeclaration {
    pub name: String,
    pub variants: Vec<EnumVariant>,
}

#[derive(Debug, Clone)]
pub struct TraitDeclaration {
    pub name: String,
    pub methods: Vec<FunctionSignature>,
}

/// Binds a trait name and a target type to an ordered list of method
/// declarations.
#[derive(Debug)]
pub struct ImplDeclaration {
    pub trait_name: String,
    pub for_type: Type,
    pub methods: Vec<FunctionDeclaration>,
}

#[derive(Debug)]
pub struct ModuleDeclaration {
    pub name: String,
    pub statements: Vec<Statement>,
}

#[derive(Debug)]
pub struct MacroDeclaration {
    pub name: String,
    pub parameters: Vec<String>,
    pub body: Block,
}

#[derive(Debug, Clone)]
pub struct Field {
    pub name: String,
    pub field_type: Type,
    pub mutable: bool,
}

/// One enum variant: a name and, optionally, the types it destructures.
#[derive(Debug, Clone)]
pub struct EnumVariant {
    pub name: String,
    pub associated_type: Option<Vec<Type>>,
}

#[derive(Debug, Clone)]
pub struct FunctionSignature {
    pub name: String,
    pub parameters: Vec<(String, Type)>,
    pub return_type: Option<Type>,
}

/// Value-producing forms. Sub-expressions are exclusively owned by their
/// parent: a strict tree with no sharing and no cycles.
#[derive(Debug)]
pub enum Expression {
    Literal(Literal),
    Identifier(String),
    BinaryOperation(BinaryOperation),
    UnaryOperation(UnaryOperation),
    FunctionCall(FunctionCall),
    ArrayAccess(ArrayAccess),
    MemberAccess(MemberAccess),
    LambdaExpression(LambdaExpression),
    MatchExpression(MatchExpression),
    MatchArms(Box<MatchArms>),
    TypeCast(TypeCast),
    Conditional(Conditional),
}

/// Literal values. `Integer` carries an arbitrary-precision signed integer,
/// so literal values of any magnitude round-trip exactly. `Float` carries
/// the 64-bit IEEE-754 bit pattern of the value, which preserves the double
/// exactly while keeping the model free of floating-point arithmetic;
/// converting to and from a machine double is the caller's concern.
#[derive(Debug)]
pub enum Literal {
    Integer { value: BigInt },
    Float { bits: u64 },
    String(String),
    Boolean(bool),
    Array(Vec<Expression>),
}

/// One lambda parameter: a name and an optional type.
#[derive(Debug, Clone)]
pub struct Parameters {
    pub name: String,
    pub parameter_type: Option<Type>,
}

#[derive(Debug)]
pub struct BinaryOperation {
    pub left: Box<Expression>,
    pub operator: Operator,
    pub right: Box<Expression>,
}

#[derive(Debug)]
pub struct UnaryOperation {
    pub operator: UnaryOperator,
    pub operand: Box<Expression>,
}

#[derive(Debug)]
pub struct FunctionCall {
    pub name: String,
    pub arguments: Vec<Expression>,
}

#[derive(Debug)]
pub struct ArrayAccess {
    pub array: Box<Expression>,
    pub index: Box<Expression>,
}

#[derive(Debug)]
pub struct MemberAccess {
    pub object: Box<Expression>,
    pub member: String,
}

#[derive(Debug)]
pub struct TypeCast {
    pub expression: Box<Expression>,
    pub target_type: Type,
}

/// A conditional expression requires both branches; a one-armed branch must
/// be modeled as a `Statement::If` instead.
#[derive(Debug)]
pub struct Conditional {
    pub condition: Box<Expression>,
    pub then_block: Box<Expression>,
    pub else_block: Box<Expression>,
}

/// Statement forms, including a local declaration nested inside a block.
/// `Break` and `Continue` are unit variants with no payload.
#[derive(Debug)]
pub enum Statement {
    Expression(Expression),
    Return(ReturnStatement),
    Use(UseStatement),
    Import(ImportStatement),
    Raise(RaiseStatement),
    Del(DelStatement),
    If(IfStatement),
    Elif(ElifStatement),
    While(WhileStatement),
    For(ForStatement),
    Break,
    Continue,
    Try(TryStatement),
    With(WithStatement),
    Yield(YieldStatement),
    Declaration(Declaration),
}

#[derive(Debug)]
pub struct ReturnStatement {
    pub value: Option<Expression>,
}

#[derive(Debug)]
pub struct IfStatement {
    pub condition: Expression,
    pub block: Block,
    pub elif_blocks: Vec<(Expression, Block)>,
    pub else_block: Option<Block>,
}

/// A standalone elif arm, used only inside if-chains during construction.
#[derive(Debug)]
pub struct ElifStatement {
    pub condition: Expression,
    pub block: Block,
}

#[derive(Debug)]
pub struct WhileStatement {
    pub condition: Expression,
    pub block: Block,
}

#[derive(Debug)]
pub struct ForStatement {
    pub variable_iter: String,
    pub iterable: Expression,
    pub block: Block,
}

#[derive(Debug, Clone)]
pub struct UseStatement {
    pub module: String,
    pub alias: Option<String>,
}

#[derive(Debug, Clone)]
pub struct ImportStatement {
    pub module: String,
    pub alias: Option<String>,
}

#[derive(Debug)]
pub struct RaiseStatement {
    pub exception: Expression,
}

#[derive(Debug)]
pub struct DelStatement {
    pub target: Expression,
}

/// A try statement: a guarded block, an ordered list of handlers (each an
/// optional exception-name filter and a handler block), an optional else
/// block and an optional finally block.
#[derive(Debug)]
pub struct TryStatement {
    pub block: Block,
    pub except: Vec<(Option<String>, Block)>,
    pub else_block: Option<Block>,
    pub finally_block: Option<Block>,
}

/// Scoped-resource acquisition: the block runs with `target` active and must
/// be exited, including abnormal exit, before control leaves the `With`.
#[derive(Debug)]
pub struct WithStatement {
    pub target: Expression,
    pub block: Block,
}

#[derive(Debug)]
pub struct YieldStatement {
    pub value: Option<Expression>,
}

/// A function node: its declaration together with the block it runs.
#[derive(Debug)]
pub struct Function {
    pub declaration: FunctionDeclaration,
    pub block: Block,
}

/// A bare identifier, exposed for stages that pass names around.
#[derive(Debug, Clone)]
pub struct Identifier {
    pub name: String,
}

#[derive(Debug)]
pub struct LambdaExpression {
    pub parameters: Vec<Parameters>,
    pub block: Block,
}

#[derive(Debug)]
pub struct MatchExpression {
    pub expression: Box<Expression>,
    pub arms: Vec<MatchArms>,
}

/// One match arm. Arms are matched in declaration order; the first match
/// wins.
#[derive(Debug)]
pub struct MatchArms {
    pub pattern: Pattern,
    pub expression: Box<Expression>,
}

/// Patterns used by match arms: a literal, a binding identifier, a wildcard
/// that matches anything and binds nothing, or an enum variant that may
/// destructure its associated types.
#[derive(Debug)]
pub enum Pattern {
    Literal(Literal),
    Identifier(String),
    Wildcard,
    EnumVariant(EnumVariant),
}

impl Block {
    /// The mode-specific payload demanded by the block's syntax mode is
    /// present: an indentation level in indentation mode, a delimiter pair
    /// in brace mode. Payload of the other mode never affects the outcome.
    pub open spec fn spec_mode_payload_present(self) -> bool {
        match self.syntax_mode {
            SyntaxMode::Indentation => self.indent_level is Some,
            SyntaxMode::Braces => self.braces is Some,
        }
    }

    /// Pure predicate over the mode tag.
    pub fn is_indentation_mode(&self) -> (r: bool)
        ensures
            r <==> self.syntax_mode is Indentation,
    {
        matches!(self.syntax_mode, SyntaxMode::Indentation)
    }

    /// Structural soundness check: succeeds exactly when the mode-specific
    /// payload is present, and fails with a descriptive message otherwise.
    /// A pure function with no side effects; callers decide what a failure
    /// means.
    pub fn validate(&self) -> (r: Result<(), String>)
        ensures
            r is Ok <==> self.spec_mode_payload_present(),
            self.syntax_mode is Indentation && self.indent_level is None ==> (r matches Err(m)
                && m@ == "Indentation level is missing"@),
            self.syntax_mode is Braces && self.braces is None ==> (r matches Err(m) && m@
                == "Braces are missing"@),
    {
        match self.syntax_mode {
            SyntaxMode::Indentation => {
                if self.indent_level.is_none() {
                    Err("Indentation level is missing".to_owned())
                } else {
                    Ok(())
                }
            },
            SyntaxMode::Braces => {
                if self.braces.is_none() {
                    Err("Braces are missing".to_owned())
                } else {
                    Ok(())
                }
            },
        }
    }
}

/// An indentation-mode block is structurally sound exactly when its
/// indentation level is present; whether a delimiter pair is also present
/// never affects the outcome.
pub proof fn lemma_indentation_block_validity(b: Block)
    requires
        b.syntax_mode is Indentation,
    ensures
        b.spec_mode_payload_present() <==> b.indent_level is Some,
{
}

/// A brace-mode block is structurally sound exactly when its delimiter pair
/// is present; whether an indentation level is also present never affects
/// the outcome.
pub proof fn lemma_braces_block_validity(b: Block)
    requires
        b.syntax_mode is Braces,
    ensures
        b.spec_mode_payload_present() <==> b.braces is Some,
{
}

impl ASTNode {
    /// Wraps an ordered top-level sequence; the sequence is owned and its
    /// order and count are preserved exactly.
    pub fn program(statements: Vec<ASTNode>) -> (r: Self)
        ensures
            r == ASTNode::Program(statements),
    {
        ASTNode::Program(statements)
    }

    pub fn block(block: Block) -> (r: Self)
        ensures
            r == ASTNode::Block(block),
    {
        ASTNode::Block(block)
    }

    pub fn declaration(declaration: Declaration) -> (r: Self)
        ensures
            r == ASTNode::Declaration(declaration),
    {
        ASTNode::Declaration(declaration)
    }

    pub fn expression(expression: Expression) -> (r: Self)
        ensures
            r == ASTNode::Expression(expression),
    {
        ASTNode::Expression(expression)
    }

    pub fn statement(statement: Statement) -> (r: Self)
        ensures
            r == ASTNode::Statement(statement),
    {
        ASTNode::Statement(statement)
    }

    pub fn function(function: Function) -> (r: Self)
        ensures
            r == ASTNode::Function(function),
    {
        ASTNode::Function(function)
    }

    /// Embeds a parser-level error as a first-class leaf node, so a single
    /// parse pass can surface every syntax error in a file.
    pub fn error(error: ParseError) -> (r: Self)
        ensures
            r == ASTNode::Error(error),
    {
        ASTNode::Error(error)
    }
}

} // verus!
