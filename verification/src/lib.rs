//! Abstract syntax tree data model for a language front end that supports two
//! concrete syntaxes for one grammar: brace-delimited blocks and
//! indentation-delimited blocks.
//!
//! The crate is a passive data model: a closed taxonomy of node kinds covering
//! declarations, expressions, statements and patterns, a uniform block
//! representation across both lexical conventions with a local validity check,
//! first-class error nodes so that a parse can continue past a bad construct,
//! and a recursive renderer for diagnostics.

pub mod ast;
pub mod decimal;
pub mod numeric;
pub mod render;
pub mod type_eq;

pub use ast::ASTNode;
pub use ast::ArrayAccess;
pub use ast::BinaryOperation;
pub use ast::Block;
pub use ast::ClassDeclaration;
pub use ast::Conditional;
pub use ast::ConstanteDeclaration;
pub use ast::Declaration;
pub use ast::DelStatement;
pub use ast::ElifStatement;
pub use ast::EnumDeclaration;
pub use ast::EnumVariant;
pub use ast::Expression;
pub use ast::Field;
pub use ast::ForStatement;
pub use ast::Function;
pub use ast::FunctionCall;
pub use ast::FunctionDeclaration;
pub use ast::FunctionSignature;
pub use ast::GenericType;
pub use ast::Identifier;
pub use ast::IfStatement;
pub use ast::ImplDeclaration;
pub use ast::ImportStatement;
pub use ast::LambdaExpression;
pub use ast::Literal;
pub use ast::MacroDeclaration;
pub use ast::MatchArms;
pub use ast::MatchExpression;
pub use ast::MemberAccess;
pub use ast::ModuleDeclaration;
pub use ast::Operator;
pub use ast::Parameters;
pub use ast::ParseError;
pub use ast::Pattern;
pub use ast::Position;
pub use ast::RaiseStatement;
pub use ast::ReturnStatement;
pub use ast::Statement;
pub use ast::StructDeclaration;
pub use ast::SyntaxMode;
pub use ast::Token;
pub use ast::TraitDeclaration;
pub use ast::TryStatement;
pub use ast::Type;
pub use ast::TypeCast;
pub use ast::UnaryOperation;
pub use ast::UnaryOperator;
pub use ast::UseStatement;
pub use ast::VariableDeclaration;
pub use ast::WhileStatement;
pub use ast::WithStatement;
pub use ast::YieldStatement;
