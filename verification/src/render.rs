//! Rendering nodes to human-readable text, for diagnostics and downstream
//! tooling. Rendering is recursive: a `Program` is the concatenation of its
//! children's renderings in order, an `Error` node renders its message and
//! position, and every composite form renders its children. The spec
//! functions define the text exactly; the executable renderers are proved to
//! produce it, so rendering is deterministic by construction.

use crate::ast::ASTNode;
use crate::ast::Block;
use crate::ast::Declaration;
use crate::ast::EnumVariant;
use crate::ast::Expression;
use crate::ast::Field;
use crate::ast::FunctionDeclaration;
use crate::ast::FunctionSignature;
use crate::ast::Literal;
use crate::ast::MatchArms;
use crate::ast::Operator;
use crate::ast::Parameters;
use crate::ast::Pattern;
use crate::ast::Statement;
use crate::ast::Type;
use crate::ast::UnaryOperator;
use crate::decimal::spec_decimal;
use crate::decimal::spec_digits;
use crate::decimal::u64_to_decimal;
use crate::numeric::big_int_value;
use crate::numeric::bigint_to_decimal_string;
use vstd::prelude::*;
use vstd::string::StringExecFns;

verus! {

/// The source symbol of a binary operator.
pub open spec fn spec_operator_symbol(op: Operator) -> Seq<char> {
    match op {
        Operator::Addition => "+"@,
        Operator::Substraction => "-"@,
        Operator::Multiplication => "*"@,
        Operator::Division => "/"@,
        Operator::Modulo => "%"@,
        Operator::Equal => "=="@,
        Operator::NotEqual => "!="@,
        Operator::LessThan => "<"@,
        Operator::GreaterThan => ">"@,
        Operator::And => "&&"@,
        Operator::Or => "||"@,
        Operator::LesshanOrEqual => "<="@,
        Operator::GreaterThanOrEqual => ">="@,
    }
}

/// The source symbol of a unary operator.
pub open spec fn spec_unary_symbol(op: UnaryOperator) -> Seq<char> {
    match op {
        UnaryOperator::Negate => "-"@,
        UnaryOperator::Not => "!"@,
        UnaryOperator::Increment => "++"@,
        UnaryOperator::Decrement => "--"@,
        UnaryOperator::Reference => "&"@,
        UnaryOperator::Dereference => "*"@,
        UnaryOperator::BitwiseNot => "~"@,
        UnaryOperator::LogicalNot => "!"@,
        UnaryOperator::Positive => "+"@,
        UnaryOperator::Negative => "-"@,
    }
}

/// The text of a type.
pub open spec fn spec_render_type(t: Type) -> Seq<char>
    decreases t, 0int,
{
    match t {
        Type::Int => "int"@,
        Type::Float => "float"@,
        Type::String => "string"@,
        Type::Bool => "bool"@,
        Type::Char => "char"@,
        Type::Array(x) => "["@ + spec_render_type(*x) + "]"@,
        Type::Tuple(xs) => "("@ + spec_render_types_from(xs@, 0) + ")"@,
        Type::Custom(n) => n@,
        Type::Generic(g) => g.base@ + "<"@ + spec_render_types_from(g.parameters@, 0) + ">"@,
        Type::Infer => "_"@,
    }
}

/// The comma-separated text of the types from position `i` on.
pub open spec fn spec_render_types_from(s: Seq<Type>, i: int) -> Seq<char>
    decreases s, s.len() - i,
{
    if i < 0 || i >= s.len() {
        Seq::<char>::empty()
    } else if i + 1 == s.len() {
        spec_render_type(s[i])
    } else {
        spec_render_type(s[i]) + ", "@ + spec_render_types_from(s, i + 1)
    }
}

/// The text of a type annotation: empty when there is none.
pub open spec fn spec_render_type_ann(o: Option<Type>) -> Seq<char>
    decreases o, 0int,
{
    match o {
        Option::None => Seq::<char>::empty(),
        Option::Some(t) => ": "@ + spec_render_type(t),
    }
}

/// The text of a return-type annotation: empty when there is none.
pub open spec fn spec_render_return_ann(o: Option<Type>) -> Seq<char>
    decreases o, 0int,
{
    match o {
        Option::None => Seq::<char>::empty(),
        Option::Some(t) => " -> "@ + spec_render_type(t),
    }
}

/// The text of a literal. An integer literal renders as its exact decimal
/// value; a float literal renders its IEEE-754 bit pattern; a string literal
/// is quoted verbatim.
pub open spec fn spec_render_literal(l: Literal) -> Seq<char>
    decreases l, 0int,
{
    match l {
        Literal::Integer { value } => spec_decimal(big_int_value(value)),
        Literal::Float { bits } => "float("@ + spec_digits(bits as nat) + ")"@,
        Literal::String(s) => "\""@ + s@ + "\""@,
        Literal::Boolean(b) => if b {
            "true"@
        } else {
            "false"@
        },
        Literal::Array(es) => "["@ + spec_render_exprs_from(es@, 0) + "]"@,
    }
}

/// The text of an expression.
pub open spec fn spec_render_expr(e: Expression) -> Seq<char>
    decreases e, 0int,
{
    match e {
        Expression::Literal(l) => spec_render_literal(l),
        Expression::Identifier(n) => n@,
        Expression::BinaryOperation(b) => "("@ + spec_render_expr(*b.left) + " "@
            + spec_operator_symbol(b.operator) + " "@ + spec_render_expr(*b.right) + ")"@,
        Expression::UnaryOperation(u) => "("@ + spec_unary_symbol(u.operator) + spec_render_expr(
            *u.operand,
        ) + ")"@,
        Expression::FunctionCall(f) => f.name@ + "("@ + spec_render_exprs_from(f.arguments@, 0)
            + ")"@,
        Expression::ArrayAccess(a) => spec_render_expr(*a.array) + "["@ + spec_render_expr(*a.index)
            + "]"@,
        Expression::MemberAccess(m) => spec_render_expr(*m.object) + "."@ + m.member@,
        Expression::LambdaExpression(l) => "lambda("@ + spec_render_lambda_params_from(
            l.parameters@,
            0,
        ) + ") "@ + spec_render_block(l.block),
        Expression::MatchExpression(m) => "match "@ + spec_render_expr(*m.expression) + " { "@
            + spec_render_arms_from(m.arms@, 0) + " }"@,
        Expression::MatchArms(a) => spec_render_arm(*a),
        Expression::TypeCast(c) => "("@ + spec_render_expr(*c.expression) + " as "@
            + spec_render_type(c.target_type) + ")"@,
        Expression::Conditional(c) => "(if "@ + spec_render_expr(*c.condition) + " then "@
            + spec_render_expr(*c.then_block) + " else "@ + spec_render_expr(*c.else_block) + ")"@,
    }
}

/// The comma-separated text of the expressions from position `i` on.
pub open spec fn spec_render_exprs_from(s: Seq<Expression>, i: int) -> Seq<char>
    decreases s, s.len() - i,
{
    if i < 0 || i >= s.len() {
        Seq::<char>::empty()
    } else if i + 1 == s.len() {
        spec_render_expr(s[i])
    } else {
        spec_render_expr(s[i]) + ", "@ + spec_render_exprs_from(s, i + 1)
    }
}

/// The text of one lambda parameter: its name and optional type annotation.
pub open spec fn spec_render_lambda_param(p: Parameters) -> Seq<char>
    decreases p, 0int,
{
    p.name@ + spec_render_type_ann(p.parameter_type)
}

/// The comma-separated text of the lambda parameters from position `i` on.
pub open spec fn spec_render_lambda_params_from(s: Seq<Parameters>, i: int) -> Seq<char>
    decreases s, s.len() - i,
{
    if i < 0 || i >= s.len() {
        Seq::<char>::empty()
    } else if i + 1 == s.len() {
        spec_render_lambda_param(s[i])
    } else {
        spec_render_lambda_param(s[i]) + ", "@ + spec_render_lambda_params_from(s, i + 1)
    }
}

/// The text of one match arm: its pattern, then the expression it selects.
pub open spec fn spec_render_arm(a: MatchArms) -> Seq<char>
    decreases a, 0int,
{
    spec_render_pattern(a.pattern) + " => "@ + spec_render_expr(*a.expression)
}

/// The comma-separated text of the match arms from position `i` on.
pub open spec fn spec_render_arms_from(s: Seq<MatchArms>, i: int) -> Seq<char>
    decreases s, s.len() - i,
{
    if i < 0 || i >= s.len() {
        Seq::<char>::empty()
    } else if i + 1 == s.len() {
        spec_render_arm(s[i])
    } else {
        spec_render_arm(s[i]) + ", "@ + spec_render_arms_from(s, i + 1)
    }
}

/// The text of a pattern.
pub open spec fn spec_render_pattern(p: Pattern) -> Seq<char>
    decreases p, 0int,
{
    match p {
        Pattern::Literal(l) => spec_render_literal(l),
        Pattern::Identifier(n) => n@,
        Pattern::Wildcard => "_"@,
        Pattern::EnumVariant(ev) => ev.name@ + spec_render_assoc_types(ev.associated_type),
    }
}

/// The parenthesised associated types of an enum-variant pattern: empty when
/// the variant destructures nothing.
pub open spec fn spec_render_assoc_types(o: Option<Vec<Type>>) -> Seq<char>
    decreases o, 1int,
{
    match o {
        Option::None => Seq::<char>::empty(),
        Option::Some(ts) => "("@ + spec_render_types_from(ts@, 0) + ")"@,
    }
}

/// The text of a block: its statements in order, space-separated, between
/// braces. The mode metadata is validated by `Block::validate`, not printed.
pub open spec fn spec_render_block(b: Block) -> Seq<char>
    decreases b, 1int,
{
    "{ "@ + spec_render_stmts_from(b.statements@, 0) + " }"@
}

/// The space-separated text of the statements from position `i` on.
pub open spec fn spec_render_stmts_from(s: Seq<Statement>, i: int) -> Seq<char>
    decreases s, s.len() - i,
{
    if i < 0 || i >= s.len() {
        Seq::<char>::empty()
    } else if i + 1 == s.len() {
        spec_render_stmt(s[i])
    } else {
        spec_render_stmt(s[i]) + " "@ + spec_render_stmts_from(s, i + 1)
    }
}

/// A trailing expression rendered after one space: empty when there is none.
pub open spec fn spec_render_opt_value(o: Option<Expression>) -> Seq<char>
    decreases o, 0int,
{
    match o {
        Option::None => Seq::<char>::empty(),
        Option::Some(e) => " "@ + spec_render_expr(e),
    }
}

/// An initialiser rendered after an equals sign: empty when there is none.
pub open spec fn spec_render_opt_init(o: Option<Expression>) -> Seq<char>
    decreases o, 0int,
{
    match o {
        Option::None => Seq::<char>::empty(),
        Option::Some(e) => " = "@ + spec_render_expr(e),
    }
}

/// A module alias: empty when there is none.
pub open spec fn spec_render_opt_alias(o: Option<String>) -> Seq<char> {
    match o {
        Option::None => Seq::<char>::empty(),
        Option::Some(a) => " as "@ + a@,
    }
}

/// An else block: empty when there is none.
pub open spec fn spec_render_opt_else(o: Option<Block>) -> Seq<char>
    decreases o, 2int,
{
    match o {
        Option::None => Seq::<char>::empty(),
        Option::Some(b) => " else "@ + spec_render_block(b),
    }
}

/// A finally block: empty when there is none.
pub open spec fn spec_render_opt_finally(o: Option<Block>) -> Seq<char>
    decreases o, 2int,
{
    match o {
        Option::None => Seq::<char>::empty(),
        Option::Some(b) => " finally "@ + spec_render_block(b),
    }
}

/// The elif arms of an if chain, each with its condition and block.
pub open spec fn spec_render_elifs_from(s: Seq<(Expression, Block)>, i: int) -> Seq<char>
    decreases s, s.len() - i,
{
    if i < 0 || i >= s.len() {
        Seq::<char>::empty()
    } else {
        " elif "@ + spec_render_expr(s[i].0) + " "@ + spec_render_block(s[i].1)
            + spec_render_elifs_from(s, i + 1)
    }
}

/// The handlers of a try statement, each with its optional exception-name
/// filter and its block.
pub open spec fn spec_render_handlers_from(s: Seq<(Option<String>, Block)>, i: int) -> Seq<char>
    decreases s, s.len() - i,
{
    if i < 0 || i >= s.len() {
        Seq::<char>::empty()
    } else {
        " except"@ + spec_render_opt_name(s[i].0) + " "@ + spec_render_block(s[i].1)
            + spec_render_handlers_from(s, i + 1)
    }
}

/// A name rendered after one space: empty when there is none.
pub open spec fn spec_render_opt_name(o: Option<String>) -> Seq<char> {
    match o {
        Option::None => Seq::<char>::empty(),
        Option::Some(n) => " "@ + n@,
    }
}

/// The text of a statement.
pub open spec fn spec_render_stmt(s: Statement) -> Seq<char>
    decreases s, 3int,
{
    match s {
        Statement::Expression(e) => spec_render_expr(e) + ";"@,
        Statement::Return(r) => "return"@ + spec_render_opt_value(r.value) + ";"@,
        Statement::Use(u) => "use "@ + u.module@ + spec_render_opt_alias(u.alias) + ";"@,
        Statement::Import(im) => "import "@ + im.module@ + spec_render_opt_alias(im.alias) + ";"@,
        Statement::Raise(r) => "raise "@ + spec_render_expr(r.exception) + ";"@,
        Statement::Del(d) => "del "@ + spec_render_expr(d.target) + ";"@,
        Statement::If(i) => "if "@ + spec_render_expr(i.condition) + " "@ + spec_render_block(
            i.block,
        ) + spec_render_elifs_from(i.elif_blocks@, 0) + spec_render_opt_else(i.else_block),
        Statement::Elif(e) => "elif "@ + spec_render_expr(e.condition) + " "@ + spec_render_block(
            e.block,
        ),
        Statement::While(w) => "while "@ + spec_render_expr(w.condition) + " "@ + spec_render_block(
            w.block,
        ),
        Statement::For(f) => "for "@ + f.variable_iter@ + " in "@ + spec_render_expr(f.iterable)
            + " "@ + spec_render_block(f.block),
        Statement::Break => "break;"@,
        Statement::Continue => "continue;"@,
        Statement::Try(t) => "try "@ + spec_render_block(t.block) + spec_render_handlers_from(
            t.except@,
            0,
        ) + spec_render_opt_else(t.else_block) + spec_render_opt_finally(t.finally_block),
        Statement::With(w) => "with "@ + spec_render_expr(w.target) + " "@ + spec_render_block(
            w.block,
        ),
        Statement::Yield(y) => "yield"@ + spec_render_opt_value(y.value) + ";"@,
        Statement::Declaration(d) => spec_render_decl(d),
    }
}

/// The text of one named, typed parameter.
pub open spec fn spec_render_named_param(p: (String, Type)) -> Seq<char>
    decreases p, 0int,
{
    p.0@ + ": "@ + spec_render_type(p.1)
}

/// The comma-separated text of the named parameters from position `i` on.
pub open spec fn spec_render_named_params_from(s: Seq<(String, Type)>, i: int) -> Seq<char>
    decreases s, s.len() - i,
{
    if i < 0 || i >= s.len() {
        Seq::<char>::empty()
    } else if i + 1 == s.len() {
        spec_render_named_param(s[i])
    } else {
        spec_render_named_param(s[i]) + ", "@ + spec_render_named_params_from(s, i + 1)
    }
}

/// The text of a function declaration, body included.
pub open spec fn spec_render_fn_decl(f: FunctionDeclaration) -> Seq<char>
    decreases f, 2int,
{
    "fn "@ + f.name@ + "("@ + spec_render_named_params_from(f.parameters@, 0) + ")"@
        + spec_render_return_ann(f.return_type) + " "@ + spec_render_block(f.body)
}

/// The space-separated text of the method declarations from position `i` on.
pub open spec fn spec_render_fn_decls_from(s: Seq<FunctionDeclaration>, i: int) -> Seq<char>
    decreases s, s.len() - i,
{
    if i < 0 || i >= s.len() {
        Seq::<char>::empty()
    } else if i + 1 == s.len() {
        spec_render_fn_decl(s[i])
    } else {
        spec_render_fn_decl(s[i]) + " "@ + spec_render_fn_decls_from(s, i + 1)
    }
}

/// The text of one structure or class field.
pub open spec fn spec_render_field(f: Field) -> Seq<char>
    decreases f, 0int,
{
    if f.mutable {
        "mut "@ + f.name@ + ": "@ + spec_render_type(f.field_type)
    } else {
        f.name@ + ": "@ + spec_render_type(f.field_type)
    }
}

/// The comma-separated text of the fields from position `i` on.
pub open spec fn spec_render_fields_from(s: Seq<Field>, i: int) -> Seq<char>
    decreases s, s.len() - i,
{
    if i < 0 || i >= s.len() {
        Seq::<char>::empty()
    } else if i + 1 == s.len() {
        spec_render_field(s[i])
    } else {
        spec_render_field(s[i]) + ", "@ + spec_render_fields_from(s, i + 1)
    }
}

/// The text of one enum variant: its name and its associated types, if any.
pub open spec fn spec_render_variant(v: EnumVariant) -> Seq<char>
    decreases v, 2int,
{
    v.name@ + spec_render_assoc_types(v.associated_type)
}

/// The comma-separated text of the enum variants from position `i` on.
pub open spec fn spec_render_variants_from(s: Seq<EnumVariant>, i: int) -> Seq<char>
    decreases s, s.len() - i,
{
    if i < 0 || i >= s.len() {
        Seq::<char>::empty()
    } else if i + 1 == s.len() {
        spec_render_variant(s[i])
    } else {
        spec_render_variant(s[i]) + ", "@ + spec_render_variants_from(s, i + 1)
    }
}

/// The text of one trait method signature.
pub open spec fn spec_render_signature(f: FunctionSignature) -> Seq<char>
    decreases f, 1int,
{
    "fn "@ + f.name@ + "("@ + spec_render_named_params_from(f.parameters@, 0) + ")"@
        + spec_render_return_ann(f.return_type)
}

/// The semicolon-separated text of the trait signatures from position `i` on.
pub open spec fn spec_render_signatures_from(s: Seq<FunctionSignature>, i: int) -> Seq<char>
    decreases s, s.len() - i,
{
    if i < 0 || i >= s.len() {
        Seq::<char>::empty()
    } else if i + 1 == s.len() {
        spec_render_signature(s[i])
    } else {
        spec_render_signature(s[i]) + "; "@ + spec_render_signatures_from(s, i + 1)
    }
}

/// An extended parent class: empty when there is none.
pub open spec fn spec_render_opt_parent(o: Option<String>) -> Seq<char> {
    match o {
        Option::None => Seq::<char>::empty(),
        Option::Some(p) => " extends "@ + p@,
    }
}

/// The comma-separated text of the macro parameter names from position `i`
/// on.
pub open spec fn spec_render_names_from(s: Seq<String>, i: int) -> Seq<char>
    decreases s, s.len() - i,
{
    if i < 0 || i >= s.len() {
        Seq::<char>::empty()
    } else if i + 1 == s.len() {
        s[i]@
    } else {
        s[i]@ + ", "@ + spec_render_names_from(s, i + 1)
    }
}

/// The text of a declaration.
pub open spec fn spec_render_decl(d: Declaration) -> Seq<char>
    decreases d, 3int,
{
    match d {
        Declaration::Variable(v) => if v.mutable {
            "let mut "@ + v.name@ + spec_render_type_ann(v.variable_type) + spec_render_opt_init(
                v.value,
            ) + ";"@
        } else {
            "let "@ + v.name@ + spec_render_type_ann(v.variable_type) + spec_render_opt_init(
                v.value,
            ) + ";"@
        },
        Declaration::Function(f) => spec_render_fn_decl(f),
        Declaration::Constante(c) => "const "@ + c.name@ + spec_render_type_ann(c.constant_type)
            + " = "@ + spec_render_expr(c.value) + ";"@,
        Declaration::Structure(st) => "struct "@ + st.name@ + " { "@ + spec_render_fields_from(
            st.fields@,
            0,
        ) + " }"@,
        Declaration::Class(c) => "class "@ + c.name@ + spec_render_opt_parent(c.parent_class)
            + " { "@ + spec_render_fields_from(c.fields@, 0) + " | "@ + spec_render_fn_decls_from(
            c.methods@,
            0,
        ) + " }"@,
        Declaration::Enum(e) => "enum "@ + e.name@ + " { "@ + spec_render_variants_from(
            e.variants@,
            0,
        ) + " }"@,
        Declaration::Trait(t) => "trait "@ + t.name@ + " { "@ + spec_render_signatures_from(
            t.methods@,
            0,
        ) + " }"@,
        Declaration::Impl(im) => "impl "@ + im.trait_name@ + " for "@ + spec_render_type(
            im.for_type,
        ) + " { "@ + spec_render_fn_decls_from(im.methods@, 0) + " }"@,
        Declaration::Module(m) => "mod "@ + m.name@ + " { "@ + spec_render_stmts_from(
            m.statements@,
            0,
        ) + " }"@,
        Declaration::Macro(m) => "macro "@ + m.name@ + "("@ + spec_render_names_from(
            m.parameters@,
            0,
        ) + ") "@ + spec_render_block(m.body),
    }
}

/// The text of a node. A `Program` is exactly the concatenation of its
/// children's texts, in order; an `Error` node surfaces the wrapped message
/// and position.
pub open spec fn spec_render_node(n: ASTNode) -> Seq<char>
    decreases n, 4int,
{
    match n {
        ASTNode::Program(children) => spec_render_nodes_from(children@, 0),
        ASTNode::Block(b) => spec_render_block(b),
        ASTNode::Declaration(d) => spec_render_decl(d),
        ASTNode::Expression(e) => spec_render_expr(e),
        ASTNode::Statement(s) => spec_render_stmt(s),
        ASTNode::Function(f) => spec_render_fn_decl(f.declaration) + " "@ + spec_render_block(
            f.block,
        ),
        ASTNode::Error(e) => "<error: "@ + e.message@ + " at "@ + spec_digits(e.position.line as nat)
            + ":"@ + spec_digits(e.position.column as nat) + ">"@,
    }
}

/// The concatenated text of the nodes from position `i` on, with nothing
/// between them.
pub open spec fn spec_render_nodes_from(s: Seq<ASTNode>, i: int) -> Seq<char>
    decreases s, s.len() - i,
{
    if i < 0 || i >= s.len() {
        Seq::<char>::empty()
    } else {
        spec_render_node(s[i]) + spec_render_nodes_from(s, i + 1)
    }
}

/// The source symbol of a binary operator.
pub fn operator_symbol(op: &Operator) -> (r: &'static str)
    ensures
        r@ == spec_operator_symbol(*op),
{
    match op {
        Operator::Addition => "+",
        Operator::Substraction => "-",
        Operator::Multiplication => "*",
        Operator::Division => "/",
        Operator::Modulo => "%",
        Operator::Equal => "==",
        Operator::NotEqual => "!=",
        Operator::LessThan => "<",
        Operator::GreaterThan => ">",
        Operator::And => "&&",
        Operator::Or => "||",
        Operator::LesshanOrEqual => "<=",
        Operator::GreaterThanOrEqual => ">=",
    }
}

/// The source symbol of a unary operator.
pub fn unary_symbol(op: &UnaryOperator) -> (r: &'static str)
    ensures
        r@ == spec_unary_symbol(*op),
{
    match op {
        UnaryOperator::Negate => "-",
        UnaryOperator::Not => "!",
        UnaryOperator::Increment => "++",
        UnaryOperator::Decrement => "--",
        UnaryOperator::Reference => "&",
        UnaryOperator::Dereference => "*",
        UnaryOperator::BitwiseNot => "~",
        UnaryOperator::LogicalNot => "!",
        UnaryOperator::Positive => "+",
        UnaryOperator::Negative => "-",
    }
}

/// Renders a type.
pub fn render_type(t: &Type) -> (r: String)
    ensures
        r@ == spec_render_type(*t),
    decreases *t, 0int,
{
    match t {
        Type::Int => "int".to_owned(),
        Type::Float => "float".to_owned(),
        Type::String => "string".to_owned(),
        Type::Bool => "bool".to_owned(),
        Type::Char => "char".to_owned(),
        Type::Array(x) => {
            let mut s = "[".to_owned();
            s.append(render_type(&**x).as_str());
            s.append("]");
            s
        },
        Type::Tuple(xs) => {
            let mut s = "(".to_owned();
            s.append(render_types_from(xs, 0).as_str());
            s.append(")");
            s
        },
        Type::Custom(n) => n.clone(),
        Type::Generic(g) => {
            let mut s = g.base.clone();
            s.append("<");
            s.append(render_types_from(&g.parameters, 0).as_str());
            s.append(">");
            s
        },
        Type::Infer => "_".to_owned(),
    }
}

fn render_types_from(v: &Vec<Type>, i: usize) -> (r: String)
    ensures
        r@ == spec_render_types_from(v@, i as int),
    decreases v@, v@.len() - i,
{
    if i >= v.len() {
        String::new()
    } else {
        let mut s = render_type(&v[i]);
        if i + 1 < v.len() {
            s.append(", ");
            s.append(render_types_from(v, i + 1).as_str());
        }
        s
    }
}

fn render_type_ann(o: &Option<Type>) -> (r: String)
    ensures
        r@ == spec_render_type_ann(*o),
    decreases *o, 0int,
{
    match o {
        Option::None => String::new(),
        Option::Some(t) => {
            let mut s = ": ".to_owned();
            s.append(render_type(t).as_str());
            s
        },
    }
}

fn render_return_ann(o: &Option<Type>) -> (r: String)
    ensures
        r@ == spec_render_return_ann(*o),
    decreases *o, 0int,
{
    match o {
        Option::None => String::new(),
        Option::Some(t) => {
            let mut s = " -> ".to_owned();
            s.append(render_type(t).as_str());
            s
        },
    }
}

/// Renders a literal.
pub fn render_literal(l: &Literal) -> (r: String)
    ensures
        r@ == spec_render_literal(*l),
    decreases *l, 0int,
{
    match l {
        Literal::Integer { value } => bigint_to_decimal_string(value),
        Literal::Float { bits } => {
            let mut s = "float(".to_owned();
            s.append(u64_to_decimal(*bits).as_str());
            s.append(")");
            s
        },
        Literal::String(t) => {
            let mut s = "\"".to_owned();
            s.append(t.as_str());
            s.append("\"");
            s
        },
        Literal::Boolean(b) => {
            if *b {
                "true".to_owned()
            } else {
                "false".to_owned()
            }
        },
        Literal::Array(es) => {
            let mut s = "[".to_owned();
            s.append(render_exprs_from(es, 0).as_str());
            s.append("]");
            s
        },
    }
}

/// Renders an expression.
pub fn render_expr(e: &Expression) -> (r: String)
    ensures
        r@ == spec_render_expr(*e),
    decreases *e, 0int,
{
    match e {
        Expression::Literal(l) => render_literal(l),
        Expression::Identifier(n) => n.clone(),
        Expression::BinaryOperation(b) => {
            let mut s = "(".to_owned();
            s.append(render_expr(&*b.left).as_str());
            s.append(" ");
            s.append(operator_symbol(&b.operator));
            s.append(" ");
            s.append(render_expr(&*b.right).as_str());
            s.append(")");
            s
        },
        Expression::UnaryOperation(u) => {
            let mut s = "(".to_owned();
            s.append(unary_symbol(&u.operator));
            s.append(render_expr(&*u.operand).as_str());
            s.append(")");
            s
        },
        Expression::FunctionCall(f) => {
            let mut s = f.name.clone();
            s.append("(");
            s.append(render_exprs_from(&f.arguments, 0).as_str());
            s.append(")");
            s
        },
        Expression::ArrayAccess(a) => {
            let mut s = render_expr(&*a.array);
            s.append("[");
            s.append(render_expr(&*a.index).as_str());
            s.append("]");
            s
        },
        Expression::MemberAccess(m) => {
            let mut s = render_expr(&*m.object);
            s.append(".");
            s.append(m.member.as_str());
            s
        },
        Expression::LambdaExpression(l) => {
            let mut s = "lambda(".to_owned();
            s.append(render_lambda_params_from(&l.parameters, 0).as_str());
            s.append(") ");
            s.append(render_block(&l.block).as_str());
            s
        },
        Expression::MatchExpression(m) => {
            let mut s = "match ".to_owned();
            s.append(render_expr(&*m.expression).as_str());
            s.append(" { ");
            s.append(render_arms_from(&m.arms, 0).as_str());
            s.append(" }");
            s
        },
        Expression::MatchArms(a) => render_arm(&**a),
        Expression::TypeCast(c) => {
            let mut s = "(".to_owned();
            s.append(render_expr(&*c.expression).as_str());
            s.append(" as ");
            s.append(render_type(&c.target_type).as_str());
            s.append(")");
            s
        },
        Expression::Conditional(c) => {
            let mut s = "(if ".to_owned();
            s.append(render_expr(&*c.condition).as_str());
            s.append(" then ");
            s.append(render_expr(&*c.then_block).as_str());
            s.append(" else ");
            s.append(render_expr(&*c.else_block).as_str());
            s.append(")");
            s
        },
    }
}

fn render_exprs_from(v: &Vec<Expression>, i: usize) -> (r: String)
    ensures
        r@ == spec_render_exprs_from(v@, i as int),
    decreases v@, v@.len() - i,
{
    if i >= v.len() {
        String::new()
    } else {
        let mut s = render_expr(&v[i]);
        if i + 1 < v.len() {
            s.append(", ");
            s.append(render_exprs_from(v, i + 1).as_str());
        }
        s
    }
}

fn render_lambda_param(p: &Parameters) -> (r: String)
    ensures
        r@ == spec_render_lambda_param(*p),
    decreases *p, 0int,
{
    let mut s = p.name.clone();
    s.append(render_type_ann(&p.parameter_type).as_str());
    s
}

fn render_lambda_params_from(v: &Vec<Parameters>, i: usize) -> (r: String)
    ensures
        r@ == spec_render_lambda_params_from(v@, i as int),
    decreases v@, v@.len() - i,
{
    if i >= v.len() {
        String::new()
    } else {
        let mut s = render_lambda_param(&v[i]);
        if i + 1 < v.len() {
            s.append(", ");
            s.append(render_lambda_params_from(v, i + 1).as_str());
        }
        s
    }
}

fn render_arm(a: &MatchArms) -> (r: String)
    ensures
        r@ == spec_render_arm(*a),
    decreases *a, 0int,
{
    let mut s = render_pattern(&a.pattern);
    s.append(" => ");
    s.append(render_expr(&*a.expression).as_str());
    s
}

fn render_arms_from(v: &Vec<MatchArms>, i: usize) -> (r: String)
    ensures
        r@ == spec_render_arms_from(v@, i as int),
    decreases v@, v@.len() - i,
{
    if i >= v.len() {
        String::new()
    } else {
        let mut s = render_arm(&v[i]);
        if i + 1 < v.len() {
            s.append(", ");
            s.append(render_arms_from(v, i + 1).as_str());
        }
        s
    }
}

/// Renders a pattern.
pub fn render_pattern(p: &Pattern) -> (r: String)
    ensures
        r@ == spec_render_pattern(*p),
    decreases *p, 0int,
{
    match p {
        Pattern::Literal(l) => render_literal(l),
        Pattern::Identifier(n) => n.clone(),
        Pattern::Wildcard => "_".to_owned(),
        Pattern::EnumVariant(ev) => {
            let mut s = ev.name.clone();
            s.append(render_assoc_types(&ev.associated_type).as_str());
            s
        },
    }
}

fn render_assoc_types(o: &Option<Vec<Type>>) -> (r: String)
    ensures
        r@ == spec_render_assoc_types(*o),
    decreases *o, 1int,
{
    match o {
        Option::None => String::new(),
        Option::Some(ts) => {
            let mut s = "(".to_owned();
            s.append(render_types_from(ts, 0).as_str());
            s.append(")");
            s
        },
    }
}

/// Renders a block.
pub fn render_block(b: &Block) -> (r: String)
    ensures
        r@ == spec_render_block(*b),
    decreases *b, 1int,
{
    let mut s = "{ ".to_owned();
    s.append(render_stmts_from(&b.statements, 0).as_str());
    s.append(" }");
    s
}

fn render_stmts_from(v: &Vec<Statement>, i: usize) -> (r: String)
    ensures
        r@ == spec_render_stmts_from(v@, i as int),
    decreases v@, v@.len() - i,
{
    if i >= v.len() {
        String::new()
    } else {
        let mut s = render_stmt(&v[i]);
        if i + 1 < v.len() {
            s.append(" ");
            s.append(render_stmts_from(v, i + 1).as_str());
        }
        s
    }
}

fn render_opt_value(o: &Option<Expression>) -> (r: String)
    ensures
        r@ == spec_render_opt_value(*o),
    decreases *o, 0int,
{
    match o {
        Option::None => String::new(),
        Option::Some(e) => {
            let mut s = " ".to_owned();
            s.append(render_expr(e).as_str());
            s
        },
    }
}

fn render_opt_init(o: &Option<Expression>) -> (r: String)
    ensures
        r@ == spec_render_opt_init(*o),
    decreases *o, 0int,
{
    match o {
        Option::None => String::new(),
        Option::Some(e) => {
            let mut s = " = ".to_owned();
            s.append(render_expr(e).as_str());
            s
        },
    }
}

fn render_opt_alias(o: &Option<String>) -> (r: String)
    ensures
        r@ == spec_render_opt_alias(*o),
{
    match o {
        Option::None => String::new(),
        Option::Some(a) => {
            let mut s = " as ".to_owned();
            s.append(a.as_str());
            s
        },
    }
}

fn render_opt_name(o: &Option<String>) -> (r: String)
    ensures
        r@ == spec_render_opt_name(*o),
{
    match o {
        Option::None => String::new(),
        Option::Some(n) => {
            let mut s = " ".to_owned();
            s.append(n.as_str());
            s
        },
    }
}

fn render_opt_else(o: &Option<Block>) -> (r: String)
    ensures
        r@ == spec_render_opt_else(*o),
    decreases *o, 2int,
{
    match o {
        Option::None => String::new(),
        Option::Some(b) => {
            let mut s = " else ".to_owned();
            s.append(render_block(b).as_str());
            s
        },
    }
}

fn render_opt_finally(o: &Option<Block>) -> (r: String)
    ensures
        r@ == spec_render_opt_finally(*o),
    decreases *o, 2int,
{
    match o {
        Option::None => String::new(),
        Option::Some(b) => {
            let mut s = " finally ".to_owned();
            s.append(render_block(b).as_str());
            s
        },
    }
}

fn render_elifs_from(v: &Vec<(Expression, Block)>, i: usize) -> (r: String)
    ensures
        r@ == spec_render_elifs_from(v@, i as int),
    decreases v@, v@.len() - i,
{
    if i >= v.len() {
        String::new()
    } else {
        let mut s = " elif ".to_owned();
        s.append(render_expr(&v[i].0).as_str());
        s.append(" ");
        s.append(render_block(&v[i].1).as_str());
        s.append(render_elifs_from(v, i + 1).as_str());
        s
    }
}

fn render_handlers_from(v: &Vec<(Option<String>, Block)>, i: usize) -> (r: String)
    ensures
        r@ == spec_render_handlers_from(v@, i as int),
    decreases v@, v@.len() - i,
{
    if i >= v.len() {
        String::new()
    } else {
        let mut s = " except".to_owned();
        s.append(render_opt_name(&v[i].0).as_str());
        s.append(" ");
        s.append(render_block(&v[i].1).as_str());
        s.append(render_handlers_from(v, i + 1).as_str());
        s
    }
}

/// Renders a statement.
pub fn render_stmt(st: &Statement) -> (r: String)
    ensures
        r@ == spec_render_stmt(*st),
    decreases *st, 3int,
{
    match st {
        Statement::Expression(e) => {
            let mut s = render_expr(e);
            s.append(";");
            s
        },
        Statement::Return(rt) => {
            let mut s = "return".to_owned();
            s.append(render_opt_value(&rt.value).as_str());
            s.append(";");
            s
        },
        Statement::Use(u) => {
            let mut s = "use ".to_owned();
            s.append(u.module.as_str());
            s.append(render_opt_alias(&u.alias).as_str());
            s.append(";");
            s
        },
        Statement::Import(im) => {
            let mut s = "import ".to_owned();
            s.append(im.module.as_str());
            s.append(render_opt_alias(&im.alias).as_str());
            s.append(";");
            s
        },
        Statement::Raise(rs) => {
            let mut s = "raise ".to_owned();
            s.append(render_expr(&rs.exception).as_str());
            s.append(";");
            s
        },
        Statement::Del(d) => {
            let mut s = "del ".to_owned();
            s.append(render_expr(&d.target).as_str());
            s.append(";");
            s
        },
        Statement::If(i) => {
            let mut s = "if ".to_owned();
            s.append(render_expr(&i.condition).as_str());
            s.append(" ");
            s.append(render_block(&i.block).as_str());
            s.append(render_elifs_from(&i.elif_blocks, 0).as_str());
            s.append(render_opt_else(&i.else_block).as_str());
            s
        },
        Statement::Elif(e) => {
            let mut s = "elif ".to_owned();
            s.append(render_expr(&e.condition).as_str());
            s.append(" ");
            s.append(render_block(&e.block).as_str());
            s
        },
        Statement::While(w) => {
            let mut s = "while ".to_owned();
            s.append(render_expr(&w.condition).as_str());
            s.append(" ");
            s.append(render_block(&w.block).as_str());
            s
        },
        Statement::For(f) => {
            let mut s = "for ".to_owned();
            s.append(f.variable_iter.as_str());
            s.append(" in ");
            s.append(render_expr(&f.iterable).as_str());
            s.append(" ");
            s.append(render_block(&f.block).as_str());
            s
        },
        Statement::Break => "break;".to_owned(),
        Statement::Continue => "continue;".to_owned(),
        Statement::Try(t) => {
            let mut s = "try ".to_owned();
            s.append(render_block(&t.block).as_str());
            s.append(render_handlers_from(&t.except, 0).as_str());
            s.append(render_opt_else(&t.else_block).as_str());
            s.append(render_opt_finally(&t.finally_block).as_str());
            s
        },
        Statement::With(w) => {
            let mut s = "with ".to_owned();
            s.append(render_expr(&w.target).as_str());
            s.append(" ");
            s.append(render_block(&w.block).as_str());
            s
        },
        Statement::Yield(y) => {
            let mut s = "yield".to_owned();
            s.append(render_opt_value(&y.value).as_str());
            s.append(";");
            s
        },
        Statement::Declaration(d) => render_declaration(d),
    }
}

fn render_named_param(p: &(String, Type)) -> (r: String)
    ensures
        r@ == spec_render_named_param(*p),
    decreases *p, 0int,
{
    let mut s = p.0.clone();
    s.append(": ");
    s.append(render_type(&p.1).as_str());
    s
}

fn render_named_params_from(v: &Vec<(String, Type)>, i: usize) -> (r: String)
    ensures
        r@ == spec_render_named_params_from(v@, i as int),
    decreases v@, v@.len() - i,
{
    if i >= v.len() {
        String::new()
    } else {
        let mut s = render_named_param(&v[i]);
        if i + 1 < v.len() {
            s.append(", ");
            s.append(render_named_params_from(v, i + 1).as_str());
        }
        s
    }
}

/// Renders a function declaration, body included.
pub fn render_fn_decl(f: &FunctionDeclaration) -> (r: String)
    ensures
        r@ == spec_render_fn_decl(*f),
    decreases *f, 2int,
{
    let mut s = "fn ".to_owned();
    s.append(f.name.as_str());
    s.append("(");
    s.append(render_named_params_from(&f.parameters, 0).as_str());
    s.append(")");
    s.append(render_return_ann(&f.return_type).as_str());
    s.append(" ");
    s.append(render_block(&f.body).as_str());
    s
}

fn render_fn_decls_from(v: &Vec<FunctionDeclaration>, i: usize) -> (r: String)
    ensures
        r@ == spec_render_fn_decls_from(v@, i as int),
    decreases v@, v@.len() - i,
{
    if i >= v.len() {
        String::new()
    } else {
        let mut s = render_fn_decl(&v[i]);
        if i + 1 < v.len() {
            s.append(" ");
            s.append(render_fn_decls_from(v, i + 1).as_str());
        }
        s
    }
}

fn render_field(f: &Field) -> (r: String)
    ensures
        r@ == spec_render_field(*f),
    decreases *f, 0int,
{
    if f.mutable {
        let mut s = "mut ".to_owned();
        s.append(f.name.as_str());
        s.append(": ");
        s.append(render_type(&f.field_type).as_str());
        s
    } else {
        let mut s = f.name.clone();
        s.append(": ");
        s.append(render_type(&f.field_type).as_str());
        s
    }
}

fn render_fields_from(v: &Vec<Field>, i: usize) -> (r: String)
    ensures
        r@ == spec_render_fields_from(v@, i as int),
    decreases v@, v@.len() - i,
{
    if i >= v.len() {
        String::new()
    } else {
        let mut s = render_field(&v[i]);
        if i + 1 < v.len() {
            s.append(", ");
            s.append(render_fields_from(v, i + 1).as_str());
        }
        s
    }
}

fn render_variant(ev: &EnumVariant) -> (r: String)
    ensures
        r@ == spec_render_variant(*ev),
    decreases *ev, 2int,
{
    let mut s = ev.name.clone();
    s.append(render_assoc_types(&ev.associated_type).as_str());
    s
}

fn render_variants_from(v: &Vec<EnumVariant>, i: usize) -> (r: String)
    ensures
        r@ == spec_render_variants_from(v@, i as int),
    decreases v@, v@.len() - i,
{
    if i >= v.len() {
        String::new()
    } else {
        let mut s = render_variant(&v[i]);
        if i + 1 < v.len() {
            s.append(", ");
            s.append(render_variants_from(v, i + 1).as_str());
        }
        s
    }
}

fn render_signature(f: &FunctionSignature) -> (r: String)
    ensures
        r@ == spec_render_signature(*f),
    decreases *f, 1int,
{
    let mut s = "fn ".to_owned();
    s.append(f.name.as_str());
    s.append("(");
    s.append(render_named_params_from(&f.parameters, 0).as_str());
    s.append(")");
    s.append(render_return_ann(&f.return_type).as_str());
    s
}

fn render_signatures_from(v: &Vec<FunctionSignature>, i: usize) -> (r: String)
    ensures
        r@ == spec_render_signatures_from(v@, i as int),
    decreases v@, v@.len() - i,
{
    if i >= v.len() {
        String::new()
    } else {
        let mut s = render_signature(&v[i]);
        if i + 1 < v.len() {
            s.append("; ");
            s.append(render_signatures_from(v, i + 1).as_str());
        }
        s
    }
}

fn render_opt_parent(o: &Option<String>) -> (r: String)
    ensures
        r@ == spec_render_opt_parent(*o),
{
    match o {
        Option::None => String::new(),
        Option::Some(p) => {
            let mut s = " extends ".to_owned();
            s.append(p.as_str());
            s
        },
    }
}

fn render_names_from(v: &Vec<String>, i: usize) -> (r: String)
    ensures
        r@ == spec_render_names_from(v@, i as int),
    decreases v@, v@.len() - i,
{
    if i >= v.len() {
        String::new()
    } else {
        let mut s = v[i].clone();
        if i + 1 < v.len() {
            s.append(", ");
            s.append(render_names_from(v, i + 1).as_str());
        }
        s
    }
}

/// Renders a declaration.
pub fn render_declaration(d: &Declaration) -> (r: String)
    ensures
        r@ == spec_render_decl(*d),
    decreases *d, 3int,
{
    match d {
        Declaration::Variable(v) => {
            let mut s = if v.mutable {
                "let mut ".to_owned()
            } else {
                "let ".to_owned()
            };
            s.append(v.name.as_str());
            s.append(render_type_ann(&v.variable_type).as_str());
            s.append(render_opt_init(&v.value).as_str());
            s.append(";");
            s
        },
        Declaration::Function(f) => render_fn_decl(f),
        Declaration::Constante(c) => {
            let mut s = "const ".to_owned();
            s.append(c.name.as_str());
            s.append(render_type_ann(&c.constant_type).as_str());
            s.append(" = ");
            s.append(render_expr(&c.value).as_str());
            s.append(";");
            s
        },
        Declaration::Structure(st) => {
            let mut s = "struct ".to_owned();
            s.append(st.name.as_str());
            s.append(" { ");
            s.append(render_fields_from(&st.fields, 0).as_str());
            s.append(" }");
            s
        },
        Declaration::Class(c) => {
            let mut s = "class ".to_owned();
            s.append(c.name.as_str());
            s.append(render_opt_parent(&c.parent_class).as_str());
            s.append(" { ");
            s.append(render_fields_from(&c.fields, 0).as_str());
            s.append(" | ");
            s.append(render_fn_decls_from(&c.methods, 0).as_str());
            s.append(" }");
            s
        },
        Declaration::Enum(e) => {
            let mut s = "enum ".to_owned();
            s.append(e.name.as_str());
            s.append(" { ");
            s.append(render_variants_from(&e.variants, 0).as_str());
            s.append(" }");
            s
        },
        Declaration::Trait(t) => {
            let mut s = "trait ".to_owned();
            s.append(t.name.as_str());
            s.append(" { ");
            s.append(render_signatures_from(&t.methods, 0).as_str());
            s.append(" }");
            s
        },
        Declaration::Impl(im) => {
            let mut s = "impl ".to_owned();
            s.append(im.trait_name.as_str());
            s.append(" for ");
            s.append(render_type(&im.for_type).as_str());
            s.append(" { ");
            s.append(render_fn_decls_from(&im.methods, 0).as_str());
            s.append(" }");
            s
        },
        Declaration::Module(m) => {
            let mut s = "mod ".to_owned();
            s.append(m.name.as_str());
            s.append(" { ");
            s.append(render_stmts_from(&m.statements, 0).as_str());
            s.append(" }");
            s
        },
        Declaration::Macro(m) => {
            let mut s = "macro ".to_owned();
            s.append(m.name.as_str());
            s.append("(");
            s.append(render_names_from(&m.parameters, 0).as_str());
            s.append(") ");
            s.append(render_block(&m.body).as_str());
            s
        },
    }
}

/// Renders a node recursively: a `Program` concatenates its children's
/// renderings in order, and an `Error` node renders its wrapped message and
/// position.
pub fn render_node(n: &ASTNode) -> (r: String)
    ensures
        r@ == spec_render_node(*n),
    decreases *n, 4int,
{
    match n {
        ASTNode::Program(children) => render_nodes_from(children, 0),
        ASTNode::Block(b) => render_block(b),
        ASTNode::Declaration(d) => render_declaration(d),
        ASTNode::Expression(e) => render_expr(e),
        ASTNode::Statement(s) => render_stmt(s),
        ASTNode::Function(f) => {
            let mut s = render_fn_decl(&f.declaration);
            s.append(" ");
            s.append(render_block(&f.block).as_str());
            s
        },
        ASTNode::Error(e) => {
            let mut s = "<error: ".to_owned();
            s.append(e.message.as_str());
            s.append(" at ");
            s.append(u64_to_decimal(e.position.line as u64).as_str());
            s.append(":");
            s.append(u64_to_decimal(e.position.column as u64).as_str());
            s.append(">");
            s
        },
    }
}

fn render_nodes_from(v: &Vec<ASTNode>, i: usize) -> (r: String)
    ensures
        r@ == spec_render_nodes_from(v@, i as int),
    decreases v@, v@.len() - i,
{
    if i >= v.len() {
        String::new()
    } else {
        let mut s = render_node(&v[i]);
        s.append(render_nodes_from(v, i + 1).as_str());
        s
    }
}

impl ASTNode {
    /// The human-readable text of this node; see `spec_render_node` for the
    /// exact contents.
    pub fn render(&self) -> (r: String)
        ensures
            r@ == spec_render_node(*self),
    {
        render_node(self)
    }
}

} // verus!
