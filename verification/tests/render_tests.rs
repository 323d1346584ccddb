use ast_core::ASTNode;
use ast_core::BinaryOperation;
use ast_core::Block;
use ast_core::Expression;
use ast_core::LambdaExpression;
use ast_core::Literal;
use ast_core::MatchArms;
use ast_core::MatchExpression;
use ast_core::Operator;
use ast_core::Parameters;
use ast_core::Pattern;
use ast_core::Statement;
use ast_core::SyntaxMode;
use ast_core::Type;
use ast_core::GenericType;
use ast_core::UseStatement;
use ast_core::IfStatement;
use ast_core::render::render_declaration;
use ast_core::render::render_expr;
use ast_core::render::render_stmt;
use ast_core::render::render_type;
use ast_core::Declaration;
use ast_core::VariableDeclaration;
use ast_core::FunctionDeclaration;

fn int_expr(v: i64) -> Expression {
    Expression::Literal(Literal::integer_from_i64(v))
}

fn empty_indent_block() -> Block {
    Block {
        statements: Vec::new(),
        syntax_mode: SyntaxMode::Indentation,
        indent_level: Some(1),
        braces: None,
    }
}

fn binary(op: Operator) -> Expression {
    Expression::BinaryOperation(BinaryOperation {
        left: Box::new(int_expr(2)),
        operator: op,
        right: Box::new(int_expr(3)),
    })
}

#[test]
fn binary_operation_carries_its_operator_tag() {
    let e = binary(Operator::Addition);
    match &e {
        Expression::BinaryOperation(b) => {
            assert_eq!(b.operator, Operator::Addition);
            assert_ne!(b.operator, Operator::Substraction);
        }
        _ => panic!("expected a binary operation"),
    }
    assert_eq!(render_expr(&e), "(2 + 3)");
    assert_eq!(render_expr(&binary(Operator::Addition)), "(2 + 3)");
    assert_eq!(render_expr(&binary(Operator::Substraction)), "(2 - 3)");
}

#[test]
fn types_render_structurally() {
    assert_eq!(render_type(&Type::Tuple(vec![Type::Int, Type::Bool])), "(int, bool)");
    assert_eq!(render_type(&Type::Array(Box::new(Type::Char))), "[char]");
    assert_eq!(
        render_type(&Type::Generic(GenericType {
            base: "List".to_string(),
            parameters: vec![Type::Int],
        })),
        "List<int>"
    );
    assert_eq!(render_type(&Type::Custom("Point".to_string())), "Point");
    assert_eq!(render_type(&Type::Infer), "_");
}

#[test]
fn literals_render_exactly() {
    assert_eq!(render_expr(&Expression::Literal(Literal::String("hi".to_string()))), "\"hi\"");
    assert_eq!(render_expr(&Expression::Literal(Literal::Boolean(true))), "true");
    assert_eq!(
        render_expr(&Expression::Literal(Literal::Array(vec![int_expr(1), int_expr(2)]))),
        "[1, 2]"
    );
    let bits = (1.5f64).to_bits();
    assert_eq!(
        render_expr(&Expression::Literal(Literal::Float { bits })),
        format!("float({})", bits)
    );
    assert_eq!(
        render_expr(&Expression::Literal(Literal::Float { bits: u64::MAX })),
        "float(18446744073709551615)"
    );
}

#[test]
fn lambda_and_match_render_recursively() {
    let lambda = Expression::LambdaExpression(LambdaExpression {
        parameters: vec![Parameters { name: "x".to_string(), parameter_type: Some(Type::Int) }],
        block: empty_indent_block(),
    });
    assert_eq!(render_expr(&lambda), "lambda(x: int) {  }");
    let m = Expression::MatchExpression(MatchExpression {
        expression: Box::new(Expression::Identifier("v".to_string())),
        arms: vec![MatchArms { pattern: Pattern::Wildcard, expression: Box::new(int_expr(0)) }],
    });
    assert_eq!(render_expr(&m), "match v { _ => 0 }");
}

#[test]
fn statements_render_exactly() {
    let use_stmt = Statement::Use(UseStatement {
        module: "foo".to_string(),
        alias: Some("f".to_string()),
    });
    assert_eq!(render_stmt(&use_stmt), "use foo as f;");
    assert_eq!(render_stmt(&Statement::Break), "break;");
    let if_stmt = Statement::If(IfStatement {
        condition: Expression::Identifier("c".to_string()),
        block: Block {
            statements: vec![Statement::Break],
            syntax_mode: SyntaxMode::Braces,
            indent_level: None,
            braces: None,
        },
        elif_blocks: Vec::new(),
        else_block: Some(Block {
            statements: vec![Statement::Continue],
            syntax_mode: SyntaxMode::Braces,
            indent_level: None,
            braces: None,
        }),
    });
    assert_eq!(render_stmt(&if_stmt), "if c { break; } else { continue; }");
}

#[test]
fn declarations_render_exactly() {
    let var = Declaration::Variable(VariableDeclaration {
        name: "x".to_string(),
        variable_type: Some(Type::Int),
        value: Some(int_expr(1)),
        mutable: true,
    });
    assert_eq!(render_declaration(&var), "let mut x: int = 1;");
    let f = Declaration::Function(FunctionDeclaration {
        name: "f".to_string(),
        parameters: vec![("a".to_string(), Type::Int)],
        return_type: Some(Type::Bool),
        body: Block {
            statements: vec![Statement::Break],
            syntax_mode: SyntaxMode::Braces,
            indent_level: None,
            braces: None,
        },
    });
    assert_eq!(render_declaration(&f), "fn f(a: int) -> bool { break; }");
}

#[test]
fn rendering_is_deterministic() {
    let e = binary(Operator::Addition);
    let first = render_expr(&e);
    let second = render_expr(&e);
    assert_eq!(first, second);
    let node = ASTNode::expression(e);
    assert_eq!(node.render(), "(2 + 3)");
}
