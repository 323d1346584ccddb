use ast_core::ASTNode;
use ast_core::Block;
use ast_core::Declaration;
use ast_core::Expression;
use ast_core::Function;
use ast_core::FunctionDeclaration;
use ast_core::ParseError;
use ast_core::Position;
use ast_core::Statement;
use ast_core::SyntaxMode;
use ast_core::Type;
use ast_core::VariableDeclaration;

fn plain_var(name: &str) -> Declaration {
    Declaration::Variable(VariableDeclaration {
        name: name.to_string(),
        variable_type: None,
        value: None,
        mutable: false,
    })
}

fn empty_block() -> Block {
    Block {
        statements: Vec::new(),
        syntax_mode: SyntaxMode::Braces,
        indent_level: None,
        braces: None,
    }
}

#[test]
fn constructors_build_the_named_variant() {
    assert!(matches!(ASTNode::block(empty_block()), ASTNode::Block(_)));
    assert!(matches!(ASTNode::declaration(plain_var("x")), ASTNode::Declaration(_)));
    assert!(matches!(
        ASTNode::expression(Expression::Identifier("x".to_string())),
        ASTNode::Expression(_)
    ));
    assert!(matches!(ASTNode::statement(Statement::Break), ASTNode::Statement(_)));
    assert!(matches!(
        ASTNode::function(Function {
            declaration: FunctionDeclaration {
                name: "f".to_string(),
                parameters: Vec::new(),
                return_type: Some(Type::Bool),
                body: empty_block(),
            },
            block: empty_block(),
        }),
        ASTNode::Function(_)
    ));
    assert!(matches!(
        ASTNode::error(ParseError {
            message: "bad".to_string(),
            position: Position { line: 1, column: 2 },
        }),
        ASTNode::Error(_)
    ));
}

#[test]
fn program_preserves_child_order_and_count() {
    let children = vec![
        ASTNode::declaration(plain_var("a")),
        ASTNode::statement(Statement::Break),
        ASTNode::declaration(plain_var("b")),
    ];
    let program = ASTNode::program(children);
    let rendered = program.render();
    assert_eq!(rendered, "let a;break;let b;");
    match &program {
        ASTNode::Program(kids) => {
            assert_eq!(kids.len(), 3);
            assert!(matches!(kids[0], ASTNode::Declaration(_)));
            assert!(matches!(kids[1], ASTNode::Statement(_)));
            assert!(matches!(kids[2], ASTNode::Declaration(_)));
            match &kids[0] {
                ASTNode::Declaration(Declaration::Variable(v)) => assert_eq!(v.name, "a"),
                _ => panic!("expected the first child unchanged"),
            }
            match &kids[2] {
                ASTNode::Declaration(Declaration::Variable(v)) => assert_eq!(v.name, "b"),
                _ => panic!("expected the third child unchanged"),
            }
        }
        _ => panic!("expected a program"),
    }
}

#[test]
fn errors_are_contained_in_the_tree() {
    let children = vec![
        ASTNode::declaration(plain_var("a")),
        ASTNode::error(ParseError {
            message: "expected expression".to_string(),
            position: Position { line: 3, column: 7 },
        }),
        ASTNode::statement(Statement::Break),
    ];
    let program = ASTNode::program(children);
    match &program {
        ASTNode::Program(kids) => {
            assert_eq!(kids.len(), 3);
            assert!(matches!(kids[0], ASTNode::Declaration(_)));
            assert!(matches!(kids[2], ASTNode::Statement(_)));
            match &kids[1] {
                ASTNode::Error(e) => {
                    assert_eq!(e.message, "expected expression");
                    assert_eq!(e.position.line, 3);
                    assert_eq!(e.position.column, 7);
                }
                _ => panic!("expected the second child to be an error node"),
            }
        }
        _ => panic!("expected a program"),
    }
    assert_eq!(program.render(), "let a;<error: expected expression at 3:7>break;");
}
