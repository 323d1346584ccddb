use ast_core::Block;
use ast_core::Position;
use ast_core::SyntaxMode;
use ast_core::Token;

fn token(kind: &str, line: usize, column: usize) -> Token {
    Token { kind: kind.to_string(), position: Position { line, column } }
}

#[test]
fn indentation_block_with_level_validates() {
    let b = Block {
        statements: Vec::new(),
        syntax_mode: SyntaxMode::Indentation,
        indent_level: Some(1),
        braces: None,
    };
    assert!(b.is_indentation_mode());
    assert!(b.validate().is_ok());
}

#[test]
fn indentation_block_without_level_fails() {
    let b = Block {
        statements: Vec::new(),
        syntax_mode: SyntaxMode::Indentation,
        indent_level: None,
        braces: None,
    };
    let r = b.validate();
    assert_eq!(r, Err("Indentation level is missing".to_string()));
}

#[test]
fn indentation_block_ignores_stray_braces() {
    let b = Block {
        statements: Vec::new(),
        syntax_mode: SyntaxMode::Indentation,
        indent_level: Some(4),
        braces: Some((token("{", 1, 1), token("}", 3, 1))),
    };
    assert!(b.validate().is_ok());
    let without_level = Block {
        statements: Vec::new(),
        syntax_mode: SyntaxMode::Indentation,
        indent_level: None,
        braces: Some((token("{", 1, 1), token("}", 3, 1))),
    };
    assert_eq!(without_level.validate(), Err("Indentation level is missing".to_string()));
}

#[test]
fn braces_block_with_pair_validates() {
    let b = Block {
        statements: Vec::new(),
        syntax_mode: SyntaxMode::Braces,
        indent_level: None,
        braces: Some((token("{", 1, 10), token("}", 2, 1))),
    };
    assert!(!b.is_indentation_mode());
    assert!(b.validate().is_ok());
}

#[test]
fn braces_block_without_pair_fails() {
    let b = Block {
        statements: Vec::new(),
        syntax_mode: SyntaxMode::Braces,
        indent_level: None,
        braces: None,
    };
    assert_eq!(b.validate(), Err("Braces are missing".to_string()));
}

#[test]
fn braces_block_ignores_stray_indent_level() {
    let b = Block {
        statements: Vec::new(),
        syntax_mode: SyntaxMode::Braces,
        indent_level: Some(2),
        braces: None,
    };
    assert_eq!(b.validate(), Err("Braces are missing".to_string()));
}
