use ast_parser::ast::ASTNode;
use ast_parser::ast_parser::{
    is_symbol, parse_ast, parse_expression, parse_foreach, parse_value, token_is,
};
use ast_parser::error::ParseError;
use ast_parser::token::Token;

fn sym(text: &str) -> Token {
    Token::Symbol(text.to_string())
}

fn value(text: &str) -> ASTNode {
    ASTNode::Value(text.to_string())
}

#[test]
fn precedence_sum_of_product() {
    // a + b * c
    let tokens = vec![
        sym("a"),
        Token::AddSign,
        sym("b"),
        Token::MulSign,
        sym("c"),
    ];
    let (node, next) = parse_expression(&tokens, 0);
    let expected = ASTNode::Sum(
        Box::new(value("a")),
        Box::new(ASTNode::Multiplication(
            Box::new(value("b")),
            Box::new(value("c")),
        )),
    );
    assert_eq!(node, expected);
    assert_eq!(next, 5);
}

#[test]
fn precedence_product_then_sum() {
    // a * b + c
    let tokens = vec![
        sym("a"),
        Token::MulSign,
        sym("b"),
        Token::AddSign,
        sym("c"),
    ];
    let (node, _) = parse_expression(&tokens, 0);
    let expected = ASTNode::Sum(
        Box::new(ASTNode::Multiplication(
            Box::new(value("a")),
            Box::new(value("b")),
        )),
        Box::new(value("c")),
    );
    assert_eq!(node, expected);
}

#[test]
fn subtraction_is_left_associative() {
    // a - b - c
    let tokens = vec![
        sym("a"),
        Token::SubSign,
        sym("b"),
        Token::SubSign,
        sym("c"),
    ];
    let (node, _) = parse_expression(&tokens, 0);
    let expected = ASTNode::Substraction(
        Box::new(ASTNode::Substraction(
            Box::new(value("a")),
            Box::new(value("b")),
        )),
        Box::new(value("c")),
    );
    assert_eq!(node, expected);
}

#[test]
fn division_and_modulo_chain() {
    // a / b % c
    let tokens = vec![
        sym("a"),
        Token::DivSign,
        sym("b"),
        Token::ModSign,
        sym("c"),
    ];
    let (node, _) = parse_expression(&tokens, 0);
    let expected = ASTNode::Modulo(
        Box::new(ASTNode::Division(
            Box::new(value("a")),
            Box::new(value("b")),
        )),
        Box::new(value("c")),
    );
    assert_eq!(node, expected);
}

#[test]
fn dotted_value() {
    // a.b
    let tokens = vec![sym("a"), Token::Dot, sym("b")];
    let (node, next) = parse_value(&tokens, 0);
    assert_eq!(node, value("a.b"));
    assert_eq!(next, 3);
}

#[test]
fn bare_value() {
    let tokens = vec![sym("a")];
    let (node, next) = parse_value(&tokens, 0);
    assert_eq!(node, value("a"));
    assert_eq!(next, 1);
}

#[test]
fn dangling_dot_value_is_kept_literally() {
    // a.  — with nothing after the dot
    let tokens = vec![sym("a"), Token::Dot];
    let (node, next) = parse_value(&tokens, 0);
    assert_eq!(node, value("a."));
    assert_eq!(next, 2);
}

#[test]
fn value_with_no_operand_is_empty() {
    let tokens: Vec<Token> = Vec::new();
    let (node, next) = parse_value(&tokens, 0);
    assert_eq!(node, value(""));
    assert_eq!(next, 0);
}

#[test]
fn foreach_multi_binding() {
    // foreach a, b in xs, ys { }  — header after the keyword
    let tokens = vec![
        sym("a"),
        Token::Comma,
        sym("b"),
        Token::In,
        sym("xs"),
        Token::Comma,
        sym("ys"),
        Token::LBrace,
        Token::RBrace,
    ];
    let result = parse_foreach(&tokens, 0);
    let expected = ASTNode::Foreach(
        vec!["a".to_string(), "b".to_string()],
        vec![value("xs"), value("ys")],
        Vec::new(),
    );
    assert_eq!(result, Ok((expected, 9)));
}

#[test]
fn foreach_inside_do_block() {
    // do F { foreach a, b in xs, ys { } }
    let tokens = vec![
        Token::Do,
        sym("F"),
        Token::LBrace,
        Token::Foreach,
        sym("a"),
        Token::Comma,
        sym("b"),
        Token::In,
        sym("xs"),
        Token::Comma,
        sym("ys"),
        Token::LBrace,
        Token::RBrace,
        Token::RBrace,
    ];
    let expected = ASTNode::Program(vec![ASTNode::Do(
        "F".to_string(),
        vec![ASTNode::Foreach(
            vec!["a".to_string(), "b".to_string()],
            vec![value("xs"), value("ys")],
            Vec::new(),
        )],
    )]);
    assert_eq!(parse_ast(tokens), Ok(expected));
}

#[test]
fn foreach_opening_with_non_symbol_fails_with_its_text() {
    // do F { foreach { } }
    let tokens = vec![
        Token::Do,
        sym("F"),
        Token::LBrace,
        Token::Foreach,
        Token::LBrace,
        Token::RBrace,
        Token::RBrace,
    ];
    assert_eq!(
        parse_ast(tokens),
        Err(ParseError::UnexpectedToken("{".to_string()))
    );
}

#[test]
fn declaration_with_let() {
    // do F { let x = a + b }
    let tokens = vec![
        Token::Do,
        sym("F"),
        Token::LBrace,
        Token::Let,
        sym("x"),
        Token::Equal,
        sym("a"),
        Token::AddSign,
        sym("b"),
        Token::RBrace,
    ];
    let expected = ASTNode::Program(vec![ASTNode::Do(
        "F".to_string(),
        vec![ASTNode::Declaration(
            "x".to_string(),
            Box::new(ASTNode::Sum(Box::new(value("a")), Box::new(value("b")))),
        )],
    )]);
    assert_eq!(parse_ast(tokens), Ok(expected));
}

#[test]
fn declaration_missing_equal_fails() {
    // do F { let x : }
    let tokens = vec![
        Token::Do,
        sym("F"),
        Token::LBrace,
        Token::Let,
        sym("x"),
        Token::Colon,
        Token::RBrace,
    ];
    assert_eq!(parse_ast(tokens), Err(ParseError::MissingDelimiter('=')));
}

#[test]
fn create_instruction_with_dotted_argument() {
    // do F { create G (x y.z) }
    let tokens = vec![
        Token::Do,
        sym("F"),
        Token::LBrace,
        Token::CreateInstructionKeyword,
        sym("G"),
        Token::LParenthesis,
        sym("x"),
        sym("y"),
        Token::Dot,
        sym("z"),
        Token::RParenthesis,
        Token::RBrace,
    ];
    let expected = ASTNode::Program(vec![ASTNode::Do(
        "F".to_string(),
        vec![ASTNode::CreateInstruction(
            "G".to_string(),
            vec![value("x"), value("y.z")],
        )],
    )]);
    assert_eq!(parse_ast(tokens), Ok(expected));
}

#[test]
fn create_arguments_skip_commas() {
    // do F { create G (x, y) }
    let tokens = vec![
        Token::Do,
        sym("F"),
        Token::LBrace,
        Token::CreateInstructionKeyword,
        sym("G"),
        Token::LParenthesis,
        sym("x"),
        Token::Comma,
        sym("y"),
        Token::RParenthesis,
        Token::RBrace,
    ];
    let expected = ASTNode::Program(vec![ASTNode::Do(
        "F".to_string(),
        vec![ASTNode::CreateInstruction(
            "G".to_string(),
            vec![value("x"), value("y")],
        )],
    )]);
    assert_eq!(parse_ast(tokens), Ok(expected));
}

#[test]
fn if_with_condition_and_body() {
    // do F { if a + b { let x = c } }
    let tokens = vec![
        Token::Do,
        sym("F"),
        Token::LBrace,
        Token::If,
        sym("a"),
        Token::AddSign,
        sym("b"),
        Token::LBrace,
        Token::Let,
        sym("x"),
        Token::Equal,
        sym("c"),
        Token::RBrace,
        Token::RBrace,
    ];
    let expected = ASTNode::Program(vec![ASTNode::Do(
        "F".to_string(),
        vec![ASTNode::If(
            Box::new(ASTNode::Sum(Box::new(value("a")), Box::new(value("b")))),
            vec![ASTNode::Declaration("x".to_string(), Box::new(value("c")))],
        )],
    )]);
    assert_eq!(parse_ast(tokens), Ok(expected));
}

#[test]
fn for_loop_with_stub_progression() {
    // do F { for i = a ; i ; x { } }
    let tokens = vec![
        Token::Do,
        sym("F"),
        Token::LBrace,
        Token::For,
        sym("i"),
        Token::Equal,
        sym("a"),
        Token::Semicolon,
        sym("i"),
        Token::Semicolon,
        sym("x"),
        Token::LBrace,
        Token::RBrace,
        Token::RBrace,
    ];
    let expected = ASTNode::Program(vec![ASTNode::Do(
        "F".to_string(),
        vec![ASTNode::For(
            Box::new(ASTNode::Declaration("i".to_string(), Box::new(value("a")))),
            Box::new(value("i")),
            Box::new(ASTNode::Expression(Box::new(value("")))),
            Vec::new(),
        )],
    )]);
    assert_eq!(parse_ast(tokens), Ok(expected));
}

#[test]
fn for_loop_missing_semicolon_fails() {
    // do F { for i = a { } }
    let tokens = vec![
        Token::Do,
        sym("F"),
        Token::LBrace,
        Token::For,
        sym("i"),
        Token::Equal,
        sym("a"),
        Token::LBrace,
        Token::RBrace,
        Token::RBrace,
    ];
    assert_eq!(parse_ast(tokens), Err(ParseError::MissingDelimiter(';')));
}

#[test]
fn non_instruction_token_in_body_fails() {
    // do F { x }
    let tokens = vec![
        Token::Do,
        sym("F"),
        Token::LBrace,
        sym("x"),
        Token::RBrace,
    ];
    assert_eq!(parse_ast(tokens), Err(ParseError::ExpectedInstruction));
}

#[test]
fn unclosed_body_fails() {
    // do F {
    let tokens = vec![Token::Do, sym("F"), Token::LBrace];
    assert_eq!(parse_ast(tokens), Err(ParseError::IncompleteInput));
}

#[test]
fn token_is_compares_token_at_position() {
    let tokens = vec![Token::LBrace, sym("a")];
    assert!(token_is(&tokens, 0, &Token::LBrace));
    assert!(!token_is(&tokens, 1, &Token::LBrace));
    assert!(token_is(&tokens, 1, &sym("a")));
    assert!(!token_is(&tokens, 1, &sym("b")));
    assert!(!token_is(&tokens, 2, &Token::LBrace));
}

#[test]
fn is_symbol_looks_through_lookahead() {
    let a = sym("a");
    assert!(is_symbol(&Some(&a)));
    assert!(!is_symbol(&Some(&Token::Comma)));
    assert!(!is_symbol(&None));
}

#[test]
fn get_value_returns_surface_text() {
    assert_eq!(Token::Data.get_value(), "data".to_string());
    assert_eq!(Token::Dot.get_value(), ".".to_string());
    assert_eq!(sym("hello").get_value(), "hello".to_string());
}
