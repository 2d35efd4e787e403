use ast_parser::ast::ASTNode;
use ast_parser::ast_parser::parse_ast;
use ast_parser::error::ParseError;
use ast_parser::token::Token;

fn sym(text: &str) -> Token {
    Token::Symbol(text.to_string())
}

fn field(name: &str, ty: &str) -> ASTNode {
    ASTNode::Field(name.to_string(), ty.to_string())
}

#[test]
fn data_round_trip_node_shape() {
    // data Point { x: Int, y: Int }
    let tokens = vec![
        Token::Data,
        sym("Point"),
        Token::LBrace,
        sym("x"),
        Token::Colon,
        sym("Int"),
        Token::Comma,
        sym("y"),
        Token::Colon,
        sym("Int"),
        Token::RBrace,
    ];
    let expected = ASTNode::Program(vec![ASTNode::Data(
        "Point".to_string(),
        vec![field("x", "Int"), field("y", "Int")],
    )]);
    assert_eq!(parse_ast(tokens), Ok(expected));
}

#[test]
fn data_without_commas() {
    // data P { x: Int y: Int }
    let tokens = vec![
        Token::Data,
        sym("P"),
        Token::LBrace,
        sym("x"),
        Token::Colon,
        sym("Int"),
        sym("y"),
        Token::Colon,
        sym("Int"),
        Token::RBrace,
    ];
    let expected = ASTNode::Program(vec![ASTNode::Data(
        "P".to_string(),
        vec![field("x", "Int"), field("y", "Int")],
    )]);
    assert_eq!(parse_ast(tokens), Ok(expected));
}

#[test]
fn data_with_leading_and_trailing_commas() {
    // data P { , x: Int, y: Int, }
    let tokens = vec![
        Token::Data,
        sym("P"),
        Token::LBrace,
        Token::Comma,
        sym("x"),
        Token::Colon,
        sym("Int"),
        Token::Comma,
        sym("y"),
        Token::Colon,
        sym("Int"),
        Token::Comma,
        Token::RBrace,
    ];
    let expected = ASTNode::Program(vec![ASTNode::Data(
        "P".to_string(),
        vec![field("x", "Int"), field("y", "Int")],
    )]);
    assert_eq!(parse_ast(tokens), Ok(expected));
}

#[test]
fn data_missing_name_fails() {
    // data { x: Int }
    let tokens = vec![
        Token::Data,
        Token::LBrace,
        sym("x"),
        Token::Colon,
        sym("Int"),
        Token::RBrace,
    ];
    assert_eq!(parse_ast(tokens), Err(ParseError::MissingName));
}

#[test]
fn data_missing_open_brace_fails() {
    // data Foo x: Int }
    let tokens = vec![
        Token::Data,
        sym("Foo"),
        sym("x"),
        Token::Colon,
        sym("Int"),
        Token::RBrace,
    ];
    assert_eq!(parse_ast(tokens), Err(ParseError::MissingDelimiter('{')));
}

#[test]
fn data_missing_field_type_fails() {
    // data P { x: }
    let tokens = vec![
        Token::Data,
        sym("P"),
        Token::LBrace,
        sym("x"),
        Token::Colon,
        Token::RBrace,
    ];
    assert_eq!(parse_ast(tokens), Err(ParseError::MissingType));
}

#[test]
fn data_truncated_input_fails() {
    // data P { x
    let tokens = vec![Token::Data, sym("P"), Token::LBrace, sym("x")];
    assert_eq!(parse_ast(tokens), Err(ParseError::IncompleteInput));
}

#[test]
fn empty_token_sequence_is_empty_program() {
    assert_eq!(parse_ast(Vec::new()), Ok(ASTNode::Program(Vec::new())));
}

#[test]
fn stray_top_level_token_fails_with_its_text() {
    let tokens = vec![Token::Comma];
    assert_eq!(
        parse_ast(tokens),
        Err(ParseError::UnexpectedToken(",".to_string()))
    );
}

#[test]
fn empty_do_body() {
    // do Foo {}
    let tokens = vec![Token::Do, sym("Foo"), Token::LBrace, Token::RBrace];
    let expected = ASTNode::Program(vec![ASTNode::Do("Foo".to_string(), Vec::new())]);
    assert_eq!(parse_ast(tokens), Ok(expected));
}

#[test]
fn empty_run_body() {
    // run () {}
    let tokens = vec![
        Token::Run,
        Token::LParenthesis,
        Token::RParenthesis,
        Token::LBrace,
        Token::RBrace,
    ];
    let expected = ASTNode::Program(vec![ASTNode::Run(Vec::new(), Vec::new())]);
    assert_eq!(parse_ast(tokens), Ok(expected));
}

#[test]
fn run_actions_skip_stray_separators() {
    // run (save , load) {}
    let tokens = vec![
        Token::Run,
        Token::LParenthesis,
        sym("save"),
        Token::Comma,
        sym("load"),
        Token::RParenthesis,
        Token::LBrace,
        Token::RBrace,
    ];
    let expected = ASTNode::Program(vec![ASTNode::Run(
        vec!["save".to_string(), "load".to_string()],
        Vec::new(),
    )]);
    assert_eq!(parse_ast(tokens), Ok(expected));
}

#[test]
fn group_with_parameters_and_instanciation() {
    // group G (p: Int) { D (f = v) }
    let tokens = vec![
        Token::Group,
        sym("G"),
        Token::LParenthesis,
        sym("p"),
        Token::Colon,
        sym("Int"),
        Token::RParenthesis,
        Token::LBrace,
        sym("D"),
        Token::LParenthesis,
        sym("f"),
        Token::Equal,
        sym("v"),
        Token::RParenthesis,
        Token::RBrace,
    ];
    let expected = ASTNode::Program(vec![ASTNode::Group(
        "G".to_string(),
        vec![ASTNode::Parameter("p".to_string(), "Int".to_string())],
        vec![ASTNode::DataInstanciation(
            "D".to_string(),
            vec![ASTNode::FieldValue("f".to_string(), "v".to_string())],
        )],
    )]);
    assert_eq!(parse_ast(tokens), Ok(expected));
}

#[test]
fn group_missing_open_parenthesis_fails() {
    // group G { }
    let tokens = vec![Token::Group, sym("G"), Token::LBrace, Token::RBrace];
    assert_eq!(parse_ast(tokens), Err(ParseError::MissingDelimiter('(')));
}

#[test]
fn group_instanciation_missing_value_fails() {
    // group G () { D (f = ,) }
    let tokens = vec![
        Token::Group,
        sym("G"),
        Token::LParenthesis,
        Token::RParenthesis,
        Token::LBrace,
        sym("D"),
        Token::LParenthesis,
        sym("f"),
        Token::Equal,
        Token::Comma,
        Token::RParenthesis,
        Token::RBrace,
    ];
    assert_eq!(parse_ast(tokens), Err(ParseError::MissingName));
}

#[test]
fn two_blocks_in_source_order() {
    // data A {} do B {}
    let tokens = vec![
        Token::Data,
        sym("A"),
        Token::LBrace,
        Token::RBrace,
        Token::Do,
        sym("B"),
        Token::LBrace,
        Token::RBrace,
    ];
    let expected = ASTNode::Program(vec![
        ASTNode::Data("A".to_string(), Vec::new()),
        ASTNode::Do("B".to_string(), Vec::new()),
    ]);
    assert_eq!(parse_ast(tokens), Ok(expected));
}

#[test]
fn parse_is_idempotent_across_invocations() {
    let tokens = vec![
        Token::Data,
        sym("Point"),
        Token::LBrace,
        sym("x"),
        Token::Colon,
        sym("Int"),
        Token::Comma,
        sym("y"),
        Token::Colon,
        sym("Int"),
        Token::RBrace,
        Token::Do,
        sym("Main"),
        Token::LBrace,
        Token::Let,
        sym("a"),
        Token::Equal,
        sym("b"),
        Token::AddSign,
        sym("c"),
        Token::RBrace,
    ];
    let first = parse_ast(tokens.clone());
    let second = parse_ast(tokens);
    assert_eq!(first, second);
}

#[test]
fn failing_parse_is_idempotent_too() {
    let tokens = vec![Token::Data, Token::LBrace, Token::RBrace];
    let first = parse_ast(tokens.clone());
    let second = parse_ast(tokens);
    assert_eq!(first, Err(ParseError::MissingName));
    assert_eq!(first, second);
}
