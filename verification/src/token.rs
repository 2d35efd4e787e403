use vstd::prelude::*;

verus! {

/// One lexical token of the surface language, as the lexer hands it over.
/// `Symbol` carries the raw text of an identifier or literal; every other
/// variant is a fixed keyword, delimiter or operator.
#[derive(Debug, Clone, PartialEq, Eq)]
pub enum Token {
    Data,
    Group,
    Do,
    Run,
    If,
    Foreach,
    For,
    In,
    Let,
    CreateInstructionKeyword,
    LBrace,
    RBrace,
    LParenthesis,
    RParenthesis,
    Comma,
    Colon,
    Equal,
    Dot,
    Semicolon,
    AddSign,
    SubSign,
    MulSign,
    DivSign,
    ModSign,
    Symbol(String),
}

/// The mathematical value of a token: a keyword, delimiter or operator
/// stands for itself, a symbol for the sequence of characters of its text.
pub enum Tok {
    Data,
    Group,
    Do,
    Run,
    If,
    Foreach,
    For,
    In,
    Let,
    CreateInstructionKeyword,
    LBrace,
    RBrace,
    LParenthesis,
    RParenthesis,
    Comma,
    Colon,
    Equal,
    Dot,
    Semicolon,
    AddSign,
    SubSign,
    MulSign,
    DivSign,
    ModSign,
    Symbol(Seq<char>),
}

impl View for Token {
    type V = Tok;

    open spec fn view(&self) -> Tok {
        match self {
            Token::Data => Tok::Data,
            Token::Group => Tok::Group,
            Token::Do => Tok::Do,
            Token::Run => Tok::Run,
            Token::If => Tok::If,
            Token::Foreach => Tok::Foreach,
            Token::For => Tok::For,
            Token::In => Tok::In,
            Token::Let => Tok::Let,
            Token::CreateInstructionKeyword => Tok::CreateInstructionKeyword,
            Token::LBrace => Tok::LBrace,
            Token::RBrace => Tok::RBrace,
            Token::LParenthesis => Tok::LParenthesis,
            Token::RParenthesis => Tok::RParenthesis,
            Token::Comma => Tok::Comma,
            Token::Colon => Tok::Colon,
            Token::Equal => Tok::Equal,
            Token::Dot => Tok::Dot,
            Token::Semicolon => Tok::Semicolon,
            Token::AddSign => Tok::AddSign,
            Token::SubSign => Tok::SubSign,
            Token::MulSign => Tok::MulSign,
            Token::DivSign => Tok::DivSign,
            Token::ModSign => Tok::ModSign,
            Token::Symbol(s) => Tok::Symbol(s@),
        }
    }
}

/// The surface text of a token, as the lexer read it from the source.
pub open spec fn token_text(t: Tok) -> Seq<char> {
    match t {
        Tok::Data => "data"@,
        Tok::Group => "group"@,
        Tok::Do => "do"@,
        Tok::Run => "run"@,
        Tok::If => "if"@,
        Tok::Foreach => "foreach"@,
        Tok::For => "for"@,
        Tok::In => "in"@,
        Tok::Let => "let"@,
        Tok::CreateInstructionKeyword => "create"@,
        Tok::LBrace => "{"@,
        Tok::RBrace => "}"@,
        Tok::LParenthesis => "("@,
        Tok::RParenthesis => ")"@,
        Tok::Comma => ","@,
        Tok::Colon => ":"@,
        Tok::Equal => "="@,
        Tok::Dot => "."@,
        Tok::Semicolon => ";"@,
        Tok::AddSign => "+"@,
        Tok::SubSign => "-"@,
        Tok::MulSign => "*"@,
        Tok::DivSign => "/"@,
        Tok::ModSign => "%"@,
        Tok::Symbol(s) => s,
    }
}

impl Token {
    /// The literal text of the token, used in error reports.
    pub fn get_value(&self) -> (r: String)
        ensures
            r@ == token_text(self@),
    {
        match self {
            Token::Data => String::from_str("data"),
            Token::Group => String::from_str("group"),
            Token::Do => String::from_str("do"),
            Token::Run => String::from_str("run"),
            Token::If => String::from_str("if"),
            Token::Foreach => String::from_str("foreach"),
            Token::For => String::from_str("for"),
            Token::In => String::from_str("in"),
            Token::Let => String::from_str("let"),
            Token::CreateInstructionKeyword => String::from_str("create"),
            Token::LBrace => String::from_str("{"),
            Token::RBrace => String::from_str("}"),
            Token::LParenthesis => String::from_str("("),
            Token::RParenthesis => String::from_str(")"),
            Token::Comma => String::from_str(","),
            Token::Colon => String::from_str(":"),
            Token::Equal => String::from_str("="),
            Token::Dot => String::from_str("."),
            Token::Semicolon => String::from_str(";"),
            Token::AddSign => String::from_str("+"),
            Token::SubSign => String::from_str("-"),
            Token::MulSign => String::from_str("*"),
            Token::DivSign => String::from_str("/"),
            Token::ModSign => String::from_str("%"),
            Token::Symbol(s) => s.clone(),
        }
    }
}

} // verus!
