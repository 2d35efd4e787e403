use vstd::prelude::*;
use crate::token::{Token, Tok};
use crate::error::ParseError;
use crate::ast::{
    ASTNode, Ast, nodes_view, strings_view, lemma_nodes_view_empty, lemma_nodes_view_insert0,
    lemma_strings_view_empty, lemma_strings_view_insert0,
};
use crate::grammar::{
    spec_instruction, spec_instructions, spec_if, spec_foreach, spec_for, spec_do, spec_run,
    spec_data, spec_group, spec_block, spec_blocks, spec_parse,
    Parsed, peek, spec_value, spec_mul_div_rest, spec_mul_div, spec_add_sub_rest,
    spec_add_sub, spec_expression, spec_field, spec_parameter, spec_field_value, spec_fields,
    spec_parameters, spec_field_values, spec_data_instanciation, spec_data_instanciations,
    spec_run_actions, spec_foreach_names, spec_foreach_collections, spec_statement,
    spec_declaration, spec_create_args, spec_create,
};

verus! {

// The executable recursive-descent parser. Each function consumes tokens
// from `pos` onward and is proved to return exactly what the grammar
// specification says for that non-terminal: the same node, the same next
// cursor position, or the same first violation.

/// The sequence of token values of a token list.
pub open spec fn toks_view(ts: Seq<Token>) -> Seq<Tok> {
    ts.map_values(|x: Token| x@)
}

/// The abstract outcome of parsing one node.
pub open spec fn node_result(r: Result<(ASTNode, usize), ParseError>) -> Parsed<Ast> {
    match r {
        Result::Ok((n, next)) => Parsed::Done { node: n@, next: next as int },
        Result::Err(e) => Parsed::Fail(e@),
    }
}

/// The abstract outcome of parsing a list of nodes.
pub open spec fn nodes_result(r: Result<(Vec<ASTNode>, usize), ParseError>) -> Parsed<Seq<Ast>> {
    match r {
        Result::Ok((v, next)) => Parsed::Done { node: nodes_view(v@), next: next as int },
        Result::Err(e) => Parsed::Fail(e@),
    }
}

/// The abstract outcome of parsing a list of names.
pub open spec fn names_result(r: Result<(Vec<String>, usize), ParseError>) -> Parsed<
    Seq<Seq<char>>,
> {
    match r {
        Result::Ok((v, next)) => Parsed::Done { node: strings_view(v@), next: next as int },
        Result::Err(e) => Parsed::Fail(e@),
    }
}

/// True when the two tokens are the same lexical token; symbols are the
/// same exactly when their texts agree.
fn token_eq(a: &Token, b: &Token) -> (r: bool)
    ensures
        r == (a@ == b@),
{
    match (a, b) {
        (Token::Data, Token::Data) => true,
        (Token::Group, Token::Group) => true,
        (Token::Do, Token::Do) => true,
        (Token::Run, Token::Run) => true,
        (Token::If, Token::If) => true,
        (Token::Foreach, Token::Foreach) => true,
        (Token::For, Token::For) => true,
        (Token::In, Token::In) => true,
        (Token::Let, Token::Let) => true,
        (Token::CreateInstructionKeyword, Token::CreateInstructionKeyword) => true,
        (Token::LBrace, Token::LBrace) => true,
        (Token::RBrace, Token::RBrace) => true,
        (Token::LParenthesis, Token::LParenthesis) => true,
        (Token::RParenthesis, Token::RParenthesis) => true,
        (Token::Comma, Token::Comma) => true,
        (Token::Colon, Token::Colon) => true,
        (Token::Equal, Token::Equal) => true,
        (Token::Dot, Token::Dot) => true,
        (Token::Semicolon, Token::Semicolon) => true,
        (Token::AddSign, Token::AddSign) => true,
        (Token::SubSign, Token::SubSign) => true,
        (Token::MulSign, Token::MulSign) => true,
        (Token::DivSign, Token::DivSign) => true,
        (Token::ModSign, Token::ModSign) => true,
        (Token::Symbol(x), Token::Symbol(y)) => *x == *y,
        _ => false,
    }
}

/// True when the token at `pos` exists and equals `expected`.
pub fn token_is(tokens: &Vec<Token>, pos: usize, expected: &Token) -> (r: bool)
    ensures
        r == (peek(toks_view(tokens@), pos as int) == Option::Some(expected@)),
{
    if pos < tokens.len() {
        token_eq(&tokens[pos], expected)
    } else {
        false
    }
}

/// True when the token under one step of lookahead is a symbol.
pub fn is_symbol(token: &Option<&Token>) -> (r: bool)
    ensures
        r == (match *token {
            Option::Some(t) => t@ is Symbol,
            Option::None => false,
        }),
{
    match token {
        Option::Some(Token::Symbol(_)) => true,
        _ => false,
    }
}

/// Parses an atomic operand: a bare symbol, a dotted pair, or a partial
/// dotted form, collected literally into one value text; consumes nothing
/// when no symbol or dot stands at `pos`.
pub fn parse_value(tokens: &Vec<Token>, pos: usize) -> (r: (ASTNode, usize))
    requires
        pos <= tokens@.len(),
    ensures
        (r.0@, r.1 as int) == spec_value(toks_view(tokens@), pos as int),
        pos <= r.1 <= tokens@.len(),
        pos < tokens@.len() && (toks_view(tokens@)[pos as int] is Symbol || toks_view(
            tokens@,
        )[pos as int] is Dot) ==> pos < r.1,
{
    let mut value = String::new();
    let mut p = pos;
    if p < tokens.len() {
        match &tokens[p] {
            Token::Symbol(s) => {
                value.append(s.as_str());
                p = p + 1;
            },
            _ => {},
        }
    }
    if p < tokens.len() {
        match &tokens[p] {
            Token::Dot => {
                value.append(".");
                p = p + 1;
                if p < tokens.len() {
                    match &tokens[p] {
                        Token::Symbol(s2) => {
                            value.append(s2.as_str());
                            p = p + 1;
                        },
                        _ => {},
                    }
                }
            },
            _ => {},
        }
    }
    (ASTNode::new_value(value), p)
}

/// Parses the left-associative tail of a multiplicative chain onto `lhs`.
fn parse_mul_div_rest(tokens: &Vec<Token>, pos: usize, lhs: ASTNode) -> (r: (ASTNode, usize))
    requires
        pos <= tokens@.len(),
    ensures
        (r.0@, r.1 as int) == spec_mul_div_rest(toks_view(tokens@), pos as int, lhs@),
        pos <= r.1 <= tokens@.len(),
    decreases tokens@.len() - pos,
{
    if pos >= tokens.len() {
        return (lhs, pos);
    }
    match &tokens[pos] {
        Token::MulSign => {
            let (rhs, n) = parse_value(tokens, pos + 1);
            parse_mul_div_rest(tokens, n, ASTNode::new_multiplication(lhs, rhs))
        },
        Token::DivSign => {
            let (rhs, n) = parse_value(tokens, pos + 1);
            parse_mul_div_rest(tokens, n, ASTNode::new_division(lhs, rhs))
        },
        Token::ModSign => {
            let (rhs, n) = parse_value(tokens, pos + 1);
            parse_mul_div_rest(tokens, n, ASTNode::new_modulo(lhs, rhs))
        },
        _ => (lhs, pos),
    }
}

/// Parses the multiplicative precedence tier: a value and any number of
/// `*`, `/` or `%` operators, grouped from the left.
pub fn parse_mul_div_mod_expression(tokens: &Vec<Token>, pos: usize) -> (r: (ASTNode, usize))
    requires
        pos <= tokens@.len(),
    ensures
        (r.0@, r.1 as int) == spec_mul_div(toks_view(tokens@), pos as int),
        pos <= r.1 <= tokens@.len(),
        pos < tokens@.len() && (toks_view(tokens@)[pos as int] is Symbol || toks_view(
            tokens@,
        )[pos as int] is Dot) ==> pos < r.1,
{
    let (v, p1) = parse_value(tokens, pos);
    parse_mul_div_rest(tokens, p1, v)
}

/// Parses the left-associative tail of an additive chain onto `lhs`.
fn parse_add_sub_rest(tokens: &Vec<Token>, pos: usize, lhs: ASTNode) -> (r: (ASTNode, usize))
    requires
        pos <= tokens@.len(),
    ensures
        (r.0@, r.1 as int) == spec_add_sub_rest(toks_view(tokens@), pos as int, lhs@),
        pos <= r.1 <= tokens@.len(),
    decreases tokens@.len() - pos,
{
    if pos >= tokens.len() {
        return (lhs, pos);
    }
    match &tokens[pos] {
        Token::AddSign => {
            let (rhs, n) = parse_mul_div_mod_expression(tokens, pos + 1);
            parse_add_sub_rest(tokens, n, ASTNode::new_sum(lhs, rhs))
        },
        Token::SubSign => {
            let (rhs, n) = parse_mul_div_mod_expression(tokens, pos + 1);
            parse_add_sub_rest(tokens, n, ASTNode::new_substraction(lhs, rhs))
        },
        _ => (lhs, pos),
    }
}

/// Parses the additive precedence tier: a multiplicative operand and any
/// number of `+` or `-` operators, grouped from the left.
pub fn parse_add_sub_expression(tokens: &Vec<Token>, pos: usize) -> (r: (ASTNode, usize))
    requires
        pos <= tokens@.len(),
    ensures
        (r.0@, r.1 as int) == spec_add_sub(toks_view(tokens@), pos as int),
        pos <= r.1 <= tokens@.len(),
        pos < tokens@.len() && (toks_view(tokens@)[pos as int] is Symbol || toks_view(
            tokens@,
        )[pos as int] is Dot) ==> pos < r.1,
{
    let (v, p1) = parse_mul_div_mod_expression(tokens, pos);
    parse_add_sub_rest(tokens, p1, v)
}

/// Parses a full arithmetic expression; never fails, yielding the empty
/// value and consuming nothing where no operand stands.
pub fn parse_expression(tokens: &Vec<Token>, pos: usize) -> (r: (ASTNode, usize))
    requires
        pos <= tokens@.len(),
    ensures
        (r.0@, r.1 as int) == spec_expression(toks_view(tokens@), pos as int),
        pos <= r.1 <= tokens@.len(),
        pos < tokens@.len() && (toks_view(tokens@)[pos as int] is Symbol || toks_view(
            tokens@,
        )[pos as int] is Dot) ==> pos < r.1,
{
    parse_add_sub_expression(tokens, pos)
}

/// Parses one member of a record-type declaration: `name ':' type`.
pub fn parse_field(tokens: &Vec<Token>, pos: usize) -> (r: Result<(ASTNode, usize), ParseError>)
    requires
        pos <= tokens@.len(),
    ensures
        node_result(r) == spec_field(toks_view(tokens@), pos as int),
        match r {
            Result::Ok((_, next)) => pos < next <= tokens@.len(),
            Result::Err(_) => true,
        },
{
    if pos >= tokens.len() {
        return Result::Err(ParseError::IncompleteInput);
    }
    match &tokens[pos] {
        Token::Symbol(name) => {
            if pos + 1 >= tokens.len() {
                return Result::Err(ParseError::IncompleteInput);
            }
            match &tokens[pos + 1] {
                Token::Colon => {
                    if pos + 2 >= tokens.len() {
                        return Result::Err(ParseError::IncompleteInput);
                    }
                    match &tokens[pos + 2] {
                        Token::Symbol(ty) => Result::Ok(
                            (ASTNode::new_field(name.clone(), ty.clone()), pos + 3),
                        ),
                        _ => Result::Err(ParseError::MissingType),
                    }
                },
                _ => Result::Err(ParseError::MissingDelimiter(':')),
            }
        },
        _ => Result::Err(ParseError::MissingName),
    }
}

/// Parses one formal parameter of a group: `name ':' type`.
pub fn parse_parameter(tokens: &Vec<Token>, pos: usize) -> (r: Result<
    (ASTNode, usize),
    ParseError,
>)
    requires
        pos <= tokens@.len(),
    ensures
        node_result(r) == spec_parameter(toks_view(tokens@), pos as int),
        match r {
            Result::Ok((_, next)) => pos < next <= tokens@.len(),
            Result::Err(_) => true,
        },
{
    if pos >= tokens.len() {
        return Result::Err(ParseError::IncompleteInput);
    }
    match &tokens[pos] {
        Token::Symbol(name) => {
            if pos + 1 >= tokens.len() {
                return Result::Err(ParseError::IncompleteInput);
            }
            match &tokens[pos + 1] {
                Token::Colon => {
                    if pos + 2 >= tokens.len() {
                        return Result::Err(ParseError::IncompleteInput);
                    }
                    match &tokens[pos + 2] {
                        Token::Symbol(ty) => Result::Ok(
                            (ASTNode::new_parameter(name.clone(), ty.clone()), pos + 3),
                        ),
                        _ => Result::Err(ParseError::MissingType),
                    }
                },
                _ => Result::Err(ParseError::MissingDelimiter(':')),
            }
        },
        _ => Result::Err(ParseError::MissingName),
    }
}

/// Parses one assigned member inside a data instantiation:
/// `name '=' value`.
pub fn parse_field_value(tokens: &Vec<Token>, pos: usize) -> (r: Result<
    (ASTNode, usize),
    ParseError,
>)
    requires
        pos <= tokens@.len(),
    ensures
        node_result(r) == spec_field_value(toks_view(tokens@), pos as int),
        match r {
            Result::Ok((_, next)) => pos < next <= tokens@.len(),
            Result::Err(_) => true,
        },
{
    if pos >= tokens.len() {
        return Result::Err(ParseError::IncompleteInput);
    }
    match &tokens[pos] {
        Token::Symbol(name) => {
            if pos + 1 >= tokens.len() {
                return Result::Err(ParseError::IncompleteInput);
            }
            match &tokens[pos + 1] {
                Token::Equal => {
                    if pos + 2 >= tokens.len() {
                        return Result::Err(ParseError::IncompleteInput);
                    }
                    match &tokens[pos + 2] {
                        Token::Symbol(value) => Result::Ok(
                            (ASTNode::new_field_value(name.clone(), value.clone()), pos + 3),
                        ),
                        _ => Result::Err(ParseError::MissingName),
                    }
                },
                _ => Result::Err(ParseError::MissingDelimiter('=')),
            }
        },
        _ => Result::Err(ParseError::MissingName),
    }
}

/// Parses the comma-tolerant field list of a data body, up to and
/// including the closing brace.
fn parse_fields(tokens: &Vec<Token>, pos: usize) -> (r: Result<(Vec<ASTNode>, usize), ParseError>)
    requires
        pos <= tokens@.len(),
    ensures
        nodes_result(r) == spec_fields(toks_view(tokens@), pos as int),
        match r {
            Result::Ok((_, next)) => pos < next <= tokens@.len(),
            Result::Err(_) => true,
        },
    decreases tokens@.len() - pos,
{
    if pos >= tokens.len() {
        return Result::Err(ParseError::IncompleteInput);
    }
    match &tokens[pos] {
        Token::RBrace => {
            proof {
                lemma_nodes_view_empty();
            }
            Result::Ok((Vec::new(), pos + 1))
        },
        Token::Comma => parse_fields(tokens, pos + 1),
        _ => match parse_field(tokens, pos) {
            Result::Err(e) => Result::Err(e),
            Result::Ok((f, n)) => match parse_fields(tokens, n) {
                Result::Err(e) => Result::Err(e),
                Result::Ok((mut rest, after)) => {
                    proof {
                        lemma_nodes_view_insert0(rest@, f);
                    }
                    rest.insert(0, f);
                    Result::Ok((rest, after))
                },
            },
        },
    }
}

/// Parses the comma-tolerant parameter list of a group header, up to and
/// including the closing parenthesis.
fn parse_parameters(tokens: &Vec<Token>, pos: usize) -> (r: Result<
    (Vec<ASTNode>, usize),
    ParseError,
>)
    requires
        pos <= tokens@.len(),
    ensures
        nodes_result(r) == spec_parameters(toks_view(tokens@), pos as int),
        match r {
            Result::Ok((_, next)) => pos < next <= tokens@.len(),
            Result::Err(_) => true,
        },
    decreases tokens@.len() - pos,
{
    if pos >= tokens.len() {
        return Result::Err(ParseError::IncompleteInput);
    }
    match &tokens[pos] {
        Token::RParenthesis => {
            proof {
                lemma_nodes_view_empty();
            }
            Result::Ok((Vec::new(), pos + 1))
        },
        Token::Comma => parse_parameters(tokens, pos + 1),
        _ => match parse_parameter(tokens, pos) {
            Result::Err(e) => Result::Err(e),
            Result::Ok((p, n)) => match parse_parameters(tokens, n) {
                Result::Err(e) => Result::Err(e),
                Result::Ok((mut rest, after)) => {
                    proof {
                        lemma_nodes_view_insert0(rest@, p);
                    }
                    rest.insert(0, p);
                    Result::Ok((rest, after))
                },
            },
        },
    }
}

/// Parses the comma-tolerant assigned-member list of a data
/// instantiation, up to and including the closing parenthesis.
fn parse_field_values(tokens: &Vec<Token>, pos: usize) -> (r: Result<
    (Vec<ASTNode>, usize),
    ParseError,
>)
    requires
        pos <= tokens@.len(),
    ensures
        nodes_result(r) == spec_field_values(toks_view(tokens@), pos as int),
        match r {
            Result::Ok((_, next)) => pos < next <= tokens@.len(),
            Result::Err(_) => true,
        },
    decreases tokens@.len() - pos,
{
    if pos >= tokens.len() {
        return Result::Err(ParseError::IncompleteInput);
    }
    match &tokens[pos] {
        Token::RParenthesis => {
            proof {
                lemma_nodes_view_empty();
            }
            Result::Ok((Vec::new(), pos + 1))
        },
        Token::Comma => parse_field_values(tokens, pos + 1),
        _ => match parse_field_value(tokens, pos) {
            Result::Err(e) => Result::Err(e),
            Result::Ok((v, n)) => match parse_field_values(tokens, n) {
                Result::Err(e) => Result::Err(e),
                Result::Ok((mut rest, after)) => {
                    proof {
                        lemma_nodes_view_insert0(rest@, v);
                    }
                    rest.insert(0, v);
                    Result::Ok((rest, after))
                },
            },
        },
    }
}

/// Parses one concrete instance of a record type inside a group body:
/// `name '(' assigned members ')'`.
pub fn parse_data_instanciation(tokens: &Vec<Token>, pos: usize) -> (r: Result<
    (ASTNode, usize),
    ParseError,
>)
    requires
        pos <= tokens@.len(),
    ensures
        node_result(r) == spec_data_instanciation(toks_view(tokens@), pos as int),
        match r {
            Result::Ok((_, next)) => pos < next <= tokens@.len(),
            Result::Err(_) => true,
        },
{
    if pos >= tokens.len() {
        return Result::Err(ParseError::IncompleteInput);
    }
    match &tokens[pos] {
        Token::Symbol(name) => {
            if pos + 1 >= tokens.len() {
                return Result::Err(ParseError::IncompleteInput);
            }
            match &tokens[pos + 1] {
                Token::LParenthesis => match parse_field_values(tokens, pos + 2) {
                    Result::Err(e) => Result::Err(e),
                    Result::Ok((values, n)) => Result::Ok(
                        (ASTNode::new_data_instanciation(name.clone(), values), n),
                    ),
                },
                _ => Result::Err(ParseError::MissingDelimiter('(')),
            }
        },
        _ => Result::Err(ParseError::MissingName),
    }
}

/// Parses the comma-tolerant instantiation list of a group body, up to
/// and including the closing brace.
fn parse_data_instanciations(tokens: &Vec<Token>, pos: usize) -> (r: Result<
    (Vec<ASTNode>, usize),
    ParseError,
>)
    requires
        pos <= tokens@.len(),
    ensures
        nodes_result(r) == spec_data_instanciations(toks_view(tokens@), pos as int),
        match r {
            Result::Ok((_, next)) => pos < next <= tokens@.len(),
            Result::Err(_) => true,
        },
    decreases tokens@.len() - pos,
{
    if pos >= tokens.len() {
        return Result::Err(ParseError::IncompleteInput);
    }
    match &tokens[pos] {
        Token::RBrace => {
            proof {
                lemma_nodes_view_empty();
            }
            Result::Ok((Vec::new(), pos + 1))
        },
        Token::Comma => parse_data_instanciations(tokens, pos + 1),
        _ => match parse_data_instanciation(tokens, pos) {
            Result::Err(e) => Result::Err(e),
            Result::Ok((inst, n)) => match parse_data_instanciations(tokens, n) {
                Result::Err(e) => Result::Err(e),
                Result::Ok((mut rest, after)) => {
                    proof {
                        lemma_nodes_view_insert0(rest@, inst);
                    }
                    rest.insert(0, inst);
                    Result::Ok((rest, after))
                },
            },
        },
    }
}

/// Parses the action names of a run header, up to and including the
/// closing parenthesis; non-symbol tokens are silently skipped.
fn parse_run_actions(tokens: &Vec<Token>, pos: usize) -> (r: Result<
    (Vec<String>, usize),
    ParseError,
>)
    requires
        pos <= tokens@.len(),
    ensures
        names_result(r) == spec_run_actions(toks_view(tokens@), pos as int),
        match r {
            Result::Ok((_, next)) => pos < next <= tokens@.len(),
            Result::Err(_) => true,
        },
    decreases tokens@.len() - pos,
{
    if pos >= tokens.len() {
        return Result::Err(ParseError::IncompleteInput);
    }
    match &tokens[pos] {
        Token::RParenthesis => {
            proof {
                lemma_strings_view_empty();
            }
            Result::Ok((Vec::new(), pos + 1))
        },
        Token::Symbol(s) => {
            let action = s.clone();
            match parse_run_actions(tokens, pos + 1) {
                Result::Err(e) => Result::Err(e),
                Result::Ok((mut rest, after)) => {
                    proof {
                        lemma_strings_view_insert0(rest@, action);
                    }
                    rest.insert(0, action);
                    Result::Ok((rest, after))
                },
            }
        },
        _ => parse_run_actions(tokens, pos + 1),
    }
}

/// Parses the bound names of a foreach header, up to and including the
/// `in` keyword; commas are skipped as separators.
fn parse_foreach_names(tokens: &Vec<Token>, pos: usize) -> (r: Result<
    (Vec<String>, usize),
    ParseError,
>)
    requires
        pos <= tokens@.len(),
    ensures
        names_result(r) == spec_foreach_names(toks_view(tokens@), pos as int),
        match r {
            Result::Ok((_, next)) => pos < next <= tokens@.len(),
            Result::Err(_) => true,
        },
    decreases tokens@.len() - pos,
{
    if pos >= tokens.len() {
        return Result::Err(ParseError::IncompleteInput);
    }
    match &tokens[pos] {
        Token::In => {
            proof {
                lemma_strings_view_empty();
            }
            Result::Ok((Vec::new(), pos + 1))
        },
        Token::Comma => parse_foreach_names(tokens, pos + 1),
        Token::Symbol(s) => {
            let name = s.clone();
            match parse_foreach_names(tokens, pos + 1) {
                Result::Err(e) => Result::Err(e),
                Result::Ok((mut rest, after)) => {
                    proof {
                        lemma_strings_view_insert0(rest@, name);
                    }
                    rest.insert(0, name);
                    Result::Ok((rest, after))
                },
            }
        },
        _ => Result::Err(ParseError::MissingName),
    }
}

/// Parses the collection expressions of a foreach header, up to and
/// including the opening brace of the body; commas are skipped, and a
/// token that can begin no expression is rejected at once.
fn parse_foreach_collections(tokens: &Vec<Token>, pos: usize) -> (r: Result<
    (Vec<ASTNode>, usize),
    ParseError,
>)
    requires
        pos <= tokens@.len(),
    ensures
        nodes_result(r) == spec_foreach_collections(toks_view(tokens@), pos as int),
        match r {
            Result::Ok((_, next)) => pos < next <= tokens@.len(),
            Result::Err(_) => true,
        },
    decreases tokens@.len() - pos,
{
    if pos >= tokens.len() {
        return Result::Err(ParseError::IncompleteInput);
    }
    match &tokens[pos] {
        Token::LBrace => {
            proof {
                lemma_nodes_view_empty();
            }
            Result::Ok((Vec::new(), pos + 1))
        },
        Token::Comma => parse_foreach_collections(tokens, pos + 1),
        Token::Symbol(_) | Token::Dot => {
            let (e, n) = parse_expression(tokens, pos);
            match parse_foreach_collections(tokens, n) {
                Result::Err(err) => Result::Err(err),
                Result::Ok((mut rest, after)) => {
                    proof {
                        lemma_nodes_view_insert0(rest@, e);
                    }
                    rest.insert(0, e);
                    Result::Ok((rest, after))
                },
            }
        },
        other => Result::Err(ParseError::UnexpectedToken(other.get_value())),
    }
}

/// Parses the progression clause of a counted loop header: a stub that
/// consumes one token, if any remains, and yields an empty placeholder
/// expression, whatever that token was.
pub fn parse_statement(tokens: &Vec<Token>, pos: usize) -> (r: (ASTNode, usize))
    requires
        pos <= tokens@.len(),
    ensures
        (r.0@, r.1 as int) == spec_statement(toks_view(tokens@), pos as int),
        pos <= r.1 <= tokens@.len(),
{
    let next = if pos < tokens.len() {
        pos + 1
    } else {
        pos
    };
    (ASTNode::new_expression(ASTNode::new_value(String::new())), next)
}

/// Parses a variable binding: an optional `let`, a name, `=`, and a
/// value expression.
pub fn parse_declaration(tokens: &Vec<Token>, pos: usize) -> (r: Result<
    (ASTNode, usize),
    ParseError,
>)
    requires
        pos <= tokens@.len(),
    ensures
        node_result(r) == spec_declaration(toks_view(tokens@), pos as int),
        match r {
            Result::Ok((_, next)) => pos < next <= tokens@.len(),
            Result::Err(_) => true,
        },
{
    let mut p = pos;
    if p < tokens.len() {
        match &tokens[p] {
            Token::Let => {
                p = p + 1;
            },
            _ => {},
        }
    }
    if p >= tokens.len() {
        return Result::Err(ParseError::IncompleteInput);
    }
    match &tokens[p] {
        Token::Symbol(name) => {
            if p + 1 >= tokens.len() {
                return Result::Err(ParseError::IncompleteInput);
            }
            match &tokens[p + 1] {
                Token::Equal => {
                    let (v, n) = parse_expression(tokens, p + 2);
                    Result::Ok((ASTNode::new_declaration(name.clone(), v), n))
                },
                _ => Result::Err(ParseError::MissingDelimiter('=')),
            }
        },
        _ => Result::Err(ParseError::MissingName),
    }
}

/// Parses the argument values of a create instruction, up to and
/// including the closing parenthesis; non-symbol tokens are silently
/// skipped.
fn parse_create_args(tokens: &Vec<Token>, pos: usize) -> (r: Result<
    (Vec<ASTNode>, usize),
    ParseError,
>)
    requires
        pos <= tokens@.len(),
    ensures
        nodes_result(r) == spec_create_args(toks_view(tokens@), pos as int),
        match r {
            Result::Ok((_, next)) => pos < next <= tokens@.len(),
            Result::Err(_) => true,
        },
    decreases tokens@.len() - pos,
{
    if pos >= tokens.len() {
        return Result::Err(ParseError::IncompleteInput);
    }
    match &tokens[pos] {
        Token::RParenthesis => {
            proof {
                lemma_nodes_view_empty();
            }
            Result::Ok((Vec::new(), pos + 1))
        },
        Token::Symbol(_) => {
            let (v, n) = parse_value(tokens, pos);
            match parse_create_args(tokens, n) {
                Result::Err(e) => Result::Err(e),
                Result::Ok((mut rest, after)) => {
                    proof {
                        lemma_nodes_view_insert0(rest@, v);
                    }
                    rest.insert(0, v);
                    Result::Ok((rest, after))
                },
            }
        },
        _ => parse_create_args(tokens, pos + 1),
    }
}

/// Parses a create instruction after its keyword: the name of the group
/// to instantiate and its parenthesised argument values.
pub fn parse_create_instruction(tokens: &Vec<Token>, pos: usize) -> (r: Result<
    (ASTNode, usize),
    ParseError,
>)
    requires
        pos <= tokens@.len(),
    ensures
        node_result(r) == spec_create(toks_view(tokens@), pos as int),
        match r {
            Result::Ok((_, next)) => pos < next <= tokens@.len(),
            Result::Err(_) => true,
        },
{
    if pos >= tokens.len() {
        return Result::Err(ParseError::IncompleteInput);
    }
    match &tokens[pos] {
        Token::Symbol(name) => {
            if pos + 1 >= tokens.len() {
                return Result::Err(ParseError::IncompleteInput);
            }
            match &tokens[pos + 1] {
                Token::LParenthesis => match parse_create_args(tokens, pos + 2) {
                    Result::Err(e) => Result::Err(e),
                    Result::Ok((args, n)) => Result::Ok(
                        (ASTNode::new_create_instruction(name.clone(), args), n),
                    ),
                },
                _ => Result::Err(ParseError::MissingDelimiter('(')),
            }
        },
        _ => Result::Err(ParseError::MissingName),
    }
}

/// Parses one instruction, selected by one token of lookahead against
/// the instruction keywords; the matched keyword is consumed here.
pub fn parse_instruction(tokens: &Vec<Token>, pos: usize) -> (r: Result<
    (ASTNode, usize),
    ParseError,
>)
    requires
        pos <= tokens@.len(),
    ensures
        node_result(r) == spec_instruction(toks_view(tokens@), pos as int),
        match r {
            Result::Ok((_, next)) => pos < next <= tokens@.len(),
            Result::Err(_) => true,
        },
    decreases tokens@.len() - pos, 0int,
{
    if pos >= tokens.len() {
        return Result::Err(ParseError::IncompleteInput);
    }
    match &tokens[pos] {
        Token::CreateInstructionKeyword => parse_create_instruction(tokens, pos + 1),
        Token::If => parse_if(tokens, pos + 1),
        Token::Foreach => parse_foreach(tokens, pos + 1),
        Token::For => parse_for(tokens, pos + 1),
        Token::Let => parse_declaration(tokens, pos),
        _ => Result::Err(ParseError::ExpectedInstruction),
    }
}

/// Parses the instructions of a block body, up to and including the
/// closing brace; instructions carry their own terminators.
fn parse_instructions(tokens: &Vec<Token>, pos: usize) -> (r: Result<
    (Vec<ASTNode>, usize),
    ParseError,
>)
    requires
        pos <= tokens@.len(),
    ensures
        nodes_result(r) == spec_instructions(toks_view(tokens@), pos as int),
        match r {
            Result::Ok((_, next)) => pos < next <= tokens@.len(),
            Result::Err(_) => true,
        },
    decreases tokens@.len() - pos, 1int,
{
    if pos >= tokens.len() {
        return Result::Err(ParseError::IncompleteInput);
    }
    match &tokens[pos] {
        Token::RBrace => {
            proof {
                lemma_nodes_view_empty();
            }
            Result::Ok((Vec::new(), pos + 1))
        },
        _ => match parse_instruction(tokens, pos) {
            Result::Err(e) => Result::Err(e),
            Result::Ok((inst, n)) => match parse_instructions(tokens, n) {
                Result::Err(e) => Result::Err(e),
                Result::Ok((mut rest, after)) => {
                    proof {
                        lemma_nodes_view_insert0(rest@, inst);
                    }
                    rest.insert(0, inst);
                    Result::Ok((rest, after))
                },
            },
        },
    }
}

/// Parses a conditional after its keyword: a condition expression and a
/// braced body; there is no else branch.
pub fn parse_if(tokens: &Vec<Token>, pos: usize) -> (r: Result<(ASTNode, usize), ParseError>)
    requires
        pos <= tokens@.len(),
    ensures
        node_result(r) == spec_if(toks_view(tokens@), pos as int),
        match r {
            Result::Ok((_, next)) => pos < next <= tokens@.len(),
            Result::Err(_) => true,
        },
    decreases tokens@.len() - pos, 0int,
{
    let (cond, n1) = parse_expression(tokens, pos);
    if n1 >= tokens.len() {
        return Result::Err(ParseError::IncompleteInput);
    }
    match &tokens[n1] {
        Token::LBrace => match parse_instructions(tokens, n1 + 1) {
            Result::Err(e) => Result::Err(e),
            Result::Ok((ins, n2)) => Result::Ok((ASTNode::new_if(cond, ins), n2)),
        },
        _ => Result::Err(ParseError::MissingDelimiter('{')),
    }
}

/// Parses a lock-step iteration after its keyword: bound names, the `in`
/// keyword, collection expressions, and a braced body.
pub fn parse_foreach(tokens: &Vec<Token>, pos: usize) -> (r: Result<(ASTNode, usize), ParseError>)
    requires
        pos <= tokens@.len(),
    ensures
        node_result(r) == spec_foreach(toks_view(tokens@), pos as int),
        match r {
            Result::Ok((_, next)) => pos < next <= tokens@.len(),
            Result::Err(_) => true,
        },
    decreases tokens@.len() - pos, 0int,
{
    if pos >= tokens.len() {
        return Result::Err(ParseError::IncompleteInput);
    }
    match &tokens[pos] {
        Token::Symbol(_) => match parse_foreach_names(tokens, pos) {
            Result::Err(e) => Result::Err(e),
            Result::Ok((names, n1)) => match parse_foreach_collections(tokens, n1) {
                Result::Err(e) => Result::Err(e),
                Result::Ok((colls, n2)) => match parse_instructions(tokens, n2) {
                    Result::Err(e) => Result::Err(e),
                    Result::Ok((ins, n3)) => Result::Ok(
                        (ASTNode::new_foreach(names, colls, ins), n3),
                    ),
                },
            },
        },
        other => Result::Err(ParseError::UnexpectedToken(other.get_value())),
    }
}

/// Parses a counted loop after its keyword: a binding, a condition and a
/// progression clause separated by semicolons, then a braced body.
pub fn parse_for(tokens: &Vec<Token>, pos: usize) -> (r: Result<(ASTNode, usize), ParseError>)
    requires
        pos <= tokens@.len(),
    ensures
        node_result(r) == spec_for(toks_view(tokens@), pos as int),
        match r {
            Result::Ok((_, next)) => pos < next <= tokens@.len(),
            Result::Err(_) => true,
        },
    decreases tokens@.len() - pos, 0int,
{
    if pos >= tokens.len() {
        return Result::Err(ParseError::IncompleteInput);
    }
    match parse_declaration(tokens, pos) {
        Result::Err(e) => Result::Err(e),
        Result::Ok((decl, n1)) => {
            if n1 >= tokens.len() {
                return Result::Err(ParseError::IncompleteInput);
            }
            match &tokens[n1] {
                Token::Semicolon => {
                    let (cond, n2) = parse_expression(tokens, n1 + 1);
                    if n2 >= tokens.len() {
                        return Result::Err(ParseError::IncompleteInput);
                    }
                    match &tokens[n2] {
                        Token::Semicolon => {
                            let (prog, n3) = parse_statement(tokens, n2 + 1);
                            if n3 >= tokens.len() {
                                return Result::Err(ParseError::IncompleteInput);
                            }
                            match &tokens[n3] {
                                Token::LBrace => match parse_instructions(tokens, n3 + 1) {
                                    Result::Err(e) => Result::Err(e),
                                    Result::Ok((ins, n4)) => Result::Ok(
                                        (ASTNode::new_for(decl, cond, prog, ins), n4),
                                    ),
                                },
                                _ => Result::Err(ParseError::MissingDelimiter('{')),
                            }
                        },
                        _ => Result::Err(ParseError::MissingDelimiter(';')),
                    }
                },
                _ => Result::Err(ParseError::MissingDelimiter(';')),
            }
        },
    }
}

/// Parses a named procedure after its keyword: a name and a braced body
/// of instructions.
pub fn parse_do(tokens: &Vec<Token>, pos: usize) -> (r: Result<(ASTNode, usize), ParseError>)
    requires
        pos <= tokens@.len(),
    ensures
        node_result(r) == spec_do(toks_view(tokens@), pos as int),
        match r {
            Result::Ok((_, next)) => pos < next <= tokens@.len(),
            Result::Err(_) => true,
        },
{
    if pos >= tokens.len() {
        return Result::Err(ParseError::IncompleteInput);
    }
    match &tokens[pos] {
        Token::Symbol(name) => {
            if pos + 1 >= tokens.len() {
                return Result::Err(ParseError::IncompleteInput);
            }
            match &tokens[pos + 1] {
                Token::LBrace => match parse_instructions(tokens, pos + 2) {
                    Result::Err(e) => Result::Err(e),
                    Result::Ok((ins, n)) => Result::Ok((ASTNode::new_do(name.clone(), ins), n)),
                },
                _ => Result::Err(ParseError::MissingDelimiter('{')),
            }
        },
        _ => Result::Err(ParseError::MissingName),
    }
}

/// Parses an action-triggered procedure after its keyword: a
/// parenthesised list of action names and a braced body of instructions.
pub fn parse_run(tokens: &Vec<Token>, pos: usize) -> (r: Result<(ASTNode, usize), ParseError>)
    requires
        pos <= tokens@.len(),
    ensures
        node_result(r) == spec_run(toks_view(tokens@), pos as int),
        match r {
            Result::Ok((_, next)) => pos < next <= tokens@.len(),
            Result::Err(_) => true,
        },
{
    if pos >= tokens.len() {
        return Result::Err(ParseError::IncompleteInput);
    }
    match &tokens[pos] {
        Token::LParenthesis => match parse_run_actions(tokens, pos + 1) {
            Result::Err(e) => Result::Err(e),
            Result::Ok((actions, n1)) => {
                if n1 >= tokens.len() {
                    return Result::Err(ParseError::IncompleteInput);
                }
                match &tokens[n1] {
                    Token::LBrace => match parse_instructions(tokens, n1 + 1) {
                        Result::Err(e) => Result::Err(e),
                        Result::Ok((ins, n2)) => Result::Ok((ASTNode::new_run(actions, ins), n2)),
                    },
                    _ => Result::Err(ParseError::MissingDelimiter('{')),
                }
            },
        },
        _ => Result::Err(ParseError::MissingDelimiter('(')),
    }
}

/// Parses a record-type declaration after its keyword: a name and a
/// braced, comma-tolerant field list.
pub fn parse_data(tokens: &Vec<Token>, pos: usize) -> (r: Result<(ASTNode, usize), ParseError>)
    requires
        pos <= tokens@.len(),
    ensures
        node_result(r) == spec_data(toks_view(tokens@), pos as int),
        match r {
            Result::Ok((_, next)) => pos < next <= tokens@.len(),
            Result::Err(_) => true,
        },
{
    if pos >= tokens.len() {
        return Result::Err(ParseError::IncompleteInput);
    }
    match &tokens[pos] {
        Token::Symbol(name) => {
            if pos + 1 >= tokens.len() {
                return Result::Err(ParseError::IncompleteInput);
            }
            match &tokens[pos + 1] {
                Token::LBrace => match parse_fields(tokens, pos + 2) {
                    Result::Err(e) => Result::Err(e),
                    Result::Ok((fields, n)) => Result::Ok(
                        (ASTNode::new_data(name.clone(), fields), n),
                    ),
                },
                _ => Result::Err(ParseError::MissingDelimiter('{')),
            }
        },
        _ => Result::Err(ParseError::MissingName),
    }
}

/// Parses a parameterized template after its keyword: a name, a
/// parenthesised parameter list, and a braced body of instantiations.
pub fn parse_group(tokens: &Vec<Token>, pos: usize) -> (r: Result<(ASTNode, usize), ParseError>)
    requires
        pos <= tokens@.len(),
    ensures
        node_result(r) == spec_group(toks_view(tokens@), pos as int),
        match r {
            Result::Ok((_, next)) => pos < next <= tokens@.len(),
            Result::Err(_) => true,
        },
{
    if pos >= tokens.len() {
        return Result::Err(ParseError::IncompleteInput);
    }
    match &tokens[pos] {
        Token::Symbol(name) => {
            if pos + 1 >= tokens.len() {
                return Result::Err(ParseError::IncompleteInput);
            }
            match &tokens[pos + 1] {
                Token::LParenthesis => match parse_parameters(tokens, pos + 2) {
                    Result::Err(e) => Result::Err(e),
                    Result::Ok((params, n1)) => {
                        if n1 >= tokens.len() {
                            return Result::Err(ParseError::IncompleteInput);
                        }
                        match &tokens[n1] {
                            Token::LBrace => match parse_data_instanciations(tokens, n1 + 1) {
                                Result::Err(e) => Result::Err(e),
                                Result::Ok((insts, n2)) => Result::Ok(
                                    (ASTNode::new_group(name.clone(), params, insts), n2),
                                ),
                            },
                            _ => Result::Err(ParseError::MissingDelimiter('{')),
                        }
                    },
                },
                _ => Result::Err(ParseError::MissingDelimiter('(')),
            }
        },
        _ => Result::Err(ParseError::MissingName),
    }
}

/// Parses one top-level block: consumes the keyword that opens it and
/// dispatches to the matching block parser; any other token is a
/// violation reported with its text.
pub fn parse_primitive_bloc(tokens: &Vec<Token>, pos: usize) -> (r: Result<
    (ASTNode, usize),
    ParseError,
>)
    requires
        pos <= tokens@.len(),
    ensures
        node_result(r) == spec_block(toks_view(tokens@), pos as int),
        match r {
            Result::Ok((_, next)) => pos < next <= tokens@.len(),
            Result::Err(_) => true,
        },
{
    if pos >= tokens.len() {
        return Result::Err(ParseError::IncompleteInput);
    }
    match &tokens[pos] {
        Token::Data => parse_data(tokens, pos + 1),
        Token::Group => parse_group(tokens, pos + 1),
        Token::Do => parse_do(tokens, pos + 1),
        Token::Run => parse_run(tokens, pos + 1),
        other => Result::Err(ParseError::UnexpectedToken(other.get_value())),
    }
}

/// Parses every remaining top-level block, in source order, until the
/// token sequence is exhausted.
fn parse_blocks(tokens: &Vec<Token>, pos: usize) -> (r: Result<(Vec<ASTNode>, usize), ParseError>)
    requires
        pos <= tokens@.len(),
    ensures
        nodes_result(r) == spec_blocks(toks_view(tokens@), pos as int),
        match r {
            Result::Ok((_, next)) => next == tokens@.len(),
            Result::Err(_) => true,
        },
    decreases tokens@.len() - pos,
{
    if pos >= tokens.len() {
        proof {
            lemma_nodes_view_empty();
        }
        return Result::Ok((Vec::new(), pos));
    }
    match parse_primitive_bloc(tokens, pos) {
        Result::Err(e) => Result::Err(e),
        Result::Ok((block, n)) => match parse_blocks(tokens, n) {
            Result::Err(e) => Result::Err(e),
            Result::Ok((mut rest, after)) => {
                proof {
                    lemma_nodes_view_insert0(rest@, block);
                }
                rest.insert(0, block);
                Result::Ok((rest, after))
            },
        },
    }
}

/// Parses a whole compilation unit: one program node holding every
/// top-level block in source order, or the first violation found. An
/// empty token sequence is an empty program, not a violation.
pub fn parse_program(tokens: &Vec<Token>) -> (r: Result<ASTNode, ParseError>)
    ensures
        match r {
            Result::Ok(program) => spec_parse(toks_view(tokens@)) == (Parsed::Done {
                node: program@,
                next: tokens@.len() as int,
            }),
            Result::Err(e) => spec_parse(toks_view(tokens@)) == Parsed::<Ast>::Fail(e@),
        },
{
    match parse_blocks(tokens, 0) {
        Result::Err(e) => Result::Err(e),
        Result::Ok((blocks, _)) => Result::Ok(ASTNode::new_program(blocks)),
    }
}

/// Parses a token sequence into its syntax tree. The single entry point:
/// it owns the whole pipeline from the lexer's tokens to the finished
/// program node handed to the caller.
pub fn parse_ast(tokens: Vec<Token>) -> (r: Result<ASTNode, ParseError>)
    ensures
        match r {
            Result::Ok(program) => spec_parse(toks_view(tokens@)) == (Parsed::Done {
                node: program@,
                next: tokens@.len() as int,
            }),
            Result::Err(e) => spec_parse(toks_view(tokens@)) == Parsed::<Ast>::Fail(e@),
        },
{
    parse_program(&tokens)
}

/// Parsing is deterministic: the outcome is a function of the token
/// sequence alone, no state persists between invocations, so parsing the
/// same token sequence twice yields structurally identical results.
pub proof fn lemma_parse_deterministic(toks: Seq<Tok>, r1: Parsed<Ast>, r2: Parsed<Ast>)
    requires
        r1 == spec_parse(toks),
        r2 == spec_parse(toks),
    ensures
        r1 == r2,
{
}

} // verus!
