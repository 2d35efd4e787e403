use vstd::prelude::*;
use crate::token::{Tok, token_text};
use crate::error::PErr;
use crate::ast::Ast;

verus! {

// The grammar, written down as total specification functions over the
// sequence of token values. Each function is one non-terminal: given the
// token sequence and the cursor position it yields either the parsed node
// together with the position just past it, or the first violation found.
// The executable parser is proved to return exactly these values.

/// The outcome of parsing one non-terminal at a given cursor position.
pub enum Parsed<T> {
    /// The non-terminal was recognised; `next` is the first position not
    /// consumed by it.
    Done { node: T, next: int },
    /// The first grammar violation found.
    Fail(PErr),
}

/// One token of lookahead: the token at `pos`, or nothing at or past the
/// end of the input.
pub open spec fn peek(toks: Seq<Tok>, pos: int) -> Option<Tok> {
    if 0 <= pos < toks.len() {
        Option::Some(toks[pos])
    } else {
        Option::None
    }
}

/// The cursor position after a sub-parse that began at `pos` and reported
/// `next`. Every recognised production consumes at least one token and
/// never moves past the end of the input; `step` carries those two facts
/// into the termination measure of the recursive non-terminals.
pub open spec fn step(len: int, pos: int, next: int) -> int {
    if pos < next <= len {
        next
    } else {
        pos + 1
    }
}

/// An atomic operand: a bare symbol, a dotted pair such as `a.b`, or —
/// kept literally, without validation — a partial form such as `a.` when
/// no symbol follows the dot. Consumes no token, and yields the empty
/// value text, when neither a symbol nor a dot stands at `pos`.
pub open spec fn spec_value(toks: Seq<Tok>, pos: int) -> (Ast, int) {
    let (first, p1) = match peek(toks, pos) {
        Option::Some(Tok::Symbol(s)) => (s, pos + 1),
        _ => (Seq::<char>::empty(), pos),
    };
    if peek(toks, p1) == Option::Some(Tok::Dot) {
        match peek(toks, p1 + 1) {
            Option::Some(Tok::Symbol(s2)) => (Ast::Value(first + "."@ + s2), p1 + 2),
            _ => (Ast::Value(first + "."@), p1 + 1),
        }
    } else {
        (Ast::Value(first), p1)
    }
}

/// The left-associative tail of a multiplicative chain: as long as a `*`,
/// `/` or `%` follows, folds the next operand into `lhs` from the left.
pub open spec fn spec_mul_div_rest(toks: Seq<Tok>, pos: int, lhs: Ast) -> (Ast, int)
    decreases toks.len() - pos,
{
    match peek(toks, pos) {
        Option::Some(Tok::MulSign) => {
            let (rhs, n) = spec_value(toks, pos + 1);
            spec_mul_div_rest(
                toks,
                step(toks.len() as int, pos, n),
                Ast::Multiplication(Box::new(lhs), Box::new(rhs)),
            )
        },
        Option::Some(Tok::DivSign) => {
            let (rhs, n) = spec_value(toks, pos + 1);
            spec_mul_div_rest(
                toks,
                step(toks.len() as int, pos, n),
                Ast::Division(Box::new(lhs), Box::new(rhs)),
            )
        },
        Option::Some(Tok::ModSign) => {
            let (rhs, n) = spec_value(toks, pos + 1);
            spec_mul_div_rest(
                toks,
                step(toks.len() as int, pos, n),
                Ast::Modulo(Box::new(lhs), Box::new(rhs)),
            )
        },
        _ => (lhs, pos),
    }
}

/// The multiplicative precedence tier: a value followed by any number of
/// `*`, `/` or `%` operators, grouped from the left.
pub open spec fn spec_mul_div(toks: Seq<Tok>, pos: int) -> (Ast, int) {
    let (v, p1) = spec_value(toks, pos);
    spec_mul_div_rest(toks, p1, v)
}

/// The left-associative tail of an additive chain: as long as a `+` or
/// `-` follows, folds the next multiplicative operand into `lhs` from the
/// left.
pub open spec fn spec_add_sub_rest(toks: Seq<Tok>, pos: int, lhs: Ast) -> (Ast, int)
    decreases toks.len() - pos,
{
    match peek(toks, pos) {
        Option::Some(Tok::AddSign) => {
            let (rhs, n) = spec_mul_div(toks, pos + 1);
            spec_add_sub_rest(
                toks,
                step(toks.len() as int, pos, n),
                Ast::Sum(Box::new(lhs), Box::new(rhs)),
            )
        },
        Option::Some(Tok::SubSign) => {
            let (rhs, n) = spec_mul_div(toks, pos + 1);
            spec_add_sub_rest(
                toks,
                step(toks.len() as int, pos, n),
                Ast::Substraction(Box::new(lhs), Box::new(rhs)),
            )
        },
        _ => (lhs, pos),
    }
}

/// The additive precedence tier: a multiplicative operand followed by any
/// number of `+` or `-` operators, grouped from the left.
pub open spec fn spec_add_sub(toks: Seq<Tok>, pos: int) -> (Ast, int) {
    let (v, p1) = spec_mul_div(toks, pos);
    spec_add_sub_rest(toks, p1, v)
}

/// A full arithmetic expression: two precedence tiers, both
/// left-associative, with atomic dotted or bare values as operands.
/// Never fails: an operand position holding no symbol or dot yields the
/// empty value and consumes nothing.
pub open spec fn spec_expression(toks: Seq<Tok>, pos: int) -> (Ast, int) {
    spec_add_sub(toks, pos)
}

/// One member of a record-type declaration: `name ':' type`.
pub open spec fn spec_field(toks: Seq<Tok>, pos: int) -> Parsed<Ast> {
    match peek(toks, pos) {
        Option::None => Parsed::Fail(PErr::IncompleteInput),
        Option::Some(Tok::Symbol(name)) => match peek(toks, pos + 1) {
            Option::None => Parsed::Fail(PErr::IncompleteInput),
            Option::Some(Tok::Colon) => match peek(toks, pos + 2) {
                Option::None => Parsed::Fail(PErr::IncompleteInput),
                Option::Some(Tok::Symbol(ty)) => Parsed::Done {
                    node: Ast::Field(name, ty),
                    next: pos + 3,
                },
                Option::Some(_) => Parsed::Fail(PErr::MissingType),
            },
            Option::Some(_) => Parsed::Fail(PErr::MissingDelimiter(':')),
        },
        Option::Some(_) => Parsed::Fail(PErr::MissingName),
    }
}

/// One formal parameter of a group: `name ':' type`.
pub open spec fn spec_parameter(toks: Seq<Tok>, pos: int) -> Parsed<Ast> {
    match peek(toks, pos) {
        Option::None => Parsed::Fail(PErr::IncompleteInput),
        Option::Some(Tok::Symbol(name)) => match peek(toks, pos + 1) {
            Option::None => Parsed::Fail(PErr::IncompleteInput),
            Option::Some(Tok::Colon) => match peek(toks, pos + 2) {
                Option::None => Parsed::Fail(PErr::IncompleteInput),
                Option::Some(Tok::Symbol(ty)) => Parsed::Done {
                    node: Ast::Parameter(name, ty),
                    next: pos + 3,
                },
                Option::Some(_) => Parsed::Fail(PErr::MissingType),
            },
            Option::Some(_) => Parsed::Fail(PErr::MissingDelimiter(':')),
        },
        Option::Some(_) => Parsed::Fail(PErr::MissingName),
    }
}

/// One assigned member inside a data instantiation: `name '=' value`.
pub open spec fn spec_field_value(toks: Seq<Tok>, pos: int) -> Parsed<Ast> {
    match peek(toks, pos) {
        Option::None => Parsed::Fail(PErr::IncompleteInput),
        Option::Some(Tok::Symbol(name)) => match peek(toks, pos + 1) {
            Option::None => Parsed::Fail(PErr::IncompleteInput),
            Option::Some(Tok::Equal) => match peek(toks, pos + 2) {
                Option::None => Parsed::Fail(PErr::IncompleteInput),
                Option::Some(Tok::Symbol(value)) => Parsed::Done {
                    node: Ast::FieldValue(name, value),
                    next: pos + 3,
                },
                Option::Some(_) => Parsed::Fail(PErr::MissingName),
            },
            Option::Some(_) => Parsed::Fail(PErr::MissingDelimiter('=')),
        },
        Option::Some(_) => Parsed::Fail(PErr::MissingName),
    }
}

/// The fields of a data body, up to and including the closing brace.
/// Commas are tolerated, not required: any comma before a field or before
/// the closing brace is skipped as a separator.
pub open spec fn spec_fields(toks: Seq<Tok>, pos: int) -> Parsed<Seq<Ast>>
    decreases toks.len() - pos,
{
    match peek(toks, pos) {
        Option::None => Parsed::Fail(PErr::IncompleteInput),
        Option::Some(Tok::RBrace) => Parsed::Done { node: Seq::empty(), next: pos + 1 },
        Option::Some(Tok::Comma) => spec_fields(toks, pos + 1),
        Option::Some(_) => match spec_field(toks, pos) {
            Parsed::Done { node, next } => match spec_fields(
                toks,
                step(toks.len() as int, pos, next),
            ) {
                Parsed::Done { node: rest, next: after } => Parsed::Done {
                    node: rest.insert(0, node),
                    next: after,
                },
                Parsed::Fail(e) => Parsed::Fail(e),
            },
            Parsed::Fail(e) => Parsed::Fail(e),
        },
    }
}

/// The formal parameters of a group, up to and including the closing
/// parenthesis, with the same comma tolerance as a data body.
pub open spec fn spec_parameters(toks: Seq<Tok>, pos: int) -> Parsed<Seq<Ast>>
    decreases toks.len() - pos,
{
    match peek(toks, pos) {
        Option::None => Parsed::Fail(PErr::IncompleteInput),
        Option::Some(Tok::RParenthesis) => Parsed::Done { node: Seq::empty(), next: pos + 1 },
        Option::Some(Tok::Comma) => spec_parameters(toks, pos + 1),
        Option::Some(_) => match spec_parameter(toks, pos) {
            Parsed::Done { node, next } => match spec_parameters(
                toks,
                step(toks.len() as int, pos, next),
            ) {
                Parsed::Done { node: rest, next: after } => Parsed::Done {
                    node: rest.insert(0, node),
                    next: after,
                },
                Parsed::Fail(e) => Parsed::Fail(e),
            },
            Parsed::Fail(e) => Parsed::Fail(e),
        },
    }
}

/// The assigned members of a data instantiation, up to and including the
/// closing parenthesis, with the same comma tolerance as a data body.
pub open spec fn spec_field_values(toks: Seq<Tok>, pos: int) -> Parsed<Seq<Ast>>
    decreases toks.len() - pos,
{
    match peek(toks, pos) {
        Option::None => Parsed::Fail(PErr::IncompleteInput),
        Option::Some(Tok::RParenthesis) => Parsed::Done { node: Seq::empty(), next: pos + 1 },
        Option::Some(Tok::Comma) => spec_field_values(toks, pos + 1),
        Option::Some(_) => match spec_field_value(toks, pos) {
            Parsed::Done { node, next } => match spec_field_values(
                toks,
                step(toks.len() as int, pos, next),
            ) {
                Parsed::Done { node: rest, next: after } => Parsed::Done {
                    node: rest.insert(0, node),
                    next: after,
                },
                Parsed::Fail(e) => Parsed::Fail(e),
            },
            Parsed::Fail(e) => Parsed::Fail(e),
        },
    }
}

/// One concrete instance of a record type inside a group body:
/// `name '(' assigned members ')'`.
pub open spec fn spec_data_instanciation(toks: Seq<Tok>, pos: int) -> Parsed<Ast> {
    match peek(toks, pos) {
        Option::None => Parsed::Fail(PErr::IncompleteInput),
        Option::Some(Tok::Symbol(name)) => match peek(toks, pos + 1) {
            Option::None => Parsed::Fail(PErr::IncompleteInput),
            Option::Some(Tok::LParenthesis) => match spec_field_values(toks, pos + 2) {
                Parsed::Done { node: values, next } => Parsed::Done {
                    node: Ast::DataInstanciation(name, values),
                    next,
                },
                Parsed::Fail(e) => Parsed::Fail(e),
            },
            Option::Some(_) => Parsed::Fail(PErr::MissingDelimiter('(')),
        },
        Option::Some(_) => Parsed::Fail(PErr::MissingName),
    }
}

/// The instantiations of a group body, up to and including the closing
/// brace, with the same comma tolerance as a data body.
pub open spec fn spec_data_instanciations(toks: Seq<Tok>, pos: int) -> Parsed<Seq<Ast>>
    decreases toks.len() - pos,
{
    match peek(toks, pos) {
        Option::None => Parsed::Fail(PErr::IncompleteInput),
        Option::Some(Tok::RBrace) => Parsed::Done { node: Seq::empty(), next: pos + 1 },
        Option::Some(Tok::Comma) => spec_data_instanciations(toks, pos + 1),
        Option::Some(_) => match spec_data_instanciation(toks, pos) {
            Parsed::Done { node, next } => match spec_data_instanciations(
                toks,
                step(toks.len() as int, pos, next),
            ) {
                Parsed::Done { node: rest, next: after } => Parsed::Done {
                    node: rest.insert(0, node),
                    next: after,
                },
                Parsed::Fail(e) => Parsed::Fail(e),
            },
            Parsed::Fail(e) => Parsed::Fail(e),
        },
    }
}

/// The action names of a run header, up to and including the closing
/// parenthesis. Symbols are collected; any other token is silently
/// skipped, so stray separators of any shape are tolerated.
pub open spec fn spec_run_actions(toks: Seq<Tok>, pos: int) -> Parsed<Seq<Seq<char>>>
    decreases toks.len() - pos,
{
    match peek(toks, pos) {
        Option::None => Parsed::Fail(PErr::IncompleteInput),
        Option::Some(Tok::RParenthesis) => Parsed::Done { node: Seq::empty(), next: pos + 1 },
        Option::Some(Tok::Symbol(s)) => match spec_run_actions(toks, pos + 1) {
            Parsed::Done { node: rest, next: after } => Parsed::Done {
                node: rest.insert(0, s),
                next: after,
            },
            Parsed::Fail(e) => Parsed::Fail(e),
        },
        Option::Some(_) => spec_run_actions(toks, pos + 1),
    }
}

/// The bound names of a foreach header, up to and including the `in`
/// keyword. Commas are skipped as separators; any other non-symbol token
/// is a missing name.
pub open spec fn spec_foreach_names(toks: Seq<Tok>, pos: int) -> Parsed<Seq<Seq<char>>>
    decreases toks.len() - pos,
{
    match peek(toks, pos) {
        Option::None => Parsed::Fail(PErr::IncompleteInput),
        Option::Some(Tok::In) => Parsed::Done { node: Seq::empty(), next: pos + 1 },
        Option::Some(Tok::Comma) => spec_foreach_names(toks, pos + 1),
        Option::Some(Tok::Symbol(s)) => match spec_foreach_names(toks, pos + 1) {
            Parsed::Done { node: rest, next: after } => Parsed::Done {
                node: rest.insert(0, s),
                next: after,
            },
            Parsed::Fail(e) => Parsed::Fail(e),
        },
        Option::Some(_) => Parsed::Fail(PErr::MissingName),
    }
}

/// The collection expressions of a foreach header, up to and including
/// the opening brace of the body. Commas are skipped as separators; a
/// token that can begin no expression is rejected at once.
pub open spec fn spec_foreach_collections(toks: Seq<Tok>, pos: int) -> Parsed<Seq<Ast>>
    decreases toks.len() - pos,
{
    match peek(toks, pos) {
        Option::None => Parsed::Fail(PErr::IncompleteInput),
        Option::Some(Tok::LBrace) => Parsed::Done { node: Seq::empty(), next: pos + 1 },
        Option::Some(Tok::Comma) => spec_foreach_collections(toks, pos + 1),
        Option::Some(Tok::Symbol(_)) | Option::Some(Tok::Dot) => {
            let (e, n) = spec_expression(toks, pos);
            match spec_foreach_collections(toks, step(toks.len() as int, pos, n)) {
                Parsed::Done { node: rest, next: after } => Parsed::Done {
                    node: rest.insert(0, e),
                    next: after,
                },
                Parsed::Fail(err) => Parsed::Fail(err),
            }
        },
        Option::Some(t) => Parsed::Fail(PErr::UnexpectedToken(token_text(t))),
    }
}

/// The progression clause of a counted loop header. The grammar for this
/// clause is deliberately left as a stub: one token is consumed, if any
/// remains, and an empty placeholder expression is yielded, whatever that
/// token was. A full update-statement grammar is not guessed at here.
pub open spec fn spec_statement(toks: Seq<Tok>, pos: int) -> (Ast, int) {
    let next = if 0 <= pos < toks.len() {
        pos + 1
    } else {
        pos
    };
    (Ast::Expression(Box::new(Ast::Value(Seq::empty()))), next)
}

/// A variable binding: an optional `let`, a name, `=`, and a value
/// expression. The leading `let` is optional so the same production can
/// open a counted loop header, where no `let` is written.
pub open spec fn spec_declaration(toks: Seq<Tok>, pos: int) -> Parsed<Ast> {
    let p1 = if peek(toks, pos) == Option::Some(Tok::Let) {
        pos + 1
    } else {
        pos
    };
    match peek(toks, p1) {
        Option::None => Parsed::Fail(PErr::IncompleteInput),
        Option::Some(Tok::Symbol(name)) => match peek(toks, p1 + 1) {
            Option::None => Parsed::Fail(PErr::IncompleteInput),
            Option::Some(Tok::Equal) => {
                let (v, n) = spec_expression(toks, p1 + 2);
                Parsed::Done { node: Ast::Declaration(name, Box::new(v)), next: n }
            },
            Option::Some(_) => Parsed::Fail(PErr::MissingDelimiter('=')),
        },
        Option::Some(_) => Parsed::Fail(PErr::MissingName),
    }
}

/// The argument values of a create instruction, up to and including the
/// closing parenthesis. Symbols open value expressions; any other token
/// is silently skipped, so separators of any shape are tolerated.
pub open spec fn spec_create_args(toks: Seq<Tok>, pos: int) -> Parsed<Seq<Ast>>
    decreases toks.len() - pos,
{
    match peek(toks, pos) {
        Option::None => Parsed::Fail(PErr::IncompleteInput),
        Option::Some(Tok::RParenthesis) => Parsed::Done { node: Seq::empty(), next: pos + 1 },
        Option::Some(Tok::Symbol(_)) => {
            let (v, n) = spec_value(toks, pos);
            match spec_create_args(toks, step(toks.len() as int, pos, n)) {
                Parsed::Done { node: rest, next: after } => Parsed::Done {
                    node: rest.insert(0, v),
                    next: after,
                },
                Parsed::Fail(e) => Parsed::Fail(e),
            }
        },
        Option::Some(_) => spec_create_args(toks, pos + 1),
    }
}

/// A create instruction after its keyword: the name of the group to
/// instantiate and its parenthesised argument values.
pub open spec fn spec_create(toks: Seq<Tok>, pos: int) -> Parsed<Ast> {
    match peek(toks, pos) {
        Option::None => Parsed::Fail(PErr::IncompleteInput),
        Option::Some(Tok::Symbol(name)) => match peek(toks, pos + 1) {
            Option::None => Parsed::Fail(PErr::IncompleteInput),
            Option::Some(Tok::LParenthesis) => match spec_create_args(toks, pos + 2) {
                Parsed::Done { node: args, next } => Parsed::Done {
                    node: Ast::CreateInstruction(name, args),
                    next,
                },
                Parsed::Fail(e) => Parsed::Fail(e),
            },
            Option::Some(_) => Parsed::Fail(PErr::MissingDelimiter('(')),
        },
        Option::Some(_) => Parsed::Fail(PErr::MissingName),
    }
}

/// The instructions of a block body, up to and including the closing
/// brace. Instructions carry their own terminators, so no separator
/// stands between them.
pub open spec fn spec_instructions(toks: Seq<Tok>, pos: int) -> Parsed<Seq<Ast>>
    decreases toks.len() - pos, 1int,
{
    match peek(toks, pos) {
        Option::None => Parsed::Fail(PErr::IncompleteInput),
        Option::Some(Tok::RBrace) => Parsed::Done { node: Seq::empty(), next: pos + 1 },
        Option::Some(_) => match spec_instruction(toks, pos) {
            Parsed::Done { node, next } => match spec_instructions(
                toks,
                step(toks.len() as int, pos, next),
            ) {
                Parsed::Done { node: rest, next: after } => Parsed::Done {
                    node: rest.insert(0, node),
                    next: after,
                },
                Parsed::Fail(e) => Parsed::Fail(e),
            },
            Parsed::Fail(e) => Parsed::Fail(e),
        },
    }
}

/// One instruction, selected by a single token of lookahead against the
/// instruction keywords.
pub open spec fn spec_instruction(toks: Seq<Tok>, pos: int) -> Parsed<Ast>
    decreases toks.len() - pos, 0int,
{
    match peek(toks, pos) {
        Option::None => Parsed::Fail(PErr::IncompleteInput),
        Option::Some(Tok::CreateInstructionKeyword) => spec_create(toks, pos + 1),
        Option::Some(Tok::If) => spec_if(toks, pos + 1),
        Option::Some(Tok::Foreach) => spec_foreach(toks, pos + 1),
        Option::Some(Tok::For) => spec_for(toks, pos + 1),
        Option::Some(Tok::Let) => spec_declaration(toks, pos),
        Option::Some(_) => Parsed::Fail(PErr::ExpectedInstruction),
    }
}

/// A conditional after its keyword: a condition expression and a braced
/// body of instructions; there is no else branch.
pub open spec fn spec_if(toks: Seq<Tok>, pos: int) -> Parsed<Ast>
    decreases toks.len() - pos, 0int,
{
    if pos < 0 || pos >= toks.len() {
        Parsed::Fail(PErr::IncompleteInput)
    } else {
        let (cond, n1) = spec_expression(toks, pos);
        match peek(toks, n1) {
            Option::None => Parsed::Fail(PErr::IncompleteInput),
            Option::Some(Tok::LBrace) => match spec_instructions(
                toks,
                step(toks.len() as int, pos, n1 + 1),
            ) {
                Parsed::Done { node: ins, next } => Parsed::Done {
                    node: Ast::If(Box::new(cond), ins),
                    next,
                },
                Parsed::Fail(e) => Parsed::Fail(e),
            },
            Option::Some(_) => Parsed::Fail(PErr::MissingDelimiter('{')),
        }
    }
}

/// A lock-step iteration after its keyword: bound names, the `in`
/// keyword, collection expressions, and a braced body. The header must
/// open with a symbol; any other first token is rejected with its text.
pub open spec fn spec_foreach(toks: Seq<Tok>, pos: int) -> Parsed<Ast>
    decreases toks.len() - pos, 0int,
{
    match peek(toks, pos) {
        Option::None => Parsed::Fail(PErr::IncompleteInput),
        Option::Some(Tok::Symbol(_)) => match spec_foreach_names(toks, pos) {
            Parsed::Done { node: names, next: n1 } => match spec_foreach_collections(toks, n1) {
                Parsed::Done { node: colls, next: n2 } => match spec_instructions(
                    toks,
                    step(toks.len() as int, pos, n2),
                ) {
                    Parsed::Done { node: ins, next: n3 } => Parsed::Done {
                        node: Ast::Foreach(names, colls, ins),
                        next: n3,
                    },
                    Parsed::Fail(e) => Parsed::Fail(e),
                },
                Parsed::Fail(e) => Parsed::Fail(e),
            },
            Parsed::Fail(e) => Parsed::Fail(e),
        },
        Option::Some(t) => Parsed::Fail(PErr::UnexpectedToken(token_text(t))),
    }
}

/// A counted loop after its keyword: a binding, a condition and a
/// progression clause separated by semicolons, then a braced body.
pub open spec fn spec_for(toks: Seq<Tok>, pos: int) -> Parsed<Ast>
    decreases toks.len() - pos, 0int,
{
    if pos < 0 || pos >= toks.len() {
        Parsed::Fail(PErr::IncompleteInput)
    } else {
        match spec_declaration(toks, pos) {
            Parsed::Done { node: decl, next: n1 } => match peek(toks, n1) {
                Option::None => Parsed::Fail(PErr::IncompleteInput),
                Option::Some(Tok::Semicolon) => {
                    let (cond, n2) = spec_expression(toks, n1 + 1);
                    match peek(toks, n2) {
                        Option::None => Parsed::Fail(PErr::IncompleteInput),
                        Option::Some(Tok::Semicolon) => {
                            let (prog, n3) = spec_statement(toks, n2 + 1);
                            match peek(toks, n3) {
                                Option::None => Parsed::Fail(PErr::IncompleteInput),
                                Option::Some(Tok::LBrace) => match spec_instructions(
                                    toks,
                                    step(toks.len() as int, pos, n3 + 1),
                                ) {
                                    Parsed::Done { node: ins, next: n4 } => Parsed::Done {
                                        node: Ast::For(
                                            Box::new(decl),
                                            Box::new(cond),
                                            Box::new(prog),
                                            ins,
                                        ),
                                        next: n4,
                                    },
                                    Parsed::Fail(e) => Parsed::Fail(e),
                                },
                                Option::Some(_) => Parsed::Fail(PErr::MissingDelimiter('{')),
                            }
                        },
                        Option::Some(_) => Parsed::Fail(PErr::MissingDelimiter(';')),
                    }
                },
                Option::Some(_) => Parsed::Fail(PErr::MissingDelimiter(';')),
            },
            Parsed::Fail(e) => Parsed::Fail(e),
        }
    }
}

/// A named procedure after its keyword: a name and a braced body of
/// instructions.
pub open spec fn spec_do(toks: Seq<Tok>, pos: int) -> Parsed<Ast> {
    match peek(toks, pos) {
        Option::None => Parsed::Fail(PErr::IncompleteInput),
        Option::Some(Tok::Symbol(name)) => match peek(toks, pos + 1) {
            Option::None => Parsed::Fail(PErr::IncompleteInput),
            Option::Some(Tok::LBrace) => match spec_instructions(toks, pos + 2) {
                Parsed::Done { node: ins, next } => Parsed::Done {
                    node: Ast::Do(name, ins),
                    next,
                },
                Parsed::Fail(e) => Parsed::Fail(e),
            },
            Option::Some(_) => Parsed::Fail(PErr::MissingDelimiter('{')),
        },
        Option::Some(_) => Parsed::Fail(PErr::MissingName),
    }
}

/// An action-triggered procedure after its keyword: a parenthesised list
/// of action names and a braced body of instructions.
pub open spec fn spec_run(toks: Seq<Tok>, pos: int) -> Parsed<Ast> {
    match peek(toks, pos) {
        Option::None => Parsed::Fail(PErr::IncompleteInput),
        Option::Some(Tok::LParenthesis) => match spec_run_actions(toks, pos + 1) {
            Parsed::Done { node: actions, next: n1 } => match peek(toks, n1) {
                Option::None => Parsed::Fail(PErr::IncompleteInput),
                Option::Some(Tok::LBrace) => match spec_instructions(toks, n1 + 1) {
                    Parsed::Done { node: ins, next: n2 } => Parsed::Done {
                        node: Ast::Run(actions, ins),
                        next: n2,
                    },
                    Parsed::Fail(e) => Parsed::Fail(e),
                },
                Option::Some(_) => Parsed::Fail(PErr::MissingDelimiter('{')),
            },
            Parsed::Fail(e) => Parsed::Fail(e),
        },
        Option::Some(_) => Parsed::Fail(PErr::MissingDelimiter('(')),
    }
}

/// A record-type declaration after its keyword: a name and a braced,
/// comma-tolerant field list.
pub open spec fn spec_data(toks: Seq<Tok>, pos: int) -> Parsed<Ast> {
    match peek(toks, pos) {
        Option::None => Parsed::Fail(PErr::IncompleteInput),
        Option::Some(Tok::Symbol(name)) => match peek(toks, pos + 1) {
            Option::None => Parsed::Fail(PErr::IncompleteInput),
            Option::Some(Tok::LBrace) => match spec_fields(toks, pos + 2) {
                Parsed::Done { node: fields, next } => Parsed::Done {
                    node: Ast::Data(name, fields),
                    next,
                },
                Parsed::Fail(e) => Parsed::Fail(e),
            },
            Option::Some(_) => Parsed::Fail(PErr::MissingDelimiter('{')),
        },
        Option::Some(_) => Parsed::Fail(PErr::MissingName),
    }
}

/// A parameterized template after its keyword: a name, a parenthesised
/// parameter list, and a braced body of data instantiations.
pub open spec fn spec_group(toks: Seq<Tok>, pos: int) -> Parsed<Ast> {
    match peek(toks, pos) {
        Option::None => Parsed::Fail(PErr::IncompleteInput),
        Option::Some(Tok::Symbol(name)) => match peek(toks, pos + 1) {
            Option::None => Parsed::Fail(PErr::IncompleteInput),
            Option::Some(Tok::LParenthesis) => match spec_parameters(toks, pos + 2) {
                Parsed::Done { node: params, next: n1 } => match peek(toks, n1) {
                    Option::None => Parsed::Fail(PErr::IncompleteInput),
                    Option::Some(Tok::LBrace) => match spec_data_instanciations(toks, n1 + 1) {
                        Parsed::Done { node: insts, next: n2 } => Parsed::Done {
                            node: Ast::Group(name, params, insts),
                            next: n2,
                        },
                        Parsed::Fail(e) => Parsed::Fail(e),
                    },
                    Option::Some(_) => Parsed::Fail(PErr::MissingDelimiter('{')),
                },
                Parsed::Fail(e) => Parsed::Fail(e),
            },
            Option::Some(_) => Parsed::Fail(PErr::MissingDelimiter('(')),
        },
        Option::Some(_) => Parsed::Fail(PErr::MissingName),
    }
}

/// One top-level block, dispatched on its consumed keyword token. Any
/// other token, or the end of the input where a block was expected, is a
/// violation.
pub open spec fn spec_block(toks: Seq<Tok>, pos: int) -> Parsed<Ast> {
    match peek(toks, pos) {
        Option::None => Parsed::Fail(PErr::IncompleteInput),
        Option::Some(Tok::Data) => spec_data(toks, pos + 1),
        Option::Some(Tok::Group) => spec_group(toks, pos + 1),
        Option::Some(Tok::Do) => spec_do(toks, pos + 1),
        Option::Some(Tok::Run) => spec_run(toks, pos + 1),
        Option::Some(t) => Parsed::Fail(PErr::UnexpectedToken(token_text(t))),
    }
}

/// The top-level blocks from `pos` to the end of the input, in source
/// order. An exhausted input is a complete, possibly empty, list.
pub open spec fn spec_blocks(toks: Seq<Tok>, pos: int) -> Parsed<Seq<Ast>>
    decreases toks.len() - pos,
{
    if pos < 0 || pos >= toks.len() {
        Parsed::Done { node: Seq::empty(), next: pos }
    } else {
        match spec_block(toks, pos) {
            Parsed::Done { node, next } => match spec_blocks(
                toks,
                step(toks.len() as int, pos, next),
            ) {
                Parsed::Done { node: rest, next: after } => Parsed::Done {
                    node: rest.insert(0, node),
                    next: after,
                },
                Parsed::Fail(e) => Parsed::Fail(e),
            },
            Parsed::Fail(e) => Parsed::Fail(e),
        }
    }
}

/// A whole compilation unit: every top-level block of the token sequence
/// gathered, in source order, under one program node. An empty token
/// sequence is a program with no blocks, not a violation.
pub open spec fn spec_parse(toks: Seq<Tok>) -> Parsed<Ast> {
    match spec_blocks(toks, 0) {
        Parsed::Done { node: blocks, next } => Parsed::Done {
            node: Ast::Program(blocks),
            next,
        },
        Parsed::Fail(e) => Parsed::Fail(e),
    }
}

} // verus!

