use vstd::prelude::*;

verus! {

/// The mathematical value of a syntax tree. Strings appear as character
/// sequences and child lists as sequences, so contracts and proofs can
/// speak of trees without regard to ownership or allocation.
pub enum Ast {
    Program(Seq<Ast>),
    Data(Seq<char>, Seq<Ast>),
    Group(Seq<char>, Seq<Ast>, Seq<Ast>),
    Do(Seq<char>, Seq<Ast>),
    Run(Seq<Seq<char>>, Seq<Ast>),
    Parameter(Seq<char>, Seq<char>),
    Field(Seq<char>, Seq<char>),
    FieldValue(Seq<char>, Seq<char>),
    Value(Seq<char>),
    Expression(Box<Ast>),
    Declaration(Seq<char>, Box<Ast>),
    DataInstanciation(Seq<char>, Seq<Ast>),
    CreateInstruction(Seq<char>, Seq<Ast>),
    Sum(Box<Ast>, Box<Ast>),
    Substraction(Box<Ast>, Box<Ast>),
    Multiplication(Box<Ast>, Box<Ast>),
    Division(Box<Ast>, Box<Ast>),
    Modulo(Box<Ast>, Box<Ast>),
    If(Box<Ast>, Seq<Ast>),
    Foreach(Seq<Seq<char>>, Seq<Ast>, Seq<Ast>),
    For(Box<Ast>, Box<Ast>, Box<Ast>, Seq<Ast>),
}

/// One node of the abstract syntax tree. Every composite node exclusively
/// owns its children: child lists are owned vectors, single children owned
/// boxes, so the tree is finite and acyclic by construction. Child order
/// preserves source order.
#[derive(Debug, PartialEq, Eq)]
pub enum ASTNode {
    Program(Vec<ASTNode>),
    Data(String, Vec<ASTNode>),
    Group(String, Vec<ASTNode>, Vec<ASTNode>),
    Do(String, Vec<ASTNode>),
    Run(Vec<String>, Vec<ASTNode>),
    Parameter(String, String),
    Field(String, String),
    FieldValue(String, String),
    Value(String),
    Expression(Box<ASTNode>),
    Declaration(String, Box<ASTNode>),
    DataInstanciation(String, Vec<ASTNode>),
    CreateInstruction(String, Vec<ASTNode>),
    Sum(Box<ASTNode>, Box<ASTNode>),
    Substraction(Box<ASTNode>, Box<ASTNode>),
    Multiplication(Box<ASTNode>, Box<ASTNode>),
    Division(Box<ASTNode>, Box<ASTNode>),
    Modulo(Box<ASTNode>, Box<ASTNode>),
    If(Box<ASTNode>, Vec<ASTNode>),
    Foreach(Vec<String>, Vec<ASTNode>, Vec<ASTNode>),
    For(Box<ASTNode>, Box<ASTNode>, Box<ASTNode>, Vec<ASTNode>),
}

/// The abstract value of a list of action or binding names.
pub open spec fn strings_view(s: Seq<String>) -> Seq<Seq<char>> {
    s.map_values(|x: String| x@)
}

/// The abstract value of one syntax tree node.
pub open spec fn node_view(n: ASTNode) -> Ast
    decreases n,
{
    match n {
        ASTNode::Program(stmts) => Ast::Program(nodes_view(stmts@)),
        ASTNode::Data(name, fields) => Ast::Data(name@, nodes_view(fields@)),
        ASTNode::Group(name, params, insts) => Ast::Group(
            name@,
            nodes_view(params@),
            nodes_view(insts@),
        ),
        ASTNode::Do(name, instructions) => Ast::Do(name@, nodes_view(instructions@)),
        ASTNode::Run(actions, instructions) => Ast::Run(
            strings_view(actions@),
            nodes_view(instructions@),
        ),
        ASTNode::Parameter(name, ty) => Ast::Parameter(name@, ty@),
        ASTNode::Field(name, ty) => Ast::Field(name@, ty@),
        ASTNode::FieldValue(name, value) => Ast::FieldValue(name@, value@),
        ASTNode::Value(text) => Ast::Value(text@),
        ASTNode::Expression(inner) => Ast::Expression(Box::new(node_view(*inner))),
        ASTNode::Declaration(name, value) => Ast::Declaration(name@, Box::new(node_view(*value))),
        ASTNode::DataInstanciation(name, values) => Ast::DataInstanciation(
            name@,
            nodes_view(values@),
        ),
        ASTNode::CreateInstruction(name, args) => Ast::CreateInstruction(
            name@,
            nodes_view(args@),
        ),
        ASTNode::Sum(lhs, rhs) => Ast::Sum(
            Box::new(node_view(*lhs)),
            Box::new(node_view(*rhs)),
        ),
        ASTNode::Substraction(lhs, rhs) => Ast::Substraction(
            Box::new(node_view(*lhs)),
            Box::new(node_view(*rhs)),
        ),
        ASTNode::Multiplication(lhs, rhs) => Ast::Multiplication(
            Box::new(node_view(*lhs)),
            Box::new(node_view(*rhs)),
        ),
        ASTNode::Division(lhs, rhs) => Ast::Division(
            Box::new(node_view(*lhs)),
            Box::new(node_view(*rhs)),
        ),
        ASTNode::Modulo(lhs, rhs) => Ast::Modulo(
            Box::new(node_view(*lhs)),
            Box::new(node_view(*rhs)),
        ),
        ASTNode::If(cond, instructions) => Ast::If(
            Box::new(node_view(*cond)),
            nodes_view(instructions@),
        ),
        ASTNode::Foreach(values, collections, instructions) => Ast::Foreach(
            strings_view(values@),
            nodes_view(collections@),
            nodes_view(instructions@),
        ),
        ASTNode::For(decl, cond, prog, instructions) => Ast::For(
            Box::new(node_view(*decl)),
            Box::new(node_view(*cond)),
            Box::new(node_view(*prog)),
            nodes_view(instructions@),
        ),
    }
}

/// The abstract values of a list of child nodes, in order. The bounds
/// guard keeps the recursion inside the sequence, where the elements are
/// structurally smaller; the filler value is never an element of the
/// result.
pub open spec fn nodes_view(s: Seq<ASTNode>) -> Seq<Ast>
    decreases s,
{
    Seq::new(
        s.len(),
        |i: int|
            if 0 <= i < s.len() {
                node_view(s[i])
            } else {
                Ast::Value(Seq::empty())
            },
    )
}

/// An empty child list has an empty abstract value.
pub proof fn lemma_nodes_view_empty()
    ensures
        nodes_view(Seq::<ASTNode>::empty()) == Seq::<Ast>::empty(),
{
    assert(nodes_view(Seq::<ASTNode>::empty()) =~= Seq::<Ast>::empty());
}

/// Prepending a node to a child list prepends its abstract value.
pub proof fn lemma_nodes_view_insert0(s: Seq<ASTNode>, x: ASTNode)
    ensures
        nodes_view(s.insert(0, x)) == nodes_view(s).insert(0, node_view(x)),
{
    s.insert_ensures(0, x);
    nodes_view(s).insert_ensures(0, node_view(x));
    let a = nodes_view(s.insert(0, x));
    let b = nodes_view(s).insert(0, node_view(x));
    assert forall|i: int| 0 <= i < a.len() implies a[i] == b[i] by {
        if i > 0 {
            assert(s.insert(0, x)[i] == s[i - 1]);
            assert(b[i] == nodes_view(s)[i - 1]);
        }
    }
    assert(a =~= b);
}

/// An empty name list has an empty abstract value.
pub proof fn lemma_strings_view_empty()
    ensures
        strings_view(Seq::<String>::empty()) == Seq::<Seq<char>>::empty(),
{
    assert(strings_view(Seq::<String>::empty()) =~= Seq::<Seq<char>>::empty());
}

/// Prepending a name to a name list prepends its character sequence.
pub proof fn lemma_strings_view_insert0(s: Seq<String>, x: String)
    ensures
        strings_view(s.insert(0, x)) == strings_view(s).insert(0, x@),
{
    s.insert_ensures(0, x);
    strings_view(s).insert_ensures(0, x@);
    let a = strings_view(s.insert(0, x));
    let b = strings_view(s).insert(0, x@);
    assert forall|i: int| 0 <= i < a.len() implies a[i] == b[i] by {
        if i > 0 {
            assert(s.insert(0, x)[i] == s[i - 1]);
            assert(b[i] == strings_view(s)[i - 1]);
        }
    }
    assert(a =~= b);
}

impl View for ASTNode {
    type V = Ast;

    open spec fn view(&self) -> Ast {
        node_view(*self)
    }
}

impl ASTNode {
    /// Builds a record-type declaration node from its name and fields.
    pub fn new_data(name: String, fields: Vec<ASTNode>) -> (r: ASTNode)
        ensures
            r@ == Ast::Data(name@, nodes_view(fields@)),
    {
        ASTNode::Data(name, fields)
    }

    /// Builds a parameterized template node from its name, formal
    /// parameters and instantiation body.
    pub fn new_group(name: String, parameters: Vec<ASTNode>, data_instanciations: Vec<ASTNode>) -> (r: ASTNode)
        ensures
            r@ == Ast::Group(name@, nodes_view(parameters@), nodes_view(data_instanciations@)),
    {
        ASTNode::Group(name, parameters, data_instanciations)
    }

    /// Builds a named procedure node.
    pub fn new_do(name: String, instructions: Vec<ASTNode>) -> (r: ASTNode)
        ensures
            r@ == Ast::Do(name@, nodes_view(instructions@)),
    {
        ASTNode::Do(name, instructions)
    }

    /// Builds an action-triggered procedure node.
    pub fn new_run(actions_to_do: Vec<String>, instructions: Vec<ASTNode>) -> (r: ASTNode)
        ensures
            r@ == Ast::Run(strings_view(actions_to_do@), nodes_view(instructions@)),
    {
        ASTNode::Run(actions_to_do, instructions)
    }

    /// Builds an instruction node that instantiates a group with arguments.
    pub fn new_create_instruction(groupe_name: String, parameter_values: Vec<ASTNode>) -> (r: ASTNode)
        ensures
            r@ == Ast::CreateInstruction(groupe_name@, nodes_view(parameter_values@)),
    {
        ASTNode::CreateInstruction(groupe_name, parameter_values)
    }

    /// Builds an addition node owning its two operands.
    pub fn new_sum(lhs: ASTNode, rhs: ASTNode) -> (r: ASTNode)
        ensures
            r@ == Ast::Sum(Box::new(lhs@), Box::new(rhs@)),
    {
        ASTNode::Sum(Box::new(lhs), Box::new(rhs))
    }

    /// Builds a subtraction node owning its two operands.
    pub fn new_substraction(lhs: ASTNode, rhs: ASTNode) -> (r: ASTNode)
        ensures
            r@ == Ast::Substraction(Box::new(lhs@), Box::new(rhs@)),
    {
        ASTNode::Substraction(Box::new(lhs), Box::new(rhs))
    }

    /// Builds a multiplication node owning its two operands.
    pub fn new_multiplication(lhs: ASTNode, rhs: ASTNode) -> (r: ASTNode)
        ensures
            r@ == Ast::Multiplication(Box::new(lhs@), Box::new(rhs@)),
    {
        ASTNode::Multiplication(Box::new(lhs), Box::new(rhs))
    }

    /// Builds a division node owning its two operands.
    pub fn new_division(lhs: ASTNode, rhs: ASTNode) -> (r: ASTNode)
        ensures
            r@ == Ast::Division(Box::new(lhs@), Box::new(rhs@)),
    {
        ASTNode::Division(Box::new(lhs), Box::new(rhs))
    }

    /// Builds a modulo node owning its two operands.
    pub fn new_modulo(lhs: ASTNode, rhs: ASTNode) -> (r: ASTNode)
        ensures
            r@ == Ast::Modulo(Box::new(lhs@), Box::new(rhs@)),
    {
        ASTNode::Modulo(Box::new(lhs), Box::new(rhs))
    }

    /// Builds one formal parameter of a group.
    pub fn new_parameter(name: String, parameter_type: String) -> (r: ASTNode)
        ensures
            r@ == Ast::Parameter(name@, parameter_type@),
    {
        ASTNode::Parameter(name, parameter_type)
    }

    /// Builds one member of a record-type declaration.
    pub fn new_field(name: String, field_type: String) -> (r: ASTNode)
        ensures
            r@ == Ast::Field(name@, field_type@),
    {
        ASTNode::Field(name, field_type)
    }

    /// Builds one assigned member inside a data instantiation.
    pub fn new_field_value(name: String, value: String) -> (r: ASTNode)
        ensures
            r@ == Ast::FieldValue(name@, value@),
    {
        ASTNode::FieldValue(name, value)
    }

    /// Builds an atomic operand: a bare identifier or a dotted path.
    pub fn new_value(value: String) -> (r: ASTNode)
        ensures
            r@ == Ast::Value(value@),
    {
        ASTNode::Value(value)
    }

    /// Builds an explicit expression wrapper around a child node.
    pub fn new_expression(value: ASTNode) -> (r: ASTNode)
        ensures
            r@ == Ast::Expression(Box::new(value@)),
    {
        ASTNode::Expression(Box::new(value))
    }

    /// Builds a variable binding node owning its value expression.
    pub fn new_declaration(variable_name: String, value: ASTNode) -> (r: ASTNode)
        ensures
            r@ == Ast::Declaration(variable_name@, Box::new(value@)),
    {
        ASTNode::Declaration(variable_name, Box::new(value))
    }

    /// Builds a concrete instance of a record type inside a group body.
    pub fn new_data_instanciation(data_name: String, field_values: Vec<ASTNode>) -> (r: ASTNode)
        ensures
            r@ == Ast::DataInstanciation(data_name@, nodes_view(field_values@)),
    {
        ASTNode::DataInstanciation(data_name, field_values)
    }

    /// Builds a conditional node owning its condition and body.
    pub fn new_if(condition: ASTNode, instructions: Vec<ASTNode>) -> (r: ASTNode)
        ensures
            r@ == Ast::If(Box::new(condition@), nodes_view(instructions@)),
    {
        ASTNode::If(Box::new(condition), instructions)
    }

    /// Builds a lock-step iteration node: one bound name per collection.
    pub fn new_foreach(values: Vec<String>, collections: Vec<ASTNode>, instructions: Vec<ASTNode>) -> (r: ASTNode)
        ensures
            r@ == Ast::Foreach(strings_view(values@), nodes_view(collections@), nodes_view(instructions@)),
    {
        ASTNode::Foreach(values, collections, instructions)
    }

    /// Builds a counted loop node from its three header clauses and body.
    pub fn new_for(declaration: ASTNode, condition: ASTNode, progression: ASTNode, instructions: Vec<ASTNode>) -> (r: ASTNode)
        ensures
            r@ == Ast::For(
                Box::new(declaration@),
                Box::new(condition@),
                Box::new(progression@),
                nodes_view(instructions@),
            ),
    {
        ASTNode::For(Box::new(declaration), Box::new(condition), Box::new(progression), instructions)
    }

    /// Builds the root node owning every top-level block of a unit.
    pub fn new_program(statements: Vec<ASTNode>) -> (r: ASTNode)
        ensures
            r@ == Ast::Program(nodes_view(statements@)),
    {
        ASTNode::Program(statements)
    }
}

} // verus!
