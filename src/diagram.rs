//! Diagram primitives: the shapes of a railroad diagram, each owning its children.
use vstd::prelude::*;

verus! {

broadcast use vstd::std_specs::vec::group_vec_axioms;

/// One shape of a railroad diagram.
#[derive(Debug, PartialEq, Eq)]
pub enum Node {
    Empty,
    Start,
    End,
    SimpleStart,
    SimpleEnd,
    Terminal(String),
    NonTerminal(String),
    Comment(String),
    Sequence(Vec<Node>),
    Choice(Vec<Node>),
    Optional(Box<Node>),
    /// A repeated block and what stands on its way back.
    Repeat(Box<Node>, Box<Node>),
    /// A block framed by a box that carries a label.
    LabeledBox(Box<Node>, Box<Node>),
}

/// The mathematical value of a [`Node`]: texts as character sequences,
/// children as sequences.
pub enum Shape {
    Empty,
    Start,
    End,
    SimpleStart,
    SimpleEnd,
    Terminal(Seq<char>),
    NonTerminal(Seq<char>),
    Comment(Seq<char>),
    Sequence(Seq<Shape>),
    Choice(Seq<Shape>),
    Optional(Box<Shape>),
    Repeat(Box<Shape>, Box<Shape>),
    LabeledBox(Box<Shape>, Box<Shape>),
}

/// The shapes of a list of nodes, in order.
pub open spec fn shapes_of(v: Vec<Node>) -> Seq<Shape>
    decreases v,
{
    Seq::new(v.len() as nat, |i: int| if 0 <= i < v.len() { v[i].shape() } else { Shape::Empty })
}

impl Node {
    pub open spec fn shape(self) -> Shape
        decreases self,
    {
        match self {
            Node::Empty => Shape::Empty,
            Node::Start => Shape::Start,
            Node::End => Shape::End,
            Node::SimpleStart => Shape::SimpleStart,
            Node::SimpleEnd => Shape::SimpleEnd,
            Node::Terminal(t) => Shape::Terminal(t@),
            Node::NonTerminal(t) => Shape::NonTerminal(t@),
            Node::Comment(t) => Shape::Comment(t@),
            Node::Sequence(v) => Shape::Sequence(shapes_of(v)),
            Node::Choice(v) => Shape::Choice(shapes_of(v)),
            Node::Optional(n) => Shape::Optional(Box::new(n.shape())),
            Node::Repeat(n, s) => Shape::Repeat(Box::new(n.shape()), Box::new(s.shape())),
            Node::LabeledBox(n, l) => Shape::LabeledBox(Box::new(n.shape()), Box::new(l.shape())),
        }
    }
}

/// A whole diagram: one sequence that runs from an entry marker to an exit marker.
#[derive(Debug, PartialEq, Eq)]
pub struct Diagram {
    pub sequence: Vec<Node>,
}

impl Diagram {
    pub open spec fn shapes(self) -> Seq<Shape> {
        shapes_of(self.sequence)
    }
}

} // verus!
