//! From a high-level syntax tree to a railroad diagram. Only empty trees
//! and literals have a drawing so far.
use vstd::prelude::*;
use crate::diagram::{Diagram, Node, Shape};
use crate::error::{HirConstruct, TranslateError};
use crate::hir::{Hir, Literal};
use crate::text::{byte_escape, char_text, push_byte_escape};

verus! {

/// The diagram of a high-level tree, or the kind of node that has none.
pub open spec fn hir_shape(hir: Hir) -> Result<Shape, TranslateError> {
    match hir {
        Hir::Empty => Ok(Shape::Empty),
        Hir::Literal(Literal::Unicode(c)) => Ok(Shape::Terminal(seq![c])),
        Hir::Literal(Literal::Byte(b)) => Ok(Shape::Terminal(byte_escape(b))),
        Hir::Class => Err(TranslateError::UnsupportedHir(HirConstruct::Class)),
        Hir::Anchor => Err(TranslateError::UnsupportedHir(HirConstruct::Anchor)),
        Hir::WordBoundary => Err(TranslateError::UnsupportedHir(HirConstruct::WordBoundary)),
        Hir::Repetition(_) => Err(TranslateError::UnsupportedHir(HirConstruct::Repetition)),
        Hir::Group(_) => Err(TranslateError::UnsupportedHir(HirConstruct::Group)),
        Hir::Concat(_) => Err(TranslateError::UnsupportedHir(HirConstruct::Concat)),
        Hir::Alternation(_) => Err(TranslateError::UnsupportedHir(HirConstruct::Alternation)),
    }
}

fn hir_node(hir: Hir) -> (r: Result<Node, TranslateError>)
    ensures
        hir_shape(hir) is Err ==> r == Err::<Node, TranslateError>(hir_shape(hir)->Err_0),
        hir_shape(hir) is Ok ==> r is Ok && r->Ok_0.shape() == hir_shape(hir)->Ok_0,
{
    match hir {
        Hir::Empty => Ok(Node::Empty),
        Hir::Literal(Literal::Unicode(c)) => Ok(Node::Terminal(char_text(c))),
        Hir::Literal(Literal::Byte(b)) => {
            let mut s = String::new();
            push_byte_escape(&mut s, b);
            assert(s@ =~= byte_escape(b));
            Ok(Node::Terminal(s))
        },
        Hir::Class => Err(TranslateError::UnsupportedHir(HirConstruct::Class)),
        Hir::Anchor => Err(TranslateError::UnsupportedHir(HirConstruct::Anchor)),
        Hir::WordBoundary => Err(TranslateError::UnsupportedHir(HirConstruct::WordBoundary)),
        Hir::Repetition(_) => Err(TranslateError::UnsupportedHir(HirConstruct::Repetition)),
        Hir::Group(_) => Err(TranslateError::UnsupportedHir(HirConstruct::Group)),
        Hir::Concat(_) => Err(TranslateError::UnsupportedHir(HirConstruct::Concat)),
        Hir::Alternation(_) => Err(TranslateError::UnsupportedHir(HirConstruct::Alternation)),
    }
}

/// Draws a high-level tree as one sequence from an entry marker to an exit
/// marker; a tree of any other kind than empty or literal is refused with
/// its kind.
pub fn convert(hir: Hir) -> (r: Result<Diagram, TranslateError>)
    ensures
        hir_shape(hir) is Err ==> r == Err::<Diagram, TranslateError>(hir_shape(hir)->Err_0),
        hir_shape(hir) is Ok ==> r is Ok && r->Ok_0.shapes() == seq![
            Shape::Start,
            hir_shape(hir)->Ok_0,
            Shape::End,
        ],
{
    let ghost expected = hir_shape(hir);
    match hir_node(hir) {
        Ok(n) => {
            let d = Diagram { sequence: vec![Node::Start, n, Node::End] };
            assert(d.shapes() =~= seq![Shape::Start, expected->Ok_0, Shape::End]);
            Ok(d)
        },
        Err(e) => Err(e),
    }
}

} // verus!
