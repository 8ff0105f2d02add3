//! The parse tree that the builders consume: nodes tagged with the grammar
//! rule that produced them, each with the text it spans and its children.

use crate::text::{is_horizontal_space, lemma_trim_end_horizontal, trim_end_horizontal};
use vstd::prelude::*;

verus! {

/// The grammar rule that produced a node. Rules that no builder looks at are
/// all `Other`.
#[derive(Clone, Copy, Debug, PartialEq, Eq, Structural)]
pub enum NodeKind {
    Document,
    Interface,
    DocComment,
    Uuid,
    OtherAttribute,
    InterfaceName,
    Parent,
    Method,
    MethodName,
    Parameter,
    ParameterAttribute,
    Type,
    Identifier,
    Pointer,
    Const,
    TypedefEnum,
    Variant,
    TypedefStruct,
    Field,
    Other,
}

/// One node of the parse tree.
#[derive(Debug)]
pub struct Node {
    pub kind: NodeKind,
    /// The source text that the node spans.
    pub text: String,
    /// The nodes directly below this one, in source order.
    pub children: Vec<Node>,
}

/// The nodes of `children` that have the given kind, in order.
pub open spec fn children_of_kind(children: Seq<Node>, kind: NodeKind) -> Seq<Node> {
    children.filter(|n: Node| n.kind == kind)
}

/// The last node of `children` that has the given kind.
pub open spec fn last_of_kind(children: Seq<Node>, kind: NodeKind) -> Option<Node> {
    let matching = children_of_kind(children, kind);
    if matching.len() > 0 {
        Some(matching.last())
    } else {
        None
    }
}

/// The text of the last node of the given kind; empty if there is none.
pub open spec fn last_text_of_kind(children: Seq<Node>, kind: NodeKind) -> Seq<char> {
    match last_of_kind(children, kind) {
        Some(n) => n.text@,
        None => Seq::empty(),
    }
}

/// The text of the last node of the given kind, if there is one.
pub open spec fn last_text_if_any(children: Seq<Node>, kind: NodeKind) -> Option<Seq<char>> {
    match last_of_kind(children, kind) {
        Some(n) => Some(n.text@),
        None => None,
    }
}

/// The texts of the nodes of the given kind, in order.
pub open spec fn texts_of_kind(children: Seq<Node>, kind: NodeKind) -> Seq<Seq<char>> {
    children_of_kind(children, kind).map_values(|n: Node| n.text@)
}

/// The doc comment among `children`: the text of the last doc-comment node
/// without its trailing spaces and tabs.
pub open spec fn doc_comment_of(children: Seq<Node>) -> Option<Seq<char>> {
    match last_of_kind(children, NodeKind::DocComment) {
        Some(n) => Some(trim_end_horizontal(n.text@)),
        None => None,
    }
}

/// How the selections over the first `i + 1` children follow from those over
/// the first `i`.
pub proof fn lemma_select_step(children: Seq<Node>, i: int, kind: NodeKind)
    requires
        0 <= i < children.len(),
    ensures
        children.take(i + 1) == children.take(i).push(children[i]),
        children_of_kind(children.take(i + 1), kind) == if children[i].kind == kind {
            children_of_kind(children.take(i), kind).push(children[i])
        } else {
            children_of_kind(children.take(i), kind)
        },
        last_of_kind(children.take(i + 1), kind) == if children[i].kind == kind {
            Some(children[i])
        } else {
            last_of_kind(children.take(i), kind)
        },
        texts_of_kind(children.take(i + 1), kind) == if children[i].kind == kind {
            texts_of_kind(children.take(i), kind).push(children[i].text@)
        } else {
            texts_of_kind(children.take(i), kind)
        },
{
    let before = children.take(i);
    assert(children.take(i + 1) =~= before.push(children[i]));
    before.lemma_filter_push(children[i], |n: Node| n.kind == kind);
    if children[i].kind == kind {
        assert(texts_of_kind(children.take(i + 1), kind) =~= texts_of_kind(before, kind).push(
            children[i].text@,
        ));
    }
}

/// Nothing is selected from the first zero children.
pub proof fn lemma_select_none(children: Seq<Node>, kind: NodeKind)
    ensures
        children.take(0) == Seq::<Node>::empty(),
        children_of_kind(children.take(0), kind) == Seq::<Node>::empty(),
        last_of_kind(children.take(0), kind) is None,
        texts_of_kind(children.take(0), kind) == Seq::<Seq<char>>::empty(),
{
    reveal(Seq::filter);
    assert(children.take(0) =~= Seq::<Node>::empty());
    assert(texts_of_kind(children.take(0), kind) =~= Seq::<Seq<char>>::empty());
}

/// A doc comment is kept character for character, but for the spaces and
/// tabs at its end: what is kept is the start of the node's text, what is
/// cut off is only spaces and tabs, and what is kept does not end in one.
pub proof fn lemma_doc_comment_preserved(children: Seq<Node>)
    requires
        last_of_kind(children, NodeKind::DocComment) is Some,
    ensures
        doc_comment_of(children) is Some,
        ({
            let source = last_of_kind(children, NodeKind::DocComment)->0.text@;
            let kept = doc_comment_of(children)->0;
            &&& kept.len() <= source.len()
            &&& kept == source.take(kept.len() as int)
            &&& forall|i: int|
                kept.len() <= i < source.len() ==> is_horizontal_space(#[trigger] source[i])
            &&& kept.len() > 0 ==> !is_horizontal_space(kept.last())
        }),
{
    lemma_trim_end_horizontal(last_of_kind(children, NodeKind::DocComment)->0.text@);
}

/// Without a doc-comment node there is no doc comment.
pub proof fn lemma_doc_comment_absent(children: Seq<Node>)
    requires
        last_of_kind(children, NodeKind::DocComment) is None,
    ensures
        doc_comment_of(children) is None,
{
}

} // verus!
