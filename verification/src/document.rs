//! The document: all interfaces of one source text.

use crate::interface::{Interface, InterfaceView};
use crate::text::{joined, lemma_joined_step, views};
use crate::tree::{lemma_select_none, lemma_select_step, Node, NodeKind};
use vstd::prelude::*;

verus! {

/// A document: its interfaces in source order.
#[derive(Clone, Debug, PartialEq, Eq)]
pub struct Document {
    pub interfaces: Vec<Interface>,
}

/// The mathematical value of a `Document`.
pub struct DocumentView {
    pub interfaces: Seq<InterfaceView>,
}

impl View for Document {
    type V = DocumentView;

    open spec fn view(&self) -> DocumentView {
        DocumentView { interfaces: views(self.interfaces@) }
    }
}

impl DocumentView {
    /// The document that the children of a document node stand for: all
    /// interfaces in order.
    pub open spec fn of_children(children: Seq<Node>) -> DocumentView {
        DocumentView { interfaces: InterfaceView::all_of(children) }
    }

    /// The rendered document: the interfaces in order, one empty line
    /// between each two.
    pub open spec fn text(self) -> Seq<char> {
        joined(InterfaceView::texts(self.interfaces), "\n"@)
    }
}

impl Default for Document {
    fn default() -> (result: Document)
        ensures
            result@ == (DocumentView { interfaces: Seq::empty() }),
    {
        let result = Document { interfaces: Vec::new() };
        assert(result@.interfaces =~= Seq::empty());
        result
    }
}

impl Document {
    /// Builds the document that a document node stands for.
    pub fn from_pest(node: &Node) -> (result: Document)
        requires
            node.kind == NodeKind::Document,
        ensures
            result@ == DocumentView::of_children(node.children@),
    {
        let ghost children = node.children@;
        let mut interfaces: Vec<Interface> = Vec::new();
        proof {
            lemma_select_none(children, NodeKind::Interface);
            assert(views(interfaces@) =~= InterfaceView::all_of(children.take(0)));
        }
        let mut i: usize = 0;
        while i < node.children.len()
            invariant
                i <= node.children.len(),
                children == node.children@,
                views(interfaces@) == InterfaceView::all_of(children.take(i as int)),
            decreases node.children.len() - i,
        {
            let child = &node.children[i];
            proof {
                lemma_select_step(children, i as int, NodeKind::Interface);
            }
            match child.kind {
                NodeKind::Interface => {
                    let ghost before = views(interfaces@);
                    let interface = Interface::from_pest(child);
                    interfaces.push(interface);
                    assert(views(interfaces@) =~= before.push(
                        InterfaceView::of_children(child.children@),
                    ));
                    assert(views(interfaces@) =~= InterfaceView::all_of(
                        children.take(i as int + 1),
                    ));
                },
                _ => {},
            }
            i = i + 1;
        }
        proof {
            assert(children.take(i as int) =~= children);
        }
        Document { interfaces }
    }

    /// Appends the rendered document to `w`: its interfaces in order, one
    /// empty line between each two.
    pub fn render(&self, w: &mut String)
        ensures
            final(w)@ == old(w)@ + self@.text(),
    {
        let ghost texts = InterfaceView::texts(self@.interfaces);
        let mut first = true;
        let mut i: usize = 0;
        assert(w@ =~= old(w)@ + joined(texts.take(0), "\n"@));
        while i < self.interfaces.len()
            invariant
                i <= self.interfaces.len(),
                first == (i == 0),
                texts == InterfaceView::texts(self@.interfaces),
                texts.len() == self.interfaces.len(),
                w@ == old(w)@ + joined(texts.take(i as int), "\n"@),
            decreases self.interfaces.len() - i,
        {
            proof {
                lemma_joined_step(texts, "\n"@, i as int);
            }
            if !first {
                w.append("\n");
            } else {
                first = false;
            }
            self.interfaces[i].render(w);
            i = i + 1;
            assert(w@ =~= old(w)@ + joined(texts.take(i as int), "\n"@));
        }
        proof {
            assert(texts.take(i as int) =~= texts);
        }
    }
}

/// Rendering depends on the value of the document alone: two documents of
/// the same value, rendered after the same text, give the same text.
pub proof fn lemma_render_deterministic(
    first: Document,
    second: Document,
    before_first: Seq<char>,
    before_second: Seq<char>,
)
    requires
        first@ == second@,
        before_first == before_second,
    ensures
        before_first + first@.text() == before_second + second@.text(),
{
}

} // verus!
