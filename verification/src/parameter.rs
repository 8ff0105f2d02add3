//! Method parameters.

use crate::text::{joined, push_joined, views};
use crate::tree::{
    children_of_kind, last_of_kind, last_text_of_kind, lemma_select_none, lemma_select_step,
    texts_of_kind, Node, NodeKind,
};
use crate::types::{Type, TypeView};
use vstd::prelude::*;

verus! {

/// A parameter of a method: its attributes in source order, its type and its
/// name.
#[derive(Clone, Debug, PartialEq, Eq)]
pub struct Parameter {
    pub attributes: Vec<String>,
    pub ty: Type,
    pub name: String,
}

/// The mathematical value of a `Parameter`.
pub struct ParameterView {
    pub attributes: Seq<Seq<char>>,
    pub ty: TypeView,
    pub name: Seq<char>,
}

impl View for Parameter {
    type V = ParameterView;

    open spec fn view(&self) -> ParameterView {
        ParameterView { attributes: views(self.attributes@), ty: self.ty@, name: self.name@ }
    }
}

impl ParameterView {
    /// The parameter without attributes, type and name.
    pub open spec fn empty() -> ParameterView {
        ParameterView { attributes: Seq::empty(), ty: TypeView::empty(), name: Seq::empty() }
    }

    /// The parameter that the children of a parameter node stand for: all
    /// attributes in order, the last type and the last identifier.
    pub open spec fn of_children(children: Seq<Node>) -> ParameterView {
        ParameterView {
            attributes: texts_of_kind(children, NodeKind::ParameterAttribute),
            ty: TypeView::of_last_type(children),
            name: last_text_of_kind(children, NodeKind::Identifier),
        }
    }

    /// The parameters that the parameter nodes among `children` stand for,
    /// in order.
    pub open spec fn all_of(children: Seq<Node>) -> Seq<ParameterView> {
        children_of_kind(children, NodeKind::Parameter).map_values(
            |n: Node| ParameterView::of_children(n.children@),
        )
    }

    /// The attributes as an inline remark; nothing where there are none.
    pub open spec fn remark(self) -> Seq<char> {
        if self.attributes.len() > 0 {
            "/* "@ + joined(self.attributes, ", "@) + " */ "@
        } else {
            Seq::empty()
        }
    }

    /// The rendered parameter: the remark, the name, a colon and the type.
    pub open spec fn text(self) -> Seq<char> {
        self.remark() + self.name + ": "@ + self.ty.text()
    }

    /// The rendered texts of the parameters, in order.
    pub open spec fn texts(parameters: Seq<ParameterView>) -> Seq<Seq<char>> {
        Seq::new(parameters.len(), |i: int| parameters[i].text())
    }
}

impl Default for Parameter {
    fn default() -> (result: Parameter)
        ensures
            result@ == ParameterView::empty(),
    {
        let result = Parameter {
            attributes: Vec::new(),
            ty: Type::default(),
            name: String::new(),
        };
        assert(result@.attributes =~= Seq::empty());
        result
    }
}

impl Parameter {
    /// Builds the parameter that a parameter node stands for.
    pub fn from_pest(node: &Node) -> (result: Parameter)
        requires
            node.kind == NodeKind::Parameter,
        ensures
            result@ == ParameterView::of_children(node.children@),
    {
        let ghost children = node.children@;
        let mut attributes: Vec<String> = Vec::new();
        let mut ty = Type::default();
        let mut name = String::new();
        proof {
            lemma_select_none(children, NodeKind::ParameterAttribute);
            lemma_select_none(children, NodeKind::Type);
            lemma_select_none(children, NodeKind::Identifier);
            assert(views(attributes@) =~= Seq::empty());
        }
        let mut i: usize = 0;
        while i < node.children.len()
            invariant
                i <= node.children.len(),
                children == node.children@,
                views(attributes@) == texts_of_kind(
                    children.take(i as int),
                    NodeKind::ParameterAttribute,
                ),
                ty@ == TypeView::of_last_type(children.take(i as int)),
                name@ == last_text_of_kind(children.take(i as int), NodeKind::Identifier),
            decreases node.children.len() - i,
        {
            let child = &node.children[i];
            proof {
                lemma_select_step(children, i as int, NodeKind::ParameterAttribute);
                lemma_select_step(children, i as int, NodeKind::Type);
                lemma_select_step(children, i as int, NodeKind::Identifier);
            }
            match child.kind {
                NodeKind::ParameterAttribute => {
                    let ghost before = views(attributes@);
                    attributes.push(child.text.clone());
                    assert(views(attributes@) =~= before.push(child.text@));
                },
                NodeKind::Type => {
                    ty = Type::from_pest(child);
                },
                NodeKind::Identifier => {
                    name = child.text.clone();
                },
                _ => {},
            }
            i = i + 1;
        }
        proof {
            assert(children.take(i as int) =~= children);
        }
        Parameter { attributes, ty, name }
    }

    /// Appends the rendered parameter to `w`: its attributes, if it has any,
    /// as an inline remark, then its name, a colon and its type.
    pub fn render(&self, w: &mut String)
        ensures
            final(w)@ == old(w)@ + self@.text(),
    {
        if self.attributes.len() > 0 {
            w.append("/* ");
            push_joined(w, &self.attributes, ", ");
            w.append(" */ ");
            assert(w@ =~= old(w)@ + self@.remark());
        } else {
            assert(w@ =~= old(w)@ + self@.remark());
        }
        w.append(self.name.as_str());
        w.append(": ");
        self.ty.render(w);
        assert(w@ =~= old(w)@ + self@.text());
    }
}

} // verus!
