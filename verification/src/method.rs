//! Interface methods.

use crate::casing::{camel_to_snake, snake_case};
use crate::parameter::{Parameter, ParameterView};
use crate::text::{
    doc_text, lemma_prefixed_step, option_view, prefixed, push_doc_comment, trim_end, views,
};
use crate::tree::{
    children_of_kind, doc_comment_of, last_text_of_kind, lemma_select_none, lemma_select_step,
    Node, NodeKind,
};
use crate::types::{Type, TypeView};
use vstd::prelude::*;

verus! {

/// A method of an interface: its doc comment, return type, name and
/// parameters in source order.
#[derive(Clone, Debug, PartialEq, Eq)]
pub struct Method {
    pub doc_comment: Option<String>,
    pub return_type: Type,
    pub name: String,
    pub parameters: Vec<Parameter>,
}

/// The mathematical value of a `Method`.
pub struct MethodView {
    pub doc_comment: Option<Seq<char>>,
    pub return_type: TypeView,
    pub name: Seq<char>,
    pub parameters: Seq<ParameterView>,
}

impl View for Method {
    type V = MethodView;

    open spec fn view(&self) -> MethodView {
        MethodView {
            doc_comment: option_view(self.doc_comment),
            return_type: self.return_type@,
            name: self.name@,
            parameters: views(self.parameters@),
        }
    }
}

impl MethodView {
    /// The method without doc comment, return type, name and parameters.
    pub open spec fn empty() -> MethodView {
        MethodView {
            doc_comment: None,
            return_type: TypeView::empty(),
            name: Seq::empty(),
            parameters: Seq::empty(),
        }
    }

    /// The method that the children of a method node stand for: the last doc
    /// comment, the last type, the last method name, and all parameters in
    /// order.
    pub open spec fn of_children(children: Seq<Node>) -> MethodView {
        MethodView {
            doc_comment: doc_comment_of(children),
            return_type: TypeView::of_last_type(children),
            name: last_text_of_kind(children, NodeKind::MethodName),
            parameters: ParameterView::all_of(children),
        }
    }

    /// The methods that the method nodes among `children` stand for, in
    /// order.
    pub open spec fn all_of(children: Seq<Node>) -> Seq<MethodView> {
        children_of_kind(children, NodeKind::Method).map_values(
            |n: Node| MethodView::of_children(n.children@),
        )
    }

    /// The start of the signature, up to and including the receiver. The
    /// name is written in lowercase words.
    pub open spec fn head(self) -> Seq<char> {
        "    unsafe fn "@ + snake_case(self.name) + "(&self"@
    }

    /// The signature: the receiver, then each parameter after a comma and a
    /// space, then the return type, on one line.
    pub open spec fn signature(self) -> Seq<char> {
        self.head() + prefixed(ParameterView::texts(self.parameters), ", "@) + ") -> "@
            + self.return_type.text() + ";\n"@
    }

    /// The rendered method: its doc comment as it is, then its signature.
    pub open spec fn text(self) -> Seq<char> {
        doc_text(self.doc_comment) + self.signature()
    }

    /// The rendered texts of the methods, in order.
    pub open spec fn texts(methods: Seq<MethodView>) -> Seq<Seq<char>> {
        Seq::new(methods.len(), |i: int| methods[i].text())
    }
}

impl Default for Method {
    fn default() -> (result: Method)
        ensures
            result@ == MethodView::empty(),
    {
        let result = Method {
            doc_comment: None,
            return_type: Type::default(),
            name: String::new(),
            parameters: Vec::new(),
        };
        assert(result@.parameters =~= Seq::empty());
        result
    }
}

impl Method {
    /// Builds the method that a method node stands for.
    pub fn from_pest(node: &Node) -> (result: Method)
        requires
            node.kind == NodeKind::Method,
        ensures
            result@ == MethodView::of_children(node.children@),
    {
        let ghost children = node.children@;
        let mut doc_comment: Option<String> = None;
        let mut return_type = Type::default();
        let mut name = String::new();
        let mut parameters: Vec<Parameter> = Vec::new();
        proof {
            lemma_select_none(children, NodeKind::DocComment);
            lemma_select_none(children, NodeKind::Type);
            lemma_select_none(children, NodeKind::MethodName);
            lemma_select_none(children, NodeKind::Parameter);
            assert(views(parameters@) =~= ParameterView::all_of(children.take(0)));
        }
        let mut i: usize = 0;
        while i < node.children.len()
            invariant
                i <= node.children.len(),
                children == node.children@,
                option_view(doc_comment) == doc_comment_of(children.take(i as int)),
                return_type@ == TypeView::of_last_type(children.take(i as int)),
                name@ == last_text_of_kind(children.take(i as int), NodeKind::MethodName),
                views(parameters@) == ParameterView::all_of(children.take(i as int)),
            decreases node.children.len() - i,
        {
            let child = &node.children[i];
            proof {
                lemma_select_step(children, i as int, NodeKind::DocComment);
                lemma_select_step(children, i as int, NodeKind::Type);
                lemma_select_step(children, i as int, NodeKind::MethodName);
                lemma_select_step(children, i as int, NodeKind::Parameter);
            }
            match child.kind {
                NodeKind::DocComment => {
                    doc_comment = Some(trim_end(child.text.as_str()));
                },
                NodeKind::Type => {
                    return_type = Type::from_pest(child);
                },
                NodeKind::MethodName => {
                    name = child.text.clone();
                },
                NodeKind::Parameter => {
                    let ghost before = views(parameters@);
                    let parameter = Parameter::from_pest(child);
                    parameters.push(parameter);
                    assert(views(parameters@) =~= before.push(
                        ParameterView::of_children(child.children@),
                    ));
                    assert(views(parameters@) =~= ParameterView::all_of(
                        children.take(i as int + 1),
                    ));
                },
                _ => {},
            }
            i = i + 1;
        }
        proof {
            assert(children.take(i as int) =~= children);
        }
        Method { doc_comment, return_type, name, parameters }
    }

    /// Appends the rendered method to `w`: its doc comment, then its
    /// signature with the receiver first and the name in lowercase words.
    pub fn render(&self, w: &mut String)
        ensures
            final(w)@ == old(w)@ + self@.text(),
    {
        push_doc_comment(w, &self.doc_comment);
        w.append("    unsafe fn ");
        let name = camel_to_snake(self.name.as_str());
        w.append(name.as_str());
        w.append("(&self");
        let ghost start = old(w)@ + doc_text(self@.doc_comment) + self@.head();
        let ghost texts = ParameterView::texts(self@.parameters);
        assert(w@ =~= start);
        let mut i: usize = 0;
        while i < self.parameters.len()
            invariant
                i <= self.parameters.len(),
                texts == ParameterView::texts(self@.parameters),
                texts.len() == self.parameters.len(),
                w@ == start + prefixed(texts.take(i as int), ", "@),
            decreases self.parameters.len() - i,
        {
            proof {
                lemma_prefixed_step(texts, ", "@, i as int);
            }
            w.append(", ");
            self.parameters[i].render(w);
            i = i + 1;
            assert(w@ =~= start + prefixed(texts.take(i as int), ", "@));
        }
        proof {
            assert(texts.take(i as int) =~= texts);
        }
        w.append(") -> ");
        self.return_type.render(w);
        w.append(";\n");
        assert(w@ =~= old(w)@ + self@.text());
    }
}

/// A method without parameters renders with the receiver alone between the
/// brackets.
pub proof fn lemma_method_without_parameters(method: MethodView)
    requires
        method.parameters.len() == 0,
    ensures
        method.signature() == "    unsafe fn "@ + snake_case(method.name) + "(&self"@ + ") -> "@
            + method.return_type.text() + ";\n"@,
{
    assert(ParameterView::texts(method.parameters) =~= Seq::empty());
    assert(method.signature() =~= "    unsafe fn "@ + snake_case(method.name) + "(&self"@
        + ") -> "@ + method.return_type.text() + ";\n"@);
}

} // verus!
