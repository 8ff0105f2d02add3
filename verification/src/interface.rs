//! Interfaces: the declarations that everything else hangs from.

use crate::method::{Method, MethodView};
use crate::text::{
    doc_text, joined, lemma_joined_step, lemma_prefixed_step, option_view, prefixed,
    push_doc_comment, trim_end, views,
};
use crate::tree::{
    children_of_kind, doc_comment_of, last_text_if_any, last_text_of_kind, lemma_select_none,
    lemma_select_step, texts_of_kind, Node, NodeKind,
};
use crate::typedefs::{
    FieldView, TypedefEnum, TypedefEnumView, TypedefStruct, TypedefStructView, VariantView,
};
use vstd::prelude::*;

verus! {

/// An interface: its doc comment, name, parent, unique identifier, other
/// attributes, and the enumerations, structures and methods declared in it,
/// each list in source order.
#[derive(Clone, Debug, PartialEq, Eq)]
pub struct Interface {
    pub doc_comment: Option<String>,
    pub name: String,
    pub parent: String,
    pub uuid: Option<String>,
    pub attributes: Vec<String>,
    pub enums: Vec<TypedefEnum>,
    pub structs: Vec<TypedefStruct>,
    pub methods: Vec<Method>,
}

/// The mathematical value of an `Interface`.
pub struct InterfaceView {
    pub doc_comment: Option<Seq<char>>,
    pub name: Seq<char>,
    pub parent: Seq<char>,
    pub uuid: Option<Seq<char>>,
    pub attributes: Seq<Seq<char>>,
    pub enums: Seq<TypedefEnumView>,
    pub structs: Seq<TypedefStructView>,
    pub methods: Seq<MethodView>,
}

impl View for Interface {
    type V = InterfaceView;

    open spec fn view(&self) -> InterfaceView {
        InterfaceView {
            doc_comment: option_view(self.doc_comment),
            name: self.name@,
            parent: self.parent@,
            uuid: option_view(self.uuid),
            attributes: views(self.attributes@),
            enums: views(self.enums@),
            structs: views(self.structs@),
            methods: views(self.methods@),
        }
    }
}

impl InterfaceView {
    /// The interface without anything in it.
    pub open spec fn empty() -> InterfaceView {
        InterfaceView {
            doc_comment: None,
            name: Seq::empty(),
            parent: Seq::empty(),
            uuid: None,
            attributes: Seq::empty(),
            enums: Seq::empty(),
            structs: Seq::empty(),
            methods: Seq::empty(),
        }
    }

    /// The interface that the children of an interface node stand for: the
    /// last doc comment, unique identifier, name and parent, and all other
    /// attributes, methods, enumerations and structures, each kind in its
    /// own order.
    pub open spec fn of_children(children: Seq<Node>) -> InterfaceView {
        InterfaceView {
            doc_comment: doc_comment_of(children),
            name: last_text_of_kind(children, NodeKind::InterfaceName),
            parent: last_text_of_kind(children, NodeKind::Parent),
            uuid: last_text_if_any(children, NodeKind::Uuid),
            attributes: texts_of_kind(children, NodeKind::OtherAttribute),
            enums: TypedefEnumView::all_of(children),
            structs: TypedefStructView::all_of(children),
            methods: MethodView::all_of(children),
        }
    }

    /// The interfaces that the interface nodes among `children` stand for,
    /// in order.
    pub open spec fn all_of(children: Seq<Node>) -> Seq<InterfaceView> {
        children_of_kind(children, NodeKind::Interface).map_values(
            |n: Node| InterfaceView::of_children(n.children@),
        )
    }

    /// The line that tags the declaration with the unique identifier;
    /// nothing where there is none.
    pub open spec fn uuid_line(self) -> Seq<char> {
        match self.uuid {
            Some(uuid) => "#[com_interface(\""@ + uuid + "\")]\n"@,
            None => Seq::empty(),
        }
    }

    /// The opening of the declaration: the tag, then the line that names the
    /// interface and the parent that it extends.
    pub open spec fn head(self) -> Seq<char> {
        self.uuid_line() + "pub trait "@ + self.name + ": "@ + self.parent + " {\n"@
    }

    /// The body of the declaration: the opening, the methods with one empty
    /// line between each two, and the closing line.
    pub open spec fn body(self) -> Seq<char> {
        self.head() + joined(MethodView::texts(self.methods), "\n"@) + "}\n"@
    }

    /// The declaration: the body, then the enumerations and after them the
    /// structures, each after an empty line.
    pub open spec fn declaration(self) -> Seq<char> {
        self.body() + prefixed(TypedefEnumView::texts(self.enums), "\n"@) + prefixed(
            TypedefStructView::texts(self.structs),
            "\n"@,
        )
    }

    /// The rendered interface: its doc comment as it is, then its
    /// declaration.
    pub open spec fn text(self) -> Seq<char> {
        doc_text(self.doc_comment) + self.declaration()
    }

    /// The rendered texts of the interfaces, in order.
    pub open spec fn texts(interfaces: Seq<InterfaceView>) -> Seq<Seq<char>> {
        Seq::new(interfaces.len(), |i: int| interfaces[i].text())
    }
}

impl Default for Interface {
    fn default() -> (result: Interface)
        ensures
            result@ == InterfaceView::empty(),
    {
        let result = Interface {
            doc_comment: None,
            name: String::new(),
            parent: String::new(),
            uuid: None,
            attributes: Vec::new(),
            enums: Vec::new(),
            structs: Vec::new(),
            methods: Vec::new(),
        };
        assert(result@.attributes =~= Seq::empty());
        assert(result@.enums =~= Seq::empty());
        assert(result@.structs =~= Seq::empty());
        assert(result@.methods =~= Seq::empty());
        result
    }
}

impl Interface {
    /// Builds the interface that an interface node stands for.
    pub fn from_pest(node: &Node) -> (result: Interface)
        requires
            node.kind == NodeKind::Interface,
        ensures
            result@ == InterfaceView::of_children(node.children@),
    {
        let ghost children = node.children@;
        let mut doc_comment: Option<String> = None;
        let mut name = String::new();
        let mut parent = String::new();
        let mut uuid: Option<String> = None;
        let mut attributes: Vec<String> = Vec::new();
        let mut enums: Vec<TypedefEnum> = Vec::new();
        let mut structs: Vec<TypedefStruct> = Vec::new();
        let mut methods: Vec<Method> = Vec::new();
        proof {
            lemma_select_none(children, NodeKind::DocComment);
            lemma_select_none(children, NodeKind::Uuid);
            lemma_select_none(children, NodeKind::OtherAttribute);
            lemma_select_none(children, NodeKind::InterfaceName);
            lemma_select_none(children, NodeKind::Parent);
            lemma_select_none(children, NodeKind::Method);
            lemma_select_none(children, NodeKind::TypedefEnum);
            lemma_select_none(children, NodeKind::TypedefStruct);
            assert(views(attributes@) =~= Seq::empty());
            assert(views(enums@) =~= TypedefEnumView::all_of(children.take(0)));
            assert(views(structs@) =~= TypedefStructView::all_of(children.take(0)));
            assert(views(methods@) =~= MethodView::all_of(children.take(0)));
        }
        let mut i: usize = 0;
        while i < node.children.len()
            invariant
                i <= node.children.len(),
                children == node.children@,
                option_view(doc_comment) == doc_comment_of(children.take(i as int)),
                name@ == last_text_of_kind(children.take(i as int), NodeKind::InterfaceName),
                parent@ == last_text_of_kind(children.take(i as int), NodeKind::Parent),
                option_view(uuid) == last_text_if_any(children.take(i as int), NodeKind::Uuid),
                views(attributes@) == texts_of_kind(
                    children.take(i as int),
                    NodeKind::OtherAttribute,
                ),
                views(enums@) == TypedefEnumView::all_of(children.take(i as int)),
                views(structs@) == TypedefStructView::all_of(children.take(i as int)),
                views(methods@) == MethodView::all_of(children.take(i as int)),
            decreases node.children.len() - i,
        {
            let child = &node.children[i];
            proof {
                lemma_select_step(children, i as int, NodeKind::DocComment);
                lemma_select_step(children, i as int, NodeKind::Uuid);
                lemma_select_step(children, i as int, NodeKind::OtherAttribute);
                lemma_select_step(children, i as int, NodeKind::InterfaceName);
                lemma_select_step(children, i as int, NodeKind::Parent);
                lemma_select_step(children, i as int, NodeKind::Method);
                lemma_select_step(children, i as int, NodeKind::TypedefEnum);
                lemma_select_step(children, i as int, NodeKind::TypedefStruct);
            }
            match child.kind {
                NodeKind::DocComment => {
                    doc_comment = Some(trim_end(child.text.as_str()));
                },
                NodeKind::Uuid => {
                    uuid = Some(child.text.clone());
                },
                NodeKind::OtherAttribute => {
                    let ghost before = views(attributes@);
                    attributes.push(child.text.clone());
                    assert(views(attributes@) =~= before.push(child.text@));
                },
                NodeKind::InterfaceName => {
                    name = child.text.clone();
                },
                NodeKind::Parent => {
                    parent = child.text.clone();
                },
                NodeKind::Method => {
                    let ghost before = views(methods@);
                    let method = Method::from_pest(child);
                    methods.push(method);
                    assert(views(methods@) =~= before.push(
                        MethodView::of_children(child.children@),
                    ));
                    assert(views(methods@) =~= MethodView::all_of(children.take(i as int + 1)));
                },
                NodeKind::TypedefEnum => {
                    let ghost before = views(enums@);
                    let typedef = TypedefEnum::from_pest(child);
                    enums.push(typedef);
                    assert(views(enums@) =~= before.push(
                        TypedefEnumView::of_children(child.children@),
                    ));
                    assert(views(enums@) =~= TypedefEnumView::all_of(
                        children.take(i as int + 1),
                    ));
                },
                NodeKind::TypedefStruct => {
                    let ghost before = views(structs@);
                    let typedef = TypedefStruct::from_pest(child);
                    structs.push(typedef);
                    assert(views(structs@) =~= before.push(
                        TypedefStructView::of_children(child.children@),
                    ));
                    assert(views(structs@) =~= TypedefStructView::all_of(
                        children.take(i as int + 1),
                    ));
                },
                _ => {},
            }
            i = i + 1;
        }
        proof {
            assert(children.take(i as int) =~= children);
        }
        Interface { doc_comment, name, parent, uuid, attributes, enums, structs, methods }
    }

    /// Appends the opening of the declaration to `w`: the tag with the
    /// unique identifier, if there is one, and the line that names the
    /// interface and its parent.
    fn render_head(&self, w: &mut String)
        ensures
            final(w)@ == old(w)@ + self@.head(),
    {
        match &self.uuid {
            Some(uuid) => {
                w.append("#[com_interface(\"");
                w.append(uuid.as_str());
                w.append("\")]\n");
                assert(w@ =~= old(w)@ + self@.uuid_line());
            },
            None => {
                assert(w@ =~= old(w)@ + self@.uuid_line());
            },
        }
        w.append("pub trait ");
        w.append(self.name.as_str());
        w.append(": ");
        w.append(self.parent.as_str());
        w.append(" {\n");
        assert(w@ =~= old(w)@ + self@.head());
    }

    /// Appends the rendered interface to `w`: its doc comment, the tag with
    /// its unique identifier, its declaration with the methods one empty
    /// line apart, and after it the enumerations and then the structures
    /// declared in it, each after an empty line.
    pub fn render(&self, w: &mut String)
        ensures
            final(w)@ == old(w)@ + self@.text(),
    {
        push_doc_comment(w, &self.doc_comment);
        self.render_head(w);
        let ghost start = old(w)@ + doc_text(self@.doc_comment) + self@.head();
        let ghost method_texts = MethodView::texts(self@.methods);
        assert(w@ =~= start);
        let mut first = true;
        let mut i: usize = 0;
        while i < self.methods.len()
            invariant
                i <= self.methods.len(),
                first == (i == 0),
                method_texts == MethodView::texts(self@.methods),
                method_texts.len() == self.methods.len(),
                w@ == start + joined(method_texts.take(i as int), "\n"@),
            decreases self.methods.len() - i,
        {
            proof {
                lemma_joined_step(method_texts, "\n"@, i as int);
            }
            if first {
                first = false;
            } else {
                w.append("\n");
            }
            self.methods[i].render(w);
            i = i + 1;
            assert(w@ =~= start + joined(method_texts.take(i as int), "\n"@));
        }
        proof {
            assert(method_texts.take(i as int) =~= method_texts);
        }
        w.append("}\n");
        let ghost after_body = old(w)@ + doc_text(self@.doc_comment) + self@.body();
        assert(w@ =~= after_body);

        let ghost enum_texts = TypedefEnumView::texts(self@.enums);
        let mut j: usize = 0;
        while j < self.enums.len()
            invariant
                j <= self.enums.len(),
                enum_texts == TypedefEnumView::texts(self@.enums),
                enum_texts.len() == self.enums.len(),
                w@ == after_body + prefixed(enum_texts.take(j as int), "\n"@),
            decreases self.enums.len() - j,
        {
            proof {
                lemma_prefixed_step(enum_texts, "\n"@, j as int);
            }
            w.append("\n");
            self.enums[j].render(w);
            j = j + 1;
            assert(w@ =~= after_body + prefixed(enum_texts.take(j as int), "\n"@));
        }
        proof {
            assert(enum_texts.take(j as int) =~= enum_texts);
        }
        let ghost after_enums = after_body + prefixed(enum_texts, "\n"@);

        let ghost struct_texts = TypedefStructView::texts(self@.structs);
        let mut k: usize = 0;
        while k < self.structs.len()
            invariant
                k <= self.structs.len(),
                struct_texts == TypedefStructView::texts(self@.structs),
                struct_texts.len() == self.structs.len(),
                w@ == after_enums + prefixed(struct_texts.take(k as int), "\n"@),
            decreases self.structs.len() - k,
        {
            proof {
                lemma_prefixed_step(struct_texts, "\n"@, k as int);
            }
            w.append("\n");
            self.structs[k].render(w);
            k = k + 1;
            assert(w@ =~= after_enums + prefixed(struct_texts.take(k as int), "\n"@));
        }
        proof {
            assert(struct_texts.take(k as int) =~= struct_texts);
        }
        assert(w@ =~= old(w)@ + self@.text());
    }
}

/// A declaration without a doc comment renders as the declaration alone,
/// with nothing before it; one with a doc comment renders as the comment,
/// character for character, and then the declaration.
pub proof fn lemma_doc_comment_rendered(
    interface: InterfaceView,
    method: MethodView,
    typedef_enum: TypedefEnumView,
    variant: VariantView,
    typedef_struct: TypedefStructView,
    field: FieldView,
)
    ensures
        interface.text() == match interface.doc_comment {
            Some(doc) => doc + interface.declaration(),
            None => interface.declaration(),
        },
        method.text() == match method.doc_comment {
            Some(doc) => doc + method.signature(),
            None => method.signature(),
        },
        typedef_enum.text() == match typedef_enum.doc_comment {
            Some(doc) => doc + typedef_enum.declaration(),
            None => typedef_enum.declaration(),
        },
        variant.text() == match variant.doc_comment {
            Some(doc) => doc + variant.declaration(),
            None => variant.declaration(),
        },
        typedef_struct.text() == match typedef_struct.doc_comment {
            Some(doc) => doc + typedef_struct.declaration(),
            None => typedef_struct.declaration(),
        },
        field.text() == match field.doc_comment {
            Some(doc) => doc + field.declaration(),
            None => field.declaration(),
        },
{
    assert(Seq::<char>::empty() + interface.declaration() =~= interface.declaration());
    assert(Seq::<char>::empty() + method.signature() =~= method.signature());
    assert(Seq::<char>::empty() + typedef_enum.declaration() =~= typedef_enum.declaration());
    assert(Seq::<char>::empty() + variant.declaration() =~= variant.declaration());
    assert(Seq::<char>::empty() + typedef_struct.declaration() =~= typedef_struct.declaration());
    assert(Seq::<char>::empty() + field.declaration() =~= field.declaration());
}

} // verus!
