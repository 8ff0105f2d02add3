//! Enumerations and structures declared inside an interface.

use crate::text::{
    concatenated, doc_text, lemma_prefixed_step, option_view, push_doc_comment, trim_end, views,
};
use crate::tree::{
    children_of_kind, doc_comment_of, last_text_of_kind, lemma_select_none, lemma_select_step,
    Node, NodeKind,
};
use crate::types::{Type, TypeView};
use vstd::prelude::*;

verus! {

/// One variant of an enumeration.
#[derive(Clone, Debug, PartialEq, Eq)]
pub struct Variant {
    pub doc_comment: Option<String>,
    pub name: String,
}

/// The mathematical value of a `Variant`.
pub struct VariantView {
    pub doc_comment: Option<Seq<char>>,
    pub name: Seq<char>,
}

impl View for Variant {
    type V = VariantView;

    open spec fn view(&self) -> VariantView {
        VariantView { doc_comment: option_view(self.doc_comment), name: self.name@ }
    }
}

impl VariantView {
    /// The variant that the children of a variant node stand for: the last
    /// doc comment and the last identifier.
    pub open spec fn of_children(children: Seq<Node>) -> VariantView {
        VariantView {
            doc_comment: doc_comment_of(children),
            name: last_text_of_kind(children, NodeKind::Identifier),
        }
    }

    /// The variants that the variant nodes among `children` stand for, in
    /// order.
    pub open spec fn all_of(children: Seq<Node>) -> Seq<VariantView> {
        children_of_kind(children, NodeKind::Variant).map_values(
            |n: Node| VariantView::of_children(n.children@),
        )
    }

    /// The line that declares the variant: its name, indented, and a comma.
    pub open spec fn declaration(self) -> Seq<char> {
        "    "@ + self.name + ",\n"@
    }

    /// The rendered variant: its doc comment as it is, then its line.
    pub open spec fn text(self) -> Seq<char> {
        doc_text(self.doc_comment) + self.declaration()
    }

    /// The rendered texts of the variants, in order.
    pub open spec fn texts(variants: Seq<VariantView>) -> Seq<Seq<char>> {
        Seq::new(variants.len(), |i: int| variants[i].text())
    }
}

impl Default for Variant {
    fn default() -> (result: Variant)
        ensures
            result@ == (VariantView { doc_comment: None, name: Seq::empty() }),
    {
        Variant { doc_comment: None, name: String::new() }
    }
}

impl Variant {
    /// Builds the variant that a variant node stands for.
    pub fn from_pest(node: &Node) -> (result: Variant)
        requires
            node.kind == NodeKind::Variant,
        ensures
            result@ == VariantView::of_children(node.children@),
    {
        let ghost children = node.children@;
        let mut doc_comment: Option<String> = None;
        let mut name = String::new();
        proof {
            lemma_select_none(children, NodeKind::DocComment);
            lemma_select_none(children, NodeKind::Identifier);
        }
        let mut i: usize = 0;
        while i < node.children.len()
            invariant
                i <= node.children.len(),
                children == node.children@,
                option_view(doc_comment) == doc_comment_of(children.take(i as int)),
                name@ == last_text_of_kind(children.take(i as int), NodeKind::Identifier),
            decreases node.children.len() - i,
        {
            let child = &node.children[i];
            proof {
                lemma_select_step(children, i as int, NodeKind::DocComment);
                lemma_select_step(children, i as int, NodeKind::Identifier);
            }
            match child.kind {
                NodeKind::DocComment => {
                    doc_comment = Some(trim_end(child.text.as_str()));
                },
                NodeKind::Identifier => {
                    name = child.text.clone();
                },
                _ => {},
            }
            i = i + 1;
        }
        proof {
            assert(children.take(i as int) =~= children);
        }
        Variant { doc_comment, name }
    }

    /// Appends the rendered variant to `w`: its doc comment, then its name
    /// on a line of its own.
    pub fn render(&self, w: &mut String)
        ensures
            final(w)@ == old(w)@ + self@.text(),
    {
        push_doc_comment(w, &self.doc_comment);
        w.append("    ");
        w.append(self.name.as_str());
        w.append(",\n");
        assert(w@ =~= old(w)@ + self@.text());
    }
}

/// An enumeration: its doc comment, name and variants in source order.
#[derive(Clone, Debug, PartialEq, Eq)]
pub struct TypedefEnum {
    pub doc_comment: Option<String>,
    pub name: String,
    pub variants: Vec<Variant>,
}

/// The mathematical value of a `TypedefEnum`.
pub struct TypedefEnumView {
    pub doc_comment: Option<Seq<char>>,
    pub name: Seq<char>,
    pub variants: Seq<VariantView>,
}

impl View for TypedefEnum {
    type V = TypedefEnumView;

    open spec fn view(&self) -> TypedefEnumView {
        TypedefEnumView {
            doc_comment: option_view(self.doc_comment),
            name: self.name@,
            variants: views(self.variants@),
        }
    }
}

impl TypedefEnumView {
    /// The enumeration without doc comment, name and variants.
    pub open spec fn empty() -> TypedefEnumView {
        TypedefEnumView { doc_comment: None, name: Seq::empty(), variants: Seq::empty() }
    }

    /// The enumeration that the children of an enumeration node stand for:
    /// the last doc comment, the last identifier, and all variants in order.
    pub open spec fn of_children(children: Seq<Node>) -> TypedefEnumView {
        TypedefEnumView {
            doc_comment: doc_comment_of(children),
            name: last_text_of_kind(children, NodeKind::Identifier),
            variants: VariantView::all_of(children),
        }
    }

    /// The enumerations that the enumeration nodes among `children` stand
    /// for, in order.
    pub open spec fn all_of(children: Seq<Node>) -> Seq<TypedefEnumView> {
        children_of_kind(children, NodeKind::TypedefEnum).map_values(
            |n: Node| TypedefEnumView::of_children(n.children@),
        )
    }

    /// The opening of the declaration: the width of the discriminant, then
    /// the line that names the enumeration.
    pub open spec fn head(self) -> Seq<char> {
        "#[repr(u32)]\n"@ + "pub enum "@ + self.name + " {\n"@
    }

    /// The declaration: the opening, one variant after the other, and the
    /// closing line.
    pub open spec fn declaration(self) -> Seq<char> {
        self.head() + concatenated(VariantView::texts(self.variants)) + "}\n"@
    }

    /// The rendered enumeration: its doc comment as it is, then its
    /// declaration.
    pub open spec fn text(self) -> Seq<char> {
        doc_text(self.doc_comment) + self.declaration()
    }

    /// The rendered texts of the enumerations, in order.
    pub open spec fn texts(enums: Seq<TypedefEnumView>) -> Seq<Seq<char>> {
        Seq::new(enums.len(), |i: int| enums[i].text())
    }
}

impl Default for TypedefEnum {
    fn default() -> (result: TypedefEnum)
        ensures
            result@ == TypedefEnumView::empty(),
    {
        let result = TypedefEnum { doc_comment: None, name: String::new(), variants: Vec::new() };
        assert(result@.variants =~= Seq::empty());
        result
    }
}

impl TypedefEnum {
    /// Builds the enumeration that an enumeration node stands for.
    pub fn from_pest(node: &Node) -> (result: TypedefEnum)
        requires
            node.kind == NodeKind::TypedefEnum,
        ensures
            result@ == TypedefEnumView::of_children(node.children@),
    {
        let ghost children = node.children@;
        let mut doc_comment: Option<String> = None;
        let mut name = String::new();
        let mut variants: Vec<Variant> = Vec::new();
        proof {
            lemma_select_none(children, NodeKind::DocComment);
            lemma_select_none(children, NodeKind::Identifier);
            lemma_select_none(children, NodeKind::Variant);
            assert(views(variants@) =~= VariantView::all_of(children.take(0)));
        }
        let mut i: usize = 0;
        while i < node.children.len()
            invariant
                i <= node.children.len(),
                children == node.children@,
                option_view(doc_comment) == doc_comment_of(children.take(i as int)),
                name@ == last_text_of_kind(children.take(i as int), NodeKind::Identifier),
                views(variants@) == VariantView::all_of(children.take(i as int)),
            decreases node.children.len() - i,
        {
            let child = &node.children[i];
            proof {
                lemma_select_step(children, i as int, NodeKind::DocComment);
                lemma_select_step(children, i as int, NodeKind::Identifier);
                lemma_select_step(children, i as int, NodeKind::Variant);
            }
            match child.kind {
                NodeKind::DocComment => {
                    doc_comment = Some(trim_end(child.text.as_str()));
                },
                NodeKind::Identifier => {
                    name = child.text.clone();
                },
                NodeKind::Variant => {
                    let ghost before = views(variants@);
                    let variant = Variant::from_pest(child);
                    variants.push(variant);
                    assert(views(variants@) =~= before.push(
                        VariantView::of_children(child.children@),
                    ));
                    assert(views(variants@) =~= VariantView::all_of(children.take(i as int + 1)));
                },
                _ => {},
            }
            i = i + 1;
        }
        proof {
            assert(children.take(i as int) =~= children);
        }
        TypedefEnum { doc_comment, name, variants }
    }

    /// Appends the rendered enumeration to `w`: its doc comment, the width
    /// of its discriminant, and its declaration with one line for each
    /// variant.
    pub fn render(&self, w: &mut String)
        ensures
            final(w)@ == old(w)@ + self@.text(),
    {
        push_doc_comment(w, &self.doc_comment);
        w.append("#[repr(u32)]\n");
        w.append("pub enum ");
        w.append(self.name.as_str());
        w.append(" {\n");
        let ghost start = old(w)@ + doc_text(self@.doc_comment) + self@.head();
        let ghost texts = VariantView::texts(self@.variants);
        assert(w@ =~= start);
        let mut i: usize = 0;
        while i < self.variants.len()
            invariant
                i <= self.variants.len(),
                texts == VariantView::texts(self@.variants),
                texts.len() == self.variants.len(),
                w@ == start + concatenated(texts.take(i as int)),
            decreases self.variants.len() - i,
        {
            proof {
                lemma_prefixed_step(texts, Seq::empty(), i as int);
            }
            self.variants[i].render(w);
            i = i + 1;
            assert(w@ =~= start + concatenated(texts.take(i as int)));
        }
        proof {
            assert(texts.take(i as int) =~= texts);
        }
        w.append("}\n");
        assert(w@ =~= old(w)@ + self@.text());
    }
}

/// One field of a structure.
#[derive(Clone, Debug, PartialEq, Eq)]
pub struct Field {
    pub doc_comment: Option<String>,
    pub name: String,
    pub ty: Type,
}

/// The mathematical value of a `Field`.
pub struct FieldView {
    pub doc_comment: Option<Seq<char>>,
    pub name: Seq<char>,
    pub ty: TypeView,
}

impl View for Field {
    type V = FieldView;

    open spec fn view(&self) -> FieldView {
        FieldView { doc_comment: option_view(self.doc_comment), name: self.name@, ty: self.ty@ }
    }
}

impl FieldView {
    /// The field without doc comment, name and type.
    pub open spec fn empty() -> FieldView {
        FieldView { doc_comment: None, name: Seq::empty(), ty: TypeView::empty() }
    }

    /// The field that the children of a field node stand for: the last doc
    /// comment, the last type and the last identifier.
    pub open spec fn of_children(children: Seq<Node>) -> FieldView {
        FieldView {
            doc_comment: doc_comment_of(children),
            name: last_text_of_kind(children, NodeKind::Identifier),
            ty: TypeView::of_last_type(children),
        }
    }

    /// The fields that the field nodes among `children` stand for, in order.
    pub open spec fn all_of(children: Seq<Node>) -> Seq<FieldView> {
        children_of_kind(children, NodeKind::Field).map_values(
            |n: Node| FieldView::of_children(n.children@),
        )
    }

    /// The line that declares the field: its name, indented, a colon, its
    /// type and a comma.
    pub open spec fn declaration(self) -> Seq<char> {
        "    "@ + self.name + ": "@ + self.ty.text() + ",\n"@
    }

    /// The rendered field: its doc comment as it is, then its line.
    pub open spec fn text(self) -> Seq<char> {
        doc_text(self.doc_comment) + self.declaration()
    }

    /// The rendered texts of the fields, in order.
    pub open spec fn texts(fields: Seq<FieldView>) -> Seq<Seq<char>> {
        Seq::new(fields.len(), |i: int| fields[i].text())
    }
}

impl Default for Field {
    fn default() -> (result: Field)
        ensures
            result@ == FieldView::empty(),
    {
        Field { doc_comment: None, name: String::new(), ty: Type::default() }
    }
}

impl Field {
    /// Builds the field that a field node stands for.
    pub fn from_pest(node: &Node) -> (result: Field)
        requires
            node.kind == NodeKind::Field,
        ensures
            result@ == FieldView::of_children(node.children@),
    {
        let ghost children = node.children@;
        let mut doc_comment: Option<String> = None;
        let mut name = String::new();
        let mut ty = Type::default();
        proof {
            lemma_select_none(children, NodeKind::DocComment);
            lemma_select_none(children, NodeKind::Type);
            lemma_select_none(children, NodeKind::Identifier);
        }
        let mut i: usize = 0;
        while i < node.children.len()
            invariant
                i <= node.children.len(),
                children == node.children@,
                option_view(doc_comment) == doc_comment_of(children.take(i as int)),
                name@ == last_text_of_kind(children.take(i as int), NodeKind::Identifier),
                ty@ == TypeView::of_last_type(children.take(i as int)),
            decreases node.children.len() - i,
        {
            let child = &node.children[i];
            proof {
                lemma_select_step(children, i as int, NodeKind::DocComment);
                lemma_select_step(children, i as int, NodeKind::Type);
                lemma_select_step(children, i as int, NodeKind::Identifier);
            }
            match child.kind {
                NodeKind::DocComment => {
                    doc_comment = Some(trim_end(child.text.as_str()));
                },
                NodeKind::Type => {
                    ty = Type::from_pest(child);
                },
                NodeKind::Identifier => {
                    name = child.text.clone();
                },
                _ => {},
            }
            i = i + 1;
        }
        proof {
            assert(children.take(i as int) =~= children);
        }
        Field { doc_comment, name, ty }
    }

    /// Appends the rendered field to `w`: its doc comment, then its name and
    /// type on a line of their own.
    pub fn render(&self, w: &mut String)
        ensures
            final(w)@ == old(w)@ + self@.text(),
    {
        push_doc_comment(w, &self.doc_comment);
        w.append("    ");
        w.append(self.name.as_str());
        w.append(": ");
        self.ty.render(w);
        w.append(",\n");
        assert(w@ =~= old(w)@ + self@.text());
    }
}

/// A structure: its doc comment, name and fields in source order.
#[derive(Clone, Debug, PartialEq, Eq)]
pub struct TypedefStruct {
    pub doc_comment: Option<String>,
    pub name: String,
    pub fields: Vec<Field>,
}

/// The mathematical value of a `TypedefStruct`.
pub struct TypedefStructView {
    pub doc_comment: Option<Seq<char>>,
    pub name: Seq<char>,
    pub fields: Seq<FieldView>,
}

impl View for TypedefStruct {
    type V = TypedefStructView;

    open spec fn view(&self) -> TypedefStructView {
        TypedefStructView {
            doc_comment: option_view(self.doc_comment),
            name: self.name@,
            fields: views(self.fields@),
        }
    }
}

impl TypedefStructView {
    /// The structure without doc comment, name and fields.
    pub open spec fn empty() -> TypedefStructView {
        TypedefStructView { doc_comment: None, name: Seq::empty(), fields: Seq::empty() }
    }

    /// The structure that the children of a structure node stand for: the
    /// last doc comment, the last identifier, and all fields in order.
    pub open spec fn of_children(children: Seq<Node>) -> TypedefStructView {
        TypedefStructView {
            doc_comment: doc_comment_of(children),
            name: last_text_of_kind(children, NodeKind::Identifier),
            fields: FieldView::all_of(children),
        }
    }

    /// The structures that the structure nodes among `children` stand for,
    /// in order.
    pub open spec fn all_of(children: Seq<Node>) -> Seq<TypedefStructView> {
        children_of_kind(children, NodeKind::TypedefStruct).map_values(
            |n: Node| TypedefStructView::of_children(n.children@),
        )
    }

    /// The opening of the declaration: the memory layout, then the line that
    /// names the structure.
    pub open spec fn head(self) -> Seq<char> {
        "#[repr(C)]\n"@ + "pub struct "@ + self.name + " {\n"@
    }

    /// The declaration: the opening, one field after the other, and the
    /// closing line.
    pub open spec fn declaration(self) -> Seq<char> {
        self.head() + concatenated(FieldView::texts(self.fields)) + "}\n"@
    }

    /// The rendered structure: its doc comment as it is, then its
    /// declaration.
    pub open spec fn text(self) -> Seq<char> {
        doc_text(self.doc_comment) + self.declaration()
    }

    /// The rendered texts of the structures, in order.
    pub open spec fn texts(structs: Seq<TypedefStructView>) -> Seq<Seq<char>> {
        Seq::new(structs.len(), |i: int| structs[i].text())
    }
}

impl Default for TypedefStruct {
    fn default() -> (result: TypedefStruct)
        ensures
            result@ == TypedefStructView::empty(),
    {
        let result = TypedefStruct { doc_comment: None, name: String::new(), fields: Vec::new() };
        assert(result@.fields =~= Seq::empty());
        result
    }
}

impl TypedefStruct {
    /// Builds the structure that a structure node stands for.
    pub fn from_pest(node: &Node) -> (result: TypedefStruct)
        requires
            node.kind == NodeKind::TypedefStruct,
        ensures
            result@ == TypedefStructView::of_children(node.children@),
    {
        let ghost children = node.children@;
        let mut doc_comment: Option<String> = None;
        let mut name = String::new();
        let mut fields: Vec<Field> = Vec::new();
        proof {
            lemma_select_none(children, NodeKind::DocComment);
            lemma_select_none(children, NodeKind::Identifier);
            lemma_select_none(children, NodeKind::Field);
            assert(views(fields@) =~= FieldView::all_of(children.take(0)));
        }
        let mut i: usize = 0;
        while i < node.children.len()
            invariant
                i <= node.children.len(),
                children == node.children@,
                option_view(doc_comment) == doc_comment_of(children.take(i as int)),
                name@ == last_text_of_kind(children.take(i as int), NodeKind::Identifier),
                views(fields@) == FieldView::all_of(children.take(i as int)),
            decreases node.children.len() - i,
        {
            let child = &node.children[i];
            proof {
                lemma_select_step(children, i as int, NodeKind::DocComment);
                lemma_select_step(children, i as int, NodeKind::Identifier);
                lemma_select_step(children, i as int, NodeKind::Field);
            }
            match child.kind {
                NodeKind::DocComment => {
                    doc_comment = Some(trim_end(child.text.as_str()));
                },
                NodeKind::Identifier => {
                    name = child.text.clone();
                },
                NodeKind::Field => {
                    let ghost before = views(fields@);
                    let field = Field::from_pest(child);
                    fields.push(field);
                    assert(views(fields@) =~= before.push(FieldView::of_children(child.children@)));
                    assert(views(fields@) =~= FieldView::all_of(children.take(i as int + 1)));
                },
                _ => {},
            }
            i = i + 1;
        }
        proof {
            assert(children.take(i as int) =~= children);
        }
        TypedefStruct { doc_comment, name, fields }
    }

    /// Appends the rendered structure to `w`: its doc comment, its memory
    /// layout, and its declaration with one line for each field.
    pub fn render(&self, w: &mut String)
        ensures
            final(w)@ == old(w)@ + self@.text(),
    {
        push_doc_comment(w, &self.doc_comment);
        w.append("#[repr(C)]\n");
        w.append("pub struct ");
        w.append(self.name.as_str());
        w.append(" {\n");
        let ghost start = old(w)@ + doc_text(self@.doc_comment) + self@.head();
        let ghost texts = FieldView::texts(self@.fields);
        assert(w@ =~= start);
        let mut i: usize = 0;
        while i < self.fields.len()
            invariant
                i <= self.fields.len(),
                texts == FieldView::texts(self@.fields),
                texts.len() == self.fields.len(),
                w@ == start + concatenated(texts.take(i as int)),
            decreases self.fields.len() - i,
        {
            proof {
                lemma_prefixed_step(texts, Seq::empty(), i as int);
            }
            self.fields[i].render(w);
            i = i + 1;
            assert(w@ =~= start + concatenated(texts.take(i as int)));
        }
        proof {
            assert(texts.take(i as int) =~= texts);
        }
        w.append("}\n");
        assert(w@ =~= old(w)@ + self@.text());
    }
}

} // verus!
