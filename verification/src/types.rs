//! Type references: how a type node of the parse tree resolves to a base
//! type and a list of modifiers, and how the result is written out.

use crate::text::{
    ascii_lower, eq_ignore_ascii_case, equals_ignore_ascii_case, starts_with_char,
};
use crate::tree::{last_of_kind, lemma_select_none, lemma_select_step, Node, NodeKind};
use vstd::prelude::*;

verus! {

/// A qualifier of a type. Only `Pointer` shows in the rendered text.
#[derive(Clone, Copy, Debug, PartialEq, Eq, Structural)]
pub enum Modifier {
    Pointer,
    Const,
}

/// A resolved type: the name of its base type and its modifiers, outermost
/// first.
#[derive(Clone, Debug, PartialEq, Eq)]
pub struct Type {
    pub base_type: String,
    pub modifiers: Vec<Modifier>,
}

/// The mathematical value of a `Type`.
pub struct TypeView {
    pub base_type: Seq<char>,
    pub modifiers: Seq<Modifier>,
}

impl View for Type {
    type V = TypeView;

    open spec fn view(&self) -> TypeView {
        TypeView { base_type: self.base_type@, modifiers: self.modifiers@ }
    }
}

/// Whether `identifier` is a spelling of `int`, in any letter case.
pub open spec fn is_int_name(identifier: Seq<char>) -> bool {
    eq_ignore_ascii_case(identifier, "int"@)
}

/// Whether `identifier` is a spelling of `double`, in any letter case.
pub open spec fn is_double_name(identifier: Seq<char>) -> bool {
    eq_ignore_ascii_case(identifier, "double"@)
}

/// Whether `identifier` refers to an interface: it starts with an uppercase
/// `I` and is neither `int` nor `double`.
pub open spec fn is_interface_name(identifier: Seq<char>) -> bool {
    &&& !is_int_name(identifier)
    &&& !is_double_name(identifier)
    &&& identifier.len() > 0
    &&& identifier[0] == 'I'
}

/// The base type that a base identifier stands for.
pub open spec fn resolved_base(identifier: Seq<char>) -> Seq<char> {
    if is_int_name(identifier) {
        "i32"@
    } else if is_double_name(identifier) {
        "f64"@
    } else if is_interface_name(identifier) {
        identifier + "VTable"@
    } else {
        identifier
    }
}

/// The modifiers that a base identifier brings by itself: a reference to an
/// interface is a pointer to its dispatch table.
pub open spec fn implicit_modifiers(identifier: Seq<char>) -> Seq<Modifier> {
    if is_interface_name(identifier) {
        seq![Modifier::Pointer]
    } else {
        Seq::empty()
    }
}

/// The type that a base identifier and the explicit modifiers after it, in
/// source order, resolve to. The implicit modifier comes before the explicit
/// ones, and the whole list is reversed once, so that it reads outermost
/// first.
pub open spec fn resolved_type(identifier: Seq<char>, explicit: Seq<Modifier>) -> TypeView {
    TypeView {
        base_type: resolved_base(identifier),
        modifiers: (implicit_modifiers(identifier) + explicit).reverse(),
    }
}

/// The modifier that a node of the given kind stands for, if any.
pub open spec fn modifier_of(kind: NodeKind) -> Option<Modifier> {
    match kind {
        NodeKind::Pointer => Some(Modifier::Pointer),
        NodeKind::Const => Some(Modifier::Const),
        _ => None,
    }
}

/// The modifiers written out among `children`, in source order.
pub open spec fn explicit_modifiers(children: Seq<Node>) -> Seq<Modifier> {
    children.filter_map(|n: Node| modifier_of(n.kind))
}

/// The text of the modifiers: one pointer mark for each `Pointer`, in order.
pub open spec fn pointer_marks(modifiers: Seq<Modifier>) -> Seq<char>
    decreases modifiers.len(),
{
    if modifiers.len() == 0 {
        Seq::empty()
    } else if modifiers.last() == Modifier::Pointer {
        pointer_marks(modifiers.drop_last()) + "*mut "@
    } else {
        pointer_marks(modifiers.drop_last())
    }
}

impl TypeView {
    /// The type without a base and without modifiers.
    pub open spec fn empty() -> TypeView {
        TypeView { base_type: Seq::empty(), modifiers: Seq::empty() }
    }

    /// The type that the children of a type node resolve to. The base
    /// identifier is the last identifier among them; without one the base
    /// type stays empty.
    pub open spec fn of_children(children: Seq<Node>) -> TypeView {
        match last_of_kind(children, NodeKind::Identifier) {
            Some(identifier) => resolved_type(identifier.text@, explicit_modifiers(children)),
            None => TypeView {
                base_type: Seq::empty(),
                modifiers: explicit_modifiers(children).reverse(),
            },
        }
    }

    /// The type of the last type node among `children`; the empty type if
    /// there is none.
    pub open spec fn of_last_type(children: Seq<Node>) -> TypeView {
        match last_of_kind(children, NodeKind::Type) {
            Some(node) => TypeView::of_children(node.children@),
            None => TypeView::empty(),
        }
    }

    /// The rendered type: the pointer marks, then the base type.
    pub open spec fn text(self) -> Seq<char> {
        pointer_marks(self.modifiers) + self.base_type
    }
}

/// Resolves a base identifier: returns the name of the base type and whether
/// the identifier refers to an interface.
pub fn resolve_base(identifier: &str) -> (resolved: (String, bool))
    ensures
        resolved.0@ == resolved_base(identifier@),
        resolved.1 == is_interface_name(identifier@),
{
    if equals_ignore_ascii_case(identifier, "int") {
        (String::from_str("i32"), false)
    } else if equals_ignore_ascii_case(identifier, "double") {
        (String::from_str("f64"), false)
    } else if starts_with_char(identifier, 'I') {
        let mut name = String::from_str(identifier);
        name.append("VTable");
        (name, true)
    } else {
        (String::from_str(identifier), false)
    }
}

/// The modifiers in the opposite order.
pub fn reversed(modifiers: &Vec<Modifier>) -> (result: Vec<Modifier>)
    ensures
        result@ == modifiers@.reverse(),
{
    let mut result: Vec<Modifier> = Vec::new();
    let mut i: usize = modifiers.len();
    while i > 0
        invariant
            i <= modifiers.len(),
            result.len() == modifiers.len() - i,
            forall|j: int|
                0 <= j < result.len() ==> result@[j] == modifiers@[modifiers.len() - 1 - j],
        decreases i,
    {
        i = i - 1;
        result.push(modifiers[i]);
    }
    assert(result@ =~= modifiers@.reverse());
    result
}

impl Default for Type {
    fn default() -> (result: Type)
        ensures
            result@ == TypeView::empty(),
    {
        Type { base_type: String::new(), modifiers: Vec::new() }
    }
}

impl Type {
    /// Builds the type that a type node stands for.
    pub fn from_pest(node: &Node) -> (result: Type)
        requires
            node.kind == NodeKind::Type,
        ensures
            result@ == TypeView::of_children(node.children@),
    {
        let ghost children = node.children@;
        let mut base_type = String::new();
        let mut is_interface = false;
        let mut has_identifier = false;
        let mut explicit: Vec<Modifier> = Vec::new();
        proof {
            lemma_select_none(children, NodeKind::Identifier);
        }
        let mut i: usize = 0;
        while i < node.children.len()
            invariant
                i <= node.children.len(),
                children == node.children@,
                explicit@ == explicit_modifiers(children.take(i as int)),
                has_identifier == (last_of_kind(children.take(i as int), NodeKind::Identifier)
                    is Some),
                has_identifier ==> {
                    let identifier = last_of_kind(
                        children.take(i as int),
                        NodeKind::Identifier,
                    )->0.text@;
                    &&& base_type@ == resolved_base(identifier)
                    &&& is_interface == is_interface_name(identifier)
                },
                !has_identifier ==> base_type@ == Seq::<char>::empty() && !is_interface,
            decreases node.children.len() - i,
        {
            let child = &node.children[i];
            proof {
                lemma_select_step(children, i as int, NodeKind::Identifier);
                children.lemma_filter_map_take_succ(|n: Node| modifier_of(n.kind), i as int);
            }
            match child.kind {
                NodeKind::Identifier => {
                    let (base, interface) = resolve_base(child.text.as_str());
                    base_type = base;
                    is_interface = interface;
                    has_identifier = true;
                },
                NodeKind::Pointer => {
                    explicit.push(Modifier::Pointer);
                },
                NodeKind::Const => {
                    explicit.push(Modifier::Const);
                },
                _ => {},
            }
            i = i + 1;
        }
        proof {
            assert(children.take(i as int) =~= children);
        }
        let mut modifiers = reversed(&explicit);
        if is_interface {
            modifiers.push(Modifier::Pointer);
        }
        proof {
            if has_identifier {
                let identifier = last_of_kind(children, NodeKind::Identifier)->0.text@;
                assert(modifiers@ =~= (implicit_modifiers(identifier) + explicit@).reverse());
            }
        }
        Type { base_type, modifiers }
    }

    /// Appends the rendered type to `w`: one pointer mark for each `Pointer`
    /// modifier, outermost first, then the base type.
    pub fn render(&self, w: &mut String)
        ensures
            final(w)@ == old(w)@ + self@.text(),
    {
        let mut i: usize = 0;
        while i < self.modifiers.len()
            invariant
                i <= self.modifiers.len(),
                w@ == old(w)@ + pointer_marks(self.modifiers@.take(i as int)),
            decreases self.modifiers.len() - i,
        {
            proof {
                assert(self.modifiers@.take(i + 1).drop_last() =~= self.modifiers@.take(i as int));
            }
            match self.modifiers[i] {
                Modifier::Pointer => {
                    w.append("*mut ");
                },
                Modifier::Const => {},
            }
            i = i + 1;
            assert(w@ =~= old(w)@ + pointer_marks(self.modifiers@.take(i as int)));
        }
        proof {
            assert(self.modifiers@.take(i as int) =~= self.modifiers@);
        }
        w.append(self.base_type.as_str());
        assert(w@ =~= old(w)@ + self@.text());
    }
}

/// The spellings of `int` are the eight words of three letters that read
/// `i`, `n`, `t`, each letter in either case.
pub proof fn lemma_int_spellings(identifier: Seq<char>)
    ensures
        is_int_name(identifier) <==> {
            &&& identifier.len() == 3
            &&& (identifier[0] == 'i' || identifier[0] == 'I')
            &&& (identifier[1] == 'n' || identifier[1] == 'N')
            &&& (identifier[2] == 't' || identifier[2] == 'T')
        },
{
    reveal_strlit("int");
    let word = "int"@;
    if identifier.len() == 3 {
        assert(ascii_lower(word[0]) == 'i' && ascii_lower(word[1]) == 'n' && ascii_lower(word[2])
            == 't');
        assert(ascii_lower(identifier[0]) == 'i' <==> identifier[0] == 'i' || identifier[0]
            == 'I');
        assert(ascii_lower(identifier[1]) == 'n' <==> identifier[1] == 'n' || identifier[1]
            == 'N');
        assert(ascii_lower(identifier[2]) == 't' <==> identifier[2] == 't' || identifier[2]
            == 'T');
    }
}

/// The spellings of `double` are the words of six letters that read `d`,
/// `o`, `u`, `b`, `l`, `e`, each letter in either case.
pub proof fn lemma_double_spellings(identifier: Seq<char>)
    ensures
        is_double_name(identifier) <==> {
            &&& identifier.len() == 6
            &&& (identifier[0] == 'd' || identifier[0] == 'D')
            &&& (identifier[1] == 'o' || identifier[1] == 'O')
            &&& (identifier[2] == 'u' || identifier[2] == 'U')
            &&& (identifier[3] == 'b' || identifier[3] == 'B')
            &&& (identifier[4] == 'l' || identifier[4] == 'L')
            &&& (identifier[5] == 'e' || identifier[5] == 'E')
        },
{
    reveal_strlit("double");
    let word = "double"@;
    if identifier.len() == 6 {
        assert(ascii_lower(word[0]) == 'd' && ascii_lower(word[1]) == 'o' && ascii_lower(word[2])
            == 'u');
        assert(ascii_lower(word[3]) == 'b' && ascii_lower(word[4]) == 'l' && ascii_lower(word[5])
            == 'e');
        assert(ascii_lower(identifier[0]) == 'd' <==> identifier[0] == 'd' || identifier[0]
            == 'D');
        assert(ascii_lower(identifier[1]) == 'o' <==> identifier[1] == 'o' || identifier[1]
            == 'O');
        assert(ascii_lower(identifier[2]) == 'u' <==> identifier[2] == 'u' || identifier[2]
            == 'U');
        assert(ascii_lower(identifier[3]) == 'b' <==> identifier[3] == 'b' || identifier[3]
            == 'B');
        assert(ascii_lower(identifier[4]) == 'l' <==> identifier[4] == 'l' || identifier[4]
            == 'L');
        assert(ascii_lower(identifier[5]) == 'e' <==> identifier[5] == 'e' || identifier[5]
            == 'E');
    }
}

/// Every spelling of `int`, whatever the case of its letters, resolves to
/// the 32-bit signed integer type, with the explicit modifiers alone: none
/// where none was written.
pub proof fn lemma_int_resolves(identifier: Seq<char>, explicit: Seq<Modifier>)
    requires
        eq_ignore_ascii_case(identifier, "int"@),
    ensures
        resolved_type(identifier, explicit).base_type == "i32"@,
        resolved_type(identifier, explicit).modifiers == explicit.reverse(),
        explicit.len() == 0 ==> resolved_type(identifier, explicit).modifiers.len() == 0,
{
    assert(implicit_modifiers(identifier) + explicit =~= explicit);
}

/// Every spelling of `double`, whatever the case of its letters, resolves to
/// the 64-bit floating-point type, with the explicit modifiers alone.
pub proof fn lemma_double_resolves(identifier: Seq<char>, explicit: Seq<Modifier>)
    requires
        eq_ignore_ascii_case(identifier, "double"@),
    ensures
        resolved_type(identifier, explicit).base_type == "f64"@,
        resolved_type(identifier, explicit).modifiers == explicit.reverse(),
{
    reveal_strlit("int");
    reveal_strlit("double");
    assert(implicit_modifiers(identifier) + explicit =~= explicit);
}

/// An identifier that starts with an uppercase `I` and is neither `int` nor
/// `double` resolves to the dispatch table of that interface, behind a
/// pointer of its own: the innermost modifier, after the explicit ones.
pub proof fn lemma_interface_resolves(identifier: Seq<char>, explicit: Seq<Modifier>)
    requires
        identifier.len() > 0,
        identifier[0] == 'I',
        !eq_ignore_ascii_case(identifier, "int"@),
        !eq_ignore_ascii_case(identifier, "double"@),
    ensures
        resolved_type(identifier, explicit).base_type == identifier + "VTable"@,
        resolved_type(identifier, explicit).modifiers == explicit.reverse().push(
            Modifier::Pointer,
        ),
        resolved_type(identifier, explicit).modifiers.len() == explicit.len() + 1,
        resolved_type(identifier, explicit).modifiers.last() == Modifier::Pointer,
{
    assert((implicit_modifiers(identifier) + explicit).reverse() =~= explicit.reverse().push(
        Modifier::Pointer,
    ));
}

/// The outermost modifier of a reference to an interface is a pointer,
/// unless the last explicit modifier is something else.
pub proof fn lemma_interface_outermost_pointer(identifier: Seq<char>, explicit: Seq<Modifier>)
    requires
        identifier.len() > 0,
        identifier[0] == 'I',
        !eq_ignore_ascii_case(identifier, "int"@),
        !eq_ignore_ascii_case(identifier, "double"@),
        explicit.len() == 0 || explicit.last() == Modifier::Pointer,
    ensures
        resolved_type(identifier, explicit).modifiers.len() >= 1,
        resolved_type(identifier, explicit).modifiers[0] == Modifier::Pointer,
{
    lemma_interface_resolves(identifier, explicit);
}

/// Two explicit pointers on a base that is no interface give exactly two
/// modifiers, both pointers, and two pointer marks before the base type.
pub proof fn lemma_two_pointers(identifier: Seq<char>)
    requires
        !is_interface_name(identifier),
    ensures
        resolved_type(identifier, seq![Modifier::Pointer, Modifier::Pointer]).modifiers
            == seq![Modifier::Pointer, Modifier::Pointer],
        resolved_type(identifier, seq![Modifier::Pointer, Modifier::Pointer]).text() == "*mut "@
            + "*mut "@ + resolved_base(identifier),
{
    let explicit = seq![Modifier::Pointer, Modifier::Pointer];
    let t = resolved_type(identifier, explicit);
    assert(implicit_modifiers(identifier) + explicit =~= explicit);
    assert(t.modifiers =~= explicit);
    assert(explicit.drop_last() =~= seq![Modifier::Pointer]);
    assert(explicit.drop_last().drop_last() =~= Seq::<Modifier>::empty());
    reveal_with_fuel(pointer_marks, 3);
    assert(pointer_marks(explicit) =~= "*mut "@ + "*mut "@);
}

} // verus!
