//! The accessibility protocol of macOS, answered from the data model.
//!
//! The platform puts its queries to a native object. Whoever owns that object
//! finds the node behind it and passes the query on to the functions here,
//! which ask the node, resolve related nodes through the identity cache and
//! return the answer as a plain value.

use crate::cache::{resolved_cache, resolved_handle, to_native_ref, NativeRefCache};
use crate::geometry::{native_point, native_size, widened, NativePoint, NativeSize};
use crate::model::{Accessible, Dimensions, NativeRef, Node, NodeId, Parent, Position, Role};
use crate::text::str_eq;
use std::sync::Arc;
use vstd::prelude::*;

verus! {

impl Role {
    /// The role string of the platform for this role.
    pub open spec fn ax_role(self) -> Seq<char> {
        match self {
            Role::Group => "AXGroup"@,
            Role::StaticText => "AXStaticText"@,
            Role::Image => "AXImage"@,
            Role::Button => "AXButton"@,
            Role::Window => "AXWindow"@,
            Role::ScrollArea => "AXScrollArea"@,
        }
    }

    /// The role string of the platform for this role.
    pub fn to_axrole(&self) -> (name: &'static str)
        ensures
            name@ == self.ax_role(),
    {
        match self {
            Role::Group => "AXGroup",
            Role::StaticText => "AXStaticText",
            Role::Image => "AXImage",
            Role::Button => "AXButton",
            Role::Window => "AXWindow",
            Role::ScrollArea => "AXScrollArea",
        }
    }
}

/// Different roles have different role strings.
pub proof fn lemma_role_strings_differ(a: Role, b: Role)
    requires
        a != b,
    ensures
        a.ax_role() != b.ax_role(),
{
    reveal_strlit("AXGroup");
    reveal_strlit("AXStaticText");
    reveal_strlit("AXImage");
    reveal_strlit("AXButton");
    reveal_strlit("AXWindow");
    reveal_strlit("AXScrollArea");
    let x = a.ax_role();
    let y = b.ax_role();
    if x.len() == y.len() {
        assert(x[2] != y[2] || x[3] != y[3]);
    }
}

/// The attributes that every bridged element has.
#[derive(Clone, Copy, Debug, PartialEq, Eq, Structural)]
pub enum Attribute {
    Children,
    Parent,
    Role,
    Title,
    Value,
    Size,
    Position,
}

impl Attribute {
    /// The name by which the platform asks for this attribute.
    pub open spec fn ax_name(self) -> Seq<char> {
        match self {
            Attribute::Children => "AXChildren"@,
            Attribute::Parent => "AXParent"@,
            Attribute::Role => "AXRole"@,
            Attribute::Title => "AXTitle"@,
            Attribute::Value => "AXValue"@,
            Attribute::Size => "AXSize"@,
            Attribute::Position => "AXPosition"@,
        }
    }

    /// The attribute that is called `name`, if there is one.
    pub open spec fn named(name: Seq<char>) -> Option<Attribute> {
        if name == "AXChildren"@ {
            Some(Attribute::Children)
        } else if name == "AXParent"@ {
            Some(Attribute::Parent)
        } else if name == "AXRole"@ {
            Some(Attribute::Role)
        } else if name == "AXTitle"@ {
            Some(Attribute::Title)
        } else if name == "AXValue"@ {
            Some(Attribute::Value)
        } else if name == "AXPosition"@ {
            Some(Attribute::Position)
        } else if name == "AXSize"@ {
            Some(Attribute::Size)
        } else {
            None
        }
    }

    /// The name by which the platform asks for this attribute.
    pub fn name(&self) -> (name: &'static str)
        ensures
            name@ == self.ax_name(),
    {
        match self {
            Attribute::Children => "AXChildren",
            Attribute::Parent => "AXParent",
            Attribute::Role => "AXRole",
            Attribute::Title => "AXTitle",
            Attribute::Value => "AXValue",
            Attribute::Size => "AXSize",
            Attribute::Position => "AXPosition",
        }
    }

    /// Finds the attribute that the platform asks for. A name that is not one
    /// of the seven attribute names gives `None`.
    pub fn from_name(name: &str) -> (attribute: Option<Attribute>)
        ensures
            attribute == Attribute::named(name@),
    {
        if str_eq(name, "AXChildren") {
            Some(Attribute::Children)
        } else if str_eq(name, "AXParent") {
            Some(Attribute::Parent)
        } else if str_eq(name, "AXRole") {
            Some(Attribute::Role)
        } else if str_eq(name, "AXTitle") {
            Some(Attribute::Title)
        } else if str_eq(name, "AXValue") {
            Some(Attribute::Value)
        } else if str_eq(name, "AXPosition") {
            Some(Attribute::Position)
        } else if str_eq(name, "AXSize") {
            Some(Attribute::Size)
        } else {
            None
        }
    }
}

/// Every attribute is found again by its own name, and a name that finds an
/// attribute is the name of that attribute.
pub proof fn lemma_attribute_names_round_trip(attribute: Attribute, name: Seq<char>)
    ensures
        Attribute::named(attribute.ax_name()) == Some(attribute),
        Attribute::named(name) == Some(attribute) ==> name == attribute.ax_name(),
{
    reveal_strlit("AXChildren");
    reveal_strlit("AXParent");
    reveal_strlit("AXRole");
    reveal_strlit("AXTitle");
    reveal_strlit("AXValue");
    reveal_strlit("AXSize");
    reveal_strlit("AXPosition");
    assert("AXParent"@.len() == 8);
    assert("AXChildren"@[2] != "AXPosition"@[2]);
    assert("AXRole"@[2] != "AXSize"@[2]);
    assert("AXTitle"@[2] != "AXValue"@[2]);
}

/// The attribute names in the order in which the bridge reports them.
pub open spec fn ax_attribute_names() -> Seq<Seq<char>> {
    seq![
        "AXChildren"@,
        "AXParent"@,
        "AXRole"@,
        "AXTitle"@,
        "AXValue"@,
        "AXSize"@,
        "AXPosition"@,
    ]
}

/// The names of the attributes that every bridged element has: children,
/// parent, role, title, value, size and position, in this order.
pub fn attribute_names() -> (names: Vec<&'static str>)
    ensures
        names@.map_values(|name: &'static str| name@) == ax_attribute_names(),
{
    let mut names: Vec<&'static str> = Vec::new();
    names.push("AXChildren");
    names.push("AXParent");
    names.push("AXRole");
    names.push("AXTitle");
    names.push("AXValue");
    names.push("AXSize");
    names.push("AXPosition");
    assert(names@.map_values(|name: &'static str| name@) =~= ax_attribute_names());
    names
}

/// The answer to a query for one attribute.
#[derive(Debug)]
pub enum AttributeValue {
    /// Nothing: the attribute has no value, or there is no such attribute.
    Null,
    /// One native object.
    Object(NativeRef),
    /// Native objects, in order.
    Array(Vec<NativeRef>),
    Text(String),
    Point(NativePoint),
    Size(NativeSize),
}

/// What an [`AttributeValue`] holds.
pub enum AttributeValueView {
    Null,
    Object(NativeRef),
    Array(Seq<NativeRef>),
    Text(Seq<char>),
    Point(NativePoint),
    Size(NativeSize),
}

impl View for AttributeValue {
    type V = AttributeValueView;

    open spec fn view(&self) -> AttributeValueView {
        match self {
            AttributeValue::Null => AttributeValueView::Null,
            AttributeValue::Object(handle) => AttributeValueView::Object(*handle),
            AttributeValue::Array(handles) => AttributeValueView::Array(handles@),
            AttributeValue::Text(text) => AttributeValueView::Text(text@),
            AttributeValue::Point(point) => AttributeValueView::Point(*point),
            AttributeValue::Size(size) => AttributeValueView::Size(*size),
        }
    }
}

/// The value of the role attribute for a role.
pub open spec fn role_answer(role: Role) -> AttributeValueView {
    AttributeValueView::Text(role.ax_role())
}

/// The value of the title or value attribute for a text that may be absent.
pub open spec fn text_answer(text: Option<Seq<char>>) -> AttributeValueView {
    match text {
        Some(characters) => AttributeValueView::Text(characters),
        None => AttributeValueView::Null,
    }
}

/// The characters of a text that may be absent.
pub open spec fn characters_of(text: Option<String>) -> Option<Seq<char>> {
    match text {
        Some(characters) => Some(characters@),
        None => None,
    }
}

/// The value of the position attribute for a position.
pub open spec fn position_answer(position: Position) -> AttributeValueView {
    AttributeValueView::Point(
        (NativePoint { x: widened(position.x) as u64, y: widened(position.y) as u64 }),
    )
}

/// The value of the size attribute for a pair of dimensions.
pub open spec fn size_answer(dimensions: Dimensions) -> AttributeValueView {
    AttributeValueView::Size(
        (NativeSize {
            width: widened(dimensions.w) as u64,
            height: widened(dimensions.h) as u64,
        }),
    )
}

/// Whether the node at `index` is the first in `nodes` with its identity.
pub open spec fn first_of_its_identity<T>(nodes: Seq<Arc<Node<T>>>, index: int) -> bool {
    forall|earlier: int| 0 <= earlier < index ==> nodes[earlier].id != nodes[index].id
}

/// Whether some node in `nodes` has the identity `id`.
pub open spec fn has_identity<T>(nodes: Seq<Arc<Node<T>>>, id: NodeId) -> bool {
    exists|index: int| 0 <= index < nodes.len() && nodes[index].id == id
}

/// Whether `value` answers a query for the children of a node whose children
/// are `children`, where the cache goes from `before` to `after`: the value
/// is the array of the children's handles in `after`, in order, `after` has
/// gained the children's identities and nothing else, and `create` has made
/// the handle of every child that is new to the cache.
pub open spec fn children_answer<T, F: Fn(&Arc<Node<T>>) -> NativeRef>(
    children: Seq<Arc<Node<T>>>,
    before: Map<NodeId, NativeRef>,
    create: F,
    value: AttributeValueView,
    after: Map<NodeId, NativeRef>,
) -> bool {
    &&& value matches AttributeValueView::Array(handles)
    &&& handles.len() == children.len()
    &&& forall|index: int|
        0 <= index < children.len() ==> after.contains_key(#[trigger] children[index].id)
            && handles[index] == after[children[index].id]
    &&& before.submap_of(after)
    &&& forall|id: NodeId| #[trigger]
        after.contains_key(id) <==> before.contains_key(id) || has_identity(children, id)
    &&& forall|index: int|
        0 <= index < children.len() && !before.contains_key(children[index].id)
            && first_of_its_identity(children, index) ==> call_ensures(
            create,
            (&children[index],),
            #[trigger] handles[index],
        )
}

/// Whether `value` answers a query for the parent of a node whose parent is
/// `parent`, where the cache goes from `before` to `after`: a native parent
/// is the value itself, and a parent that is a node is resolved.
pub open spec fn parent_answer<T, F: Fn(&Arc<Node<T>>) -> NativeRef>(
    parent: Parent<T>,
    before: Map<NodeId, NativeRef>,
    create: F,
    value: AttributeValueView,
    after: Map<NodeId, NativeRef>,
) -> bool {
    match parent {
        Parent::Native(native) => value == AttributeValueView::Object(native) && after == before,
        Parent::Accessible(node) => {
            &&& value matches AttributeValueView::Object(handle)
            &&& handle == resolved_handle(before, node.id, handle)
            &&& after == resolved_cache(before, node.id, handle)
            &&& !before.contains_key(node.id) ==> call_ensures(create, (&node,), handle)
        },
    }
}

/// The value of the role attribute: the role string of the platform.
pub fn role_value(role: Role) -> (value: AttributeValue)
    ensures
        value@ == role_answer(role),
{
    AttributeValue::Text(role.to_axrole().to_owned())
}

/// The value of the title or value attribute: the text if there is one, and
/// nothing otherwise.
pub fn text_value(text: Option<String>) -> (value: AttributeValue)
    ensures
        value@ == text_answer(characters_of(text)),
{
    match text {
        Some(characters) => AttributeValue::Text(characters),
        None => AttributeValue::Null,
    }
}

/// The value of the position attribute: the position as a native point.
pub fn position_value(position: Position) -> (value: AttributeValue)
    ensures
        value@ == position_answer(position),
{
    AttributeValue::Point(native_point(position))
}

/// The value of the size attribute: the dimensions as a native size.
pub fn size_value(dimensions: Dimensions) -> (value: AttributeValue)
    ensures
        value@ == size_answer(dimensions),
{
    AttributeValue::Size(native_size(dimensions))
}

/// The handle of a parent. A native parent is its own handle and leaves the
/// cache alone. A parent that is a node is resolved like any other node.
pub fn parent_handle<T: Accessible, F: Fn(&Arc<Node<T>>) -> NativeRef>(
    parent: &Parent<T>,
    cache: &mut NativeRefCache,
    create: &F,
) -> (handle: NativeRef)
    requires
        match *parent {
            Parent::Native(_) => true,
            Parent::Accessible(node) => !old(cache)@.contains_key(node.id) ==> call_requires(
                create,
                (&node,),
            ),
        },
    ensures
        match *parent {
            Parent::Native(native) => handle == native && final(cache)@ == old(cache)@,
            Parent::Accessible(node) => {
                &&& handle == resolved_handle(old(cache)@, node.id, handle)
                &&& final(cache)@ == resolved_cache(old(cache)@, node.id, handle)
                &&& !old(cache)@.contains_key(node.id) ==> call_ensures(create, (&node,), handle)
            },
        },
{
    match parent {
        Parent::Native(native) => *native,
        Parent::Accessible(node) => to_native_ref(node, cache, create),
    }
}

/// The handles of a list of children, in the order of the list.
///
/// Every child is resolved in turn, so `create` has to accept only children
/// that the cache does not know. Afterwards the cache holds a handle for
/// every child, the handle at each place in the result is the one that the
/// cache holds for the child at that place, and what the cache held before
/// is unchanged. `create` has made a handle for a child exactly where the
/// cache did not know the child's identity and no earlier child in the list
/// has it.
pub fn child_handles<T: Accessible, F: Fn(&Arc<Node<T>>) -> NativeRef>(
    children: &Vec<Arc<Node<T>>>,
    cache: &mut NativeRefCache,
    create: &F,
) -> (handles: Vec<NativeRef>)
    requires
        forall|index: int|
            0 <= index < children@.len() && !old(cache)@.contains_key(children@[index].id)
                ==> call_requires(create, (&#[trigger] children@[index],)),
    ensures
        handles@.len() == children@.len(),
        forall|index: int|
            0 <= index < children@.len() ==> final(cache)@.contains_key(
                #[trigger] children@[index].id,
            ) && handles@[index] == final(cache)@[children@[index].id],
        old(cache)@.submap_of(final(cache)@),
        forall|id: NodeId| #[trigger]
            final(cache)@.contains_key(id) <==> old(cache)@.contains_key(id) || has_identity(
                children@,
                id,
            ),
        forall|index: int|
            0 <= index < children@.len() && !old(cache)@.contains_key(children@[index].id)
                && first_of_its_identity(children@, index) ==> call_ensures(
                create,
                (&children@[index],),
                #[trigger] handles@[index],
            ),
{
    let ghost before = cache@;
    let mut handles: Vec<NativeRef> = Vec::new();
    let mut done: usize = 0;
    while done < children.len()
        invariant
            done <= children@.len(),
            handles@.len() == done,
            forall|index: int|
                0 <= index < children@.len() && !before.contains_key(children@[index].id)
                    ==> call_requires(create, (&#[trigger] children@[index],)),
            forall|index: int|
                0 <= index < done ==> cache@.contains_key(#[trigger] children@[index].id)
                    && handles@[index] == cache@[children@[index].id],
            before.submap_of(cache@),
            forall|id: NodeId| #[trigger]
                cache@.contains_key(id) <==> before.contains_key(id) || has_identity(
                    children@.take(done as int),
                    id,
                ),
            forall|index: int|
                0 <= index < done && !before.contains_key(children@[index].id)
                    && first_of_its_identity(children@, index) ==> call_ensures(
                    create,
                    (&children@[index],),
                    #[trigger] handles@[index],
                ),
        decreases children@.len() - done,
    {
        let ghost earlier = cache@;
        let ghost seen = children@.take(done as int);
        let child = &children[done];
        let handle = to_native_ref(child, cache, create);
        handles.push(handle);
        proof {
            let id = children@[done as int].id;
            let now = children@.take(done + 1);
            assert(now[done as int].id == id);
            assert forall|other: NodeId| #[trigger]
                cache@.contains_key(other) <==> before.contains_key(other) || has_identity(
                    now,
                    other,
                ) by {
                if has_identity(seen, other) {
                    let at = choose|at: int| 0 <= at < seen.len() && seen[at].id == other;
                    assert(now[at].id == other);
                }
                if has_identity(now, other) {
                    let at = choose|at: int| 0 <= at < now.len() && now[at].id == other;
                    if at < done {
                        assert(seen[at].id == other);
                    }
                }
            }
            if earlier.contains_key(id) && !before.contains_key(id) {
                let at = choose|at: int| 0 <= at < seen.len() && seen[at].id == id;
                assert(children@[at].id == children@[done as int].id);
                assert(!first_of_its_identity(children@, done as int));
            }
        }
        done = done + 1;
    }
    proof {
        assert(children@.take(done as int) =~= children@);
    }
    handles
}

/// What a node said when it was asked for one attribute.
pub enum Answer<T> {
    Children(Vec<Arc<Node<T>>>),
    Parent(Parent<T>),
    Role(Role),
    Title(Option<String>),
    Value(Option<String>),
    Size(Dimensions),
    Position(Position),
}

/// Whether `answer` is what `element` returned from the accessor that
/// belongs to `attribute`: its children for the children attribute, its
/// title for the title attribute, and so on, each under the variant of its
/// own attribute.
pub open spec fn said<T: Accessible>(element: T, attribute: Attribute, answer: Answer<T>) -> bool {
    match attribute {
        Attribute::Children => answer matches Answer::Children(children) && call_ensures(
            T::children,
            (&element,),
            children,
        ),
        Attribute::Parent => answer matches Answer::Parent(parent) && call_ensures(
            T::parent,
            (&element,),
            parent,
        ),
        Attribute::Role => answer matches Answer::Role(role) && call_ensures(
            T::role,
            (&element,),
            role,
        ),
        Attribute::Title => answer matches Answer::Title(text) && call_ensures(
            T::title,
            (&element,),
            text,
        ),
        Attribute::Value => answer matches Answer::Value(text) && call_ensures(
            T::value,
            (&element,),
            text,
        ),
        Attribute::Size => answer matches Answer::Size(dimensions) && call_ensures(
            T::dimensions,
            (&element,),
            dimensions,
        ),
        Attribute::Position => answer matches Answer::Position(position) && call_ensures(
            T::position,
            (&element,),
            position,
        ),
    }
}

/// Whether `value` is the attribute value for what a node said, where the
/// cache goes from `before` to `after`. Children and parent are resolved
/// through the cache. Every other answer is turned into its value and leaves
/// the cache as it is.
pub open spec fn answers<T, F: Fn(&Arc<Node<T>>) -> NativeRef>(
    answer: Answer<T>,
    before: Map<NodeId, NativeRef>,
    create: F,
    value: AttributeValueView,
    after: Map<NodeId, NativeRef>,
) -> bool {
    match answer {
        Answer::Children(children) => children_answer(children@, before, create, value, after),
        Answer::Parent(parent) => parent_answer(parent, before, create, value, after),
        Answer::Role(role) => value == role_answer(role) && after == before,
        Answer::Title(text) => value == text_answer(characters_of(text)) && after == before,
        Answer::Value(text) => value == text_answer(characters_of(text)) && after == before,
        Answer::Size(dimensions) => value == size_answer(dimensions) && after == before,
        Answer::Position(position) => value == position_answer(position) && after == before,
    }
}

/// Whether `create` accepts every node that a resolution of `answer` may
/// have to create a handle for: the children and the parent that `cache`
/// does not know.
pub open spec fn can_create<T, F: Fn(&Arc<Node<T>>) -> NativeRef>(
    answer: Answer<T>,
    cache: Map<NodeId, NativeRef>,
    create: F,
) -> bool {
    match answer {
        Answer::Children(children) => forall|index: int|
            0 <= index < children@.len() && !cache.contains_key(children@[index].id)
                ==> call_requires(create, (&#[trigger] children@[index],)),
        Answer::Parent(Parent::Accessible(node)) => !cache.contains_key(node.id) ==> call_requires(
            create,
            (&node,),
        ),
        _ => true,
    }
}

/// Asks a node for what one attribute needs. Exactly one accessor is called,
/// the one that belongs to the attribute, and what it returns is the answer.
/// The cache plays no part, so a caller that shares its cache under a lock
/// asks before it takes the lock.
pub fn ask<T: Accessible>(node: &Arc<Node<T>>, attribute: Attribute) -> (answer: Answer<T>)
    ensures
        said(node.element, attribute, answer),
{
    match attribute {
        Attribute::Children => Answer::Children(node.element.children()),
        Attribute::Parent => Answer::Parent(node.element.parent()),
        Attribute::Role => Answer::Role(node.element.role()),
        Attribute::Title => Answer::Title(node.element.title()),
        Attribute::Value => Answer::Value(node.element.value()),
        Attribute::Size => Answer::Size(node.element.dimensions()),
        Attribute::Position => Answer::Position(node.element.position()),
    }
}

/// Turns what a node said into the value of the attribute: [`child_handles`]
/// of its children, [`parent_handle`] of its parent, and the values that
/// [`role_value`], [`text_value`], [`size_value`] and [`position_value`]
/// give for its role, title or value, dimensions and position.
pub fn answer_value<T: Accessible, F: Fn(&Arc<Node<T>>) -> NativeRef>(
    answer: Answer<T>,
    cache: &mut NativeRefCache,
    create: &F,
) -> (value: AttributeValue)
    requires
        can_create(answer, old(cache)@, *create),
    ensures
        answers(answer, old(cache)@, *create, value@, final(cache)@),
{
    match answer {
        Answer::Children(children) => AttributeValue::Array(child_handles(&children, cache, create)),
        Answer::Parent(parent) => AttributeValue::Object(parent_handle(&parent, cache, create)),
        Answer::Role(role) => role_value(role),
        Answer::Title(text) => text_value(text),
        Answer::Value(text) => text_value(text),
        Answer::Size(dimensions) => size_value(dimensions),
        Answer::Position(position) => position_value(position),
    }
}

/// Answers a query for the attribute called `attribute`.
///
/// A name that is no attribute name gives nothing and leaves the cache as it
/// is. For an attribute name the value is the one that [`answer_value`]
/// makes from what the node said when [`ask`] put the attribute's question
/// to it.
pub fn attribute_value<T: Accessible, F: Fn(&Arc<Node<T>>) -> NativeRef>(
    node: &Arc<Node<T>>,
    cache: &mut NativeRefCache,
    attribute: &str,
    create: &F,
) -> (value: AttributeValue)
    requires
        forall|other: &Arc<Node<T>>|
            !old(cache)@.contains_key(other.id) ==> call_requires(create, (other,)),
    ensures
        match Attribute::named(attribute@) {
            None => value@ == AttributeValueView::Null && final(cache)@ == old(cache)@,
            Some(asked) => exists|answer: Answer<T>|
                said(node.element, asked, answer) && answers(
                    answer,
                    old(cache)@,
                    *create,
                    value@,
                    final(cache)@,
                ),
        },
{
    match Attribute::from_name(attribute) {
        None => AttributeValue::Null,
        Some(asked) => {
            let answer = ask(node, asked);
            let ghost said_answer = answer;
            let value = answer_value(answer, cache, create);
            assert(said(node.element, asked, said_answer) && answers(
                said_answer,
                old(cache)@,
                *create,
                value@,
                cache@,
            ));
            value
        },
    }
}

/// Whatever a node says, answering a query changes or removes nothing that
/// the cache held, and only answers about children and parent can add to it.
pub proof fn lemma_answers_extend_the_cache<T, F: Fn(&Arc<Node<T>>) -> NativeRef>(
    answer: Answer<T>,
    before: Map<NodeId, NativeRef>,
    create: F,
    value: AttributeValueView,
    after: Map<NodeId, NativeRef>,
)
    requires
        answers(answer, before, create, value, after),
    ensures
        before.submap_of(after),
        !(answer is Children) && !(answer is Parent) ==> after == before,
{
}

/// After a query for the children of a node, resolving the child at any
/// place gives the handle at that place of the answer, creates nothing and
/// leaves the cache as it is.
pub proof fn lemma_children_match_resolution<T, F: Fn(&Arc<Node<T>>) -> NativeRef>(
    children: Seq<Arc<Node<T>>>,
    before: Map<NodeId, NativeRef>,
    create: F,
    value: AttributeValueView,
    after: Map<NodeId, NativeRef>,
    index: int,
    fresh: NativeRef,
)
    requires
        children_answer(children, before, create, value, after),
        0 <= index < children.len(),
    ensures
        value matches AttributeValueView::Array(handles) && handles.len() == children.len()
            && handles[index] == resolved_handle(after, children[index].id, fresh),
        resolved_cache(after, children[index].id, fresh) == after,
{
    assert(after.contains_key(children[index].id));
}

/// The parent attribute of a node whose parent is a node is the handle to
/// which that parent resolves, before the query and ever after. The parent
/// attribute of a node whose parent is native is that native handle itself,
/// and the query leaves the cache alone.
pub proof fn lemma_parent_matches_resolution<T, F: Fn(&Arc<Node<T>>) -> NativeRef>(
    parent: Parent<T>,
    before: Map<NodeId, NativeRef>,
    create: F,
    value: AttributeValueView,
    after: Map<NodeId, NativeRef>,
    fresh: NativeRef,
)
    requires
        parent_answer(parent, before, create, value, after),
    ensures
        match parent {
            Parent::Native(native) => value == AttributeValueView::Object(native) && after
                == before,
            Parent::Accessible(node) => {
                &&& value matches AttributeValueView::Object(handle)
                &&& handle == resolved_handle(before, node.id, handle)
                &&& handle == resolved_handle(after, node.id, fresh)
                &&& resolved_cache(after, node.id, fresh) == after
            },
        },
{
}

/// The element at a point of the screen. The bridge does no hit testing and
/// always answers with nothing.
pub fn hit_test(point: NativePoint) -> (element: Option<NativeRef>)
    ensures
        element.is_none(),
{
    None
}

/// The element that has the keyboard focus. The bridge does not follow the
/// focus and always answers with nothing.
pub fn focused_element() -> (element: Option<NativeRef>)
    ensures
        element.is_none(),
{
    None
}

/// Whether assistive technology should skip a bridged element. It never
/// should.
pub fn is_ignored() -> (ignored: bool)
    ensures
        !ignored,
{
    false
}

/// Whether the platform may set an attribute. It may set none.
pub fn is_attribute_settable(attribute: &str) -> (settable: bool)
    ensures
        !settable,
{
    false
}

/// The names of the actions that a bridged element can perform. There are
/// none.
pub fn action_names() -> (names: Vec<&'static str>)
    ensures
        names@.len() == 0,
{
    Vec::new()
}

/// The description of an action. It is empty for every action.
pub fn action_description(action: &str) -> (description: &'static str)
    ensures
        description@.len() == 0,
{
    proof {
        reveal_strlit("");
    }
    ""
}

} // verus!
