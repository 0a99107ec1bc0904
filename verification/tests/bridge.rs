use accessible::bridge::{
    action_description, action_names, child_handles, focused_element, hit_test, is_attribute_settable,
    is_ignored, parent_handle, position_value, role_value, size_value, text_value,
};
use accessible::text::str_eq;
use accessible::{
    answer_value, ask, attribute_names, attribute_value, to_native_ref, Accessible, Answer,
    Attribute, AttributeValue, Dimensions, NativePoint, NativeRef, NativeRefCache, Node, Parent,
    Position, Role,
};
use std::cell::Cell;
use std::sync::{Arc, Mutex};

const WINDOW: NativeRef = 0xabcd;

enum Element {
    Root { children: Mutex<Vec<Arc<Node<Element>>>> },
    Text { parent: Arc<Node<Element>>, text: String, x: f32, y: f32 },
}

impl Accessible for Element {
    fn parent(&self) -> Parent<Self> {
        match self {
            Element::Root { .. } => Parent::Native(WINDOW),
            Element::Text { parent, .. } => Parent::Accessible(parent.clone()),
        }
    }

    fn children(&self) -> Vec<Arc<Node<Self>>> {
        match self {
            Element::Root { children } => children.lock().unwrap().clone(),
            Element::Text { .. } => Vec::new(),
        }
    }

    fn role(&self) -> Role {
        match self {
            Element::Root { .. } => Role::ScrollArea,
            Element::Text { .. } => Role::StaticText,
        }
    }

    fn title(&self) -> Option<String> {
        match self {
            Element::Root { .. } => Some("A fantastic (accessible!) window!".to_owned()),
            Element::Text { .. } => None,
        }
    }

    fn value(&self) -> Option<String> {
        match self {
            Element::Root { .. } => None,
            Element::Text { text, .. } => Some(text.clone()),
        }
    }

    fn position(&self) -> Position {
        match self {
            Element::Root { .. } => Position { x: 0.0f32.to_bits(), y: 0.0f32.to_bits() },
            Element::Text { x, y, .. } => Position { x: x.to_bits(), y: y.to_bits() },
        }
    }

    fn dimensions(&self) -> Dimensions {
        match self {
            Element::Root { .. } => Dimensions { w: 800.0f32.to_bits(), h: 600.0f32.to_bits() },
            Element::Text { .. } => Dimensions { w: 100.0f32.to_bits(), h: 50.0f32.to_bits() },
        }
    }
}

fn root(id: usize) -> Arc<Node<Element>> {
    Arc::new(Node { id, element: Element::Root { children: Mutex::new(Vec::new()) } })
}

fn text(id: usize, parent: &Arc<Node<Element>>, text: &str, x: f32) -> Arc<Node<Element>> {
    let node = Arc::new(Node {
        id,
        element: Element::Text { parent: parent.clone(), text: text.to_owned(), x, y: 50.0 },
    });
    if let Element::Root { children } = &parent.element {
        children.lock().unwrap().push(node.clone());
    }
    node
}

fn by_identity(node: &Arc<Node<Element>>) -> NativeRef {
    0x1000 + node.id
}

fn texts(value: AttributeValue) -> Option<String> {
    match value {
        AttributeValue::Text(text) => Some(text),
        AttributeValue::Null => None,
        other => panic!("neither text nor nothing: {:?}", other),
    }
}

#[test]
fn every_role_has_its_fixed_string() {
    assert_eq!(Role::Group.to_axrole(), "AXGroup");
    assert_eq!(Role::StaticText.to_axrole(), "AXStaticText");
    assert_eq!(Role::Image.to_axrole(), "AXImage");
    assert_eq!(Role::Button.to_axrole(), "AXButton");
    assert_eq!(Role::Window.to_axrole(), "AXWindow");
    assert_eq!(Role::ScrollArea.to_axrole(), "AXScrollArea");
}

#[test]
fn attribute_names_are_the_fixed_list() {
    assert_eq!(
        attribute_names(),
        vec!["AXChildren", "AXParent", "AXRole", "AXTitle", "AXValue", "AXSize", "AXPosition"]
    );
}

#[test]
fn attributes_are_found_by_name() {
    assert_eq!(Attribute::from_name("AXChildren"), Some(Attribute::Children));
    assert_eq!(Attribute::from_name("AXParent"), Some(Attribute::Parent));
    assert_eq!(Attribute::from_name("AXRole"), Some(Attribute::Role));
    assert_eq!(Attribute::from_name("AXTitle"), Some(Attribute::Title));
    assert_eq!(Attribute::from_name("AXValue"), Some(Attribute::Value));
    assert_eq!(Attribute::from_name("AXSize"), Some(Attribute::Size));
    assert_eq!(Attribute::from_name("AXPosition"), Some(Attribute::Position));
}

#[test]
fn attribute_names_round_trip() {
    for name in attribute_names() {
        let attribute = Attribute::from_name(name).unwrap();
        assert_eq!(attribute.name(), name);
    }
}

#[test]
fn other_names_are_no_attributes() {
    for name in ["", "AX", "AXSubrole", "axrole", "AXRole ", "AXRoleDescription", "AXSizé"] {
        assert_eq!(Attribute::from_name(name), None);
    }
}

#[test]
fn strings_compare_by_their_characters() {
    assert!(str_eq("", ""));
    assert!(str_eq("AXRole", "AXRole"));
    assert!(str_eq("grüße", "grüße"));
    assert!(!str_eq("AXRole", "AXSize"));
    assert!(!str_eq("AXRole", "AXRol"));
    assert!(!str_eq("", "a"));
    assert!(!str_eq("é", "e"));
}

#[test]
fn role_value_is_the_role_string() {
    assert_eq!(texts(role_value(Role::Button)), Some("AXButton".to_owned()));
    assert_eq!(texts(role_value(Role::Window)), Some("AXWindow".to_owned()));
}

#[test]
fn text_value_is_text_or_nothing() {
    assert_eq!(texts(text_value(Some("hello".to_owned()))), Some("hello".to_owned()));
    assert_eq!(texts(text_value(Some(String::new()))), Some(String::new()));
    assert!(matches!(text_value(None), AttributeValue::Null));
}

#[test]
fn position_value_is_the_widened_point() {
    let value = position_value(Position { x: 1.0f32.to_bits(), y: 2.0f32.to_bits() });
    match value {
        AttributeValue::Point(point) => {
            assert_eq!(f64::from_bits(point.x), 1.0);
            assert_eq!(f64::from_bits(point.y), 2.0);
        }
        other => panic!("not a point: {:?}", other),
    }
}

#[test]
fn size_value_is_the_widened_size() {
    let value = size_value(Dimensions { w: 100.0f32.to_bits(), h: 50.0f32.to_bits() });
    match value {
        AttributeValue::Size(size) => {
            assert_eq!(f64::from_bits(size.width), 100.0);
            assert_eq!(f64::from_bits(size.height), 50.0);
        }
        other => panic!("not a size: {:?}", other),
    }
}

#[test]
fn native_parent_is_returned_directly() {
    let mut cache = NativeRefCache::new();
    let handle = parent_handle(&Parent::<Element>::Native(WINDOW), &mut cache, &by_identity);
    assert_eq!(handle, WINDOW);
    assert_eq!(cache.len(), 0);
}

#[test]
fn node_parent_is_resolved() {
    let mut cache = NativeRefCache::new();
    let top = root(1);
    let handle = parent_handle(&Parent::Accessible(top.clone()), &mut cache, &by_identity);
    assert_eq!(handle, 0x1001);
    assert_eq!(cache.get(1), Some(0x1001));
    assert_eq!(to_native_ref(&top, &mut cache, &by_identity), handle);
}

#[test]
fn child_handles_follow_the_order_of_the_children() {
    let mut cache = NativeRefCache::new();
    let top = root(1);
    let children =
        vec![text(30, &top, "c", 0.0), text(10, &top, "a", 0.0), text(20, &top, "b", 0.0)];
    let handles = child_handles(&children, &mut cache, &by_identity);
    assert_eq!(handles, vec![0x1000 + 30, 0x1000 + 10, 0x1000 + 20]);
    assert_eq!(cache.len(), 3);
    for (child, handle) in children.iter().zip(handles.iter()) {
        assert_eq!(to_native_ref(child, &mut cache, &by_identity), *handle);
    }
}

#[test]
fn child_handles_of_no_children_are_empty() {
    let mut cache = NativeRefCache::new();
    cache.upsert(1, 11);
    let handles = child_handles(&Vec::<Arc<Node<Element>>>::new(), &mut cache, &by_identity);
    assert!(handles.is_empty());
    assert_eq!(cache.len(), 1);
}

#[test]
fn child_handles_reuse_what_the_cache_holds() {
    let mut cache = NativeRefCache::new();
    cache.upsert(10, 77);
    let top = root(1);
    let children = vec![text(10, &top, "a", 0.0), text(20, &top, "b", 0.0)];
    let made = Cell::new(0usize);
    let create = |node: &Arc<Node<Element>>| -> NativeRef {
        made.set(made.get() + 1);
        0x2000 + node.id
    };
    let handles = child_handles(&children, &mut cache, &create);
    assert_eq!(handles, vec![77, 0x2000 + 20]);
    assert_eq!(made.get(), 1);
    assert_eq!(cache.len(), 2);
}

#[test]
fn a_child_listed_twice_gets_one_handle() {
    let mut cache = NativeRefCache::new();
    let top = root(1);
    let child = text(10, &top, "a", 0.0);
    let other = text(20, &top, "b", 0.0);
    let made = Cell::new(0usize);
    let create = |_: &Arc<Node<Element>>| -> NativeRef {
        made.set(made.get() + 1);
        0x3000 + made.get()
    };
    let handles = child_handles(&vec![child.clone(), other, child], &mut cache, &create);
    assert_eq!(handles, vec![0x3001, 0x3002, 0x3001]);
    assert_eq!(made.get(), 2);
    assert_eq!(cache.len(), 2);
}

#[test]
fn children_attribute_matches_resolution() {
    let mut cache = NativeRefCache::new();
    let top = root(1);
    let c1 = text(11, &top, "one", 0.0);
    let c2 = text(12, &top, "two", 100.0);
    let c3 = text(13, &top, "three", 200.0);
    let value = attribute_value(&top, &mut cache, "AXChildren", &by_identity);
    let handles = match value {
        AttributeValue::Array(handles) => handles,
        other => panic!("not an array: {:?}", other),
    };
    assert_eq!(handles.len(), 3);
    assert_eq!(handles[0], to_native_ref(&c1, &mut cache, &by_identity));
    assert_eq!(handles[1], to_native_ref(&c2, &mut cache, &by_identity));
    assert_eq!(handles[2], to_native_ref(&c3, &mut cache, &by_identity));
}

#[test]
fn children_attribute_of_a_leaf_is_an_empty_array() {
    let mut cache = NativeRefCache::new();
    let top = root(1);
    let leaf = text(11, &top, "one", 0.0);
    match attribute_value(&leaf, &mut cache, "AXChildren", &by_identity) {
        AttributeValue::Array(handles) => assert!(handles.is_empty()),
        other => panic!("not an array: {:?}", other),
    }
    assert_eq!(cache.len(), 0);
}

#[test]
fn children_are_asked_for_on_every_query() {
    let mut cache = NativeRefCache::new();
    let top = root(1);
    text(11, &top, "one", 0.0);
    match attribute_value(&top, &mut cache, "AXChildren", &by_identity) {
        AttributeValue::Array(handles) => assert_eq!(handles, vec![0x1000 + 11]),
        other => panic!("not an array: {:?}", other),
    }
    text(12, &top, "two", 100.0);
    match attribute_value(&top, &mut cache, "AXChildren", &by_identity) {
        AttributeValue::Array(handles) => assert_eq!(handles, vec![0x1000 + 11, 0x1000 + 12]),
        other => panic!("not an array: {:?}", other),
    }
}

#[test]
fn parent_attribute_round_trips() {
    let mut cache = NativeRefCache::new();
    let top = root(1);
    let child = text(11, &top, "one", 0.0);
    let of_child = attribute_value(&child, &mut cache, "AXParent", &by_identity);
    let resolved = to_native_ref(&top, &mut cache, &by_identity);
    assert!(matches!(of_child, AttributeValue::Object(handle) if handle == resolved));
    let before = cache.len();
    let of_root = attribute_value(&top, &mut cache, "AXParent", &by_identity);
    assert!(matches!(of_root, AttributeValue::Object(handle) if handle == WINDOW));
    assert_eq!(cache.len(), before);
}

#[test]
fn role_title_and_value_attributes() {
    let mut cache = NativeRefCache::new();
    let top = root(1);
    let child = text(11, &top, "one", 0.0);
    assert_eq!(
        texts(attribute_value(&top, &mut cache, "AXRole", &by_identity)),
        Some("AXScrollArea".to_owned())
    );
    assert_eq!(
        texts(attribute_value(&child, &mut cache, "AXRole", &by_identity)),
        Some("AXStaticText".to_owned())
    );
    assert_eq!(
        texts(attribute_value(&top, &mut cache, "AXTitle", &by_identity)),
        Some("A fantastic (accessible!) window!".to_owned())
    );
    assert_eq!(texts(attribute_value(&child, &mut cache, "AXTitle", &by_identity)), None);
    assert_eq!(texts(attribute_value(&top, &mut cache, "AXValue", &by_identity)), None);
    assert_eq!(
        texts(attribute_value(&child, &mut cache, "AXValue", &by_identity)),
        Some("one".to_owned())
    );
    assert_eq!(cache.len(), 0);
}

#[test]
fn position_and_size_attributes() {
    let mut cache = NativeRefCache::new();
    let top = root(1);
    let child = text(11, &top, "one", 200.0);
    match attribute_value(&child, &mut cache, "AXPosition", &by_identity) {
        AttributeValue::Point(point) => {
            assert_eq!(f64::from_bits(point.x), 200.0);
            assert_eq!(f64::from_bits(point.y), 50.0);
        }
        other => panic!("not a point: {:?}", other),
    }
    match attribute_value(&child, &mut cache, "AXSize", &by_identity) {
        AttributeValue::Size(size) => {
            assert_eq!(f64::from_bits(size.width), 100.0);
            assert_eq!(f64::from_bits(size.height), 50.0);
        }
        other => panic!("not a size: {:?}", other),
    }
    assert_eq!(cache.len(), 0);
}

#[test]
fn unknown_attribute_is_nothing() {
    let mut cache = NativeRefCache::new();
    let top = root(1);
    text(11, &top, "one", 0.0);
    for name in ["AXSubrole", "AXFocused", "", "AXchildren"] {
        assert!(matches!(
            attribute_value(&top, &mut cache, name, &by_identity),
            AttributeValue::Null
        ));
    }
    assert_eq!(cache.len(), 0);
}

#[test]
fn stubs_give_their_fixed_answers() {
    assert_eq!(hit_test(NativePoint { x: 1.0f64.to_bits(), y: 2.0f64.to_bits() }), None);
    assert_eq!(focused_element(), None);
    assert!(!is_ignored());
    for name in attribute_names() {
        assert!(!is_attribute_settable(name));
    }
    assert!(!is_attribute_settable("AXSubrole"));
    assert!(action_names().is_empty());
    assert_eq!(action_description("AXPress"), "");
    assert_eq!(action_description(""), "");
}

#[test]
fn end_to_end_three_static_texts() {
    let mut cache = NativeRefCache::new();
    let made = Cell::new(0usize);
    let create = |node: &Arc<Node<Element>>| -> NativeRef {
        made.set(made.get() + 1);
        0x5000 + node.id
    };
    let top = root(1);
    let nodes = vec![
        text(2, &top, "first text", 0.0),
        text(3, &top, "second text", 100.0),
        text(4, &top, "third text", 200.0),
    ];
    let top_handle = to_native_ref(&top, &mut cache, &create);
    assert_eq!(top_handle, 0x5001);

    let handles = match attribute_value(&top, &mut cache, "AXChildren", &create) {
        AttributeValue::Array(handles) => handles,
        other => panic!("not an array: {:?}", other),
    };
    assert_eq!(handles, vec![0x5002, 0x5003, 0x5004]);

    let expected = ["first text", "second text", "third text"];
    let offsets = [0.0, 100.0, 200.0];
    for place in 0..3 {
        let node = nodes.iter().find(|node| 0x5000 + node.id == handles[place]).unwrap();
        assert_eq!(
            texts(attribute_value(node, &mut cache, "AXValue", &create)),
            Some(expected[place].to_owned())
        );
        assert_eq!(
            texts(attribute_value(node, &mut cache, "AXRole", &create)),
            Some("AXStaticText".to_owned())
        );
        match attribute_value(node, &mut cache, "AXPosition", &create) {
            AttributeValue::Point(point) => assert_eq!(f64::from_bits(point.x), offsets[place]),
            other => panic!("not a point: {:?}", other),
        }
        let parent = attribute_value(node, &mut cache, "AXParent", &create);
        assert!(matches!(parent, AttributeValue::Object(handle) if handle == top_handle));
    }
    assert_eq!(made.get(), 4);
    assert_eq!(cache.len(), 4);
}

struct Counting {
    asked: Cell<[usize; 7]>,
}

impl Counting {
    fn count(&self, accessor: usize) {
        let mut asked = self.asked.get();
        asked[accessor] += 1;
        self.asked.set(asked);
    }
}

impl Accessible for Counting {
    fn parent(&self) -> Parent<Self> {
        self.count(0);
        Parent::Native(WINDOW)
    }

    fn children(&self) -> Vec<Arc<Node<Self>>> {
        self.count(1);
        Vec::new()
    }

    fn role(&self) -> Role {
        self.count(2);
        Role::Image
    }

    fn title(&self) -> Option<String> {
        self.count(3);
        Some("the title".to_owned())
    }

    fn value(&self) -> Option<String> {
        self.count(4);
        Some("the value".to_owned())
    }

    fn position(&self) -> Position {
        self.count(5);
        Position { x: 3.0f32.to_bits(), y: 4.0f32.to_bits() }
    }

    fn dimensions(&self) -> Dimensions {
        self.count(6);
        Dimensions { w: 5.0f32.to_bits(), h: 6.0f32.to_bits() }
    }
}

fn counting() -> Arc<Node<Counting>> {
    Arc::new(Node { id: 1, element: Counting { asked: Cell::new([0; 7]) } })
}

fn no_handle(_: &Arc<Node<Counting>>) -> NativeRef {
    panic!("nothing is to be created")
}

#[test]
fn ask_calls_the_accessor_of_the_attribute_once() {
    let cases = [
        (Attribute::Parent, 0),
        (Attribute::Children, 1),
        (Attribute::Role, 2),
        (Attribute::Title, 3),
        (Attribute::Value, 4),
        (Attribute::Position, 5),
        (Attribute::Size, 6),
    ];
    for (attribute, accessor) in cases {
        let node = counting();
        ask(&node, attribute);
        let mut expected = [0; 7];
        expected[accessor] = 1;
        assert_eq!(node.element.asked.get(), expected);
    }
}

#[test]
fn ask_returns_what_the_accessor_said() {
    let node = counting();
    assert!(matches!(ask(&node, Attribute::Parent), Answer::Parent(Parent::Native(WINDOW))));
    assert!(matches!(ask(&node, Attribute::Children), Answer::Children(children) if children.is_empty()));
    assert!(matches!(ask(&node, Attribute::Role), Answer::Role(Role::Image)));
    assert!(matches!(ask(&node, Attribute::Title), Answer::Title(Some(text)) if text == "the title"));
    assert!(matches!(ask(&node, Attribute::Value), Answer::Value(Some(text)) if text == "the value"));
    assert!(matches!(
        ask(&node, Attribute::Position),
        Answer::Position(position) if position == Position { x: 3.0f32.to_bits(), y: 4.0f32.to_bits() }
    ));
    assert!(matches!(
        ask(&node, Attribute::Size),
        Answer::Size(dimensions) if dimensions == Dimensions { w: 5.0f32.to_bits(), h: 6.0f32.to_bits() }
    ));
}

#[test]
fn attribute_value_asks_once_and_only_what_is_due() {
    let names =
        ["AXParent", "AXChildren", "AXRole", "AXTitle", "AXValue", "AXPosition", "AXSize"];
    for (accessor, name) in names.iter().enumerate() {
        let node = counting();
        let mut cache = NativeRefCache::new();
        attribute_value(&node, &mut cache, name, &no_handle);
        let mut expected = [0; 7];
        expected[accessor] = 1;
        assert_eq!(node.element.asked.get(), expected);
    }
    let node = counting();
    let mut cache = NativeRefCache::new();
    attribute_value(&node, &mut cache, "AXSubrole", &no_handle);
    assert_eq!(node.element.asked.get(), [0; 7]);
}

#[test]
fn title_and_value_are_not_confused() {
    let node = counting();
    let mut cache = NativeRefCache::new();
    assert_eq!(
        texts(attribute_value(&node, &mut cache, "AXTitle", &no_handle)),
        Some("the title".to_owned())
    );
    assert_eq!(
        texts(attribute_value(&node, &mut cache, "AXValue", &no_handle)),
        Some("the value".to_owned())
    );
}

#[test]
fn coordinates_and_extents_keep_their_places() {
    let node = counting();
    let mut cache = NativeRefCache::new();
    match attribute_value(&node, &mut cache, "AXPosition", &no_handle) {
        AttributeValue::Point(point) => {
            assert_eq!(f64::from_bits(point.x), 3.0);
            assert_eq!(f64::from_bits(point.y), 4.0);
        }
        other => panic!("not a point: {:?}", other),
    }
    match attribute_value(&node, &mut cache, "AXSize", &no_handle) {
        AttributeValue::Size(size) => {
            assert_eq!(f64::from_bits(size.width), 5.0);
            assert_eq!(f64::from_bits(size.height), 6.0);
        }
        other => panic!("not a size: {:?}", other),
    }
}

#[test]
fn answer_value_turns_each_answer_into_its_value() {
    let mut cache = NativeRefCache::new();
    let top = root(1);
    let child = text(11, &top, "one", 0.0);

    let value = answer_value(Answer::Children(vec![child.clone()]), &mut cache, &by_identity);
    assert!(matches!(value, AttributeValue::Array(handles) if handles == vec![0x1000 + 11]));
    let value = answer_value(Answer::Parent(Parent::Accessible(top)), &mut cache, &by_identity);
    assert!(matches!(value, AttributeValue::Object(handle) if handle == 0x1001));
    let value = answer_value(Answer::<Element>::Parent(Parent::Native(9)), &mut cache, &by_identity);
    assert!(matches!(value, AttributeValue::Object(9)));
    assert_eq!(cache.len(), 2);

    let value = answer_value(Answer::<Element>::Role(Role::Group), &mut cache, &by_identity);
    assert_eq!(texts(value), Some("AXGroup".to_owned()));
    let value = answer_value(Answer::<Element>::Title(Some("t".to_owned())), &mut cache, &by_identity);
    assert_eq!(texts(value), Some("t".to_owned()));
    let value = answer_value(Answer::<Element>::Value(None), &mut cache, &by_identity);
    assert_eq!(texts(value), None);
    let position = Position { x: 1.0f32.to_bits(), y: 2.0f32.to_bits() };
    let value = answer_value(Answer::<Element>::Position(position), &mut cache, &by_identity);
    assert!(matches!(
        value,
        AttributeValue::Point(point) if point.x == 1.0f64.to_bits() && point.y == 2.0f64.to_bits()
    ));
    let dimensions = Dimensions { w: 100.0f32.to_bits(), h: 50.0f32.to_bits() };
    let value = answer_value(Answer::<Element>::Size(dimensions), &mut cache, &by_identity);
    assert!(matches!(
        value,
        AttributeValue::Size(size) if size.width == 100.0f64.to_bits() && size.height == 50.0f64.to_bits()
    ));
    assert_eq!(cache.len(), 2);
}

#[test]
fn cached_children_need_no_creator() {
    let mut cache = NativeRefCache::new();
    cache.upsert(11, 77);
    let top = root(1);
    let child = text(11, &top, "one", 0.0);
    let handles = child_handles(&vec![child], &mut cache, &|_: &Arc<Node<Element>>| -> NativeRef {
        panic!("the child has a handle")
    });
    assert_eq!(handles, vec![77]);
}

struct Sharing {
    cache: Arc<Mutex<NativeRefCache>>,
    child: Option<Arc<Node<Sharing>>>,
}

impl Accessible for Sharing {
    fn parent(&self) -> Parent<Self> {
        Parent::Native(WINDOW)
    }

    fn children(&self) -> Vec<Arc<Node<Self>>> {
        match &self.child {
            Some(child) => {
                let mut cache = self.cache.lock().unwrap();
                to_native_ref(child, &mut cache, &|node: &Arc<Node<Sharing>>| 0x7000 + node.id);
                vec![child.clone()]
            }
            None => Vec::new(),
        }
    }

    fn role(&self) -> Role {
        Role::Group
    }

    fn title(&self) -> Option<String> {
        None
    }

    fn value(&self) -> Option<String> {
        None
    }

    fn position(&self) -> Position {
        Position { x: 0, y: 0 }
    }

    fn dimensions(&self) -> Dimensions {
        Dimensions { w: 0, h: 0 }
    }
}

#[test]
fn asking_before_locking_lets_an_accessor_use_the_cache() {
    let cache = Arc::new(Mutex::new(NativeRefCache::new()));
    let child = Arc::new(Node { id: 2, element: Sharing { cache: cache.clone(), child: None } });
    let top =
        Arc::new(Node { id: 1, element: Sharing { cache: cache.clone(), child: Some(child) } });
    let answer = ask(&top, Attribute::Children);
    let value = {
        let mut guard = cache.lock().unwrap();
        answer_value(answer, &mut guard, &|node: &Arc<Node<Sharing>>| 0x8000 + node.id)
    };
    assert!(matches!(value, AttributeValue::Array(handles) if handles == vec![0x7002]));
    assert_eq!(cache.lock().unwrap().len(), 1);
}
