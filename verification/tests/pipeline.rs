use etymon::browser::{only_useful_children, NodeDataKind, NodeKindSet, RawNode, RawNodeData};
use etymon::tui::{isolate_nav_forest, TuiNode, TuiNodeData};

fn raw(data: RawNodeData, children: Vec<RawNode>) -> RawNode {
    RawNode { data, children }
}

fn el(name: &str, children: Vec<RawNode>) -> RawNode {
    raw(
        RawNodeData::Element {
            name: name.to_owned(),
            attrs: Vec::new(),
            contents: Vec::new(),
        },
        children,
    )
}

fn text(s: &str) -> RawNode {
    raw(RawNodeData::Text(s.to_owned()), Vec::new())
}

fn comment(s: &str) -> RawNode {
    raw(RawNodeData::Comment(s.to_owned()), Vec::new())
}

fn raw_eq(a: &RawNode, b: &RawNode) -> bool {
    let data_eq = match (&a.data, &b.data) {
        (
            RawNodeData::Element { name: n1, attrs: a1, contents: c1 },
            RawNodeData::Element { name: n2, attrs: a2, contents: c2 },
        ) => {
            n1 == n2
                && a1 == a2
                && c1.len() == c2.len()
                && c1.iter().zip(c2.iter()).all(|(x, y)| raw_eq(x, y))
        }
        (RawNodeData::Text(s1), RawNodeData::Text(s2)) => s1 == s2,
        (RawNodeData::Comment(s1), RawNodeData::Comment(s2)) => s1 == s2,
        (RawNodeData::ProcessingInstruction, RawNodeData::ProcessingInstruction) => true,
        (RawNodeData::Doctype, RawNodeData::Doctype) => true,
        (RawNodeData::Document, RawNodeData::Document) => true,
        (RawNodeData::DocumentFragment, RawNodeData::DocumentFragment) => true,
        _ => false,
    };
    data_eq
        && a.children.len() == b.children.len()
        && a.children.iter().zip(b.children.iter()).all(|(x, y)| raw_eq(x, y))
}

fn tui_eq(a: &TuiNode, b: &TuiNode) -> bool {
    let data_eq = match (&a.data, &b.data) {
        (TuiNodeData::Element(e1), TuiNodeData::Element(e2)) => {
            e1.qual_name == e2.qual_name
                && e1.attributes.len() == e2.attributes.len()
                && e1.attributes.iter().zip(e2.attributes.iter()).all(|(x, y)| x.0 == y.0)
                && e1.contents.len() == e2.contents.len()
                && e1.contents.iter().zip(e2.contents.iter()).all(|(x, y)| tui_eq(x, y))
        }
        (TuiNodeData::Text(s1), TuiNodeData::Text(s2)) => s1 == s2,
        (TuiNodeData::Comment(s1), TuiNodeData::Comment(s2)) => s1 == s2,
        (TuiNodeData::Phantom, TuiNodeData::Phantom) => true,
        _ => false,
    };
    data_eq
        && a.children.len() == b.children.len()
        && a.children.iter().zip(b.children.iter()).all(|(x, y)| tui_eq(x, y))
}

fn tag_of(n: &TuiNode) -> &str {
    match &n.data {
        TuiNodeData::Element(e) => e.qual_name.as_str(),
        _ => panic!("expected an element"),
    }
}

fn text_of(n: &TuiNode) -> &str {
    match &n.data {
        TuiNodeData::Text(s) => s.as_str(),
        _ => panic!("expected text"),
    }
}

fn phantom(children: Vec<TuiNode>) -> TuiNode {
    TuiNode { data: TuiNodeData::Phantom, children }
}

fn tui_text(s: &str) -> TuiNode {
    TuiNode { data: TuiNodeData::Text(s.to_owned()), children: Vec::new() }
}

fn tui_el(name: &str, children: Vec<TuiNode>) -> TuiNode {
    TuiNode {
        data: TuiNodeData::Element(etymon::tui::TuiElement {
            qual_name: name.to_owned(),
            attributes: Vec::new(),
            contents: Vec::new(),
        }),
        children,
    }
}

fn count_phantoms(n: &TuiNode) -> usize {
    let own = match n.data {
        TuiNodeData::Phantom => 1,
        _ => 0,
    };
    own + n.children.iter().map(count_phantoms).sum::<usize>()
}

#[test]
fn classify_is_total_and_stable() {
    let cases = vec![
        (
            RawNodeData::Element {
                name: "div".to_owned(),
                attrs: Vec::new(),
                contents: Vec::new(),
            },
            NodeDataKind::Element,
        ),
        (RawNodeData::Text("x".to_owned()), NodeDataKind::Text),
        (RawNodeData::Comment("c".to_owned()), NodeDataKind::Comment),
        (
            RawNodeData::ProcessingInstruction,
            NodeDataKind::ProcessingInstruction,
        ),
        (RawNodeData::Doctype, NodeDataKind::Doctype),
        (RawNodeData::Document, NodeDataKind::Document),
        (RawNodeData::DocumentFragment, NodeDataKind::DocumentFragment),
    ];
    for (data, expected) in &cases {
        assert_eq!(NodeDataKind::type_of(data), *expected);
        assert_eq!(NodeDataKind::type_of(data), NodeDataKind::type_of(data));
    }
}

#[test]
fn prune_detaches_comment_and_keeps_content() {
    // <div><!--c--><p>hi</p></div> with useful = {Element, Text}
    let tree = el("div", vec![comment("c"), el("p", vec![text("hi")])]);
    let useful = NodeKindSet::default_useful();
    let pruned = only_useful_children(tree, &useful);
    let mapped = pruned.to_tui();
    assert_eq!(tag_of(&mapped), "div");
    assert_eq!(mapped.children.len(), 1);
    assert_eq!(tag_of(&mapped.children[0]), "p");
    assert_eq!(mapped.children[0].children.len(), 1);
    assert_eq!(text_of(&mapped.children[0].children[0]), "hi");
}

#[test]
fn prune_keeps_container_with_surviving_content() {
    // A document node is not itself useful, but it holds useful content and
    // must stay as a pass-through.
    let tree = raw(
        RawNodeData::Document,
        vec![raw(RawNodeData::Doctype, Vec::new()), el("html", vec![text("body")])],
    );
    let useful = NodeKindSet::default_useful();
    let pruned = only_useful_children(tree, &useful);
    assert!(matches!(pruned.data, RawNodeData::Document));
    assert_eq!(pruned.children.len(), 1);
    assert!(matches!(
        pruned.children[0].data,
        RawNodeData::Element { .. }
    ));
}

#[test]
fn prune_drops_empty_useless_branch() {
    // A comment that only holds another comment vanishes whole.
    let tree = el("div", vec![raw(RawNodeData::Comment("outer".to_owned()), vec![comment("inner")])]);
    let useful = NodeKindSet::default_useful();
    let pruned = only_useful_children(tree, &useful);
    assert_eq!(pruned.children.len(), 0);
}

#[test]
fn prune_twice_changes_nothing() {
    let tree = el(
        "div",
        vec![
            comment("c"),
            el("p", vec![text("hi"), comment("d")]),
            raw(RawNodeData::Doctype, Vec::new()),
        ],
    );
    let useful = NodeKindSet::default_useful();
    let once = only_useful_children(tree, &useful);
    let copy = raw_clone(&once);
    let twice = only_useful_children(copy, &useful);
    assert!(raw_eq(&once, &twice));
}

fn raw_clone(n: &RawNode) -> RawNode {
    let data = match &n.data {
        RawNodeData::Element { name, attrs, contents } => RawNodeData::Element {
            name: name.clone(),
            attrs: attrs.clone(),
            contents: contents.iter().map(raw_clone).collect(),
        },
        RawNodeData::Text(s) => RawNodeData::Text(s.clone()),
        RawNodeData::Comment(s) => RawNodeData::Comment(s.clone()),
        RawNodeData::ProcessingInstruction => RawNodeData::ProcessingInstruction,
        RawNodeData::Doctype => RawNodeData::Doctype,
        RawNodeData::Document => RawNodeData::Document,
        RawNodeData::DocumentFragment => RawNodeData::DocumentFragment,
    };
    RawNode { data, children: n.children.iter().map(raw_clone).collect() }
}

fn tui_clone(n: &TuiNode) -> TuiNode {
    let data = match &n.data {
        TuiNodeData::Element(e) => TuiNodeData::Element(etymon::tui::TuiElement {
            qual_name: e.qual_name.clone(),
            attributes: e
                .attributes
                .iter()
                .map(|a| etymon::tui::TuiAttribute(a.0.clone()))
                .collect(),
            contents: e.contents.iter().map(tui_clone).collect(),
        }),
        TuiNodeData::Text(s) => TuiNodeData::Text(s.clone()),
        TuiNodeData::Comment(s) => TuiNodeData::Comment(s.clone()),
        TuiNodeData::Phantom => TuiNodeData::Phantom,
    };
    TuiNode { data, children: n.children.iter().map(tui_clone).collect() }
}

#[test]
fn mapper_sends_structural_categories_to_phantom() {
    let doc = raw(RawNodeData::Document, vec![raw(RawNodeData::Doctype, Vec::new())]);
    let mapped = doc.to_tui();
    assert!(matches!(mapped.data, TuiNodeData::Phantom));
    assert_eq!(mapped.children.len(), 1);
    assert!(matches!(mapped.children[0].data, TuiNodeData::Phantom));
}

#[test]
fn collapse_splices_fragment_children_in_place() {
    // A fragment mapped to Phantom with two text children dissolves into the
    // parent's child list at its former position, siblings kept in order.
    let parent = tui_el(
        "div",
        vec![
            tui_text("before"),
            phantom(vec![tui_text("a"), tui_text("b")]),
            tui_text("after"),
        ],
    );
    let collapsed = parent.collapse_phantoms();
    assert_eq!(collapsed.len(), 1);
    let root = &collapsed[0];
    assert_eq!(tag_of(root), "div");
    let texts: Vec<&str> = root.children.iter().map(|c| text_of(c)).collect();
    assert_eq!(texts, vec!["before", "a", "b", "after"]);
}

#[test]
fn collapse_removes_nested_phantoms() {
    let tree = tui_el(
        "div",
        vec![phantom(vec![phantom(vec![tui_text("deep")]), tui_text("x")])],
    );
    let collapsed = tree.collapse_phantoms();
    assert_eq!(collapsed.len(), 1);
    assert_eq!(count_phantoms(&collapsed[0]), 0);
    let texts: Vec<&str> = collapsed[0].children.iter().map(|c| text_of(c)).collect();
    assert_eq!(texts, vec!["deep", "x"]);
}

#[test]
fn collapse_phantom_root_dissolves_into_children() {
    let tree = phantom(vec![tui_text("a"), tui_el("p", Vec::new())]);
    let collapsed = tree.collapse_phantoms();
    assert_eq!(collapsed.len(), 2);
    assert_eq!(text_of(&collapsed[0]), "a");
    assert_eq!(tag_of(&collapsed[1]), "p");
}

#[test]
fn collapse_twice_changes_nothing() {
    let tree = tui_el(
        "div",
        vec![
            phantom(vec![tui_text("a")]),
            tui_el("p", vec![phantom(vec![tui_text("b"), tui_text("c")])]),
        ],
    );
    let once = tree.collapse_phantoms();
    let copies: Vec<TuiNode> = once.iter().map(tui_clone).collect();
    let twice: Vec<TuiNode> = copies
        .into_iter()
        .flat_map(|n| n.collapse_phantoms())
        .collect();
    assert_eq!(once.len(), twice.len());
    assert!(once.iter().zip(twice.iter()).all(|(a, b)| tui_eq(a, b)));
}

#[test]
fn isolate_extracts_nav_and_aside_in_order() {
    let mut tree = tui_el(
        "body",
        vec![
            tui_el("nav", vec![tui_text("menu")]),
            tui_el("main", vec![tui_el("aside", vec![tui_text("side")]), tui_text("story")]),
        ],
    );
    let navs = tree.isolate_nav_elements();
    assert_eq!(navs.len(), 2);
    assert_eq!(tag_of(&navs[0]), "nav");
    assert_eq!(tag_of(&navs[1]), "aside");
    // the content tree keeps everything else, in order
    assert_eq!(tag_of(&tree), "body");
    assert_eq!(tree.children.len(), 1);
    assert_eq!(tag_of(&tree.children[0]), "main");
    assert_eq!(tree.children[0].children.len(), 1);
    assert_eq!(text_of(&tree.children[0].children[0]), "story");
}

#[test]
fn isolate_without_nav_keeps_everything() {
    let mut tree = tui_el("body", vec![tui_el("p", vec![tui_text("x")])]);
    let expected = tui_clone(&tree);
    let navs = tree.isolate_nav_elements();
    assert_eq!(navs.len(), 0);
    assert!(tui_eq(&tree, &expected));
}

#[test]
fn isolate_forest_partitions_node_count() {
    fn node_count(n: &TuiNode) -> usize {
        1 + n.children.iter().map(node_count).sum::<usize>()
    }
    let forest = vec![
        tui_el("nav", vec![tui_text("menu")]),
        tui_el("main", vec![tui_el("aside", Vec::new()), tui_text("body")]),
    ];
    let before: usize = forest.iter().map(node_count).sum();
    let (content, navs) = isolate_nav_forest(forest);
    let after: usize =
        content.iter().map(node_count).sum::<usize>() + navs.iter().map(node_count).sum::<usize>();
    assert_eq!(before, after);
}
