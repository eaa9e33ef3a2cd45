//! The display model: raw nodes mapped to terminal-renderable nodes, the
//! collapser that removes Phantom nodes, and the isolation of navigation
//! chrome from page content.
use vstd::prelude::*;
use vstd::multiset::Multiset;

use crate::browser::RawDataView;
use crate::browser::RawNode;
use crate::browser::RawNodeData;
use crate::browser::RawView;
use crate::browser::raw_forest_view;

verus! {

/// One attribute value of a display element; attribute names are not kept.
pub struct TuiAttribute(pub String);

/// The payload of a display node. `Phantom` marks a node whose own rendering
/// is delegated elsewhere: only its descendants matter, and collapsing
/// removes it.
pub enum TuiNodeData {
    Element(TuiElement),
    Text(String),
    Comment(String),
    Phantom,
}

/// A display element: its local tag name, its attribute values in document
/// order, and the template contents it may carry, kept apart from ordinary
/// children.
pub struct TuiElement {
    pub qual_name: String,
    pub attributes: Vec<TuiAttribute>,
    pub contents: Vec<TuiNode>,
}

/// One node of the display tree, owning its ordered children.
pub struct TuiNode {
    pub data: TuiNodeData,
    pub children: Vec<TuiNode>,
}

/// Mathematical image of `TuiElement`.
pub struct TuiElementView {
    pub qual_name: Seq<char>,
    pub attributes: Seq<Seq<char>>,
    pub contents: Seq<TuiNodeView>,
}

/// Mathematical image of `TuiNodeData`.
pub enum TuiDataView {
    Element(TuiElementView),
    Text(Seq<char>),
    Comment(Seq<char>),
    Phantom,
}

/// Mathematical image of `TuiNode`: the same tree over `Seq`.
pub struct TuiNodeView {
    pub data: TuiDataView,
    pub children: Seq<TuiNodeView>,
}

/// The views of a sequence of attribute values.
pub open spec fn attr_views(s: Seq<TuiAttribute>) -> Seq<Seq<char>> {
    Seq::new(s.len(), |i: int| s[i].0@)
}

pub open spec fn tui_data_view(d: TuiNodeData) -> TuiDataView
    decreases d,
{
    match d {
        TuiNodeData::Element(e) => TuiDataView::Element(
            TuiElementView {
                qual_name: e.qual_name@,
                attributes: attr_views(e.attributes@),
                contents: tui_forest_view(e.contents@),
            },
        ),
        TuiNodeData::Text(s) => TuiDataView::Text(s@),
        TuiNodeData::Comment(s) => TuiDataView::Comment(s@),
        TuiNodeData::Phantom => TuiDataView::Phantom,
    }
}

pub open spec fn tui_view(n: TuiNode) -> TuiNodeView
    decreases n,
{
    TuiNodeView { data: tui_data_view(n.data), children: tui_forest_view(n.children@) }
}

pub open spec fn tui_forest_view(s: Seq<TuiNode>) -> Seq<TuiNodeView>
    decreases s,
{
    if s.len() == 0 {
        Seq::empty()
    } else {
        seq![tui_view(s.first())] + tui_forest_view(s.drop_first())
    }
}

impl View for TuiNode {
    type V = TuiNodeView;

    open spec fn view(&self) -> TuiNodeView {
        tui_view(*self)
    }
}

impl View for TuiNodeData {
    type V = TuiDataView;

    open spec fn view(&self) -> TuiDataView {
        tui_data_view(*self)
    }
}

/// A display forest view distributes over concatenation.
pub proof fn lemma_tui_forest_view_concat(a: Seq<TuiNode>, b: Seq<TuiNode>)
    ensures
        tui_forest_view(a + b) == tui_forest_view(a) + tui_forest_view(b),
    decreases a,
{
    if a.len() == 0 {
        assert(a + b =~= b);
        assert(tui_forest_view(a) + tui_forest_view(b) =~= tui_forest_view(b));
    } else {
        assert((a + b).first() == a.first());
        assert((a + b).drop_first() =~= a.drop_first() + b);
        lemma_tui_forest_view_concat(a.drop_first(), b);
        assert(tui_forest_view(a + b) =~= tui_forest_view(a) + tui_forest_view(b));
    }
}

/// The display payload a raw payload maps to: elements, text and comments
/// keep their content, while every other category becomes Phantom, whose
/// rendering is delegated to the page backend.
pub open spec fn data_to_tui_spec(d: RawDataView) -> TuiDataView
    decreases d,
{
    match d {
        RawDataView::Element { name, attrs, contents } => TuiDataView::Element(
            TuiElementView {
                qual_name: name,
                attributes: attrs,
                contents: forest_to_tui_spec(contents),
            },
        ),
        RawDataView::Text(s) => TuiDataView::Text(s),
        RawDataView::Comment(s) => TuiDataView::Comment(s),
        RawDataView::ProcessingInstruction => TuiDataView::Phantom,
        RawDataView::Doctype => TuiDataView::Phantom,
        RawDataView::Document => TuiDataView::Phantom,
        RawDataView::DocumentFragment => TuiDataView::Phantom,
    }
}

/// The display tree a raw tree maps to, preserving document order.
pub open spec fn to_tui_spec(t: RawView) -> TuiNodeView
    decreases t,
{
    TuiNodeView { data: data_to_tui_spec(t.data), children: forest_to_tui_spec(t.children) }
}

pub open spec fn forest_to_tui_spec(s: Seq<RawView>) -> Seq<TuiNodeView>
    decreases s,
{
    if s.len() == 0 {
        Seq::empty()
    } else {
        seq![to_tui_spec(s.first())] + forest_to_tui_spec(s.drop_first())
    }
}

impl RawNode {
    /// Convert a (pruned) raw tree into its display tree, in document order.
    pub fn to_tui(&self) -> (r: TuiNode)
        ensures
            r@ == to_tui_spec(self@),
        decreases *self, 0int,
    {
        let data = self.data.to_tui();
        let children = forest_to_tui(&self.children, 0);
        let r = TuiNode { data, children };
        proof {
            assert(r@.data == to_tui_spec(self@).data);
            assert(self.children@.skip(0) =~= self.children@);
            assert(r@.children == to_tui_spec(self@).children);
        }
        r
    }
}

impl RawNodeData {
    /// Convert a raw payload into its display payload.
    pub fn to_tui(&self) -> (r: TuiNodeData)
        ensures
            r@ == data_to_tui_spec(self@),
        decreases *self, 0int,
    {
        match self {
            RawNodeData::Element { name, attrs, contents } => {
                let mut attributes: Vec<TuiAttribute> = Vec::new();
                let mut i: usize = 0;
                while i < attrs.len()
                    invariant
                        0 <= i <= attrs@.len(),
                        attributes@.len() == i,
                        forall|j: int| 0 <= j < i ==> attributes@[j].0@ == attrs@[j]@,
                    decreases attrs@.len() - i,
                {
                    attributes.push(TuiAttribute(attrs[i].clone()));
                    i = i + 1;
                }
                let conv = forest_to_tui(contents, 0);
                proof {
                    assert(contents@.skip(0) =~= contents@);
                    assert(attr_views(attributes@) =~= Seq::new(
                        attrs@.len(),
                        |j: int| attrs@[j]@,
                    ));
                }
                TuiNodeData::Element(
                    TuiElement { qual_name: name.clone(), attributes, contents: conv },
                )
            },
            RawNodeData::Text(s) => TuiNodeData::Text(s.clone()),
            RawNodeData::Comment(s) => TuiNodeData::Comment(s.clone()),
            RawNodeData::ProcessingInstruction => TuiNodeData::Phantom,
            RawNodeData::Doctype => TuiNodeData::Phantom,
            RawNodeData::Document => TuiNodeData::Phantom,
            RawNodeData::DocumentFragment => TuiNodeData::Phantom,
        }
    }
}

impl TuiNodeData {
    /// Whether this payload delegates its rendering.
    pub open spec fn spec_is_phantom(&self) -> bool {
        (*self) is Phantom
    }

    /// Whether this payload delegates its rendering.
    pub fn is_phantom(&self) -> (r: bool)
        ensures
            r == self.spec_is_phantom(),
            r == (self@ is Phantom),
    {
        match self {
            TuiNodeData::Phantom => true,
            _ => false,
        }
    }
}

/// What collapsing one display node leaves behind: its children are
/// collapsed first; a Phantom node then dissolves into that sequence, while
/// any other node survives with the sequence as its children. A Phantom root
/// thus becomes the sequence of its collapsed children rather than a
/// synthetic node.
pub open spec fn collapse_spec(t: TuiNodeView) -> Seq<TuiNodeView>
    decreases t,
{
    let cc = collapse_forest(t.children);
    if t.data is Phantom {
        cc
    } else {
        seq![TuiNodeView { data: t.data, children: cc }]
    }
}

/// Collapsing a sequence of siblings: every direct Phantom is replaced, in
/// place and in order, by its own collapsed children.
pub open spec fn collapse_forest(s: Seq<TuiNodeView>) -> Seq<TuiNodeView>
    decreases s,
{
    if s.len() == 0 {
        Seq::empty()
    } else {
        collapse_spec(s.first()) + collapse_forest(s.drop_first())
    }
}

impl TuiNode {
    /// Rewrite this display tree so that no Phantom node remains anywhere:
    /// each one is replaced by its own children, spliced into its former
    /// position with the order of all other siblings preserved. The result
    /// is a sequence because a Phantom root dissolves into its children.
    pub fn collapse_phantoms(self) -> (r: Vec<TuiNode>)
        ensures
            tui_forest_view(r@) == collapse_spec(self@),
        decreases self,
    {
        let ghost g = self;
        let TuiNode { data, children } = self;
        proof {
            assert(decreases_to!(g => g.children));
        }
        let cc = collapse_children(children);
        if data.is_phantom() {
            proof {
                assert(g@.data is Phantom);
            }
            cc
        } else {
            let node = TuiNode { data, children: cc };
            let mut r: Vec<TuiNode> = Vec::new();
            r.push(node);
            proof {
                assert(r@.first() == node);
                assert(r@.drop_first() =~= Seq::<TuiNode>::empty());
                assert(tui_forest_view(Seq::<TuiNode>::empty()) == Seq::<TuiNodeView>::empty());
                assert(tui_forest_view(r@) =~= seq![tui_view(node)]);
                assert(tui_view(node) == TuiNodeView {
                    data: g@.data,
                    children: collapse_forest(g@.children),
                });
            }
            r
        }
    }
}

/// Collapse each sibling in order and splice the results together.
fn collapse_children(s: Vec<TuiNode>) -> (r: Vec<TuiNode>)
    ensures
        tui_forest_view(r@) == collapse_forest(tui_forest_view(s@)),
    decreases s@,
{
    let mut s = s;
    if s.len() == 0 {
        let r: Vec<TuiNode> = Vec::new();
        proof {
            assert(tui_forest_view(r@) =~= collapse_forest(tui_forest_view(s@)));
        }
        r
    } else {
        let ghost s0 = s@;
        let ghost sv = tui_forest_view(s0);
        let c = s.remove(0);
        proof {
            assert(c == s0.first());
            assert(s@ =~= s0.drop_first());
            assert(sv == seq![tui_view(s0.first())] + tui_forest_view(s0.drop_first()));
            assert(sv.first() == tui_view(c));
            assert(sv.drop_first() =~= tui_forest_view(s0.drop_first()));
        }
        let mut head = c.collapse_phantoms();
        let mut rest = collapse_children(s);
        proof {
            assert(tui_forest_view(head@) == collapse_spec(sv.first()));
        }
        let ghost h0 = head@;
        let ghost r0 = rest@;
        head.append(&mut rest);
        proof {
            assert(head@ == h0 + r0);
            lemma_tui_forest_view_concat(h0, r0);
            assert(tui_forest_view(head@) =~= collapse_forest(sv));
        }
        head
    }
}

/// No Phantom payload occurs anywhere in this display tree. Template
/// contents inside an element are payload handed to the backend, not part of
/// the rendered tree, and are not inspected.
pub open spec fn phantom_free(t: TuiNodeView) -> bool
    decreases t,
{
    !(t.data is Phantom) && forest_phantom_free(t.children)
}

/// No Phantom payload occurs anywhere in this display forest.
pub open spec fn forest_phantom_free(s: Seq<TuiNodeView>) -> bool
    decreases s,
{
    s.len() == 0 || (phantom_free(s.first()) && forest_phantom_free(s.drop_first()))
}

/// Phantom-freeness of a forest splits over concatenation.
pub proof fn lemma_forest_phantom_free_concat(a: Seq<TuiNodeView>, b: Seq<TuiNodeView>)
    ensures
        forest_phantom_free(a + b) == (forest_phantom_free(a) && forest_phantom_free(b)),
    decreases a,
{
    if a.len() == 0 {
        assert(a + b =~= b);
    } else {
        assert((a + b).first() == a.first());
        assert((a + b).drop_first() =~= a.drop_first() + b);
        lemma_forest_phantom_free_concat(a.drop_first(), b);
    }
}

/// Collapsing removes all Phantoms: whatever the input tree, no node of the
/// collapsed result carries a Phantom payload.
pub proof fn lemma_collapse_phantom_free(t: TuiNodeView)
    ensures
        forest_phantom_free(collapse_spec(t)),
    decreases t,
{
    lemma_collapse_forest_phantom_free(t.children);
    if !(t.data is Phantom) {
        let node = TuiNodeView { data: t.data, children: collapse_forest(t.children) };
        assert(collapse_spec(t) == seq![node]);
        assert(collapse_spec(t).first() == node);
        assert(collapse_spec(t).drop_first() =~= Seq::<TuiNodeView>::empty());
        assert(forest_phantom_free(Seq::<TuiNodeView>::empty()));
        assert(phantom_free(node));
    }
}

/// Collapsing removes all Phantoms from a forest.
pub proof fn lemma_collapse_forest_phantom_free(s: Seq<TuiNodeView>)
    ensures
        forest_phantom_free(collapse_forest(s)),
    decreases s,
{
    if s.len() > 0 {
        lemma_collapse_phantom_free(s.first());
        lemma_collapse_forest_phantom_free(s.drop_first());
        lemma_forest_phantom_free_concat(
            collapse_spec(s.first()),
            collapse_forest(s.drop_first()),
        );
    }
}

/// A tree already free of Phantoms collapses to exactly itself.
pub proof fn lemma_collapse_phantom_free_fixed(t: TuiNodeView)
    requires
        phantom_free(t),
    ensures
        collapse_spec(t) == seq![t],
    decreases t,
{
    lemma_collapse_forest_phantom_free_fixed(t.children);
}

/// A forest already free of Phantoms collapses to exactly itself.
pub proof fn lemma_collapse_forest_phantom_free_fixed(s: Seq<TuiNodeView>)
    requires
        forest_phantom_free(s),
    ensures
        collapse_forest(s) == s,
    decreases s,
{
    if s.len() > 0 {
        lemma_collapse_phantom_free_fixed(s.first());
        lemma_collapse_forest_phantom_free_fixed(s.drop_first());
        assert(collapse_forest(s) =~= seq![s.first()] + s.drop_first());
        assert(seq![s.first()] + s.drop_first() =~= s);
    }
}

/// Collapsing is idempotent: collapsing the already-collapsed result of a
/// tree changes nothing.
pub proof fn lemma_collapse_idempotent(t: TuiNodeView)
    ensures
        collapse_forest(collapse_spec(t)) == collapse_spec(t),
    decreases t,
{
    lemma_collapse_phantom_free(t);
    lemma_collapse_forest_phantom_free_fixed(collapse_spec(t));
}

/// The payloads of all non-Phantom nodes of a display tree, in document
/// order (the node before its children).
pub open spec fn payloads(t: TuiNodeView) -> Seq<TuiDataView>
    decreases t,
{
    (if t.data is Phantom {
        Seq::empty()
    } else {
        seq![t.data]
    }) + forest_payloads(t.children)
}

/// The payloads of all non-Phantom nodes of a display forest, in order.
pub open spec fn forest_payloads(s: Seq<TuiNodeView>) -> Seq<TuiDataView>
    decreases s,
{
    if s.len() == 0 {
        Seq::empty()
    } else {
        payloads(s.first()) + forest_payloads(s.drop_first())
    }
}

/// Payload sequences of a forest distribute over concatenation.
pub proof fn lemma_forest_payloads_concat(a: Seq<TuiNodeView>, b: Seq<TuiNodeView>)
    ensures
        forest_payloads(a + b) == forest_payloads(a) + forest_payloads(b),
    decreases a,
{
    if a.len() == 0 {
        assert(a + b =~= b);
        assert(forest_payloads(a) + forest_payloads(b) =~= forest_payloads(b));
    } else {
        assert((a + b).first() == a.first());
        assert((a + b).drop_first() =~= a.drop_first() + b);
        lemma_forest_payloads_concat(a.drop_first(), b);
        assert(forest_payloads(a + b) =~= forest_payloads(a) + forest_payloads(b));
    }
}

/// Collapsing preserves order: the non-Phantom payloads of the collapsed
/// result, in document order, are exactly those of the input tree.
pub proof fn lemma_collapse_preserves_payloads(t: TuiNodeView)
    ensures
        forest_payloads(collapse_spec(t)) == payloads(t),
    decreases t,
{
    let cc = collapse_forest(t.children);
    lemma_collapse_forest_preserves_payloads(t.children);
    if t.data is Phantom {
        assert(payloads(t) =~= forest_payloads(t.children));
    } else {
        let node = TuiNodeView { data: t.data, children: cc };
        assert(collapse_spec(t) == seq![node]);
        assert(collapse_spec(t).first() == node);
        assert(collapse_spec(t).drop_first() =~= Seq::<TuiNodeView>::empty());
        assert(forest_payloads(Seq::<TuiNodeView>::empty()) == Seq::<TuiDataView>::empty());
        assert(forest_payloads(collapse_spec(t)) =~= payloads(node));
        assert(payloads(node) =~= payloads(t));
    }
}

/// Collapsing a forest preserves its non-Phantom payload sequence.
pub proof fn lemma_collapse_forest_preserves_payloads(s: Seq<TuiNodeView>)
    ensures
        forest_payloads(collapse_forest(s)) == forest_payloads(s),
    decreases s,
{
    if s.len() > 0 {
        lemma_collapse_preserves_payloads(s.first());
        lemma_collapse_forest_preserves_payloads(s.drop_first());
        lemma_forest_payloads_concat(collapse_spec(s.first()), collapse_forest(s.drop_first()));
    }
}

/// The payloads of the non-Phantom leaves of a display tree, in document
/// order: a childless Phantom leaves nothing, any other childless node is a
/// leaf, and an inner node defers to its children.
pub open spec fn leaves(t: TuiNodeView) -> Seq<TuiDataView>
    decreases t,
{
    if t.children.len() == 0 {
        if t.data is Phantom {
            Seq::empty()
        } else {
            seq![t.data]
        }
    } else {
        forest_leaves(t.children)
    }
}

/// The non-Phantom leaf payloads of a display forest, in order.
pub open spec fn forest_leaves(s: Seq<TuiNodeView>) -> Seq<TuiDataView>
    decreases s,
{
    if s.len() == 0 {
        Seq::empty()
    } else {
        leaves(s.first()) + forest_leaves(s.drop_first())
    }
}

/// Every Phantom node of the tree has at least one child. Under this
/// condition a node keeps or loses leaf-hood in step with collapsing; a
/// childless Phantom under a sole parent would turn that parent into a new
/// leaf instead.
pub open spec fn phantoms_carry(t: TuiNodeView) -> bool
    decreases t,
{
    (t.data is Phantom ==> t.children.len() > 0) && forest_phantoms_carry(t.children)
}

pub open spec fn forest_phantoms_carry(s: Seq<TuiNodeView>) -> bool
    decreases s,
{
    s.len() == 0 || (phantoms_carry(s.first()) && forest_phantoms_carry(s.drop_first()))
}

/// Leaf sequences of a forest distribute over concatenation.
pub proof fn lemma_forest_leaves_concat(a: Seq<TuiNodeView>, b: Seq<TuiNodeView>)
    ensures
        forest_leaves(a + b) == forest_leaves(a) + forest_leaves(b),
    decreases a,
{
    if a.len() == 0 {
        assert(a + b =~= b);
        assert(forest_leaves(a) + forest_leaves(b) =~= forest_leaves(b));
    } else {
        assert((a + b).first() == a.first());
        assert((a + b).drop_first() =~= a.drop_first() + b);
        lemma_forest_leaves_concat(a.drop_first(), b);
        assert(forest_leaves(a + b) =~= forest_leaves(a) + forest_leaves(b));
    }
}

/// When every Phantom carries children, collapsing a tree yields at least
/// one node, and collapsing a forest yields an empty result only for an
/// empty input.
pub proof fn lemma_collapse_nonempty(t: TuiNodeView)
    requires
        phantoms_carry(t),
    ensures
        collapse_spec(t).len() >= 1,
    decreases t,
{
    if t.data is Phantom {
        lemma_collapse_forest_nonempty(t.children);
    }
}

pub proof fn lemma_collapse_forest_nonempty(s: Seq<TuiNodeView>)
    requires
        forest_phantoms_carry(s),
    ensures
        s.len() == 0 ==> collapse_forest(s).len() == 0,
        s.len() > 0 ==> collapse_forest(s).len() >= 1,
    decreases s,
{
    if s.len() > 0 {
        lemma_collapse_nonempty(s.first());
    }
}

/// Collapsing preserves the non-Phantom leaf sequence, provided every
/// Phantom node has at least one child: the leaves of the collapsed result,
/// in document order, are exactly those of the input.
pub proof fn lemma_collapse_preserves_leaves(t: TuiNodeView)
    requires
        phantoms_carry(t),
    ensures
        forest_leaves(collapse_spec(t)) == leaves(t),
    decreases t,
{
    let cc = collapse_forest(t.children);
    lemma_collapse_forest_preserves_leaves(t.children);
    lemma_collapse_forest_nonempty(t.children);
    if t.data is Phantom {
        assert(t.children.len() > 0);
        assert(forest_leaves(collapse_spec(t)) == leaves(t));
    } else {
        let node = TuiNodeView { data: t.data, children: cc };
        assert(collapse_spec(t) == seq![node]);
        assert(collapse_spec(t).first() == node);
        assert(collapse_spec(t).drop_first() =~= Seq::<TuiNodeView>::empty());
        assert(forest_leaves(Seq::<TuiNodeView>::empty()) == Seq::<TuiDataView>::empty());
        assert(forest_leaves(collapse_spec(t)) =~= leaves(node));
        if t.children.len() == 0 {
            assert(cc.len() == 0);
            assert(leaves(node) == leaves(t));
        } else {
            assert(cc.len() > 0);
            assert(leaves(node) == forest_leaves(cc));
            assert(leaves(t) == forest_leaves(t.children));
        }
    }
}

/// Collapsing a forest whose Phantoms all carry children preserves its
/// non-Phantom leaf sequence.
pub proof fn lemma_collapse_forest_preserves_leaves(s: Seq<TuiNodeView>)
    requires
        forest_phantoms_carry(s),
    ensures
        forest_leaves(collapse_forest(s)) == forest_leaves(s),
    decreases s,
{
    if s.len() > 0 {
        lemma_collapse_preserves_leaves(s.first());
        lemma_collapse_forest_preserves_leaves(s.drop_first());
        lemma_forest_leaves_concat(collapse_spec(s.first()), collapse_forest(s.drop_first()));
    }
}

/// Whether a display payload is recognized as navigation chrome: an element
/// whose tag names a navigation bar or a sidebar container. The rule is the
/// default detection strategy; the partition contract below does not depend
/// on which payloads it picks.
pub open spec fn is_nav_view(d: TuiDataView) -> bool {
    match d {
        TuiDataView::Element(e) => e.qual_name == "nav"@ || e.qual_name == "aside"@,
        _ => false,
    }
}

/// Whether a display node is recognized as navigation chrome.
fn is_nav_node(n: &TuiNode) -> (r: bool)
    ensures
        r == is_nav_view(n@.data),
{
    match &n.data {
        TuiNodeData::Element(e) => {
            let nav: String = "nav".to_owned();
            let aside: String = "aside".to_owned();
            e.qual_name == nav || e.qual_name == aside
        },
        _ => false,
    }
}

/// What isolating navigation chrome leaves of one node: the node itself is
/// kept as content (the root is never extracted), and each descendant
/// subtree recognized as navigation is moved, in the order met by a single
/// top-down traversal, into the returned sequence of regions.
pub open spec fn isolate_spec(t: TuiNodeView) -> (TuiNodeView, Seq<TuiNodeView>)
    decreases t,
{
    let r = isolate_forest(t.children);
    (TuiNodeView { data: t.data, children: r.0 }, r.1)
}

/// Isolating navigation chrome from a sequence of siblings: a navigation
/// subtree moves whole (it is not searched further), any other subtree stays
/// and is searched recursively.
pub open spec fn isolate_forest(s: Seq<TuiNodeView>) -> (Seq<TuiNodeView>, Seq<TuiNodeView>)
    decreases s,
{
    if s.len() == 0 {
        (Seq::empty(), Seq::empty())
    } else {
        let rest = isolate_forest(s.drop_first());
        if is_nav_view(s.first().data) {
            (rest.0, seq![s.first()] + rest.1)
        } else {
            let r0 = isolate_spec(s.first());
            (seq![r0.0] + rest.0, r0.1 + rest.1)
        }
    }
}

impl TuiNode {
    /// Extract every subtree recognized as navigation chrome out of this
    /// tree, in the order met top-down, leaving the rest as page content.
    pub fn isolate_nav_elements(&mut self) -> (r: Vec<TuiNode>)
        ensures
            final(self)@ == isolate_spec(old(self)@).0,
            tui_forest_view(r@) == isolate_spec(old(self)@).1,
    {
        let mut tmp = TuiNode { data: TuiNodeData::Phantom, children: Vec::new() };
        core::mem::swap(self, &mut tmp);
        let (content, navs) = isolate_node(tmp);
        *self = content;
        navs
    }
}

/// Isolate navigation chrome below one owned node.
fn isolate_node(n: TuiNode) -> (r: (TuiNode, Vec<TuiNode>))
    ensures
        r.0@ == isolate_spec(n@).0,
        tui_forest_view(r.1@) == isolate_spec(n@).1,
    decreases n,
{
    let ghost g = n;
    let TuiNode { data, children } = n;
    proof {
        assert(decreases_to!(g => g.children));
    }
    let (content, navs) = isolate_nav_forest(children);
    let kept = TuiNode { data, children: content };
    proof {
        assert(kept@ == isolate_spec(g@).0);
    }
    (kept, navs)
}

/// Isolate navigation chrome from each sibling in order.
pub fn isolate_nav_forest(s: Vec<TuiNode>) -> (r: (Vec<TuiNode>, Vec<TuiNode>))
    ensures
        tui_forest_view(r.0@) == isolate_forest(tui_forest_view(s@)).0,
        tui_forest_view(r.1@) == isolate_forest(tui_forest_view(s@)).1,
    decreases s@,
{
    let mut s = s;
    if s.len() == 0 {
        let content: Vec<TuiNode> = Vec::new();
        let navs: Vec<TuiNode> = Vec::new();
        proof {
            assert(tui_forest_view(content@) =~= isolate_forest(tui_forest_view(s@)).0);
            assert(tui_forest_view(navs@) =~= isolate_forest(tui_forest_view(s@)).1);
        }
        (content, navs)
    } else {
        let ghost s0 = s@;
        let ghost sv = tui_forest_view(s0);
        let c = s.remove(0);
        proof {
            assert(c == s0.first());
            assert(s@ =~= s0.drop_first());
            assert(sv == seq![tui_view(s0.first())] + tui_forest_view(s0.drop_first()));
            assert(sv.first() == tui_view(c));
            assert(sv.drop_first() =~= tui_forest_view(s0.drop_first()));
        }
        let nav_here = is_nav_node(&c);
        let (mut content_rest, mut navs_rest) = isolate_nav_forest(s);
        if nav_here {
            let ghost n0 = navs_rest@;
            navs_rest.insert(0, c);
            proof {
                assert(navs_rest@.first() == c);
                assert(navs_rest@.drop_first() =~= n0);
                assert(tui_forest_view(navs_rest@) == seq![tui_view(c)] + tui_forest_view(n0));
                assert(tui_forest_view(navs_rest@) =~= isolate_forest(sv).1);
            }
            (content_rest, navs_rest)
        } else {
            let (c2, mut cnavs) = isolate_node(c);
            let ghost k0 = content_rest@;
            content_rest.insert(0, c2);
            let ghost cn0 = cnavs@;
            let ghost nr0 = navs_rest@;
            cnavs.append(&mut navs_rest);
            proof {
                assert(content_rest@.first() == c2);
                assert(content_rest@.drop_first() =~= k0);
                assert(tui_forest_view(content_rest@) == seq![tui_view(c2)] + tui_forest_view(
                    k0,
                ));
                assert(tui_forest_view(content_rest@) =~= isolate_forest(sv).0);
                assert(cnavs@ == cn0 + nr0);
                lemma_tui_forest_view_concat(cn0, nr0);
                assert(tui_forest_view(cnavs@) =~= isolate_forest(sv).1);
            }
            (content_rest, cnavs)
        }
    }
}

/// The multiset of every payload of a display tree, the node's own first.
pub open spec fn node_mset(t: TuiNodeView) -> Multiset<TuiDataView>
    decreases t,
{
    Multiset::singleton(t.data).add(forest_mset(t.children))
}

/// The multiset of every payload of a display forest.
pub open spec fn forest_mset(s: Seq<TuiNodeView>) -> Multiset<TuiDataView>
    decreases s,
{
    if s.len() == 0 {
        Multiset::empty()
    } else {
        node_mset(s.first()).add(forest_mset(s.drop_first()))
    }
}

/// Payload multisets of a forest distribute over concatenation.
pub proof fn lemma_forest_mset_concat(a: Seq<TuiNodeView>, b: Seq<TuiNodeView>)
    ensures
        forest_mset(a + b) == forest_mset(a).add(forest_mset(b)),
    decreases a,
{
    if a.len() == 0 {
        assert(a + b =~= b);
        assert(forest_mset(a).add(forest_mset(b)) =~= forest_mset(b));
    } else {
        assert((a + b).first() == a.first());
        assert((a + b).drop_first() =~= a.drop_first() + b);
        lemma_forest_mset_concat(a.drop_first(), b);
        assert(forest_mset(a + b) =~= forest_mset(a).add(forest_mset(b)));
    }
}

/// Isolation partitions completely: every payload of the input tree appears
/// in the content tree or in one navigation region, with nothing lost and
/// nothing duplicated.
pub proof fn lemma_isolate_partitions(t: TuiNodeView)
    ensures
        node_mset(isolate_spec(t).0).add(forest_mset(isolate_spec(t).1)) == node_mset(t),
    decreases t,
{
    lemma_isolate_forest_partitions(t.children);
    assert(node_mset(isolate_spec(t).0).add(forest_mset(isolate_spec(t).1)) =~= node_mset(t));
}

/// Isolation of a forest partitions completely.
pub proof fn lemma_isolate_forest_partitions(s: Seq<TuiNodeView>)
    ensures
        forest_mset(isolate_forest(s).0).add(forest_mset(isolate_forest(s).1)) == forest_mset(s),
    decreases s,
{
    if s.len() > 0 {
        let rest = isolate_forest(s.drop_first());
        lemma_isolate_forest_partitions(s.drop_first());
        if is_nav_view(s.first().data) {
            let navs = seq![s.first()] + rest.1;
            assert(navs.first() == s.first());
            assert(navs.drop_first() =~= rest.1);
            assert(forest_mset(navs) == node_mset(s.first()).add(forest_mset(rest.1)));
            assert(forest_mset(rest.0).add(forest_mset(navs)) =~= forest_mset(s));
        } else {
            let r0 = isolate_spec(s.first());
            lemma_isolate_partitions(s.first());
            let content = seq![r0.0] + rest.0;
            assert(content.first() == r0.0);
            assert(content.drop_first() =~= rest.0);
            assert(forest_mset(content) == node_mset(r0.0).add(forest_mset(rest.0)));
            lemma_forest_mset_concat(r0.1, rest.1);
            assert(forest_mset(content).add(forest_mset(r0.1 + rest.1)) =~= forest_mset(s));
        }
    }
}

/// Convert the raw siblings from position `from` on, preserving their order.
fn forest_to_tui(v: &Vec<RawNode>, from: usize) -> (r: Vec<TuiNode>)
    requires
        from <= v@.len(),
    ensures
        tui_forest_view(r@) == forest_to_tui_spec(raw_forest_view(v@.skip(from as int))),
    decreases v@, v@.len() - from,
{
    if from == v.len() {
        let r: Vec<TuiNode> = Vec::new();
        proof {
            assert(v@.skip(from as int) =~= Seq::<RawNode>::empty());
            assert(tui_forest_view(r@) =~= forest_to_tui_spec(
                raw_forest_view(v@.skip(from as int)),
            ));
        }
        r
    } else {
        let ghost tail = v@.skip(from as int);
        let head = v[from].to_tui();
        let mut rest = forest_to_tui(v, from + 1);
        proof {
            assert(tail.first() == v@[from as int]);
            assert(tail.drop_first() =~= v@.skip(from as int + 1));
            assert(raw_forest_view(tail) == seq![crate::browser::raw_view(tail.first())]
                + raw_forest_view(tail.drop_first()));
            assert(raw_forest_view(tail).first() == crate::browser::raw_view(tail.first()));
            assert(raw_forest_view(tail).drop_first() =~= raw_forest_view(tail.drop_first()));
        }
        let ghost r0 = rest@;
        rest.insert(0, head);
        proof {
            assert(rest@.first() == head);
            assert(rest@.drop_first() =~= r0);
            assert(tui_forest_view(rest@) == seq![tui_view(head)] + tui_forest_view(r0));
            assert(tui_forest_view(rest@) =~= forest_to_tui_spec(raw_forest_view(tail)));
        }
        rest
    }
}

} // verus!
