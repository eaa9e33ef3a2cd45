//! The raw document model: classification of parsed HTML nodes and the
//! relevance filter that prunes branches with no useful content.
use vstd::prelude::*;

use kuchikiki::traits::TendrilSink;

verus! {

/// Data-less representation of a raw node's payload tag.
#[derive(PartialEq, Eq, Structural, Clone, Copy, Debug, Hash)]
pub enum NodeDataKind {
    Element,
    Text,
    Comment,
    ProcessingInstruction,
    Doctype,
    Document,
    DocumentFragment,
}

/// A set of `NodeDataKind` values, one membership flag per category.
#[derive(PartialEq, Eq, Structural, Clone, Copy, Debug)]
pub struct NodeKindSet {
    pub element: bool,
    pub text: bool,
    pub comment: bool,
    pub processing_instruction: bool,
    pub doctype: bool,
    pub document: bool,
    pub document_fragment: bool,
}

impl NodeKindSet {
    /// Membership, as seen by specifications.
    pub open spec fn spec_contains(&self, kind: NodeDataKind) -> bool {
        match kind {
            NodeDataKind::Element => self.element,
            NodeDataKind::Text => self.text,
            NodeDataKind::Comment => self.comment,
            NodeDataKind::ProcessingInstruction => self.processing_instruction,
            NodeDataKind::Doctype => self.doctype,
            NodeDataKind::Document => self.document,
            NodeDataKind::DocumentFragment => self.document_fragment,
        }
    }

    /// Membership test.
    #[verifier::when_used_as_spec(spec_contains)]
    pub fn contains(&self, kind: NodeDataKind) -> (r: bool)
        ensures
            r == self.spec_contains(kind),
    {
        match kind {
            NodeDataKind::Element => self.element,
            NodeDataKind::Text => self.text,
            NodeDataKind::Comment => self.comment,
            NodeDataKind::ProcessingInstruction => self.processing_instruction,
            NodeDataKind::Doctype => self.doctype,
            NodeDataKind::Document => self.document,
            NodeDataKind::DocumentFragment => self.document_fragment,
        }
    }

    /// The set with no members.
    pub fn empty() -> (r: NodeKindSet)
        ensures
            forall|k: NodeDataKind| !r.spec_contains(k),
    {
        NodeKindSet {
            element: false,
            text: false,
            comment: false,
            processing_instruction: false,
            doctype: false,
            document: false,
            document_fragment: false,
        }
    }

    /// The same set with one more member.
    pub fn insert(self, kind: NodeDataKind) -> (r: NodeKindSet)
        ensures
            r.spec_contains(kind),
            forall|k: NodeDataKind| k != kind ==> r.spec_contains(k) == self.spec_contains(k),
    {
        match kind {
            NodeDataKind::Element => NodeKindSet { element: true, ..self },
            NodeDataKind::Text => NodeKindSet { text: true, ..self },
            NodeDataKind::Comment => NodeKindSet { comment: true, ..self },
            NodeDataKind::ProcessingInstruction => NodeKindSet {
                processing_instruction: true,
                ..self
            },
            NodeDataKind::Doctype => NodeKindSet { doctype: true, ..self },
            NodeDataKind::Document => NodeKindSet { document: true, ..self },
            NodeDataKind::DocumentFragment => NodeKindSet { document_fragment: true, ..self },
        }
    }

    /// The default configuration: only elements and text are useful.
    pub fn default_useful() -> (r: NodeKindSet)
        ensures
            forall|k: NodeDataKind|
                r.spec_contains(k) <==> (k == NodeDataKind::Element || k == NodeDataKind::Text),
    {
        NodeKindSet::empty().insert(NodeDataKind::Element).insert(NodeDataKind::Text)
    }
}

/// The payload of a raw document node, reduced to the plain values that the
/// reduction pipeline reads: the tag of the payload, an element's local name,
/// its attribute values (names are deliberately not retained), and the
/// template contents an element may carry.
pub enum RawNodeData {
    Element { name: String, attrs: Vec<String>, contents: Vec<RawNode> },
    Text(String),
    Comment(String),
    ProcessingInstruction,
    Doctype,
    Document,
    DocumentFragment,
}

/// One node of the raw document tree, owning its ordered children.
pub struct RawNode {
    pub data: RawNodeData,
    pub children: Vec<RawNode>,
}

/// Mathematical image of `RawNodeData`.
pub enum RawDataView {
    Element { name: Seq<char>, attrs: Seq<Seq<char>>, contents: Seq<RawView> },
    Text(Seq<char>),
    Comment(Seq<char>),
    ProcessingInstruction,
    Doctype,
    Document,
    DocumentFragment,
}

/// Mathematical image of `RawNode`: the same tree over `Seq`.
pub struct RawView {
    pub data: RawDataView,
    pub children: Seq<RawView>,
}

pub open spec fn raw_data_view(d: RawNodeData) -> RawDataView
    decreases d,
{
    match d {
        RawNodeData::Element { name, attrs, contents } => RawDataView::Element {
            name: name@,
            attrs: Seq::new(attrs@.len(), |i: int| attrs@[i]@),
            contents: raw_forest_view(contents@),
        },
        RawNodeData::Text(s) => RawDataView::Text(s@),
        RawNodeData::Comment(s) => RawDataView::Comment(s@),
        RawNodeData::ProcessingInstruction => RawDataView::ProcessingInstruction,
        RawNodeData::Doctype => RawDataView::Doctype,
        RawNodeData::Document => RawDataView::Document,
        RawNodeData::DocumentFragment => RawDataView::DocumentFragment,
    }
}

pub open spec fn raw_view(n: RawNode) -> RawView
    decreases n,
{
    RawView { data: raw_data_view(n.data), children: raw_forest_view(n.children@) }
}

pub open spec fn raw_forest_view(s: Seq<RawNode>) -> Seq<RawView>
    decreases s,
{
    if s.len() == 0 {
        Seq::empty()
    } else {
        seq![raw_view(s.first())] + raw_forest_view(s.drop_first())
    }
}

impl View for RawNode {
    type V = RawView;

    open spec fn view(&self) -> RawView {
        raw_view(*self)
    }
}

impl View for RawNodeData {
    type V = RawDataView;

    open spec fn view(&self) -> RawDataView {
        raw_data_view(*self)
    }
}

/// How a forest view relates to the views of its members.
pub proof fn lemma_raw_forest_view(s: Seq<RawNode>)
    ensures
        raw_forest_view(s).len() == s.len(),
        forall|i: int| 0 <= i < s.len() ==> raw_forest_view(s)[i] == raw_view(s[i]),
    decreases s,
{
    if s.len() > 0 {
        lemma_raw_forest_view(s.drop_first());
    }
}

/// Whether a pruned node survives: it is kept if and only if its category is
/// in the useful set or it still has children of its own.
pub open spec fn keeps(t: RawView, useful: NodeKindSet) -> bool {
    useful.spec_contains(NodeDataKind::spec_type_of(t.data)) || t.children.len() > 0
}

/// The relevance filter on one node: children are pruned first, and a child
/// is then detached exactly when nothing useful survived below it and its own
/// category is not useful. The node itself is never detached.
pub open spec fn prune_spec(t: RawView, useful: NodeKindSet) -> RawView
    decreases t,
{
    RawView { data: t.data, children: prune_forest(t.children, useful) }
}

/// The relevance filter on a sequence of sibling subtrees.
pub open spec fn prune_forest(s: Seq<RawView>, useful: NodeKindSet) -> Seq<RawView>
    decreases s,
{
    if s.len() == 0 {
        Seq::empty()
    } else {
        let c = prune_spec(s.first(), useful);
        (if keeps(c, useful) {
            seq![c]
        } else {
            Seq::empty()
        }) + prune_forest(s.drop_first(), useful)
    }
}

/// Remove from a raw tree every node whose category is not marked useful and
/// that holds no surviving content, children before parents, so that empty
/// branches vanish while pass-through containers are kept. The root itself
/// always survives.
pub fn only_useful_children(dom: RawNode, useful: &NodeKindSet) -> (r: RawNode)
    ensures
        r@ == prune_spec(dom@, *useful),
    decreases dom,
{
    let ghost g = dom;
    let RawNode { data, children } = dom;
    proof {
        assert(decreases_to!(g => g.children));
    }
    let kept = prune_children(children, useful);
    let r = RawNode { data, children: kept };
    proof {
        assert(r@.data == g@.data);
        assert(r@.children == prune_spec(g@, *useful).children);
    }
    r
}

/// The relevance filter applied to each sibling in order.
fn prune_children(s: Vec<RawNode>, useful: &NodeKindSet) -> (r: Vec<RawNode>)
    ensures
        raw_forest_view(r@) == prune_forest(raw_forest_view(s@), *useful),
    decreases s@,
{
    let mut s = s;
    if s.len() == 0 {
        let r: Vec<RawNode> = Vec::new();
        proof {
            assert(raw_forest_view(r@) =~= prune_forest(raw_forest_view(s@), *useful));
        }
        r
    } else {
        let ghost s0 = s@;
        let ghost sv = raw_forest_view(s0);
        let c = s.remove(0);
        proof {
            assert(c == s0.first());
            assert(s@ =~= s0.drop_first());
            assert(sv == seq![raw_view(s0.first())] + raw_forest_view(s0.drop_first()));
            assert(sv.first() == raw_view(c));
            assert(sv.drop_first() =~= raw_forest_view(s0.drop_first()));
        }
        let pc = only_useful_children(c, useful);
        let keep = useful.contains(NodeDataKind::type_of(&pc.data)) || pc.children.len() > 0;
        proof {
            lemma_raw_forest_view(pc.children@);
            assert(keep == keeps(pc@, *useful));
        }
        let mut rest = prune_children(s, useful);
        let ghost r0 = rest@;
        if keep {
            rest.insert(0, pc);
            proof {
                assert(rest@.first() == pc);
                assert(rest@.drop_first() =~= r0);
                assert(raw_forest_view(rest@) == seq![raw_view(pc)] + raw_forest_view(r0));
            }
        }
        proof {
            assert(raw_forest_view(rest@) =~= prune_forest(sv, *useful));
        }
        rest
    }
}

/// Pruning is idempotent: running the relevance filter a second time with the
/// same useful set changes nothing.
pub proof fn lemma_prune_idempotent(t: RawView, useful: NodeKindSet)
    ensures
        prune_spec(prune_spec(t, useful), useful) == prune_spec(t, useful),
    decreases t,
{
    lemma_prune_forest_idempotent(t.children, useful);
}

/// Pruning a sequence of sibling subtrees is idempotent.
pub proof fn lemma_prune_forest_idempotent(s: Seq<RawView>, useful: NodeKindSet)
    ensures
        prune_forest(prune_forest(s, useful), useful) == prune_forest(s, useful),
    decreases s,
{
    if s.len() == 0 {
    } else {
        let c = prune_spec(s.first(), useful);
        lemma_prune_idempotent(s.first(), useful);
        lemma_prune_forest_idempotent(s.drop_first(), useful);
        if keeps(c, useful) {
            let whole = seq![c] + prune_forest(s.drop_first(), useful);
            assert(whole.first() == c);
            assert(whole.drop_first() =~= prune_forest(s.drop_first(), useful));
            assert(keeps(prune_spec(c, useful), useful));
            assert(prune_forest(whole, useful) =~= prune_forest(s, useful));
        }
    }
}

/// Appending one more sibling on the right prunes to the pruned prefix plus
/// whatever survives of that sibling.
pub proof fn lemma_prune_forest_push(s: Seq<RawView>, x: RawView, useful: NodeKindSet)
    ensures
        prune_forest(s.push(x), useful) == prune_forest(s, useful) + (if keeps(
            prune_spec(x, useful),
            useful,
        ) {
            seq![prune_spec(x, useful)]
        } else {
            Seq::<RawView>::empty()
        }),
    decreases s,
{
    let tail = if keeps(prune_spec(x, useful), useful) {
        seq![prune_spec(x, useful)]
    } else {
        Seq::<RawView>::empty()
    };
    if s.len() == 0 {
        assert(s.push(x).first() == x);
        assert(s.push(x).drop_first() =~= Seq::<RawView>::empty());
        assert(prune_forest(Seq::<RawView>::empty(), useful) == Seq::<RawView>::empty());
        assert(prune_forest(s.push(x), useful) =~= prune_forest(s, useful) + tail);
    } else {
        let head = if keeps(prune_spec(s.first(), useful), useful) {
            seq![prune_spec(s.first(), useful)]
        } else {
            Seq::<RawView>::empty()
        };
        assert(s.push(x).len() == s.len() + 1);
        assert(s.push(x).first() == s.first());
        assert(s.push(x).drop_first() =~= s.drop_first().push(x));
        assert(prune_forest(s.push(x), useful) == head + prune_forest(
            s.drop_first().push(x),
            useful,
        ));
        lemma_prune_forest_push(s.drop_first(), x, useful);
        assert(prune_forest(s.push(x), useful) == head + (prune_forest(s.drop_first(), useful)
            + tail));
        assert(prune_forest(s, useful) == head + prune_forest(s.drop_first(), useful));
        assert(head + (prune_forest(s.drop_first(), useful) + tail) =~= (head + prune_forest(
            s.drop_first(),
            useful,
        )) + tail);
    }
}

/// Visiting siblings from the right instead of from the left.
pub open spec fn prune_forest_rev(s: Seq<RawView>, useful: NodeKindSet) -> Seq<RawView>
    decreases s,
{
    if s.len() == 0 {
        Seq::empty()
    } else {
        let c = prune_spec(s.last(), useful);
        prune_forest_rev(s.drop_last(), useful) + (if keeps(c, useful) {
            seq![c]
        } else {
            Seq::empty()
        })
    }
}

/// Pruning is order-independent among siblings: visiting them right-to-left
/// detaches exactly the same nodes as visiting them left-to-right, because
/// the detachment decision is made independently for each pruned subtree.
pub proof fn lemma_prune_order_independent(s: Seq<RawView>, useful: NodeKindSet)
    ensures
        prune_forest_rev(s, useful) == prune_forest(s, useful),
    decreases s,
{
    if s.len() == 0 {
    } else {
        lemma_prune_order_independent(s.drop_last(), useful);
        lemma_prune_forest_push(s.drop_last(), s.last(), useful);
        assert(s.drop_last().push(s.last()) =~= s);
    }
}

impl NodeDataKind {
    /// The category of a raw payload. Total: every payload has exactly one
    /// category, and classifying the same payload twice gives the same value.
    pub open spec fn spec_type_of(data: RawDataView) -> NodeDataKind {
        match data {
            RawDataView::Element { .. } => NodeDataKind::Element,
            RawDataView::Text(..) => NodeDataKind::Text,
            RawDataView::Comment(..) => NodeDataKind::Comment,
            RawDataView::ProcessingInstruction => NodeDataKind::ProcessingInstruction,
            RawDataView::Doctype => NodeDataKind::Doctype,
            RawDataView::Document => NodeDataKind::Document,
            RawDataView::DocumentFragment => NodeDataKind::DocumentFragment,
        }
    }

    /// Classify a raw payload.
    pub fn type_of(data: &RawNodeData) -> (r: NodeDataKind)
        ensures
            r == NodeDataKind::spec_type_of(data@),
    {
        match data {
            RawNodeData::Element { .. } => NodeDataKind::Element,
            RawNodeData::Text(..) => NodeDataKind::Text,
            RawNodeData::Comment(..) => NodeDataKind::Comment,
            RawNodeData::ProcessingInstruction => NodeDataKind::ProcessingInstruction,
            RawNodeData::Doctype => NodeDataKind::Doctype,
            RawNodeData::Document => NodeDataKind::Document,
            RawNodeData::DocumentFragment => NodeDataKind::DocumentFragment,
        }
    }
}

#[verifier::external_type_specification]
#[verifier::external_body]
pub struct ExNodeRef(kuchikiki::NodeRef);

#[verifier::external_type_specification]
#[verifier::external_body]
pub struct ExNodeData(kuchikiki::NodeData);

pub uninterp spec fn dom_of(html: Seq<char>) -> RawView;

/// Relies on kuchikiki::parse_html, whose html5ever tree builder turns an
/// HTML string into a document tree that depends on the string alone; the
/// tree is converted on the way out into the plain raw model.
#[verifier::external_body]
pub fn parse_content(html: &str) -> (r: RawNode)
    ensures
        r@ == dom_of(html@),
{
    node_to_raw(&kuchikiki::parse_html().one(html))
}

/// Relies on kuchikiki::Node::data and NodeRef::children to read one parsed
/// node and its ordered children; each is converted into the raw model.
#[verifier::external_body]
fn node_to_raw(n: &kuchikiki::NodeRef) -> RawNode {
    RawNode {
        data: data_to_raw(n.data()),
        children: n.children().map(|c| node_to_raw(&c)).collect(),
    }
}

/// Relies on the shape of kuchikiki::NodeData: one arm per payload variant,
/// keeping an element's local name, attribute values and template contents,
/// and the text carried by text and comment nodes.
#[verifier::external_body]
fn data_to_raw(d: &kuchikiki::NodeData) -> RawNodeData {
    match d {
        kuchikiki::NodeData::Element(e) => RawNodeData::Element {
            name: e.name.local.to_string(),
            attrs: e.attributes.borrow().map.values().map(|a| a.value.clone()).collect(),
            contents: e.template_contents.iter().map(|t| node_to_raw(t)).collect(),
        },
        kuchikiki::NodeData::Text(t) => RawNodeData::Text(t.borrow().clone()),
        kuchikiki::NodeData::Comment(c) => RawNodeData::Comment(c.borrow().clone()),
        kuchikiki::NodeData::ProcessingInstruction(_) => RawNodeData::ProcessingInstruction,
        kuchikiki::NodeData::Doctype(_) => RawNodeData::Doctype,
        kuchikiki::NodeData::Document(_) => RawNodeData::Document,
        kuchikiki::NodeData::DocumentFragment => RawNodeData::DocumentFragment,
    }
}

/// Parse an HTML string and keep only the branches with useful content: the
/// whole pipeline up to the relevance filter.
pub fn filter_dom_html(html: &str, useful: &NodeKindSet) -> (r: RawNode)
    ensures
        r@ == prune_spec(dom_of(html@), *useful),
{
    only_useful_children(parse_content(html), useful)
}

} // verus!
