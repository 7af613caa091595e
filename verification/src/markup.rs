//! The mathematical model of a markup tree and of its serialized text.
//!
//! Every executable renderer in this crate is specified against the
//! functions of this module: a tree is a [`Node`], and its text in either
//! layout is [`rendered`].

use vstd::prelude::*;

verus! {

/// One attribute as the engine sees it: a key and a value, both final text.
pub type AttrPair = (Seq<char>, Seq<char>);

/// A unit of the tree: a tag with a name, attributes and content, or a text leaf.
pub enum Node {
    Tag { name: Seq<char>, attributes: Seq<AttrPair>, content: Content },
    Text(Seq<char>),
}

/// What a tag carries between its opening and closing markers.
pub enum Content {
    /// Child nodes, serialized one after another in this order.
    Children(Seq<Node>),
    /// Text placed in the body as it is, with no nested serialization.
    Raw(Seq<char>),
}

/// Whether every tag of the tree has a name: no name is empty.
pub open spec fn well_named(node: Node) -> bool
    decreases node, 0nat,
{
    match node {
        Node::Tag { name, attributes, content } => name.len() > 0 && well_named_content(content),
        Node::Text(_) => true,
    }
}

/// Whether every tag in the content has a name.
pub open spec fn well_named_content(content: Content) -> bool
    decreases content, 0nat,
{
    match content {
        Content::Children(children) => all_well_named(children),
        Content::Raw(_) => true,
    }
}

/// Whether every tag in each of the trees has a name.
pub open spec fn all_well_named(nodes: Seq<Node>) -> bool
    decreases nodes, 1nat,
{
    forall|i: int| 0 <= i < nodes.len() ==> well_named(#[trigger] nodes[i])
}

/// The layout of a serialization: `None` is compact, `Some(depth)` is
/// indented with the node standing `depth` levels below the root.
pub type Layout = Option<nat>;

/// The layout of the whole tree when indentation is wanted.
pub open spec fn pretty() -> Layout {
    Some(0nat)
}

/// The layout of the whole tree when no whitespace is to be added.
pub open spec fn compact() -> Layout {
    None
}

/// `depth` indentation units.
pub open spec fn tabs(depth: nat) -> Seq<char>
    decreases depth,
{
    if depth == 0 {
        Seq::empty()
    } else {
        tabs((depth - 1) as nat) + "\t"@
    }
}

/// A line break followed by the indentation of `depth`.
pub open spec fn line_start(depth: nat) -> Seq<char> {
    "\n"@ + tabs(depth)
}

/// One attribute: the key, `=`, and the value between double quotes.
pub open spec fn rendered_attribute(pair: AttrPair) -> Seq<char> {
    pair.0 + "=\""@ + pair.1 + "\""@
}

/// The attributes of a tag in their order, each preceded by one space.
pub open spec fn rendered_attributes(attributes: Seq<AttrPair>) -> Seq<char>
    decreases attributes.len(),
{
    if attributes.len() == 0 {
        Seq::empty()
    } else {
        rendered_attributes(attributes.drop_last()) + " "@ + rendered_attribute(
            attributes.last(),
        )
    }
}

/// Whether a tag's body stays on the line of its opening marker: every
/// immediate child is a text leaf (an empty list included), or the body is raw.
pub open spec fn all_text(content: Content) -> bool {
    match content {
        Content::Children(children) => forall|i: int|
            0 <= i < children.len() ==> #[trigger] children[i] is Text,
        Content::Raw(_) => true,
    }
}

/// The layout in which the children of a node laid out as `layout` are serialized.
pub open spec fn nested(layout: Layout) -> Layout {
    match layout {
        Some(depth) => Some(depth + 1),
        None => None,
    }
}

/// What stands before the opening marker of a tag.
pub open spec fn leading(layout: Layout) -> Seq<char> {
    match layout {
        Some(depth) => line_start(depth),
        None => Seq::empty(),
    }
}

/// What stands between the body of a tag and its closing marker.
pub open spec fn closing(layout: Layout, content: Content) -> Seq<char> {
    match layout {
        Some(depth) if !all_text(content) => line_start(depth),
        _ => Seq::empty(),
    }
}

/// The text of a node in the given layout.
pub open spec fn rendered(node: Node, layout: Layout) -> Seq<char>
    decreases node, 0nat,
{
    match node {
        Node::Text(value) => value,
        Node::Tag { name, attributes, content } => leading(layout) + "<"@ + name
            + rendered_attributes(attributes) + ">"@ + rendered_content(content, layout)
            + closing(layout, content) + "</"@ + name + ">"@,
    }
}

/// The body of a tag that is itself laid out as `layout`.
pub open spec fn rendered_content(content: Content, layout: Layout) -> Seq<char>
    decreases content, 0nat,
{
    match content {
        Content::Children(children) => rendered_nodes(children, nested(layout)),
        Content::Raw(text) => text,
    }
}

/// The texts of `nodes`, each in the layout `layout`, joined in order.
pub open spec fn rendered_nodes(nodes: Seq<Node>, layout: Layout) -> Seq<char>
    decreases nodes, nodes.len(),
{
    if nodes.len() == 0 {
        Seq::empty()
    } else {
        rendered_nodes(nodes.drop_last(), layout) + rendered(nodes.last(), layout)
    }
}

/// A text leaf is written as its value, unchanged, in either layout: no
/// character of it is escaped, and no line break or indentation is added.
pub proof fn lemma_text_is_verbatim(value: Seq<char>, layout: Layout)
    ensures
        rendered(Node::Text(value), layout) == value,
{
}

/// An empty attribute list is written as nothing.
pub proof fn lemma_no_attributes_no_text()
    ensures
        rendered_attributes(Seq::empty()) == Seq::<char>::empty(),
{
}

/// A tag without attributes has nothing between its name and the `>` of its
/// opening marker, in either layout.
pub proof fn lemma_no_attributes_no_gap(name: Seq<char>, content: Content, layout: Layout)
    ensures
        rendered(Node::Tag { name, attributes: Seq::empty(), content }, layout) == leading(layout)
            + "<"@ + name + ">"@ + rendered_content(content, layout) + closing(layout, content)
            + "</"@ + name + ">"@,
{
    let opening = leading(layout) + "<"@ + name;
    assert(opening + rendered_attributes(Seq::empty()) =~= opening);
}

/// Attributes are written in their order: the text of a list that continues
/// with a second list is the text of the first followed by that of the second.
pub proof fn lemma_attributes_in_order(first: Seq<AttrPair>, second: Seq<AttrPair>)
    ensures
        rendered_attributes(first + second) == rendered_attributes(first) + rendered_attributes(
            second,
        ),
    decreases second.len(),
{
    if second.len() == 0 {
        assert(first + second =~= first);
        assert(rendered_attributes(first) + rendered_attributes(second) =~= rendered_attributes(
            first,
        ));
    } else {
        lemma_attributes_in_order(first, second.drop_last());
        assert((first + second).drop_last() =~= first + second.drop_last());
        assert((first + second).last() == second.last());
        assert(rendered_attributes(first + second) =~= rendered_attributes(first)
            + rendered_attributes(second));
    }
}

/// Children are written in their order: the text of a list that continues
/// with a second list is the text of the first followed by that of the second.
pub proof fn lemma_nodes_in_order(first: Seq<Node>, second: Seq<Node>, layout: Layout)
    ensures
        rendered_nodes(first + second, layout) == rendered_nodes(first, layout) + rendered_nodes(
            second,
            layout,
        ),
    decreases second.len(),
{
    if second.len() == 0 {
        assert(first + second =~= first);
        assert(rendered_nodes(first, layout) + rendered_nodes(second, layout) =~= rendered_nodes(
            first,
            layout,
        ));
    } else {
        lemma_nodes_in_order(first, second.drop_last(), layout);
        assert((first + second).drop_last() =~= first + second.drop_last());
        assert((first + second).last() == second.last());
        assert(rendered_nodes(first + second, layout) =~= rendered_nodes(first, layout)
            + rendered_nodes(second, layout));
    }
}

/// A raw body is placed between the markers as it is, in either layout, and
/// the closing marker follows it directly.
pub proof fn lemma_raw_is_spliced(
    name: Seq<char>,
    attributes: Seq<AttrPair>,
    text: Seq<char>,
    layout: Layout,
)
    ensures
        rendered(Node::Tag { name, attributes, content: Content::Raw(text) }, layout) == leading(
            layout,
        ) + "<"@ + name + rendered_attributes(attributes) + ">"@ + text + "</"@ + name + ">"@,
{
    let open = leading(layout) + "<"@ + name + rendered_attributes(attributes) + ">"@ + text;
    assert(open + closing(layout, Content::Raw(text)) =~= open);
}

/// In the compact layout nothing is added around a tag: its text is the
/// opening marker, the body and the closing marker.
pub proof fn lemma_compact_adds_nothing(name: Seq<char>, attributes: Seq<AttrPair>, content: Content)
    ensures
        rendered(Node::Tag { name, attributes, content }, compact()) == "<"@ + name
            + rendered_attributes(attributes) + ">"@ + rendered_content(content, compact())
            + "</"@ + name + ">"@,
{
    let body = rendered_content(content, compact());
    assert(leading(compact()) + "<"@ =~= "<"@);
    let open = "<"@ + name + rendered_attributes(attributes) + ">"@ + body;
    assert(open + closing(compact(), content) =~= open);
}

/// Text leaves are written alike in every layout.
pub proof fn lemma_text_nodes_ignore_layout(nodes: Seq<Node>, first: Layout, second: Layout)
    requires
        all_text(Content::Children(nodes)),
    ensures
        rendered_nodes(nodes, first) == rendered_nodes(nodes, second),
    decreases nodes.len(),
{
    if nodes.len() > 0 {
        let earlier = nodes.drop_last();
        assert forall|i: int| 0 <= i < earlier.len() implies #[trigger] earlier[i] is Text by {
            assert(earlier[i] == nodes[i]);
        }
        lemma_text_nodes_ignore_layout(earlier, first, second);
        assert(nodes[nodes.len() - 1] is Text);
        assert(rendered(nodes.last(), first) == rendered(nodes.last(), second));
    }
}

/// A tag whose content is all text stays on one line when it is indented:
/// its text is the start of its line followed by its compact text.
pub proof fn lemma_all_text_is_inline(
    name: Seq<char>,
    attributes: Seq<AttrPair>,
    content: Content,
    depth: nat,
)
    requires
        all_text(content),
    ensures
        rendered(Node::Tag { name, attributes, content }, Some(depth)) == line_start(depth)
            + rendered(Node::Tag { name, attributes, content }, compact()),
{
    let node = Node::Tag { name, attributes, content };
    match content {
        Content::Children(children) => {
            lemma_text_nodes_ignore_layout(children, Some(depth + 1), compact());
        },
        Content::Raw(_) => {},
    }
    assert(rendered_content(content, Some(depth)) == rendered_content(content, compact()));
    lemma_compact_adds_nothing(name, attributes, content);
    let body = rendered_content(content, compact());
    let open = "<"@ + name + rendered_attributes(attributes) + ">"@ + body;
    assert(rendered(node, Some(depth)) =~= line_start(depth) + (open + "</"@ + name + ">"@));
}

/// Rendering reads nothing but the tree: two trees that are equal as nodes
/// have the same text, in either layout, however often they are rendered.
pub proof fn lemma_rendering_is_repeatable(first: Node, second: Node, layout: Layout)
    requires
        first == second,
    ensures
        rendered(first, layout) == rendered(second, layout),
{
}

} // verus!
