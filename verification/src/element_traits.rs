//! The node capability and the rendering engine.

use crate::attr_traits::{pairs_of, render_attributes};
use crate::markup::{
    all_text, closing, compact, leading, nested, pretty, rendered, rendered_attributes,
    rendered_content, rendered_nodes, tabs, well_named, well_named_content, AttrPair, Content,
    Layout, Node,
};
use crate::style_traits::Style;
use vstd::prelude::*;

verus! {

/// A node as the engine walks it.
pub enum Renderable {
    /// A tag with its name, its attributes as final text, and its content.
    Tag { name: String, attributes: Vec<(String, String)>, content: ChildContent },
    /// A text leaf.
    Text(String),
}

/// The content of a tag as the engine walks it.
pub enum ChildContent {
    /// Child nodes, rendered one after another in this order.
    Children(Vec<Renderable>),
    /// Text that becomes the body as it is.
    Raw(String),
}

impl Renderable {
    /// The node that this value stands for.
    pub open spec fn node(&self) -> Node
        decreases self,
    {
        match self {
            Renderable::Tag { name, attributes, content } => Node::Tag {
                name: name@,
                attributes: pairs_of(attributes@),
                content: content.content(),
            },
            Renderable::Text(value) => Node::Text(value@),
        }
    }
}

impl ChildContent {
    /// The content that this value stands for.
    pub open spec fn content(&self) -> Content
        decreases self,
    {
        match self {
            ChildContent::Children(children) => Content::Children(nodes_of(children@)),
            ChildContent::Raw(text) => Content::Raw(text@),
        }
    }
}

/// The nodes that a list of renderables stands for, in the order of the list.
pub open spec fn nodes_of(items: Seq<Renderable>) -> Seq<Node>
    decreases items,
{
    Seq::new(
        items.len(),
        |i: int|
            if 0 <= i < items.len() {
                items[i].node()
            } else {
                arbitrary()
            },
    )
}

impl View for Renderable {
    type V = Node;

    open spec fn view(&self) -> Node {
        self.node()
    }
}

impl View for ChildContent {
    type V = Content;

    open spec fn view(&self) -> Content {
        self.content()
    }
}

impl ChildContent {
    /// Whether this content keeps the tag on one line in the indented layout.
    fn is_all_text(&self) -> (inline: bool)
        ensures
            inline == all_text(self@),
    {
        match self {
            ChildContent::Children(children) => {
                let ghost nodes = self@->Children_0;
                let n = children.len();
                let mut i: usize = 0;
                while i < n
                    invariant
                        n == children@.len(),
                        i <= n,
                        self@ == Content::Children(nodes),
                        nodes.len() == n,
                        forall|j: int| 0 <= j < n ==> nodes[j] == #[trigger] children@[j].node(),
                        forall|j: int| 0 <= j < i ==> nodes[j] is Text,
                    decreases n - i,
                {
                    assert(nodes[i as int] == children@[i as int].node());
                    match &children[i] {
                        Renderable::Tag { .. } => {
                            return false;
                        },
                        Renderable::Text(_) => {},
                    }
                    i += 1;
                }
                true
            },
            ChildContent::Raw(_) => true,
        }
    }
}

impl Renderable {
    /// Renders the node with no whitespace added.
    pub fn render(&self) -> (out: String)
        ensures
            out@ == rendered(self@, compact()),
    {
        self.render_helper(None, Ghost(0))
    }

    /// Renders the node indented, with this node at depth 0.
    pub fn render_pretty(&self) -> (out: String)
        ensures
            out@ == rendered(self@, pretty()),
    {
        proof {
            reveal_strlit("");
            assert(""@ =~= tabs(0));
        }
        self.render_helper(Some(""), Ghost(0))
    }

    /// Renders the node; `indent` is the indentation of this node in the
    /// indented layout, and `None` in the compact one.
    fn render_helper(&self, indent: Option<&str>, Ghost(depth): Ghost<nat>) -> (out: String)
        requires
            indent matches Some(pad) ==> pad@ == tabs(depth),
        ensures
            out@ == rendered(
                self@,
                if indent is Some {
                    Some(depth)
                } else {
                    None
                },
            ),
        decreases self,
    {
        let ghost layout: Layout = if indent is Some { Some(depth) } else { None };
        match self {
            Renderable::Text(value) => value.clone(),
            Renderable::Tag { name, attributes, content } => {
                let mut out = String::new();
                if let Some(pad) = indent {
                    out.append("\n");
                    out.append(pad);
                }
                out.append("<");
                out.append(name.as_str());
                let attrs = render_attributes(attributes);
                out.append(attrs.as_str());
                out.append(">");
                let ghost head = out@;
                assert(head =~= leading(layout) + "<"@ + name@ + rendered_attributes(
                    pairs_of(attributes@),
                ) + ">"@);
                match content {
                    ChildContent::Children(children) => {
                        let deeper: Option<String> = match indent {
                            Some(pad) => Some(String::from_str(pad).concat("\t")),
                            None => None,
                        };
                        let ghost nodes = content@->Children_0;
                        let n = children.len();
                        let mut i: usize = 0;
                        while i < n
                            invariant
                                n == children@.len(),
                                i <= n,
                                nodes == content@->Children_0,
                                content@ is Children,
                                *content == ChildContent::Children(*children),
                                deeper is Some <==> indent is Some,
                                deeper matches Some(pad) ==> pad@ == tabs(depth + 1),
                                layout == (if indent is Some {
                                    Some(depth)
                                } else {
                                    None::<nat>
                                }),
                                out@ == head + rendered_nodes(
                                    nodes.take(i as int),
                                    nested(layout),
                                ),
                                decreases_to!(self => children),
                            decreases n - i,
                        {
                            let child = &children[i];
                            let part = match &deeper {
                                Some(pad) => child.render_helper(
                                    Some(pad.as_str()),
                                    Ghost(depth + 1),
                                ),
                                None => child.render_helper(None, Ghost(depth + 1)),
                            };
                            out.append(part.as_str());
                            proof {
                                assert(nodes.take(i + 1).drop_last() =~= nodes.take(i as int));
                                assert(nodes.take(i + 1).last() == child@);
                            }
                            i += 1;
                        }
                        proof {
                            assert(nodes.take(n as int) =~= nodes);
                        }
                    },
                    ChildContent::Raw(text) => {
                        out.append(text.as_str());
                    },
                }
                assert(out@ == head + rendered_content(content@, layout));
                if let Some(pad) = indent {
                    if !content.is_all_text() {
                        out.append("\n");
                        out.append(pad);
                    }
                }
                assert(out@ =~= head + rendered_content(content@, layout) + closing(
                    layout,
                    content@,
                ));
                out.append("</");
                out.append(name.as_str());
                out.append(">");
                out
            },
        }
    }
}

/// The name of a tag: never empty, and written into the markers as it is.
pub trait TagRenderableName {
    /// The name; a verified implementation states it.
    open spec fn spec_name(&self) -> Seq<char> {
        arbitrary()
    }

    fn get_name(&self) -> (name: String)
        ensures
            name@ == self.spec_name(),
            name@.len() > 0,
    ;
}

/// The attributes of a tag, in the order in which they are emitted.
pub trait TagRenderableAttrs {
    /// The attributes; a verified implementation states them.
    open spec fn spec_attributes(&self) -> Seq<AttrPair> {
        arbitrary()
    }

    fn get_attributes(&self) -> (attributes: Vec<(String, String)>)
        ensures
            pairs_of(attributes@) == self.spec_attributes(),
    ;
}

/// The content of a tag: its children in order, or raw text. Every tag among
/// the children, at any depth, has a name.
pub trait TagRenderableChildren {
    /// The content; a verified implementation states it.
    open spec fn spec_content(&self) -> Content {
        arbitrary()
    }

    fn get_children(&self) -> (content: ChildContent)
        ensures
            content@ == self.spec_content(),
            well_named_content(content@),
    ;
}

/// A type that has all that the engine reads of a tag.
pub trait TagRenderable: TagRenderableName + TagRenderableAttrs + TagRenderableChildren {

}

/// The node that a tag stands for.
pub open spec fn tag_node<T: TagRenderable + ?Sized>(tag: &T) -> Node {
    Node::Tag {
        name: tag.spec_name(),
        attributes: tag.spec_attributes(),
        content: tag.spec_content(),
    }
}

/// A tag that may stand wherever a child element is expected.
pub trait GenericRenderable: AsTagRenderable + TagRenderable {

}

/// Access to a child element as a node of the tree, in which every tag has a name.
pub trait AsTagRenderable {
    /// The node that the element stands for; a verified implementation states it.
    open spec fn as_node(&self) -> Node {
        arbitrary()
    }

    fn as_tag_renderable(&self) -> (node: Renderable)
        ensures
            node@ == self.as_node(),
            well_named(node@),
    ;
}

impl<T: GenericRenderable> AsTagRenderable for T {
    open spec fn as_node(&self) -> Node {
        tag_node(self)
    }

    fn as_tag_renderable(&self) -> (node: Renderable) {
        Renderable::from_tag(self)
    }
}

impl Renderable {
    /// Reads a tag, with all that is below it, into a node of the tree.
    pub fn from_tag<T: TagRenderable + ?Sized>(tag: &T) -> (node: Renderable)
        ensures
            node@ == tag_node(tag),
            well_named(node@),
    {
        let name = tag.get_name();
        let attributes = tag.get_attributes();
        let content = tag.get_children();
        Renderable::Tag { name, attributes, content }
    }
}

/// A child of a tag: another tag, or text.
pub enum Element {
    Tag(Box<dyn AsTagRenderable>),
    Text(String),
}

/// A child that is a tag.
pub fn tag(r: Box<dyn AsTagRenderable>) -> (element: Element)
    ensures
        element == Element::Tag(r),
{
    Element::Tag(r)
}

/// A child that is text.
pub fn text(s: String) -> (element: Element)
    ensures
        element == Element::Text(s),
{
    Element::Text(s)
}

impl View for Element {
    type V = Node;

    open spec fn view(&self) -> Node {
        match self {
            Element::Tag(tag) => tag.as_node(),
            Element::Text(value) => Node::Text(value@),
        }
    }
}

impl Element {
    /// Reads the element into a node of the tree.
    pub fn into_renderable(&self) -> (node: Renderable)
        ensures
            node@ == self@,
            well_named(node@),
    {
        match self {
            Element::Tag(tag) => tag.as_tag_renderable(),
            Element::Text(value) => Renderable::Text(value.clone()),
        }
    }
}

/// A tag that can become a child element.
pub trait TagRenderableIntoElement: TagRenderable + Sized {
    fn into_element(self) -> (element: Element)
        ensures
            element@ == tag_node(&self),
    ;
}

/// A tag whose inline style can be extended.
pub trait TagRenderableStyleSetter<'a>: Sized {
    /// The declarations of the inline style, in their order; a verified
    /// implementation states them.
    open spec fn spec_styles(&self) -> Seq<&'a dyn Style> {
        arbitrary()
    }

    /// Appends `styles` to the declarations that the tag already has.
    fn add_style(self, styles: Vec<&'a dyn Style>) -> (styled: Self)
        ensures
            styled.spec_styles() == self.spec_styles() + styles@,
    ;
}

} // verus!
