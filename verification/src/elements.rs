//! The elements of a page, each with its name, its attributes and its content.

use crate::attr_traits::{attr_pair, pairs_of, resolve_attribute, Attribute};
use crate::attributes;
use crate::element_traits::{
    nodes_of, tag_node, ChildContent, Element, GenericRenderable, Renderable, TagRenderable,
    TagRenderableAttrs, TagRenderableChildren, TagRenderableIntoElement, TagRenderableName,
    TagRenderableStyleSetter,
};
use crate::markup::{all_well_named, well_named, well_named_content, AttrPair, Content, Node};
use crate::style_sheet;
use crate::style_traits;
use crate::units;
use vstd::prelude::*;

verus! {

/// `pairs`, followed by the `style` attribute where `styles` holds a declaration.
pub open spec fn with_style(pairs: Seq<AttrPair>, styles: &attributes::StyleAttr<'_>) -> Seq<
    AttrPair,
> {
    if styles.values@.len() > 0 {
        pairs.push(attr_pair(styles))
    } else {
        pairs
    }
}

/// Completes the attributes of an element with its inline style. A style
/// without declarations adds nothing.
pub fn full_attrs(attrs: Vec<(String, String)>, styles: &attributes::StyleAttr<'_>) -> (all: Vec<
    (String, String),
>)
    ensures
        pairs_of(all@) == with_style(pairs_of(attrs@), styles),
{
    let mut all = attrs;
    if styles.values.len() > 0 {
        all.push(resolve_attribute(styles));
        assert(pairs_of(all@) =~= pairs_of(attrs@).push(attr_pair(styles)));
    }
    all
}

/// The nodes that a list of child elements stands for.
pub open spec fn element_nodes(children: Seq<Element>) -> Seq<Node> {
    Seq::new(children.len(), |i: int| children[i]@)
}

/// The nodes that a list of tags stands for.
pub open spec fn tag_nodes<T: TagRenderable>(tags: Seq<T>) -> Seq<Node> {
    Seq::new(tags.len(), |i: int| tag_node(&tags[i]))
}

/// The node of a tag that may be absent.
pub open spec fn optional_node<T: TagRenderable>(tag: Option<T>) -> Seq<Node> {
    match tag {
        Some(t) => seq![tag_node(&t)],
        None => Seq::empty(),
    }
}

/// Trees in which every tag has a name stay so when one more such tree follows them.
proof fn lemma_push_well_named(nodes: Seq<Node>, node: Node)
    requires
        all_well_named(nodes),
        well_named(node),
    ensures
        all_well_named(nodes.push(node)),
{
    let longer = nodes.push(node);
    assert forall|i: int| 0 <= i < longer.len() implies well_named(#[trigger] longer[i]) by {
        if i < nodes.len() {
            assert(longer[i] == nodes[i]);
            assert(well_named(nodes[i]));
        } else {
            assert(longer[i] == node);
        }
    }
}

/// Reads each child element into a node and appends it to `nodes`.
fn push_elements(nodes: &mut Vec<Renderable>, children: &Vec<Element>)
    requires
        all_well_named(nodes_of(old(nodes)@)),
    ensures
        nodes_of(final(nodes)@) == nodes_of(old(nodes)@) + element_nodes(children@),
        all_well_named(nodes_of(final(nodes)@)),
{
    let n = children.len();
    let mut i: usize = 0;
    while i < n
        invariant
            n == children@.len(),
            i <= n,
            nodes_of(nodes@) == nodes_of(old(nodes)@) + element_nodes(children@).take(i as int),
            all_well_named(nodes_of(nodes@)),
        decreases n - i,
    {
        let ghost earlier = nodes@;
        let node = children[i].into_renderable();
        nodes.push(node);
        assert(nodes_of(nodes@) =~= nodes_of(earlier).push(children@[i as int]@));
        proof {
            lemma_push_well_named(nodes_of(earlier), children@[i as int]@);
        }
        assert(nodes_of(nodes@) =~= nodes_of(old(nodes)@) + element_nodes(children@).take(
            i + 1,
        ));
        i += 1;
    }
    assert(element_nodes(children@).take(n as int) =~= element_nodes(children@));
}

/// Reads each tag into a node and appends it to `nodes`.
fn push_tags<T: TagRenderable>(nodes: &mut Vec<Renderable>, tags: &Vec<T>)
    requires
        all_well_named(nodes_of(old(nodes)@)),
    ensures
        nodes_of(final(nodes)@) == nodes_of(old(nodes)@) + tag_nodes(tags@),
        all_well_named(nodes_of(final(nodes)@)),
{
    let n = tags.len();
    let mut i: usize = 0;
    while i < n
        invariant
            n == tags@.len(),
            i <= n,
            nodes_of(nodes@) == nodes_of(old(nodes)@) + tag_nodes(tags@).take(i as int),
            all_well_named(nodes_of(nodes@)),
        decreases n - i,
    {
        let ghost earlier = nodes@;
        let node = Renderable::from_tag(&tags[i]);
        nodes.push(node);
        assert(nodes_of(nodes@) =~= nodes_of(earlier).push(tag_node(&tags@[i as int])));
        proof {
            lemma_push_well_named(nodes_of(earlier), tag_node(&tags@[i as int]));
        }
        assert(nodes_of(nodes@) =~= nodes_of(old(nodes)@) + tag_nodes(tags@).take(i + 1));
        i += 1;
    }
    assert(tag_nodes(tags@).take(n as int) =~= tag_nodes(tags@));
}

/// Reads the tag into a node and appends it to `nodes`.
fn push_tag<T: TagRenderable>(nodes: &mut Vec<Renderable>, tag: &T)
    requires
        all_well_named(nodes_of(old(nodes)@)),
    ensures
        nodes_of(final(nodes)@) == nodes_of(old(nodes)@).push(tag_node(tag)),
        all_well_named(nodes_of(final(nodes)@)),
{
    let node = Renderable::from_tag(tag);
    nodes.push(node);
    assert(nodes_of(nodes@) =~= nodes_of(old(nodes)@).push(tag_node(tag)));
    proof {
        lemma_push_well_named(nodes_of(old(nodes)@), tag_node(tag));
    }
}

/// The children of a tag whose content is a list of child elements.
fn element_children(children: &Vec<Element>) -> (content: ChildContent)
    ensures
        content@ == Content::Children(element_nodes(children@)),
        well_named_content(content@),
{
    let mut nodes: Vec<Renderable> = Vec::new();
    push_elements(&mut nodes, children);
    assert(nodes_of(nodes@) =~= element_nodes(children@));
    ChildContent::Children(nodes)
}

/// The children of a tag whose content is a list of tags of one kind.
fn tag_children<T: TagRenderable>(tags: &Vec<T>) -> (content: ChildContent)
    ensures
        content@ == Content::Children(tag_nodes(tags@)),
        well_named_content(content@),
{
    let mut nodes: Vec<Renderable> = Vec::new();
    push_tags(&mut nodes, tags);
    assert(nodes_of(nodes@) =~= tag_nodes(tags@));
    ChildContent::Children(nodes)
}

/// The attributes of a tag that has its inline style and nothing else.
fn style_attrs(styles: &attributes::StyleAttr<'_>) -> (all: Vec<(String, String)>)
    ensures
        pairs_of(all@) == with_style(Seq::empty(), styles),
{
    let attrs: Vec<(String, String)> = Vec::new();
    assert(pairs_of(attrs@) =~= Seq::empty());
    full_attrs(attrs, styles)
}

/// The attributes of a tag that has none.
fn no_attrs() -> (all: Vec<(String, String)>)
    ensures
        pairs_of(all@) == Seq::<AttrPair>::empty(),
{
    let attrs: Vec<(String, String)> = Vec::new();
    assert(pairs_of(attrs@) =~= Seq::empty());
    attrs
}

/// The pair of an attribute that may be absent.
pub open spec fn optional_pair<A: Attribute>(attribute: Option<A>) -> Seq<AttrPair> {
    match attribute {
        Some(a) => seq![attr_pair(&a)],
        None => Seq::empty(),
    }
}

/// The root of a page.
pub struct Html<'a> {
    pub head: Option<Head<'a>>,
    pub body: Option<Body<'a>>,
    pub lang: attributes::Lang,
    pub styles: attributes::StyleAttr<'a>,
}

impl<'a> Html<'a> {
    /// The element with the given parts and no inline style.
    pub fn style_less(
        head: Option<Head<'a>>,
        body: Option<Body<'a>>,
        lang: attributes::Lang,
    ) -> (html: Self)
        ensures
            html.head == head,
            html.body == body,
            html.lang == lang,
            html.styles.values@.len() == 0,
    {
        Html { head: head, body: body, lang: lang, styles: attributes::StyleAttr::empty() }
    }
}

impl<'a> TagRenderableName for Html<'a> {
    open spec fn spec_name(&self) -> Seq<char> {
        "html"@
    }

    fn get_name(&self) -> (name: String) {
        proof {
            reveal_strlit("html");
        }
        String::from_str("html")
    }
}

impl<'a> TagRenderableAttrs for Html<'a> {
    open spec fn spec_attributes(&self) -> Seq<AttrPair> {
        with_style(seq![attr_pair(&self.lang)], &self.styles)
    }

    fn get_attributes(&self) -> (attributes: Vec<(String, String)>) {
        let mut attrs: Vec<(String, String)> = Vec::new();
        attrs.push(resolve_attribute(&self.lang));
        assert(pairs_of(attrs@) =~= seq![attr_pair(&self.lang)]);
        full_attrs(attrs, &self.styles)
    }
}

impl<'a> TagRenderableChildren for Html<'a> {
    open spec fn spec_content(&self) -> Content {
        Content::Children(optional_node(self.head) + optional_node(self.body))
    }

    fn get_children(&self) -> (content: ChildContent) {
        let mut ret: Vec<Renderable> = Vec::new();
        match &self.head {
            Some(v) => push_tag(&mut ret, v),
            None => (),
        }
        match &self.body {
            Some(v) => push_tag(&mut ret, v),
            None => (),
        }
        assert(nodes_of(ret@) =~= optional_node(self.head) + optional_node(self.body));
        ChildContent::Children(ret)
    }
}

impl<'a> TagRenderable for Html<'a> {

}

impl<'a> TagRenderableStyleSetter<'a> for Html<'a> {
    open spec fn spec_styles(&self) -> Seq<&'a dyn style_traits::Style> {
        self.styles.values@
    }

    fn add_style(self, styles: Vec<&'a dyn style_traits::Style>) -> (styled: Self)
        ensures
            styled.head == self.head,
            styled.body == self.body,
            styled.lang == self.lang,
    {
        let mut styled = self;
        let mut more = styles;
        styled.styles.values.append(&mut more);
        styled
    }
}

/// The part of a page that describes it: metadata, then style sheets.
pub struct Head<'a> {
    pub metas: Vec<Meta<'a>>,
    pub styles: Vec<Style<'a>>,
}

impl<'a> Head<'a> {
    /// A head with the given metadata and style sheets.
    pub fn new(metas: Vec<Meta<'a>>, styles: Vec<Style<'a>>) -> (head: Self)
        ensures
            head.metas == metas,
            head.styles == styles,
    {
        Head { metas: metas, styles: styles }
    }
}

impl<'a> TagRenderableName for Head<'a> {
    open spec fn spec_name(&self) -> Seq<char> {
        "head"@
    }

    fn get_name(&self) -> (name: String) {
        proof {
            reveal_strlit("head");
        }
        String::from_str("head")
    }
}

impl<'a> TagRenderableAttrs for Head<'a> {
    open spec fn spec_attributes(&self) -> Seq<AttrPair> {
        Seq::empty()
    }

    fn get_attributes(&self) -> (attributes: Vec<(String, String)>) {
        no_attrs()
    }
}

impl<'a> TagRenderableChildren for Head<'a> {
    open spec fn spec_content(&self) -> Content {
        Content::Children(tag_nodes(self.metas@) + tag_nodes(self.styles@))
    }

    fn get_children(&self) -> (content: ChildContent) {
        let mut ret: Vec<Renderable> = Vec::new();
        push_tags(&mut ret, &self.metas);
        push_tags(&mut ret, &self.styles);
        assert(nodes_of(ret@) =~= tag_nodes(self.metas@) + tag_nodes(self.styles@));
        ChildContent::Children(ret)
    }
}

impl<'a> TagRenderable for Head<'a> {

}

/// One item of metadata.
pub struct Meta<'a> {
    pub charset: Option<attributes::Charset>,
    pub styles: attributes::StyleAttr<'a>,
}

impl<'a> Meta<'a> {
    /// The element with the given parts and no inline style.
    pub fn style_less(charset: Option<attributes::Charset>) -> (meta: Self)
        ensures
            meta.charset == charset,
            meta.styles.values@.len() == 0,
    {
        Meta { charset: charset, styles: attributes::StyleAttr::empty() }
    }
}

impl<'a> TagRenderableName for Meta<'a> {
    open spec fn spec_name(&self) -> Seq<char> {
        "meta"@
    }

    fn get_name(&self) -> (name: String) {
        proof {
            reveal_strlit("meta");
        }
        String::from_str("meta")
    }
}

impl<'a> TagRenderableAttrs for Meta<'a> {
    open spec fn spec_attributes(&self) -> Seq<AttrPair> {
        with_style(optional_pair(self.charset), &self.styles)
    }

    fn get_attributes(&self) -> (attributes: Vec<(String, String)>) {
        let mut attrs: Vec<(String, String)> = Vec::new();
        match &self.charset {
            Some(v) => attrs.push(resolve_attribute(v)),
            None => (),
        }
        assert(pairs_of(attrs@) =~= optional_pair(self.charset));
        full_attrs(attrs, &self.styles)
    }
}

impl<'a> TagRenderableChildren for Meta<'a> {
    open spec fn spec_content(&self) -> Content {
        Content::Children(Seq::empty())
    }

    fn get_children(&self) -> (content: ChildContent) {
        let ret: Vec<Renderable> = Vec::new();
        assert(nodes_of(ret@) =~= Seq::empty());
        ChildContent::Children(ret)
    }
}

impl<'a> TagRenderable for Meta<'a> {

}

impl<'a> TagRenderableStyleSetter<'a> for Meta<'a> {
    open spec fn spec_styles(&self) -> Seq<&'a dyn style_traits::Style> {
        self.styles.values@
    }

    fn add_style(self, styles: Vec<&'a dyn style_traits::Style>) -> (styled: Self)
        ensures
            styled.charset == self.charset,
    {
        let mut styled = self;
        let mut more = styles;
        styled.styles.values.append(&mut more);
        styled
    }
}

/// A style sheet embedded in the page. Its body is the compiled sheet, taken as it is.
pub struct Style<'a> {
    pub style_sheet: style_sheet::StyleSheet<'a>,
}

impl<'a> TagRenderableName for Style<'a> {
    open spec fn spec_name(&self) -> Seq<char> {
        "style"@
    }

    fn get_name(&self) -> (name: String) {
        proof {
            reveal_strlit("style");
        }
        String::from_str("style")
    }
}

impl<'a> TagRenderableAttrs for Style<'a> {
    open spec fn spec_attributes(&self) -> Seq<AttrPair> {
        Seq::empty()
    }

    fn get_attributes(&self) -> (attributes: Vec<(String, String)>) {
        no_attrs()
    }
}

impl<'a> TagRenderableChildren for Style<'a> {
    open spec fn spec_content(&self) -> Content {
        Content::Raw(style_sheet::compiled_sheet(self.style_sheet.assignments@))
    }

    fn get_children(&self) -> (content: ChildContent) {
        ChildContent::Raw(style_sheet::style_sheet_string(&self.style_sheet))
    }
}

impl<'a> TagRenderable for Style<'a> {

}

/// The visible part of a page.
pub struct Body<'a> {
    pub children: Vec<Element>,
    pub styles: attributes::StyleAttr<'a>,
}

impl<'a> Body<'a> {
    /// The element with the given parts and no inline style.
    pub fn style_less(children: Vec<Element>) -> (body: Self)
        ensures
            body.children == children,
            body.styles.values@.len() == 0,
    {
        Body { children: children, styles: attributes::StyleAttr::empty() }
    }
}

impl<'a> TagRenderableName for Body<'a> {
    open spec fn spec_name(&self) -> Seq<char> {
        "body"@
    }

    fn get_name(&self) -> (name: String) {
        proof {
            reveal_strlit("body");
        }
        String::from_str("body")
    }
}

impl<'a> TagRenderableAttrs for Body<'a> {
    open spec fn spec_attributes(&self) -> Seq<AttrPair> {
        with_style(Seq::empty(), &self.styles)
    }

    fn get_attributes(&self) -> (attributes: Vec<(String, String)>) {
        style_attrs(&self.styles)
    }
}

impl<'a> TagRenderableChildren for Body<'a> {
    open spec fn spec_content(&self) -> Content {
        Content::Children(element_nodes(self.children@))
    }

    fn get_children(&self) -> (content: ChildContent) {
        element_children(&self.children)
    }
}

impl<'a> TagRenderable for Body<'a> {

}

impl<'a> TagRenderableStyleSetter<'a> for Body<'a> {
    open spec fn spec_styles(&self) -> Seq<&'a dyn style_traits::Style> {
        self.styles.values@
    }

    fn add_style(self, styles: Vec<&'a dyn style_traits::Style>) -> (styled: Self)
        ensures
            styled.children == self.children,
    {
        let mut styled = self;
        let mut more = styles;
        styled.styles.values.append(&mut more);
        styled
    }
}

/// A generic block container.
pub struct Div<'a> {
    pub children: Vec<Element>,
    pub styles: attributes::StyleAttr<'a>,
}

impl<'a> Div<'a> {
    /// The element with the given parts and no inline style.
    pub fn style_less(children: Vec<Element>) -> (div: Self)
        ensures
            div.children == children,
            div.styles.values@.len() == 0,
    {
        Div { children: children, styles: attributes::StyleAttr::empty() }
    }
}

impl<'a> TagRenderableName for Div<'a> {
    open spec fn spec_name(&self) -> Seq<char> {
        "div"@
    }

    fn get_name(&self) -> (name: String) {
        proof {
            reveal_strlit("div");
        }
        String::from_str("div")
    }
}

impl<'a> TagRenderableAttrs for Div<'a> {
    open spec fn spec_attributes(&self) -> Seq<AttrPair> {
        with_style(Seq::empty(), &self.styles)
    }

    fn get_attributes(&self) -> (attributes: Vec<(String, String)>) {
        style_attrs(&self.styles)
    }
}

impl<'a> TagRenderableChildren for Div<'a> {
    open spec fn spec_content(&self) -> Content {
        Content::Children(element_nodes(self.children@))
    }

    fn get_children(&self) -> (content: ChildContent) {
        element_children(&self.children)
    }
}

impl<'a> TagRenderable for Div<'a> {

}

impl<'a> GenericRenderable for Div<'a> {

}

impl TagRenderableIntoElement for Div<'static> {
    fn into_element(self) -> (element: Element) {
        Element::Tag(Box::new(self))
    }
}

impl<'a> TagRenderableStyleSetter<'a> for Div<'a> {
    open spec fn spec_styles(&self) -> Seq<&'a dyn style_traits::Style> {
        self.styles.values@
    }

    fn add_style(self, styles: Vec<&'a dyn style_traits::Style>) -> (styled: Self)
        ensures
            styled.children == self.children,
    {
        let mut styled = self;
        let mut more = styles;
        styled.styles.values.append(&mut more);
        styled
    }
}

/// A generic inline container.
pub struct Span<'a> {
    pub children: Vec<Element>,
    pub styles: attributes::StyleAttr<'a>,
}

impl<'a> Span<'a> {
    /// The element with the given parts and no inline style.
    pub fn style_less(children: Vec<Element>) -> (span: Self)
        ensures
            span.children == children,
            span.styles.values@.len() == 0,
    {
        Span { children: children, styles: attributes::StyleAttr::empty() }
    }
}

impl<'a> TagRenderableName for Span<'a> {
    open spec fn spec_name(&self) -> Seq<char> {
        "span"@
    }

    fn get_name(&self) -> (name: String) {
        proof {
            reveal_strlit("span");
        }
        String::from_str("span")
    }
}

impl<'a> TagRenderableAttrs for Span<'a> {
    open spec fn spec_attributes(&self) -> Seq<AttrPair> {
        with_style(Seq::empty(), &self.styles)
    }

    fn get_attributes(&self) -> (attributes: Vec<(String, String)>) {
        style_attrs(&self.styles)
    }
}

impl<'a> TagRenderableChildren for Span<'a> {
    open spec fn spec_content(&self) -> Content {
        Content::Children(element_nodes(self.children@))
    }

    fn get_children(&self) -> (content: ChildContent) {
        element_children(&self.children)
    }
}

impl<'a> TagRenderable for Span<'a> {

}

impl<'a> GenericRenderable for Span<'a> {

}

impl TagRenderableIntoElement for Span<'static> {
    fn into_element(self) -> (element: Element) {
        Element::Tag(Box::new(self))
    }
}

impl<'a> TagRenderableStyleSetter<'a> for Span<'a> {
    open spec fn spec_styles(&self) -> Seq<&'a dyn style_traits::Style> {
        self.styles.values@
    }

    fn add_style(self, styles: Vec<&'a dyn style_traits::Style>) -> (styled: Self)
        ensures
            styled.children == self.children,
    {
        let mut styled = self;
        let mut more = styles;
        styled.styles.values.append(&mut more);
        styled
    }
}

/// A heading of the first level.
pub struct H1<'a> {
    pub children: Vec<Element>,
    pub styles: attributes::StyleAttr<'a>,
}

impl<'a> H1<'a> {
    /// The element with the given parts and no inline style.
    pub fn style_less(children: Vec<Element>) -> (heading: Self)
        ensures
            heading.children == children,
            heading.styles.values@.len() == 0,
    {
        H1 { children: children, styles: attributes::StyleAttr::empty() }
    }
}

impl<'a> TagRenderableName for H1<'a> {
    open spec fn spec_name(&self) -> Seq<char> {
        "h1"@
    }

    fn get_name(&self) -> (name: String) {
        proof {
            reveal_strlit("h1");
        }
        String::from_str("h1")
    }
}

impl<'a> TagRenderableAttrs for H1<'a> {
    open spec fn spec_attributes(&self) -> Seq<AttrPair> {
        with_style(Seq::empty(), &self.styles)
    }

    fn get_attributes(&self) -> (attributes: Vec<(String, String)>) {
        style_attrs(&self.styles)
    }
}

impl<'a> TagRenderableChildren for H1<'a> {
    open spec fn spec_content(&self) -> Content {
        Content::Children(element_nodes(self.children@))
    }

    fn get_children(&self) -> (content: ChildContent) {
        element_children(&self.children)
    }
}

impl<'a> TagRenderable for H1<'a> {

}

impl<'a> GenericRenderable for H1<'a> {

}

impl TagRenderableIntoElement for H1<'static> {
    fn into_element(self) -> (element: Element) {
        Element::Tag(Box::new(self))
    }
}

impl<'a> TagRenderableStyleSetter<'a> for H1<'a> {
    open spec fn spec_styles(&self) -> Seq<&'a dyn style_traits::Style> {
        self.styles.values@
    }

    fn add_style(self, styles: Vec<&'a dyn style_traits::Style>) -> (styled: Self)
        ensures
            styled.children == self.children,
    {
        let mut styled = self;
        let mut more = styles;
        styled.styles.values.append(&mut more);
        styled
    }
}

/// A heading of the second level.
pub struct H2<'a> {
    pub children: Vec<Element>,
    pub styles: attributes::StyleAttr<'a>,
}

impl<'a> H2<'a> {
    /// The element with the given parts and no inline style.
    pub fn style_less(children: Vec<Element>) -> (heading: Self)
        ensures
            heading.children == children,
            heading.styles.values@.len() == 0,
    {
        H2 { children: children, styles: attributes::StyleAttr::empty() }
    }
}

impl<'a> TagRenderableName for H2<'a> {
    open spec fn spec_name(&self) -> Seq<char> {
        "h2"@
    }

    fn get_name(&self) -> (name: String) {
        proof {
            reveal_strlit("h2");
        }
        String::from_str("h2")
    }
}

impl<'a> TagRenderableAttrs for H2<'a> {
    open spec fn spec_attributes(&self) -> Seq<AttrPair> {
        with_style(Seq::empty(), &self.styles)
    }

    fn get_attributes(&self) -> (attributes: Vec<(String, String)>) {
        style_attrs(&self.styles)
    }
}

impl<'a> TagRenderableChildren for H2<'a> {
    open spec fn spec_content(&self) -> Content {
        Content::Children(element_nodes(self.children@))
    }

    fn get_children(&self) -> (content: ChildContent) {
        element_children(&self.children)
    }
}

impl<'a> TagRenderable for H2<'a> {

}

impl<'a> GenericRenderable for H2<'a> {

}

impl TagRenderableIntoElement for H2<'static> {
    fn into_element(self) -> (element: Element) {
        Element::Tag(Box::new(self))
    }
}

impl<'a> TagRenderableStyleSetter<'a> for H2<'a> {
    open spec fn spec_styles(&self) -> Seq<&'a dyn style_traits::Style> {
        self.styles.values@
    }

    fn add_style(self, styles: Vec<&'a dyn style_traits::Style>) -> (styled: Self)
        ensures
            styled.children == self.children,
    {
        let mut styled = self;
        let mut more = styles;
        styled.styles.values.append(&mut more);
        styled
    }
}

/// A heading of the third level.
pub struct H3<'a> {
    pub children: Vec<Element>,
    pub styles: attributes::StyleAttr<'a>,
}

impl<'a> H3<'a> {
    /// The element with the given parts and no inline style.
    pub fn style_less(children: Vec<Element>) -> (heading: Self)
        ensures
            heading.children == children,
            heading.styles.values@.len() == 0,
    {
        H3 { children: children, styles: attributes::StyleAttr::empty() }
    }
}

impl<'a> TagRenderableName for H3<'a> {
    open spec fn spec_name(&self) -> Seq<char> {
        "h3"@
    }

    fn get_name(&self) -> (name: String) {
        proof {
            reveal_strlit("h3");
        }
        String::from_str("h3")
    }
}

impl<'a> TagRenderableAttrs for H3<'a> {
    open spec fn spec_attributes(&self) -> Seq<AttrPair> {
        with_style(Seq::empty(), &self.styles)
    }

    fn get_attributes(&self) -> (attributes: Vec<(String, String)>) {
        style_attrs(&self.styles)
    }
}

impl<'a> TagRenderableChildren for H3<'a> {
    open spec fn spec_content(&self) -> Content {
        Content::Children(element_nodes(self.children@))
    }

    fn get_children(&self) -> (content: ChildContent) {
        element_children(&self.children)
    }
}

impl<'a> TagRenderable for H3<'a> {

}

impl<'a> GenericRenderable for H3<'a> {

}

impl TagRenderableIntoElement for H3<'static> {
    fn into_element(self) -> (element: Element) {
        Element::Tag(Box::new(self))
    }
}

impl<'a> TagRenderableStyleSetter<'a> for H3<'a> {
    open spec fn spec_styles(&self) -> Seq<&'a dyn style_traits::Style> {
        self.styles.values@
    }

    fn add_style(self, styles: Vec<&'a dyn style_traits::Style>) -> (styled: Self)
        ensures
            styled.children == self.children,
    {
        let mut styled = self;
        let mut more = styles;
        styled.styles.values.append(&mut more);
        styled
    }
}

/// A heading of the fourth level.
pub struct H4<'a> {
    pub children: Vec<Element>,
    pub styles: attributes::StyleAttr<'a>,
}

impl<'a> H4<'a> {
    /// The element with the given parts and no inline style.
    pub fn style_less(children: Vec<Element>) -> (heading: Self)
        ensures
            heading.children == children,
            heading.styles.values@.len() == 0,
    {
        H4 { children: children, styles: attributes::StyleAttr::empty() }
    }
}

impl<'a> TagRenderableName for H4<'a> {
    open spec fn spec_name(&self) -> Seq<char> {
        "h4"@
    }

    fn get_name(&self) -> (name: String) {
        proof {
            reveal_strlit("h4");
        }
        String::from_str("h4")
    }
}

impl<'a> TagRenderableAttrs for H4<'a> {
    open spec fn spec_attributes(&self) -> Seq<AttrPair> {
        with_style(Seq::empty(), &self.styles)
    }

    fn get_attributes(&self) -> (attributes: Vec<(String, String)>) {
        style_attrs(&self.styles)
    }
}

impl<'a> TagRenderableChildren for H4<'a> {
    open spec fn spec_content(&self) -> Content {
        Content::Children(element_nodes(self.children@))
    }

    fn get_children(&self) -> (content: ChildContent) {
        element_children(&self.children)
    }
}

impl<'a> TagRenderable for H4<'a> {

}

impl<'a> GenericRenderable for H4<'a> {

}

impl TagRenderableIntoElement for H4<'static> {
    fn into_element(self) -> (element: Element) {
        Element::Tag(Box::new(self))
    }
}

impl<'a> TagRenderableStyleSetter<'a> for H4<'a> {
    open spec fn spec_styles(&self) -> Seq<&'a dyn style_traits::Style> {
        self.styles.values@
    }

    fn add_style(self, styles: Vec<&'a dyn style_traits::Style>) -> (styled: Self)
        ensures
            styled.children == self.children,
    {
        let mut styled = self;
        let mut more = styles;
        styled.styles.values.append(&mut more);
        styled
    }
}

/// A paragraph.
pub struct P<'a> {
    pub children: Vec<Element>,
    pub styles: attributes::StyleAttr<'a>,
}

impl<'a> P<'a> {
    /// The element with the given parts and no inline style.
    pub fn style_less(children: Vec<Element>) -> (paragraph: Self)
        ensures
            paragraph.children == children,
            paragraph.styles.values@.len() == 0,
    {
        P { children: children, styles: attributes::StyleAttr::empty() }
    }
}

impl<'a> TagRenderableName for P<'a> {
    open spec fn spec_name(&self) -> Seq<char> {
        "p"@
    }

    fn get_name(&self) -> (name: String) {
        proof {
            reveal_strlit("p");
        }
        String::from_str("p")
    }
}

impl<'a> TagRenderableAttrs for P<'a> {
    open spec fn spec_attributes(&self) -> Seq<AttrPair> {
        with_style(Seq::empty(), &self.styles)
    }

    fn get_attributes(&self) -> (attributes: Vec<(String, String)>) {
        style_attrs(&self.styles)
    }
}

impl<'a> TagRenderableChildren for P<'a> {
    open spec fn spec_content(&self) -> Content {
        Content::Children(element_nodes(self.children@))
    }

    fn get_children(&self) -> (content: ChildContent) {
        element_children(&self.children)
    }
}

impl<'a> TagRenderable for P<'a> {

}

impl<'a> GenericRenderable for P<'a> {

}

impl TagRenderableIntoElement for P<'static> {
    fn into_element(self) -> (element: Element) {
        Element::Tag(Box::new(self))
    }
}

impl<'a> TagRenderableStyleSetter<'a> for P<'a> {
    open spec fn spec_styles(&self) -> Seq<&'a dyn style_traits::Style> {
        self.styles.values@
    }

    fn add_style(self, styles: Vec<&'a dyn style_traits::Style>) -> (styled: Self)
        ensures
            styled.children == self.children,
    {
        let mut styled = self;
        let mut more = styles;
        styled.styles.values.append(&mut more);
        styled
    }
}

/// A table: an optional head and a body.
pub struct Table<'a> {
    pub thead: Option<Thead<'a>>,
    pub tbody: Tbody<'a>,
    pub styles: attributes::StyleAttr<'a>,
}

impl<'a> Table<'a> {
    /// The element with the given parts and no inline style.
    pub fn style_less(thead: Option<Thead<'a>>, tbody: Tbody<'a>) -> (table: Self)
        ensures
            table.thead == thead,
            table.tbody == tbody,
            table.styles.values@.len() == 0,
    {
        Table { thead: thead, tbody: tbody, styles: attributes::StyleAttr::empty() }
    }

    /// A table without inline style from plain rows of cells: each cell
    /// becomes a cell element with that one child, each row a row element.
    pub fn style_less_from_vecs(thead: Option<Vec<Vec<Element>>>, tbody: Vec<Vec<Element>>) -> (table:
        Self)
        ensures
            table.styles.values@.len() == 0,
            table.tbody.styles.values@.len() == 0,
            are_data_rows(table.tbody.trs@, tbody@),
            match thead {
                Some(rows) => table.thead matches Some(head) && head.styles.values@.len() == 0
                    && are_heading_rows(head.trs@, rows@),
                None => table.thead is None,
            },
    {
        Table {
            thead: match thead {
                Some(h) => Some(Thead::style_less(heading_rows(h))),
                None => None,
            },
            tbody: Tbody::style_less(data_rows(tbody)),
            styles: attributes::StyleAttr::empty(),
        }
    }
}

impl<'a> TagRenderableName for Table<'a> {
    open spec fn spec_name(&self) -> Seq<char> {
        "table"@
    }

    fn get_name(&self) -> (name: String) {
        proof {
            reveal_strlit("table");
        }
        String::from_str("table")
    }
}

impl<'a> TagRenderableAttrs for Table<'a> {
    open spec fn spec_attributes(&self) -> Seq<AttrPair> {
        with_style(Seq::empty(), &self.styles)
    }

    fn get_attributes(&self) -> (attributes: Vec<(String, String)>) {
        style_attrs(&self.styles)
    }
}

impl<'a> TagRenderableChildren for Table<'a> {
    open spec fn spec_content(&self) -> Content {
        Content::Children(optional_node(self.thead).push(tag_node(&self.tbody)))
    }

    fn get_children(&self) -> (content: ChildContent) {
        let mut ret: Vec<Renderable> = Vec::new();
        match &self.thead {
            Some(v) => push_tag(&mut ret, v),
            None => (),
        }
        push_tag(&mut ret, &self.tbody);
        assert(nodes_of(ret@) =~= optional_node(self.thead).push(tag_node(&self.tbody)));
        ChildContent::Children(ret)
    }
}

impl<'a> TagRenderable for Table<'a> {

}

impl<'a> GenericRenderable for Table<'a> {

}

impl TagRenderableIntoElement for Table<'static> {
    fn into_element(self) -> (element: Element) {
        Element::Tag(Box::new(self))
    }
}

impl<'a> TagRenderableStyleSetter<'a> for Table<'a> {
    open spec fn spec_styles(&self) -> Seq<&'a dyn style_traits::Style> {
        self.styles.values@
    }

    fn add_style(self, styles: Vec<&'a dyn style_traits::Style>) -> (styled: Self)
        ensures
            styled.thead == self.thead,
            styled.tbody == self.tbody,
    {
        let mut styled = self;
        let mut more = styles;
        styled.styles.values.append(&mut more);
        styled
    }
}

/// The head of a table: its heading rows.
pub struct Thead<'a> {
    pub trs: Vec<Thr<'a>>,
    pub styles: attributes::StyleAttr<'a>,
}

impl<'a> Thead<'a> {
    /// The element with the given parts and no inline style.
    pub fn style_less(trs: Vec<Thr<'a>>) -> (thead: Self)
        ensures
            thead.trs == trs,
            thead.styles.values@.len() == 0,
    {
        Thead { trs: trs, styles: attributes::StyleAttr::empty() }
    }
}

impl<'a> TagRenderableName for Thead<'a> {
    open spec fn spec_name(&self) -> Seq<char> {
        "thead"@
    }

    fn get_name(&self) -> (name: String) {
        proof {
            reveal_strlit("thead");
        }
        String::from_str("thead")
    }
}

impl<'a> TagRenderableAttrs for Thead<'a> {
    open spec fn spec_attributes(&self) -> Seq<AttrPair> {
        with_style(Seq::empty(), &self.styles)
    }

    fn get_attributes(&self) -> (attributes: Vec<(String, String)>) {
        style_attrs(&self.styles)
    }
}

impl<'a> TagRenderableChildren for Thead<'a> {
    open spec fn spec_content(&self) -> Content {
        Content::Children(tag_nodes(self.trs@))
    }

    fn get_children(&self) -> (content: ChildContent) {
        tag_children(&self.trs)
    }
}

impl<'a> TagRenderable for Thead<'a> {

}

impl<'a> TagRenderableStyleSetter<'a> for Thead<'a> {
    open spec fn spec_styles(&self) -> Seq<&'a dyn style_traits::Style> {
        self.styles.values@
    }

    fn add_style(self, styles: Vec<&'a dyn style_traits::Style>) -> (styled: Self)
        ensures
            styled.trs == self.trs,
    {
        let mut styled = self;
        let mut more = styles;
        styled.styles.values.append(&mut more);
        styled
    }
}

/// A row of heading cells.
pub struct Thr<'a> {
    pub ths: Vec<Th<'a>>,
    pub styles: attributes::StyleAttr<'a>,
}

impl<'a> Thr<'a> {
    /// The element with the given parts and no inline style.
    pub fn style_less(ths: Vec<Th<'a>>) -> (row: Self)
        ensures
            row.ths == ths,
            row.styles.values@.len() == 0,
    {
        Thr { ths: ths, styles: attributes::StyleAttr::empty() }
    }
}

impl<'a> TagRenderableName for Thr<'a> {
    open spec fn spec_name(&self) -> Seq<char> {
        "tr"@
    }

    fn get_name(&self) -> (name: String) {
        proof {
            reveal_strlit("tr");
        }
        String::from_str("tr")
    }
}

impl<'a> TagRenderableAttrs for Thr<'a> {
    open spec fn spec_attributes(&self) -> Seq<AttrPair> {
        with_style(Seq::empty(), &self.styles)
    }

    fn get_attributes(&self) -> (attributes: Vec<(String, String)>) {
        style_attrs(&self.styles)
    }
}

impl<'a> TagRenderableChildren for Thr<'a> {
    open spec fn spec_content(&self) -> Content {
        Content::Children(tag_nodes(self.ths@))
    }

    fn get_children(&self) -> (content: ChildContent) {
        tag_children(&self.ths)
    }
}

impl<'a> TagRenderable for Thr<'a> {

}

impl<'a> TagRenderableStyleSetter<'a> for Thr<'a> {
    open spec fn spec_styles(&self) -> Seq<&'a dyn style_traits::Style> {
        self.styles.values@
    }

    fn add_style(self, styles: Vec<&'a dyn style_traits::Style>) -> (styled: Self)
        ensures
            styled.ths == self.ths,
    {
        let mut styled = self;
        let mut more = styles;
        styled.styles.values.append(&mut more);
        styled
    }
}

/// A heading cell.
pub struct Th<'a> {
    pub children: Vec<Element>,
    pub styles: attributes::StyleAttr<'a>,
}

impl<'a> Th<'a> {
    /// The element with the given parts and no inline style.
    pub fn style_less(children: Vec<Element>) -> (cell: Self)
        ensures
            cell.children == children,
            cell.styles.values@.len() == 0,
    {
        Th { children: children, styles: attributes::StyleAttr::empty() }
    }
}

impl<'a> TagRenderableName for Th<'a> {
    open spec fn spec_name(&self) -> Seq<char> {
        "th"@
    }

    fn get_name(&self) -> (name: String) {
        proof {
            reveal_strlit("th");
        }
        String::from_str("th")
    }
}

impl<'a> TagRenderableAttrs for Th<'a> {
    open spec fn spec_attributes(&self) -> Seq<AttrPair> {
        with_style(Seq::empty(), &self.styles)
    }

    fn get_attributes(&self) -> (attributes: Vec<(String, String)>) {
        style_attrs(&self.styles)
    }
}

impl<'a> TagRenderableChildren for Th<'a> {
    open spec fn spec_content(&self) -> Content {
        Content::Children(element_nodes(self.children@))
    }

    fn get_children(&self) -> (content: ChildContent) {
        element_children(&self.children)
    }
}

impl<'a> TagRenderable for Th<'a> {

}

impl<'a> TagRenderableStyleSetter<'a> for Th<'a> {
    open spec fn spec_styles(&self) -> Seq<&'a dyn style_traits::Style> {
        self.styles.values@
    }

    fn add_style(self, styles: Vec<&'a dyn style_traits::Style>) -> (styled: Self)
        ensures
            styled.children == self.children,
    {
        let mut styled = self;
        let mut more = styles;
        styled.styles.values.append(&mut more);
        styled
    }
}

/// The body of a table: its data rows.
pub struct Tbody<'a> {
    pub trs: Vec<Tr<'a>>,
    pub styles: attributes::StyleAttr<'a>,
}

impl<'a> Tbody<'a> {
    /// The element with the given parts and no inline style.
    pub fn style_less(trs: Vec<Tr<'a>>) -> (tbody: Self)
        ensures
            tbody.trs == trs,
            tbody.styles.values@.len() == 0,
    {
        Tbody { trs: trs, styles: attributes::StyleAttr::empty() }
    }
}

impl<'a> TagRenderableName for Tbody<'a> {
    open spec fn spec_name(&self) -> Seq<char> {
        "tbody"@
    }

    fn get_name(&self) -> (name: String) {
        proof {
            reveal_strlit("tbody");
        }
        String::from_str("tbody")
    }
}

impl<'a> TagRenderableAttrs for Tbody<'a> {
    open spec fn spec_attributes(&self) -> Seq<AttrPair> {
        with_style(Seq::empty(), &self.styles)
    }

    fn get_attributes(&self) -> (attributes: Vec<(String, String)>) {
        style_attrs(&self.styles)
    }
}

impl<'a> TagRenderableChildren for Tbody<'a> {
    open spec fn spec_content(&self) -> Content {
        Content::Children(tag_nodes(self.trs@))
    }

    fn get_children(&self) -> (content: ChildContent) {
        tag_children(&self.trs)
    }
}

impl<'a> TagRenderable for Tbody<'a> {

}

impl<'a> TagRenderableStyleSetter<'a> for Tbody<'a> {
    open spec fn spec_styles(&self) -> Seq<&'a dyn style_traits::Style> {
        self.styles.values@
    }

    fn add_style(self, styles: Vec<&'a dyn style_traits::Style>) -> (styled: Self)
        ensures
            styled.trs == self.trs,
    {
        let mut styled = self;
        let mut more = styles;
        styled.styles.values.append(&mut more);
        styled
    }
}

/// A row of data cells.
pub struct Tr<'a> {
    pub tds: Vec<Td<'a>>,
    pub styles: attributes::StyleAttr<'a>,
}

impl<'a> Tr<'a> {
    /// The element with the given parts and no inline style.
    pub fn style_less(tds: Vec<Td<'a>>) -> (row: Self)
        ensures
            row.tds == tds,
            row.styles.values@.len() == 0,
    {
        Tr { tds: tds, styles: attributes::StyleAttr::empty() }
    }
}

impl<'a> TagRenderableName for Tr<'a> {
    open spec fn spec_name(&self) -> Seq<char> {
        "tr"@
    }

    fn get_name(&self) -> (name: String) {
        proof {
            reveal_strlit("tr");
        }
        String::from_str("tr")
    }
}

impl<'a> TagRenderableAttrs for Tr<'a> {
    open spec fn spec_attributes(&self) -> Seq<AttrPair> {
        with_style(Seq::empty(), &self.styles)
    }

    fn get_attributes(&self) -> (attributes: Vec<(String, String)>) {
        style_attrs(&self.styles)
    }
}

impl<'a> TagRenderableChildren for Tr<'a> {
    open spec fn spec_content(&self) -> Content {
        Content::Children(tag_nodes(self.tds@))
    }

    fn get_children(&self) -> (content: ChildContent) {
        tag_children(&self.tds)
    }
}

impl<'a> TagRenderable for Tr<'a> {

}

impl<'a> TagRenderableStyleSetter<'a> for Tr<'a> {
    open spec fn spec_styles(&self) -> Seq<&'a dyn style_traits::Style> {
        self.styles.values@
    }

    fn add_style(self, styles: Vec<&'a dyn style_traits::Style>) -> (styled: Self)
        ensures
            styled.tds == self.tds,
    {
        let mut styled = self;
        let mut more = styles;
        styled.styles.values.append(&mut more);
        styled
    }
}

/// A data cell.
pub struct Td<'a> {
    pub children: Vec<Element>,
    pub styles: attributes::StyleAttr<'a>,
}

impl<'a> Td<'a> {
    /// The element with the given parts and no inline style.
    pub fn style_less(children: Vec<Element>) -> (cell: Self)
        ensures
            cell.children == children,
            cell.styles.values@.len() == 0,
    {
        Td { children: children, styles: attributes::StyleAttr::empty() }
    }
}

impl<'a> TagRenderableName for Td<'a> {
    open spec fn spec_name(&self) -> Seq<char> {
        "td"@
    }

    fn get_name(&self) -> (name: String) {
        proof {
            reveal_strlit("td");
        }
        String::from_str("td")
    }
}

impl<'a> TagRenderableAttrs for Td<'a> {
    open spec fn spec_attributes(&self) -> Seq<AttrPair> {
        with_style(Seq::empty(), &self.styles)
    }

    fn get_attributes(&self) -> (attributes: Vec<(String, String)>) {
        style_attrs(&self.styles)
    }
}

impl<'a> TagRenderableChildren for Td<'a> {
    open spec fn spec_content(&self) -> Content {
        Content::Children(element_nodes(self.children@))
    }

    fn get_children(&self) -> (content: ChildContent) {
        element_children(&self.children)
    }
}

impl<'a> TagRenderable for Td<'a> {

}

impl<'a> TagRenderableStyleSetter<'a> for Td<'a> {
    open spec fn spec_styles(&self) -> Seq<&'a dyn style_traits::Style> {
        self.styles.values@
    }

    fn add_style(self, styles: Vec<&'a dyn style_traits::Style>) -> (styled: Self)
        ensures
            styled.children == self.children,
    {
        let mut styled = self;
        let mut more = styles;
        styled.styles.values.append(&mut more);
        styled
    }
}

/// A fragment of code.
pub struct Code<'a> {
    pub children: Vec<Element>,
    pub styles: attributes::StyleAttr<'a>,
}

impl<'a> Code<'a> {
    /// The element with the given parts and no inline style.
    pub fn style_less(children: Vec<Element>) -> (code: Self)
        ensures
            code.children == children,
            code.styles.values@.len() == 0,
    {
        Code { children: children, styles: attributes::StyleAttr::empty() }
    }
}

impl<'a> TagRenderableName for Code<'a> {
    open spec fn spec_name(&self) -> Seq<char> {
        "code"@
    }

    fn get_name(&self) -> (name: String) {
        proof {
            reveal_strlit("code");
        }
        String::from_str("code")
    }
}

impl<'a> TagRenderableAttrs for Code<'a> {
    open spec fn spec_attributes(&self) -> Seq<AttrPair> {
        with_style(Seq::empty(), &self.styles)
    }

    fn get_attributes(&self) -> (attributes: Vec<(String, String)>) {
        style_attrs(&self.styles)
    }
}

impl<'a> TagRenderableChildren for Code<'a> {
    open spec fn spec_content(&self) -> Content {
        Content::Children(element_nodes(self.children@))
    }

    fn get_children(&self) -> (content: ChildContent) {
        element_children(&self.children)
    }
}

impl<'a> TagRenderable for Code<'a> {

}

impl<'a> GenericRenderable for Code<'a> {

}

impl TagRenderableIntoElement for Code<'static> {
    fn into_element(self) -> (element: Element) {
        Element::Tag(Box::new(self))
    }
}

impl<'a> TagRenderableStyleSetter<'a> for Code<'a> {
    open spec fn spec_styles(&self) -> Seq<&'a dyn style_traits::Style> {
        self.styles.values@
    }

    fn add_style(self, styles: Vec<&'a dyn style_traits::Style>) -> (styled: Self)
        ensures
            styled.children == self.children,
    {
        let mut styled = self;
        let mut more = styles;
        styled.styles.values.append(&mut more);
        styled
    }
}

/// Preformatted text.
pub struct Pre<'a> {
    pub children: Vec<Element>,
    pub styles: attributes::StyleAttr<'a>,
}

impl<'a> Pre<'a> {
    /// The element with the given parts and no inline style.
    pub fn style_less(children: Vec<Element>) -> (pre: Self)
        ensures
            pre.children == children,
            pre.styles.values@.len() == 0,
    {
        Pre { children: children, styles: attributes::StyleAttr::empty() }
    }
}

impl<'a> TagRenderableName for Pre<'a> {
    open spec fn spec_name(&self) -> Seq<char> {
        "pre"@
    }

    fn get_name(&self) -> (name: String) {
        proof {
            reveal_strlit("pre");
        }
        String::from_str("pre")
    }
}

impl<'a> TagRenderableAttrs for Pre<'a> {
    open spec fn spec_attributes(&self) -> Seq<AttrPair> {
        with_style(Seq::empty(), &self.styles)
    }

    fn get_attributes(&self) -> (attributes: Vec<(String, String)>) {
        style_attrs(&self.styles)
    }
}

impl<'a> TagRenderableChildren for Pre<'a> {
    open spec fn spec_content(&self) -> Content {
        Content::Children(element_nodes(self.children@))
    }

    fn get_children(&self) -> (content: ChildContent) {
        element_children(&self.children)
    }
}

impl<'a> TagRenderable for Pre<'a> {

}

impl<'a> GenericRenderable for Pre<'a> {

}

impl TagRenderableIntoElement for Pre<'static> {
    fn into_element(self) -> (element: Element) {
        Element::Tag(Box::new(self))
    }
}

impl<'a> TagRenderableStyleSetter<'a> for Pre<'a> {
    open spec fn spec_styles(&self) -> Seq<&'a dyn style_traits::Style> {
        self.styles.values@
    }

    fn add_style(self, styles: Vec<&'a dyn style_traits::Style>) -> (styled: Self)
        ensures
            styled.children == self.children,
    {
        let mut styled = self;
        let mut more = styles;
        styled.styles.values.append(&mut more);
        styled
    }
}

/// An image.
pub struct Img<'a> {
    pub src: attributes::Src,
    pub styles: attributes::StyleAttr<'a>,
}

impl<'a> Img<'a> {
    /// The element with the given parts and no inline style.
    pub fn style_less(src: attributes::Src) -> (img: Self)
        ensures
            img.src == src,
            img.styles.values@.len() == 0,
    {
        Img { src: src, styles: attributes::StyleAttr::empty() }
    }

    /// An image without inline style, from the address of its source.
    pub fn style_less_with_src(src: String) -> (img: Self)
        ensures
            img.src.value@ == src@,
            img.styles.values@.len() == 0,
    {
        Img {
            src: attributes::Src { value: units::SourceValue::new(src) },
            styles: attributes::StyleAttr::empty(),
        }
    }
}

impl<'a> TagRenderableName for Img<'a> {
    open spec fn spec_name(&self) -> Seq<char> {
        "img"@
    }

    fn get_name(&self) -> (name: String) {
        proof {
            reveal_strlit("img");
        }
        String::from_str("img")
    }
}

impl<'a> TagRenderableAttrs for Img<'a> {
    open spec fn spec_attributes(&self) -> Seq<AttrPair> {
        with_style(seq![attr_pair(&self.src)], &self.styles)
    }

    fn get_attributes(&self) -> (attributes: Vec<(String, String)>) {
        let mut attrs: Vec<(String, String)> = Vec::new();
        attrs.push(resolve_attribute(&self.src));
        assert(pairs_of(attrs@) =~= seq![attr_pair(&self.src)]);
        full_attrs(attrs, &self.styles)
    }
}

impl<'a> TagRenderableChildren for Img<'a> {
    open spec fn spec_content(&self) -> Content {
        Content::Children(Seq::empty())
    }

    fn get_children(&self) -> (content: ChildContent) {
        let ret: Vec<Renderable> = Vec::new();
        assert(nodes_of(ret@) =~= Seq::empty());
        ChildContent::Children(ret)
    }
}

impl<'a> TagRenderable for Img<'a> {

}

impl<'a> GenericRenderable for Img<'a> {

}

impl TagRenderableIntoElement for Img<'static> {
    fn into_element(self) -> (element: Element) {
        Element::Tag(Box::new(self))
    }
}

impl<'a> TagRenderableStyleSetter<'a> for Img<'a> {
    open spec fn spec_styles(&self) -> Seq<&'a dyn style_traits::Style> {
        self.styles.values@
    }

    fn add_style(self, styles: Vec<&'a dyn style_traits::Style>) -> (styled: Self)
        ensures
            styled.src == self.src,
    {
        let mut styled = self;
        let mut more = styles;
        styled.styles.values.append(&mut more);
        styled
    }
}

/// A link.
pub struct A<'a> {
    pub href: attributes::Href,
    pub children: Vec<Element>,
    pub styles: attributes::StyleAttr<'a>,
}

impl<'a> A<'a> {
    /// The element with the given parts and no inline style.
    pub fn style_less(href: attributes::Href, children: Vec<Element>) -> (link: Self)
        ensures
            link.href == href,
            link.children == children,
            link.styles.values@.len() == 0,
    {
        A { href: href, children: children, styles: attributes::StyleAttr::empty() }
    }
}

impl<'a> TagRenderableName for A<'a> {
    open spec fn spec_name(&self) -> Seq<char> {
        "a"@
    }

    fn get_name(&self) -> (name: String) {
        proof {
            reveal_strlit("a");
        }
        String::from_str("a")
    }
}

impl<'a> TagRenderableAttrs for A<'a> {
    open spec fn spec_attributes(&self) -> Seq<AttrPair> {
        with_style(seq![attr_pair(&self.href)], &self.styles)
    }

    fn get_attributes(&self) -> (attributes: Vec<(String, String)>) {
        let mut attrs: Vec<(String, String)> = Vec::new();
        attrs.push(resolve_attribute(&self.href));
        assert(pairs_of(attrs@) =~= seq![attr_pair(&self.href)]);
        full_attrs(attrs, &self.styles)
    }
}

impl<'a> TagRenderableChildren for A<'a> {
    open spec fn spec_content(&self) -> Content {
        Content::Children(element_nodes(self.children@))
    }

    fn get_children(&self) -> (content: ChildContent) {
        element_children(&self.children)
    }
}

impl<'a> TagRenderable for A<'a> {

}

impl<'a> GenericRenderable for A<'a> {

}

impl TagRenderableIntoElement for A<'static> {
    fn into_element(self) -> (element: Element) {
        Element::Tag(Box::new(self))
    }
}

impl<'a> TagRenderableStyleSetter<'a> for A<'a> {
    open spec fn spec_styles(&self) -> Seq<&'a dyn style_traits::Style> {
        self.styles.values@
    }

    fn add_style(self, styles: Vec<&'a dyn style_traits::Style>) -> (styled: Self)
        ensures
            styled.href == self.href,
            styled.children == self.children,
    {
        let mut styled = self;
        let mut more = styles;
        styled.styles.values.append(&mut more);
        styled
    }
}

/// A form: its inputs, then the button that submits it.
pub struct Form<'a> {
    pub formmethod: attributes::Formmethod,
    pub action: Option<attributes::Action>,
    pub inputs: Vec<Input<'a>>,
    pub button: Button<'a>,
    pub styles: attributes::StyleAttr<'a>,
}

impl<'a> Form<'a> {
    /// The element with the given parts and no inline style.
    pub fn style_less(
        formmethod: attributes::Formmethod,
        action: Option<attributes::Action>,
        inputs: Vec<Input<'a>>,
        button: Button<'a>,
    ) -> (form: Self)
        ensures
            form.formmethod == formmethod,
            form.action == action,
            form.inputs == inputs,
            form.button == button,
            form.styles.values@.len() == 0,
    {
        Form {
            formmethod: formmethod,
            action: action,
            inputs: inputs,
            button: button,
            styles: attributes::StyleAttr::empty(),
        }
    }
}

impl<'a> TagRenderableName for Form<'a> {
    open spec fn spec_name(&self) -> Seq<char> {
        "form"@
    }

    fn get_name(&self) -> (name: String) {
        proof {
            reveal_strlit("form");
        }
        String::from_str("form")
    }
}

impl<'a> TagRenderableAttrs for Form<'a> {
    open spec fn spec_attributes(&self) -> Seq<AttrPair> {
        with_style(seq![attr_pair(&self.formmethod)] + optional_pair(self.action), &self.styles)
    }

    fn get_attributes(&self) -> (attributes: Vec<(String, String)>) {
        let mut attrs: Vec<(String, String)> = Vec::new();
        attrs.push(resolve_attribute(&self.formmethod));
        match &self.action {
            Some(a) => attrs.push(resolve_attribute(a)),
            None => (),
        }
        assert(pairs_of(attrs@) =~= seq![attr_pair(&self.formmethod)] + optional_pair(
            self.action,
        ));
        full_attrs(attrs, &self.styles)
    }
}

impl<'a> TagRenderableChildren for Form<'a> {
    open spec fn spec_content(&self) -> Content {
        Content::Children(tag_nodes(self.inputs@).push(tag_node(&self.button)))
    }

    fn get_children(&self) -> (content: ChildContent) {
        let mut children: Vec<Renderable> = Vec::new();
        push_tags(&mut children, &self.inputs);
        push_tag(&mut children, &self.button);
        assert(nodes_of(children@) =~= tag_nodes(self.inputs@).push(tag_node(&self.button)));
        ChildContent::Children(children)
    }
}

impl<'a> TagRenderable for Form<'a> {

}

impl<'a> GenericRenderable for Form<'a> {

}

impl TagRenderableIntoElement for Form<'static> {
    fn into_element(self) -> (element: Element) {
        Element::Tag(Box::new(self))
    }
}

impl<'a> TagRenderableStyleSetter<'a> for Form<'a> {
    open spec fn spec_styles(&self) -> Seq<&'a dyn style_traits::Style> {
        self.styles.values@
    }

    fn add_style(self, styles: Vec<&'a dyn style_traits::Style>) -> (styled: Self)
        ensures
            styled.formmethod == self.formmethod,
            styled.action == self.action,
            styled.inputs == self.inputs,
            styled.button == self.button,
    {
        let mut styled = self;
        let mut more = styles;
        styled.styles.values.append(&mut more);
        styled
    }
}

/// A button with one child.
pub struct Button<'a> {
    pub child: Element,
    pub styles: attributes::StyleAttr<'a>,
}

impl<'a> Button<'a> {
    /// The element with the given parts and no inline style.
    pub fn style_less(child: Element) -> (button: Self)
        ensures
            button.child == child,
            button.styles.values@.len() == 0,
    {
        Button { child: child, styles: attributes::StyleAttr::empty() }
    }
}

impl<'a> TagRenderableName for Button<'a> {
    open spec fn spec_name(&self) -> Seq<char> {
        "button"@
    }

    fn get_name(&self) -> (name: String) {
        proof {
            reveal_strlit("button");
        }
        String::from_str("button")
    }
}

impl<'a> TagRenderableAttrs for Button<'a> {
    open spec fn spec_attributes(&self) -> Seq<AttrPair> {
        with_style(Seq::empty(), &self.styles)
    }

    fn get_attributes(&self) -> (attributes: Vec<(String, String)>) {
        style_attrs(&self.styles)
    }
}

impl<'a> TagRenderableChildren for Button<'a> {
    open spec fn spec_content(&self) -> Content {
        Content::Children(seq![self.child@])
    }

    fn get_children(&self) -> (content: ChildContent) {
        let mut ret: Vec<Renderable> = Vec::new();
        ret.push(self.child.into_renderable());
        assert(nodes_of(ret@) =~= seq![self.child@]);
        ChildContent::Children(ret)
    }
}

impl<'a> TagRenderable for Button<'a> {

}

impl<'a> GenericRenderable for Button<'a> {

}

impl TagRenderableIntoElement for Button<'static> {
    fn into_element(self) -> (element: Element) {
        Element::Tag(Box::new(self))
    }
}

impl<'a> TagRenderableStyleSetter<'a> for Button<'a> {
    open spec fn spec_styles(&self) -> Seq<&'a dyn style_traits::Style> {
        self.styles.values@
    }

    fn add_style(self, styles: Vec<&'a dyn style_traits::Style>) -> (styled: Self)
        ensures
            styled.child == self.child,
    {
        let mut styled = self;
        let mut more = styles;
        styled.styles.values.append(&mut more);
        styled
    }
}

/// A field of a form.
pub struct Input<'a> {
    pub type_: Option<attributes::InputType>,
    pub name: attributes::Name,
    pub value: attributes::Value,
    pub styles: attributes::StyleAttr<'a>,
}

impl<'a> Input<'a> {
    /// The element with the given parts and no inline style.
    pub fn style_less(
        type_: Option<attributes::InputType>,
        name: attributes::Name,
        value: attributes::Value,
    ) -> (input: Self)
        ensures
            input.type_ == type_,
            input.name == name,
            input.value == value,
            input.styles.values@.len() == 0,
    {
        Input { type_: type_, name: name, value: value, styles: attributes::StyleAttr::empty() }
    }
}

impl<'a> TagRenderableName for Input<'a> {
    open spec fn spec_name(&self) -> Seq<char> {
        "input"@
    }

    fn get_name(&self) -> (name: String) {
        proof {
            reveal_strlit("input");
        }
        String::from_str("input")
    }
}

impl<'a> TagRenderableAttrs for Input<'a> {
    open spec fn spec_attributes(&self) -> Seq<AttrPair> {
        with_style(
            seq![attr_pair(&self.name), attr_pair(&self.value)] + optional_pair(self.type_),
            &self.styles,
        )
    }

    fn get_attributes(&self) -> (attributes: Vec<(String, String)>) {
        let mut attrs: Vec<(String, String)> = Vec::new();
        attrs.push(resolve_attribute(&self.name));
        attrs.push(resolve_attribute(&self.value));
        match &self.type_ {
            Some(a) => attrs.push(resolve_attribute(a)),
            None => (),
        }
        assert(pairs_of(attrs@) =~= seq![attr_pair(&self.name), attr_pair(&self.value)]
            + optional_pair(self.type_));
        full_attrs(attrs, &self.styles)
    }
}

impl<'a> TagRenderableChildren for Input<'a> {
    open spec fn spec_content(&self) -> Content {
        Content::Children(Seq::empty())
    }

    fn get_children(&self) -> (content: ChildContent) {
        let ret: Vec<Renderable> = Vec::new();
        assert(nodes_of(ret@) =~= Seq::empty());
        ChildContent::Children(ret)
    }
}

impl<'a> TagRenderable for Input<'a> {

}

impl<'a> GenericRenderable for Input<'a> {

}

impl TagRenderableIntoElement for Input<'static> {
    fn into_element(self) -> (element: Element) {
        Element::Tag(Box::new(self))
    }
}

impl<'a> TagRenderableStyleSetter<'a> for Input<'a> {
    open spec fn spec_styles(&self) -> Seq<&'a dyn style_traits::Style> {
        self.styles.values@
    }

    fn add_style(self, styles: Vec<&'a dyn style_traits::Style>) -> (styled: Self)
        ensures
            styled.type_ == self.type_,
            styled.name == self.name,
            styled.value == self.value,
    {
        let mut styled = self;
        let mut more = styles;
        styled.styles.values.append(&mut more);
        styled
    }
}

/// Whether `children` is the one child `data`.
pub open spec fn is_only_child(children: Seq<Element>, data: Element) -> bool {
    children.len() == 1 && children[0] == data
}

/// Whether `row` is the row, without inline style, whose cells hold `cells` one by one.
pub open spec fn is_data_row(row: Tr<'_>, cells: Seq<Element>) -> bool {
    &&& row.styles.values@.len() == 0
    &&& row.tds@.len() == cells.len()
    &&& forall|i: int|
        0 <= i < cells.len() ==> is_only_child((#[trigger] row.tds@[i]).children@, cells[i])
            && row.tds@[i].styles.values@.len() == 0
}

/// Whether `row` is the heading row, without inline style, whose cells hold `cells` one by one.
pub open spec fn is_heading_row(row: Thr<'_>, cells: Seq<Element>) -> bool {
    &&& row.styles.values@.len() == 0
    &&& row.ths@.len() == cells.len()
    &&& forall|i: int|
        0 <= i < cells.len() ==> is_only_child((#[trigger] row.ths@[i]).children@, cells[i])
            && row.ths@[i].styles.values@.len() == 0
}

/// Whether `rows` are the rows made of `cells`, row by row.
pub open spec fn are_data_rows(rows: Seq<Tr<'_>>, cells: Seq<Vec<Element>>) -> bool {
    &&& rows.len() == cells.len()
    &&& forall|i: int| 0 <= i < cells.len() ==> is_data_row(#[trigger] rows[i], cells[i]@)
}

/// Whether `rows` are the heading rows made of `cells`, row by row.
pub open spec fn are_heading_rows(rows: Seq<Thr<'_>>, cells: Seq<Vec<Element>>) -> bool {
    &&& rows.len() == cells.len()
    &&& forall|i: int| 0 <= i < cells.len() ==> is_heading_row(#[trigger] rows[i], cells[i]@)
}

/// A data row from its cells.
fn data_row<'a>(cells: Vec<Element>) -> (row: Tr<'a>)
    ensures
        is_data_row(row, cells@),
{
    let mut tds: Vec<Td<'a>> = Vec::new();
    for data in it: cells.into_iter()
        invariant
            it.seq() == cells@,
            tds@.len() == it.index(),
            forall|i: int|
                0 <= i < it.index() ==> is_only_child((#[trigger] tds@[i]).children@, cells@[i])
                    && tds@[i].styles.values@.len() == 0,
    {
        let mut only: Vec<Element> = Vec::new();
        only.push(data);
        tds.push(Td::style_less(only));
    }
    Tr::style_less(tds)
}

/// A heading row from its cells.
fn heading_row<'a>(cells: Vec<Element>) -> (row: Thr<'a>)
    ensures
        is_heading_row(row, cells@),
{
    let mut ths: Vec<Th<'a>> = Vec::new();
    for data in it: cells.into_iter()
        invariant
            it.seq() == cells@,
            ths@.len() == it.index(),
            forall|i: int|
                0 <= i < it.index() ==> is_only_child((#[trigger] ths@[i]).children@, cells@[i])
                    && ths@[i].styles.values@.len() == 0,
    {
        let mut only: Vec<Element> = Vec::new();
        only.push(data);
        ths.push(Th::style_less(only));
    }
    Thr::style_less(ths)
}

/// Data rows from rows of cells.
fn data_rows<'a>(rows: Vec<Vec<Element>>) -> (trs: Vec<Tr<'a>>)
    ensures
        are_data_rows(trs@, rows@),
{
    let mut trs: Vec<Tr<'a>> = Vec::new();
    for cells in it: rows.into_iter()
        invariant
            it.seq() == rows@,
            trs@.len() == it.index(),
            forall|i: int| 0 <= i < it.index() ==> is_data_row(#[trigger] trs@[i], rows@[i]@),
    {
        trs.push(data_row(cells));
    }
    trs
}

/// Heading rows from rows of cells.
fn heading_rows<'a>(rows: Vec<Vec<Element>>) -> (trs: Vec<Thr<'a>>)
    ensures
        are_heading_rows(trs@, rows@),
{
    let mut trs: Vec<Thr<'a>> = Vec::new();
    for cells in it: rows.into_iter()
        invariant
            it.seq() == rows@,
            trs@.len() == it.index(),
            forall|i: int| 0 <= i < it.index() ==> is_heading_row(#[trigger] trs@[i], rows@[i]@),
    {
        trs.push(heading_row(cells));
    }
    trs
}

} // verus!
