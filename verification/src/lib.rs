//! A typed tree of markup elements and the engine that writes it out as
//! text, compact or indented.

pub mod attr_traits;
pub mod attributes;
pub mod derive_rules;
pub mod element_traits;
pub mod elements;
pub mod markup;
pub mod style_sheet;
pub mod style_traits;
pub mod styles;
pub mod units;

pub use element_traits::{
    tag, text, AsTagRenderable, ChildContent, Element, GenericRenderable, Renderable,
    TagRenderable, TagRenderableAttrs, TagRenderableChildren, TagRenderableIntoElement,
    TagRenderableName, TagRenderableStyleSetter,
};

use element_traits::tag_node;
use markup::{compact, rendered};
use vstd::prelude::*;

verus! {

/// The text that opens every page.
pub open spec fn preamble() -> Seq<char> {
    "<!DOCTYPE html>"@
}

/// Renders a whole page: the preamble, directly followed by the root
/// element, indented where `pretty` is set and compact where it is not.
pub fn render_simple_html_page(pretty: bool, html: elements::Html) -> (page: String)
    ensures
        page@ == preamble() + rendered(
            tag_node(&html),
            if pretty {
                markup::pretty()
            } else {
                compact()
            },
        ),
{
    let root = Renderable::from_tag(&html);
    let body = match pretty {
        true => root.render_pretty(),
        false => root.render(),
    };
    let mut page = String::from_str("<!DOCTYPE html>");
    page.append(body.as_str());
    page
}

} // verus!
