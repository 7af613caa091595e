//! The attributes that the elements of this crate carry.

use crate::attr_traits::Attribute;
use crate::style_traits::{declarations, render_styles, rendered_styles, Style};
use crate::units;
use vstd::prelude::*;

verus! {

/// The inline style of an element: a list of declarations that becomes the
/// value of one `style` attribute.
pub struct StyleAttr<'a> {
    pub values: Vec<&'a dyn Style>,
}

impl<'a> StyleAttr<'a> {
    /// A style with no declaration.
    pub fn empty() -> (style: Self)
        ensures
            style.values@.len() == 0,
    {
        StyleAttr { values: Vec::new() }
    }

    /// A style with the given declarations.
    pub fn new(styles: Vec<&'a dyn Style>) -> (style: Self)
        ensures
            style.values == styles,
    {
        StyleAttr { values: styles }
    }
}

impl<'a> Attribute for StyleAttr<'a> {
    open spec fn spec_attr_key(&self) -> Seq<char> {
        "style"@
    }

    open spec fn spec_attr_value(&self) -> Seq<char> {
        rendered_styles(declarations(self.values@))
    }

    fn attr_key(&self) -> (key: String) {
        String::from_str("style")
    }

    fn attr_value(&self) -> (value: String) {
        render_styles(&self.values)
    }
}

/// The language of a document: a language tag and a region sub-tag, joined
/// by a hyphen under the key `lanq`.
pub struct Lang {
    pub tag: units::LanguageTag,
    pub sub_tag: units::LanguageSubTag,
}

impl Attribute for Lang {
    open spec fn spec_attr_key(&self) -> Seq<char> {
        "lanq"@
    }

    open spec fn spec_attr_value(&self) -> Seq<char> {
        self.tag.spec_lang_tag_str() + "-"@ + self.sub_tag.spec_sub_tag_str()
    }

    fn attr_key(&self) -> (key: String) {
        String::from_str("lanq")
    }

    fn attr_value(&self) -> (value: String) {
        let mut value = self.tag.lang_tag_str();
        let sub_tag = self.sub_tag.sub_tag_str();
        value.append("-");
        value.append(sub_tag.as_str());
        value
    }
}

pub struct Charset {
    pub value: units::CharsetValue,
}

impl Attribute for Charset {
    open spec fn spec_attr_key(&self) -> Seq<char> {
        "charset"@
    }

    open spec fn spec_attr_value(&self) -> Seq<char> {
        self.value.spec_char_set_str()
    }

    fn attr_key(&self) -> (key: String) {
        String::from_str("charset")
    }

    fn attr_value(&self) -> (value: String) {
        self.value.char_set_str()
    }
}

pub struct Src {
    pub value: units::SourceValue,
}

impl Attribute for Src {
    open spec fn spec_attr_key(&self) -> Seq<char> {
        "src"@
    }

    open spec fn spec_attr_value(&self) -> Seq<char> {
        self.value@
    }

    fn attr_key(&self) -> (key: String) {
        String::from_str("src")
    }

    fn attr_value(&self) -> (value: String) {
        self.value.source_value_str()
    }
}

pub struct Href {
    pub value: units::SourceValue,
}

impl Attribute for Href {
    open spec fn spec_attr_key(&self) -> Seq<char> {
        "href"@
    }

    open spec fn spec_attr_value(&self) -> Seq<char> {
        self.value@
    }

    fn attr_key(&self) -> (key: String) {
        String::from_str("href")
    }

    fn attr_value(&self) -> (value: String) {
        self.value.source_value_str()
    }
}

pub struct Action {
    pub value: units::SourceValue,
}

impl Attribute for Action {
    open spec fn spec_attr_key(&self) -> Seq<char> {
        "action"@
    }

    open spec fn spec_attr_value(&self) -> Seq<char> {
        self.value@
    }

    fn attr_key(&self) -> (key: String) {
        String::from_str("action")
    }

    fn attr_value(&self) -> (value: String) {
        self.value.source_value_str()
    }
}

pub struct InputType {
    pub inner: units::InputTypeValue,
}

impl Attribute for InputType {
    open spec fn spec_attr_key(&self) -> Seq<char> {
        "type"@
    }

    open spec fn spec_attr_value(&self) -> Seq<char> {
        self.inner.spec_value_string()
    }

    fn attr_key(&self) -> (key: String) {
        String::from_str("type")
    }

    fn attr_value(&self) -> (value: String) {
        self.inner.value_string()
    }
}

pub struct Value {
    pub inner: units::ValueString,
}

impl Attribute for Value {
    open spec fn spec_attr_key(&self) -> Seq<char> {
        "value"@
    }

    open spec fn spec_attr_value(&self) -> Seq<char> {
        self.inner@
    }

    fn attr_key(&self) -> (key: String) {
        String::from_str("value")
    }

    fn attr_value(&self) -> (value: String) {
        self.inner.value_string()
    }
}

pub struct Formmethod {
    pub inner: units::FormmethodValue,
}

impl Attribute for Formmethod {
    open spec fn spec_attr_key(&self) -> Seq<char> {
        "method"@
    }

    open spec fn spec_attr_value(&self) -> Seq<char> {
        self.inner.spec_value_string()
    }

    fn attr_key(&self) -> (key: String) {
        String::from_str("method")
    }

    fn attr_value(&self) -> (value: String) {
        self.inner.value_string()
    }
}

pub struct Name {
    pub inner: units::ValueString,
}

impl Attribute for Name {
    open spec fn spec_attr_key(&self) -> Seq<char> {
        "name"@
    }

    open spec fn spec_attr_value(&self) -> Seq<char> {
        self.inner@
    }

    fn attr_key(&self) -> (key: String) {
        String::from_str("name")
    }

    fn attr_value(&self) -> (value: String) {
        self.inner.value_string()
    }
}

} // verus!
