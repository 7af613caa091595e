use htmldsl::attr_traits::{render_attribute, render_attributes, resolve_attribute, Attribute};
use htmldsl::attributes::{
    Action, Charset, Formmethod, Href, InputType, Lang, Name, Src, StyleAttr, Value,
};
use htmldsl::style_traits::Style;
use htmldsl::styles::{Color, Margin};
use htmldsl::units::{
    CharsetValue, FormmethodValue, InputTypeValue, LanguageSubTag, LanguageTag, NumberOrAuto,
    SourceValue, ValueString,
};

fn pair(key: &str, value: &str) -> (String, String) {
    (key.to_string(), value.to_string())
}

#[test]
fn render_attributes_of_an_empty_list() {
    assert_eq!(render_attributes(&Vec::new()), "");
}

#[test]
fn render_attributes_puts_one_space_before_each() {
    let list = vec![pair("href", "/x"), pair("title", "t")];
    assert_eq!(render_attributes(&list), " href=\"/x\" title=\"t\"");
    let one = vec![pair("id", "a")];
    assert_eq!(render_attributes(&one), " id=\"a\"");
}

#[test]
fn render_attributes_keeps_duplicates_and_order() {
    let list = vec![pair("b", "2"), pair("a", "1"), pair("b", "3")];
    assert_eq!(render_attributes(&list), " b=\"2\" a=\"1\" b=\"3\"");
}

#[test]
fn render_attribute_quotes_the_value() {
    assert_eq!(render_attribute(&pair("href", "/x")), "href=\"/x\"");
    assert_eq!(render_attribute(&pair("alt", "")), "alt=\"\"");
    assert_eq!(render_attribute(&pair("t", "a\"b")), "t=\"a\"b\"");
}

#[test]
fn resolve_attribute_reads_key_and_value() {
    let lang = Lang { tag: LanguageTag::En, sub_tag: LanguageSubTag::Us };
    assert_eq!(resolve_attribute(&lang), pair("lanq", "en-US"));
    let href = Href { value: SourceValue::new("/x".to_string()) };
    assert_eq!(resolve_attribute(&href), pair("href", "/x"));
}

#[test]
fn lang_attribute() {
    let lang = Lang { tag: LanguageTag::En, sub_tag: LanguageSubTag::Us };
    assert_eq!(lang.attr_key(), "lanq");
    assert_eq!(lang.attr_value(), "en-US");
}

#[test]
fn charset_attribute() {
    let charset = Charset { value: CharsetValue::Utf8 };
    assert_eq!(charset.attr_key(), "charset");
    assert_eq!(charset.attr_value(), "utf-8");
}

#[test]
fn address_attributes() {
    let src = Src { value: SourceValue::new("a.png".to_string()) };
    assert_eq!(src.attr_key(), "src");
    assert_eq!(src.attr_value(), "a.png");
    let href = Href { value: SourceValue::new("/x?y=1".to_string()) };
    assert_eq!(href.attr_key(), "href");
    assert_eq!(href.attr_value(), "/x?y=1");
    let action = Action { value: SourceValue::new("/send".to_string()) };
    assert_eq!(action.attr_key(), "action");
    assert_eq!(action.attr_value(), "/send");
}

#[test]
fn form_attributes() {
    let input_type = InputType { inner: InputTypeValue::Submit };
    assert_eq!(input_type.attr_key(), "type");
    assert_eq!(input_type.attr_value(), "submit");
    let value = Value { inner: ValueString::new("v 1".to_string()) };
    assert_eq!(value.attr_key(), "value");
    assert_eq!(value.attr_value(), "v 1");
    let method = Formmethod { inner: FormmethodValue::Post };
    assert_eq!(method.attr_key(), "method");
    assert_eq!(method.attr_value(), "post");
    assert_eq!(Formmethod { inner: FormmethodValue::Get }.attr_value(), "get");
    assert_eq!(Formmethod { inner: FormmethodValue::Dialog }.attr_value(), "dialog");
    let name = Name { inner: ValueString::new("n".to_string()) };
    assert_eq!(name.attr_key(), "name");
    assert_eq!(name.attr_value(), "n");
}

#[test]
fn empty_style_attribute() {
    let style = StyleAttr::empty();
    assert_eq!(style.values.len(), 0);
    assert_eq!(style.attr_key(), "style");
    assert_eq!(style.attr_value(), "");
}

#[test]
fn style_attribute_joins_its_declarations() {
    let color = Color { color_value: "red".to_string() };
    let margin = Margin::AllFour(NumberOrAuto::Auto);
    let list: Vec<&dyn Style> = vec![&color, &margin];
    let style = StyleAttr::new(list);
    assert_eq!(style.values.len(), 2);
    assert_eq!(style.attr_key(), "style");
    assert_eq!(style.attr_value(), "margin: auto; color: red; ");
}
