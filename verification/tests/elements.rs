use htmldsl::attributes::{
    Action, Charset, Formmethod, Href, InputType, Lang, Name, Src, StyleAttr, Value,
};
use htmldsl::element_traits::{
    tag, text, AsTagRenderable, ChildContent, Element, Renderable, TagRenderableAttrs,
    TagRenderableChildren, TagRenderableIntoElement, TagRenderableName, TagRenderableStyleSetter,
};
use htmldsl::elements::{
    full_attrs, Body, Button, Code, Div, Form, Head, Html, Img, Input, Meta, Pre, Span, Style,
    Table, Tbody, Td, Th, Thead, Thr, Tr, A, H1, H2, H3, H4, P,
};
use htmldsl::render_simple_html_page;
use htmldsl::style_sheet::{StyleAssignment, StyleSheet};
use htmldsl::style_traits::Style as Declaration;
use htmldsl::styles::{Color, Display, MaxWidth};
use htmldsl::units::{
    CharsetValue, FormmethodValue, InputTypeValue, LanguageSubTag, LanguageTag, SourceValue,
    ValueString,
};

fn say(value: &str) -> Element {
    text(value.to_string())
}

fn pair(key: &str, value: &str) -> (String, String) {
    (key.to_string(), value.to_string())
}

fn english() -> Lang {
    Lang { tag: LanguageTag::En, sub_tag: LanguageSubTag::Us }
}

fn red() -> Color {
    Color { color_value: "red".to_string() }
}

#[test]
fn text_element_becomes_a_text_leaf() {
    let element = say("hi");
    assert!(matches!(&element, Element::Text(value) if value == "hi"));
    let node = element.into_renderable();
    assert!(matches!(&node, Renderable::Text(value) if value == "hi"));
    assert_eq!(node.render(), "hi");
}

#[test]
fn tag_element_becomes_a_tag_node() {
    let element = tag(Box::new(Div::style_less(vec![say("x")])));
    assert!(matches!(&element, Element::Tag(_)));
    let node = element.into_renderable();
    assert!(matches!(&node, Renderable::Tag { name, .. } if name == "div"));
    assert_eq!(node.render(), "<div>x</div>");
}

#[test]
fn into_element_keeps_the_tag() {
    let element = Span::style_less(vec![say("x")]).into_element();
    assert_eq!(element.into_renderable().render(), "<span>x</span>");
}

#[test]
fn as_tag_renderable_reads_the_whole_tag() {
    let link = A::style_less(Href { value: SourceValue::new("/x".to_string()) }, vec![say("go")]);
    let node = link.as_tag_renderable();
    match &node {
        Renderable::Tag { name, attributes, content } => {
            assert_eq!(name, "a");
            assert_eq!(attributes, &vec![pair("href", "/x")]);
            match content {
                ChildContent::Children(children) => {
                    assert_eq!(children.len(), 1);
                    assert!(matches!(&children[0], Renderable::Text(value) if value == "go"));
                }
                ChildContent::Raw(_) => panic!("a link has children"),
            }
        }
        Renderable::Text(_) => panic!("a link is a tag"),
    }
}

#[test]
fn from_tag_reads_name_attributes_and_content() {
    let meta = Meta::style_less(Some(Charset { value: CharsetValue::Utf8 }));
    let node = Renderable::from_tag(&meta);
    match &node {
        Renderable::Tag { name, attributes, content } => {
            assert_eq!(name, "meta");
            assert_eq!(attributes, &vec![pair("charset", "utf-8")]);
            assert!(matches!(content, ChildContent::Children(children) if children.is_empty()));
        }
        Renderable::Text(_) => panic!("a meta element is a tag"),
    }
}

#[test]
fn full_attrs_leaves_out_an_empty_style() {
    let style = StyleAttr::empty();
    assert_eq!(full_attrs(Vec::new(), &style), Vec::<(String, String)>::new());
    assert_eq!(
        full_attrs(vec![pair("href", "/x")], &style),
        vec![pair("href", "/x")]
    );
}

#[test]
fn full_attrs_appends_a_style_with_declarations() {
    let color = red();
    let style = StyleAttr::new(vec![&color]);
    assert_eq!(
        full_attrs(vec![pair("href", "/x")], &style),
        vec![pair("href", "/x"), pair("style", "color: red; ")]
    );
    assert_eq!(full_attrs(Vec::new(), &style), vec![pair("style", "color: red; ")]);
}

#[test]
fn element_without_declarations_has_no_style_attribute() {
    let div = Div::style_less(vec![say("x")]);
    assert_eq!(div.get_attributes(), Vec::<(String, String)>::new());
    assert_eq!(Renderable::from_tag(&div).render(), "<div>x</div>");
}

#[test]
fn add_style_gives_a_style_attribute() {
    let color = red();
    let div = Div::style_less(vec![say("x")]).add_style(vec![&color]);
    assert_eq!(div.get_attributes(), vec![pair("style", "color: red; ")]);
    assert_eq!(
        Renderable::from_tag(&div).render(),
        "<div style=\"color: red; \">x</div>"
    );
}

#[test]
fn add_style_appends_to_earlier_declarations() {
    let color = red();
    let width = MaxWidth { value: 10 };
    let display = Display::Grid;
    let first: Vec<&dyn Declaration> = vec![&color];
    let more: Vec<&dyn Declaration> = vec![&width, &display];
    let paragraph = P::style_less(vec![say("x")]).add_style(first).add_style(more);
    assert_eq!(paragraph.styles.values.len(), 3);
    assert_eq!(paragraph.children.len(), 1);
    assert_eq!(
        Renderable::from_tag(&paragraph).render(),
        "<p style=\"display: grid; max-width: 10px; color: red; \">x</p>"
    );
}

#[test]
fn add_style_with_nothing_changes_nothing() {
    let div = Div::style_less(vec![say("x")]).add_style(Vec::new());
    assert_eq!(div.styles.values.len(), 0);
    assert_eq!(Renderable::from_tag(&div).render(), "<div>x</div>");
}

#[test]
fn names_of_the_elements() {
    assert_eq!(Html::style_less(None, None, english()).get_name(), "html");
    assert_eq!(Head::new(vec![], vec![]).get_name(), "head");
    assert_eq!(Meta::style_less(None).get_name(), "meta");
    assert_eq!(Style { style_sheet: StyleSheet { assignments: vec![] } }.get_name(), "style");
    assert_eq!(Body::style_less(vec![]).get_name(), "body");
    assert_eq!(Div::style_less(vec![]).get_name(), "div");
    assert_eq!(Span::style_less(vec![]).get_name(), "span");
    assert_eq!(H1::style_less(vec![]).get_name(), "h1");
    assert_eq!(H2::style_less(vec![]).get_name(), "h2");
    assert_eq!(H3::style_less(vec![]).get_name(), "h3");
    assert_eq!(H4::style_less(vec![]).get_name(), "h4");
    assert_eq!(P::style_less(vec![]).get_name(), "p");
    assert_eq!(Table::style_less(None, Tbody::style_less(vec![])).get_name(), "table");
    assert_eq!(Thead::style_less(vec![]).get_name(), "thead");
    assert_eq!(Thr::style_less(vec![]).get_name(), "tr");
    assert_eq!(Th::style_less(vec![]).get_name(), "th");
    assert_eq!(Tbody::style_less(vec![]).get_name(), "tbody");
    assert_eq!(Tr::style_less(vec![]).get_name(), "tr");
    assert_eq!(Td::style_less(vec![]).get_name(), "td");
    assert_eq!(Code::style_less(vec![]).get_name(), "code");
    assert_eq!(Pre::style_less(vec![]).get_name(), "pre");
    assert_eq!(Img::style_less_with_src("a".to_string()).get_name(), "img");
    assert_eq!(
        A::style_less(Href { value: SourceValue::new("/".to_string()) }, vec![]).get_name(),
        "a"
    );
    assert_eq!(Button::style_less(say("ok")).get_name(), "button");
    assert_eq!(field("n", "v", false).get_name(), "input");
    assert_eq!(
        Form::style_less(
            Formmethod { inner: FormmethodValue::Get },
            None,
            vec![],
            Button::style_less(say("ok"))
        )
        .get_name(),
        "form"
    );
}

#[test]
fn containers_render_their_children_in_order() {
    let children = || vec![say("a"), Span::style_less(vec![say("b")]).into_element(), say("c")];
    assert_eq!(
        Renderable::from_tag(&Body::style_less(children())).render(),
        "<body>a<span>b</span>c</body>"
    );
    assert_eq!(
        Renderable::from_tag(&Div::style_less(children())).render(),
        "<div>a<span>b</span>c</div>"
    );
    assert_eq!(
        Renderable::from_tag(&Span::style_less(children())).render(),
        "<span>a<span>b</span>c</span>"
    );
    assert_eq!(
        Renderable::from_tag(&H1::style_less(children())).render(),
        "<h1>a<span>b</span>c</h1>"
    );
    assert_eq!(
        Renderable::from_tag(&H2::style_less(children())).render(),
        "<h2>a<span>b</span>c</h2>"
    );
    assert_eq!(
        Renderable::from_tag(&H3::style_less(children())).render(),
        "<h3>a<span>b</span>c</h3>"
    );
    assert_eq!(
        Renderable::from_tag(&H4::style_less(children())).render(),
        "<h4>a<span>b</span>c</h4>"
    );
    assert_eq!(
        Renderable::from_tag(&P::style_less(children())).render(),
        "<p>a<span>b</span>c</p>"
    );
    assert_eq!(
        Renderable::from_tag(&Code::style_less(children())).render(),
        "<code>a<span>b</span>c</code>"
    );
    assert_eq!(
        Renderable::from_tag(&Pre::style_less(children())).render(),
        "<pre>a<span>b</span>c</pre>"
    );
    assert_eq!(
        Renderable::from_tag(&Th::style_less(children())).render(),
        "<th>a<span>b</span>c</th>"
    );
    assert_eq!(
        Renderable::from_tag(&Td::style_less(children())).render(),
        "<td>a<span>b</span>c</td>"
    );
}

#[test]
fn html_has_its_language_and_its_parts() {
    let html = Html::style_less(
        Some(Head::new(vec![], vec![])),
        Some(Body::style_less(vec![say("x")])),
        english(),
    );
    assert_eq!(html.get_attributes(), vec![pair("lanq", "en-US")]);
    assert_eq!(
        Renderable::from_tag(&html).render(),
        "<html lanq=\"en-US\"><head></head><body>x</body></html>"
    );
    let bare = Html::style_less(None, None, english());
    assert_eq!(Renderable::from_tag(&bare).render(), "<html lanq=\"en-US\"></html>");
    let only_body = Html::style_less(None, Some(Body::style_less(vec![])), english());
    assert_eq!(
        Renderable::from_tag(&only_body).render(),
        "<html lanq=\"en-US\"><body></body></html>"
    );
}

#[test]
fn html_style_comes_after_its_language() {
    let color = red();
    let html = Html::style_less(None, None, english()).add_style(vec![&color]);
    assert_eq!(
        html.get_attributes(),
        vec![pair("lanq", "en-US"), pair("style", "color: red; ")]
    );
}

#[test]
fn head_lists_metadata_before_style_sheets() {
    let color = red();
    let sheet = StyleSheet {
        assignments: vec![StyleAssignment { names: vec!["body".to_string()], styles: vec![&color] }],
    };
    let head = Head::new(
        vec![Meta::style_less(Some(Charset { value: CharsetValue::Utf8 })), Meta::style_less(None)],
        vec![Style { style_sheet: sheet }],
    );
    assert_eq!(head.get_attributes(), Vec::<(String, String)>::new());
    assert_eq!(
        Renderable::from_tag(&head).render(),
        "<head><meta charset=\"utf-8\"></meta><meta></meta><style> body { color: red;  }</style></head>"
    );
    assert_eq!(
        Renderable::from_tag(&head).render_pretty(),
        "\n<head>\n\t<meta charset=\"utf-8\"></meta>\n\t<meta></meta>\n\t<style> body { color: red;  }</style>\n</head>"
    );
}

#[test]
fn meta_attributes() {
    let color = red();
    let meta = Meta::style_less(Some(Charset { value: CharsetValue::Utf8 })).add_style(vec![&color]);
    assert_eq!(
        meta.get_attributes(),
        vec![pair("charset", "utf-8"), pair("style", "color: red; ")]
    );
    assert_eq!(Meta::style_less(None).get_attributes(), Vec::<(String, String)>::new());
    assert!(matches!(
        Meta::style_less(None).get_children(),
        ChildContent::Children(children) if children.is_empty()
    ));
}

#[test]
fn style_element_has_a_raw_body() {
    let color = red();
    let sheet = StyleSheet {
        assignments: vec![StyleAssignment { names: vec!["p".to_string()], styles: vec![&color] }],
    };
    let style = Style { style_sheet: sheet };
    assert_eq!(style.get_attributes(), Vec::<(String, String)>::new());
    assert!(matches!(
        style.get_children(),
        ChildContent::Raw(raw) if raw == " p { color: red;  }"
    ));
    assert_eq!(
        Renderable::from_tag(&style).render(),
        "<style> p { color: red;  }</style>"
    );
    assert_eq!(
        Renderable::from_tag(&style).render_pretty(),
        "\n<style> p { color: red;  }</style>"
    );
}

#[test]
fn table_from_parts() {
    let head = Thead::style_less(vec![Thr::style_less(vec![Th::style_less(vec![say("h")])])]);
    let body = Tbody::style_less(vec![Tr::style_less(vec![Td::style_less(vec![say("d")])])]);
    let table = Table::style_less(Some(head), body);
    assert_eq!(
        Renderable::from_tag(&table).render(),
        "<table><thead><tr><th>h</th></tr></thead><tbody><tr><td>d</td></tr></tbody></table>"
    );
    let headless = Table::style_less(None, Tbody::style_less(vec![]));
    assert_eq!(
        Renderable::from_tag(&headless).render(),
        "<table><tbody></tbody></table>"
    );
}

#[test]
fn table_from_rows_of_cells() {
    let table = Table::style_less_from_vecs(
        Some(vec![vec![say("h1"), say("h2")]]),
        vec![vec![say("a"), say("b")], vec![say("c"), say("d")]],
    );
    assert_eq!(table.styles.values.len(), 0);
    assert_eq!(table.tbody.trs.len(), 2);
    assert_eq!(table.tbody.trs[0].tds.len(), 2);
    assert_eq!(table.tbody.trs[1].tds[1].children.len(), 1);
    assert_eq!(table.thead.as_ref().map(|head| head.trs.len()), Some(1));
    assert_eq!(
        Renderable::from_tag(&table).render(),
        "<table><thead><tr><th>h1</th><th>h2</th></tr></thead><tbody><tr><td>a</td><td>b</td></tr><tr><td>c</td><td>d</td></tr></tbody></table>"
    );
    assert_eq!(
        Renderable::from_tag(&table).render_pretty(),
        "\n<table>\n\t<thead>\n\t\t<tr>\n\t\t\t<th>h1</th>\n\t\t\t<th>h2</th>\n\t\t</tr>\n\t</thead>\n\t<tbody>\n\t\t<tr>\n\t\t\t<td>a</td>\n\t\t\t<td>b</td>\n\t\t</tr>\n\t\t<tr>\n\t\t\t<td>c</td>\n\t\t\t<td>d</td>\n\t\t</tr>\n\t</tbody>\n</table>"
    );
}

#[test]
fn table_from_rows_without_a_head() {
    let table = Table::style_less_from_vecs(None, vec![vec![say("a")], vec![]]);
    assert!(table.thead.is_none());
    assert_eq!(
        Renderable::from_tag(&table).render(),
        "<table><tbody><tr><td>a</td></tr><tr></tr></tbody></table>"
    );
    let empty = Table::style_less_from_vecs(Some(vec![]), vec![]);
    assert_eq!(
        Renderable::from_tag(&empty).render(),
        "<table><thead></thead><tbody></tbody></table>"
    );
}

#[test]
fn table_cells_may_hold_tags() {
    let table = Table::style_less_from_vecs(
        None,
        vec![vec![Span::style_less(vec![say("x")]).into_element()]],
    );
    assert_eq!(
        Renderable::from_tag(&table).render(),
        "<table><tbody><tr><td><span>x</span></td></tr></tbody></table>"
    );
}

#[test]
fn image_has_its_source() {
    let img = Img::style_less_with_src("a.png".to_string());
    assert_eq!(img.get_attributes(), vec![pair("src", "a.png")]);
    assert_eq!(Renderable::from_tag(&img).render(), "<img src=\"a.png\"></img>");
    let same = Img::style_less(Src { value: SourceValue::new("a.png".to_string()) });
    assert_eq!(Renderable::from_tag(&same).render(), "<img src=\"a.png\"></img>");
    let color = red();
    let styled = Img::style_less_with_src("a.png".to_string()).add_style(vec![&color]);
    assert_eq!(
        Renderable::from_tag(&styled).render(),
        "<img src=\"a.png\" style=\"color: red; \"></img>"
    );
}

#[test]
fn link_has_its_address_and_children() {
    let link = A::style_less(Href { value: SourceValue::new("/x".to_string()) }, vec![say("go")]);
    assert_eq!(Renderable::from_tag(&link).render(), "<a href=\"/x\">go</a>");
    assert_eq!(Renderable::from_tag(&link).render_pretty(), "\n<a href=\"/x\">go</a>");
}

fn field(name: &str, value: &str, with_type: bool) -> Input<'static> {
    Input::style_less(
        if with_type { Some(InputType { inner: InputTypeValue::Submit }) } else { None },
        Name { inner: ValueString::new(name.to_string()) },
        Value { inner: ValueString::new(value.to_string()) },
    )
}

#[test]
fn input_lists_name_value_then_type() {
    assert_eq!(
        field("n", "v", true).get_attributes(),
        vec![pair("name", "n"), pair("value", "v"), pair("type", "submit")]
    );
    assert_eq!(
        Renderable::from_tag(&field("n", "v", false)).render(),
        "<input name=\"n\" value=\"v\"></input>"
    );
    let color = red();
    let styled = field("n", "v", true).add_style(vec![&color]);
    assert_eq!(
        Renderable::from_tag(&styled).render(),
        "<input name=\"n\" value=\"v\" type=\"submit\" style=\"color: red; \"></input>"
    );
}

#[test]
fn button_has_one_child() {
    let button = Button::style_less(say("Go"));
    assert_eq!(Renderable::from_tag(&button).render(), "<button>Go</button>");
    assert_eq!(Renderable::from_tag(&button).render_pretty(), "\n<button>Go</button>");
    let nested = Button::style_less(Span::style_less(vec![say("x")]).into_element());
    assert_eq!(
        Renderable::from_tag(&nested).render_pretty(),
        "\n<button>\n\t<span>x</span>\n</button>"
    );
}

#[test]
fn form_lists_inputs_before_its_button() {
    let form = Form::style_less(
        Formmethod { inner: FormmethodValue::Post },
        Some(Action { value: SourceValue::new("/send".to_string()) }),
        vec![field("a", "1", false), field("b", "2", true)],
        Button::style_less(say("Go")),
    );
    assert_eq!(
        form.get_attributes(),
        vec![pair("method", "post"), pair("action", "/send")]
    );
    assert_eq!(
        Renderable::from_tag(&form).render(),
        "<form method=\"post\" action=\"/send\"><input name=\"a\" value=\"1\"></input><input name=\"b\" value=\"2\" type=\"submit\"></input><button>Go</button></form>"
    );
    let plain = Form::style_less(
        Formmethod { inner: FormmethodValue::Get },
        None,
        vec![],
        Button::style_less(say("Go")),
    );
    assert_eq!(
        Renderable::from_tag(&plain).render(),
        "<form method=\"get\"><button>Go</button></form>"
    );
    assert_eq!(
        Renderable::from_tag(&plain).render_pretty(),
        "\n<form method=\"get\">\n\t<button>Go</button>\n</form>"
    );
}

fn page() -> Html<'static> {
    Html::style_less(
        Some(Head::new(
            vec![Meta::style_less(Some(Charset { value: CharsetValue::Utf8 }))],
            vec![],
        )),
        Some(Body::style_less(vec![
            H1::style_less(vec![say("Title")]).into_element(),
            P::style_less(vec![say("one "), Code::style_less(vec![say("two")]).into_element()])
                .into_element(),
        ])),
        english(),
    )
}

#[test]
fn page_compact() {
    assert_eq!(
        render_simple_html_page(false, page()),
        "<!DOCTYPE html><html lanq=\"en-US\"><head><meta charset=\"utf-8\"></meta></head><body><h1>Title</h1><p>one <code>two</code></p></body></html>"
    );
}

#[test]
fn page_pretty() {
    assert_eq!(
        render_simple_html_page(true, page()),
        "<!DOCTYPE html>\n<html lanq=\"en-US\">\n\t<head>\n\t\t<meta charset=\"utf-8\"></meta>\n\t</head>\n\t<body>\n\t\t<h1>Title</h1>\n\t\t<p>one \n\t\t\t<code>two</code>\n\t\t</p>\n\t</body>\n</html>"
    );
}

#[test]
fn page_starts_with_the_preamble() {
    let bare = || Html::style_less(None, None, english());
    assert_eq!(
        render_simple_html_page(false, bare()),
        "<!DOCTYPE html><html lanq=\"en-US\"></html>"
    );
    assert_eq!(
        render_simple_html_page(true, bare()),
        "<!DOCTYPE html>\n<html lanq=\"en-US\"></html>"
    );
}

#[test]
fn page_renders_the_same_every_time() {
    assert_eq!(render_simple_html_page(false, page()), render_simple_html_page(false, page()));
    assert_eq!(render_simple_html_page(true, page()), render_simple_html_page(true, page()));
    let html = page();
    let node = Renderable::from_tag(&html);
    let again = Renderable::from_tag(&html);
    assert_eq!(node.render(), again.render());
    assert_eq!(node.render_pretty(), again.render_pretty());
}
