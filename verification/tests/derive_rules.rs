use htmldsl::derive_rules::{
    find_children_field, find_renderable_name, find_style_field, get_ast_data, get_named_fields,
    get_renderable_name_meta_items, get_string_from_lit, Attr, Data, DeriveError, DeriveInput,
    Field, Fields, Lit, Meta, NestedMeta,
};

fn word(text: &str) -> Option<String> {
    Some(text.to_string())
}

fn name_value(name: &str, value: &str) -> NestedMeta {
    NestedMeta::NameValue { name: word(name), lit: Lit::Str(value.to_string()) }
}

fn list(name: &str, items: Vec<NestedMeta>) -> Attr {
    Attr { name: word(name), meta: Meta::List(items) }
}

fn bare(name: &str) -> Attr {
    Attr { name: word(name), meta: Meta::Other }
}

fn field(ident: &str, attrs: Vec<Attr>) -> Field {
    Field { ident: word(ident), attrs }
}

fn with_fields(fields: Vec<Field>) -> DeriveInput {
    DeriveInput { attrs: Vec::new(), data: Data::Struct(Fields::Named(fields)) }
}

fn with_attrs(attrs: Vec<Attr>) -> DeriveInput {
    DeriveInput { attrs, data: Data::Struct(Fields::Named(Vec::new())) }
}

fn children_marker(kind: &str) -> Attr {
    list("tag_renderable_children", vec![name_value("type", kind)])
}

#[test]
fn string_literal_gives_its_text() {
    assert_eq!(get_string_from_lit(&Lit::Str("div".to_string())), Ok("div".to_string()));
    assert_eq!(get_string_from_lit(&Lit::Str(String::new())), Ok(String::new()));
    assert_eq!(get_string_from_lit(&Lit::Other), Err(DeriveError::NotAString));
}

#[test]
fn only_structs_with_named_fields_have_fields() {
    let ast = with_fields(vec![field("a", vec![])]);
    let fields = get_ast_data(&ast).ok().unwrap();
    assert_eq!(get_named_fields(fields).ok().unwrap().len(), 1);
    let not_struct = DeriveInput { attrs: vec![], data: Data::Other };
    assert_eq!(get_ast_data(&not_struct).err(), Some(DeriveError::NotAStruct));
    assert_eq!(get_named_fields(&Fields::Other).err(), Some(DeriveError::NotNamedFields));
}

#[test]
fn children_field_is_the_marked_one() {
    let ast = with_fields(vec![
        field("styles", vec![]),
        field("children", vec![children_marker("element")]),
    ]);
    assert_eq!(find_children_field(&ast), Ok("children".to_string()));
}

#[test]
fn children_field_reads_the_first_attribute_only() {
    let ast = with_fields(vec![
        field("children", vec![children_marker("element"), bare("doc")]),
        field("styles", vec![bare("tag_renderable_style")]),
        field("more", vec![children_marker("element")]),
    ]);
    assert_eq!(find_children_field(&ast), Ok("children".to_string()));
}

#[test]
fn children_marker_must_come_first() {
    let ast = with_fields(vec![
        field("styles", vec![bare("tag_renderable_style")]),
        field("children", vec![children_marker("element")]),
    ]);
    assert_eq!(find_children_field(&ast), Err(DeriveError::UnexpectedAttribute));
}

#[test]
fn children_field_must_be_marked() {
    assert_eq!(find_children_field(&with_fields(vec![])), Err(DeriveError::NoChildrenField));
    let ast = with_fields(vec![field("a", vec![]), field("b", vec![])]);
    assert_eq!(find_children_field(&ast), Err(DeriveError::NoChildrenField));
}

#[test]
fn children_need_a_struct_with_named_fields() {
    let not_struct = DeriveInput { attrs: vec![], data: Data::Other };
    assert_eq!(find_children_field(&not_struct), Err(DeriveError::NotAStruct));
    let tuple = DeriveInput { attrs: vec![], data: Data::Struct(Fields::Other) };
    assert_eq!(find_children_field(&tuple), Err(DeriveError::NotNamedFields));
}

#[test]
fn children_marker_errors() {
    let only = |attr: Attr| with_fields(vec![field("children", vec![attr])]);
    assert_eq!(
        find_children_field(&only(Attr { name: None, meta: Meta::Other })),
        Err(DeriveError::NotAnIdentifier)
    );
    assert_eq!(
        find_children_field(&only(bare("tag_renderable_children"))),
        Err(DeriveError::NotAList)
    );
    assert_eq!(
        find_children_field(&only(list("tag_renderable_children", vec![]))),
        Err(DeriveError::NotOneArgument)
    );
    assert_eq!(
        find_children_field(&only(list(
            "tag_renderable_children",
            vec![name_value("type", "element"), name_value("type", "element")]
        ))),
        Err(DeriveError::NotOneArgument)
    );
    assert_eq!(
        find_children_field(&only(list("tag_renderable_children", vec![NestedMeta::Other]))),
        Err(DeriveError::NotNameValue)
    );
    assert_eq!(
        find_children_field(&only(list(
            "tag_renderable_children",
            vec![NestedMeta::NameValue { name: None, lit: Lit::Str("element".to_string()) }]
        ))),
        Err(DeriveError::NotAnIdentifier)
    );
    assert_eq!(
        find_children_field(&only(list(
            "tag_renderable_children",
            vec![name_value("kind", "element")]
        ))),
        Err(DeriveError::NotTypeArgument)
    );
    assert_eq!(
        find_children_field(&only(list(
            "tag_renderable_children",
            vec![NestedMeta::NameValue { name: word("type"), lit: Lit::Other }]
        ))),
        Err(DeriveError::NotAString)
    );
    assert_eq!(
        find_children_field(&only(children_marker("renderable"))),
        Err(DeriveError::UnsupportedChildren)
    );
}

#[test]
fn children_field_must_have_a_name() {
    let ast = with_fields(vec![Field { ident: None, attrs: vec![children_marker("element")] }]);
    assert_eq!(find_children_field(&ast), Err(DeriveError::UnnamedField));
    let unsupported =
        with_fields(vec![Field { ident: None, attrs: vec![children_marker("other")] }]);
    assert_eq!(find_children_field(&unsupported), Err(DeriveError::UnnamedField));
}

#[test]
fn style_field_is_the_marked_one() {
    let ast = with_fields(vec![
        field("children", vec![children_marker("element")]),
        field("styles", vec![bare("doc"), bare("tag_renderable_style")]),
        field("other", vec![bare("doc")]),
    ]);
    assert_eq!(find_style_field(&ast), Ok("styles".to_string()));
}

#[test]
fn style_field_must_be_marked_once() {
    assert_eq!(find_style_field(&with_fields(vec![])), Err(DeriveError::NoStyleField));
    let unmarked = with_fields(vec![field("a", vec![bare("doc")])]);
    assert_eq!(find_style_field(&unmarked), Err(DeriveError::NoStyleField));
    let twice = with_fields(vec![
        field("a", vec![bare("tag_renderable_style")]),
        field("b", vec![bare("tag_renderable_style")]),
    ]);
    assert_eq!(find_style_field(&twice), Err(DeriveError::SecondStyleField));
    let twice_on_one = with_fields(vec![field(
        "a",
        vec![bare("tag_renderable_style"), bare("tag_renderable_style")],
    )]);
    assert_eq!(find_style_field(&twice_on_one), Err(DeriveError::SecondStyleField));
}

#[test]
fn style_field_errors() {
    let unnamed =
        with_fields(vec![Field { ident: None, attrs: vec![bare("tag_renderable_style")] }]);
    assert_eq!(find_style_field(&unnamed), Err(DeriveError::UnnamedField));
    let odd_path = with_fields(vec![
        field("a", vec![bare("tag_renderable_style")]),
        field("b", vec![Attr { name: None, meta: Meta::Other }]),
    ]);
    assert_eq!(find_style_field(&odd_path), Err(DeriveError::NotAnIdentifier));
    let not_struct = DeriveInput { attrs: vec![], data: Data::Other };
    assert_eq!(find_style_field(&not_struct), Err(DeriveError::NotAStruct));
    let tuple = DeriveInput { attrs: vec![], data: Data::Struct(Fields::Other) };
    assert_eq!(find_style_field(&tuple), Err(DeriveError::NotNamedFields));
}

#[test]
fn first_error_of_the_style_scan_wins() {
    let ast = with_fields(vec![
        field("a", vec![Attr { name: None, meta: Meta::Other }]),
        Field { ident: None, attrs: vec![bare("tag_renderable_style")] },
    ]);
    assert_eq!(find_style_field(&ast), Err(DeriveError::NotAnIdentifier));
    let other_order = with_fields(vec![
        Field { ident: None, attrs: vec![bare("tag_renderable_style")] },
        field("a", vec![Attr { name: None, meta: Meta::Other }]),
    ]);
    assert_eq!(find_style_field(&other_order), Err(DeriveError::UnnamedField));
}

#[test]
fn name_arguments_of_an_attribute() {
    let marker = list("tag_renderable_name", vec![name_value("name", "div")]);
    assert_eq!(get_renderable_name_meta_items(&marker).ok().unwrap().map(|v| v.len()), Some(1));
    assert!(get_renderable_name_meta_items(&bare("tag_renderable_name")).ok().unwrap().is_none());
    assert!(get_renderable_name_meta_items(&list("derive", vec![NestedMeta::Other]))
        .ok()
        .unwrap()
        .is_none());
    assert_eq!(
        get_renderable_name_meta_items(&Attr { name: None, meta: Meta::Other }).err(),
        Some(DeriveError::NotAnIdentifier)
    );
}

#[test]
fn name_is_given_by_the_marker() {
    let ast = with_attrs(vec![
        bare("doc"),
        list("tag_renderable_name", vec![name_value("name", "div")]),
    ]);
    assert_eq!(find_renderable_name(&ast), Ok("div".to_string()));
}

#[test]
fn last_name_wins() {
    let ast = with_attrs(vec![
        list("tag_renderable_name", vec![name_value("name", "a"), name_value("name", "b")]),
        list("tag_renderable_name", vec![name_value("name", "c")]),
        list("tag_renderable_name", vec![]),
        bare("tag_renderable_name"),
    ]);
    assert_eq!(find_renderable_name(&ast), Ok("c".to_string()));
}

#[test]
fn name_must_be_given() {
    assert_eq!(find_renderable_name(&with_attrs(vec![])), Err(DeriveError::NoName));
    assert_eq!(
        find_renderable_name(&with_attrs(vec![bare("tag_renderable_name")])),
        Err(DeriveError::NoName)
    );
    assert_eq!(
        find_renderable_name(&with_attrs(vec![list("other", vec![name_value("name", "x")])])),
        Err(DeriveError::NoName)
    );
}

#[test]
fn name_errors() {
    assert_eq!(
        find_renderable_name(&with_attrs(vec![Attr { name: None, meta: Meta::Other }])),
        Err(DeriveError::NotAnIdentifier)
    );
    assert_eq!(
        find_renderable_name(&with_attrs(vec![list(
            "tag_renderable_name",
            vec![name_value("tag", "div")]
        )])),
        Err(DeriveError::NotNameArgument)
    );
    assert_eq!(
        find_renderable_name(&with_attrs(vec![list(
            "tag_renderable_name",
            vec![NestedMeta::Other]
        )])),
        Err(DeriveError::NotNameArgument)
    );
    assert_eq!(
        find_renderable_name(&with_attrs(vec![list(
            "tag_renderable_name",
            vec![NestedMeta::NameValue { name: None, lit: Lit::Str("div".to_string()) }]
        )])),
        Err(DeriveError::NotAnIdentifier)
    );
    assert_eq!(
        find_renderable_name(&with_attrs(vec![list(
            "tag_renderable_name",
            vec![NestedMeta::NameValue { name: word("name"), lit: Lit::Other }]
        )])),
        Err(DeriveError::NotAString)
    );
    assert_eq!(
        find_renderable_name(&with_attrs(vec![
            list("tag_renderable_name", vec![name_value("name", "div")]),
            list("tag_renderable_name", vec![name_value("tag", "div")]),
        ])),
        Err(DeriveError::NotNameArgument)
    );
}

#[test]
fn name_does_not_read_the_fields() {
    let ast = DeriveInput {
        attrs: vec![list("tag_renderable_name", vec![name_value("name", "div")])],
        data: Data::Other,
    };
    assert_eq!(find_renderable_name(&ast), Ok("div".to_string()));
}
