//! What a derive for elements reads of a declaration, and the rules by which
//! it takes from it the name of an element, the field that holds its
//! children and the field that holds its inline style.

use vstd::prelude::*;

verus! {

/// A literal as the derives read it.
pub enum Lit {
    /// A string literal, with the text that it denotes.
    Str(String),
    /// Any other literal.
    Other,
}

/// One argument of an attribute that is written as a list.
pub enum NestedMeta {
    /// `name = literal`. The name is `None` where the left side is no single identifier.
    NameValue { name: Option<String>, lit: Lit },
    /// Any other argument.
    Other,
}

/// The arguments of an attribute.
pub enum Meta {
    /// A parenthesized list of arguments.
    List(Vec<NestedMeta>),
    /// Anything else: no arguments, `= literal`, or tokens that are no arguments at all.
    Other,
}

/// An attribute on a declaration or on one of its fields.
pub struct Attr {
    /// The name of the attribute; `None` where its path is no single identifier.
    pub name: Option<String>,
    pub meta: Meta,
}

/// A field of a struct.
pub struct Field {
    /// The name of the field; `None` in a tuple struct.
    pub ident: Option<String>,
    pub attrs: Vec<Attr>,
}

/// The fields of a struct.
pub enum Fields {
    /// Fields with names, between braces.
    Named(Vec<Field>),
    /// A tuple struct or a unit struct.
    Other,
}

/// The body of a declaration.
pub enum Data {
    Struct(Fields),
    /// An enum or a union.
    Other,
}

/// A declaration that a derive is applied to.
pub struct DeriveInput {
    pub attrs: Vec<Attr>,
    pub data: Data,
}

/// Why a declaration cannot be derived from.
#[derive(Debug, PartialEq, Eq, Clone, Copy)]
pub enum DeriveError {
    /// The declaration is no struct.
    NotAStruct,
    /// The struct has no named fields.
    NotNamedFields,
    /// The path of an attribute, or the left side of an argument, is no single identifier.
    NotAnIdentifier,
    /// The attribute has no parenthesized list of arguments.
    NotAList,
    /// The list of arguments does not hold exactly one argument.
    NotOneArgument,
    /// The argument has not the form `name = literal`.
    NotNameValue,
    /// The argument is not named `type`.
    NotTypeArgument,
    /// The literal is no string.
    NotAString,
    /// The marked field has no name.
    UnnamedField,
    /// The kind of children is not one that a derive can read.
    UnsupportedChildren,
    /// The first attribute on the fields is another one than the children marker.
    UnexpectedAttribute,
    /// No field is marked as holding the children.
    NoChildrenField,
    /// A second field is marked as holding the inline style.
    SecondStyleField,
    /// No field is marked as holding the inline style.
    NoStyleField,
    /// An argument of the name attribute is not `name = literal`.
    NotNameArgument,
    /// No name is given for the element.
    NoName,
}

/// What a derive found: the text it was looking for, or why there is none.
pub type Found = Result<Seq<char>, DeriveError>;

/// What a scan has found so far: a text, nothing yet, or the error that ended it.
pub type Scan = Result<Option<Seq<char>>, DeriveError>;

/// The result of a derive as text.
pub open spec fn found(result: Result<String, DeriveError>) -> Found {
    match result {
        Ok(text) => Ok(text@),
        Err(error) => Err(error),
    }
}

/// The state of a scan as text.
pub open spec fn scanned(result: Result<Option<String>, DeriveError>) -> Scan {
    match result {
        Ok(Some(text)) => Ok(Some(text@)),
        Ok(None) => Ok(None),
        Err(error) => Err(error),
    }
}

/// The attribute that gives an element its name.
pub open spec fn name_marker() -> Seq<char> {
    "tag_renderable_name"@
}

/// The attribute that marks the field with the children.
pub open spec fn children_marker() -> Seq<char> {
    "tag_renderable_children"@
}

/// The attribute that marks the field with the inline style.
pub open spec fn style_marker() -> Seq<char> {
    "tag_renderable_style"@
}

fn is_text(value: &String, word: &str) -> (same: bool)
    ensures
        same == (value@ == word@),
{
    let other = String::from_str(word);
    *value == other
}

/// The text of a literal: that of a string literal, and an error for any other.
pub open spec fn lit_text(lit: Lit) -> Found {
    match lit {
        Lit::Str(text) => Ok(text@),
        Lit::Other => Err(DeriveError::NotAString),
    }
}

/// Reads the text of a string literal.
pub fn get_string_from_lit(lit: &Lit) -> (result: Result<String, DeriveError>)
    ensures
        found(result) == lit_text(*lit),
{
    match lit {
        Lit::Str(text) => Ok(text.clone()),
        Lit::Other => Err(DeriveError::NotAString),
    }
}

/// The fields of a declaration, where it is a struct.
pub fn get_ast_data(ast: &DeriveInput) -> (result: Result<&Fields, DeriveError>)
    ensures
        match ast.data {
            Data::Struct(fields) => result == Ok::<&Fields, DeriveError>(&fields),
            Data::Other => result == Err::<&Fields, DeriveError>(DeriveError::NotAStruct),
        },
{
    match &ast.data {
        Data::Struct(fields) => Ok(fields),
        Data::Other => Err(DeriveError::NotAStruct),
    }
}

/// The named fields of a struct, where it has any.
pub fn get_named_fields(fields: &Fields) -> (result: Result<&Vec<Field>, DeriveError>)
    ensures
        match *fields {
            Fields::Named(named) => result == Ok::<&Vec<Field>, DeriveError>(&named),
            Fields::Other => result == Err::<&Vec<Field>, DeriveError>(
                DeriveError::NotNamedFields,
            ),
        },
{
    match fields {
        Fields::Named(named) => Ok(named),
        Fields::Other => Err(DeriveError::NotNamedFields),
    }
}

/// The named fields of a declaration: those of a struct with named fields,
/// and an error for any other declaration.
pub open spec fn named_fields(ast: DeriveInput) -> Result<Seq<Field>, DeriveError> {
    match ast.data {
        Data::Struct(Fields::Named(named)) => Ok(named@),
        Data::Struct(Fields::Other) => Err(DeriveError::NotNamedFields),
        Data::Other => Err(DeriveError::NotAStruct),
    }
}

/// What the first attribute of the fields, `attr` on `field`, says of the
/// children: it must be the children marker with the one argument
/// `type = "element"`, on a field with a name, and then gives that name.
pub open spec fn marked_children(field: Field, attr: Attr) -> Found {
    match attr.name {
        None => Err(DeriveError::NotAnIdentifier),
        Some(name) => if name@ != children_marker() {
            Err(DeriveError::UnexpectedAttribute)
        } else {
            match attr.meta {
                Meta::Other => Err(DeriveError::NotAList),
                Meta::List(items) => if items@.len() != 1 {
                    Err(DeriveError::NotOneArgument)
                } else {
                    match items@[0] {
                        NestedMeta::Other => Err(DeriveError::NotNameValue),
                        NestedMeta::NameValue { name: None, .. } => Err(
                            DeriveError::NotAnIdentifier,
                        ),
                        NestedMeta::NameValue { name: Some(key), lit } => if key@ != "type"@ {
                            Err(DeriveError::NotTypeArgument)
                        } else {
                            match (lit, field.ident) {
                                (Lit::Other, _) => Err(DeriveError::NotAString),
                                (Lit::Str(_), None) => Err(DeriveError::UnnamedField),
                                (Lit::Str(kind), Some(ident)) => if kind@ == "element"@ {
                                    Ok(ident@)
                                } else {
                                    Err(DeriveError::UnsupportedChildren)
                                },
                            }
                        },
                    }
                },
            }
        },
    }
}

/// The field that holds the children: what the first attribute on any of the
/// fields says; fields without attributes are passed over.
pub open spec fn children_field(fields: Seq<Field>) -> Found
    decreases fields.len(),
{
    if fields.len() == 0 {
        Err(DeriveError::NoChildrenField)
    } else if fields[0].attrs@.len() == 0 {
        children_field(fields.drop_first())
    } else {
        marked_children(fields[0], fields[0].attrs@[0])
    }
}

/// The field of a declaration that holds its children.
pub open spec fn children_of(ast: DeriveInput) -> Found {
    match named_fields(ast) {
        Ok(fields) => children_field(fields),
        Err(error) => Err(error),
    }
}

/// Reads what the attribute `attr` on `field` says of the children.
fn read_children_marker(field: &Field, attr: &Attr) -> (result: Result<String, DeriveError>)
    ensures
        found(result) == marked_children(*field, *attr),
{
    let name = match &attr.name {
        Some(name) => name,
        None => { return Err(DeriveError::NotAnIdentifier); },
    };
    if !is_text(name, "tag_renderable_children") {
        return Err(DeriveError::UnexpectedAttribute);
    }
    let items = match &attr.meta {
        Meta::List(items) => items,
        Meta::Other => { return Err(DeriveError::NotAList); },
    };
    if items.len() != 1 {
        return Err(DeriveError::NotOneArgument);
    }
    let (key, lit) = match &items[0] {
        NestedMeta::NameValue { name: Some(key), lit } => (key, lit),
        NestedMeta::NameValue { name: None, .. } => { return Err(DeriveError::NotAnIdentifier); },
        NestedMeta::Other => { return Err(DeriveError::NotNameValue); },
    };
    if !is_text(key, "type") {
        return Err(DeriveError::NotTypeArgument);
    }
    let kind = match get_string_from_lit(lit) {
        Ok(kind) => kind,
        Err(error) => { return Err(error); },
    };
    let ident = match &field.ident {
        Some(ident) => ident,
        None => { return Err(DeriveError::UnnamedField); },
    };
    if is_text(&kind, "element") {
        Ok(ident.clone())
    } else {
        Err(DeriveError::UnsupportedChildren)
    }
}

/// Finds the field that the children of an element are taken from.
pub fn find_children_field(ast: &DeriveInput) -> (result: Result<String, DeriveError>)
    ensures
        found(result) == children_of(*ast),
{
    let fields = match get_ast_data(ast) {
        Ok(fields) => fields,
        Err(error) => { return Err(error); },
    };
    let named = match get_named_fields(fields) {
        Ok(named) => named,
        Err(error) => { return Err(error); },
    };
    let n = named.len();
    let mut i: usize = 0;
    assert(named@.skip(0) =~= named@);
    while i < n
        invariant
            n == named@.len(),
            i <= n,
            named_fields(*ast) == Ok::<Seq<Field>, DeriveError>(named@),
            children_field(named@) == children_field(named@.skip(i as int)),
        decreases n - i,
    {
        let field = &named[i];
        proof {
            assert(named@.skip(i as int)[0] == named@[i as int]);
            assert(named@.skip(i as int).drop_first() =~= named@.skip(i + 1));
        }
        if field.attrs.len() > 0 {
            return read_children_marker(field, &field.attrs[0]);
        }
        i += 1;
    }
    Err(DeriveError::NoChildrenField)
}

/// The state of the scan for the style field after `attr` on a field named
/// `ident`: the marker names the field, a second marker is an error, and any
/// other attribute changes nothing.
pub open spec fn style_after(ident: Option<String>, attr: Attr, before: Option<Seq<char>>) -> Scan {
    match attr.name {
        None => Err(DeriveError::NotAnIdentifier),
        Some(name) => if name@ != style_marker() {
            Ok(before)
        } else {
            match (before, ident) {
                (Some(_), _) => Err(DeriveError::SecondStyleField),
                (None, None) => Err(DeriveError::UnnamedField),
                (None, Some(ident)) => Ok(Some(ident@)),
            }
        },
    }
}

/// The state of the scan after the attributes `attrs` of a field named `ident`, in their order.
pub open spec fn style_after_attrs(
    ident: Option<String>,
    attrs: Seq<Attr>,
    before: Option<Seq<char>>,
) -> Scan
    decreases attrs.len(),
{
    if attrs.len() == 0 {
        Ok(before)
    } else {
        match style_after(ident, attrs[0], before) {
            Ok(next) => style_after_attrs(ident, attrs.drop_first(), next),
            Err(error) => Err(error),
        }
    }
}

/// The state of the scan after the fields `fields`, in their order.
pub open spec fn style_after_fields(fields: Seq<Field>, before: Option<Seq<char>>) -> Scan
    decreases fields.len(),
{
    if fields.len() == 0 {
        Ok(before)
    } else {
        match style_after_attrs(fields[0].ident, fields[0].attrs@, before) {
            Ok(next) => style_after_fields(fields.drop_first(), next),
            Err(error) => Err(error),
        }
    }
}

/// What a finished scan gives: the text it found, or `missing` where it found none.
pub open spec fn conclude(scan: Scan, missing: DeriveError) -> Found {
    match scan {
        Ok(Some(text)) => Ok(text),
        Ok(None) => Err(missing),
        Err(error) => Err(error),
    }
}

/// The field of a declaration that holds its inline style: the one field
/// that carries the style marker.
pub open spec fn style_of(ast: DeriveInput) -> Found {
    match named_fields(ast) {
        Ok(fields) => conclude(style_after_fields(fields, None), DeriveError::NoStyleField),
        Err(error) => Err(error),
    }
}

/// Advances the scan for the style field over one attribute.
fn read_style_marker(ident: &Option<String>, attr: &Attr, before: Option<String>) -> (result: Result<
    Option<String>,
    DeriveError,
>)
    ensures
        scanned(result) == style_after(*ident, *attr, scanned(Ok(before))->Ok_0),
{
    let name = match &attr.name {
        Some(name) => name,
        None => { return Err(DeriveError::NotAnIdentifier); },
    };
    if !is_text(name, "tag_renderable_style") {
        return Ok(before);
    }
    match before {
        Some(_) => Err(DeriveError::SecondStyleField),
        None => match ident {
            Some(ident) => Ok(Some(ident.clone())),
            None => Err(DeriveError::UnnamedField),
        },
    }
}

/// Advances the scan for the style field over the attributes of one field.
fn read_style_markers(field: &Field, before: Option<String>) -> (result: Result<
    Option<String>,
    DeriveError,
>)
    ensures
        scanned(result) == style_after_attrs(
            field.ident,
            field.attrs@,
            scanned(Ok(before))->Ok_0,
        ),
{
    let mut state = before;
    let n = field.attrs.len();
    let mut i: usize = 0;
    assert(field.attrs@.skip(0) =~= field.attrs@);
    while i < n
        invariant
            n == field.attrs@.len(),
            i <= n,
            style_after_attrs(field.ident, field.attrs@, scanned(Ok(before))->Ok_0)
                == style_after_attrs(
                field.ident,
                field.attrs@.skip(i as int),
                scanned(Ok(state))->Ok_0,
            ),
        decreases n - i,
    {
        proof {
            assert(field.attrs@.skip(i as int)[0] == field.attrs@[i as int]);
            assert(field.attrs@.skip(i as int).drop_first() =~= field.attrs@.skip(i + 1));
        }
        match read_style_marker(&field.ident, &field.attrs[i], state) {
            Ok(next) => {
                state = next;
            },
            Err(error) => {
                return Err(error);
            },
        }
        i += 1;
    }
    Ok(state)
}

/// Finds the field that the inline style of an element is kept in.
pub fn find_style_field(ast: &DeriveInput) -> (result: Result<String, DeriveError>)
    ensures
        found(result) == style_of(*ast),
{
    let fields = match get_ast_data(ast) {
        Ok(fields) => fields,
        Err(error) => { return Err(error); },
    };
    let named = match get_named_fields(fields) {
        Ok(named) => named,
        Err(error) => { return Err(error); },
    };
    let mut state: Option<String> = None;
    let n = named.len();
    let mut i: usize = 0;
    assert(named@.skip(0) =~= named@);
    while i < n
        invariant
            n == named@.len(),
            i <= n,
            named_fields(*ast) == Ok::<Seq<Field>, DeriveError>(named@),
            style_after_fields(named@, None) == style_after_fields(
                named@.skip(i as int),
                scanned(Ok(state))->Ok_0,
            ),
        decreases n - i,
    {
        proof {
            assert(named@.skip(i as int)[0] == named@[i as int]);
            assert(named@.skip(i as int).drop_first() =~= named@.skip(i + 1));
        }
        match read_style_markers(&named[i], state) {
            Ok(next) => {
                state = next;
            },
            Err(error) => {
                return Err(error);
            },
        }
        i += 1;
    }
    match state {
        Some(ident) => Ok(ident),
        None => Err(DeriveError::NoStyleField),
    }
}

/// The arguments that the name of an element is read from: those of the
/// name marker where it has a list, and none for any other attribute.
pub open spec fn name_arguments(attr: Attr) -> Result<Seq<NestedMeta>, DeriveError> {
    match attr.name {
        None => Err(DeriveError::NotAnIdentifier),
        Some(name) => if name@ != name_marker() {
            Ok(Seq::empty())
        } else {
            match attr.meta {
                Meta::List(items) => Ok(items@),
                Meta::Other => Ok(Seq::empty()),
            }
        },
    }
}

/// Reads the arguments that give the name of an element; `None` stands for no argument.
pub fn get_renderable_name_meta_items(attr: &Attr) -> (result: Result<
    Option<&Vec<NestedMeta>>,
    DeriveError,
>)
    ensures
        match result {
            Ok(Some(items)) => name_arguments(*attr) == Ok::<Seq<NestedMeta>, DeriveError>(
                items@,
            ),
            Ok(None) => name_arguments(*attr) == Ok::<Seq<NestedMeta>, DeriveError>(Seq::empty()),
            Err(error) => name_arguments(*attr) == Err::<Seq<NestedMeta>, DeriveError>(error),
        },
{
    let name = match &attr.name {
        Some(name) => name,
        None => { return Err(DeriveError::NotAnIdentifier); },
    };
    if !is_text(name, "tag_renderable_name") {
        return Ok(None);
    }
    match &attr.meta {
        Meta::List(items) => Ok(Some(items)),
        Meta::Other => Ok(None),
    }
}

/// The name that one argument of the name marker gives: it must be
/// `name = "..."`, and gives the text of the literal.
pub open spec fn name_from(item: NestedMeta) -> Found {
    match item {
        NestedMeta::NameValue { name: None, .. } => Err(DeriveError::NotAnIdentifier),
        NestedMeta::NameValue { name: Some(key), lit } => if key@ == "name"@ {
            lit_text(lit)
        } else {
            Err(DeriveError::NotNameArgument)
        },
        NestedMeta::Other => Err(DeriveError::NotNameArgument),
    }
}

/// The state of the scan for the name after the arguments `items`, in their
/// order: each argument replaces the name that was found before it.
pub open spec fn name_after_items(items: Seq<NestedMeta>, before: Option<Seq<char>>) -> Scan
    decreases items.len(),
{
    if items.len() == 0 {
        Ok(before)
    } else {
        match name_from(items[0]) {
            Ok(name) => name_after_items(items.drop_first(), Some(name)),
            Err(error) => Err(error),
        }
    }
}

/// The state of the scan for the name after the attributes `attrs`, in their order.
pub open spec fn name_after_attrs(attrs: Seq<Attr>, before: Option<Seq<char>>) -> Scan
    decreases attrs.len(),
{
    if attrs.len() == 0 {
        Ok(before)
    } else {
        match name_arguments(attrs[0]) {
            Ok(items) => match name_after_items(items, before) {
                Ok(next) => name_after_attrs(attrs.drop_first(), next),
                Err(error) => Err(error),
            },
            Err(error) => Err(error),
        }
    }
}

/// The name of the element that a declaration stands for: the last name that
/// a name marker on the declaration gives.
pub open spec fn name_of(ast: DeriveInput) -> Found {
    conclude(name_after_attrs(ast.attrs@, None), DeriveError::NoName)
}

/// Reads the name that one argument of the name marker gives.
fn read_name_argument(item: &NestedMeta) -> (result: Result<String, DeriveError>)
    ensures
        found(result) == name_from(*item),
{
    match item {
        NestedMeta::NameValue { name: Some(key), lit } => {
            if is_text(key, "name") {
                get_string_from_lit(lit)
            } else {
                Err(DeriveError::NotNameArgument)
            }
        },
        NestedMeta::NameValue { name: None, .. } => Err(DeriveError::NotAnIdentifier),
        NestedMeta::Other => Err(DeriveError::NotNameArgument),
    }
}

/// Advances the scan for the name over the arguments of one attribute.
fn read_name_arguments(items: &Vec<NestedMeta>, before: Option<String>) -> (result: Result<
    Option<String>,
    DeriveError,
>)
    ensures
        scanned(result) == name_after_items(items@, scanned(Ok(before))->Ok_0),
{
    let mut state = before;
    let n = items.len();
    let mut i: usize = 0;
    assert(items@.skip(0) =~= items@);
    while i < n
        invariant
            n == items@.len(),
            i <= n,
            name_after_items(items@, scanned(Ok(before))->Ok_0) == name_after_items(
                items@.skip(i as int),
                scanned(Ok(state))->Ok_0,
            ),
        decreases n - i,
    {
        proof {
            assert(items@.skip(i as int)[0] == items@[i as int]);
            assert(items@.skip(i as int).drop_first() =~= items@.skip(i + 1));
        }
        match read_name_argument(&items[i]) {
            Ok(name) => {
                state = Some(name);
            },
            Err(error) => {
                return Err(error);
            },
        }
        i += 1;
    }
    Ok(state)
}

/// Finds the name of the element that a declaration stands for.
pub fn find_renderable_name(ast: &DeriveInput) -> (result: Result<String, DeriveError>)
    ensures
        found(result) == name_of(*ast),
{
    let mut state: Option<String> = None;
    let n = ast.attrs.len();
    let mut i: usize = 0;
    assert(ast.attrs@.skip(0) =~= ast.attrs@);
    while i < n
        invariant
            n == ast.attrs@.len(),
            i <= n,
            name_after_attrs(ast.attrs@, None) == name_after_attrs(
                ast.attrs@.skip(i as int),
                scanned(Ok(state))->Ok_0,
            ),
        decreases n - i,
    {
        proof {
            assert(ast.attrs@.skip(i as int)[0] == ast.attrs@[i as int]);
            assert(ast.attrs@.skip(i as int).drop_first() =~= ast.attrs@.skip(i + 1));
        }
        let items = match get_renderable_name_meta_items(&ast.attrs[i]) {
            Ok(items) => items,
            Err(error) => {
                return Err(error);
            },
        };
        match items {
            Some(items) => {
                match read_name_arguments(items, state) {
                    Ok(next) => {
                        state = next;
                    },
                    Err(error) => {
                        return Err(error);
                    },
                }
            },
            None => {},
        }
        i += 1;
    }
    match state {
        Some(name) => Ok(name),
        None => Err(DeriveError::NoName),
    }
}

} // verus!
