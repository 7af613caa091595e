//! The values that attributes and style declarations are made of, each with
//! the text it is written as.

use vstd::prelude::*;

verus! {

/// The text of one decimal digit.
pub open spec fn digit(d: nat) -> Seq<char>
    recommends
        d < 10,
{
    if d == 0 {
        "0"@
    } else if d == 1 {
        "1"@
    } else if d == 2 {
        "2"@
    } else if d == 3 {
        "3"@
    } else if d == 4 {
        "4"@
    } else if d == 5 {
        "5"@
    } else if d == 6 {
        "6"@
    } else if d == 7 {
        "7"@
    } else if d == 8 {
        "8"@
    } else {
        "9"@
    }
}

/// The decimal numeral of `n`: no sign, no leading zero, `"0"` for zero.
pub open spec fn decimal(n: nat) -> Seq<char>
    decreases n,
{
    if n < 10 {
        digit(n)
    } else {
        decimal(n / 10) + digit(n % 10)
    }
}

fn digit_str(d: u32) -> (text: &'static str)
    requires
        d < 10,
    ensures
        text@ == digit(d as nat),
{
    if d == 0 {
        "0"
    } else if d == 1 {
        "1"
    } else if d == 2 {
        "2"
    } else if d == 3 {
        "3"
    } else if d == 4 {
        "4"
    } else if d == 5 {
        "5"
    } else if d == 6 {
        "6"
    } else if d == 7 {
        "7"
    } else if d == 8 {
        "8"
    } else {
        "9"
    }
}

/// Writes `value` as a decimal numeral.
pub fn decimal_string(value: u32) -> (text: String)
    ensures
        text@ == decimal(value as nat),
    decreases value,
{
    if value < 10 {
        String::from_str(digit_str(value))
    } else {
        let mut text = decimal_string(value / 10);
        text.append(digit_str(value % 10));
        text
    }
}

pub enum LanguageTag {
    En,
}

impl LanguageTag {
    pub open spec fn spec_lang_tag_str(&self) -> Seq<char> {
        match self {
            LanguageTag::En => "en"@,
        }
    }

    pub fn lang_tag_str(&self) -> (text: String)
        ensures
            text@ == self.spec_lang_tag_str(),
    {
        match self {
            LanguageTag::En => String::from_str("en"),
        }
    }
}

pub enum LanguageSubTag {
    Us,
}

impl LanguageSubTag {
    pub open spec fn spec_sub_tag_str(&self) -> Seq<char> {
        match self {
            LanguageSubTag::Us => "US"@,
        }
    }

    pub fn sub_tag_str(&self) -> (text: String)
        ensures
            text@ == self.spec_sub_tag_str(),
    {
        match self {
            LanguageSubTag::Us => String::from_str("US"),
        }
    }
}

pub enum CharsetValue {
    Utf8,
}

impl CharsetValue {
    pub open spec fn spec_char_set_str(&self) -> Seq<char> {
        match self {
            CharsetValue::Utf8 => "utf-8"@,
        }
    }

    pub fn char_set_str(&self) -> (text: String)
        ensures
            text@ == self.spec_char_set_str(),
    {
        match self {
            CharsetValue::Utf8 => String::from_str("utf-8"),
        }
    }
}

/// The address of a resource, kept as it was given.
pub struct SourceValue {
    inner_string: String,
}

impl View for SourceValue {
    type V = Seq<char>;

    closed spec fn view(&self) -> Seq<char> {
        self.inner_string@
    }
}

impl SourceValue {
    pub fn new(s: String) -> (value: Self)
        ensures
            value@ == s@,
    {
        SourceValue { inner_string: s }
    }

    pub fn source_value_str(&self) -> (text: String)
        ensures
            text@ == self@,
    {
        self.inner_string.clone()
    }
}

pub enum InputTypeValue {
    Submit,
}

impl InputTypeValue {
    pub open spec fn spec_value_string(&self) -> Seq<char> {
        match self {
            InputTypeValue::Submit => "submit"@,
        }
    }

    pub fn value_string(&self) -> (text: String)
        ensures
            text@ == self.spec_value_string(),
    {
        match self {
            InputTypeValue::Submit => String::from_str("submit"),
        }
    }
}

/// Free text for an attribute value, kept as it was given.
pub struct ValueString {
    inner_string: String,
}

impl View for ValueString {
    type V = Seq<char>;

    closed spec fn view(&self) -> Seq<char> {
        self.inner_string@
    }
}

impl ValueString {
    pub fn new(s: String) -> (value: Self)
        ensures
            value@ == s@,
    {
        ValueString { inner_string: s }
    }

    pub fn value_string(&self) -> (text: String)
        ensures
            text@ == self@,
    {
        self.inner_string.clone()
    }
}

pub enum FormmethodValue {
    Get,
    Post,
    Dialog,
}

impl FormmethodValue {
    pub open spec fn spec_value_string(&self) -> Seq<char> {
        match self {
            FormmethodValue::Get => "get"@,
            FormmethodValue::Post => "post"@,
            FormmethodValue::Dialog => "dialog"@,
        }
    }

    pub fn value_string(&self) -> (text: String)
        ensures
            text@ == self.spec_value_string(),
    {
        match self {
            FormmethodValue::Get => String::from_str("get"),
            FormmethodValue::Post => String::from_str("post"),
            FormmethodValue::Dialog => String::from_str("dialog"),
        }
    }
}

pub enum Length {
    Pixel,
    Centimeter,
    ViewportHeight,
}

impl Length {
    pub open spec fn spec_unit_str(&self) -> Seq<char> {
        match self {
            Length::Pixel => "px"@,
            Length::Centimeter => "cm"@,
            Length::ViewportHeight => "vh"@,
        }
    }

    pub fn unit_str(&self) -> (text: String)
        ensures
            text@ == self.spec_unit_str(),
    {
        match self {
            Length::Pixel => String::from_str("px"),
            Length::Centimeter => String::from_str("cm"),
            Length::ViewportHeight => String::from_str("vh"),
        }
    }
}

pub struct Percentage {}

impl Percentage {
    pub open spec fn spec_unit_str(&self) -> Seq<char> {
        "%"@
    }

    pub fn unit_str(&self) -> (text: String)
        ensures
            text@ == self.spec_unit_str(),
    {
        String::from_str("%")
    }
}

pub struct Auto {}

impl Auto {
    pub open spec fn spec_unit_str(&self) -> Seq<char> {
        "auto"@
    }

    pub fn unit_str(&self) -> (text: String)
        ensures
            text@ == self.spec_unit_str(),
    {
        String::from_str("auto")
    }
}

pub enum BorderStyle {
    Solid,
    /// No border at all, written as a width of zero.
    NoBorder,
}

impl BorderStyle {
    pub open spec fn spec_unit_str(&self) -> Seq<char> {
        match self {
            BorderStyle::Solid => "solid"@,
            BorderStyle::NoBorder => "0px"@,
        }
    }

    pub fn unit_str(&self) -> (text: String)
        ensures
            text@ == self.spec_unit_str(),
    {
        match self {
            BorderStyle::Solid => String::from_str("solid"),
            BorderStyle::NoBorder => String::from_str("0px"),
        }
    }
}

pub enum BorderCollapseStyle {
    Collapse,
    Separate,
}

impl BorderCollapseStyle {
    pub open spec fn spec_unit_str(&self) -> Seq<char> {
        match self {
            BorderCollapseStyle::Collapse => "collapse"@,
            BorderCollapseStyle::Separate => "separate"@,
        }
    }

    pub fn unit_str(&self) -> (text: String)
        ensures
            text@ == self.spec_unit_str(),
    {
        match self {
            BorderCollapseStyle::Collapse => String::from_str("collapse"),
            BorderCollapseStyle::Separate => String::from_str("separate"),
        }
    }
}

pub enum VerticalAlignValue {
    Baseline,
    Top,
    Middle,
    Bottom,
}

impl VerticalAlignValue {
    pub open spec fn spec_value_string(&self) -> Seq<char> {
        match self {
            VerticalAlignValue::Baseline => "baseline"@,
            VerticalAlignValue::Top => "top"@,
            VerticalAlignValue::Middle => "middle"@,
            VerticalAlignValue::Bottom => "bottom"@,
        }
    }

    pub fn value_string(&self) -> (text: String)
        ensures
            text@ == self.spec_value_string(),
    {
        match self {
            VerticalAlignValue::Baseline => String::from_str("baseline"),
            VerticalAlignValue::Top => String::from_str("top"),
            VerticalAlignValue::Middle => String::from_str("middle"),
            VerticalAlignValue::Bottom => String::from_str("bottom"),
        }
    }
}

/// A quantity: a count of some length unit, or a percentage.
pub enum Number {
    Length(u32, Length),
    Percentage(u32),
}

impl Number {
    /// The numeral followed directly by the unit.
    pub open spec fn spec_style_value_helper(&self) -> Seq<char> {
        match self {
            Number::Length(v, l) => decimal(*v as nat) + l.spec_unit_str(),
            Number::Percentage(v) => decimal(*v as nat) + (Percentage {  }).spec_unit_str(),
        }
    }

    pub fn style_value_helper(&self) -> (text: String)
        ensures
            text@ == self.spec_style_value_helper(),
    {
        match self {
            Number::Length(v, l) => {
                let mut text = decimal_string(*v);
                let unit = l.unit_str();
                text.append(unit.as_str());
                text
            },
            Number::Percentage(v) => {
                let mut text = decimal_string(*v);
                let unit = (Percentage {  }).unit_str();
                text.append(unit.as_str());
                text
            },
        }
    }
}

pub enum NumberOrAuto {
    Number(Number),
    Auto,
}

impl NumberOrAuto {
    pub open spec fn spec_style_value_helper(&self) -> Seq<char> {
        match self {
            NumberOrAuto::Number(n) => n.spec_style_value_helper(),
            NumberOrAuto::Auto => (Auto {  }).spec_unit_str(),
        }
    }

    pub fn style_value_helper(&self) -> (text: String)
        ensures
            text@ == self.spec_style_value_helper(),
    {
        match self {
            NumberOrAuto::Number(n) => n.style_value_helper(),
            NumberOrAuto::Auto => (Auto {  }).unit_str(),
        }
    }
}

pub enum VisibilityValue {
    Visible,
    Hidden,
    Collapse,
}

impl VisibilityValue {
    pub open spec fn spec_style_value_helper(&self) -> Seq<char> {
        match self {
            VisibilityValue::Visible => "visible"@,
            VisibilityValue::Hidden => "hidden"@,
            VisibilityValue::Collapse => "collapse"@,
        }
    }

    pub fn style_value_helper(&self) -> (text: String)
        ensures
            text@ == self.spec_style_value_helper(),
    {
        match self {
            VisibilityValue::Visible => String::from_str("visible"),
            VisibilityValue::Hidden => String::from_str("hidden"),
            VisibilityValue::Collapse => String::from_str("collapse"),
        }
    }
}

} // verus!
