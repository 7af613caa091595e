//! The style declarations that the elements of this crate accept.

use crate::style_traits::Style;
use crate::units;
use vstd::prelude::*;

verus! {

pub enum Display {
    Inline,
    Grid,
    /// The element takes no part in the layout; written as `none`.
    NoDisplay,
}

impl Style for Display {
    open spec fn spec_style_key(&self) -> Seq<char> {
        "display"@
    }

    open spec fn spec_style_value(&self) -> Seq<char> {
        match self {
            Display::Inline => "inline"@,
            Display::Grid => "grid"@,
            Display::NoDisplay => "none"@,
        }
    }

    fn style_key(&self) -> (key: String) {
        String::from_str("display")
    }

    fn style_value(&self) -> (value: String) {
        match self {
            Display::Inline => String::from_str("inline"),
            Display::Grid => String::from_str("grid"),
            Display::NoDisplay => String::from_str("none"),
        }
    }
}

/// The margin of a box, given for one, two, three or four sides at once.
pub enum Margin {
    AllFour(units::NumberOrAuto),
    VerticalHorizontal(units::NumberOrAuto, units::NumberOrAuto),
    TopHorizontalBotton(units::NumberOrAuto, units::NumberOrAuto, units::NumberOrAuto),
    TopRightBottonLeft(units::NumberOrAuto, units::NumberOrAuto, units::NumberOrAuto, units::NumberOrAuto),
}

impl Style for Margin {
    open spec fn spec_style_key(&self) -> Seq<char> {
        "margin"@
    }

    /// The values in the order of the variant, with one space between two of them.
    open spec fn spec_style_value(&self) -> Seq<char> {
        match self {
            Margin::AllFour(v) => v.spec_style_value_helper(),
            Margin::VerticalHorizontal(v, h) => v.spec_style_value_helper() + " "@ + h.spec_style_value_helper(),
            Margin::TopHorizontalBotton(t, h, b) => t.spec_style_value_helper() + " "@ + h.spec_style_value_helper()
                + " "@ + b.spec_style_value_helper(),
            Margin::TopRightBottonLeft(t, r, b, l) => t.spec_style_value_helper() + " "@ + r.spec_style_value_helper()
                + " "@ + b.spec_style_value_helper() + " "@ + l.spec_style_value_helper(),
        }
    }

    fn style_key(&self) -> (key: String) {
        String::from_str("margin")
    }

    fn style_value(&self) -> (value: String) {
        match self {
            Margin::AllFour(v) => v.style_value_helper(),
            Margin::VerticalHorizontal(v, h) => {
                let mut value = v.style_value_helper();
                let second = h.style_value_helper();
                value.append(" ");
                value.append(second.as_str());
                value
            },
            Margin::TopHorizontalBotton(t, h, b) => {
                let mut value = t.style_value_helper();
                let second = h.style_value_helper();
                let third = b.style_value_helper();
                value.append(" ");
                value.append(second.as_str());
                value.append(" ");
                value.append(third.as_str());
                value
            },
            Margin::TopRightBottonLeft(t, r, b, l) => {
                let mut value = t.style_value_helper();
                let second = r.style_value_helper();
                let third = b.style_value_helper();
                let fourth = l.style_value_helper();
                value.append(" ");
                value.append(second.as_str());
                value.append(" ");
                value.append(third.as_str());
                value.append(" ");
                value.append(fourth.as_str());
                value
            },
        }
    }
}

/// The padding of a box, given for one, two, three or four sides at once.
pub enum Padding {
    AllFour(units::Number),
    VerticalHorizontal(units::Number, units::Number),
    TopHorizontalBotton(units::Number, units::Number, units::Number),
    TopRightBottonLeft(units::Number, units::Number, units::Number, units::Number),
}

impl Style for Padding {
    open spec fn spec_style_key(&self) -> Seq<char> {
        "padding"@
    }

    /// The values in the order of the variant, with one space between two of them.
    open spec fn spec_style_value(&self) -> Seq<char> {
        match self {
            Padding::AllFour(v) => v.spec_style_value_helper(),
            Padding::VerticalHorizontal(v, h) => v.spec_style_value_helper() + " "@ + h.spec_style_value_helper(),
            Padding::TopHorizontalBotton(t, h, b) => t.spec_style_value_helper() + " "@ + h.spec_style_value_helper()
                + " "@ + b.spec_style_value_helper(),
            Padding::TopRightBottonLeft(t, r, b, l) => t.spec_style_value_helper() + " "@ + r.spec_style_value_helper()
                + " "@ + b.spec_style_value_helper() + " "@ + l.spec_style_value_helper(),
        }
    }

    fn style_key(&self) -> (key: String) {
        String::from_str("padding")
    }

    fn style_value(&self) -> (value: String) {
        match self {
            Padding::AllFour(v) => v.style_value_helper(),
            Padding::VerticalHorizontal(v, h) => {
                let mut value = v.style_value_helper();
                let second = h.style_value_helper();
                value.append(" ");
                value.append(second.as_str());
                value
            },
            Padding::TopHorizontalBotton(t, h, b) => {
                let mut value = t.style_value_helper();
                let second = h.style_value_helper();
                let third = b.style_value_helper();
                value.append(" ");
                value.append(second.as_str());
                value.append(" ");
                value.append(third.as_str());
                value
            },
            Padding::TopRightBottonLeft(t, r, b, l) => {
                let mut value = t.style_value_helper();
                let second = r.style_value_helper();
                let third = b.style_value_helper();
                let fourth = l.style_value_helper();
                value.append(" ");
                value.append(second.as_str());
                value.append(" ");
                value.append(third.as_str());
                value.append(" ");
                value.append(fourth.as_str());
                value
            },
        }
    }
}

pub struct Border {
    pub style: units::BorderStyle,
}

impl Style for Border {
    open spec fn spec_style_key(&self) -> Seq<char> {
        "border"@
    }

    open spec fn spec_style_value(&self) -> Seq<char> {
        self.style.spec_unit_str()
    }

    fn style_key(&self) -> (key: String) {
        String::from_str("border")
    }

    fn style_value(&self) -> (value: String) {
        self.style.unit_str()
    }
}

pub struct BorderCollapse {
    pub value: units::BorderCollapseStyle,
}

impl Style for BorderCollapse {
    open spec fn spec_style_key(&self) -> Seq<char> {
        "border-collapse"@
    }

    open spec fn spec_style_value(&self) -> Seq<char> {
        self.value.spec_unit_str()
    }

    fn style_key(&self) -> (key: String) {
        String::from_str("border-collapse")
    }

    fn style_value(&self) -> (value: String) {
        self.value.unit_str()
    }
}

pub struct BorderSpacing {
    pub value: units::Number,
}

impl Style for BorderSpacing {
    open spec fn spec_style_key(&self) -> Seq<char> {
        "border-spacing"@
    }

    open spec fn spec_style_value(&self) -> Seq<char> {
        self.value.spec_style_value_helper()
    }

    fn style_key(&self) -> (key: String) {
        String::from_str("border-spacing")
    }

    fn style_value(&self) -> (value: String) {
        self.value.style_value_helper()
    }
}

pub struct VerticalAlign {
    pub value: units::VerticalAlignValue,
}

impl Style for VerticalAlign {
    open spec fn spec_style_key(&self) -> Seq<char> {
        "vertical-align"@
    }

    open spec fn spec_style_value(&self) -> Seq<char> {
        self.value.spec_value_string()
    }

    fn style_key(&self) -> (key: String) {
        String::from_str("vertical-align")
    }

    fn style_value(&self) -> (value: String) {
        self.value.value_string()
    }
}

/// The greatest width of a box, in pixels.
pub struct MaxWidth {
    pub value: u32,
}

impl Style for MaxWidth {
    open spec fn spec_style_key(&self) -> Seq<char> {
        "max-width"@
    }

    open spec fn spec_style_value(&self) -> Seq<char> {
        units::decimal(self.value as nat) + "px"@
    }

    fn style_key(&self) -> (key: String) {
        String::from_str("max-width")
    }

    fn style_value(&self) -> (value: String) {
        let mut value = units::decimal_string(self.value);
        value.append("px");
        value
    }
}

pub struct BackgroundColor {
    pub color_value: String,
}

impl Style for BackgroundColor {
    open spec fn spec_style_key(&self) -> Seq<char> {
        "background-color"@
    }

    open spec fn spec_style_value(&self) -> Seq<char> {
        self.color_value@
    }

    fn style_key(&self) -> (key: String) {
        String::from_str("background-color")
    }

    fn style_value(&self) -> (value: String) {
        self.color_value.clone()
    }
}

pub struct Color {
    pub color_value: String,
}

impl Style for Color {
    open spec fn spec_style_key(&self) -> Seq<char> {
        "color"@
    }

    open spec fn spec_style_value(&self) -> Seq<char> {
        self.color_value@
    }

    fn style_key(&self) -> (key: String) {
        String::from_str("color")
    }

    fn style_value(&self) -> (value: String) {
        self.color_value.clone()
    }
}

pub struct FontFamily {
    pub name: String,
}

impl Style for FontFamily {
    open spec fn spec_style_key(&self) -> Seq<char> {
        "font-family"@
    }

    open spec fn spec_style_value(&self) -> Seq<char> {
        self.name@
    }

    fn style_key(&self) -> (key: String) {
        String::from_str("font-family")
    }

    fn style_value(&self) -> (value: String) {
        self.name.clone()
    }
}

pub struct Height {
    pub value: units::NumberOrAuto,
}

impl Style for Height {
    open spec fn spec_style_key(&self) -> Seq<char> {
        "height"@
    }

    open spec fn spec_style_value(&self) -> Seq<char> {
        self.value.spec_style_value_helper()
    }

    fn style_key(&self) -> (key: String) {
        String::from_str("height")
    }

    fn style_value(&self) -> (value: String) {
        self.value.style_value_helper()
    }
}

pub struct Width {
    pub value: units::NumberOrAuto,
}

impl Style for Width {
    open spec fn spec_style_key(&self) -> Seq<char> {
        "width"@
    }

    open spec fn spec_style_value(&self) -> Seq<char> {
        self.value.spec_style_value_helper()
    }

    fn style_key(&self) -> (key: String) {
        String::from_str("width")
    }

    fn style_value(&self) -> (value: String) {
        self.value.style_value_helper()
    }
}

pub struct Visibility {
    pub value: units::VisibilityValue,
}

impl Style for Visibility {
    open spec fn spec_style_key(&self) -> Seq<char> {
        "visibility"@
    }

    open spec fn spec_style_value(&self) -> Seq<char> {
        self.value.spec_style_value_helper()
    }

    fn style_key(&self) -> (key: String) {
        String::from_str("visibility")
    }

    fn style_value(&self) -> (value: String) {
        self.value.style_value_helper()
    }
}

} // verus!
