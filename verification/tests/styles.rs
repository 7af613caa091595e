use htmldsl::style_sheet::{single_style_string, style_sheet_string, StyleAssignment, StyleSheet};
use htmldsl::style_traits::{render_style, render_styles, Style};
use htmldsl::styles::{
    BackgroundColor, Border, BorderCollapse, BorderSpacing, Color, Display, FontFamily, Height,
    Margin, MaxWidth, Padding, VerticalAlign, Visibility, Width,
};
use htmldsl::units::{
    BorderCollapseStyle, BorderStyle, Length, Number, NumberOrAuto, VerticalAlignValue,
    VisibilityValue,
};

fn px(value: u32) -> Number {
    Number::Length(value, Length::Pixel)
}

fn auto_or_px(value: u32) -> NumberOrAuto {
    NumberOrAuto::Number(px(value))
}

#[test]
fn display_declaration() {
    assert_eq!(Display::Inline.style_key(), "display");
    assert_eq!(Display::Inline.style_value(), "inline");
    assert_eq!(Display::Grid.style_value(), "grid");
    assert_eq!(Display::NoDisplay.style_value(), "none");
}

#[test]
fn margin_declaration() {
    assert_eq!(Margin::AllFour(NumberOrAuto::Auto).style_key(), "margin");
    assert_eq!(Margin::AllFour(NumberOrAuto::Auto).style_value(), "auto");
    assert_eq!(
        Margin::VerticalHorizontal(auto_or_px(10), NumberOrAuto::Auto).style_value(),
        "10px auto"
    );
    assert_eq!(
        Margin::TopHorizontalBotton(
            auto_or_px(1),
            NumberOrAuto::Number(Number::Percentage(2)),
            NumberOrAuto::Auto
        )
        .style_value(),
        "1px 2% auto"
    );
    assert_eq!(
        Margin::TopRightBottonLeft(auto_or_px(1), auto_or_px(2), auto_or_px(3), auto_or_px(4))
            .style_value(),
        "1px 2px 3px 4px"
    );
}

#[test]
fn padding_declaration() {
    assert_eq!(Padding::AllFour(px(5)).style_key(), "padding");
    assert_eq!(Padding::AllFour(px(5)).style_value(), "5px");
    assert_eq!(
        Padding::VerticalHorizontal(px(5), Number::Percentage(10)).style_value(),
        "5px 10%"
    );
    assert_eq!(
        Padding::TopHorizontalBotton(px(1), px(2), Number::Length(3, Length::Centimeter))
            .style_value(),
        "1px 2px 3cm"
    );
    assert_eq!(
        Padding::TopRightBottonLeft(px(1), px(2), px(3), Number::Length(4, Length::ViewportHeight))
            .style_value(),
        "1px 2px 3px 4vh"
    );
}

#[test]
fn border_declarations() {
    let border = Border { style: BorderStyle::Solid };
    assert_eq!(border.style_key(), "border");
    assert_eq!(border.style_value(), "solid");
    assert_eq!(Border { style: BorderStyle::NoBorder }.style_value(), "0px");
    let collapse = BorderCollapse { value: BorderCollapseStyle::Collapse };
    assert_eq!(collapse.style_key(), "border-collapse");
    assert_eq!(collapse.style_value(), "collapse");
    let spacing = BorderSpacing { value: px(2) };
    assert_eq!(spacing.style_key(), "border-spacing");
    assert_eq!(spacing.style_value(), "2px");
}

#[test]
fn vertical_align_declaration() {
    let align = VerticalAlign { value: VerticalAlignValue::Top };
    assert_eq!(align.style_key(), "vertical-align");
    assert_eq!(align.style_value(), "top");
}

#[test]
fn max_width_is_in_pixels() {
    let width = MaxWidth { value: 800 };
    assert_eq!(width.style_key(), "max-width");
    assert_eq!(width.style_value(), "800px");
    assert_eq!(MaxWidth { value: 0 }.style_value(), "0px");
}

#[test]
fn text_valued_declarations() {
    let background = BackgroundColor { color_value: "#fff".to_string() };
    assert_eq!(background.style_key(), "background-color");
    assert_eq!(background.style_value(), "#fff");
    let color = Color { color_value: "red".to_string() };
    assert_eq!(color.style_key(), "color");
    assert_eq!(color.style_value(), "red");
    let font = FontFamily { name: "monospace".to_string() };
    assert_eq!(font.style_key(), "font-family");
    assert_eq!(font.style_value(), "monospace");
}

#[test]
fn size_declarations() {
    let height = Height { value: NumberOrAuto::Number(Number::Length(100, Length::ViewportHeight)) };
    assert_eq!(height.style_key(), "height");
    assert_eq!(height.style_value(), "100vh");
    let width = Width { value: NumberOrAuto::Auto };
    assert_eq!(width.style_key(), "width");
    assert_eq!(width.style_value(), "auto");
}

#[test]
fn visibility_declaration() {
    let visibility = Visibility { value: VisibilityValue::Hidden };
    assert_eq!(visibility.style_key(), "visibility");
    assert_eq!(visibility.style_value(), "hidden");
}

#[test]
fn render_style_joins_key_and_value() {
    let color = Color { color_value: "red".to_string() };
    assert_eq!(render_style(&color), "color: red");
    let as_object: &dyn Style = &color;
    assert_eq!(render_style(as_object), "color: red");
}

#[test]
fn render_styles_of_an_empty_list() {
    let list: Vec<&dyn Style> = Vec::new();
    assert_eq!(render_styles(&list), "");
}

#[test]
fn render_styles_puts_the_last_declaration_first() {
    let color = Color { color_value: "red".to_string() };
    let width = MaxWidth { value: 10 };
    let display = Display::Grid;
    let one: Vec<&dyn Style> = vec![&color];
    assert_eq!(render_styles(&one), "color: red; ");
    let three: Vec<&dyn Style> = vec![&color, &width, &display];
    assert_eq!(render_styles(&three), "display: grid; max-width: 10px; color: red; ");
}

#[test]
fn empty_style_sheet_compiles_to_nothing() {
    let sheet = StyleSheet { assignments: Vec::new() };
    assert_eq!(style_sheet_string(&sheet), "");
}

#[test]
fn single_rule() {
    let color = Color { color_value: "red".to_string() };
    let rule = StyleAssignment { names: vec!["body".to_string()], styles: vec![&color] };
    assert_eq!(single_style_string(&rule), "body { color: red;  }");
}

#[test]
fn rule_with_several_selectors() {
    let color = Color { color_value: "red".to_string() };
    let width = MaxWidth { value: 10 };
    let rule = StyleAssignment {
        names: vec!["h1".to_string(), "h2".to_string(), ".big".to_string()],
        styles: vec![&color, &width],
    };
    assert_eq!(
        single_style_string(&rule),
        "h1, h2, .big { max-width: 10px; color: red;  }"
    );
}

#[test]
fn rule_without_selectors_or_declarations() {
    let rule = StyleAssignment { names: Vec::new(), styles: Vec::new() };
    assert_eq!(single_style_string(&rule), " {  }");
}

#[test]
fn style_sheet_puts_a_space_before_each_rule() {
    let color = Color { color_value: "red".to_string() };
    let display = Display::Inline;
    let sheet = StyleSheet {
        assignments: vec![
            StyleAssignment { names: vec!["body".to_string()], styles: vec![&color] },
            StyleAssignment {
                names: vec!["a".to_string(), "b".to_string()],
                styles: vec![&display],
            },
        ],
    };
    assert_eq!(
        style_sheet_string(&sheet),
        " body { color: red;  } a, b { display: inline;  }"
    );
}
