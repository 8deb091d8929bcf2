//! Style transitions: the easing keywords, the registry of animatable style
//! fields (JS name → field, and which kind of value each holds), the rule
//! that picks the transition declaration governing a field, and the table of
//! transitions in flight per element (one per field; `T` is the transition's
//! state, interpolated by the renderer).

use vstd::prelude::*;

use std::collections::HashMap;

use crate::model::ElementId;
use crate::text_util::{chars_match, chars_of, str_eq};

verus! {

/// CSS timing functions by keyword.
#[derive(Debug, Clone, Copy, PartialEq, Eq, Structural)]
pub enum Easing {
    Linear,
    Ease,
    EaseIn,
    EaseOut,
    EaseInOut,
}

impl Easing {
    /// The keyword table: `linear`, `ease`, `ease-in`, `ease-out`, `ease-in-out`.
    pub open spec fn spec_parse(s: Seq<char>) -> Option<Easing> {
        if s == "linear"@ {
            Some(Easing::Linear)
        } else if s == "ease"@ {
            Some(Easing::Ease)
        } else if s == "ease-in"@ {
            Some(Easing::EaseIn)
        } else if s == "ease-out"@ {
            Some(Easing::EaseOut)
        } else if s == "ease-in-out"@ {
            Some(Easing::EaseInOut)
        } else {
            None
        }
    }

    pub fn parse(s: &str) -> (r: Option<Easing>)
        ensures
            r == Self::spec_parse(s@),
    {
        let cs = chars_of(s);
        if chars_match(&cs, "linear") {
            Some(Easing::Linear)
        } else if chars_match(&cs, "ease") {
            Some(Easing::Ease)
        } else if chars_match(&cs, "ease-in") {
            Some(Easing::EaseIn)
        } else if chars_match(&cs, "ease-out") {
            Some(Easing::EaseOut)
        } else if chars_match(&cs, "ease-in-out") {
            Some(Easing::EaseInOut)
        } else {
            None
        }
    }
}

/// Which kind of value an animatable field holds.
#[derive(Debug, Clone, Copy, PartialEq, Eq, Structural)]
pub enum AnimKind {
    Length,
    Color,
    F32,
}

/// One animatable style field (variant names follow the style field names).
#[allow(non_camel_case_types)]
#[derive(Debug, Clone, Copy, PartialEq, Eq, Hash, Structural)]
pub enum FieldId {
    width,
    height,
    min_width,
    min_height,
    max_width,
    max_height,
    flex_basis,
    padding,
    padding_x,
    padding_y,
    padding_top,
    padding_right,
    padding_bottom,
    padding_left,
    margin,
    margin_x,
    margin_y,
    margin_top,
    margin_right,
    margin_bottom,
    margin_left,
    gap,
    gap_x,
    gap_y,
    inset,
    top,
    right,
    bottom,
    left,
    border_radius,
    border_top_left_radius,
    border_top_right_radius,
    border_bottom_right_radius,
    border_bottom_left_radius,
    border_width,
    border_top_width,
    border_right_width,
    border_bottom_width,
    border_left_width,
    font_size,
    background_color,
    color,
    border_color,
    text_decoration_color,
    text_background_color,
    opacity,
    flex_grow,
    flex_shrink,
    font_weight,
    aspect_ratio,
}

/// JS camelCase style-prop name → animatable field.
pub open spec fn spec_field_id_from_name(s: Seq<char>) -> Option<FieldId> {
    if s == "width"@ {
        Some(FieldId::width)
    } else if s == "height"@ {
        Some(FieldId::height)
    } else if s == "minWidth"@ {
        Some(FieldId::min_width)
    } else if s == "minHeight"@ {
        Some(FieldId::min_height)
    } else if s == "maxWidth"@ {
        Some(FieldId::max_width)
    } else if s == "maxHeight"@ {
        Some(FieldId::max_height)
    } else if s == "flexBasis"@ {
        Some(FieldId::flex_basis)
    } else if s == "padding"@ {
        Some(FieldId::padding)
    } else if s == "paddingX"@ {
        Some(FieldId::padding_x)
    } else if s == "paddingY"@ {
        Some(FieldId::padding_y)
    } else if s == "paddingTop"@ {
        Some(FieldId::padding_top)
    } else if s == "paddingRight"@ {
        Some(FieldId::padding_right)
    } else if s == "paddingBottom"@ {
        Some(FieldId::padding_bottom)
    } else if s == "paddingLeft"@ {
        Some(FieldId::padding_left)
    } else if s == "margin"@ {
        Some(FieldId::margin)
    } else if s == "marginX"@ {
        Some(FieldId::margin_x)
    } else if s == "marginY"@ {
        Some(FieldId::margin_y)
    } else if s == "marginTop"@ {
        Some(FieldId::margin_top)
    } else if s == "marginRight"@ {
        Some(FieldId::margin_right)
    } else if s == "marginBottom"@ {
        Some(FieldId::margin_bottom)
    } else if s == "marginLeft"@ {
        Some(FieldId::margin_left)
    } else if s == "gap"@ {
        Some(FieldId::gap)
    } else if s == "gapX"@ {
        Some(FieldId::gap_x)
    } else if s == "gapY"@ {
        Some(FieldId::gap_y)
    } else if s == "inset"@ {
        Some(FieldId::inset)
    } else if s == "top"@ {
        Some(FieldId::top)
    } else if s == "right"@ {
        Some(FieldId::right)
    } else if s == "bottom"@ {
        Some(FieldId::bottom)
    } else if s == "left"@ {
        Some(FieldId::left)
    } else if s == "borderRadius"@ {
        Some(FieldId::border_radius)
    } else if s == "borderTopLeftRadius"@ {
        Some(FieldId::border_top_left_radius)
    } else if s == "borderTopRightRadius"@ {
        Some(FieldId::border_top_right_radius)
    } else if s == "borderBottomRightRadius"@ {
        Some(FieldId::border_bottom_right_radius)
    } else if s == "borderBottomLeftRadius"@ {
        Some(FieldId::border_bottom_left_radius)
    } else if s == "borderWidth"@ {
        Some(FieldId::border_width)
    } else if s == "borderTopWidth"@ {
        Some(FieldId::border_top_width)
    } else if s == "borderRightWidth"@ {
        Some(FieldId::border_right_width)
    } else if s == "borderBottomWidth"@ {
        Some(FieldId::border_bottom_width)
    } else if s == "borderLeftWidth"@ {
        Some(FieldId::border_left_width)
    } else if s == "fontSize"@ {
        Some(FieldId::font_size)
    } else if s == "backgroundColor"@ {
        Some(FieldId::background_color)
    } else if s == "color"@ {
        Some(FieldId::color)
    } else if s == "borderColor"@ {
        Some(FieldId::border_color)
    } else if s == "textDecorationColor"@ {
        Some(FieldId::text_decoration_color)
    } else if s == "textBackgroundColor"@ {
        Some(FieldId::text_background_color)
    } else if s == "opacity"@ {
        Some(FieldId::opacity)
    } else if s == "flexGrow"@ {
        Some(FieldId::flex_grow)
    } else if s == "flexShrink"@ {
        Some(FieldId::flex_shrink)
    } else if s == "fontWeight"@ {
        Some(FieldId::font_weight)
    } else if s == "aspectRatio"@ {
        Some(FieldId::aspect_ratio)
    } else {
        None
    }
}

/// JS camelCase style-prop name → [`FieldId`]; `None` for names that are
/// unknown or not animatable.
pub fn field_id_from_name(name: &str) -> (r: Option<FieldId>)
    ensures
        r == spec_field_id_from_name(name@),
{
    let cs = chars_of(name);
    if chars_match(&cs, "width") {
        Some(FieldId::width)
    } else if chars_match(&cs, "height") {
        Some(FieldId::height)
    } else if chars_match(&cs, "minWidth") {
        Some(FieldId::min_width)
    } else if chars_match(&cs, "minHeight") {
        Some(FieldId::min_height)
    } else if chars_match(&cs, "maxWidth") {
        Some(FieldId::max_width)
    } else if chars_match(&cs, "maxHeight") {
        Some(FieldId::max_height)
    } else if chars_match(&cs, "flexBasis") {
        Some(FieldId::flex_basis)
    } else if chars_match(&cs, "padding") {
        Some(FieldId::padding)
    } else if chars_match(&cs, "paddingX") {
        Some(FieldId::padding_x)
    } else if chars_match(&cs, "paddingY") {
        Some(FieldId::padding_y)
    } else if chars_match(&cs, "paddingTop") {
        Some(FieldId::padding_top)
    } else if chars_match(&cs, "paddingRight") {
        Some(FieldId::padding_right)
    } else if chars_match(&cs, "paddingBottom") {
        Some(FieldId::padding_bottom)
    } else if chars_match(&cs, "paddingLeft") {
        Some(FieldId::padding_left)
    } else if chars_match(&cs, "margin") {
        Some(FieldId::margin)
    } else if chars_match(&cs, "marginX") {
        Some(FieldId::margin_x)
    } else if chars_match(&cs, "marginY") {
        Some(FieldId::margin_y)
    } else if chars_match(&cs, "marginTop") {
        Some(FieldId::margin_top)
    } else if chars_match(&cs, "marginRight") {
        Some(FieldId::margin_right)
    } else if chars_match(&cs, "marginBottom") {
        Some(FieldId::margin_bottom)
    } else if chars_match(&cs, "marginLeft") {
        Some(FieldId::margin_left)
    } else if chars_match(&cs, "gap") {
        Some(FieldId::gap)
    } else if chars_match(&cs, "gapX") {
        Some(FieldId::gap_x)
    } else if chars_match(&cs, "gapY") {
        Some(FieldId::gap_y)
    } else if chars_match(&cs, "inset") {
        Some(FieldId::inset)
    } else if chars_match(&cs, "top") {
        Some(FieldId::top)
    } else if chars_match(&cs, "right") {
        Some(FieldId::right)
    } else if chars_match(&cs, "bottom") {
        Some(FieldId::bottom)
    } else if chars_match(&cs, "left") {
        Some(FieldId::left)
    } else if chars_match(&cs, "borderRadius") {
        Some(FieldId::border_radius)
    } else if chars_match(&cs, "borderTopLeftRadius") {
        Some(FieldId::border_top_left_radius)
    } else if chars_match(&cs, "borderTopRightRadius") {
        Some(FieldId::border_top_right_radius)
    } else if chars_match(&cs, "borderBottomRightRadius") {
        Some(FieldId::border_bottom_right_radius)
    } else if chars_match(&cs, "borderBottomLeftRadius") {
        Some(FieldId::border_bottom_left_radius)
    } else if chars_match(&cs, "borderWidth") {
        Some(FieldId::border_width)
    } else if chars_match(&cs, "borderTopWidth") {
        Some(FieldId::border_top_width)
    } else if chars_match(&cs, "borderRightWidth") {
        Some(FieldId::border_right_width)
    } else if chars_match(&cs, "borderBottomWidth") {
        Some(FieldId::border_bottom_width)
    } else if chars_match(&cs, "borderLeftWidth") {
        Some(FieldId::border_left_width)
    } else if chars_match(&cs, "fontSize") {
        Some(FieldId::font_size)
    } else if chars_match(&cs, "backgroundColor") {
        Some(FieldId::background_color)
    } else if chars_match(&cs, "color") {
        Some(FieldId::color)
    } else if chars_match(&cs, "borderColor") {
        Some(FieldId::border_color)
    } else if chars_match(&cs, "textDecorationColor") {
        Some(FieldId::text_decoration_color)
    } else if chars_match(&cs, "textBackgroundColor") {
        Some(FieldId::text_background_color)
    } else if chars_match(&cs, "opacity") {
        Some(FieldId::opacity)
    } else if chars_match(&cs, "flexGrow") {
        Some(FieldId::flex_grow)
    } else if chars_match(&cs, "flexShrink") {
        Some(FieldId::flex_shrink)
    } else if chars_match(&cs, "fontWeight") {
        Some(FieldId::font_weight)
    } else if chars_match(&cs, "aspectRatio") {
        Some(FieldId::aspect_ratio)
    } else {
        None
    }
}

/// The JS style-property name of each animatable field, as written in a
/// `transitionProperty` value.
pub open spec fn field_js_name(f: FieldId) -> Seq<char> {
    match f {
        FieldId::width => "width"@,
        FieldId::height => "height"@,
        FieldId::min_width => "minWidth"@,
        FieldId::min_height => "minHeight"@,
        FieldId::max_width => "maxWidth"@,
        FieldId::max_height => "maxHeight"@,
        FieldId::flex_basis => "flexBasis"@,
        FieldId::padding => "padding"@,
        FieldId::padding_x => "paddingX"@,
        FieldId::padding_y => "paddingY"@,
        FieldId::padding_top => "paddingTop"@,
        FieldId::padding_right => "paddingRight"@,
        FieldId::padding_bottom => "paddingBottom"@,
        FieldId::padding_left => "paddingLeft"@,
        FieldId::margin => "margin"@,
        FieldId::margin_x => "marginX"@,
        FieldId::margin_y => "marginY"@,
        FieldId::margin_top => "marginTop"@,
        FieldId::margin_right => "marginRight"@,
        FieldId::margin_bottom => "marginBottom"@,
        FieldId::margin_left => "marginLeft"@,
        FieldId::gap => "gap"@,
        FieldId::gap_x => "gapX"@,
        FieldId::gap_y => "gapY"@,
        FieldId::inset => "inset"@,
        FieldId::top => "top"@,
        FieldId::right => "right"@,
        FieldId::bottom => "bottom"@,
        FieldId::left => "left"@,
        FieldId::border_radius => "borderRadius"@,
        FieldId::border_top_left_radius => "borderTopLeftRadius"@,
        FieldId::border_top_right_radius => "borderTopRightRadius"@,
        FieldId::border_bottom_right_radius => "borderBottomRightRadius"@,
        FieldId::border_bottom_left_radius => "borderBottomLeftRadius"@,
        FieldId::border_width => "borderWidth"@,
        FieldId::border_top_width => "borderTopWidth"@,
        FieldId::border_right_width => "borderRightWidth"@,
        FieldId::border_bottom_width => "borderBottomWidth"@,
        FieldId::border_left_width => "borderLeftWidth"@,
        FieldId::font_size => "fontSize"@,
        FieldId::background_color => "backgroundColor"@,
        FieldId::color => "color"@,
        FieldId::border_color => "borderColor"@,
        FieldId::text_decoration_color => "textDecorationColor"@,
        FieldId::text_background_color => "textBackgroundColor"@,
        FieldId::opacity => "opacity"@,
        FieldId::flex_grow => "flexGrow"@,
        FieldId::flex_shrink => "flexShrink"@,
        FieldId::font_weight => "fontWeight"@,
        FieldId::aspect_ratio => "aspectRatio"@,
    }
}

proof fn lemma_field_name_lengths()
    ensures
        "width"@.len() == 5,
        "height"@.len() == 6,
        "minWidth"@.len() == 8,
        "minHeight"@.len() == 9,
        "maxWidth"@.len() == 8,
        "maxHeight"@.len() == 9,
        "flexBasis"@.len() == 9,
        "padding"@.len() == 7,
        "paddingX"@.len() == 8,
        "paddingY"@.len() == 8,
        "paddingTop"@.len() == 10,
        "paddingRight"@.len() == 12,
        "paddingBottom"@.len() == 13,
        "paddingLeft"@.len() == 11,
        "margin"@.len() == 6,
        "marginX"@.len() == 7,
        "marginY"@.len() == 7,
        "marginTop"@.len() == 9,
        "marginRight"@.len() == 11,
        "marginBottom"@.len() == 12,
        "marginLeft"@.len() == 10,
        "gap"@.len() == 3,
        "gapX"@.len() == 4,
        "gapY"@.len() == 4,
        "inset"@.len() == 5,
        "top"@.len() == 3,
        "right"@.len() == 5,
        "bottom"@.len() == 6,
        "left"@.len() == 4,
        "borderRadius"@.len() == 12,
        "borderTopLeftRadius"@.len() == 19,
        "borderTopRightRadius"@.len() == 20,
        "borderBottomRightRadius"@.len() == 23,
        "borderBottomLeftRadius"@.len() == 22,
        "borderWidth"@.len() == 11,
        "borderTopWidth"@.len() == 14,
        "borderRightWidth"@.len() == 16,
        "borderBottomWidth"@.len() == 17,
        "borderLeftWidth"@.len() == 15,
        "fontSize"@.len() == 8,
        "backgroundColor"@.len() == 15,
        "color"@.len() == 5,
        "borderColor"@.len() == 11,
        "textDecorationColor"@.len() == 19,
        "textBackgroundColor"@.len() == 19,
        "opacity"@.len() == 7,
        "flexGrow"@.len() == 8,
        "flexShrink"@.len() == 10,
        "fontWeight"@.len() == 10,
        "aspectRatio"@.len() == 11,
{
    reveal_strlit("width");
    reveal_strlit("height");
    reveal_strlit("minWidth");
    reveal_strlit("minHeight");
    reveal_strlit("maxWidth");
    reveal_strlit("maxHeight");
    reveal_strlit("flexBasis");
    reveal_strlit("padding");
    reveal_strlit("paddingX");
    reveal_strlit("paddingY");
    reveal_strlit("paddingTop");
    reveal_strlit("paddingRight");
    reveal_strlit("paddingBottom");
    reveal_strlit("paddingLeft");
    reveal_strlit("margin");
    reveal_strlit("marginX");
    reveal_strlit("marginY");
    reveal_strlit("marginTop");
    reveal_strlit("marginRight");
    reveal_strlit("marginBottom");
    reveal_strlit("marginLeft");
    reveal_strlit("gap");
    reveal_strlit("gapX");
    reveal_strlit("gapY");
    reveal_strlit("inset");
    reveal_strlit("top");
    reveal_strlit("right");
    reveal_strlit("bottom");
    reveal_strlit("left");
    reveal_strlit("borderRadius");
    reveal_strlit("borderTopLeftRadius");
    reveal_strlit("borderTopRightRadius");
    reveal_strlit("borderBottomRightRadius");
    reveal_strlit("borderBottomLeftRadius");
    reveal_strlit("borderWidth");
    reveal_strlit("borderTopWidth");
    reveal_strlit("borderRightWidth");
    reveal_strlit("borderBottomWidth");
    reveal_strlit("borderLeftWidth");
    reveal_strlit("fontSize");
    reveal_strlit("backgroundColor");
    reveal_strlit("color");
    reveal_strlit("borderColor");
    reveal_strlit("textDecorationColor");
    reveal_strlit("textBackgroundColor");
    reveal_strlit("opacity");
    reveal_strlit("flexGrow");
    reveal_strlit("flexShrink");
    reveal_strlit("fontWeight");
    reveal_strlit("aspectRatio");
}

/// Every animatable field is found again by its JS name.
pub proof fn lemma_field_name_round_trip(f: FieldId)
    ensures
        spec_field_id_from_name(field_js_name(f)) == Some(f),
{
    lemma_field_name_lengths();
    match f {
        FieldId::width => {},
        FieldId::height => {},
        FieldId::min_width => {},
        FieldId::min_height => {},
        FieldId::max_width => {
            reveal_strlit("maxWidth");
            reveal_strlit("minWidth");
            assert("minWidth"@[1] != "maxWidth"@[1]);
        },
        FieldId::max_height => {
            reveal_strlit("maxHeight");
            reveal_strlit("minHeight");
            assert("minHeight"@[1] != "maxHeight"@[1]);
        },
        FieldId::flex_basis => {
            reveal_strlit("flexBasis");
            reveal_strlit("minHeight");
            assert("minHeight"@[0] != "flexBasis"@[0]);
            reveal_strlit("maxHeight");
            assert("maxHeight"@[0] != "flexBasis"@[0]);
        },
        FieldId::padding => {},
        FieldId::padding_x => {
            reveal_strlit("paddingX");
            reveal_strlit("minWidth");
            assert("minWidth"@[0] != "paddingX"@[0]);
            reveal_strlit("maxWidth");
            assert("maxWidth"@[0] != "paddingX"@[0]);
        },
        FieldId::padding_y => {
            reveal_strlit("paddingY");
            reveal_strlit("minWidth");
            assert("minWidth"@[0] != "paddingY"@[0]);
            reveal_strlit("maxWidth");
            assert("maxWidth"@[0] != "paddingY"@[0]);
            reveal_strlit("paddingX");
            assert("paddingX"@[7] != "paddingY"@[7]);
        },
        FieldId::padding_top => {},
        FieldId::padding_right => {},
        FieldId::padding_bottom => {},
        FieldId::padding_left => {},
        FieldId::margin => {
            reveal_strlit("margin");
            reveal_strlit("height");
            assert("height"@[0] != "margin"@[0]);
        },
        FieldId::margin_x => {
            reveal_strlit("marginX");
            reveal_strlit("padding");
            assert("padding"@[0] != "marginX"@[0]);
        },
        FieldId::margin_y => {
            reveal_strlit("marginY");
            reveal_strlit("padding");
            assert("padding"@[0] != "marginY"@[0]);
            reveal_strlit("marginX");
            assert("marginX"@[6] != "marginY"@[6]);
        },
        FieldId::margin_top => {
            reveal_strlit("marginTop");
            reveal_strlit("minHeight");
            assert("minHeight"@[1] != "marginTop"@[1]);
            reveal_strlit("maxHeight");
            assert("maxHeight"@[2] != "marginTop"@[2]);
            reveal_strlit("flexBasis");
            assert("flexBasis"@[0] != "marginTop"@[0]);
        },
        FieldId::margin_right => {
            reveal_strlit("marginRight");
            reveal_strlit("paddingLeft");
            assert("paddingLeft"@[0] != "marginRight"@[0]);
        },
        FieldId::margin_bottom => {
            reveal_strlit("marginBottom");
            reveal_strlit("paddingRight");
            assert("paddingRight"@[0] != "marginBottom"@[0]);
        },
        FieldId::margin_left => {
            reveal_strlit("marginLeft");
            reveal_strlit("paddingTop");
            assert("paddingTop"@[0] != "marginLeft"@[0]);
        },
        FieldId::gap => {},
        FieldId::gap_x => {},
        FieldId::gap_y => {
            reveal_strlit("gapY");
            reveal_strlit("gapX");
            assert("gapX"@[3] != "gapY"@[3]);
        },
        FieldId::inset => {
            reveal_strlit("inset");
            reveal_strlit("width");
            assert("width"@[0] != "inset"@[0]);
        },
        FieldId::top => {
            reveal_strlit("top");
            reveal_strlit("gap");
            assert("gap"@[0] != "top"@[0]);
        },
        FieldId::right => {
            reveal_strlit("right");
            reveal_strlit("width");
            assert("width"@[0] != "right"@[0]);
            reveal_strlit("inset");
            assert("inset"@[0] != "right"@[0]);
        },
        FieldId::bottom => {
            reveal_strlit("bottom");
            reveal_strlit("height");
            assert("height"@[0] != "bottom"@[0]);
            reveal_strlit("margin");
            assert("margin"@[0] != "bottom"@[0]);
        },
        FieldId::left => {
            reveal_strlit("left");
            reveal_strlit("gapX");
            assert("gapX"@[0] != "left"@[0]);
            reveal_strlit("gapY");
            assert("gapY"@[0] != "left"@[0]);
        },
        FieldId::border_radius => {
            reveal_strlit("borderRadius");
            reveal_strlit("paddingRight");
            assert("paddingRight"@[0] != "borderRadius"@[0]);
            reveal_strlit("marginBottom");
            assert("marginBottom"@[0] != "borderRadius"@[0]);
        },
        FieldId::border_top_left_radius => {},
        FieldId::border_top_right_radius => {},
        FieldId::border_bottom_right_radius => {},
        FieldId::border_bottom_left_radius => {},
        FieldId::border_width => {
            reveal_strlit("borderWidth");
            reveal_strlit("paddingLeft");
            assert("paddingLeft"@[0] != "borderWidth"@[0]);
            reveal_strlit("marginRight");
            assert("marginRight"@[0] != "borderWidth"@[0]);
        },
        FieldId::border_top_width => {},
        FieldId::border_right_width => {},
        FieldId::border_bottom_width => {},
        FieldId::border_left_width => {},
        FieldId::font_size => {
            reveal_strlit("fontSize");
            reveal_strlit("minWidth");
            assert("minWidth"@[0] != "fontSize"@[0]);
            reveal_strlit("maxWidth");
            assert("maxWidth"@[0] != "fontSize"@[0]);
            reveal_strlit("paddingX");
            assert("paddingX"@[0] != "fontSize"@[0]);
            reveal_strlit("paddingY");
            assert("paddingY"@[0] != "fontSize"@[0]);
        },
        FieldId::background_color => {
            reveal_strlit("backgroundColor");
            reveal_strlit("borderLeftWidth");
            assert("borderLeftWidth"@[1] != "backgroundColor"@[1]);
        },
        FieldId::color => {
            reveal_strlit("color");
            reveal_strlit("width");
            assert("width"@[0] != "color"@[0]);
            reveal_strlit("inset");
            assert("inset"@[0] != "color"@[0]);
            reveal_strlit("right");
            assert("right"@[0] != "color"@[0]);
        },
        FieldId::border_color => {
            reveal_strlit("borderColor");
            reveal_strlit("paddingLeft");
            assert("paddingLeft"@[0] != "borderColor"@[0]);
            reveal_strlit("marginRight");
            assert("marginRight"@[0] != "borderColor"@[0]);
            reveal_strlit("borderWidth");
            assert("borderWidth"@[6] != "borderColor"@[6]);
        },
        FieldId::text_decoration_color => {
            reveal_strlit("textDecorationColor");
            reveal_strlit("borderTopLeftRadius");
            assert("borderTopLeftRadius"@[0] != "textDecorationColor"@[0]);
        },
        FieldId::text_background_color => {
            reveal_strlit("textBackgroundColor");
            reveal_strlit("borderTopLeftRadius");
            assert("borderTopLeftRadius"@[0] != "textBackgroundColor"@[0]);
            reveal_strlit("textDecorationColor");
            assert("textDecorationColor"@[4] != "textBackgroundColor"@[4]);
        },
        FieldId::opacity => {
            reveal_strlit("opacity");
            reveal_strlit("padding");
            assert("padding"@[0] != "opacity"@[0]);
            reveal_strlit("marginX");
            assert("marginX"@[0] != "opacity"@[0]);
            reveal_strlit("marginY");
            assert("marginY"@[0] != "opacity"@[0]);
        },
        FieldId::flex_grow => {
            reveal_strlit("flexGrow");
            reveal_strlit("minWidth");
            assert("minWidth"@[0] != "flexGrow"@[0]);
            reveal_strlit("maxWidth");
            assert("maxWidth"@[0] != "flexGrow"@[0]);
            reveal_strlit("paddingX");
            assert("paddingX"@[0] != "flexGrow"@[0]);
            reveal_strlit("paddingY");
            assert("paddingY"@[0] != "flexGrow"@[0]);
            reveal_strlit("fontSize");
            assert("fontSize"@[1] != "flexGrow"@[1]);
        },
        FieldId::flex_shrink => {
            reveal_strlit("flexShrink");
            reveal_strlit("paddingTop");
            assert("paddingTop"@[0] != "flexShrink"@[0]);
            reveal_strlit("marginLeft");
            assert("marginLeft"@[0] != "flexShrink"@[0]);
        },
        FieldId::font_weight => {
            reveal_strlit("fontWeight");
            reveal_strlit("paddingTop");
            assert("paddingTop"@[0] != "fontWeight"@[0]);
            reveal_strlit("marginLeft");
            assert("marginLeft"@[0] != "fontWeight"@[0]);
            reveal_strlit("flexShrink");
            assert("flexShrink"@[1] != "fontWeight"@[1]);
        },
        FieldId::aspect_ratio => {
            reveal_strlit("aspectRatio");
            reveal_strlit("paddingLeft");
            assert("paddingLeft"@[0] != "aspectRatio"@[0]);
            reveal_strlit("marginRight");
            assert("marginRight"@[0] != "aspectRatio"@[0]);
            reveal_strlit("borderWidth");
            assert("borderWidth"@[0] != "aspectRatio"@[0]);
            reveal_strlit("borderColor");
            assert("borderColor"@[0] != "aspectRatio"@[0]);
        },
    }
}

/// A name is found only as the JS name of the field it gives: no two
/// fields share a name, and no other text names a field.
pub proof fn lemma_field_name_exact(s: Seq<char>, f: FieldId)
    requires
        spec_field_id_from_name(s) == Some(f),
    ensures
        s == field_js_name(f),
{
}

/// The kind of value a field animates.
pub open spec fn spec_field_kind(id: FieldId) -> AnimKind {
    match id {
        FieldId::width => AnimKind::Length,
        FieldId::height => AnimKind::Length,
        FieldId::min_width => AnimKind::Length,
        FieldId::min_height => AnimKind::Length,
        FieldId::max_width => AnimKind::Length,
        FieldId::max_height => AnimKind::Length,
        FieldId::flex_basis => AnimKind::Length,
        FieldId::padding => AnimKind::Length,
        FieldId::padding_x => AnimKind::Length,
        FieldId::padding_y => AnimKind::Length,
        FieldId::padding_top => AnimKind::Length,
        FieldId::padding_right => AnimKind::Length,
        FieldId::padding_bottom => AnimKind::Length,
        FieldId::padding_left => AnimKind::Length,
        FieldId::margin => AnimKind::Length,
        FieldId::margin_x => AnimKind::Length,
        FieldId::margin_y => AnimKind::Length,
        FieldId::margin_top => AnimKind::Length,
        FieldId::margin_right => AnimKind::Length,
        FieldId::margin_bottom => AnimKind::Length,
        FieldId::margin_left => AnimKind::Length,
        FieldId::gap => AnimKind::Length,
        FieldId::gap_x => AnimKind::Length,
        FieldId::gap_y => AnimKind::Length,
        FieldId::inset => AnimKind::Length,
        FieldId::top => AnimKind::Length,
        FieldId::right => AnimKind::Length,
        FieldId::bottom => AnimKind::Length,
        FieldId::left => AnimKind::Length,
        FieldId::border_radius => AnimKind::Length,
        FieldId::border_top_left_radius => AnimKind::Length,
        FieldId::border_top_right_radius => AnimKind::Length,
        FieldId::border_bottom_right_radius => AnimKind::Length,
        FieldId::border_bottom_left_radius => AnimKind::Length,
        FieldId::border_width => AnimKind::Length,
        FieldId::border_top_width => AnimKind::Length,
        FieldId::border_right_width => AnimKind::Length,
        FieldId::border_bottom_width => AnimKind::Length,
        FieldId::border_left_width => AnimKind::Length,
        FieldId::font_size => AnimKind::Length,
        FieldId::background_color => AnimKind::Color,
        FieldId::color => AnimKind::Color,
        FieldId::border_color => AnimKind::Color,
        FieldId::text_decoration_color => AnimKind::Color,
        FieldId::text_background_color => AnimKind::Color,
        FieldId::opacity => AnimKind::F32,
        FieldId::flex_grow => AnimKind::F32,
        FieldId::flex_shrink => AnimKind::F32,
        FieldId::font_weight => AnimKind::F32,
        FieldId::aspect_ratio => AnimKind::F32,
    }
}

/// The kind of value a field animates (lengths, colours or plain numbers).
pub fn field_kind(id: FieldId) -> (r: AnimKind)
    ensures
        r == spec_field_kind(id),
{
    match id {
        FieldId::width => AnimKind::Length,
        FieldId::height => AnimKind::Length,
        FieldId::min_width => AnimKind::Length,
        FieldId::min_height => AnimKind::Length,
        FieldId::max_width => AnimKind::Length,
        FieldId::max_height => AnimKind::Length,
        FieldId::flex_basis => AnimKind::Length,
        FieldId::padding => AnimKind::Length,
        FieldId::padding_x => AnimKind::Length,
        FieldId::padding_y => AnimKind::Length,
        FieldId::padding_top => AnimKind::Length,
        FieldId::padding_right => AnimKind::Length,
        FieldId::padding_bottom => AnimKind::Length,
        FieldId::padding_left => AnimKind::Length,
        FieldId::margin => AnimKind::Length,
        FieldId::margin_x => AnimKind::Length,
        FieldId::margin_y => AnimKind::Length,
        FieldId::margin_top => AnimKind::Length,
        FieldId::margin_right => AnimKind::Length,
        FieldId::margin_bottom => AnimKind::Length,
        FieldId::margin_left => AnimKind::Length,
        FieldId::gap => AnimKind::Length,
        FieldId::gap_x => AnimKind::Length,
        FieldId::gap_y => AnimKind::Length,
        FieldId::inset => AnimKind::Length,
        FieldId::top => AnimKind::Length,
        FieldId::right => AnimKind::Length,
        FieldId::bottom => AnimKind::Length,
        FieldId::left => AnimKind::Length,
        FieldId::border_radius => AnimKind::Length,
        FieldId::border_top_left_radius => AnimKind::Length,
        FieldId::border_top_right_radius => AnimKind::Length,
        FieldId::border_bottom_right_radius => AnimKind::Length,
        FieldId::border_bottom_left_radius => AnimKind::Length,
        FieldId::border_width => AnimKind::Length,
        FieldId::border_top_width => AnimKind::Length,
        FieldId::border_right_width => AnimKind::Length,
        FieldId::border_bottom_width => AnimKind::Length,
        FieldId::border_left_width => AnimKind::Length,
        FieldId::font_size => AnimKind::Length,
        FieldId::background_color => AnimKind::Color,
        FieldId::color => AnimKind::Color,
        FieldId::border_color => AnimKind::Color,
        FieldId::text_decoration_color => AnimKind::Color,
        FieldId::text_background_color => AnimKind::Color,
        FieldId::opacity => AnimKind::F32,
        FieldId::flex_grow => AnimKind::F32,
        FieldId::flex_shrink => AnimKind::F32,
        FieldId::font_weight => AnimKind::F32,
        FieldId::aspect_ratio => AnimKind::F32,
    }
}

/// Which style field(s) a transition declaration applies to.
#[derive(Debug, Clone, Copy, PartialEq, Eq, Structural)]
pub enum TransitionProperty {
    /// Every animatable field (`property: "all"`).
    All,
    /// A single named field.
    Field(FieldId),
}

/// The `property` of a transition declaration as written.
#[derive(Debug, Clone, PartialEq, Eq)]
pub enum PropertyValue {
    /// Absent (or `undefined`).
    Absent,
    /// A string.
    Text(String),
    /// Any other value.
    Other,
}

/// What a declaration's `property` selects: every field when absent or
/// `"all"`; the named field when it is animatable; otherwise the declaration
/// is dropped (`None`).
pub open spec fn spec_transition_property(v: PropertyValue) -> Option<TransitionProperty> {
    match v {
        PropertyValue::Absent => Some(TransitionProperty::All),
        PropertyValue::Text(s) => if s@ == "all"@ {
            Some(TransitionProperty::All)
        } else {
            match spec_field_id_from_name(s@) {
                Some(f) => Some(TransitionProperty::Field(f)),
                None => None,
            }
        },
        PropertyValue::Other => None,
    }
}

/// Resolve a declaration's `property` (see [`spec_transition_property`]).
pub fn transition_property(v: &PropertyValue) -> (r: Option<TransitionProperty>)
    ensures
        r == spec_transition_property(*v),
{
    match v {
        PropertyValue::Absent => Some(TransitionProperty::All),
        PropertyValue::Text(s) => {
            if str_eq(s.as_str(), "all") {
                Some(TransitionProperty::All)
            } else {
                match field_id_from_name(s.as_str()) {
                    Some(f) => Some(TransitionProperty::Field(f)),
                    None => None,
                }
            }
        },
        PropertyValue::Other => None,
    }
}

/// A declaration's easing: the named timing function, `ease` when the name
/// is absent or unknown.
pub fn transition_easing(name: Option<&str>) -> (r: Easing)
    ensures
        r == match name {
            Some(s) => match Easing::spec_parse(s@) {
                Some(e) => e,
                None => Easing::Ease,
            },
            None => Easing::Ease,
        },
{
    match name {
        Some(s) => match Easing::parse(s) {
            Some(e) => e,
            None => Easing::Ease,
        },
        None => Easing::Ease,
    }
}

/// What a changed animatable field does.
#[derive(Debug, Clone, Copy, PartialEq, Eq, Structural)]
pub enum FieldStep {
    /// (Re)start its transition from the current value to the new one.
    Animate,
    /// Take the new value at once, ending any transition of the field.
    Jump,
}

/// The step of a changed field: it animates only when a declaration covers
/// it (`covered`) with a positive duration, it has both a start value (the
/// running transition's, else the old one) and a new value (`endpoints`),
/// and the two interpolate; otherwise it jumps.
pub fn field_step(covered: bool, positive_duration: bool, endpoints: bool, interpolable: bool) -> (r:
    FieldStep)
    ensures
        r == (if covered && positive_duration && endpoints && interpolable {
            FieldStep::Animate
        } else {
            FieldStep::Jump
        }),
{
    if covered && positive_duration && endpoints && interpolable {
        FieldStep::Animate
    } else {
        FieldStep::Jump
    }
}

/// Index of the last entry of `s` equal to `x`.
pub open spec fn last_index_of(s: Seq<TransitionProperty>, x: TransitionProperty) -> Option<int>
    decreases s.len(),
{
    if s.len() == 0 {
        None
    } else if s.last() == x {
        Some(s.len() - 1)
    } else {
        last_index_of(s.drop_last(), x)
    }
}

/// The declaration governing `field`: the last one naming it, else the last
/// `all` one (CSS specificity, then source order).
pub open spec fn spec_matching_spec(props: Seq<TransitionProperty>, field: FieldId) -> Option<int> {
    match last_index_of(props, TransitionProperty::Field(field)) {
        Some(i) => Some(i),
        None => last_index_of(props, TransitionProperty::All),
    }
}

/// Index of the transition declaration (given by their `property` parts, in
/// declaration order) that governs `field`.
pub fn matching_spec(props: &Vec<TransitionProperty>, field: FieldId) -> (r: Option<usize>)
    ensures
        match r {
            Some(i) => spec_matching_spec(props@, field) == Some(i as int),
            None => spec_matching_spec(props@, field) is None,
        },
{
    let mut found: Option<usize> = None;
    let mut found_specific = false;
    let mut i: usize = 0;
    let ghost s = props@;
    assert(s.take(0) =~= Seq::<TransitionProperty>::empty());
    while i < props.len()
        invariant
            s == props@,
            0 <= i <= s.len(),
            found_specific == last_index_of(s.take(i as int), TransitionProperty::Field(field)) is Some,
            match found {
                Some(k) => spec_matching_spec(s.take(i as int), field) == Some(k as int),
                None => spec_matching_spec(s.take(i as int), field) is None,
            },
        decreases s.len() - i,
    {
        proof {
            assert(s.take(i + 1).drop_last() =~= s.take(i as int));
            assert(s.take(i + 1).last() == s[i as int]);
        }
        match props[i] {
            TransitionProperty::Field(f) => {
                if f == field {
                    found = Some(i);
                    found_specific = true;
                }
            },
            TransitionProperty::All => {
                if !found_specific {
                    found = Some(i);
                }
            },
        }
        i = i + 1;
    }
    assert(s.take(s.len() as int) =~= s);
    found
}

/// Index of the entry for `field` in `es`.
pub open spec fn field_index<T>(es: Seq<(FieldId, T)>, field: FieldId) -> Option<int>
    decreases es.len(),
{
    if es.len() == 0 {
        None
    } else if es.last().0 == field {
        Some(es.len() - 1)
    } else {
        field_index(es.drop_last(), field)
    }
}

/// `es` with the entry for `field` set to `t` (replaced in place, or added last).
pub open spec fn set_field_in<T>(es: Seq<(FieldId, T)>, field: FieldId, t: T) -> Seq<(FieldId, T)> {
    match field_index(es, field) {
        Some(i) => es.update(i, (field, t)),
        None => es.push((field, t)),
    }
}

/// `es` without the entry for `field`.
pub open spec fn remove_field_in<T>(es: Seq<(FieldId, T)>, field: FieldId) -> Seq<(FieldId, T)> {
    match field_index(es, field) {
        Some(i) => es.remove(i),
        None => es,
    }
}

proof fn lemma_field_index<T>(es: Seq<(FieldId, T)>, field: FieldId)
    ensures
        field_index(es, field) matches Some(i) ==> 0 <= i < es.len() && es[i].0 == field,
        field_index(es, field) is None ==> forall|j: int| 0 <= j < es.len() ==> #[trigger] es[j].0 != field,
    decreases es.len(),
{
    if es.len() > 0 && es.last().0 != field {
        lemma_field_index(es.drop_last(), field);
        if field_index(es, field) is None {
            assert forall|j: int| 0 <= j < es.len() implies #[trigger] es[j].0 != field by {
                if j < es.len() - 1 {
                    assert(es[j] == es.drop_last()[j]);
                }
            }
        }
    }
}

/// Find the entry for `field`, searching from the end.
fn find_field<T>(es: &Vec<(FieldId, T)>, field: FieldId) -> (r: Option<usize>)
    ensures
        r == (match field_index(es@, field) {
            Some(i) => Some(i as usize),
            None => None::<usize>,
        }),
{
    let mut i = es.len();
    proof {
        assert(es@.take(es@.len() as int) =~= es@);
    }
    while i > 0
        invariant
            0 <= i <= es@.len(),
            field_index(es@, field) == field_index(es@.take(i as int), field),
            forall|j: int| i <= j < es@.len() ==> #[trigger] es@[j].0 != field,
        decreases i,
    {
        proof {
            assert(es@.take(i as int).last() == es@[i - 1]);
            assert(es@.take(i as int).drop_last() =~= es@.take(i - 1));
        }
        if es[i - 1].0 == field {
            return Some(i - 1);
        }
        i = i - 1;
    }
    None
}

/// The transitions in flight, per element, one per field.
pub struct ActiveTransitions<T> {
    active: HashMap<ElementId, Vec<(FieldId, T)>>,
}

impl<T> ActiveTransitions<T> {
    /// Entries of each element with any, by element id.
    pub closed spec fn entries(&self) -> Map<ElementId, Seq<(FieldId, T)>> {
        self.active@.map_values(|v: Vec<(FieldId, T)>| v@)
    }

    pub fn new() -> (r: Self)
        ensures
            r.entries() == Map::<ElementId, Seq<(FieldId, T)>>::empty(),
    {
        let r = ActiveTransitions { active: HashMap::new() };
        proof {
            assert(r.entries() =~= Map::<ElementId, Seq<(FieldId, T)>>::empty());
        }
        r
    }

    /// Whether any transition is in flight.
    pub fn has_active(&self) -> (r: bool)
        ensures
            r == (self.entries().dom().len() > 0),
    {
        proof {
            assert(self.entries().dom() =~= self.active@.dom());
        }
        !self.active.is_empty()
    }

    /// Drop every transition of a removed element.
    pub fn remove_node(&mut self, id: ElementId)
        ensures
            final(self).entries() == old(self).entries().remove(id),
    {
        self.active.remove(&id);
        proof {
            assert(final(self).entries() =~= old(self).entries().remove(id));
        }
    }

    /// Drop every transition (full reload).
    pub fn clear(&mut self)
        ensures
            final(self).entries() == Map::<ElementId, Seq<(FieldId, T)>>::empty(),
    {
        self.active.clear();
        proof {
            assert(final(self).entries() =~= Map::<ElementId, Seq<(FieldId, T)>>::empty());
        }
    }

    /// The elements with a transition in flight, each once.
    pub fn node_ids(&self) -> (r: Vec<ElementId>)
        ensures
            r@.to_set() == self.entries().dom(),
            r@.no_duplicates(),
    {
        broadcast use vstd::std_specs::hash::group_hash_axioms;

        let mut out: Vec<ElementId> = Vec::new();
        for id in it: self.active.keys()
            invariant
                it.seq().unref().to_set() == self.active@.dom(),
                it.seq().no_duplicates(),
                out@ == it.seq().take(it.index() as int).unref(),
                out@.no_duplicates(),
                it.index() == it.seq().len() ==> out@.to_set() == self.active@.dom(),
        {
            proof {
                let t = it.seq().take(it.index() as int).unref();
                assert(it.seq().take(it.index() + 1).unref() =~= t.push(*id));
                assert forall|k: int| 0 <= k < t.len() implies t[k] != *id by {
                    assert(t[k] == *it.seq()[k]);
                    assert(*id == *it.seq()[it.index() as int]);
                }
                assert(it.seq().take(it.seq().len() as int) =~= it.seq());
            }
            out.push(*id);
        }
        proof {
            assert(self.entries().dom() =~= self.active@.dom());
        }
        out
    }

    /// The transitions of element `id`, if any.
    pub fn node_entries(&self, id: ElementId) -> (r: Option<&Vec<(FieldId, T)>>)
        ensures
            match r {
                Some(v) => self.entries().contains_key(id) && v@ == self.entries()[id],
                None => !self.entries().contains_key(id),
            },
    {
        self.active.get(&id)
    }

    /// Start (or restart) the transition of `field` on element `id`; the
    /// element's other fields keep theirs.
    pub fn set_field(&mut self, id: ElementId, field: FieldId, t: T)
        ensures
            final(self).entries() == old(self).entries().insert(
                id,
                set_field_in(
                    if old(self).entries().contains_key(id) {
                        old(self).entries()[id]
                    } else {
                        Seq::<(FieldId, T)>::empty()
                    },
                    field,
                    t,
                ),
            ),
    {
        let ghost before = self.entries();
        let mut es = match self.active.remove(&id) {
            Some(v) => v,
            None => Vec::new(),
        };
        let ghost es0 = es@;
        proof {
            lemma_field_index(es0, field);
        }
        match find_field(&es, field) {
            Some(i) => {
                es.set(i, (field, t));
            },
            None => {
                es.push((field, t));
            },
        }
        self.active.insert(id, es);
        proof {
            assert(final(self).entries() =~= before.insert(id, set_field_in(es0, field, t)));
        }
    }

    /// End the transition of `field` on element `id` (the field jumps to its
    /// value); an element left with none is dropped.
    pub fn remove_field(&mut self, id: ElementId, field: FieldId)
        ensures
            old(self).entries().contains_key(id) ==> ({
                let rest = remove_field_in(old(self).entries()[id], field);
                final(self).entries() == if rest.len() == 0 {
                    old(self).entries().remove(id)
                } else {
                    old(self).entries().insert(id, rest)
                }
            }),
            !old(self).entries().contains_key(id) ==> final(self).entries() == old(self).entries(),
    {
        let ghost before = self.entries();
        match self.active.remove(&id) {
            None => {
                proof {
                    assert(final(self).entries() =~= before);
                }
            },
            Some(mut es) => {
                let ghost es0 = es@;
                proof {
                    lemma_field_index(es0, field);
                }
                if let Some(i) = find_field(&es, field) {
                    es.remove(i);
                }
                if es.len() > 0 {
                    self.active.insert(id, es);
                    proof {
                        assert(final(self).entries() =~= before.insert(id, remove_field_in(es0, field)));
                    }
                } else {
                    proof {
                        assert(final(self).entries() =~= before.remove(id));
                    }
                }
            },
        }
    }

    /// Keep only the transitions of element `id` whose flag in `keep` (one per
    /// entry, in order) is set; an element left with none is dropped.
    pub fn retain_node_entries(&mut self, id: ElementId, keep: &Vec<bool>)
        requires
            old(self).entries().contains_key(id) ==> keep@.len() == old(self).entries()[id].len(),
        ensures
            old(self).entries().contains_key(id) ==> ({
                let rest = kept(old(self).entries()[id], keep@);
                final(self).entries() == if rest.len() == 0 {
                    old(self).entries().remove(id)
                } else {
                    old(self).entries().insert(id, rest)
                }
            }),
            !old(self).entries().contains_key(id) ==> final(self).entries() == old(self).entries(),
    {
        let ghost before = self.entries();
        match self.active.remove(&id) {
            None => {
                proof {
                    assert(final(self).entries() =~= before);
                }
            },
            Some(es) => {
                let ghost es0 = es@;
                let mut rest = es;
                let mut out: Vec<(FieldId, T)> = Vec::new();
                let mut i: usize = 0;
                proof {
                    assert(es0.take(0) =~= Seq::<(FieldId, T)>::empty());
                }
                while i < keep.len()
                    invariant
                        0 <= i <= keep@.len(),
                        keep@.len() == es0.len(),
                        rest@ == es0.skip(i as int),
                        out@ == kept(es0.take(i as int), keep@.take(i as int)),
                    decreases keep@.len() - i,
                {
                    proof {
                        assert(rest@.len() > 0);
                    }
                    let e = rest.remove(0);
                    proof {
                        assert(es0.take(i + 1).drop_last() =~= es0.take(i as int));
                        assert(keep@.take(i + 1).drop_last() =~= keep@.take(i as int));
                        assert(es0.skip(i as int).drop_first() =~= es0.skip(i + 1));
                    }
                    if keep[i] {
                        out.push(e);
                    }
                    i = i + 1;
                }
                proof {
                    assert(es0.take(es0.len() as int) =~= es0);
                    assert(keep@.take(keep@.len() as int) =~= keep@);
                }
                if out.len() > 0 {
                    self.active.insert(id, out);
                    proof {
                        assert(final(self).entries() =~= before.insert(id, kept(es0, keep@)));
                    }
                } else {
                    proof {
                        assert(final(self).entries() =~= before.remove(id));
                    }
                }
            },
        }
    }
}

/// The entries of `es` whose flag in `keep` is set, in order.
pub open spec fn kept<T>(es: Seq<(FieldId, T)>, keep: Seq<bool>) -> Seq<(FieldId, T)>
    decreases es.len(),
{
    if es.len() == 0 || keep.len() == 0 {
        Seq::empty()
    } else if keep.last() {
        kept(es.drop_last(), keep.drop_last()).push(es.last())
    } else {
        kept(es.drop_last(), keep.drop_last())
    }
}

/// Restarting one field's transition leaves the element's other fields'
/// transitions as they were.
pub proof fn lemma_set_field_keeps_other_fields<T>(es: Seq<(FieldId, T)>, field: FieldId, t: T, other: FieldId)
    requires
        other != field,
    ensures
        field_index(set_field_in(es, field, t), other) == field_index(es, other),
        field_index(es, other) matches Some(j) ==> set_field_in(es, field, t)[j] == es[j],
    decreases es.len(),
{
    lemma_field_index(es, field);
    lemma_field_index(es, other);
    let r = set_field_in(es, field, t);
    match field_index(es, field) {
        Some(i) => {
            lemma_field_index_update(es, i, (field, t), other);
        },
        None => {
            assert(r.drop_last() =~= es);
        },
    }
}

proof fn lemma_field_index_update<T>(es: Seq<(FieldId, T)>, i: int, x: (FieldId, T), other: FieldId)
    requires
        0 <= i < es.len(),
        es[i].0 != other,
        x.0 != other,
    ensures
        field_index(es.update(i, x), other) == field_index(es, other),
    decreases es.len(),
{
    let u = es.update(i, x);
    if i < es.len() - 1 {
        assert(u.drop_last() =~= es.drop_last().update(i, x));
        assert(u.last() == es.last());
        if es.last().0 != other {
            lemma_field_index_update(es.drop_last(), i, x, other);
        }
    } else {
        assert(u.drop_last() =~= es.drop_last());
    }
}

} // verus!
