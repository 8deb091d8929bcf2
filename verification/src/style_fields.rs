//! Style vocabulary read by the element tree and the floating-layer code: the
//! overflow / floating / window-control keywords and their string parsers, the
//! keyword-valued style fields that layout decisions depend on, and which
//! composite style keys (read from several keys with a fixed precedence) a
//! style object holds.

use vstd::prelude::*;

use crate::text_util::{
    chars_match, chars_of, is_ws, lemma_words_blank, lemma_words_single, lemma_words_split, no_ws,
    split_words, str_eq, words,
};

verus! {

/// Overflow mode for a single axis (CSS `overflow-x` / `overflow-y`).
#[derive(Debug, Clone, Copy, PartialEq, Eq, Structural)]
pub enum OverflowMode {
    Visible,
    Hidden,
    Scroll,
}

impl OverflowMode {
    /// The keyword table: `visible`, `hidden`, `scroll` (exact, case-sensitive).
    pub open spec fn spec_parse(s: Seq<char>) -> Option<OverflowMode> {
        if s == "visible"@ {
            Some(OverflowMode::Visible)
        } else if s == "hidden"@ {
            Some(OverflowMode::Hidden)
        } else if s == "scroll"@ {
            Some(OverflowMode::Scroll)
        } else {
            None
        }
    }

    pub fn parse_chars(cs: &Vec<char>) -> (r: Option<OverflowMode>)
        ensures
            r == Self::spec_parse(cs@),
    {
        if chars_match(cs, "visible") {
            Some(OverflowMode::Visible)
        } else if chars_match(cs, "hidden") {
            Some(OverflowMode::Hidden)
        } else if chars_match(cs, "scroll") {
            Some(OverflowMode::Scroll)
        } else {
            None
        }
    }

    pub fn parse(s: &str) -> (r: Option<OverflowMode>)
        ensures
            r == Self::spec_parse(s@),
    {
        let cs = chars_of(s);
        Self::parse_chars(&cs)
    }
}

/// `a`, else `b`.
pub open spec fn or_mode(a: Option<OverflowMode>, b: Option<OverflowMode>) -> Option<OverflowMode> {
    match a {
        Some(m) => Some(m),
        None => b,
    }
}

/// The overflow of each axis: `overflowX` / `overflowY` where they name a
/// mode, else `overflow`.
pub fn resolve_overflow(both: Option<&str>, x: Option<&str>, y: Option<&str>) -> (r: (
    Option<OverflowMode>,
    Option<OverflowMode>,
))
    ensures
        ({
            let b = match both {
                Some(s) => OverflowMode::spec_parse(s@),
                None => None,
            };
            &&& r.0 == or_mode(
                match x {
                    Some(s) => OverflowMode::spec_parse(s@),
                    None => None,
                },
                b,
            )
            &&& r.1 == or_mode(
                match y {
                    Some(s) => OverflowMode::spec_parse(s@),
                    None => None,
                },
                b,
            )
        }),
{
    let b = match both {
        Some(s) => OverflowMode::parse(s),
        None => None,
    };
    let rx = match x {
        Some(s) => OverflowMode::parse(s),
        None => None,
    };
    let ry = match y {
        Some(s) => OverflowMode::parse(s),
        None => None,
    };
    (
        match rx {
            Some(m) => Some(m),
            None => b,
        },
        match ry {
            Some(m) => Some(m),
            None => b,
        },
    )
}

/// Which side of the anchor a floating element is placed on.
#[derive(Debug, Clone, Copy, PartialEq, Eq, Structural)]
pub enum FloatingSide {
    Top,
    Bottom,
    Left,
    Right,
}

impl FloatingSide {
    /// The keyword table: `top`, `bottom`, `left`, `right` (exact, case-sensitive).
    pub open spec fn spec_parse(s: Seq<char>) -> Option<FloatingSide> {
        if s == "top"@ {
            Some(FloatingSide::Top)
        } else if s == "bottom"@ {
            Some(FloatingSide::Bottom)
        } else if s == "left"@ {
            Some(FloatingSide::Left)
        } else if s == "right"@ {
            Some(FloatingSide::Right)
        } else {
            None
        }
    }

    pub fn parse_chars(cs: &Vec<char>) -> (r: Option<FloatingSide>)
        ensures
            r == Self::spec_parse(cs@),
    {
        if chars_match(cs, "top") {
            Some(FloatingSide::Top)
        } else if chars_match(cs, "bottom") {
            Some(FloatingSide::Bottom)
        } else if chars_match(cs, "left") {
            Some(FloatingSide::Left)
        } else if chars_match(cs, "right") {
            Some(FloatingSide::Right)
        } else {
            None
        }
    }

    pub fn parse(s: &str) -> (r: Option<FloatingSide>)
        ensures
            r == Self::spec_parse(s@),
    {
        let cs = chars_of(s);
        Self::parse_chars(&cs)
    }
}

/// Alignment of a floating element along the anchor's cross axis.
#[derive(Debug, Clone, Copy, PartialEq, Eq, Structural)]
pub enum FloatingAlign {
    Start,
    Center,
    End,
}

impl FloatingAlign {
    /// The keyword table: `start`, `center`, `end` (exact, case-sensitive).
    pub open spec fn spec_parse(s: Seq<char>) -> Option<FloatingAlign> {
        if s == "start"@ {
            Some(FloatingAlign::Start)
        } else if s == "center"@ {
            Some(FloatingAlign::Center)
        } else if s == "end"@ {
            Some(FloatingAlign::End)
        } else {
            None
        }
    }

    pub fn parse_chars(cs: &Vec<char>) -> (r: Option<FloatingAlign>)
        ensures
            r == Self::spec_parse(cs@),
    {
        if chars_match(cs, "start") {
            Some(FloatingAlign::Start)
        } else if chars_match(cs, "center") {
            Some(FloatingAlign::Center)
        } else if chars_match(cs, "end") {
            Some(FloatingAlign::End)
        } else {
            None
        }
    }

    pub fn parse(s: &str) -> (r: Option<FloatingAlign>)
        ensures
            r == Self::spec_parse(s@),
    {
        let cs = chars_of(s);
        Self::parse_chars(&cs)
    }
}

/// The side named by the first white-space separated word of an `area` string,
/// `Bottom` when that word is missing or unknown.
pub open spec fn spec_area_side(s: Seq<char>) -> FloatingSide {
    let w = words(s);
    if w.len() > 0 {
        match FloatingSide::spec_parse(w[0]) {
            Some(side) => side,
            None => FloatingSide::Bottom,
        }
    } else {
        FloatingSide::Bottom
    }
}

/// The alignment named by the second word of an `area` string, `Start` when
/// that word is missing or unknown.
pub open spec fn spec_area_align(s: Seq<char>) -> FloatingAlign {
    let w = words(s);
    if w.len() > 1 {
        match FloatingAlign::spec_parse(w[1]) {
            Some(align) => align,
            None => FloatingAlign::Start,
        }
    } else {
        FloatingAlign::Start
    }
}

/// `area` strings read as white-space separated words: `"<side> <align>"`
/// gives both; a single word gives the side with `Start`; a blank string
/// gives `(Bottom, Start)`; an unknown word gives that part's default.
pub proof fn lemma_floating_area_words(side: Seq<char>, sep: char, align: Seq<char>)
    requires
        side.len() > 0,
        no_ws(side),
        align.len() > 0,
        no_ws(align),
        is_ws(sep),
    ensures
        ({
            let s = side + seq![sep] + align;
            &&& spec_area_side(s) == match FloatingSide::spec_parse(side) {
                Some(x) => x,
                None => FloatingSide::Bottom,
            }
            &&& spec_area_align(s) == match FloatingAlign::spec_parse(align) {
                Some(x) => x,
                None => FloatingAlign::Start,
            }
        }),
        spec_area_side(side) == match FloatingSide::spec_parse(side) {
            Some(x) => x,
            None => FloatingSide::Bottom,
        },
        spec_area_align(side) == FloatingAlign::Start,
        spec_area_side(Seq::empty()) == FloatingSide::Bottom,
        spec_area_align(Seq::empty()) == FloatingAlign::Start,
{
    lemma_words_split(side, sep, align);
    lemma_words_single(side);
    lemma_words_single(align);
    lemma_words_blank(Seq::empty());
    let w = words(side + seq![sep] + align);
    assert(w =~= seq![side, align]);
}

/// Parse a floating `area` string: `"<side>"` or `"<side> <align>"`.
pub fn parse_floating_area(s: &str) -> (r: (FloatingSide, FloatingAlign))
    ensures
        r.0 == spec_area_side(s@),
        r.1 == spec_area_align(s@),
{
    let cs = chars_of(s);
    let w = split_words(&cs);
    let side = if w.len() > 0 {
        match FloatingSide::parse_chars(&w[0]) {
            Some(side) => side,
            None => FloatingSide::Bottom,
        }
    } else {
        FloatingSide::Bottom
    };
    let align = if w.len() > 1 {
        match FloatingAlign::parse_chars(&w[1]) {
            Some(align) => align,
            None => FloatingAlign::Start,
        }
    } else {
        FloatingAlign::Start
    };
    (side, align)
}

/// Custom-titlebar hit-test region named by the `windowControlArea` prop.
#[derive(Debug, Clone, Copy, PartialEq, Eq, Structural)]
pub enum WindowControlArea {
    Drag,
    Close,
    Max,
    Min,
}

/// The keyword table: `drag`, `close`, `max`, `min` (exact, case-sensitive).
pub open spec fn spec_window_control_area(s: Seq<char>) -> Option<WindowControlArea> {
    if s == "drag"@ {
        Some(WindowControlArea::Drag)
    } else if s == "close"@ {
        Some(WindowControlArea::Close)
    } else if s == "max"@ {
        Some(WindowControlArea::Max)
    } else if s == "min"@ {
        Some(WindowControlArea::Min)
    } else {
        None
    }
}

/// Parse the `windowControlArea` prop value.
pub fn parse_window_control_area(s: &str) -> (r: Option<WindowControlArea>)
    ensures
        r == spec_window_control_area(s@),
{
    let cs = chars_of(s);
    if chars_match(&cs, "drag") {
        Some(WindowControlArea::Drag)
    } else if chars_match(&cs, "close") {
        Some(WindowControlArea::Close)
    } else if chars_match(&cs, "max") {
        Some(WindowControlArea::Max)
    } else if chars_match(&cs, "min") {
        Some(WindowControlArea::Min)
    } else {
        None
    }
}

/// The keyword-valued style fields that tree-level decisions read: `display`,
/// `visibility` and `position` (tab order, occlusion) and the two overflow
/// axes (whether an element scrolls). Numeric and colour fields live with the
/// renderer.
#[derive(Debug, Clone)]
pub struct StyleFields {
    pub display: Option<String>,
    pub visibility: Option<String>,
    pub position: Option<String>,
    pub overflow_x: Option<OverflowMode>,
    pub overflow_y: Option<OverflowMode>,
}

/// All fields unset.
pub open spec fn unset_style() -> StyleFields {
    StyleFields {
        display: None,
        visibility: None,
        position: None,
        overflow_x: None,
        overflow_y: None,
    }
}

impl Default for StyleFields {
    fn default() -> (r: StyleFields)
        ensures
            r == unset_style(),
    {
        StyleFields {
            display: None,
            visibility: None,
            position: None,
            overflow_x: None,
            overflow_y: None,
        }
    }
}

impl StyleFields {
    /// Either axis requests scrolling.
    pub open spec fn spec_scrolls(&self) -> bool {
        self.overflow_x == Some(OverflowMode::Scroll) || self.overflow_y == Some(
            OverflowMode::Scroll,
        )
    }

    /// Returns true when either axis requests scrolling.
    pub fn scrolls(&self) -> (r: bool)
        ensures
            r == self.spec_scrolls(),
    {
        let x = match self.overflow_x {
            Some(OverflowMode::Scroll) => true,
            _ => false,
        };
        let y = match self.overflow_y {
            Some(OverflowMode::Scroll) => true,
            _ => false,
        };
        x || y
    }
}

/// Which composite style fields (those read from several keys with a fixed
/// precedence) appeared in any source object.
#[derive(Debug, Clone, Copy, PartialEq, Eq, Structural)]
pub struct CompositeSeen {
    pub flex: bool,
    pub overflow: bool,
    pub grid_col: bool,
    pub grid_row: bool,
    pub box_shadow: bool,
    pub font_weight: bool,
    pub line_height: bool,
    pub font_features: bool,
}

/// The composite field a style key belongs to.
#[derive(Debug, Clone, Copy, PartialEq, Eq, Structural)]
pub enum Composite {
    Flex,
    Overflow,
    GridColumn,
    GridRow,
    BoxShadow,
    FontWeight,
    LineHeight,
    FontFeatures,
}

/// The composite field of `key`, if it is one of the composite keys.
pub open spec fn spec_composite_of(key: Seq<char>) -> Option<Composite> {
    if key == "flex"@ {
        Some(Composite::Flex)
    } else if key == "overflow"@ || key == "overflowX"@ || key == "overflowY"@ {
        Some(Composite::Overflow)
    } else if key == "gridColumn"@ || key == "gridColumnStart"@ || key == "gridColumnEnd"@ || key
        == "gridColumnSpan"@ {
        Some(Composite::GridColumn)
    } else if key == "gridRow"@ || key == "gridRowStart"@ || key == "gridRowEnd"@ || key == "gridRowSpan"@ {
        Some(Composite::GridRow)
    } else if key == "boxShadow"@ {
        Some(Composite::BoxShadow)
    } else if key == "fontWeight"@ {
        Some(Composite::FontWeight)
    } else if key == "lineHeight"@ {
        Some(Composite::LineHeight)
    } else if key == "fontFeatures"@ {
        Some(Composite::FontFeatures)
    } else {
        None
    }
}

impl CompositeSeen {
    pub fn new() -> (r: Self)
        ensures
            !r.any(),
    {
        CompositeSeen {
            flex: false,
            overflow: false,
            grid_col: false,
            grid_row: false,
            box_shadow: false,
            font_weight: false,
            line_height: false,
            font_features: false,
        }
    }

    pub open spec fn any(self) -> bool {
        self.flex || self.overflow || self.grid_col || self.grid_row || self.box_shadow || self.font_weight
            || self.line_height || self.font_features
    }

    /// Whether any composite key was seen.
    pub fn any_seen(&self) -> (r: bool)
        ensures
            r == self.any(),
    {
        self.flex || self.overflow || self.grid_col || self.grid_row || self.box_shadow || self.font_weight
            || self.line_height || self.font_features
    }

    /// `self` with the flag of `c` set.
    pub open spec fn with(self, c: Composite) -> Self {
        match c {
            Composite::Flex => CompositeSeen { flex: true, ..self },
            Composite::Overflow => CompositeSeen { overflow: true, ..self },
            Composite::GridColumn => CompositeSeen { grid_col: true, ..self },
            Composite::GridRow => CompositeSeen { grid_row: true, ..self },
            Composite::BoxShadow => CompositeSeen { box_shadow: true, ..self },
            Composite::FontWeight => CompositeSeen { font_weight: true, ..self },
            Composite::LineHeight => CompositeSeen { line_height: true, ..self },
            Composite::FontFeatures => CompositeSeen { font_features: true, ..self },
        }
    }
}

/// Record `key` if it is a composite key; `true` tells the caller to skip
/// the simple-field path for it.
pub fn mark_composite(seen: &mut CompositeSeen, key: &str) -> (r: bool)
    ensures
        r == spec_composite_of(key@) is Some,
        *final(seen) == (match spec_composite_of(key@) {
            Some(c) => old(seen).with(c),
            None => *old(seen),
        }),
{
    if str_eq(key, "flex") {
        seen.flex = true;
    } else if str_eq(key, "overflow") || str_eq(key, "overflowX") || str_eq(key, "overflowY") {
        seen.overflow = true;
    } else if str_eq(key, "gridColumn") || str_eq(key, "gridColumnStart") || str_eq(key, "gridColumnEnd")
        || str_eq(key, "gridColumnSpan") {
        seen.grid_col = true;
    } else if str_eq(key, "gridRow") || str_eq(key, "gridRowStart") || str_eq(key, "gridRowEnd") || str_eq(
        key,
        "gridRowSpan",
    ) {
        seen.grid_row = true;
    } else if str_eq(key, "boxShadow") {
        seen.box_shadow = true;
    } else if str_eq(key, "fontWeight") {
        seen.font_weight = true;
    } else if str_eq(key, "lineHeight") {
        seen.line_height = true;
    } else if str_eq(key, "fontFeatures") {
        seen.font_features = true;
    } else {
        return false;
    }
    true
}

} // verus!
