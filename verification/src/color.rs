//! CSS colour strings: which form a colour is written in (`#` hex, the
//! `rgb()` / `rgba()` / `hsl()` / `hsla()` functions with their argument
//! texts, or one of the 148 CSS Level 4 named colours plus `transparent`,
//! matched ignoring ASCII case). Turning hex digits and channel numbers into
//! colour components is left to the renderer.

use vstd::prelude::*;

use crate::text_util::{
    ascii_lower_seq, chars_match, chars_of, find_char_in, first_index, lower_chars, range_matches,
    split_char_in, split_on, trim, trim_bounds,
};

verus! {

/// A colour named by a CSS keyword.
#[derive(Debug, Clone, Copy, PartialEq, Eq, Structural)]
pub enum NamedColor {
    /// Fully transparent black.
    Transparent,
    /// An opaque colour as `0xRRGGBB`.
    Rgb(u32),
}

/// The keyword table, looked up on the ASCII-lower-cased name.
pub open spec fn spec_named_color(name: Seq<char>) -> Option<NamedColor> {
    let t = ascii_lower_seq(name);
    if t == "transparent"@ {
        Some(NamedColor::Transparent)
    } else if t == "aliceblue"@ {
        Some(NamedColor::Rgb(0xf0f8ff))
    } else if t == "antiquewhite"@ {
        Some(NamedColor::Rgb(0xfaebd7))
    } else if t == "aqua"@ {
        Some(NamedColor::Rgb(0x00ffff))
    } else if t == "cyan"@ {
        Some(NamedColor::Rgb(0x00ffff))
    } else if t == "aquamarine"@ {
        Some(NamedColor::Rgb(0x7fffd4))
    } else if t == "azure"@ {
        Some(NamedColor::Rgb(0xf0ffff))
    } else if t == "beige"@ {
        Some(NamedColor::Rgb(0xf5f5dc))
    } else if t == "bisque"@ {
        Some(NamedColor::Rgb(0xffe4c4))
    } else if t == "black"@ {
        Some(NamedColor::Rgb(0x000000))
    } else if t == "blanchedalmond"@ {
        Some(NamedColor::Rgb(0xffebcd))
    } else if t == "blue"@ {
        Some(NamedColor::Rgb(0x0000ff))
    } else if t == "blueviolet"@ {
        Some(NamedColor::Rgb(0x8a2be2))
    } else if t == "brown"@ {
        Some(NamedColor::Rgb(0xa52a2a))
    } else if t == "burlywood"@ {
        Some(NamedColor::Rgb(0xdeb887))
    } else if t == "cadetblue"@ {
        Some(NamedColor::Rgb(0x5f9ea0))
    } else if t == "chartreuse"@ {
        Some(NamedColor::Rgb(0x7fff00))
    } else if t == "chocolate"@ {
        Some(NamedColor::Rgb(0xd2691e))
    } else if t == "coral"@ {
        Some(NamedColor::Rgb(0xff7f50))
    } else if t == "cornflowerblue"@ {
        Some(NamedColor::Rgb(0x6495ed))
    } else if t == "cornsilk"@ {
        Some(NamedColor::Rgb(0xfff8dc))
    } else if t == "crimson"@ {
        Some(NamedColor::Rgb(0xdc143c))
    } else if t == "darkblue"@ {
        Some(NamedColor::Rgb(0x00008b))
    } else if t == "darkcyan"@ {
        Some(NamedColor::Rgb(0x008b8b))
    } else if t == "darkgoldenrod"@ {
        Some(NamedColor::Rgb(0xb8860b))
    } else if t == "darkgray"@ {
        Some(NamedColor::Rgb(0xa9a9a9))
    } else if t == "darkgrey"@ {
        Some(NamedColor::Rgb(0xa9a9a9))
    } else if t == "darkgreen"@ {
        Some(NamedColor::Rgb(0x006400))
    } else if t == "darkkhaki"@ {
        Some(NamedColor::Rgb(0xbdb76b))
    } else if t == "darkmagenta"@ {
        Some(NamedColor::Rgb(0x8b008b))
    } else if t == "darkolivegreen"@ {
        Some(NamedColor::Rgb(0x556b2f))
    } else if t == "darkorange"@ {
        Some(NamedColor::Rgb(0xff8c00))
    } else if t == "darkorchid"@ {
        Some(NamedColor::Rgb(0x9932cc))
    } else if t == "darkred"@ {
        Some(NamedColor::Rgb(0x8b0000))
    } else if t == "darksalmon"@ {
        Some(NamedColor::Rgb(0xe9967a))
    } else if t == "darkseagreen"@ {
        Some(NamedColor::Rgb(0x8fbc8f))
    } else if t == "darkslateblue"@ {
        Some(NamedColor::Rgb(0x483d8b))
    } else if t == "darkslategray"@ {
        Some(NamedColor::Rgb(0x2f4f4f))
    } else if t == "darkslategrey"@ {
        Some(NamedColor::Rgb(0x2f4f4f))
    } else if t == "darkturquoise"@ {
        Some(NamedColor::Rgb(0x00ced1))
    } else if t == "darkviolet"@ {
        Some(NamedColor::Rgb(0x9400d3))
    } else if t == "deeppink"@ {
        Some(NamedColor::Rgb(0xff1493))
    } else if t == "deepskyblue"@ {
        Some(NamedColor::Rgb(0x00bfff))
    } else if t == "dimgray"@ {
        Some(NamedColor::Rgb(0x696969))
    } else if t == "dimgrey"@ {
        Some(NamedColor::Rgb(0x696969))
    } else if t == "dodgerblue"@ {
        Some(NamedColor::Rgb(0x1e90ff))
    } else if t == "firebrick"@ {
        Some(NamedColor::Rgb(0xb22222))
    } else if t == "floralwhite"@ {
        Some(NamedColor::Rgb(0xfffaf0))
    } else if t == "forestgreen"@ {
        Some(NamedColor::Rgb(0x228b22))
    } else if t == "fuchsia"@ {
        Some(NamedColor::Rgb(0xff00ff))
    } else if t == "magenta"@ {
        Some(NamedColor::Rgb(0xff00ff))
    } else if t == "gainsboro"@ {
        Some(NamedColor::Rgb(0xdcdcdc))
    } else if t == "ghostwhite"@ {
        Some(NamedColor::Rgb(0xf8f8ff))
    } else if t == "gold"@ {
        Some(NamedColor::Rgb(0xffd700))
    } else if t == "goldenrod"@ {
        Some(NamedColor::Rgb(0xdaa520))
    } else if t == "gray"@ {
        Some(NamedColor::Rgb(0x808080))
    } else if t == "grey"@ {
        Some(NamedColor::Rgb(0x808080))
    } else if t == "green"@ {
        Some(NamedColor::Rgb(0x008000))
    } else if t == "greenyellow"@ {
        Some(NamedColor::Rgb(0xadff2f))
    } else if t == "honeydew"@ {
        Some(NamedColor::Rgb(0xf0fff0))
    } else if t == "hotpink"@ {
        Some(NamedColor::Rgb(0xff69b4))
    } else if t == "indianred"@ {
        Some(NamedColor::Rgb(0xcd5c5c))
    } else if t == "indigo"@ {
        Some(NamedColor::Rgb(0x4b0082))
    } else if t == "ivory"@ {
        Some(NamedColor::Rgb(0xfffff0))
    } else if t == "khaki"@ {
        Some(NamedColor::Rgb(0xf0e68c))
    } else if t == "lavender"@ {
        Some(NamedColor::Rgb(0xe6e6fa))
    } else if t == "lavenderblush"@ {
        Some(NamedColor::Rgb(0xfff0f5))
    } else if t == "lawngreen"@ {
        Some(NamedColor::Rgb(0x7cfc00))
    } else if t == "lemonchiffon"@ {
        Some(NamedColor::Rgb(0xfffacd))
    } else if t == "lightblue"@ {
        Some(NamedColor::Rgb(0xadd8e6))
    } else if t == "lightcoral"@ {
        Some(NamedColor::Rgb(0xf08080))
    } else if t == "lightcyan"@ {
        Some(NamedColor::Rgb(0xe0ffff))
    } else if t == "lightgoldenrodyellow"@ {
        Some(NamedColor::Rgb(0xfafad2))
    } else if t == "lightgray"@ {
        Some(NamedColor::Rgb(0xd3d3d3))
    } else if t == "lightgrey"@ {
        Some(NamedColor::Rgb(0xd3d3d3))
    } else if t == "lightgreen"@ {
        Some(NamedColor::Rgb(0x90ee90))
    } else if t == "lightpink"@ {
        Some(NamedColor::Rgb(0xffb6c1))
    } else if t == "lightsalmon"@ {
        Some(NamedColor::Rgb(0xffa07a))
    } else if t == "lightseagreen"@ {
        Some(NamedColor::Rgb(0x20b2aa))
    } else if t == "lightskyblue"@ {
        Some(NamedColor::Rgb(0x87cefa))
    } else if t == "lightslategray"@ {
        Some(NamedColor::Rgb(0x778899))
    } else if t == "lightslategrey"@ {
        Some(NamedColor::Rgb(0x778899))
    } else if t == "lightsteelblue"@ {
        Some(NamedColor::Rgb(0xb0c4de))
    } else if t == "lightyellow"@ {
        Some(NamedColor::Rgb(0xffffe0))
    } else if t == "lime"@ {
        Some(NamedColor::Rgb(0x00ff00))
    } else if t == "limegreen"@ {
        Some(NamedColor::Rgb(0x32cd32))
    } else if t == "linen"@ {
        Some(NamedColor::Rgb(0xfaf0e6))
    } else if t == "maroon"@ {
        Some(NamedColor::Rgb(0x800000))
    } else if t == "mediumaquamarine"@ {
        Some(NamedColor::Rgb(0x66cdaa))
    } else if t == "mediumblue"@ {
        Some(NamedColor::Rgb(0x0000cd))
    } else if t == "mediumorchid"@ {
        Some(NamedColor::Rgb(0xba55d3))
    } else if t == "mediumpurple"@ {
        Some(NamedColor::Rgb(0x9370db))
    } else if t == "mediumseagreen"@ {
        Some(NamedColor::Rgb(0x3cb371))
    } else if t == "mediumslateblue"@ {
        Some(NamedColor::Rgb(0x7b68ee))
    } else if t == "mediumspringgreen"@ {
        Some(NamedColor::Rgb(0x00fa9a))
    } else if t == "mediumturquoise"@ {
        Some(NamedColor::Rgb(0x48d1cc))
    } else if t == "mediumvioletred"@ {
        Some(NamedColor::Rgb(0xc71585))
    } else if t == "midnightblue"@ {
        Some(NamedColor::Rgb(0x191970))
    } else if t == "mintcream"@ {
        Some(NamedColor::Rgb(0xf5fffa))
    } else if t == "mistyrose"@ {
        Some(NamedColor::Rgb(0xffe4e1))
    } else if t == "moccasin"@ {
        Some(NamedColor::Rgb(0xffe4b5))
    } else if t == "navajowhite"@ {
        Some(NamedColor::Rgb(0xffdead))
    } else if t == "navy"@ {
        Some(NamedColor::Rgb(0x000080))
    } else if t == "oldlace"@ {
        Some(NamedColor::Rgb(0xfdf5e6))
    } else if t == "olive"@ {
        Some(NamedColor::Rgb(0x808000))
    } else if t == "olivedrab"@ {
        Some(NamedColor::Rgb(0x6b8e23))
    } else if t == "orange"@ {
        Some(NamedColor::Rgb(0xffa500))
    } else if t == "orangered"@ {
        Some(NamedColor::Rgb(0xff4500))
    } else if t == "orchid"@ {
        Some(NamedColor::Rgb(0xda70d6))
    } else if t == "palegoldenrod"@ {
        Some(NamedColor::Rgb(0xeee8aa))
    } else if t == "palegreen"@ {
        Some(NamedColor::Rgb(0x98fb98))
    } else if t == "paleturquoise"@ {
        Some(NamedColor::Rgb(0xafeeee))
    } else if t == "palevioletred"@ {
        Some(NamedColor::Rgb(0xdb7093))
    } else if t == "papayawhip"@ {
        Some(NamedColor::Rgb(0xffefd5))
    } else if t == "peachpuff"@ {
        Some(NamedColor::Rgb(0xffdab9))
    } else if t == "peru"@ {
        Some(NamedColor::Rgb(0xcd853f))
    } else if t == "pink"@ {
        Some(NamedColor::Rgb(0xffc0cb))
    } else if t == "plum"@ {
        Some(NamedColor::Rgb(0xdda0dd))
    } else if t == "powderblue"@ {
        Some(NamedColor::Rgb(0xb0e0e6))
    } else if t == "purple"@ {
        Some(NamedColor::Rgb(0x800080))
    } else if t == "rebeccapurple"@ {
        Some(NamedColor::Rgb(0x663399))
    } else if t == "red"@ {
        Some(NamedColor::Rgb(0xff0000))
    } else if t == "rosybrown"@ {
        Some(NamedColor::Rgb(0xbc8f8f))
    } else if t == "royalblue"@ {
        Some(NamedColor::Rgb(0x4169e1))
    } else if t == "saddlebrown"@ {
        Some(NamedColor::Rgb(0x8b4513))
    } else if t == "salmon"@ {
        Some(NamedColor::Rgb(0xfa8072))
    } else if t == "sandybrown"@ {
        Some(NamedColor::Rgb(0xf4a460))
    } else if t == "seagreen"@ {
        Some(NamedColor::Rgb(0x2e8b57))
    } else if t == "seashell"@ {
        Some(NamedColor::Rgb(0xfff5ee))
    } else if t == "sienna"@ {
        Some(NamedColor::Rgb(0xa0522d))
    } else if t == "silver"@ {
        Some(NamedColor::Rgb(0xc0c0c0))
    } else if t == "skyblue"@ {
        Some(NamedColor::Rgb(0x87ceeb))
    } else if t == "slateblue"@ {
        Some(NamedColor::Rgb(0x6a5acd))
    } else if t == "slategray"@ {
        Some(NamedColor::Rgb(0x708090))
    } else if t == "slategrey"@ {
        Some(NamedColor::Rgb(0x708090))
    } else if t == "snow"@ {
        Some(NamedColor::Rgb(0xfffafa))
    } else if t == "springgreen"@ {
        Some(NamedColor::Rgb(0x00ff7f))
    } else if t == "steelblue"@ {
        Some(NamedColor::Rgb(0x4682b4))
    } else if t == "tan"@ {
        Some(NamedColor::Rgb(0xd2b48c))
    } else if t == "teal"@ {
        Some(NamedColor::Rgb(0x008080))
    } else if t == "thistle"@ {
        Some(NamedColor::Rgb(0xd8bfd8))
    } else if t == "tomato"@ {
        Some(NamedColor::Rgb(0xff6347))
    } else if t == "turquoise"@ {
        Some(NamedColor::Rgb(0x40e0d0))
    } else if t == "violet"@ {
        Some(NamedColor::Rgb(0xee82ee))
    } else if t == "wheat"@ {
        Some(NamedColor::Rgb(0xf5deb3))
    } else if t == "white"@ {
        Some(NamedColor::Rgb(0xffffff))
    } else if t == "whitesmoke"@ {
        Some(NamedColor::Rgb(0xf5f5f5))
    } else if t == "yellow"@ {
        Some(NamedColor::Rgb(0xffff00))
    } else if t == "yellowgreen"@ {
        Some(NamedColor::Rgb(0x9acd32))
    } else {
        None
    }
}

/// Resolve a CSS named colour, ignoring ASCII case.
#[verifier::rlimit(50)]
pub fn parse_named_color(name: &str) -> (r: Option<NamedColor>)
    ensures
        r == spec_named_color(name@),
{
    let cs = chars_of(name);
    let t = lower_chars(&cs);
    if chars_match(&t, "transparent") {
        Some(NamedColor::Transparent)
    } else if chars_match(&t, "aliceblue") {
        Some(NamedColor::Rgb(0xf0f8ff))
    } else if chars_match(&t, "antiquewhite") {
        Some(NamedColor::Rgb(0xfaebd7))
    } else if chars_match(&t, "aqua") {
        Some(NamedColor::Rgb(0x00ffff))
    } else if chars_match(&t, "cyan") {
        Some(NamedColor::Rgb(0x00ffff))
    } else if chars_match(&t, "aquamarine") {
        Some(NamedColor::Rgb(0x7fffd4))
    } else if chars_match(&t, "azure") {
        Some(NamedColor::Rgb(0xf0ffff))
    } else if chars_match(&t, "beige") {
        Some(NamedColor::Rgb(0xf5f5dc))
    } else if chars_match(&t, "bisque") {
        Some(NamedColor::Rgb(0xffe4c4))
    } else if chars_match(&t, "black") {
        Some(NamedColor::Rgb(0x000000))
    } else if chars_match(&t, "blanchedalmond") {
        Some(NamedColor::Rgb(0xffebcd))
    } else if chars_match(&t, "blue") {
        Some(NamedColor::Rgb(0x0000ff))
    } else if chars_match(&t, "blueviolet") {
        Some(NamedColor::Rgb(0x8a2be2))
    } else if chars_match(&t, "brown") {
        Some(NamedColor::Rgb(0xa52a2a))
    } else if chars_match(&t, "burlywood") {
        Some(NamedColor::Rgb(0xdeb887))
    } else if chars_match(&t, "cadetblue") {
        Some(NamedColor::Rgb(0x5f9ea0))
    } else if chars_match(&t, "chartreuse") {
        Some(NamedColor::Rgb(0x7fff00))
    } else if chars_match(&t, "chocolate") {
        Some(NamedColor::Rgb(0xd2691e))
    } else if chars_match(&t, "coral") {
        Some(NamedColor::Rgb(0xff7f50))
    } else if chars_match(&t, "cornflowerblue") {
        Some(NamedColor::Rgb(0x6495ed))
    } else if chars_match(&t, "cornsilk") {
        Some(NamedColor::Rgb(0xfff8dc))
    } else if chars_match(&t, "crimson") {
        Some(NamedColor::Rgb(0xdc143c))
    } else if chars_match(&t, "darkblue") {
        Some(NamedColor::Rgb(0x00008b))
    } else if chars_match(&t, "darkcyan") {
        Some(NamedColor::Rgb(0x008b8b))
    } else if chars_match(&t, "darkgoldenrod") {
        Some(NamedColor::Rgb(0xb8860b))
    } else if chars_match(&t, "darkgray") {
        Some(NamedColor::Rgb(0xa9a9a9))
    } else if chars_match(&t, "darkgrey") {
        Some(NamedColor::Rgb(0xa9a9a9))
    } else if chars_match(&t, "darkgreen") {
        Some(NamedColor::Rgb(0x006400))
    } else if chars_match(&t, "darkkhaki") {
        Some(NamedColor::Rgb(0xbdb76b))
    } else if chars_match(&t, "darkmagenta") {
        Some(NamedColor::Rgb(0x8b008b))
    } else if chars_match(&t, "darkolivegreen") {
        Some(NamedColor::Rgb(0x556b2f))
    } else if chars_match(&t, "darkorange") {
        Some(NamedColor::Rgb(0xff8c00))
    } else if chars_match(&t, "darkorchid") {
        Some(NamedColor::Rgb(0x9932cc))
    } else if chars_match(&t, "darkred") {
        Some(NamedColor::Rgb(0x8b0000))
    } else if chars_match(&t, "darksalmon") {
        Some(NamedColor::Rgb(0xe9967a))
    } else if chars_match(&t, "darkseagreen") {
        Some(NamedColor::Rgb(0x8fbc8f))
    } else if chars_match(&t, "darkslateblue") {
        Some(NamedColor::Rgb(0x483d8b))
    } else if chars_match(&t, "darkslategray") {
        Some(NamedColor::Rgb(0x2f4f4f))
    } else if chars_match(&t, "darkslategrey") {
        Some(NamedColor::Rgb(0x2f4f4f))
    } else if chars_match(&t, "darkturquoise") {
        Some(NamedColor::Rgb(0x00ced1))
    } else if chars_match(&t, "darkviolet") {
        Some(NamedColor::Rgb(0x9400d3))
    } else if chars_match(&t, "deeppink") {
        Some(NamedColor::Rgb(0xff1493))
    } else if chars_match(&t, "deepskyblue") {
        Some(NamedColor::Rgb(0x00bfff))
    } else if chars_match(&t, "dimgray") {
        Some(NamedColor::Rgb(0x696969))
    } else if chars_match(&t, "dimgrey") {
        Some(NamedColor::Rgb(0x696969))
    } else if chars_match(&t, "dodgerblue") {
        Some(NamedColor::Rgb(0x1e90ff))
    } else if chars_match(&t, "firebrick") {
        Some(NamedColor::Rgb(0xb22222))
    } else if chars_match(&t, "floralwhite") {
        Some(NamedColor::Rgb(0xfffaf0))
    } else if chars_match(&t, "forestgreen") {
        Some(NamedColor::Rgb(0x228b22))
    } else if chars_match(&t, "fuchsia") {
        Some(NamedColor::Rgb(0xff00ff))
    } else if chars_match(&t, "magenta") {
        Some(NamedColor::Rgb(0xff00ff))
    } else if chars_match(&t, "gainsboro") {
        Some(NamedColor::Rgb(0xdcdcdc))
    } else if chars_match(&t, "ghostwhite") {
        Some(NamedColor::Rgb(0xf8f8ff))
    } else if chars_match(&t, "gold") {
        Some(NamedColor::Rgb(0xffd700))
    } else if chars_match(&t, "goldenrod") {
        Some(NamedColor::Rgb(0xdaa520))
    } else if chars_match(&t, "gray") {
        Some(NamedColor::Rgb(0x808080))
    } else if chars_match(&t, "grey") {
        Some(NamedColor::Rgb(0x808080))
    } else if chars_match(&t, "green") {
        Some(NamedColor::Rgb(0x008000))
    } else if chars_match(&t, "greenyellow") {
        Some(NamedColor::Rgb(0xadff2f))
    } else if chars_match(&t, "honeydew") {
        Some(NamedColor::Rgb(0xf0fff0))
    } else if chars_match(&t, "hotpink") {
        Some(NamedColor::Rgb(0xff69b4))
    } else if chars_match(&t, "indianred") {
        Some(NamedColor::Rgb(0xcd5c5c))
    } else if chars_match(&t, "indigo") {
        Some(NamedColor::Rgb(0x4b0082))
    } else if chars_match(&t, "ivory") {
        Some(NamedColor::Rgb(0xfffff0))
    } else if chars_match(&t, "khaki") {
        Some(NamedColor::Rgb(0xf0e68c))
    } else if chars_match(&t, "lavender") {
        Some(NamedColor::Rgb(0xe6e6fa))
    } else if chars_match(&t, "lavenderblush") {
        Some(NamedColor::Rgb(0xfff0f5))
    } else if chars_match(&t, "lawngreen") {
        Some(NamedColor::Rgb(0x7cfc00))
    } else if chars_match(&t, "lemonchiffon") {
        Some(NamedColor::Rgb(0xfffacd))
    } else if chars_match(&t, "lightblue") {
        Some(NamedColor::Rgb(0xadd8e6))
    } else if chars_match(&t, "lightcoral") {
        Some(NamedColor::Rgb(0xf08080))
    } else if chars_match(&t, "lightcyan") {
        Some(NamedColor::Rgb(0xe0ffff))
    } else if chars_match(&t, "lightgoldenrodyellow") {
        Some(NamedColor::Rgb(0xfafad2))
    } else if chars_match(&t, "lightgray") {
        Some(NamedColor::Rgb(0xd3d3d3))
    } else if chars_match(&t, "lightgrey") {
        Some(NamedColor::Rgb(0xd3d3d3))
    } else if chars_match(&t, "lightgreen") {
        Some(NamedColor::Rgb(0x90ee90))
    } else if chars_match(&t, "lightpink") {
        Some(NamedColor::Rgb(0xffb6c1))
    } else if chars_match(&t, "lightsalmon") {
        Some(NamedColor::Rgb(0xffa07a))
    } else if chars_match(&t, "lightseagreen") {
        Some(NamedColor::Rgb(0x20b2aa))
    } else if chars_match(&t, "lightskyblue") {
        Some(NamedColor::Rgb(0x87cefa))
    } else if chars_match(&t, "lightslategray") {
        Some(NamedColor::Rgb(0x778899))
    } else if chars_match(&t, "lightslategrey") {
        Some(NamedColor::Rgb(0x778899))
    } else if chars_match(&t, "lightsteelblue") {
        Some(NamedColor::Rgb(0xb0c4de))
    } else if chars_match(&t, "lightyellow") {
        Some(NamedColor::Rgb(0xffffe0))
    } else if chars_match(&t, "lime") {
        Some(NamedColor::Rgb(0x00ff00))
    } else if chars_match(&t, "limegreen") {
        Some(NamedColor::Rgb(0x32cd32))
    } else if chars_match(&t, "linen") {
        Some(NamedColor::Rgb(0xfaf0e6))
    } else if chars_match(&t, "maroon") {
        Some(NamedColor::Rgb(0x800000))
    } else if chars_match(&t, "mediumaquamarine") {
        Some(NamedColor::Rgb(0x66cdaa))
    } else if chars_match(&t, "mediumblue") {
        Some(NamedColor::Rgb(0x0000cd))
    } else if chars_match(&t, "mediumorchid") {
        Some(NamedColor::Rgb(0xba55d3))
    } else if chars_match(&t, "mediumpurple") {
        Some(NamedColor::Rgb(0x9370db))
    } else if chars_match(&t, "mediumseagreen") {
        Some(NamedColor::Rgb(0x3cb371))
    } else if chars_match(&t, "mediumslateblue") {
        Some(NamedColor::Rgb(0x7b68ee))
    } else if chars_match(&t, "mediumspringgreen") {
        Some(NamedColor::Rgb(0x00fa9a))
    } else if chars_match(&t, "mediumturquoise") {
        Some(NamedColor::Rgb(0x48d1cc))
    } else if chars_match(&t, "mediumvioletred") {
        Some(NamedColor::Rgb(0xc71585))
    } else if chars_match(&t, "midnightblue") {
        Some(NamedColor::Rgb(0x191970))
    } else if chars_match(&t, "mintcream") {
        Some(NamedColor::Rgb(0xf5fffa))
    } else if chars_match(&t, "mistyrose") {
        Some(NamedColor::Rgb(0xffe4e1))
    } else if chars_match(&t, "moccasin") {
        Some(NamedColor::Rgb(0xffe4b5))
    } else if chars_match(&t, "navajowhite") {
        Some(NamedColor::Rgb(0xffdead))
    } else if chars_match(&t, "navy") {
        Some(NamedColor::Rgb(0x000080))
    } else if chars_match(&t, "oldlace") {
        Some(NamedColor::Rgb(0xfdf5e6))
    } else if chars_match(&t, "olive") {
        Some(NamedColor::Rgb(0x808000))
    } else if chars_match(&t, "olivedrab") {
        Some(NamedColor::Rgb(0x6b8e23))
    } else if chars_match(&t, "orange") {
        Some(NamedColor::Rgb(0xffa500))
    } else if chars_match(&t, "orangered") {
        Some(NamedColor::Rgb(0xff4500))
    } else if chars_match(&t, "orchid") {
        Some(NamedColor::Rgb(0xda70d6))
    } else if chars_match(&t, "palegoldenrod") {
        Some(NamedColor::Rgb(0xeee8aa))
    } else if chars_match(&t, "palegreen") {
        Some(NamedColor::Rgb(0x98fb98))
    } else if chars_match(&t, "paleturquoise") {
        Some(NamedColor::Rgb(0xafeeee))
    } else if chars_match(&t, "palevioletred") {
        Some(NamedColor::Rgb(0xdb7093))
    } else if chars_match(&t, "papayawhip") {
        Some(NamedColor::Rgb(0xffefd5))
    } else if chars_match(&t, "peachpuff") {
        Some(NamedColor::Rgb(0xffdab9))
    } else if chars_match(&t, "peru") {
        Some(NamedColor::Rgb(0xcd853f))
    } else if chars_match(&t, "pink") {
        Some(NamedColor::Rgb(0xffc0cb))
    } else if chars_match(&t, "plum") {
        Some(NamedColor::Rgb(0xdda0dd))
    } else if chars_match(&t, "powderblue") {
        Some(NamedColor::Rgb(0xb0e0e6))
    } else if chars_match(&t, "purple") {
        Some(NamedColor::Rgb(0x800080))
    } else if chars_match(&t, "rebeccapurple") {
        Some(NamedColor::Rgb(0x663399))
    } else if chars_match(&t, "red") {
        Some(NamedColor::Rgb(0xff0000))
    } else if chars_match(&t, "rosybrown") {
        Some(NamedColor::Rgb(0xbc8f8f))
    } else if chars_match(&t, "royalblue") {
        Some(NamedColor::Rgb(0x4169e1))
    } else if chars_match(&t, "saddlebrown") {
        Some(NamedColor::Rgb(0x8b4513))
    } else if chars_match(&t, "salmon") {
        Some(NamedColor::Rgb(0xfa8072))
    } else if chars_match(&t, "sandybrown") {
        Some(NamedColor::Rgb(0xf4a460))
    } else if chars_match(&t, "seagreen") {
        Some(NamedColor::Rgb(0x2e8b57))
    } else if chars_match(&t, "seashell") {
        Some(NamedColor::Rgb(0xfff5ee))
    } else if chars_match(&t, "sienna") {
        Some(NamedColor::Rgb(0xa0522d))
    } else if chars_match(&t, "silver") {
        Some(NamedColor::Rgb(0xc0c0c0))
    } else if chars_match(&t, "skyblue") {
        Some(NamedColor::Rgb(0x87ceeb))
    } else if chars_match(&t, "slateblue") {
        Some(NamedColor::Rgb(0x6a5acd))
    } else if chars_match(&t, "slategray") {
        Some(NamedColor::Rgb(0x708090))
    } else if chars_match(&t, "slategrey") {
        Some(NamedColor::Rgb(0x708090))
    } else if chars_match(&t, "snow") {
        Some(NamedColor::Rgb(0xfffafa))
    } else if chars_match(&t, "springgreen") {
        Some(NamedColor::Rgb(0x00ff7f))
    } else if chars_match(&t, "steelblue") {
        Some(NamedColor::Rgb(0x4682b4))
    } else if chars_match(&t, "tan") {
        Some(NamedColor::Rgb(0xd2b48c))
    } else if chars_match(&t, "teal") {
        Some(NamedColor::Rgb(0x008080))
    } else if chars_match(&t, "thistle") {
        Some(NamedColor::Rgb(0xd8bfd8))
    } else if chars_match(&t, "tomato") {
        Some(NamedColor::Rgb(0xff6347))
    } else if chars_match(&t, "turquoise") {
        Some(NamedColor::Rgb(0x40e0d0))
    } else if chars_match(&t, "violet") {
        Some(NamedColor::Rgb(0xee82ee))
    } else if chars_match(&t, "wheat") {
        Some(NamedColor::Rgb(0xf5deb3))
    } else if chars_match(&t, "white") {
        Some(NamedColor::Rgb(0xffffff))
    } else if chars_match(&t, "whitesmoke") {
        Some(NamedColor::Rgb(0xf5f5f5))
    } else if chars_match(&t, "yellow") {
        Some(NamedColor::Rgb(0xffff00))
    } else if chars_match(&t, "yellowgreen") {
        Some(NamedColor::Rgb(0x9acd32))
    } else {
        None
    }
}

/// A colour function.
#[derive(Debug, Clone, Copy, PartialEq, Eq, Structural)]
pub enum ColorFunction {
    /// `rgb(r, g, b)`, channels 0–255.
    Rgb,
    /// `rgba(r, g, b, a)`, alpha 0–1.
    Rgba,
    /// `hsl(h, s%, l%)`.
    Hsl,
    /// `hsla(h, s%, l%, a)`.
    Hsla,
}

impl ColorFunction {
    /// Number of arguments the function takes.
    pub open spec fn arity(self) -> nat {
        match self {
            ColorFunction::Rgb | ColorFunction::Hsl => 3,
            ColorFunction::Rgba | ColorFunction::Hsla => 4,
        }
    }
}

/// A colour string, classified by form.
#[derive(Debug)]
pub enum ColorSpec {
    /// A `#` hex colour (the whole trimmed text, `#` included).
    Hex(String),
    /// A colour function with its argument texts, as written between the commas.
    Function(ColorFunction, Vec<String>),
    /// A named colour.
    Named(NamedColor),
}

/// What a [`ColorSpec`] holds, as plain values.
pub enum ColorForm {
    Hex(Seq<char>),
    Function(ColorFunction, Seq<Seq<char>>),
    Named(NamedColor),
}

impl View for ColorSpec {
    type V = ColorForm;

    open spec fn view(&self) -> ColorForm {
        match self {
            ColorSpec::Hex(t) => ColorForm::Hex(t@),
            ColorSpec::Function(f, args) => ColorForm::Function(*f, args@.map_values(|a: String| a@)),
            ColorSpec::Named(n) => ColorForm::Named(*n),
        }
    }
}

/// The colour function a lower-cased name denotes.
pub open spec fn function_named(name: Seq<char>) -> Option<ColorFunction> {
    if name == "rgb"@ {
        Some(ColorFunction::Rgb)
    } else if name == "rgba"@ {
        Some(ColorFunction::Rgba)
    } else if name == "hsl"@ {
        Some(ColorFunction::Hsl)
    } else if name == "hsla"@ {
        Some(ColorFunction::Hsla)
    } else {
        None
    }
}

/// `s` without its trailing `c` characters.
pub open spec fn trim_end_char(s: Seq<char>, c: char) -> Seq<char>
    decreases s.len(),
{
    if s.len() > 0 && s.last() == c {
        trim_end_char(s.drop_last(), c)
    } else {
        s
    }
}

/// How a colour string reads, after trimming: `#…` is hex; `name(args)` is a
/// colour function when the trimmed, lower-cased name is `rgb`, `rgba`, `hsl`
/// or `hsla` and the argument list (trailing `)`s dropped, trimmed, split at
/// commas) has that function's arity; anything else with a `(` is no colour;
/// otherwise it is a named colour or no colour.
pub open spec fn spec_parse_color(s: Seq<char>) -> Option<ColorForm> {
    let t = trim(s);
    if t.len() > 0 && t[0] == '#' {
        Some(ColorForm::Hex(t))
    } else {
        match first_index(t, '(') {
            Some(p) => {
                let parts = split_on(trim(trim_end_char(t.skip(p + 1 as int), ')')), ',');
                match function_named(ascii_lower_seq(trim(t.take(p as int)))) {
                    Some(f) if parts.len() == f.arity() => Some(ColorForm::Function(f, parts)),
                    _ => None,
                }
            },
            None => match spec_named_color(t) {
                Some(n) => Some(ColorForm::Named(n)),
                None => None,
            },
        }
    }
}

/// Classify a CSS colour string (see [`spec_parse_color`]).
#[verifier::rlimit(30)]
pub fn parse_color(s: &str) -> (r: Option<ColorSpec>)
    ensures
        match spec_parse_color(s@) {
            Some(f) => r matches Some(c) && c@ == f,
            None => r is None,
        },
{
    let cs = chars_of(s);
    let (a, b) = trim_bounds(&cs, 0, cs.len());
    proof {
        assert(cs@.subrange(0, cs@.len() as int) =~= s@);
    }
    let ghost t = cs@.subrange(a as int, b as int);
    if a < b && cs[a] == '#' {
        return Some(ColorSpec::Hex(String::from_str(s.substring_char(a, b))));
    }
    let p = find_char_in(&cs, a, b, '(');
    if p < b {
        let lower = lower_chars(&cs);
        let (na, nb) = trim_bounds(&cs, a, p);
        proof {
            assert(t.take(p - a) =~= cs@.subrange(a as int, p as int));
            assert(ascii_lower_seq(cs@.subrange(na as int, nb as int)) =~= lower@.subrange(na as int, nb as int));
        }
        let mut e = b;
        let ghost inner = cs@.subrange(p + 1, b as int);
        proof {
            assert(t.skip(p - a + 1) =~= inner);
        }
        while e > p + 1 && cs[e - 1] == ')'
            invariant
                p + 1 <= e <= b <= cs@.len(),
                inner == cs@.subrange(p + 1, b as int),
                trim_end_char(inner, ')') == trim_end_char(cs@.subrange(p + 1, e as int), ')'),
            decreases e,
        {
            proof {
                let u = cs@.subrange(p + 1, e as int);
                assert(u.last() == cs@[e - 1]);
                assert(u.drop_last() =~= cs@.subrange(p + 1, e - 1));
            }
            e = e - 1;
        }
        proof {
            let u = cs@.subrange(p + 1, e as int);
            if e > p + 1 {
                assert(u.last() == cs@[e - 1]);
            }
            assert(trim_end_char(u, ')') == u);
        }
        let (c, d) = trim_bounds(&cs, p + 1, e);
        let parts = split_char_in(s, &cs, c, d, ',');
        let f = if range_matches(&lower, na, nb, "rgb") {
            ColorFunction::Rgb
        } else if range_matches(&lower, na, nb, "rgba") {
            ColorFunction::Rgba
        } else if range_matches(&lower, na, nb, "hsl") {
            ColorFunction::Hsl
        } else if range_matches(&lower, na, nb, "hsla") {
            ColorFunction::Hsla
        } else {
            return None;
        };
        let arity: usize = match f {
            ColorFunction::Rgb | ColorFunction::Hsl => 3,
            ColorFunction::Rgba | ColorFunction::Hsla => 4,
        };
        proof {
            assert(parts@.map_values(|x: String| x@).len() == parts@.len());
        }
        if parts.len() == arity {
            return Some(ColorSpec::Function(f, parts));
        } else {
            return None;
        }
    }
    match parse_named_color(s.substring_char(a, b)) {
        Some(n) => Some(ColorSpec::Named(n)),
        None => None,
    }
}

} // verus!
