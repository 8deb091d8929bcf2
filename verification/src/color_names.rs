//! What each CSS named colour resolves to: one fact per keyword, in any
//! ASCII case, with the values of the CSS Color Module.

use vstd::prelude::*;

use crate::color::{spec_named_color, NamedColor};
use crate::text_util::ascii_lower_seq;

verus! {

proof fn lemma_color_name_lengths()
    ensures
        "transparent"@.len() == 11,
        "aliceblue"@.len() == 9,
        "antiquewhite"@.len() == 12,
        "aqua"@.len() == 4,
        "cyan"@.len() == 4,
        "aquamarine"@.len() == 10,
        "azure"@.len() == 5,
        "beige"@.len() == 5,
        "bisque"@.len() == 6,
        "black"@.len() == 5,
        "blanchedalmond"@.len() == 14,
        "blue"@.len() == 4,
        "blueviolet"@.len() == 10,
        "brown"@.len() == 5,
        "burlywood"@.len() == 9,
        "cadetblue"@.len() == 9,
        "chartreuse"@.len() == 10,
        "chocolate"@.len() == 9,
        "coral"@.len() == 5,
        "cornflowerblue"@.len() == 14,
        "cornsilk"@.len() == 8,
        "crimson"@.len() == 7,
        "darkblue"@.len() == 8,
        "darkcyan"@.len() == 8,
        "darkgoldenrod"@.len() == 13,
        "darkgray"@.len() == 8,
        "darkgrey"@.len() == 8,
        "darkgreen"@.len() == 9,
        "darkkhaki"@.len() == 9,
        "darkmagenta"@.len() == 11,
        "darkolivegreen"@.len() == 14,
        "darkorange"@.len() == 10,
        "darkorchid"@.len() == 10,
        "darkred"@.len() == 7,
        "darksalmon"@.len() == 10,
        "darkseagreen"@.len() == 12,
        "darkslateblue"@.len() == 13,
        "darkslategray"@.len() == 13,
        "darkslategrey"@.len() == 13,
        "darkturquoise"@.len() == 13,
        "darkviolet"@.len() == 10,
        "deeppink"@.len() == 8,
        "deepskyblue"@.len() == 11,
        "dimgray"@.len() == 7,
        "dimgrey"@.len() == 7,
        "dodgerblue"@.len() == 10,
        "firebrick"@.len() == 9,
        "floralwhite"@.len() == 11,
        "forestgreen"@.len() == 11,
        "fuchsia"@.len() == 7,
        "magenta"@.len() == 7,
        "gainsboro"@.len() == 9,
        "ghostwhite"@.len() == 10,
        "gold"@.len() == 4,
        "goldenrod"@.len() == 9,
        "gray"@.len() == 4,
        "grey"@.len() == 4,
        "green"@.len() == 5,
        "greenyellow"@.len() == 11,
        "honeydew"@.len() == 8,
        "hotpink"@.len() == 7,
        "indianred"@.len() == 9,
        "indigo"@.len() == 6,
        "ivory"@.len() == 5,
        "khaki"@.len() == 5,
        "lavender"@.len() == 8,
        "lavenderblush"@.len() == 13,
        "lawngreen"@.len() == 9,
        "lemonchiffon"@.len() == 12,
        "lightblue"@.len() == 9,
        "lightcoral"@.len() == 10,
        "lightcyan"@.len() == 9,
        "lightgoldenrodyellow"@.len() == 20,
        "lightgray"@.len() == 9,
        "lightgrey"@.len() == 9,
        "lightgreen"@.len() == 10,
        "lightpink"@.len() == 9,
        "lightsalmon"@.len() == 11,
        "lightseagreen"@.len() == 13,
        "lightskyblue"@.len() == 12,
        "lightslategray"@.len() == 14,
        "lightslategrey"@.len() == 14,
        "lightsteelblue"@.len() == 14,
        "lightyellow"@.len() == 11,
        "lime"@.len() == 4,
        "limegreen"@.len() == 9,
        "linen"@.len() == 5,
        "maroon"@.len() == 6,
        "mediumaquamarine"@.len() == 16,
        "mediumblue"@.len() == 10,
        "mediumorchid"@.len() == 12,
        "mediumpurple"@.len() == 12,
        "mediumseagreen"@.len() == 14,
        "mediumslateblue"@.len() == 15,
        "mediumspringgreen"@.len() == 17,
        "mediumturquoise"@.len() == 15,
        "mediumvioletred"@.len() == 15,
        "midnightblue"@.len() == 12,
        "mintcream"@.len() == 9,
        "mistyrose"@.len() == 9,
        "moccasin"@.len() == 8,
        "navajowhite"@.len() == 11,
        "navy"@.len() == 4,
        "oldlace"@.len() == 7,
        "olive"@.len() == 5,
        "olivedrab"@.len() == 9,
        "orange"@.len() == 6,
        "orangered"@.len() == 9,
        "orchid"@.len() == 6,
        "palegoldenrod"@.len() == 13,
        "palegreen"@.len() == 9,
        "paleturquoise"@.len() == 13,
        "palevioletred"@.len() == 13,
        "papayawhip"@.len() == 10,
        "peachpuff"@.len() == 9,
        "peru"@.len() == 4,
        "pink"@.len() == 4,
        "plum"@.len() == 4,
        "powderblue"@.len() == 10,
        "purple"@.len() == 6,
        "rebeccapurple"@.len() == 13,
        "red"@.len() == 3,
        "rosybrown"@.len() == 9,
        "royalblue"@.len() == 9,
        "saddlebrown"@.len() == 11,
        "salmon"@.len() == 6,
        "sandybrown"@.len() == 10,
        "seagreen"@.len() == 8,
        "seashell"@.len() == 8,
        "sienna"@.len() == 6,
        "silver"@.len() == 6,
        "skyblue"@.len() == 7,
        "slateblue"@.len() == 9,
        "slategray"@.len() == 9,
        "slategrey"@.len() == 9,
        "snow"@.len() == 4,
        "springgreen"@.len() == 11,
        "steelblue"@.len() == 9,
        "tan"@.len() == 3,
        "teal"@.len() == 4,
        "thistle"@.len() == 7,
        "tomato"@.len() == 6,
        "turquoise"@.len() == 9,
        "violet"@.len() == 6,
        "wheat"@.len() == 5,
        "white"@.len() == 5,
        "whitesmoke"@.len() == 10,
        "yellow"@.len() == 6,
        "yellowgreen"@.len() == 11,
{
    reveal_strlit("transparent");
    reveal_strlit("aliceblue");
    reveal_strlit("antiquewhite");
    reveal_strlit("aqua");
    reveal_strlit("cyan");
    reveal_strlit("aquamarine");
    reveal_strlit("azure");
    reveal_strlit("beige");
    reveal_strlit("bisque");
    reveal_strlit("black");
    reveal_strlit("blanchedalmond");
    reveal_strlit("blue");
    reveal_strlit("blueviolet");
    reveal_strlit("brown");
    reveal_strlit("burlywood");
    reveal_strlit("cadetblue");
    reveal_strlit("chartreuse");
    reveal_strlit("chocolate");
    reveal_strlit("coral");
    reveal_strlit("cornflowerblue");
    reveal_strlit("cornsilk");
    reveal_strlit("crimson");
    reveal_strlit("darkblue");
    reveal_strlit("darkcyan");
    reveal_strlit("darkgoldenrod");
    reveal_strlit("darkgray");
    reveal_strlit("darkgrey");
    reveal_strlit("darkgreen");
    reveal_strlit("darkkhaki");
    reveal_strlit("darkmagenta");
    reveal_strlit("darkolivegreen");
    reveal_strlit("darkorange");
    reveal_strlit("darkorchid");
    reveal_strlit("darkred");
    reveal_strlit("darksalmon");
    reveal_strlit("darkseagreen");
    reveal_strlit("darkslateblue");
    reveal_strlit("darkslategray");
    reveal_strlit("darkslategrey");
    reveal_strlit("darkturquoise");
    reveal_strlit("darkviolet");
    reveal_strlit("deeppink");
    reveal_strlit("deepskyblue");
    reveal_strlit("dimgray");
    reveal_strlit("dimgrey");
    reveal_strlit("dodgerblue");
    reveal_strlit("firebrick");
    reveal_strlit("floralwhite");
    reveal_strlit("forestgreen");
    reveal_strlit("fuchsia");
    reveal_strlit("magenta");
    reveal_strlit("gainsboro");
    reveal_strlit("ghostwhite");
    reveal_strlit("gold");
    reveal_strlit("goldenrod");
    reveal_strlit("gray");
    reveal_strlit("grey");
    reveal_strlit("green");
    reveal_strlit("greenyellow");
    reveal_strlit("honeydew");
    reveal_strlit("hotpink");
    reveal_strlit("indianred");
    reveal_strlit("indigo");
    reveal_strlit("ivory");
    reveal_strlit("khaki");
    reveal_strlit("lavender");
    reveal_strlit("lavenderblush");
    reveal_strlit("lawngreen");
    reveal_strlit("lemonchiffon");
    reveal_strlit("lightblue");
    reveal_strlit("lightcoral");
    reveal_strlit("lightcyan");
    reveal_strlit("lightgoldenrodyellow");
    reveal_strlit("lightgray");
    reveal_strlit("lightgrey");
    reveal_strlit("lightgreen");
    reveal_strlit("lightpink");
    reveal_strlit("lightsalmon");
    reveal_strlit("lightseagreen");
    reveal_strlit("lightskyblue");
    reveal_strlit("lightslategray");
    reveal_strlit("lightslategrey");
    reveal_strlit("lightsteelblue");
    reveal_strlit("lightyellow");
    reveal_strlit("lime");
    reveal_strlit("limegreen");
    reveal_strlit("linen");
    reveal_strlit("maroon");
    reveal_strlit("mediumaquamarine");
    reveal_strlit("mediumblue");
    reveal_strlit("mediumorchid");
    reveal_strlit("mediumpurple");
    reveal_strlit("mediumseagreen");
    reveal_strlit("mediumslateblue");
    reveal_strlit("mediumspringgreen");
    reveal_strlit("mediumturquoise");
    reveal_strlit("mediumvioletred");
    reveal_strlit("midnightblue");
    reveal_strlit("mintcream");
    reveal_strlit("mistyrose");
    reveal_strlit("moccasin");
    reveal_strlit("navajowhite");
    reveal_strlit("navy");
    reveal_strlit("oldlace");
    reveal_strlit("olive");
    reveal_strlit("olivedrab");
    reveal_strlit("orange");
    reveal_strlit("orangered");
    reveal_strlit("orchid");
    reveal_strlit("palegoldenrod");
    reveal_strlit("palegreen");
    reveal_strlit("paleturquoise");
    reveal_strlit("palevioletred");
    reveal_strlit("papayawhip");
    reveal_strlit("peachpuff");
    reveal_strlit("peru");
    reveal_strlit("pink");
    reveal_strlit("plum");
    reveal_strlit("powderblue");
    reveal_strlit("purple");
    reveal_strlit("rebeccapurple");
    reveal_strlit("red");
    reveal_strlit("rosybrown");
    reveal_strlit("royalblue");
    reveal_strlit("saddlebrown");
    reveal_strlit("salmon");
    reveal_strlit("sandybrown");
    reveal_strlit("seagreen");
    reveal_strlit("seashell");
    reveal_strlit("sienna");
    reveal_strlit("silver");
    reveal_strlit("skyblue");
    reveal_strlit("slateblue");
    reveal_strlit("slategray");
    reveal_strlit("slategrey");
    reveal_strlit("snow");
    reveal_strlit("springgreen");
    reveal_strlit("steelblue");
    reveal_strlit("tan");
    reveal_strlit("teal");
    reveal_strlit("thistle");
    reveal_strlit("tomato");
    reveal_strlit("turquoise");
    reveal_strlit("violet");
    reveal_strlit("wheat");
    reveal_strlit("white");
    reveal_strlit("whitesmoke");
    reveal_strlit("yellow");
    reveal_strlit("yellowgreen");
}

/// Each CSS named colour of the keyword table from `aliceblue` through `darkgray`,
/// written in any ASCII case, resolves to its CSS Color Module value.
/// `transparent`, in any case, resolves to fully transparent black.
pub proof fn lemma_named_colors_aliceblue_to_darkgray(s: Seq<char>)
    ensures
        ascii_lower_seq(s) == "transparent"@ ==> spec_named_color(s) == Some(NamedColor::Transparent),
        ascii_lower_seq(s) == "aliceblue"@ ==> spec_named_color(s) == Some(NamedColor::Rgb(0xf0f8ff)),
        ascii_lower_seq(s) == "antiquewhite"@ ==> spec_named_color(s) == Some(NamedColor::Rgb(0xfaebd7)),
        ascii_lower_seq(s) == "aqua"@ ==> spec_named_color(s) == Some(NamedColor::Rgb(0x00ffff)),
        ascii_lower_seq(s) == "cyan"@ ==> spec_named_color(s) == Some(NamedColor::Rgb(0x00ffff)),
        ascii_lower_seq(s) == "aquamarine"@ ==> spec_named_color(s) == Some(NamedColor::Rgb(0x7fffd4)),
        ascii_lower_seq(s) == "azure"@ ==> spec_named_color(s) == Some(NamedColor::Rgb(0xf0ffff)),
        ascii_lower_seq(s) == "beige"@ ==> spec_named_color(s) == Some(NamedColor::Rgb(0xf5f5dc)),
        ascii_lower_seq(s) == "bisque"@ ==> spec_named_color(s) == Some(NamedColor::Rgb(0xffe4c4)),
        ascii_lower_seq(s) == "black"@ ==> spec_named_color(s) == Some(NamedColor::Rgb(0x000000)),
        ascii_lower_seq(s) == "blanchedalmond"@ ==> spec_named_color(s) == Some(NamedColor::Rgb(0xffebcd)),
        ascii_lower_seq(s) == "blue"@ ==> spec_named_color(s) == Some(NamedColor::Rgb(0x0000ff)),
        ascii_lower_seq(s) == "blueviolet"@ ==> spec_named_color(s) == Some(NamedColor::Rgb(0x8a2be2)),
        ascii_lower_seq(s) == "brown"@ ==> spec_named_color(s) == Some(NamedColor::Rgb(0xa52a2a)),
        ascii_lower_seq(s) == "burlywood"@ ==> spec_named_color(s) == Some(NamedColor::Rgb(0xdeb887)),
        ascii_lower_seq(s) == "cadetblue"@ ==> spec_named_color(s) == Some(NamedColor::Rgb(0x5f9ea0)),
        ascii_lower_seq(s) == "chartreuse"@ ==> spec_named_color(s) == Some(NamedColor::Rgb(0x7fff00)),
        ascii_lower_seq(s) == "chocolate"@ ==> spec_named_color(s) == Some(NamedColor::Rgb(0xd2691e)),
        ascii_lower_seq(s) == "coral"@ ==> spec_named_color(s) == Some(NamedColor::Rgb(0xff7f50)),
        ascii_lower_seq(s) == "cornflowerblue"@ ==> spec_named_color(s) == Some(NamedColor::Rgb(0x6495ed)),
        ascii_lower_seq(s) == "cornsilk"@ ==> spec_named_color(s) == Some(NamedColor::Rgb(0xfff8dc)),
        ascii_lower_seq(s) == "crimson"@ ==> spec_named_color(s) == Some(NamedColor::Rgb(0xdc143c)),
        ascii_lower_seq(s) == "darkblue"@ ==> spec_named_color(s) == Some(NamedColor::Rgb(0x00008b)),
        ascii_lower_seq(s) == "darkcyan"@ ==> spec_named_color(s) == Some(NamedColor::Rgb(0x008b8b)),
        ascii_lower_seq(s) == "darkgoldenrod"@ ==> spec_named_color(s) == Some(NamedColor::Rgb(0xb8860b)),
        ascii_lower_seq(s) == "darkgray"@ ==> spec_named_color(s) == Some(NamedColor::Rgb(0xa9a9a9)),
{
    lemma_color_name_lengths();
    let t = ascii_lower_seq(s);
    assert(t == "cyan"@ ==> spec_named_color(s) == Some(NamedColor::Rgb(0x00ffff))) by {
        reveal_strlit("cyan");
        reveal_strlit("aqua");
        assert("aqua"@[0] != "cyan"@[0]);
    }
    assert(t == "beige"@ ==> spec_named_color(s) == Some(NamedColor::Rgb(0xf5f5dc))) by {
        reveal_strlit("beige");
        reveal_strlit("azure");
        assert("azure"@[0] != "beige"@[0]);
    }
    assert(t == "black"@ ==> spec_named_color(s) == Some(NamedColor::Rgb(0x000000))) by {
        reveal_strlit("black");
        reveal_strlit("azure");
        assert("azure"@[0] != "black"@[0]);
        reveal_strlit("beige");
        assert("beige"@[1] != "black"@[1]);
    }
    assert(t == "blue"@ ==> spec_named_color(s) == Some(NamedColor::Rgb(0x0000ff))) by {
        reveal_strlit("blue");
        reveal_strlit("aqua");
        assert("aqua"@[0] != "blue"@[0]);
        reveal_strlit("cyan");
        assert("cyan"@[0] != "blue"@[0]);
    }
    assert(t == "blueviolet"@ ==> spec_named_color(s) == Some(NamedColor::Rgb(0x8a2be2))) by {
        reveal_strlit("blueviolet");
        reveal_strlit("aquamarine");
        assert("aquamarine"@[0] != "blueviolet"@[0]);
    }
    assert(t == "brown"@ ==> spec_named_color(s) == Some(NamedColor::Rgb(0xa52a2a))) by {
        reveal_strlit("brown");
        reveal_strlit("azure");
        assert("azure"@[0] != "brown"@[0]);
        reveal_strlit("beige");
        assert("beige"@[1] != "brown"@[1]);
        reveal_strlit("black");
        assert("black"@[1] != "brown"@[1]);
    }
    assert(t == "burlywood"@ ==> spec_named_color(s) == Some(NamedColor::Rgb(0xdeb887))) by {
        reveal_strlit("burlywood");
        reveal_strlit("aliceblue");
        assert("aliceblue"@[0] != "burlywood"@[0]);
    }
    assert(t == "cadetblue"@ ==> spec_named_color(s) == Some(NamedColor::Rgb(0x5f9ea0))) by {
        reveal_strlit("cadetblue");
        reveal_strlit("aliceblue");
        assert("aliceblue"@[0] != "cadetblue"@[0]);
        reveal_strlit("burlywood");
        assert("burlywood"@[0] != "cadetblue"@[0]);
    }
    assert(t == "chartreuse"@ ==> spec_named_color(s) == Some(NamedColor::Rgb(0x7fff00))) by {
        reveal_strlit("chartreuse");
        reveal_strlit("aquamarine");
        assert("aquamarine"@[0] != "chartreuse"@[0]);
        reveal_strlit("blueviolet");
        assert("blueviolet"@[0] != "chartreuse"@[0]);
    }
    assert(t == "chocolate"@ ==> spec_named_color(s) == Some(NamedColor::Rgb(0xd2691e))) by {
        reveal_strlit("chocolate");
        reveal_strlit("aliceblue");
        assert("aliceblue"@[0] != "chocolate"@[0]);
        reveal_strlit("burlywood");
        assert("burlywood"@[0] != "chocolate"@[0]);
        reveal_strlit("cadetblue");
        assert("cadetblue"@[1] != "chocolate"@[1]);
    }
    assert(t == "coral"@ ==> spec_named_color(s) == Some(NamedColor::Rgb(0xff7f50))) by {
        reveal_strlit("coral");
        reveal_strlit("azure");
        assert("azure"@[0] != "coral"@[0]);
        reveal_strlit("beige");
        assert("beige"@[0] != "coral"@[0]);
        reveal_strlit("black");
        assert("black"@[0] != "coral"@[0]);
        reveal_strlit("brown");
        assert("brown"@[0] != "coral"@[0]);
    }
    assert(t == "cornflowerblue"@ ==> spec_named_color(s) == Some(NamedColor::Rgb(0x6495ed))) by {
        reveal_strlit("cornflowerblue");
        reveal_strlit("blanchedalmond");
        assert("blanchedalmond"@[0] != "cornflowerblue"@[0]);
    }
    assert(t == "darkblue"@ ==> spec_named_color(s) == Some(NamedColor::Rgb(0x00008b))) by {
        reveal_strlit("darkblue");
        reveal_strlit("cornsilk");
        assert("cornsilk"@[0] != "darkblue"@[0]);
    }
    assert(t == "darkcyan"@ ==> spec_named_color(s) == Some(NamedColor::Rgb(0x008b8b))) by {
        reveal_strlit("darkcyan");
        reveal_strlit("cornsilk");
        assert("cornsilk"@[0] != "darkcyan"@[0]);
        reveal_strlit("darkblue");
        assert("darkblue"@[4] != "darkcyan"@[4]);
    }
    assert(t == "darkgray"@ ==> spec_named_color(s) == Some(NamedColor::Rgb(0xa9a9a9))) by {
        reveal_strlit("darkgray");
        reveal_strlit("cornsilk");
        assert("cornsilk"@[0] != "darkgray"@[0]);
        reveal_strlit("darkblue");
        assert("darkblue"@[4] != "darkgray"@[4]);
        reveal_strlit("darkcyan");
        assert("darkcyan"@[4] != "darkgray"@[4]);
    }
}

/// Each CSS named colour of the keyword table from `darkgrey` through `magenta`,
/// written in any ASCII case, resolves to its CSS Color Module value.
pub proof fn lemma_named_colors_darkgrey_to_magenta(s: Seq<char>)
    ensures
        ascii_lower_seq(s) == "darkgrey"@ ==> spec_named_color(s) == Some(NamedColor::Rgb(0xa9a9a9)),
        ascii_lower_seq(s) == "darkgreen"@ ==> spec_named_color(s) == Some(NamedColor::Rgb(0x006400)),
        ascii_lower_seq(s) == "darkkhaki"@ ==> spec_named_color(s) == Some(NamedColor::Rgb(0xbdb76b)),
        ascii_lower_seq(s) == "darkmagenta"@ ==> spec_named_color(s) == Some(NamedColor::Rgb(0x8b008b)),
        ascii_lower_seq(s) == "darkolivegreen"@ ==> spec_named_color(s) == Some(NamedColor::Rgb(0x556b2f)),
        ascii_lower_seq(s) == "darkorange"@ ==> spec_named_color(s) == Some(NamedColor::Rgb(0xff8c00)),
        ascii_lower_seq(s) == "darkorchid"@ ==> spec_named_color(s) == Some(NamedColor::Rgb(0x9932cc)),
        ascii_lower_seq(s) == "darkred"@ ==> spec_named_color(s) == Some(NamedColor::Rgb(0x8b0000)),
        ascii_lower_seq(s) == "darksalmon"@ ==> spec_named_color(s) == Some(NamedColor::Rgb(0xe9967a)),
        ascii_lower_seq(s) == "darkseagreen"@ ==> spec_named_color(s) == Some(NamedColor::Rgb(0x8fbc8f)),
        ascii_lower_seq(s) == "darkslateblue"@ ==> spec_named_color(s) == Some(NamedColor::Rgb(0x483d8b)),
        ascii_lower_seq(s) == "darkslategray"@ ==> spec_named_color(s) == Some(NamedColor::Rgb(0x2f4f4f)),
        ascii_lower_seq(s) == "darkslategrey"@ ==> spec_named_color(s) == Some(NamedColor::Rgb(0x2f4f4f)),
        ascii_lower_seq(s) == "darkturquoise"@ ==> spec_named_color(s) == Some(NamedColor::Rgb(0x00ced1)),
        ascii_lower_seq(s) == "darkviolet"@ ==> spec_named_color(s) == Some(NamedColor::Rgb(0x9400d3)),
        ascii_lower_seq(s) == "deeppink"@ ==> spec_named_color(s) == Some(NamedColor::Rgb(0xff1493)),
        ascii_lower_seq(s) == "deepskyblue"@ ==> spec_named_color(s) == Some(NamedColor::Rgb(0x00bfff)),
        ascii_lower_seq(s) == "dimgray"@ ==> spec_named_color(s) == Some(NamedColor::Rgb(0x696969)),
        ascii_lower_seq(s) == "dimgrey"@ ==> spec_named_color(s) == Some(NamedColor::Rgb(0x696969)),
        ascii_lower_seq(s) == "dodgerblue"@ ==> spec_named_color(s) == Some(NamedColor::Rgb(0x1e90ff)),
        ascii_lower_seq(s) == "firebrick"@ ==> spec_named_color(s) == Some(NamedColor::Rgb(0xb22222)),
        ascii_lower_seq(s) == "floralwhite"@ ==> spec_named_color(s) == Some(NamedColor::Rgb(0xfffaf0)),
        ascii_lower_seq(s) == "forestgreen"@ ==> spec_named_color(s) == Some(NamedColor::Rgb(0x228b22)),
        ascii_lower_seq(s) == "fuchsia"@ ==> spec_named_color(s) == Some(NamedColor::Rgb(0xff00ff)),
        ascii_lower_seq(s) == "magenta"@ ==> spec_named_color(s) == Some(NamedColor::Rgb(0xff00ff)),
{
    lemma_color_name_lengths();
    let t = ascii_lower_seq(s);
    assert(t == "darkgrey"@ ==> spec_named_color(s) == Some(NamedColor::Rgb(0xa9a9a9))) by {
        reveal_strlit("darkgrey");
        reveal_strlit("cornsilk");
        assert("cornsilk"@[0] != "darkgrey"@[0]);
        reveal_strlit("darkblue");
        assert("darkblue"@[4] != "darkgrey"@[4]);
        reveal_strlit("darkcyan");
        assert("darkcyan"@[4] != "darkgrey"@[4]);
        reveal_strlit("darkgray");
        assert("darkgray"@[6] != "darkgrey"@[6]);
    }
    assert(t == "darkgreen"@ ==> spec_named_color(s) == Some(NamedColor::Rgb(0x006400))) by {
        reveal_strlit("darkgreen");
        reveal_strlit("aliceblue");
        assert("aliceblue"@[0] != "darkgreen"@[0]);
        reveal_strlit("burlywood");
        assert("burlywood"@[0] != "darkgreen"@[0]);
        reveal_strlit("cadetblue");
        assert("cadetblue"@[0] != "darkgreen"@[0]);
        reveal_strlit("chocolate");
        assert("chocolate"@[0] != "darkgreen"@[0]);
    }
    assert(t == "darkkhaki"@ ==> spec_named_color(s) == Some(NamedColor::Rgb(0xbdb76b))) by {
        reveal_strlit("darkkhaki");
        reveal_strlit("aliceblue");
        assert("aliceblue"@[0] != "darkkhaki"@[0]);
        reveal_strlit("burlywood");
        assert("burlywood"@[0] != "darkkhaki"@[0]);
        reveal_strlit("cadetblue");
        assert("cadetblue"@[0] != "darkkhaki"@[0]);
        reveal_strlit("chocolate");
        assert("chocolate"@[0] != "darkkhaki"@[0]);
        reveal_strlit("darkgreen");
        assert("darkgreen"@[4] != "darkkhaki"@[4]);
    }
    assert(t == "darkmagenta"@ ==> spec_named_color(s) == Some(NamedColor::Rgb(0x8b008b))) by {
        reveal_strlit("darkmagenta");
        reveal_strlit("transparent");
        assert("transparent"@[0] != "darkmagenta"@[0]);
    }
    assert(t == "darkolivegreen"@ ==> spec_named_color(s) == Some(NamedColor::Rgb(0x556b2f))) by {
        reveal_strlit("darkolivegreen");
        reveal_strlit("blanchedalmond");
        assert("blanchedalmond"@[0] != "darkolivegreen"@[0]);
        reveal_strlit("cornflowerblue");
        assert("cornflowerblue"@[0] != "darkolivegreen"@[0]);
    }
    assert(t == "darkorange"@ ==> spec_named_color(s) == Some(NamedColor::Rgb(0xff8c00))) by {
        reveal_strlit("darkorange");
        reveal_strlit("aquamarine");
        assert("aquamarine"@[0] != "darkorange"@[0]);
        reveal_strlit("blueviolet");
        assert("blueviolet"@[0] != "darkorange"@[0]);
        reveal_strlit("chartreuse");
        assert("chartreuse"@[0] != "darkorange"@[0]);
    }
    assert(t == "darkorchid"@ ==> spec_named_color(s) == Some(NamedColor::Rgb(0x9932cc))) by {
        reveal_strlit("darkorchid");
        reveal_strlit("aquamarine");
        assert("aquamarine"@[0] != "darkorchid"@[0]);
        reveal_strlit("blueviolet");
        assert("blueviolet"@[0] != "darkorchid"@[0]);
        reveal_strlit("chartreuse");
        assert("chartreuse"@[0] != "darkorchid"@[0]);
        reveal_strlit("darkorange");
        assert("darkorange"@[6] != "darkorchid"@[6]);
    }
    assert(t == "darkred"@ ==> spec_named_color(s) == Some(NamedColor::Rgb(0x8b0000))) by {
        reveal_strlit("darkred");
        reveal_strlit("crimson");
        assert("crimson"@[0] != "darkred"@[0]);
    }
    assert(t == "darksalmon"@ ==> spec_named_color(s) == Some(NamedColor::Rgb(0xe9967a))) by {
        reveal_strlit("darksalmon");
        reveal_strlit("aquamarine");
        assert("aquamarine"@[0] != "darksalmon"@[0]);
        reveal_strlit("blueviolet");
        assert("blueviolet"@[0] != "darksalmon"@[0]);
        reveal_strlit("chartreuse");
        assert("chartreuse"@[0] != "darksalmon"@[0]);
        reveal_strlit("darkorange");
        assert("darkorange"@[4] != "darksalmon"@[4]);
        reveal_strlit("darkorchid");
        assert("darkorchid"@[4] != "darksalmon"@[4]);
    }
    assert(t == "darkseagreen"@ ==> spec_named_color(s) == Some(NamedColor::Rgb(0x8fbc8f))) by {
        reveal_strlit("darkseagreen");
        reveal_strlit("antiquewhite");
        assert("antiquewhite"@[0] != "darkseagreen"@[0]);
    }
    assert(t == "darkslateblue"@ ==> spec_named_color(s) == Some(NamedColor::Rgb(0x483d8b))) by {
        reveal_strlit("darkslateblue");
        reveal_strlit("darkgoldenrod");
        assert("darkgoldenrod"@[4] != "darkslateblue"@[4]);
    }
    assert(t == "darkslategray"@ ==> spec_named_color(s) == Some(NamedColor::Rgb(0x2f4f4f))) by {
        reveal_strlit("darkslategray");
        reveal_strlit("darkgoldenrod");
        assert("darkgoldenrod"@[4] != "darkslategray"@[4]);
        reveal_strlit("darkslateblue");
        assert("darkslateblue"@[9] != "darkslategray"@[9]);
    }
    assert(t == "darkslategrey"@ ==> spec_named_color(s) == Some(NamedColor::Rgb(0x2f4f4f))) by {
        reveal_strlit("darkslategrey");
        reveal_strlit("darkgoldenrod");
        assert("darkgoldenrod"@[4] != "darkslategrey"@[4]);
        reveal_strlit("darkslateblue");
        assert("darkslateblue"@[9] != "darkslategrey"@[9]);
        reveal_strlit("darkslategray");
        assert("darkslategray"@[11] != "darkslategrey"@[11]);
    }
    assert(t == "darkturquoise"@ ==> spec_named_color(s) == Some(NamedColor::Rgb(0x00ced1))) by {
        reveal_strlit("darkturquoise");
        reveal_strlit("darkgoldenrod");
        assert("darkgoldenrod"@[4] != "darkturquoise"@[4]);
        reveal_strlit("darkslateblue");
        assert("darkslateblue"@[4] != "darkturquoise"@[4]);
        reveal_strlit("darkslategray");
        assert("darkslategray"@[4] != "darkturquoise"@[4]);
        reveal_strlit("darkslategrey");
        assert("darkslategrey"@[4] != "darkturquoise"@[4]);
    }
    assert(t == "darkviolet"@ ==> spec_named_color(s) == Some(NamedColor::Rgb(0x9400d3))) by {
        reveal_strlit("darkviolet");
        reveal_strlit("aquamarine");
        assert("aquamarine"@[0] != "darkviolet"@[0]);
        reveal_strlit("blueviolet");
        assert("blueviolet"@[0] != "darkviolet"@[0]);
        reveal_strlit("chartreuse");
        assert("chartreuse"@[0] != "darkviolet"@[0]);
        reveal_strlit("darkorange");
        assert("darkorange"@[4] != "darkviolet"@[4]);
        reveal_strlit("darkorchid");
        assert("darkorchid"@[4] != "darkviolet"@[4]);
        reveal_strlit("darksalmon");
        assert("darksalmon"@[4] != "darkviolet"@[4]);
    }
    assert(t == "deeppink"@ ==> spec_named_color(s) == Some(NamedColor::Rgb(0xff1493))) by {
        reveal_strlit("deeppink");
        reveal_strlit("cornsilk");
        assert("cornsilk"@[0] != "deeppink"@[0]);
        reveal_strlit("darkblue");
        assert("darkblue"@[1] != "deeppink"@[1]);
        reveal_strlit("darkcyan");
        assert("darkcyan"@[1] != "deeppink"@[1]);
        reveal_strlit("darkgray");
        assert("darkgray"@[1] != "deeppink"@[1]);
        reveal_strlit("darkgrey");
        assert("darkgrey"@[1] != "deeppink"@[1]);
    }
    assert(t == "deepskyblue"@ ==> spec_named_color(s) == Some(NamedColor::Rgb(0x00bfff))) by {
        reveal_strlit("deepskyblue");
        reveal_strlit("transparent");
        assert("transparent"@[0] != "deepskyblue"@[0]);
        reveal_strlit("darkmagenta");
        assert("darkmagenta"@[1] != "deepskyblue"@[1]);
    }
    assert(t == "dimgray"@ ==> spec_named_color(s) == Some(NamedColor::Rgb(0x696969))) by {
        reveal_strlit("dimgray");
        reveal_strlit("crimson");
        assert("crimson"@[0] != "dimgray"@[0]);
        reveal_strlit("darkred");
        assert("darkred"@[1] != "dimgray"@[1]);
    }
    assert(t == "dimgrey"@ ==> spec_named_color(s) == Some(NamedColor::Rgb(0x696969))) by {
        reveal_strlit("dimgrey");
        reveal_strlit("crimson");
        assert("crimson"@[0] != "dimgrey"@[0]);
        reveal_strlit("darkred");
        assert("darkred"@[1] != "dimgrey"@[1]);
        reveal_strlit("dimgray");
        assert("dimgray"@[5] != "dimgrey"@[5]);
    }
    assert(t == "dodgerblue"@ ==> spec_named_color(s) == Some(NamedColor::Rgb(0x1e90ff))) by {
        reveal_strlit("dodgerblue");
        reveal_strlit("aquamarine");
        assert("aquamarine"@[0] != "dodgerblue"@[0]);
        reveal_strlit("blueviolet");
        assert("blueviolet"@[0] != "dodgerblue"@[0]);
        reveal_strlit("chartreuse");
        assert("chartreuse"@[0] != "dodgerblue"@[0]);
        reveal_strlit("darkorange");
        assert("darkorange"@[1] != "dodgerblue"@[1]);
        reveal_strlit("darkorchid");
        assert("darkorchid"@[1] != "dodgerblue"@[1]);
        reveal_strlit("darksalmon");
        assert("darksalmon"@[1] != "dodgerblue"@[1]);
        reveal_strlit("darkviolet");
        assert("darkviolet"@[1] != "dodgerblue"@[1]);
    }
    assert(t == "firebrick"@ ==> spec_named_color(s) == Some(NamedColor::Rgb(0xb22222))) by {
        reveal_strlit("firebrick");
        reveal_strlit("aliceblue");
        assert("aliceblue"@[0] != "firebrick"@[0]);
        reveal_strlit("burlywood");
        assert("burlywood"@[0] != "firebrick"@[0]);
        reveal_strlit("cadetblue");
        assert("cadetblue"@[0] != "firebrick"@[0]);
        reveal_strlit("chocolate");
        assert("chocolate"@[0] != "firebrick"@[0]);
        reveal_strlit("darkgreen");
        assert("darkgreen"@[0] != "firebrick"@[0]);
        reveal_strlit("darkkhaki");
        assert("darkkhaki"@[0] != "firebrick"@[0]);
    }
    assert(t == "floralwhite"@ ==> spec_named_color(s) == Some(NamedColor::Rgb(0xfffaf0))) by {
        reveal_strlit("floralwhite");
        reveal_strlit("transparent");
        assert("transparent"@[0] != "floralwhite"@[0]);
        reveal_strlit("darkmagenta");
        assert("darkmagenta"@[0] != "floralwhite"@[0]);
        reveal_strlit("deepskyblue");
        assert("deepskyblue"@[0] != "floralwhite"@[0]);
    }
    assert(t == "forestgreen"@ ==> spec_named_color(s) == Some(NamedColor::Rgb(0x228b22))) by {
        reveal_strlit("forestgreen");
        reveal_strlit("transparent");
        assert("transparent"@[0] != "forestgreen"@[0]);
        reveal_strlit("darkmagenta");
        assert("darkmagenta"@[0] != "forestgreen"@[0]);
        reveal_strlit("deepskyblue");
        assert("deepskyblue"@[0] != "forestgreen"@[0]);
        reveal_strlit("floralwhite");
        assert("floralwhite"@[1] != "forestgreen"@[1]);
    }
    assert(t == "fuchsia"@ ==> spec_named_color(s) == Some(NamedColor::Rgb(0xff00ff))) by {
        reveal_strlit("fuchsia");
        reveal_strlit("crimson");
        assert("crimson"@[0] != "fuchsia"@[0]);
        reveal_strlit("darkred");
        assert("darkred"@[0] != "fuchsia"@[0]);
        reveal_strlit("dimgray");
        assert("dimgray"@[0] != "fuchsia"@[0]);
        reveal_strlit("dimgrey");
        assert("dimgrey"@[0] != "fuchsia"@[0]);
    }
    assert(t == "magenta"@ ==> spec_named_color(s) == Some(NamedColor::Rgb(0xff00ff))) by {
        reveal_strlit("magenta");
        reveal_strlit("crimson");
        assert("crimson"@[0] != "magenta"@[0]);
        reveal_strlit("darkred");
        assert("darkred"@[0] != "magenta"@[0]);
        reveal_strlit("dimgray");
        assert("dimgray"@[0] != "magenta"@[0]);
        reveal_strlit("dimgrey");
        assert("dimgrey"@[0] != "magenta"@[0]);
        reveal_strlit("fuchsia");
        assert("fuchsia"@[0] != "magenta"@[0]);
    }
}

/// Each CSS named colour of the keyword table from `gainsboro` through `lightgreen`,
/// written in any ASCII case, resolves to its CSS Color Module value.
pub proof fn lemma_named_colors_gainsboro_to_lightgreen(s: Seq<char>)
    ensures
        ascii_lower_seq(s) == "gainsboro"@ ==> spec_named_color(s) == Some(NamedColor::Rgb(0xdcdcdc)),
        ascii_lower_seq(s) == "ghostwhite"@ ==> spec_named_color(s) == Some(NamedColor::Rgb(0xf8f8ff)),
        ascii_lower_seq(s) == "gold"@ ==> spec_named_color(s) == Some(NamedColor::Rgb(0xffd700)),
        ascii_lower_seq(s) == "goldenrod"@ ==> spec_named_color(s) == Some(NamedColor::Rgb(0xdaa520)),
        ascii_lower_seq(s) == "gray"@ ==> spec_named_color(s) == Some(NamedColor::Rgb(0x808080)),
        ascii_lower_seq(s) == "grey"@ ==> spec_named_color(s) == Some(NamedColor::Rgb(0x808080)),
        ascii_lower_seq(s) == "green"@ ==> spec_named_color(s) == Some(NamedColor::Rgb(0x008000)),
        ascii_lower_seq(s) == "greenyellow"@ ==> spec_named_color(s) == Some(NamedColor::Rgb(0xadff2f)),
        ascii_lower_seq(s) == "honeydew"@ ==> spec_named_color(s) == Some(NamedColor::Rgb(0xf0fff0)),
        ascii_lower_seq(s) == "hotpink"@ ==> spec_named_color(s) == Some(NamedColor::Rgb(0xff69b4)),
        ascii_lower_seq(s) == "indianred"@ ==> spec_named_color(s) == Some(NamedColor::Rgb(0xcd5c5c)),
        ascii_lower_seq(s) == "indigo"@ ==> spec_named_color(s) == Some(NamedColor::Rgb(0x4b0082)),
        ascii_lower_seq(s) == "ivory"@ ==> spec_named_color(s) == Some(NamedColor::Rgb(0xfffff0)),
        ascii_lower_seq(s) == "khaki"@ ==> spec_named_color(s) == Some(NamedColor::Rgb(0xf0e68c)),
        ascii_lower_seq(s) == "lavender"@ ==> spec_named_color(s) == Some(NamedColor::Rgb(0xe6e6fa)),
        ascii_lower_seq(s) == "lavenderblush"@ ==> spec_named_color(s) == Some(NamedColor::Rgb(0xfff0f5)),
        ascii_lower_seq(s) == "lawngreen"@ ==> spec_named_color(s) == Some(NamedColor::Rgb(0x7cfc00)),
        ascii_lower_seq(s) == "lemonchiffon"@ ==> spec_named_color(s) == Some(NamedColor::Rgb(0xfffacd)),
        ascii_lower_seq(s) == "lightblue"@ ==> spec_named_color(s) == Some(NamedColor::Rgb(0xadd8e6)),
        ascii_lower_seq(s) == "lightcoral"@ ==> spec_named_color(s) == Some(NamedColor::Rgb(0xf08080)),
        ascii_lower_seq(s) == "lightcyan"@ ==> spec_named_color(s) == Some(NamedColor::Rgb(0xe0ffff)),
        ascii_lower_seq(s) == "lightgoldenrodyellow"@ ==> spec_named_color(s) == Some(NamedColor::Rgb(0xfafad2)),
        ascii_lower_seq(s) == "lightgray"@ ==> spec_named_color(s) == Some(NamedColor::Rgb(0xd3d3d3)),
        ascii_lower_seq(s) == "lightgrey"@ ==> spec_named_color(s) == Some(NamedColor::Rgb(0xd3d3d3)),
        ascii_lower_seq(s) == "lightgreen"@ ==> spec_named_color(s) == Some(NamedColor::Rgb(0x90ee90)),
{
    lemma_color_name_lengths();
    let t = ascii_lower_seq(s);
    assert(t == "gainsboro"@ ==> spec_named_color(s) == Some(NamedColor::Rgb(0xdcdcdc))) by {
        reveal_strlit("gainsboro");
        reveal_strlit("aliceblue");
        assert("aliceblue"@[0] != "gainsboro"@[0]);
        reveal_strlit("burlywood");
        assert("burlywood"@[0] != "gainsboro"@[0]);
        reveal_strlit("cadetblue");
        assert("cadetblue"@[0] != "gainsboro"@[0]);
        reveal_strlit("chocolate");
        assert("chocolate"@[0] != "gainsboro"@[0]);
        reveal_strlit("darkgreen");
        assert("darkgreen"@[0] != "gainsboro"@[0]);
        reveal_strlit("darkkhaki");
        assert("darkkhaki"@[0] != "gainsboro"@[0]);
        reveal_strlit("firebrick");
        assert("firebrick"@[0] != "gainsboro"@[0]);
    }
    assert(t == "ghostwhite"@ ==> spec_named_color(s) == Some(NamedColor::Rgb(0xf8f8ff))) by {
        reveal_strlit("ghostwhite");
        reveal_strlit("aquamarine");
        assert("aquamarine"@[0] != "ghostwhite"@[0]);
        reveal_strlit("blueviolet");
        assert("blueviolet"@[0] != "ghostwhite"@[0]);
        reveal_strlit("chartreuse");
        assert("chartreuse"@[0] != "ghostwhite"@[0]);
        reveal_strlit("darkorange");
        assert("darkorange"@[0] != "ghostwhite"@[0]);
        reveal_strlit("darkorchid");
        assert("darkorchid"@[0] != "ghostwhite"@[0]);
        reveal_strlit("darksalmon");
        assert("darksalmon"@[0] != "ghostwhite"@[0]);
        reveal_strlit("darkviolet");
        assert("darkviolet"@[0] != "ghostwhite"@[0]);
        reveal_strlit("dodgerblue");
        assert("dodgerblue"@[0] != "ghostwhite"@[0]);
    }
    assert(t == "gold"@ ==> spec_named_color(s) == Some(NamedColor::Rgb(0xffd700))) by {
        reveal_strlit("gold");
        reveal_strlit("aqua");
        assert("aqua"@[0] != "gold"@[0]);
        reveal_strlit("cyan");
        assert("cyan"@[0] != "gold"@[0]);
        reveal_strlit("blue");
        assert("blue"@[0] != "gold"@[0]);
    }
    assert(t == "goldenrod"@ ==> spec_named_color(s) == Some(NamedColor::Rgb(0xdaa520))) by {
        reveal_strlit("goldenrod");
        reveal_strlit("aliceblue");
        assert("aliceblue"@[0] != "goldenrod"@[0]);
        reveal_strlit("burlywood");
        assert("burlywood"@[0] != "goldenrod"@[0]);
        reveal_strlit("cadetblue");
        assert("cadetblue"@[0] != "goldenrod"@[0]);
        reveal_strlit("chocolate");
        assert("chocolate"@[0] != "goldenrod"@[0]);
        reveal_strlit("darkgreen");
        assert("darkgreen"@[0] != "goldenrod"@[0]);
        reveal_strlit("darkkhaki");
        assert("darkkhaki"@[0] != "goldenrod"@[0]);
        reveal_strlit("firebrick");
        assert("firebrick"@[0] != "goldenrod"@[0]);
        reveal_strlit("gainsboro");
        assert("gainsboro"@[1] != "goldenrod"@[1]);
    }
    assert(t == "gray"@ ==> spec_named_color(s) == Some(NamedColor::Rgb(0x808080))) by {
        reveal_strlit("gray");
        reveal_strlit("aqua");
        assert("aqua"@[0] != "gray"@[0]);
        reveal_strlit("cyan");
        assert("cyan"@[0] != "gray"@[0]);
        reveal_strlit("blue");
        assert("blue"@[0] != "gray"@[0]);
        reveal_strlit("gold");
        assert("gold"@[1] != "gray"@[1]);
    }
    assert(t == "grey"@ ==> spec_named_color(s) == Some(NamedColor::Rgb(0x808080))) by {
        reveal_strlit("grey");
        reveal_strlit("aqua");
        assert("aqua"@[0] != "grey"@[0]);
        reveal_strlit("cyan");
        assert("cyan"@[0] != "grey"@[0]);
        reveal_strlit("blue");
        assert("blue"@[0] != "grey"@[0]);
        reveal_strlit("gold");
        assert("gold"@[1] != "grey"@[1]);
        reveal_strlit("gray");
        assert("gray"@[2] != "grey"@[2]);
    }
    assert(t == "green"@ ==> spec_named_color(s) == Some(NamedColor::Rgb(0x008000))) by {
        reveal_strlit("green");
        reveal_strlit("azure");
        assert("azure"@[0] != "green"@[0]);
        reveal_strlit("beige");
        assert("beige"@[0] != "green"@[0]);
        reveal_strlit("black");
        assert("black"@[0] != "green"@[0]);
        reveal_strlit("brown");
        assert("brown"@[0] != "green"@[0]);
        reveal_strlit("coral");
        assert("coral"@[0] != "green"@[0]);
    }
    assert(t == "greenyellow"@ ==> spec_named_color(s) == Some(NamedColor::Rgb(0xadff2f))) by {
        reveal_strlit("greenyellow");
        reveal_strlit("transparent");
        assert("transparent"@[0] != "greenyellow"@[0]);
        reveal_strlit("darkmagenta");
        assert("darkmagenta"@[0] != "greenyellow"@[0]);
        reveal_strlit("deepskyblue");
        assert("deepskyblue"@[0] != "greenyellow"@[0]);
        reveal_strlit("floralwhite");
        assert("floralwhite"@[0] != "greenyellow"@[0]);
        reveal_strlit("forestgreen");
        assert("forestgreen"@[0] != "greenyellow"@[0]);
    }
    assert(t == "honeydew"@ ==> spec_named_color(s) == Some(NamedColor::Rgb(0xf0fff0))) by {
        reveal_strlit("honeydew");
        reveal_strlit("cornsilk");
        assert("cornsilk"@[0] != "honeydew"@[0]);
        reveal_strlit("darkblue");
        assert("darkblue"@[0] != "honeydew"@[0]);
        reveal_strlit("darkcyan");
        assert("darkcyan"@[0] != "honeydew"@[0]);
        reveal_strlit("darkgray");
        assert("darkgray"@[0] != "honeydew"@[0]);
        reveal_strlit("darkgrey");
        assert("darkgrey"@[0] != "honeydew"@[0]);
        reveal_strlit("deeppink");
        assert("deeppink"@[0] != "honeydew"@[0]);
    }
    assert(t == "hotpink"@ ==> spec_named_color(s) == Some(NamedColor::Rgb(0xff69b4))) by {
        reveal_strlit("hotpink");
        reveal_strlit("crimson");
        assert("crimson"@[0] != "hotpink"@[0]);
        reveal_strlit("darkred");
        assert("darkred"@[0] != "hotpink"@[0]);
        reveal_strlit("dimgray");
        assert("dimgray"@[0] != "hotpink"@[0]);
        reveal_strlit("dimgrey");
        assert("dimgrey"@[0] != "hotpink"@[0]);
        reveal_strlit("fuchsia");
        assert("fuchsia"@[0] != "hotpink"@[0]);
        reveal_strlit("magenta");
        assert("magenta"@[0] != "hotpink"@[0]);
    }
    assert(t == "indianred"@ ==> spec_named_color(s) == Some(NamedColor::Rgb(0xcd5c5c))) by {
        reveal_strlit("indianred");
        reveal_strlit("aliceblue");
        assert("aliceblue"@[0] != "indianred"@[0]);
        reveal_strlit("burlywood");
        assert("burlywood"@[0] != "indianred"@[0]);
        reveal_strlit("cadetblue");
        assert("cadetblue"@[0] != "indianred"@[0]);
        reveal_strlit("chocolate");
        assert("chocolate"@[0] != "indianred"@[0]);
        reveal_strlit("darkgreen");
        assert("darkgreen"@[0] != "indianred"@[0]);
        reveal_strlit("darkkhaki");
        assert("darkkhaki"@[0] != "indianred"@[0]);
        reveal_strlit("firebrick");
        assert("firebrick"@[0] != "indianred"@[0]);
        reveal_strlit("gainsboro");
        assert("gainsboro"@[0] != "indianred"@[0]);
        reveal_strlit("goldenrod");
        assert("goldenrod"@[0] != "indianred"@[0]);
    }
    assert(t == "indigo"@ ==> spec_named_color(s) == Some(NamedColor::Rgb(0x4b0082))) by {
        reveal_strlit("indigo");
        reveal_strlit("bisque");
        assert("bisque"@[0] != "indigo"@[0]);
    }
    assert(t == "ivory"@ ==> spec_named_color(s) == Some(NamedColor::Rgb(0xfffff0))) by {
        reveal_strlit("ivory");
        reveal_strlit("azure");
        assert("azure"@[0] != "ivory"@[0]);
        reveal_strlit("beige");
        assert("beige"@[0] != "ivory"@[0]);
        reveal_strlit("black");
        assert("black"@[0] != "ivory"@[0]);
        reveal_strlit("brown");
        assert("brown"@[0] != "ivory"@[0]);
        reveal_strlit("coral");
        assert("coral"@[0] != "ivory"@[0]);
        reveal_strlit("green");
        assert("green"@[0] != "ivory"@[0]);
    }
    assert(t == "khaki"@ ==> spec_named_color(s) == Some(NamedColor::Rgb(0xf0e68c))) by {
        reveal_strlit("khaki");
        reveal_strlit("azure");
        assert("azure"@[0] != "khaki"@[0]);
        reveal_strlit("beige");
        assert("beige"@[0] != "khaki"@[0]);
        reveal_strlit("black");
        assert("black"@[0] != "khaki"@[0]);
        reveal_strlit("brown");
        assert("brown"@[0] != "khaki"@[0]);
        reveal_strlit("coral");
        assert("coral"@[0] != "khaki"@[0]);
        reveal_strlit("green");
        assert("green"@[0] != "khaki"@[0]);
        reveal_strlit("ivory");
        assert("ivory"@[0] != "khaki"@[0]);
    }
    assert(t == "lavender"@ ==> spec_named_color(s) == Some(NamedColor::Rgb(0xe6e6fa))) by {
        reveal_strlit("lavender");
        reveal_strlit("cornsilk");
        assert("cornsilk"@[0] != "lavender"@[0]);
        reveal_strlit("darkblue");
        assert("darkblue"@[0] != "lavender"@[0]);
        reveal_strlit("darkcyan");
        assert("darkcyan"@[0] != "lavender"@[0]);
        reveal_strlit("darkgray");
        assert("darkgray"@[0] != "lavender"@[0]);
        reveal_strlit("darkgrey");
        assert("darkgrey"@[0] != "lavender"@[0]);
        reveal_strlit("deeppink");
        assert("deeppink"@[0] != "lavender"@[0]);
        reveal_strlit("honeydew");
        assert("honeydew"@[0] != "lavender"@[0]);
    }
    assert(t == "lavenderblush"@ ==> spec_named_color(s) == Some(NamedColor::Rgb(0xfff0f5))) by {
        reveal_strlit("lavenderblush");
        reveal_strlit("darkgoldenrod");
        assert("darkgoldenrod"@[0] != "lavenderblush"@[0]);
        reveal_strlit("darkslateblue");
        assert("darkslateblue"@[0] != "lavenderblush"@[0]);
        reveal_strlit("darkslategray");
        assert("darkslategray"@[0] != "lavenderblush"@[0]);
        reveal_strlit("darkslategrey");
        assert("darkslategrey"@[0] != "lavenderblush"@[0]);
        reveal_strlit("darkturquoise");
        assert("darkturquoise"@[0] != "lavenderblush"@[0]);
    }
    assert(t == "lawngreen"@ ==> spec_named_color(s) == Some(NamedColor::Rgb(0x7cfc00))) by {
        reveal_strlit("lawngreen");
        reveal_strlit("aliceblue");
        assert("aliceblue"@[0] != "lawngreen"@[0]);
        reveal_strlit("burlywood");
        assert("burlywood"@[0] != "lawngreen"@[0]);
        reveal_strlit("cadetblue");
        assert("cadetblue"@[0] != "lawngreen"@[0]);
        reveal_strlit("chocolate");
        assert("chocolate"@[0] != "lawngreen"@[0]);
        reveal_strlit("darkgreen");
        assert("darkgreen"@[0] != "lawngreen"@[0]);
        reveal_strlit("darkkhaki");
        assert("darkkhaki"@[0] != "lawngreen"@[0]);
        reveal_strlit("firebrick");
        assert("firebrick"@[0] != "lawngreen"@[0]);
        reveal_strlit("gainsboro");
        assert("gainsboro"@[0] != "lawngreen"@[0]);
        reveal_strlit("goldenrod");
        assert("goldenrod"@[0] != "lawngreen"@[0]);
        reveal_strlit("indianred");
        assert("indianred"@[0] != "lawngreen"@[0]);
    }
    assert(t == "lemonchiffon"@ ==> spec_named_color(s) == Some(NamedColor::Rgb(0xfffacd))) by {
        reveal_strlit("lemonchiffon");
        reveal_strlit("antiquewhite");
        assert("antiquewhite"@[0] != "lemonchiffon"@[0]);
        reveal_strlit("darkseagreen");
        assert("darkseagreen"@[0] != "lemonchiffon"@[0]);
    }
    assert(t == "lightblue"@ ==> spec_named_color(s) == Some(NamedColor::Rgb(0xadd8e6))) by {
        reveal_strlit("lightblue");
        reveal_strlit("aliceblue");
        assert("aliceblue"@[0] != "lightblue"@[0]);
        reveal_strlit("burlywood");
        assert("burlywood"@[0] != "lightblue"@[0]);
        reveal_strlit("cadetblue");
        assert("cadetblue"@[0] != "lightblue"@[0]);
        reveal_strlit("chocolate");
        assert("chocolate"@[0] != "lightblue"@[0]);
        reveal_strlit("darkgreen");
        assert("darkgreen"@[0] != "lightblue"@[0]);
        reveal_strlit("darkkhaki");
        assert("darkkhaki"@[0] != "lightblue"@[0]);
        reveal_strlit("firebrick");
        assert("firebrick"@[0] != "lightblue"@[0]);
        reveal_strlit("gainsboro");
        assert("gainsboro"@[0] != "lightblue"@[0]);
        reveal_strlit("goldenrod");
        assert("goldenrod"@[0] != "lightblue"@[0]);
        reveal_strlit("indianred");
        assert("indianred"@[0] != "lightblue"@[0]);
        reveal_strlit("lawngreen");
        assert("lawngreen"@[1] != "lightblue"@[1]);
    }
    assert(t == "lightcoral"@ ==> spec_named_color(s) == Some(NamedColor::Rgb(0xf08080))) by {
        reveal_strlit("lightcoral");
        reveal_strlit("aquamarine");
        assert("aquamarine"@[0] != "lightcoral"@[0]);
        reveal_strlit("blueviolet");
        assert("blueviolet"@[0] != "lightcoral"@[0]);
        reveal_strlit("chartreuse");
        assert("chartreuse"@[0] != "lightcoral"@[0]);
        reveal_strlit("darkorange");
        assert("darkorange"@[0] != "lightcoral"@[0]);
        reveal_strlit("darkorchid");
        assert("darkorchid"@[0] != "lightcoral"@[0]);
        reveal_strlit("darksalmon");
        assert("darksalmon"@[0] != "lightcoral"@[0]);
        reveal_strlit("darkviolet");
        assert("darkviolet"@[0] != "lightcoral"@[0]);
        reveal_strlit("dodgerblue");
        assert("dodgerblue"@[0] != "lightcoral"@[0]);
        reveal_strlit("ghostwhite");
        assert("ghostwhite"@[0] != "lightcoral"@[0]);
    }
    assert(t == "lightcyan"@ ==> spec_named_color(s) == Some(NamedColor::Rgb(0xe0ffff))) by {
        reveal_strlit("lightcyan");
        reveal_strlit("aliceblue");
        assert("aliceblue"@[0] != "lightcyan"@[0]);
        reveal_strlit("burlywood");
        assert("burlywood"@[0] != "lightcyan"@[0]);
        reveal_strlit("cadetblue");
        assert("cadetblue"@[0] != "lightcyan"@[0]);
        reveal_strlit("chocolate");
        assert("chocolate"@[0] != "lightcyan"@[0]);
        reveal_strlit("darkgreen");
        assert("darkgreen"@[0] != "lightcyan"@[0]);
        reveal_strlit("darkkhaki");
        assert("darkkhaki"@[0] != "lightcyan"@[0]);
        reveal_strlit("firebrick");
        assert("firebrick"@[0] != "lightcyan"@[0]);
        reveal_strlit("gainsboro");
        assert("gainsboro"@[0] != "lightcyan"@[0]);
        reveal_strlit("goldenrod");
        assert("goldenrod"@[0] != "lightcyan"@[0]);
        reveal_strlit("indianred");
        assert("indianred"@[0] != "lightcyan"@[0]);
        reveal_strlit("lawngreen");
        assert("lawngreen"@[1] != "lightcyan"@[1]);
        reveal_strlit("lightblue");
        assert("lightblue"@[5] != "lightcyan"@[5]);
    }
    assert(t == "lightgray"@ ==> spec_named_color(s) == Some(NamedColor::Rgb(0xd3d3d3))) by {
        reveal_strlit("lightgray");
        reveal_strlit("aliceblue");
        assert("aliceblue"@[0] != "lightgray"@[0]);
        reveal_strlit("burlywood");
        assert("burlywood"@[0] != "lightgray"@[0]);
        reveal_strlit("cadetblue");
        assert("cadetblue"@[0] != "lightgray"@[0]);
        reveal_strlit("chocolate");
        assert("chocolate"@[0] != "lightgray"@[0]);
        reveal_strlit("darkgreen");
        assert("darkgreen"@[0] != "lightgray"@[0]);
        reveal_strlit("darkkhaki");
        assert("darkkhaki"@[0] != "lightgray"@[0]);
        reveal_strlit("firebrick");
        assert("firebrick"@[0] != "lightgray"@[0]);
        reveal_strlit("gainsboro");
        assert("gainsboro"@[0] != "lightgray"@[0]);
        reveal_strlit("goldenrod");
        assert("goldenrod"@[0] != "lightgray"@[0]);
        reveal_strlit("indianred");
        assert("indianred"@[0] != "lightgray"@[0]);
        reveal_strlit("lawngreen");
        assert("lawngreen"@[1] != "lightgray"@[1]);
        reveal_strlit("lightblue");
        assert("lightblue"@[5] != "lightgray"@[5]);
        reveal_strlit("lightcyan");
        assert("lightcyan"@[5] != "lightgray"@[5]);
    }
    assert(t == "lightgrey"@ ==> spec_named_color(s) == Some(NamedColor::Rgb(0xd3d3d3))) by {
        reveal_strlit("lightgrey");
        reveal_strlit("aliceblue");
        assert("aliceblue"@[0] != "lightgrey"@[0]);
        reveal_strlit("burlywood");
        assert("burlywood"@[0] != "lightgrey"@[0]);
        reveal_strlit("cadetblue");
        assert("cadetblue"@[0] != "lightgrey"@[0]);
        reveal_strlit("chocolate");
        assert("chocolate"@[0] != "lightgrey"@[0]);
        reveal_strlit("darkgreen");
        assert("darkgreen"@[0] != "lightgrey"@[0]);
        reveal_strlit("darkkhaki");
        assert("darkkhaki"@[0] != "lightgrey"@[0]);
        reveal_strlit("firebrick");
        assert("firebrick"@[0] != "lightgrey"@[0]);
        reveal_strlit("gainsboro");
        assert("gainsboro"@[0] != "lightgrey"@[0]);
        reveal_strlit("goldenrod");
        assert("goldenrod"@[0] != "lightgrey"@[0]);
        reveal_strlit("indianred");
        assert("indianred"@[0] != "lightgrey"@[0]);
        reveal_strlit("lawngreen");
        assert("lawngreen"@[1] != "lightgrey"@[1]);
        reveal_strlit("lightblue");
        assert("lightblue"@[5] != "lightgrey"@[5]);
        reveal_strlit("lightcyan");
        assert("lightcyan"@[5] != "lightgrey"@[5]);
        reveal_strlit("lightgray");
        assert("lightgray"@[7] != "lightgrey"@[7]);
    }
    assert(t == "lightgreen"@ ==> spec_named_color(s) == Some(NamedColor::Rgb(0x90ee90))) by {
        reveal_strlit("lightgreen");
        reveal_strlit("aquamarine");
        assert("aquamarine"@[0] != "lightgreen"@[0]);
        reveal_strlit("blueviolet");
        assert("blueviolet"@[0] != "lightgreen"@[0]);
        reveal_strlit("chartreuse");
        assert("chartreuse"@[0] != "lightgreen"@[0]);
        reveal_strlit("darkorange");
        assert("darkorange"@[0] != "lightgreen"@[0]);
        reveal_strlit("darkorchid");
        assert("darkorchid"@[0] != "lightgreen"@[0]);
        reveal_strlit("darksalmon");
        assert("darksalmon"@[0] != "lightgreen"@[0]);
        reveal_strlit("darkviolet");
        assert("darkviolet"@[0] != "lightgreen"@[0]);
        reveal_strlit("dodgerblue");
        assert("dodgerblue"@[0] != "lightgreen"@[0]);
        reveal_strlit("ghostwhite");
        assert("ghostwhite"@[0] != "lightgreen"@[0]);
        reveal_strlit("lightcoral");
        assert("lightcoral"@[5] != "lightgreen"@[5]);
    }
}

/// Each CSS named colour of the keyword table from `lightpink` through `moccasin`,
/// written in any ASCII case, resolves to its CSS Color Module value.
pub proof fn lemma_named_colors_lightpink_to_moccasin(s: Seq<char>)
    ensures
        ascii_lower_seq(s) == "lightpink"@ ==> spec_named_color(s) == Some(NamedColor::Rgb(0xffb6c1)),
        ascii_lower_seq(s) == "lightsalmon"@ ==> spec_named_color(s) == Some(NamedColor::Rgb(0xffa07a)),
        ascii_lower_seq(s) == "lightseagreen"@ ==> spec_named_color(s) == Some(NamedColor::Rgb(0x20b2aa)),
        ascii_lower_seq(s) == "lightskyblue"@ ==> spec_named_color(s) == Some(NamedColor::Rgb(0x87cefa)),
        ascii_lower_seq(s) == "lightslategray"@ ==> spec_named_color(s) == Some(NamedColor::Rgb(0x778899)),
        ascii_lower_seq(s) == "lightslategrey"@ ==> spec_named_color(s) == Some(NamedColor::Rgb(0x778899)),
        ascii_lower_seq(s) == "lightsteelblue"@ ==> spec_named_color(s) == Some(NamedColor::Rgb(0xb0c4de)),
        ascii_lower_seq(s) == "lightyellow"@ ==> spec_named_color(s) == Some(NamedColor::Rgb(0xffffe0)),
        ascii_lower_seq(s) == "lime"@ ==> spec_named_color(s) == Some(NamedColor::Rgb(0x00ff00)),
        ascii_lower_seq(s) == "limegreen"@ ==> spec_named_color(s) == Some(NamedColor::Rgb(0x32cd32)),
        ascii_lower_seq(s) == "linen"@ ==> spec_named_color(s) == Some(NamedColor::Rgb(0xfaf0e6)),
        ascii_lower_seq(s) == "maroon"@ ==> spec_named_color(s) == Some(NamedColor::Rgb(0x800000)),
        ascii_lower_seq(s) == "mediumaquamarine"@ ==> spec_named_color(s) == Some(NamedColor::Rgb(0x66cdaa)),
        ascii_lower_seq(s) == "mediumblue"@ ==> spec_named_color(s) == Some(NamedColor::Rgb(0x0000cd)),
        ascii_lower_seq(s) == "mediumorchid"@ ==> spec_named_color(s) == Some(NamedColor::Rgb(0xba55d3)),
        ascii_lower_seq(s) == "mediumpurple"@ ==> spec_named_color(s) == Some(NamedColor::Rgb(0x9370db)),
        ascii_lower_seq(s) == "mediumseagreen"@ ==> spec_named_color(s) == Some(NamedColor::Rgb(0x3cb371)),
        ascii_lower_seq(s) == "mediumslateblue"@ ==> spec_named_color(s) == Some(NamedColor::Rgb(0x7b68ee)),
        ascii_lower_seq(s) == "mediumspringgreen"@ ==> spec_named_color(s) == Some(NamedColor::Rgb(0x00fa9a)),
        ascii_lower_seq(s) == "mediumturquoise"@ ==> spec_named_color(s) == Some(NamedColor::Rgb(0x48d1cc)),
        ascii_lower_seq(s) == "mediumvioletred"@ ==> spec_named_color(s) == Some(NamedColor::Rgb(0xc71585)),
        ascii_lower_seq(s) == "midnightblue"@ ==> spec_named_color(s) == Some(NamedColor::Rgb(0x191970)),
        ascii_lower_seq(s) == "mintcream"@ ==> spec_named_color(s) == Some(NamedColor::Rgb(0xf5fffa)),
        ascii_lower_seq(s) == "mistyrose"@ ==> spec_named_color(s) == Some(NamedColor::Rgb(0xffe4e1)),
        ascii_lower_seq(s) == "moccasin"@ ==> spec_named_color(s) == Some(NamedColor::Rgb(0xffe4b5)),
{
    lemma_color_name_lengths();
    let t = ascii_lower_seq(s);
    assert(t == "lightpink"@ ==> spec_named_color(s) == Some(NamedColor::Rgb(0xffb6c1))) by {
        reveal_strlit("lightpink");
        reveal_strlit("aliceblue");
        assert("aliceblue"@[0] != "lightpink"@[0]);
        reveal_strlit("burlywood");
        assert("burlywood"@[0] != "lightpink"@[0]);
        reveal_strlit("cadetblue");
        assert("cadetblue"@[0] != "lightpink"@[0]);
        reveal_strlit("chocolate");
        assert("chocolate"@[0] != "lightpink"@[0]);
        reveal_strlit("darkgreen");
        assert("darkgreen"@[0] != "lightpink"@[0]);
        reveal_strlit("darkkhaki");
        assert("darkkhaki"@[0] != "lightpink"@[0]);
        reveal_strlit("firebrick");
        assert("firebrick"@[0] != "lightpink"@[0]);
        reveal_strlit("gainsboro");
        assert("gainsboro"@[0] != "lightpink"@[0]);
        reveal_strlit("goldenrod");
        assert("goldenrod"@[0] != "lightpink"@[0]);
        reveal_strlit("indianred");
        assert("indianred"@[0] != "lightpink"@[0]);
        reveal_strlit("lawngreen");
        assert("lawngreen"@[1] != "lightpink"@[1]);
        reveal_strlit("lightblue");
        assert("lightblue"@[5] != "lightpink"@[5]);
        reveal_strlit("lightcyan");
        assert("lightcyan"@[5] != "lightpink"@[5]);
        reveal_strlit("lightgray");
        assert("lightgray"@[5] != "lightpink"@[5]);
        reveal_strlit("lightgrey");
        assert("lightgrey"@[5] != "lightpink"@[5]);
    }
    assert(t == "lightsalmon"@ ==> spec_named_color(s) == Some(NamedColor::Rgb(0xffa07a))) by {
        reveal_strlit("lightsalmon");
        reveal_strlit("transparent");
        assert("transparent"@[0] != "lightsalmon"@[0]);
        reveal_strlit("darkmagenta");
        assert("darkmagenta"@[0] != "lightsalmon"@[0]);
        reveal_strlit("deepskyblue");
        assert("deepskyblue"@[0] != "lightsalmon"@[0]);
        reveal_strlit("floralwhite");
        assert("floralwhite"@[0] != "lightsalmon"@[0]);
        reveal_strlit("forestgreen");
        assert("forestgreen"@[0] != "lightsalmon"@[0]);
        reveal_strlit("greenyellow");
        assert("greenyellow"@[0] != "lightsalmon"@[0]);
    }
    assert(t == "lightseagreen"@ ==> spec_named_color(s) == Some(NamedColor::Rgb(0x20b2aa))) by {
        reveal_strlit("lightseagreen");
        reveal_strlit("darkgoldenrod");
        assert("darkgoldenrod"@[0] != "lightseagreen"@[0]);
        reveal_strlit("darkslateblue");
        assert("darkslateblue"@[0] != "lightseagreen"@[0]);
        reveal_strlit("darkslategray");
        assert("darkslategray"@[0] != "lightseagreen"@[0]);
        reveal_strlit("darkslategrey");
        assert("darkslategrey"@[0] != "lightseagreen"@[0]);
        reveal_strlit("darkturquoise");
        assert("darkturquoise"@[0] != "lightseagreen"@[0]);
        reveal_strlit("lavenderblush");
        assert("lavenderblush"@[1] != "lightseagreen"@[1]);
    }
    assert(t == "lightskyblue"@ ==> spec_named_color(s) == Some(NamedColor::Rgb(0x87cefa))) by {
        reveal_strlit("lightskyblue");
        reveal_strlit("antiquewhite");
        assert("antiquewhite"@[0] != "lightskyblue"@[0]);
        reveal_strlit("darkseagreen");
        assert("darkseagreen"@[0] != "lightskyblue"@[0]);
        reveal_strlit("lemonchiffon");
        assert("lemonchiffon"@[1] != "lightskyblue"@[1]);
    }
    assert(t == "lightslategray"@ ==> spec_named_color(s) == Some(NamedColor::Rgb(0x778899))) by {
        reveal_strlit("lightslategray");
        reveal_strlit("blanchedalmond");
        assert("blanchedalmond"@[0] != "lightslategray"@[0]);
        reveal_strlit("cornflowerblue");
        assert("cornflowerblue"@[0] != "lightslategray"@[0]);
        reveal_strlit("darkolivegreen");
        assert("darkolivegreen"@[0] != "lightslategray"@[0]);
    }
    assert(t == "lightslategrey"@ ==> spec_named_color(s) == Some(NamedColor::Rgb(0x778899))) by {
        reveal_strlit("lightslategrey");
        reveal_strlit("blanchedalmond");
        assert("blanchedalmond"@[0] != "lightslategrey"@[0]);
        reveal_strlit("cornflowerblue");
        assert("cornflowerblue"@[0] != "lightslategrey"@[0]);
        reveal_strlit("darkolivegreen");
        assert("darkolivegreen"@[0] != "lightslategrey"@[0]);
        reveal_strlit("lightslategray");
        assert("lightslategray"@[12] != "lightslategrey"@[12]);
    }
    assert(t == "lightsteelblue"@ ==> spec_named_color(s) == Some(NamedColor::Rgb(0xb0c4de))) by {
        reveal_strlit("lightsteelblue");
        reveal_strlit("blanchedalmond");
        assert("blanchedalmond"@[0] != "lightsteelblue"@[0]);
        reveal_strlit("cornflowerblue");
        assert("cornflowerblue"@[0] != "lightsteelblue"@[0]);
        reveal_strlit("darkolivegreen");
        assert("darkolivegreen"@[0] != "lightsteelblue"@[0]);
        reveal_strlit("lightslategray");
        assert("lightslategray"@[6] != "lightsteelblue"@[6]);
        reveal_strlit("lightslategrey");
        assert("lightslategrey"@[6] != "lightsteelblue"@[6]);
    }
    assert(t == "lightyellow"@ ==> spec_named_color(s) == Some(NamedColor::Rgb(0xffffe0))) by {
        reveal_strlit("lightyellow");
        reveal_strlit("transparent");
        assert("transparent"@[0] != "lightyellow"@[0]);
        reveal_strlit("darkmagenta");
        assert("darkmagenta"@[0] != "lightyellow"@[0]);
        reveal_strlit("deepskyblue");
        assert("deepskyblue"@[0] != "lightyellow"@[0]);
        reveal_strlit("floralwhite");
        assert("floralwhite"@[0] != "lightyellow"@[0]);
        reveal_strlit("forestgreen");
        assert("forestgreen"@[0] != "lightyellow"@[0]);
        reveal_strlit("greenyellow");
        assert("greenyellow"@[0] != "lightyellow"@[0]);
        reveal_strlit("lightsalmon");
        assert("lightsalmon"@[5] != "lightyellow"@[5]);
    }
    assert(t == "lime"@ ==> spec_named_color(s) == Some(NamedColor::Rgb(0x00ff00))) by {
        reveal_strlit("lime");
        reveal_strlit("aqua");
        assert("aqua"@[0] != "lime"@[0]);
        reveal_strlit("cyan");
        assert("cyan"@[0] != "lime"@[0]);
        reveal_strlit("blue");
        assert("blue"@[0] != "lime"@[0]);
        reveal_strlit("gold");
        assert("gold"@[0] != "lime"@[0]);
        reveal_strlit("gray");
        assert("gray"@[0] != "lime"@[0]);
        reveal_strlit("grey");
        assert("grey"@[0] != "lime"@[0]);
    }
    assert(t == "limegreen"@ ==> spec_named_color(s) == Some(NamedColor::Rgb(0x32cd32))) by {
        reveal_strlit("limegreen");
        reveal_strlit("aliceblue");
        assert("aliceblue"@[0] != "limegreen"@[0]);
        reveal_strlit("burlywood");
        assert("burlywood"@[0] != "limegreen"@[0]);
        reveal_strlit("cadetblue");
        assert("cadetblue"@[0] != "limegreen"@[0]);
        reveal_strlit("chocolate");
        assert("chocolate"@[0] != "limegreen"@[0]);
        reveal_strlit("darkgreen");
        assert("darkgreen"@[0] != "limegreen"@[0]);
        reveal_strlit("darkkhaki");
        assert("darkkhaki"@[0] != "limegreen"@[0]);
        reveal_strlit("firebrick");
        assert("firebrick"@[0] != "limegreen"@[0]);
        reveal_strlit("gainsboro");
        assert("gainsboro"@[0] != "limegreen"@[0]);
        reveal_strlit("goldenrod");
        assert("goldenrod"@[0] != "limegreen"@[0]);
        reveal_strlit("indianred");
        assert("indianred"@[0] != "limegreen"@[0]);
        reveal_strlit("lawngreen");
        assert("lawngreen"@[1] != "limegreen"@[1]);
        reveal_strlit("lightblue");
        assert("lightblue"@[2] != "limegreen"@[2]);
        reveal_strlit("lightcyan");
        assert("lightcyan"@[2] != "limegreen"@[2]);
        reveal_strlit("lightgray");
        assert("lightgray"@[2] != "limegreen"@[2]);
        reveal_strlit("lightgrey");
        assert("lightgrey"@[2] != "limegreen"@[2]);
        reveal_strlit("lightpink");
        assert("lightpink"@[2] != "limegreen"@[2]);
    }
    assert(t == "linen"@ ==> spec_named_color(s) == Some(NamedColor::Rgb(0xfaf0e6))) by {
        reveal_strlit("linen");
        reveal_strlit("azure");
        assert("azure"@[0] != "linen"@[0]);
        reveal_strlit("beige");
        assert("beige"@[0] != "linen"@[0]);
        reveal_strlit("black");
        assert("black"@[0] != "linen"@[0]);
        reveal_strlit("brown");
        assert("brown"@[0] != "linen"@[0]);
        reveal_strlit("coral");
        assert("coral"@[0] != "linen"@[0]);
        reveal_strlit("green");
        assert("green"@[0] != "linen"@[0]);
        reveal_strlit("ivory");
        assert("ivory"@[0] != "linen"@[0]);
        reveal_strlit("khaki");
        assert("khaki"@[0] != "linen"@[0]);
    }
    assert(t == "maroon"@ ==> spec_named_color(s) == Some(NamedColor::Rgb(0x800000))) by {
        reveal_strlit("maroon");
        reveal_strlit("bisque");
        assert("bisque"@[0] != "maroon"@[0]);
        reveal_strlit("indigo");
        assert("indigo"@[0] != "maroon"@[0]);
    }
    assert(t == "mediumblue"@ ==> spec_named_color(s) == Some(NamedColor::Rgb(0x0000cd))) by {
        reveal_strlit("mediumblue");
        reveal_strlit("aquamarine");
        assert("aquamarine"@[0] != "mediumblue"@[0]);
        reveal_strlit("blueviolet");
        assert("blueviolet"@[0] != "mediumblue"@[0]);
        reveal_strlit("chartreuse");
        assert("chartreuse"@[0] != "mediumblue"@[0]);
        reveal_strlit("darkorange");
        assert("darkorange"@[0] != "mediumblue"@[0]);
        reveal_strlit("darkorchid");
        assert("darkorchid"@[0] != "mediumblue"@[0]);
        reveal_strlit("darksalmon");
        assert("darksalmon"@[0] != "mediumblue"@[0]);
        reveal_strlit("darkviolet");
        assert("darkviolet"@[0] != "mediumblue"@[0]);
        reveal_strlit("dodgerblue");
        assert("dodgerblue"@[0] != "mediumblue"@[0]);
        reveal_strlit("ghostwhite");
        assert("ghostwhite"@[0] != "mediumblue"@[0]);
        reveal_strlit("lightcoral");
        assert("lightcoral"@[0] != "mediumblue"@[0]);
        reveal_strlit("lightgreen");
        assert("lightgreen"@[0] != "mediumblue"@[0]);
    }
    assert(t == "mediumorchid"@ ==> spec_named_color(s) == Some(NamedColor::Rgb(0xba55d3))) by {
        reveal_strlit("mediumorchid");
        reveal_strlit("antiquewhite");
        assert("antiquewhite"@[0] != "mediumorchid"@[0]);
        reveal_strlit("darkseagreen");
        assert("darkseagreen"@[0] != "mediumorchid"@[0]);
        reveal_strlit("lemonchiffon");
        assert("lemonchiffon"@[0] != "mediumorchid"@[0]);
        reveal_strlit("lightskyblue");
        assert("lightskyblue"@[0] != "mediumorchid"@[0]);
    }
    assert(t == "mediumpurple"@ ==> spec_named_color(s) == Some(NamedColor::Rgb(0x9370db))) by {
        reveal_strlit("mediumpurple");
        reveal_strlit("antiquewhite");
        assert("antiquewhite"@[0] != "mediumpurple"@[0]);
        reveal_strlit("darkseagreen");
        assert("darkseagreen"@[0] != "mediumpurple"@[0]);
        reveal_strlit("lemonchiffon");
        assert("lemonchiffon"@[0] != "mediumpurple"@[0]);
        reveal_strlit("lightskyblue");
        assert("lightskyblue"@[0] != "mediumpurple"@[0]);
        reveal_strlit("mediumorchid");
        assert("mediumorchid"@[6] != "mediumpurple"@[6]);
    }
    assert(t == "mediumseagreen"@ ==> spec_named_color(s) == Some(NamedColor::Rgb(0x3cb371))) by {
        reveal_strlit("mediumseagreen");
        reveal_strlit("blanchedalmond");
        assert("blanchedalmond"@[0] != "mediumseagreen"@[0]);
        reveal_strlit("cornflowerblue");
        assert("cornflowerblue"@[0] != "mediumseagreen"@[0]);
        reveal_strlit("darkolivegreen");
        assert("darkolivegreen"@[0] != "mediumseagreen"@[0]);
        reveal_strlit("lightslategray");
        assert("lightslategray"@[0] != "mediumseagreen"@[0]);
        reveal_strlit("lightslategrey");
        assert("lightslategrey"@[0] != "mediumseagreen"@[0]);
        reveal_strlit("lightsteelblue");
        assert("lightsteelblue"@[0] != "mediumseagreen"@[0]);
    }
    assert(t == "mediumturquoise"@ ==> spec_named_color(s) == Some(NamedColor::Rgb(0x48d1cc))) by {
        reveal_strlit("mediumturquoise");
        reveal_strlit("mediumslateblue");
        assert("mediumslateblue"@[6] != "mediumturquoise"@[6]);
    }
    assert(t == "mediumvioletred"@ ==> spec_named_color(s) == Some(NamedColor::Rgb(0xc71585))) by {
        reveal_strlit("mediumvioletred");
        reveal_strlit("mediumslateblue");
        assert("mediumslateblue"@[6] != "mediumvioletred"@[6]);
        reveal_strlit("mediumturquoise");
        assert("mediumturquoise"@[6] != "mediumvioletred"@[6]);
    }
    assert(t == "midnightblue"@ ==> spec_named_color(s) == Some(NamedColor::Rgb(0x191970))) by {
        reveal_strlit("midnightblue");
        reveal_strlit("antiquewhite");
        assert("antiquewhite"@[0] != "midnightblue"@[0]);
        reveal_strlit("darkseagreen");
        assert("darkseagreen"@[0] != "midnightblue"@[0]);
        reveal_strlit("lemonchiffon");
        assert("lemonchiffon"@[0] != "midnightblue"@[0]);
        reveal_strlit("lightskyblue");
        assert("lightskyblue"@[0] != "midnightblue"@[0]);
        reveal_strlit("mediumorchid");
        assert("mediumorchid"@[1] != "midnightblue"@[1]);
        reveal_strlit("mediumpurple");
        assert("mediumpurple"@[1] != "midnightblue"@[1]);
    }
    assert(t == "mintcream"@ ==> spec_named_color(s) == Some(NamedColor::Rgb(0xf5fffa))) by {
        reveal_strlit("mintcream");
        reveal_strlit("aliceblue");
        assert("aliceblue"@[0] != "mintcream"@[0]);
        reveal_strlit("burlywood");
        assert("burlywood"@[0] != "mintcream"@[0]);
        reveal_strlit("cadetblue");
        assert("cadetblue"@[0] != "mintcream"@[0]);
        reveal_strlit("chocolate");
        assert("chocolate"@[0] != "mintcream"@[0]);
        reveal_strlit("darkgreen");
        assert("darkgreen"@[0] != "mintcream"@[0]);
        reveal_strlit("darkkhaki");
        assert("darkkhaki"@[0] != "mintcream"@[0]);
        reveal_strlit("firebrick");
        assert("firebrick"@[0] != "mintcream"@[0]);
        reveal_strlit("gainsboro");
        assert("gainsboro"@[0] != "mintcream"@[0]);
        reveal_strlit("goldenrod");
        assert("goldenrod"@[0] != "mintcream"@[0]);
        reveal_strlit("indianred");
        assert("indianred"@[0] != "mintcream"@[0]);
        reveal_strlit("lawngreen");
        assert("lawngreen"@[0] != "mintcream"@[0]);
        reveal_strlit("lightblue");
        assert("lightblue"@[0] != "mintcream"@[0]);
        reveal_strlit("lightcyan");
        assert("lightcyan"@[0] != "mintcream"@[0]);
        reveal_strlit("lightgray");
        assert("lightgray"@[0] != "mintcream"@[0]);
        reveal_strlit("lightgrey");
        assert("lightgrey"@[0] != "mintcream"@[0]);
        reveal_strlit("lightpink");
        assert("lightpink"@[0] != "mintcream"@[0]);
        reveal_strlit("limegreen");
        assert("limegreen"@[0] != "mintcream"@[0]);
    }
    assert(t == "mistyrose"@ ==> spec_named_color(s) == Some(NamedColor::Rgb(0xffe4e1))) by {
        reveal_strlit("mistyrose");
        reveal_strlit("aliceblue");
        assert("aliceblue"@[0] != "mistyrose"@[0]);
        reveal_strlit("burlywood");
        assert("burlywood"@[0] != "mistyrose"@[0]);
        reveal_strlit("cadetblue");
        assert("cadetblue"@[0] != "mistyrose"@[0]);
        reveal_strlit("chocolate");
        assert("chocolate"@[0] != "mistyrose"@[0]);
        reveal_strlit("darkgreen");
        assert("darkgreen"@[0] != "mistyrose"@[0]);
        reveal_strlit("darkkhaki");
        assert("darkkhaki"@[0] != "mistyrose"@[0]);
        reveal_strlit("firebrick");
        assert("firebrick"@[0] != "mistyrose"@[0]);
        reveal_strlit("gainsboro");
        assert("gainsboro"@[0] != "mistyrose"@[0]);
        reveal_strlit("goldenrod");
        assert("goldenrod"@[0] != "mistyrose"@[0]);
        reveal_strlit("indianred");
        assert("indianred"@[0] != "mistyrose"@[0]);
        reveal_strlit("lawngreen");
        assert("lawngreen"@[0] != "mistyrose"@[0]);
        reveal_strlit("lightblue");
        assert("lightblue"@[0] != "mistyrose"@[0]);
        reveal_strlit("lightcyan");
        assert("lightcyan"@[0] != "mistyrose"@[0]);
        reveal_strlit("lightgray");
        assert("lightgray"@[0] != "mistyrose"@[0]);
        reveal_strlit("lightgrey");
        assert("lightgrey"@[0] != "mistyrose"@[0]);
        reveal_strlit("lightpink");
        assert("lightpink"@[0] != "mistyrose"@[0]);
        reveal_strlit("limegreen");
        assert("limegreen"@[0] != "mistyrose"@[0]);
        reveal_strlit("mintcream");
        assert("mintcream"@[2] != "mistyrose"@[2]);
    }
    assert(t == "moccasin"@ ==> spec_named_color(s) == Some(NamedColor::Rgb(0xffe4b5))) by {
        reveal_strlit("moccasin");
        reveal_strlit("cornsilk");
        assert("cornsilk"@[0] != "moccasin"@[0]);
        reveal_strlit("darkblue");
        assert("darkblue"@[0] != "moccasin"@[0]);
        reveal_strlit("darkcyan");
        assert("darkcyan"@[0] != "moccasin"@[0]);
        reveal_strlit("darkgray");
        assert("darkgray"@[0] != "moccasin"@[0]);
        reveal_strlit("darkgrey");
        assert("darkgrey"@[0] != "moccasin"@[0]);
        reveal_strlit("deeppink");
        assert("deeppink"@[0] != "moccasin"@[0]);
        reveal_strlit("honeydew");
        assert("honeydew"@[0] != "moccasin"@[0]);
        reveal_strlit("lavender");
        assert("lavender"@[0] != "moccasin"@[0]);
    }
}

/// Each CSS named colour of the keyword table from `navajowhite` through `salmon`,
/// written in any ASCII case, resolves to its CSS Color Module value.
pub proof fn lemma_named_colors_navajowhite_to_salmon(s: Seq<char>)
    ensures
        ascii_lower_seq(s) == "navajowhite"@ ==> spec_named_color(s) == Some(NamedColor::Rgb(0xffdead)),
        ascii_lower_seq(s) == "navy"@ ==> spec_named_color(s) == Some(NamedColor::Rgb(0x000080)),
        ascii_lower_seq(s) == "oldlace"@ ==> spec_named_color(s) == Some(NamedColor::Rgb(0xfdf5e6)),
        ascii_lower_seq(s) == "olive"@ ==> spec_named_color(s) == Some(NamedColor::Rgb(0x808000)),
        ascii_lower_seq(s) == "olivedrab"@ ==> spec_named_color(s) == Some(NamedColor::Rgb(0x6b8e23)),
        ascii_lower_seq(s) == "orange"@ ==> spec_named_color(s) == Some(NamedColor::Rgb(0xffa500)),
        ascii_lower_seq(s) == "orangered"@ ==> spec_named_color(s) == Some(NamedColor::Rgb(0xff4500)),
        ascii_lower_seq(s) == "orchid"@ ==> spec_named_color(s) == Some(NamedColor::Rgb(0xda70d6)),
        ascii_lower_seq(s) == "palegoldenrod"@ ==> spec_named_color(s) == Some(NamedColor::Rgb(0xeee8aa)),
        ascii_lower_seq(s) == "palegreen"@ ==> spec_named_color(s) == Some(NamedColor::Rgb(0x98fb98)),
        ascii_lower_seq(s) == "paleturquoise"@ ==> spec_named_color(s) == Some(NamedColor::Rgb(0xafeeee)),
        ascii_lower_seq(s) == "palevioletred"@ ==> spec_named_color(s) == Some(NamedColor::Rgb(0xdb7093)),
        ascii_lower_seq(s) == "papayawhip"@ ==> spec_named_color(s) == Some(NamedColor::Rgb(0xffefd5)),
        ascii_lower_seq(s) == "peachpuff"@ ==> spec_named_color(s) == Some(NamedColor::Rgb(0xffdab9)),
        ascii_lower_seq(s) == "peru"@ ==> spec_named_color(s) == Some(NamedColor::Rgb(0xcd853f)),
        ascii_lower_seq(s) == "pink"@ ==> spec_named_color(s) == Some(NamedColor::Rgb(0xffc0cb)),
        ascii_lower_seq(s) == "plum"@ ==> spec_named_color(s) == Some(NamedColor::Rgb(0xdda0dd)),
        ascii_lower_seq(s) == "powderblue"@ ==> spec_named_color(s) == Some(NamedColor::Rgb(0xb0e0e6)),
        ascii_lower_seq(s) == "purple"@ ==> spec_named_color(s) == Some(NamedColor::Rgb(0x800080)),
        ascii_lower_seq(s) == "rebeccapurple"@ ==> spec_named_color(s) == Some(NamedColor::Rgb(0x663399)),
        ascii_lower_seq(s) == "red"@ ==> spec_named_color(s) == Some(NamedColor::Rgb(0xff0000)),
        ascii_lower_seq(s) == "rosybrown"@ ==> spec_named_color(s) == Some(NamedColor::Rgb(0xbc8f8f)),
        ascii_lower_seq(s) == "royalblue"@ ==> spec_named_color(s) == Some(NamedColor::Rgb(0x4169e1)),
        ascii_lower_seq(s) == "saddlebrown"@ ==> spec_named_color(s) == Some(NamedColor::Rgb(0x8b4513)),
        ascii_lower_seq(s) == "salmon"@ ==> spec_named_color(s) == Some(NamedColor::Rgb(0xfa8072)),
{
    lemma_color_name_lengths();
    let t = ascii_lower_seq(s);
    assert(t == "navajowhite"@ ==> spec_named_color(s) == Some(NamedColor::Rgb(0xffdead))) by {
        reveal_strlit("navajowhite");
        reveal_strlit("transparent");
        assert("transparent"@[0] != "navajowhite"@[0]);
        reveal_strlit("darkmagenta");
        assert("darkmagenta"@[0] != "navajowhite"@[0]);
        reveal_strlit("deepskyblue");
        assert("deepskyblue"@[0] != "navajowhite"@[0]);
        reveal_strlit("floralwhite");
        assert("floralwhite"@[0] != "navajowhite"@[0]);
        reveal_strlit("forestgreen");
        assert("forestgreen"@[0] != "navajowhite"@[0]);
        reveal_strlit("greenyellow");
        assert("greenyellow"@[0] != "navajowhite"@[0]);
        reveal_strlit("lightsalmon");
        assert("lightsalmon"@[0] != "navajowhite"@[0]);
        reveal_strlit("lightyellow");
        assert("lightyellow"@[0] != "navajowhite"@[0]);
    }
    assert(t == "navy"@ ==> spec_named_color(s) == Some(NamedColor::Rgb(0x000080))) by {
        reveal_strlit("navy");
        reveal_strlit("aqua");
        assert("aqua"@[0] != "navy"@[0]);
        reveal_strlit("cyan");
        assert("cyan"@[0] != "navy"@[0]);
        reveal_strlit("blue");
        assert("blue"@[0] != "navy"@[0]);
        reveal_strlit("gold");
        assert("gold"@[0] != "navy"@[0]);
        reveal_strlit("gray");
        assert("gray"@[0] != "navy"@[0]);
        reveal_strlit("grey");
        assert("grey"@[0] != "navy"@[0]);
        reveal_strlit("lime");
        assert("lime"@[0] != "navy"@[0]);
    }
    assert(t == "oldlace"@ ==> spec_named_color(s) == Some(NamedColor::Rgb(0xfdf5e6))) by {
        reveal_strlit("oldlace");
        reveal_strlit("crimson");
        assert("crimson"@[0] != "oldlace"@[0]);
        reveal_strlit("darkred");
        assert("darkred"@[0] != "oldlace"@[0]);
        reveal_strlit("dimgray");
        assert("dimgray"@[0] != "oldlace"@[0]);
        reveal_strlit("dimgrey");
        assert("dimgrey"@[0] != "oldlace"@[0]);
        reveal_strlit("fuchsia");
        assert("fuchsia"@[0] != "oldlace"@[0]);
        reveal_strlit("magenta");
        assert("magenta"@[0] != "oldlace"@[0]);
        reveal_strlit("hotpink");
        assert("hotpink"@[0] != "oldlace"@[0]);
    }
    assert(t == "olive"@ ==> spec_named_color(s) == Some(NamedColor::Rgb(0x808000))) by {
        reveal_strlit("olive");
        reveal_strlit("azure");
        assert("azure"@[0] != "olive"@[0]);
        reveal_strlit("beige");
        assert("beige"@[0] != "olive"@[0]);
        reveal_strlit("black");
        assert("black"@[0] != "olive"@[0]);
        reveal_strlit("brown");
        assert("brown"@[0] != "olive"@[0]);
        reveal_strlit("coral");
        assert("coral"@[0] != "olive"@[0]);
        reveal_strlit("green");
        assert("green"@[0] != "olive"@[0]);
        reveal_strlit("ivory");
        assert("ivory"@[0] != "olive"@[0]);
        reveal_strlit("khaki");
        assert("khaki"@[0] != "olive"@[0]);
        reveal_strlit("linen");
        assert("linen"@[0] != "olive"@[0]);
    }
    assert(t == "olivedrab"@ ==> spec_named_color(s) == Some(NamedColor::Rgb(0x6b8e23))) by {
        reveal_strlit("olivedrab");
        reveal_strlit("aliceblue");
        assert("aliceblue"@[0] != "olivedrab"@[0]);
        reveal_strlit("burlywood");
        assert("burlywood"@[0] != "olivedrab"@[0]);
        reveal_strlit("cadetblue");
        assert("cadetblue"@[0] != "olivedrab"@[0]);
        reveal_strlit("chocolate");
        assert("chocolate"@[0] != "olivedrab"@[0]);
        reveal_strlit("darkgreen");
        assert("darkgreen"@[0] != "olivedrab"@[0]);
        reveal_strlit("darkkhaki");
        assert("darkkhaki"@[0] != "olivedrab"@[0]);
        reveal_strlit("firebrick");
        assert("firebrick"@[0] != "olivedrab"@[0]);
        reveal_strlit("gainsboro");
        assert("gainsboro"@[0] != "olivedrab"@[0]);
        reveal_strlit("goldenrod");
        assert("goldenrod"@[0] != "olivedrab"@[0]);
        reveal_strlit("indianred");
        assert("indianred"@[0] != "olivedrab"@[0]);
        reveal_strlit("lawngreen");
        assert("lawngreen"@[0] != "olivedrab"@[0]);
        reveal_strlit("lightblue");
        assert("lightblue"@[0] != "olivedrab"@[0]);
        reveal_strlit("lightcyan");
        assert("lightcyan"@[0] != "olivedrab"@[0]);
        reveal_strlit("lightgray");
        assert("lightgray"@[0] != "olivedrab"@[0]);
        reveal_strlit("lightgrey");
        assert("lightgrey"@[0] != "olivedrab"@[0]);
        reveal_strlit("lightpink");
        assert("lightpink"@[0] != "olivedrab"@[0]);
        reveal_strlit("limegreen");
        assert("limegreen"@[0] != "olivedrab"@[0]);
        reveal_strlit("mintcream");
        assert("mintcream"@[0] != "olivedrab"@[0]);
        reveal_strlit("mistyrose");
        assert("mistyrose"@[0] != "olivedrab"@[0]);
    }
    assert(t == "orange"@ ==> spec_named_color(s) == Some(NamedColor::Rgb(0xffa500))) by {
        reveal_strlit("orange");
        reveal_strlit("bisque");
        assert("bisque"@[0] != "orange"@[0]);
        reveal_strlit("indigo");
        assert("indigo"@[0] != "orange"@[0]);
        reveal_strlit("maroon");
        assert("maroon"@[0] != "orange"@[0]);
    }
    assert(t == "orangered"@ ==> spec_named_color(s) == Some(NamedColor::Rgb(0xff4500))) by {
        reveal_strlit("orangered");
        reveal_strlit("aliceblue");
        assert("aliceblue"@[0] != "orangered"@[0]);
        reveal_strlit("burlywood");
        assert("burlywood"@[0] != "orangered"@[0]);
        reveal_strlit("cadetblue");
        assert("cadetblue"@[0] != "orangered"@[0]);
        reveal_strlit("chocolate");
        assert("chocolate"@[0] != "orangered"@[0]);
        reveal_strlit("darkgreen");
        assert("darkgreen"@[0] != "orangered"@[0]);
        reveal_strlit("darkkhaki");
        assert("darkkhaki"@[0] != "orangered"@[0]);
        reveal_strlit("firebrick");
        assert("firebrick"@[0] != "orangered"@[0]);
        reveal_strlit("gainsboro");
        assert("gainsboro"@[0] != "orangered"@[0]);
        reveal_strlit("goldenrod");
        assert("goldenrod"@[0] != "orangered"@[0]);
        reveal_strlit("indianred");
        assert("indianred"@[0] != "orangered"@[0]);
        reveal_strlit("lawngreen");
        assert("lawngreen"@[0] != "orangered"@[0]);
        reveal_strlit("lightblue");
        assert("lightblue"@[0] != "orangered"@[0]);
        reveal_strlit("lightcyan");
        assert("lightcyan"@[0] != "orangered"@[0]);
        reveal_strlit("lightgray");
        assert("lightgray"@[0] != "orangered"@[0]);
        reveal_strlit("lightgrey");
        assert("lightgrey"@[0] != "orangered"@[0]);
        reveal_strlit("lightpink");
        assert("lightpink"@[0] != "orangered"@[0]);
        reveal_strlit("limegreen");
        assert("limegreen"@[0] != "orangered"@[0]);
        reveal_strlit("mintcream");
        assert("mintcream"@[0] != "orangered"@[0]);
        reveal_strlit("mistyrose");
        assert("mistyrose"@[0] != "orangered"@[0]);
        reveal_strlit("olivedrab");
        assert("olivedrab"@[1] != "orangered"@[1]);
    }
    assert(t == "orchid"@ ==> spec_named_color(s) == Some(NamedColor::Rgb(0xda70d6))) by {
        reveal_strlit("orchid");
        reveal_strlit("bisque");
        assert("bisque"@[0] != "orchid"@[0]);
        reveal_strlit("indigo");
        assert("indigo"@[0] != "orchid"@[0]);
        reveal_strlit("maroon");
        assert("maroon"@[0] != "orchid"@[0]);
        reveal_strlit("orange");
        assert("orange"@[2] != "orchid"@[2]);
    }
    assert(t == "palegoldenrod"@ ==> spec_named_color(s) == Some(NamedColor::Rgb(0xeee8aa))) by {
        reveal_strlit("palegoldenrod");
        reveal_strlit("darkgoldenrod");
        assert("darkgoldenrod"@[0] != "palegoldenrod"@[0]);
        reveal_strlit("darkslateblue");
        assert("darkslateblue"@[0] != "palegoldenrod"@[0]);
        reveal_strlit("darkslategray");
        assert("darkslategray"@[0] != "palegoldenrod"@[0]);
        reveal_strlit("darkslategrey");
        assert("darkslategrey"@[0] != "palegoldenrod"@[0]);
        reveal_strlit("darkturquoise");
        assert("darkturquoise"@[0] != "palegoldenrod"@[0]);
        reveal_strlit("lavenderblush");
        assert("lavenderblush"@[0] != "palegoldenrod"@[0]);
        reveal_strlit("lightseagreen");
        assert("lightseagreen"@[0] != "palegoldenrod"@[0]);
    }
    assert(t == "palegreen"@ ==> spec_named_color(s) == Some(NamedColor::Rgb(0x98fb98))) by {
        reveal_strlit("palegreen");
        reveal_strlit("aliceblue");
        assert("aliceblue"@[0] != "palegreen"@[0]);
        reveal_strlit("burlywood");
        assert("burlywood"@[0] != "palegreen"@[0]);
        reveal_strlit("cadetblue");
        assert("cadetblue"@[0] != "palegreen"@[0]);
        reveal_strlit("chocolate");
        assert("chocolate"@[0] != "palegreen"@[0]);
        reveal_strlit("darkgreen");
        assert("darkgreen"@[0] != "palegreen"@[0]);
        reveal_strlit("darkkhaki");
        assert("darkkhaki"@[0] != "palegreen"@[0]);
        reveal_strlit("firebrick");
        assert("firebrick"@[0] != "palegreen"@[0]);
        reveal_strlit("gainsboro");
        assert("gainsboro"@[0] != "palegreen"@[0]);
        reveal_strlit("goldenrod");
        assert("goldenrod"@[0] != "palegreen"@[0]);
        reveal_strlit("indianred");
        assert("indianred"@[0] != "palegreen"@[0]);
        reveal_strlit("lawngreen");
        assert("lawngreen"@[0] != "palegreen"@[0]);
        reveal_strlit("lightblue");
        assert("lightblue"@[0] != "palegreen"@[0]);
        reveal_strlit("lightcyan");
        assert("lightcyan"@[0] != "palegreen"@[0]);
        reveal_strlit("lightgray");
        assert("lightgray"@[0] != "palegreen"@[0]);
        reveal_strlit("lightgrey");
        assert("lightgrey"@[0] != "palegreen"@[0]);
        reveal_strlit("lightpink");
        assert("lightpink"@[0] != "palegreen"@[0]);
        reveal_strlit("limegreen");
        assert("limegreen"@[0] != "palegreen"@[0]);
        reveal_strlit("mintcream");
        assert("mintcream"@[0] != "palegreen"@[0]);
        reveal_strlit("mistyrose");
        assert("mistyrose"@[0] != "palegreen"@[0]);
        reveal_strlit("olivedrab");
        assert("olivedrab"@[0] != "palegreen"@[0]);
        reveal_strlit("orangered");
        assert("orangered"@[0] != "palegreen"@[0]);
    }
    assert(t == "paleturquoise"@ ==> spec_named_color(s) == Some(NamedColor::Rgb(0xafeeee))) by {
        reveal_strlit("paleturquoise");
        reveal_strlit("darkgoldenrod");
        assert("darkgoldenrod"@[0] != "paleturquoise"@[0]);
        reveal_strlit("darkslateblue");
        assert("darkslateblue"@[0] != "paleturquoise"@[0]);
        reveal_strlit("darkslategray");
        assert("darkslategray"@[0] != "paleturquoise"@[0]);
        reveal_strlit("darkslategrey");
        assert("darkslategrey"@[0] != "paleturquoise"@[0]);
        reveal_strlit("darkturquoise");
        assert("darkturquoise"@[0] != "paleturquoise"@[0]);
        reveal_strlit("lavenderblush");
        assert("lavenderblush"@[0] != "paleturquoise"@[0]);
        reveal_strlit("lightseagreen");
        assert("lightseagreen"@[0] != "paleturquoise"@[0]);
        reveal_strlit("palegoldenrod");
        assert("palegoldenrod"@[4] != "paleturquoise"@[4]);
    }
    assert(t == "palevioletred"@ ==> spec_named_color(s) == Some(NamedColor::Rgb(0xdb7093))) by {
        reveal_strlit("palevioletred");
        reveal_strlit("darkgoldenrod");
        assert("darkgoldenrod"@[0] != "palevioletred"@[0]);
        reveal_strlit("darkslateblue");
        assert("darkslateblue"@[0] != "palevioletred"@[0]);
        reveal_strlit("darkslategray");
        assert("darkslategray"@[0] != "palevioletred"@[0]);
        reveal_strlit("darkslategrey");
        assert("darkslategrey"@[0] != "palevioletred"@[0]);
        reveal_strlit("darkturquoise");
        assert("darkturquoise"@[0] != "palevioletred"@[0]);
        reveal_strlit("lavenderblush");
        assert("lavenderblush"@[0] != "palevioletred"@[0]);
        reveal_strlit("lightseagreen");
        assert("lightseagreen"@[0] != "palevioletred"@[0]);
        reveal_strlit("palegoldenrod");
        assert("palegoldenrod"@[4] != "palevioletred"@[4]);
        reveal_strlit("paleturquoise");
        assert("paleturquoise"@[4] != "palevioletred"@[4]);
    }
    assert(t == "papayawhip"@ ==> spec_named_color(s) == Some(NamedColor::Rgb(0xffefd5))) by {
        reveal_strlit("papayawhip");
        reveal_strlit("aquamarine");
        assert("aquamarine"@[0] != "papayawhip"@[0]);
        reveal_strlit("blueviolet");
        assert("blueviolet"@[0] != "papayawhip"@[0]);
        reveal_strlit("chartreuse");
        assert("chartreuse"@[0] != "papayawhip"@[0]);
        reveal_strlit("darkorange");
        assert("darkorange"@[0] != "papayawhip"@[0]);
        reveal_strlit("darkorchid");
        assert("darkorchid"@[0] != "papayawhip"@[0]);
        reveal_strlit("darksalmon");
        assert("darksalmon"@[0] != "papayawhip"@[0]);
        reveal_strlit("darkviolet");
        assert("darkviolet"@[0] != "papayawhip"@[0]);
        reveal_strlit("dodgerblue");
        assert("dodgerblue"@[0] != "papayawhip"@[0]);
        reveal_strlit("ghostwhite");
        assert("ghostwhite"@[0] != "papayawhip"@[0]);
        reveal_strlit("lightcoral");
        assert("lightcoral"@[0] != "papayawhip"@[0]);
        reveal_strlit("lightgreen");
        assert("lightgreen"@[0] != "papayawhip"@[0]);
        reveal_strlit("mediumblue");
        assert("mediumblue"@[0] != "papayawhip"@[0]);
    }
    assert(t == "peachpuff"@ ==> spec_named_color(s) == Some(NamedColor::Rgb(0xffdab9))) by {
        reveal_strlit("peachpuff");
        reveal_strlit("aliceblue");
        assert("aliceblue"@[0] != "peachpuff"@[0]);
        reveal_strlit("burlywood");
        assert("burlywood"@[0] != "peachpuff"@[0]);
        reveal_strlit("cadetblue");
        assert("cadetblue"@[0] != "peachpuff"@[0]);
        reveal_strlit("chocolate");
        assert("chocolate"@[0] != "peachpuff"@[0]);
        reveal_strlit("darkgreen");
        assert("darkgreen"@[0] != "peachpuff"@[0]);
        reveal_strlit("darkkhaki");
        assert("darkkhaki"@[0] != "peachpuff"@[0]);
        reveal_strlit("firebrick");
        assert("firebrick"@[0] != "peachpuff"@[0]);
        reveal_strlit("gainsboro");
        assert("gainsboro"@[0] != "peachpuff"@[0]);
        reveal_strlit("goldenrod");
        assert("goldenrod"@[0] != "peachpuff"@[0]);
        reveal_strlit("indianred");
        assert("indianred"@[0] != "peachpuff"@[0]);
        reveal_strlit("lawngreen");
        assert("lawngreen"@[0] != "peachpuff"@[0]);
        reveal_strlit("lightblue");
        assert("lightblue"@[0] != "peachpuff"@[0]);
        reveal_strlit("lightcyan");
        assert("lightcyan"@[0] != "peachpuff"@[0]);
        reveal_strlit("lightgray");
        assert("lightgray"@[0] != "peachpuff"@[0]);
        reveal_strlit("lightgrey");
        assert("lightgrey"@[0] != "peachpuff"@[0]);
        reveal_strlit("lightpink");
        assert("lightpink"@[0] != "peachpuff"@[0]);
        reveal_strlit("limegreen");
        assert("limegreen"@[0] != "peachpuff"@[0]);
        reveal_strlit("mintcream");
        assert("mintcream"@[0] != "peachpuff"@[0]);
        reveal_strlit("mistyrose");
        assert("mistyrose"@[0] != "peachpuff"@[0]);
        reveal_strlit("olivedrab");
        assert("olivedrab"@[0] != "peachpuff"@[0]);
        reveal_strlit("orangered");
        assert("orangered"@[0] != "peachpuff"@[0]);
        reveal_strlit("palegreen");
        assert("palegreen"@[1] != "peachpuff"@[1]);
    }
    assert(t == "peru"@ ==> spec_named_color(s) == Some(NamedColor::Rgb(0xcd853f))) by {
        reveal_strlit("peru");
        reveal_strlit("aqua");
        assert("aqua"@[0] != "peru"@[0]);
        reveal_strlit("cyan");
        assert("cyan"@[0] != "peru"@[0]);
        reveal_strlit("blue");
        assert("blue"@[0] != "peru"@[0]);
        reveal_strlit("gold");
        assert("gold"@[0] != "peru"@[0]);
        reveal_strlit("gray");
        assert("gray"@[0] != "peru"@[0]);
        reveal_strlit("grey");
        assert("grey"@[0] != "peru"@[0]);
        reveal_strlit("lime");
        assert("lime"@[0] != "peru"@[0]);
        reveal_strlit("navy");
        assert("navy"@[0] != "peru"@[0]);
    }
    assert(t == "pink"@ ==> spec_named_color(s) == Some(NamedColor::Rgb(0xffc0cb))) by {
        reveal_strlit("pink");
        reveal_strlit("aqua");
        assert("aqua"@[0] != "pink"@[0]);
        reveal_strlit("cyan");
        assert("cyan"@[0] != "pink"@[0]);
        reveal_strlit("blue");
        assert("blue"@[0] != "pink"@[0]);
        reveal_strlit("gold");
        assert("gold"@[0] != "pink"@[0]);
        reveal_strlit("gray");
        assert("gray"@[0] != "pink"@[0]);
        reveal_strlit("grey");
        assert("grey"@[0] != "pink"@[0]);
        reveal_strlit("lime");
        assert("lime"@[0] != "pink"@[0]);
        reveal_strlit("navy");
        assert("navy"@[0] != "pink"@[0]);
        reveal_strlit("peru");
        assert("peru"@[1] != "pink"@[1]);
    }
    assert(t == "plum"@ ==> spec_named_color(s) == Some(NamedColor::Rgb(0xdda0dd))) by {
        reveal_strlit("plum");
        reveal_strlit("aqua");
        assert("aqua"@[0] != "plum"@[0]);
        reveal_strlit("cyan");
        assert("cyan"@[0] != "plum"@[0]);
        reveal_strlit("blue");
        assert("blue"@[0] != "plum"@[0]);
        reveal_strlit("gold");
        assert("gold"@[0] != "plum"@[0]);
        reveal_strlit("gray");
        assert("gray"@[0] != "plum"@[0]);
        reveal_strlit("grey");
        assert("grey"@[0] != "plum"@[0]);
        reveal_strlit("lime");
        assert("lime"@[0] != "plum"@[0]);
        reveal_strlit("navy");
        assert("navy"@[0] != "plum"@[0]);
        reveal_strlit("peru");
        assert("peru"@[1] != "plum"@[1]);
        reveal_strlit("pink");
        assert("pink"@[1] != "plum"@[1]);
    }
    assert(t == "powderblue"@ ==> spec_named_color(s) == Some(NamedColor::Rgb(0xb0e0e6))) by {
        reveal_strlit("powderblue");
        reveal_strlit("aquamarine");
        assert("aquamarine"@[0] != "powderblue"@[0]);
        reveal_strlit("blueviolet");
        assert("blueviolet"@[0] != "powderblue"@[0]);
        reveal_strlit("chartreuse");
        assert("chartreuse"@[0] != "powderblue"@[0]);
        reveal_strlit("darkorange");
        assert("darkorange"@[0] != "powderblue"@[0]);
        reveal_strlit("darkorchid");
        assert("darkorchid"@[0] != "powderblue"@[0]);
        reveal_strlit("darksalmon");
        assert("darksalmon"@[0] != "powderblue"@[0]);
        reveal_strlit("darkviolet");
        assert("darkviolet"@[0] != "powderblue"@[0]);
        reveal_strlit("dodgerblue");
        assert("dodgerblue"@[0] != "powderblue"@[0]);
        reveal_strlit("ghostwhite");
        assert("ghostwhite"@[0] != "powderblue"@[0]);
        reveal_strlit("lightcoral");
        assert("lightcoral"@[0] != "powderblue"@[0]);
        reveal_strlit("lightgreen");
        assert("lightgreen"@[0] != "powderblue"@[0]);
        reveal_strlit("mediumblue");
        assert("mediumblue"@[0] != "powderblue"@[0]);
        reveal_strlit("papayawhip");
        assert("papayawhip"@[1] != "powderblue"@[1]);
    }
    assert(t == "purple"@ ==> spec_named_color(s) == Some(NamedColor::Rgb(0x800080))) by {
        reveal_strlit("purple");
        reveal_strlit("bisque");
        assert("bisque"@[0] != "purple"@[0]);
        reveal_strlit("indigo");
        assert("indigo"@[0] != "purple"@[0]);
        reveal_strlit("maroon");
        assert("maroon"@[0] != "purple"@[0]);
        reveal_strlit("orange");
        assert("orange"@[0] != "purple"@[0]);
        reveal_strlit("orchid");
        assert("orchid"@[0] != "purple"@[0]);
    }
    assert(t == "rebeccapurple"@ ==> spec_named_color(s) == Some(NamedColor::Rgb(0x663399))) by {
        reveal_strlit("rebeccapurple");
        reveal_strlit("darkgoldenrod");
        assert("darkgoldenrod"@[0] != "rebeccapurple"@[0]);
        reveal_strlit("darkslateblue");
        assert("darkslateblue"@[0] != "rebeccapurple"@[0]);
        reveal_strlit("darkslategray");
        assert("darkslategray"@[0] != "rebeccapurple"@[0]);
        reveal_strlit("darkslategrey");
        assert("darkslategrey"@[0] != "rebeccapurple"@[0]);
        reveal_strlit("darkturquoise");
        assert("darkturquoise"@[0] != "rebeccapurple"@[0]);
        reveal_strlit("lavenderblush");
        assert("lavenderblush"@[0] != "rebeccapurple"@[0]);
        reveal_strlit("lightseagreen");
        assert("lightseagreen"@[0] != "rebeccapurple"@[0]);
        reveal_strlit("palegoldenrod");
        assert("palegoldenrod"@[0] != "rebeccapurple"@[0]);
        reveal_strlit("paleturquoise");
        assert("paleturquoise"@[0] != "rebeccapurple"@[0]);
        reveal_strlit("palevioletred");
        assert("palevioletred"@[0] != "rebeccapurple"@[0]);
    }
    assert(t == "rosybrown"@ ==> spec_named_color(s) == Some(NamedColor::Rgb(0xbc8f8f))) by {
        reveal_strlit("rosybrown");
        reveal_strlit("aliceblue");
        assert("aliceblue"@[0] != "rosybrown"@[0]);
        reveal_strlit("burlywood");
        assert("burlywood"@[0] != "rosybrown"@[0]);
        reveal_strlit("cadetblue");
        assert("cadetblue"@[0] != "rosybrown"@[0]);
        reveal_strlit("chocolate");
        assert("chocolate"@[0] != "rosybrown"@[0]);
        reveal_strlit("darkgreen");
        assert("darkgreen"@[0] != "rosybrown"@[0]);
        reveal_strlit("darkkhaki");
        assert("darkkhaki"@[0] != "rosybrown"@[0]);
        reveal_strlit("firebrick");
        assert("firebrick"@[0] != "rosybrown"@[0]);
        reveal_strlit("gainsboro");
        assert("gainsboro"@[0] != "rosybrown"@[0]);
        reveal_strlit("goldenrod");
        assert("goldenrod"@[0] != "rosybrown"@[0]);
        reveal_strlit("indianred");
        assert("indianred"@[0] != "rosybrown"@[0]);
        reveal_strlit("lawngreen");
        assert("lawngreen"@[0] != "rosybrown"@[0]);
        reveal_strlit("lightblue");
        assert("lightblue"@[0] != "rosybrown"@[0]);
        reveal_strlit("lightcyan");
        assert("lightcyan"@[0] != "rosybrown"@[0]);
        reveal_strlit("lightgray");
        assert("lightgray"@[0] != "rosybrown"@[0]);
        reveal_strlit("lightgrey");
        assert("lightgrey"@[0] != "rosybrown"@[0]);
        reveal_strlit("lightpink");
        assert("lightpink"@[0] != "rosybrown"@[0]);
        reveal_strlit("limegreen");
        assert("limegreen"@[0] != "rosybrown"@[0]);
        reveal_strlit("mintcream");
        assert("mintcream"@[0] != "rosybrown"@[0]);
        reveal_strlit("mistyrose");
        assert("mistyrose"@[0] != "rosybrown"@[0]);
        reveal_strlit("olivedrab");
        assert("olivedrab"@[0] != "rosybrown"@[0]);
        reveal_strlit("orangered");
        assert("orangered"@[0] != "rosybrown"@[0]);
        reveal_strlit("palegreen");
        assert("palegreen"@[0] != "rosybrown"@[0]);
        reveal_strlit("peachpuff");
        assert("peachpuff"@[0] != "rosybrown"@[0]);
    }
    assert(t == "royalblue"@ ==> spec_named_color(s) == Some(NamedColor::Rgb(0x4169e1))) by {
        reveal_strlit("royalblue");
        reveal_strlit("aliceblue");
        assert("aliceblue"@[0] != "royalblue"@[0]);
        reveal_strlit("burlywood");
        assert("burlywood"@[0] != "royalblue"@[0]);
        reveal_strlit("cadetblue");
        assert("cadetblue"@[0] != "royalblue"@[0]);
        reveal_strlit("chocolate");
        assert("chocolate"@[0] != "royalblue"@[0]);
        reveal_strlit("darkgreen");
        assert("darkgreen"@[0] != "royalblue"@[0]);
        reveal_strlit("darkkhaki");
        assert("darkkhaki"@[0] != "royalblue"@[0]);
        reveal_strlit("firebrick");
        assert("firebrick"@[0] != "royalblue"@[0]);
        reveal_strlit("gainsboro");
        assert("gainsboro"@[0] != "royalblue"@[0]);
        reveal_strlit("goldenrod");
        assert("goldenrod"@[0] != "royalblue"@[0]);
        reveal_strlit("indianred");
        assert("indianred"@[0] != "royalblue"@[0]);
        reveal_strlit("lawngreen");
        assert("lawngreen"@[0] != "royalblue"@[0]);
        reveal_strlit("lightblue");
        assert("lightblue"@[0] != "royalblue"@[0]);
        reveal_strlit("lightcyan");
        assert("lightcyan"@[0] != "royalblue"@[0]);
        reveal_strlit("lightgray");
        assert("lightgray"@[0] != "royalblue"@[0]);
        reveal_strlit("lightgrey");
        assert("lightgrey"@[0] != "royalblue"@[0]);
        reveal_strlit("lightpink");
        assert("lightpink"@[0] != "royalblue"@[0]);
        reveal_strlit("limegreen");
        assert("limegreen"@[0] != "royalblue"@[0]);
        reveal_strlit("mintcream");
        assert("mintcream"@[0] != "royalblue"@[0]);
        reveal_strlit("mistyrose");
        assert("mistyrose"@[0] != "royalblue"@[0]);
        reveal_strlit("olivedrab");
        assert("olivedrab"@[0] != "royalblue"@[0]);
        reveal_strlit("orangered");
        assert("orangered"@[0] != "royalblue"@[0]);
        reveal_strlit("palegreen");
        assert("palegreen"@[0] != "royalblue"@[0]);
        reveal_strlit("peachpuff");
        assert("peachpuff"@[0] != "royalblue"@[0]);
        reveal_strlit("rosybrown");
        assert("rosybrown"@[2] != "royalblue"@[2]);
    }
    assert(t == "saddlebrown"@ ==> spec_named_color(s) == Some(NamedColor::Rgb(0x8b4513))) by {
        reveal_strlit("saddlebrown");
        reveal_strlit("transparent");
        assert("transparent"@[0] != "saddlebrown"@[0]);
        reveal_strlit("darkmagenta");
        assert("darkmagenta"@[0] != "saddlebrown"@[0]);
        reveal_strlit("deepskyblue");
        assert("deepskyblue"@[0] != "saddlebrown"@[0]);
        reveal_strlit("floralwhite");
        assert("floralwhite"@[0] != "saddlebrown"@[0]);
        reveal_strlit("forestgreen");
        assert("forestgreen"@[0] != "saddlebrown"@[0]);
        reveal_strlit("greenyellow");
        assert("greenyellow"@[0] != "saddlebrown"@[0]);
        reveal_strlit("lightsalmon");
        assert("lightsalmon"@[0] != "saddlebrown"@[0]);
        reveal_strlit("lightyellow");
        assert("lightyellow"@[0] != "saddlebrown"@[0]);
        reveal_strlit("navajowhite");
        assert("navajowhite"@[0] != "saddlebrown"@[0]);
    }
    assert(t == "salmon"@ ==> spec_named_color(s) == Some(NamedColor::Rgb(0xfa8072))) by {
        reveal_strlit("salmon");
        reveal_strlit("bisque");
        assert("bisque"@[0] != "salmon"@[0]);
        reveal_strlit("indigo");
        assert("indigo"@[0] != "salmon"@[0]);
        reveal_strlit("maroon");
        assert("maroon"@[0] != "salmon"@[0]);
        reveal_strlit("orange");
        assert("orange"@[0] != "salmon"@[0]);
        reveal_strlit("orchid");
        assert("orchid"@[0] != "salmon"@[0]);
        reveal_strlit("purple");
        assert("purple"@[0] != "salmon"@[0]);
    }
}

/// Each CSS named colour of the keyword table from `sandybrown` through `yellowgreen`,
/// written in any ASCII case, resolves to its CSS Color Module value.
pub proof fn lemma_named_colors_sandybrown_to_yellowgreen(s: Seq<char>)
    ensures
        ascii_lower_seq(s) == "sandybrown"@ ==> spec_named_color(s) == Some(NamedColor::Rgb(0xf4a460)),
        ascii_lower_seq(s) == "seagreen"@ ==> spec_named_color(s) == Some(NamedColor::Rgb(0x2e8b57)),
        ascii_lower_seq(s) == "seashell"@ ==> spec_named_color(s) == Some(NamedColor::Rgb(0xfff5ee)),
        ascii_lower_seq(s) == "sienna"@ ==> spec_named_color(s) == Some(NamedColor::Rgb(0xa0522d)),
        ascii_lower_seq(s) == "silver"@ ==> spec_named_color(s) == Some(NamedColor::Rgb(0xc0c0c0)),
        ascii_lower_seq(s) == "skyblue"@ ==> spec_named_color(s) == Some(NamedColor::Rgb(0x87ceeb)),
        ascii_lower_seq(s) == "slateblue"@ ==> spec_named_color(s) == Some(NamedColor::Rgb(0x6a5acd)),
        ascii_lower_seq(s) == "slategray"@ ==> spec_named_color(s) == Some(NamedColor::Rgb(0x708090)),
        ascii_lower_seq(s) == "slategrey"@ ==> spec_named_color(s) == Some(NamedColor::Rgb(0x708090)),
        ascii_lower_seq(s) == "snow"@ ==> spec_named_color(s) == Some(NamedColor::Rgb(0xfffafa)),
        ascii_lower_seq(s) == "springgreen"@ ==> spec_named_color(s) == Some(NamedColor::Rgb(0x00ff7f)),
        ascii_lower_seq(s) == "steelblue"@ ==> spec_named_color(s) == Some(NamedColor::Rgb(0x4682b4)),
        ascii_lower_seq(s) == "tan"@ ==> spec_named_color(s) == Some(NamedColor::Rgb(0xd2b48c)),
        ascii_lower_seq(s) == "teal"@ ==> spec_named_color(s) == Some(NamedColor::Rgb(0x008080)),
        ascii_lower_seq(s) == "thistle"@ ==> spec_named_color(s) == Some(NamedColor::Rgb(0xd8bfd8)),
        ascii_lower_seq(s) == "tomato"@ ==> spec_named_color(s) == Some(NamedColor::Rgb(0xff6347)),
        ascii_lower_seq(s) == "turquoise"@ ==> spec_named_color(s) == Some(NamedColor::Rgb(0x40e0d0)),
        ascii_lower_seq(s) == "violet"@ ==> spec_named_color(s) == Some(NamedColor::Rgb(0xee82ee)),
        ascii_lower_seq(s) == "wheat"@ ==> spec_named_color(s) == Some(NamedColor::Rgb(0xf5deb3)),
        ascii_lower_seq(s) == "white"@ ==> spec_named_color(s) == Some(NamedColor::Rgb(0xffffff)),
        ascii_lower_seq(s) == "whitesmoke"@ ==> spec_named_color(s) == Some(NamedColor::Rgb(0xf5f5f5)),
        ascii_lower_seq(s) == "yellow"@ ==> spec_named_color(s) == Some(NamedColor::Rgb(0xffff00)),
        ascii_lower_seq(s) == "yellowgreen"@ ==> spec_named_color(s) == Some(NamedColor::Rgb(0x9acd32)),
{
    lemma_color_name_lengths();
    let t = ascii_lower_seq(s);
    assert(t == "sandybrown"@ ==> spec_named_color(s) == Some(NamedColor::Rgb(0xf4a460))) by {
        reveal_strlit("sandybrown");
        reveal_strlit("aquamarine");
        assert("aquamarine"@[0] != "sandybrown"@[0]);
        reveal_strlit("blueviolet");
        assert("blueviolet"@[0] != "sandybrown"@[0]);
        reveal_strlit("chartreuse");
        assert("chartreuse"@[0] != "sandybrown"@[0]);
        reveal_strlit("darkorange");
        assert("darkorange"@[0] != "sandybrown"@[0]);
        reveal_strlit("darkorchid");
        assert("darkorchid"@[0] != "sandybrown"@[0]);
        reveal_strlit("darksalmon");
        assert("darksalmon"@[0] != "sandybrown"@[0]);
        reveal_strlit("darkviolet");
        assert("darkviolet"@[0] != "sandybrown"@[0]);
        reveal_strlit("dodgerblue");
        assert("dodgerblue"@[0] != "sandybrown"@[0]);
        reveal_strlit("ghostwhite");
        assert("ghostwhite"@[0] != "sandybrown"@[0]);
        reveal_strlit("lightcoral");
        assert("lightcoral"@[0] != "sandybrown"@[0]);
        reveal_strlit("lightgreen");
        assert("lightgreen"@[0] != "sandybrown"@[0]);
        reveal_strlit("mediumblue");
        assert("mediumblue"@[0] != "sandybrown"@[0]);
        reveal_strlit("papayawhip");
        assert("papayawhip"@[0] != "sandybrown"@[0]);
        reveal_strlit("powderblue");
        assert("powderblue"@[0] != "sandybrown"@[0]);
    }
    assert(t == "seagreen"@ ==> spec_named_color(s) == Some(NamedColor::Rgb(0x2e8b57))) by {
        reveal_strlit("seagreen");
        reveal_strlit("cornsilk");
        assert("cornsilk"@[0] != "seagreen"@[0]);
        reveal_strlit("darkblue");
        assert("darkblue"@[0] != "seagreen"@[0]);
        reveal_strlit("darkcyan");
        assert("darkcyan"@[0] != "seagreen"@[0]);
        reveal_strlit("darkgray");
        assert("darkgray"@[0] != "seagreen"@[0]);
        reveal_strlit("darkgrey");
        assert("darkgrey"@[0] != "seagreen"@[0]);
        reveal_strlit("deeppink");
        assert("deeppink"@[0] != "seagreen"@[0]);
        reveal_strlit("honeydew");
        assert("honeydew"@[0] != "seagreen"@[0]);
        reveal_strlit("lavender");
        assert("lavender"@[0] != "seagreen"@[0]);
        reveal_strlit("moccasin");
        assert("moccasin"@[0] != "seagreen"@[0]);
    }
    assert(t == "seashell"@ ==> spec_named_color(s) == Some(NamedColor::Rgb(0xfff5ee))) by {
        reveal_strlit("seashell");
        reveal_strlit("cornsilk");
        assert("cornsilk"@[0] != "seashell"@[0]);
        reveal_strlit("darkblue");
        assert("darkblue"@[0] != "seashell"@[0]);
        reveal_strlit("darkcyan");
        assert("darkcyan"@[0] != "seashell"@[0]);
        reveal_strlit("darkgray");
        assert("darkgray"@[0] != "seashell"@[0]);
        reveal_strlit("darkgrey");
        assert("darkgrey"@[0] != "seashell"@[0]);
        reveal_strlit("deeppink");
        assert("deeppink"@[0] != "seashell"@[0]);
        reveal_strlit("honeydew");
        assert("honeydew"@[0] != "seashell"@[0]);
        reveal_strlit("lavender");
        assert("lavender"@[0] != "seashell"@[0]);
        reveal_strlit("moccasin");
        assert("moccasin"@[0] != "seashell"@[0]);
        reveal_strlit("seagreen");
        assert("seagreen"@[3] != "seashell"@[3]);
    }
    assert(t == "sienna"@ ==> spec_named_color(s) == Some(NamedColor::Rgb(0xa0522d))) by {
        reveal_strlit("sienna");
        reveal_strlit("bisque");
        assert("bisque"@[0] != "sienna"@[0]);
        reveal_strlit("indigo");
        assert("indigo"@[0] != "sienna"@[0]);
        reveal_strlit("maroon");
        assert("maroon"@[0] != "sienna"@[0]);
        reveal_strlit("orange");
        assert("orange"@[0] != "sienna"@[0]);
        reveal_strlit("orchid");
        assert("orchid"@[0] != "sienna"@[0]);
        reveal_strlit("purple");
        assert("purple"@[0] != "sienna"@[0]);
        reveal_strlit("salmon");
        assert("salmon"@[1] != "sienna"@[1]);
    }
    assert(t == "silver"@ ==> spec_named_color(s) == Some(NamedColor::Rgb(0xc0c0c0))) by {
        reveal_strlit("silver");
        reveal_strlit("bisque");
        assert("bisque"@[0] != "silver"@[0]);
        reveal_strlit("indigo");
        assert("indigo"@[0] != "silver"@[0]);
        reveal_strlit("maroon");
        assert("maroon"@[0] != "silver"@[0]);
        reveal_strlit("orange");
        assert("orange"@[0] != "silver"@[0]);
        reveal_strlit("orchid");
        assert("orchid"@[0] != "silver"@[0]);
        reveal_strlit("purple");
        assert("purple"@[0] != "silver"@[0]);
        reveal_strlit("salmon");
        assert("salmon"@[1] != "silver"@[1]);
        reveal_strlit("sienna");
        assert("sienna"@[2] != "silver"@[2]);
    }
    assert(t == "skyblue"@ ==> spec_named_color(s) == Some(NamedColor::Rgb(0x87ceeb))) by {
        reveal_strlit("skyblue");
        reveal_strlit("crimson");
        assert("crimson"@[0] != "skyblue"@[0]);
        reveal_strlit("darkred");
        assert("darkred"@[0] != "skyblue"@[0]);
        reveal_strlit("dimgray");
        assert("dimgray"@[0] != "skyblue"@[0]);
        reveal_strlit("dimgrey");
        assert("dimgrey"@[0] != "skyblue"@[0]);
        reveal_strlit("fuchsia");
        assert("fuchsia"@[0] != "skyblue"@[0]);
        reveal_strlit("magenta");
        assert("magenta"@[0] != "skyblue"@[0]);
        reveal_strlit("hotpink");
        assert("hotpink"@[0] != "skyblue"@[0]);
        reveal_strlit("oldlace");
        assert("oldlace"@[0] != "skyblue"@[0]);
    }
    assert(t == "slateblue"@ ==> spec_named_color(s) == Some(NamedColor::Rgb(0x6a5acd))) by {
        reveal_strlit("slateblue");
        reveal_strlit("aliceblue");
        assert("aliceblue"@[0] != "slateblue"@[0]);
        reveal_strlit("burlywood");
        assert("burlywood"@[0] != "slateblue"@[0]);
        reveal_strlit("cadetblue");
        assert("cadetblue"@[0] != "slateblue"@[0]);
        reveal_strlit("chocolate");
        assert("chocolate"@[0] != "slateblue"@[0]);
        reveal_strlit("darkgreen");
        assert("darkgreen"@[0] != "slateblue"@[0]);
        reveal_strlit("darkkhaki");
        assert("darkkhaki"@[0] != "slateblue"@[0]);
        reveal_strlit("firebrick");
        assert("firebrick"@[0] != "slateblue"@[0]);
        reveal_strlit("gainsboro");
        assert("gainsboro"@[0] != "slateblue"@[0]);
        reveal_strlit("goldenrod");
        assert("goldenrod"@[0] != "slateblue"@[0]);
        reveal_strlit("indianred");
        assert("indianred"@[0] != "slateblue"@[0]);
        reveal_strlit("lawngreen");
        assert("lawngreen"@[0] != "slateblue"@[0]);
        reveal_strlit("lightblue");
        assert("lightblue"@[0] != "slateblue"@[0]);
        reveal_strlit("lightcyan");
        assert("lightcyan"@[0] != "slateblue"@[0]);
        reveal_strlit("lightgray");
        assert("lightgray"@[0] != "slateblue"@[0]);
        reveal_strlit("lightgrey");
        assert("lightgrey"@[0] != "slateblue"@[0]);
        reveal_strlit("lightpink");
        assert("lightpink"@[0] != "slateblue"@[0]);
        reveal_strlit("limegreen");
        assert("limegreen"@[0] != "slateblue"@[0]);
        reveal_strlit("mintcream");
        assert("mintcream"@[0] != "slateblue"@[0]);
        reveal_strlit("mistyrose");
        assert("mistyrose"@[0] != "slateblue"@[0]);
        reveal_strlit("olivedrab");
        assert("olivedrab"@[0] != "slateblue"@[0]);
        reveal_strlit("orangered");
        assert("orangered"@[0] != "slateblue"@[0]);
        reveal_strlit("palegreen");
        assert("palegreen"@[0] != "slateblue"@[0]);
        reveal_strlit("peachpuff");
        assert("peachpuff"@[0] != "slateblue"@[0]);
        reveal_strlit("rosybrown");
        assert("rosybrown"@[0] != "slateblue"@[0]);
        reveal_strlit("royalblue");
        assert("royalblue"@[0] != "slateblue"@[0]);
    }
    assert(t == "slategray"@ ==> spec_named_color(s) == Some(NamedColor::Rgb(0x708090))) by {
        reveal_strlit("slategray");
        reveal_strlit("aliceblue");
        assert("aliceblue"@[0] != "slategray"@[0]);
        reveal_strlit("burlywood");
        assert("burlywood"@[0] != "slategray"@[0]);
        reveal_strlit("cadetblue");
        assert("cadetblue"@[0] != "slategray"@[0]);
        reveal_strlit("chocolate");
        assert("chocolate"@[0] != "slategray"@[0]);
        reveal_strlit("darkgreen");
        assert("darkgreen"@[0] != "slategray"@[0]);
        reveal_strlit("darkkhaki");
        assert("darkkhaki"@[0] != "slategray"@[0]);
        reveal_strlit("firebrick");
        assert("firebrick"@[0] != "slategray"@[0]);
        reveal_strlit("gainsboro");
        assert("gainsboro"@[0] != "slategray"@[0]);
        reveal_strlit("goldenrod");
        assert("goldenrod"@[0] != "slategray"@[0]);
        reveal_strlit("indianred");
        assert("indianred"@[0] != "slategray"@[0]);
        reveal_strlit("lawngreen");
        assert("lawngreen"@[0] != "slategray"@[0]);
        reveal_strlit("lightblue");
        assert("lightblue"@[0] != "slategray"@[0]);
        reveal_strlit("lightcyan");
        assert("lightcyan"@[0] != "slategray"@[0]);
        reveal_strlit("lightgray");
        assert("lightgray"@[0] != "slategray"@[0]);
        reveal_strlit("lightgrey");
        assert("lightgrey"@[0] != "slategray"@[0]);
        reveal_strlit("lightpink");
        assert("lightpink"@[0] != "slategray"@[0]);
        reveal_strlit("limegreen");
        assert("limegreen"@[0] != "slategray"@[0]);
        reveal_strlit("mintcream");
        assert("mintcream"@[0] != "slategray"@[0]);
        reveal_strlit("mistyrose");
        assert("mistyrose"@[0] != "slategray"@[0]);
        reveal_strlit("olivedrab");
        assert("olivedrab"@[0] != "slategray"@[0]);
        reveal_strlit("orangered");
        assert("orangered"@[0] != "slategray"@[0]);
        reveal_strlit("palegreen");
        assert("palegreen"@[0] != "slategray"@[0]);
        reveal_strlit("peachpuff");
        assert("peachpuff"@[0] != "slategray"@[0]);
        reveal_strlit("rosybrown");
        assert("rosybrown"@[0] != "slategray"@[0]);
        reveal_strlit("royalblue");
        assert("royalblue"@[0] != "slategray"@[0]);
        reveal_strlit("slateblue");
        assert("slateblue"@[5] != "slategray"@[5]);
    }
    assert(t == "slategrey"@ ==> spec_named_color(s) == Some(NamedColor::Rgb(0x708090))) by {
        reveal_strlit("slategrey");
        reveal_strlit("aliceblue");
        assert("aliceblue"@[0] != "slategrey"@[0]);
        reveal_strlit("burlywood");
        assert("burlywood"@[0] != "slategrey"@[0]);
        reveal_strlit("cadetblue");
        assert("cadetblue"@[0] != "slategrey"@[0]);
        reveal_strlit("chocolate");
        assert("chocolate"@[0] != "slategrey"@[0]);
        reveal_strlit("darkgreen");
        assert("darkgreen"@[0] != "slategrey"@[0]);
        reveal_strlit("darkkhaki");
        assert("darkkhaki"@[0] != "slategrey"@[0]);
        reveal_strlit("firebrick");
        assert("firebrick"@[0] != "slategrey"@[0]);
        reveal_strlit("gainsboro");
        assert("gainsboro"@[0] != "slategrey"@[0]);
        reveal_strlit("goldenrod");
        assert("goldenrod"@[0] != "slategrey"@[0]);
        reveal_strlit("indianred");
        assert("indianred"@[0] != "slategrey"@[0]);
        reveal_strlit("lawngreen");
        assert("lawngreen"@[0] != "slategrey"@[0]);
        reveal_strlit("lightblue");
        assert("lightblue"@[0] != "slategrey"@[0]);
        reveal_strlit("lightcyan");
        assert("lightcyan"@[0] != "slategrey"@[0]);
        reveal_strlit("lightgray");
        assert("lightgray"@[0] != "slategrey"@[0]);
        reveal_strlit("lightgrey");
        assert("lightgrey"@[0] != "slategrey"@[0]);
        reveal_strlit("lightpink");
        assert("lightpink"@[0] != "slategrey"@[0]);
        reveal_strlit("limegreen");
        assert("limegreen"@[0] != "slategrey"@[0]);
        reveal_strlit("mintcream");
        assert("mintcream"@[0] != "slategrey"@[0]);
        reveal_strlit("mistyrose");
        assert("mistyrose"@[0] != "slategrey"@[0]);
        reveal_strlit("olivedrab");
        assert("olivedrab"@[0] != "slategrey"@[0]);
        reveal_strlit("orangered");
        assert("orangered"@[0] != "slategrey"@[0]);
        reveal_strlit("palegreen");
        assert("palegreen"@[0] != "slategrey"@[0]);
        reveal_strlit("peachpuff");
        assert("peachpuff"@[0] != "slategrey"@[0]);
        reveal_strlit("rosybrown");
        assert("rosybrown"@[0] != "slategrey"@[0]);
        reveal_strlit("royalblue");
        assert("royalblue"@[0] != "slategrey"@[0]);
        reveal_strlit("slateblue");
        assert("slateblue"@[5] != "slategrey"@[5]);
        reveal_strlit("slategray");
        assert("slategray"@[7] != "slategrey"@[7]);
    }
    assert(t == "snow"@ ==> spec_named_color(s) == Some(NamedColor::Rgb(0xfffafa))) by {
        reveal_strlit("snow");
        reveal_strlit("aqua");
        assert("aqua"@[0] != "snow"@[0]);
        reveal_strlit("cyan");
        assert("cyan"@[0] != "snow"@[0]);
        reveal_strlit("blue");
        assert("blue"@[0] != "snow"@[0]);
        reveal_strlit("gold");
        assert("gold"@[0] != "snow"@[0]);
        reveal_strlit("gray");
        assert("gray"@[0] != "snow"@[0]);
        reveal_strlit("grey");
        assert("grey"@[0] != "snow"@[0]);
        reveal_strlit("lime");
        assert("lime"@[0] != "snow"@[0]);
        reveal_strlit("navy");
        assert("navy"@[0] != "snow"@[0]);
        reveal_strlit("peru");
        assert("peru"@[0] != "snow"@[0]);
        reveal_strlit("pink");
        assert("pink"@[0] != "snow"@[0]);
        reveal_strlit("plum");
        assert("plum"@[0] != "snow"@[0]);
    }
    assert(t == "springgreen"@ ==> spec_named_color(s) == Some(NamedColor::Rgb(0x00ff7f))) by {
        reveal_strlit("springgreen");
        reveal_strlit("transparent");
        assert("transparent"@[0] != "springgreen"@[0]);
        reveal_strlit("darkmagenta");
        assert("darkmagenta"@[0] != "springgreen"@[0]);
        reveal_strlit("deepskyblue");
        assert("deepskyblue"@[0] != "springgreen"@[0]);
        reveal_strlit("floralwhite");
        assert("floralwhite"@[0] != "springgreen"@[0]);
        reveal_strlit("forestgreen");
        assert("forestgreen"@[0] != "springgreen"@[0]);
        reveal_strlit("greenyellow");
        assert("greenyellow"@[0] != "springgreen"@[0]);
        reveal_strlit("lightsalmon");
        assert("lightsalmon"@[0] != "springgreen"@[0]);
        reveal_strlit("lightyellow");
        assert("lightyellow"@[0] != "springgreen"@[0]);
        reveal_strlit("navajowhite");
        assert("navajowhite"@[0] != "springgreen"@[0]);
        reveal_strlit("saddlebrown");
        assert("saddlebrown"@[1] != "springgreen"@[1]);
    }
    assert(t == "steelblue"@ ==> spec_named_color(s) == Some(NamedColor::Rgb(0x4682b4))) by {
        reveal_strlit("steelblue");
        reveal_strlit("aliceblue");
        assert("aliceblue"@[0] != "steelblue"@[0]);
        reveal_strlit("burlywood");
        assert("burlywood"@[0] != "steelblue"@[0]);
        reveal_strlit("cadetblue");
        assert("cadetblue"@[0] != "steelblue"@[0]);
        reveal_strlit("chocolate");
        assert("chocolate"@[0] != "steelblue"@[0]);
        reveal_strlit("darkgreen");
        assert("darkgreen"@[0] != "steelblue"@[0]);
        reveal_strlit("darkkhaki");
        assert("darkkhaki"@[0] != "steelblue"@[0]);
        reveal_strlit("firebrick");
        assert("firebrick"@[0] != "steelblue"@[0]);
        reveal_strlit("gainsboro");
        assert("gainsboro"@[0] != "steelblue"@[0]);
        reveal_strlit("goldenrod");
        assert("goldenrod"@[0] != "steelblue"@[0]);
        reveal_strlit("indianred");
        assert("indianred"@[0] != "steelblue"@[0]);
        reveal_strlit("lawngreen");
        assert("lawngreen"@[0] != "steelblue"@[0]);
        reveal_strlit("lightblue");
        assert("lightblue"@[0] != "steelblue"@[0]);
        reveal_strlit("lightcyan");
        assert("lightcyan"@[0] != "steelblue"@[0]);
        reveal_strlit("lightgray");
        assert("lightgray"@[0] != "steelblue"@[0]);
        reveal_strlit("lightgrey");
        assert("lightgrey"@[0] != "steelblue"@[0]);
        reveal_strlit("lightpink");
        assert("lightpink"@[0] != "steelblue"@[0]);
        reveal_strlit("limegreen");
        assert("limegreen"@[0] != "steelblue"@[0]);
        reveal_strlit("mintcream");
        assert("mintcream"@[0] != "steelblue"@[0]);
        reveal_strlit("mistyrose");
        assert("mistyrose"@[0] != "steelblue"@[0]);
        reveal_strlit("olivedrab");
        assert("olivedrab"@[0] != "steelblue"@[0]);
        reveal_strlit("orangered");
        assert("orangered"@[0] != "steelblue"@[0]);
        reveal_strlit("palegreen");
        assert("palegreen"@[0] != "steelblue"@[0]);
        reveal_strlit("peachpuff");
        assert("peachpuff"@[0] != "steelblue"@[0]);
        reveal_strlit("rosybrown");
        assert("rosybrown"@[0] != "steelblue"@[0]);
        reveal_strlit("royalblue");
        assert("royalblue"@[0] != "steelblue"@[0]);
        reveal_strlit("slateblue");
        assert("slateblue"@[1] != "steelblue"@[1]);
        reveal_strlit("slategray");
        assert("slategray"@[1] != "steelblue"@[1]);
        reveal_strlit("slategrey");
        assert("slategrey"@[1] != "steelblue"@[1]);
    }
    assert(t == "tan"@ ==> spec_named_color(s) == Some(NamedColor::Rgb(0xd2b48c))) by {
        reveal_strlit("tan");
        reveal_strlit("red");
        assert("red"@[0] != "tan"@[0]);
    }
    assert(t == "teal"@ ==> spec_named_color(s) == Some(NamedColor::Rgb(0x008080))) by {
        reveal_strlit("teal");
        reveal_strlit("aqua");
        assert("aqua"@[0] != "teal"@[0]);
        reveal_strlit("cyan");
        assert("cyan"@[0] != "teal"@[0]);
        reveal_strlit("blue");
        assert("blue"@[0] != "teal"@[0]);
        reveal_strlit("gold");
        assert("gold"@[0] != "teal"@[0]);
        reveal_strlit("gray");
        assert("gray"@[0] != "teal"@[0]);
        reveal_strlit("grey");
        assert("grey"@[0] != "teal"@[0]);
        reveal_strlit("lime");
        assert("lime"@[0] != "teal"@[0]);
        reveal_strlit("navy");
        assert("navy"@[0] != "teal"@[0]);
        reveal_strlit("peru");
        assert("peru"@[0] != "teal"@[0]);
        reveal_strlit("pink");
        assert("pink"@[0] != "teal"@[0]);
        reveal_strlit("plum");
        assert("plum"@[0] != "teal"@[0]);
        reveal_strlit("snow");
        assert("snow"@[0] != "teal"@[0]);
    }
    assert(t == "thistle"@ ==> spec_named_color(s) == Some(NamedColor::Rgb(0xd8bfd8))) by {
        reveal_strlit("thistle");
        reveal_strlit("crimson");
        assert("crimson"@[0] != "thistle"@[0]);
        reveal_strlit("darkred");
        assert("darkred"@[0] != "thistle"@[0]);
        reveal_strlit("dimgray");
        assert("dimgray"@[0] != "thistle"@[0]);
        reveal_strlit("dimgrey");
        assert("dimgrey"@[0] != "thistle"@[0]);
        reveal_strlit("fuchsia");
        assert("fuchsia"@[0] != "thistle"@[0]);
        reveal_strlit("magenta");
        assert("magenta"@[0] != "thistle"@[0]);
        reveal_strlit("hotpink");
        assert("hotpink"@[0] != "thistle"@[0]);
        reveal_strlit("oldlace");
        assert("oldlace"@[0] != "thistle"@[0]);
        reveal_strlit("skyblue");
        assert("skyblue"@[0] != "thistle"@[0]);
    }
    assert(t == "tomato"@ ==> spec_named_color(s) == Some(NamedColor::Rgb(0xff6347))) by {
        reveal_strlit("tomato");
        reveal_strlit("bisque");
        assert("bisque"@[0] != "tomato"@[0]);
        reveal_strlit("indigo");
        assert("indigo"@[0] != "tomato"@[0]);
        reveal_strlit("maroon");
        assert("maroon"@[0] != "tomato"@[0]);
        reveal_strlit("orange");
        assert("orange"@[0] != "tomato"@[0]);
        reveal_strlit("orchid");
        assert("orchid"@[0] != "tomato"@[0]);
        reveal_strlit("purple");
        assert("purple"@[0] != "tomato"@[0]);
        reveal_strlit("salmon");
        assert("salmon"@[0] != "tomato"@[0]);
        reveal_strlit("sienna");
        assert("sienna"@[0] != "tomato"@[0]);
        reveal_strlit("silver");
        assert("silver"@[0] != "tomato"@[0]);
    }
    assert(t == "turquoise"@ ==> spec_named_color(s) == Some(NamedColor::Rgb(0x40e0d0))) by {
        reveal_strlit("turquoise");
        reveal_strlit("aliceblue");
        assert("aliceblue"@[0] != "turquoise"@[0]);
        reveal_strlit("burlywood");
        assert("burlywood"@[0] != "turquoise"@[0]);
        reveal_strlit("cadetblue");
        assert("cadetblue"@[0] != "turquoise"@[0]);
        reveal_strlit("chocolate");
        assert("chocolate"@[0] != "turquoise"@[0]);
        reveal_strlit("darkgreen");
        assert("darkgreen"@[0] != "turquoise"@[0]);
        reveal_strlit("darkkhaki");
        assert("darkkhaki"@[0] != "turquoise"@[0]);
        reveal_strlit("firebrick");
        assert("firebrick"@[0] != "turquoise"@[0]);
        reveal_strlit("gainsboro");
        assert("gainsboro"@[0] != "turquoise"@[0]);
        reveal_strlit("goldenrod");
        assert("goldenrod"@[0] != "turquoise"@[0]);
        reveal_strlit("indianred");
        assert("indianred"@[0] != "turquoise"@[0]);
        reveal_strlit("lawngreen");
        assert("lawngreen"@[0] != "turquoise"@[0]);
        reveal_strlit("lightblue");
        assert("lightblue"@[0] != "turquoise"@[0]);
        reveal_strlit("lightcyan");
        assert("lightcyan"@[0] != "turquoise"@[0]);
        reveal_strlit("lightgray");
        assert("lightgray"@[0] != "turquoise"@[0]);
        reveal_strlit("lightgrey");
        assert("lightgrey"@[0] != "turquoise"@[0]);
        reveal_strlit("lightpink");
        assert("lightpink"@[0] != "turquoise"@[0]);
        reveal_strlit("limegreen");
        assert("limegreen"@[0] != "turquoise"@[0]);
        reveal_strlit("mintcream");
        assert("mintcream"@[0] != "turquoise"@[0]);
        reveal_strlit("mistyrose");
        assert("mistyrose"@[0] != "turquoise"@[0]);
        reveal_strlit("olivedrab");
        assert("olivedrab"@[0] != "turquoise"@[0]);
        reveal_strlit("orangered");
        assert("orangered"@[0] != "turquoise"@[0]);
        reveal_strlit("palegreen");
        assert("palegreen"@[0] != "turquoise"@[0]);
        reveal_strlit("peachpuff");
        assert("peachpuff"@[0] != "turquoise"@[0]);
        reveal_strlit("rosybrown");
        assert("rosybrown"@[0] != "turquoise"@[0]);
        reveal_strlit("royalblue");
        assert("royalblue"@[0] != "turquoise"@[0]);
        reveal_strlit("slateblue");
        assert("slateblue"@[0] != "turquoise"@[0]);
        reveal_strlit("slategray");
        assert("slategray"@[0] != "turquoise"@[0]);
        reveal_strlit("slategrey");
        assert("slategrey"@[0] != "turquoise"@[0]);
        reveal_strlit("steelblue");
        assert("steelblue"@[0] != "turquoise"@[0]);
    }
    assert(t == "violet"@ ==> spec_named_color(s) == Some(NamedColor::Rgb(0xee82ee))) by {
        reveal_strlit("violet");
        reveal_strlit("bisque");
        assert("bisque"@[0] != "violet"@[0]);
        reveal_strlit("indigo");
        assert("indigo"@[0] != "violet"@[0]);
        reveal_strlit("maroon");
        assert("maroon"@[0] != "violet"@[0]);
        reveal_strlit("orange");
        assert("orange"@[0] != "violet"@[0]);
        reveal_strlit("orchid");
        assert("orchid"@[0] != "violet"@[0]);
        reveal_strlit("purple");
        assert("purple"@[0] != "violet"@[0]);
        reveal_strlit("salmon");
        assert("salmon"@[0] != "violet"@[0]);
        reveal_strlit("sienna");
        assert("sienna"@[0] != "violet"@[0]);
        reveal_strlit("silver");
        assert("silver"@[0] != "violet"@[0]);
        reveal_strlit("tomato");
        assert("tomato"@[0] != "violet"@[0]);
    }
    assert(t == "wheat"@ ==> spec_named_color(s) == Some(NamedColor::Rgb(0xf5deb3))) by {
        reveal_strlit("wheat");
        reveal_strlit("azure");
        assert("azure"@[0] != "wheat"@[0]);
        reveal_strlit("beige");
        assert("beige"@[0] != "wheat"@[0]);
        reveal_strlit("black");
        assert("black"@[0] != "wheat"@[0]);
        reveal_strlit("brown");
        assert("brown"@[0] != "wheat"@[0]);
        reveal_strlit("coral");
        assert("coral"@[0] != "wheat"@[0]);
        reveal_strlit("green");
        assert("green"@[0] != "wheat"@[0]);
        reveal_strlit("ivory");
        assert("ivory"@[0] != "wheat"@[0]);
        reveal_strlit("khaki");
        assert("khaki"@[0] != "wheat"@[0]);
        reveal_strlit("linen");
        assert("linen"@[0] != "wheat"@[0]);
        reveal_strlit("olive");
        assert("olive"@[0] != "wheat"@[0]);
    }
    assert(t == "white"@ ==> spec_named_color(s) == Some(NamedColor::Rgb(0xffffff))) by {
        reveal_strlit("white");
        reveal_strlit("azure");
        assert("azure"@[0] != "white"@[0]);
        reveal_strlit("beige");
        assert("beige"@[0] != "white"@[0]);
        reveal_strlit("black");
        assert("black"@[0] != "white"@[0]);
        reveal_strlit("brown");
        assert("brown"@[0] != "white"@[0]);
        reveal_strlit("coral");
        assert("coral"@[0] != "white"@[0]);
        reveal_strlit("green");
        assert("green"@[0] != "white"@[0]);
        reveal_strlit("ivory");
        assert("ivory"@[0] != "white"@[0]);
        reveal_strlit("khaki");
        assert("khaki"@[0] != "white"@[0]);
        reveal_strlit("linen");
        assert("linen"@[0] != "white"@[0]);
        reveal_strlit("olive");
        assert("olive"@[0] != "white"@[0]);
        reveal_strlit("wheat");
        assert("wheat"@[2] != "white"@[2]);
    }
    assert(t == "whitesmoke"@ ==> spec_named_color(s) == Some(NamedColor::Rgb(0xf5f5f5))) by {
        reveal_strlit("whitesmoke");
        reveal_strlit("aquamarine");
        assert("aquamarine"@[0] != "whitesmoke"@[0]);
        reveal_strlit("blueviolet");
        assert("blueviolet"@[0] != "whitesmoke"@[0]);
        reveal_strlit("chartreuse");
        assert("chartreuse"@[0] != "whitesmoke"@[0]);
        reveal_strlit("darkorange");
        assert("darkorange"@[0] != "whitesmoke"@[0]);
        reveal_strlit("darkorchid");
        assert("darkorchid"@[0] != "whitesmoke"@[0]);
        reveal_strlit("darksalmon");
        assert("darksalmon"@[0] != "whitesmoke"@[0]);
        reveal_strlit("darkviolet");
        assert("darkviolet"@[0] != "whitesmoke"@[0]);
        reveal_strlit("dodgerblue");
        assert("dodgerblue"@[0] != "whitesmoke"@[0]);
        reveal_strlit("ghostwhite");
        assert("ghostwhite"@[0] != "whitesmoke"@[0]);
        reveal_strlit("lightcoral");
        assert("lightcoral"@[0] != "whitesmoke"@[0]);
        reveal_strlit("lightgreen");
        assert("lightgreen"@[0] != "whitesmoke"@[0]);
        reveal_strlit("mediumblue");
        assert("mediumblue"@[0] != "whitesmoke"@[0]);
        reveal_strlit("papayawhip");
        assert("papayawhip"@[0] != "whitesmoke"@[0]);
        reveal_strlit("powderblue");
        assert("powderblue"@[0] != "whitesmoke"@[0]);
        reveal_strlit("sandybrown");
        assert("sandybrown"@[0] != "whitesmoke"@[0]);
    }
    assert(t == "yellow"@ ==> spec_named_color(s) == Some(NamedColor::Rgb(0xffff00))) by {
        reveal_strlit("yellow");
        reveal_strlit("bisque");
        assert("bisque"@[0] != "yellow"@[0]);
        reveal_strlit("indigo");
        assert("indigo"@[0] != "yellow"@[0]);
        reveal_strlit("maroon");
        assert("maroon"@[0] != "yellow"@[0]);
        reveal_strlit("orange");
        assert("orange"@[0] != "yellow"@[0]);
        reveal_strlit("orchid");
        assert("orchid"@[0] != "yellow"@[0]);
        reveal_strlit("purple");
        assert("purple"@[0] != "yellow"@[0]);
        reveal_strlit("salmon");
        assert("salmon"@[0] != "yellow"@[0]);
        reveal_strlit("sienna");
        assert("sienna"@[0] != "yellow"@[0]);
        reveal_strlit("silver");
        assert("silver"@[0] != "yellow"@[0]);
        reveal_strlit("tomato");
        assert("tomato"@[0] != "yellow"@[0]);
        reveal_strlit("violet");
        assert("violet"@[0] != "yellow"@[0]);
    }
    assert(t == "yellowgreen"@ ==> spec_named_color(s) == Some(NamedColor::Rgb(0x9acd32))) by {
        reveal_strlit("yellowgreen");
        reveal_strlit("transparent");
        assert("transparent"@[0] != "yellowgreen"@[0]);
        reveal_strlit("darkmagenta");
        assert("darkmagenta"@[0] != "yellowgreen"@[0]);
        reveal_strlit("deepskyblue");
        assert("deepskyblue"@[0] != "yellowgreen"@[0]);
        reveal_strlit("floralwhite");
        assert("floralwhite"@[0] != "yellowgreen"@[0]);
        reveal_strlit("forestgreen");
        assert("forestgreen"@[0] != "yellowgreen"@[0]);
        reveal_strlit("greenyellow");
        assert("greenyellow"@[0] != "yellowgreen"@[0]);
        reveal_strlit("lightsalmon");
        assert("lightsalmon"@[0] != "yellowgreen"@[0]);
        reveal_strlit("lightyellow");
        assert("lightyellow"@[0] != "yellowgreen"@[0]);
        reveal_strlit("navajowhite");
        assert("navajowhite"@[0] != "yellowgreen"@[0]);
        reveal_strlit("saddlebrown");
        assert("saddlebrown"@[0] != "yellowgreen"@[0]);
        reveal_strlit("springgreen");
        assert("springgreen"@[0] != "yellowgreen"@[0]);
    }
}

} // verus!
