use vstd::prelude::*;

use crate::color::Rgb;

verus! {

/// The number of CSS named colors.
pub const CSS_COLOR_COUNT: usize = 148;

/// The CSS named colors, in alphabetical order: entry `i`, for
/// `i < CSS_COLOR_COUNT`, holds a lowercase name and its color.
pub open spec fn css_entry(i: usize) -> (Seq<char>, Rgb) {
    match i {
        0 => ("aliceblue"@, (240u8, 248u8, 255u8)),
        1 => ("antiquewhite"@, (250u8, 235u8, 215u8)),
        2 => ("aqua"@, (0u8, 255u8, 255u8)),
        3 => ("aquamarine"@, (127u8, 255u8, 212u8)),
        4 => ("azure"@, (240u8, 255u8, 255u8)),
        5 => ("beige"@, (245u8, 245u8, 220u8)),
        6 => ("bisque"@, (255u8, 228u8, 196u8)),
        7 => ("black"@, (0u8, 0u8, 0u8)),
        8 => ("blanchedalmond"@, (255u8, 235u8, 205u8)),
        9 => ("blue"@, (0u8, 0u8, 255u8)),
        10 => ("blueviolet"@, (138u8, 43u8, 226u8)),
        11 => ("brown"@, (165u8, 42u8, 42u8)),
        12 => ("burlywood"@, (222u8, 184u8, 135u8)),
        13 => ("cadetblue"@, (95u8, 158u8, 160u8)),
        14 => ("chartreuse"@, (127u8, 255u8, 0u8)),
        15 => ("chocolate"@, (210u8, 105u8, 30u8)),
        16 => ("coral"@, (255u8, 127u8, 80u8)),
        17 => ("cornflowerblue"@, (100u8, 149u8, 237u8)),
        18 => ("cornsilk"@, (255u8, 248u8, 220u8)),
        19 => ("crimson"@, (220u8, 20u8, 60u8)),
        20 => ("cyan"@, (0u8, 255u8, 255u8)),
        21 => ("darkblue"@, (0u8, 0u8, 139u8)),
        22 => ("darkcyan"@, (0u8, 139u8, 139u8)),
        23 => ("darkgoldenrod"@, (184u8, 134u8, 11u8)),
        24 => ("darkgray"@, (169u8, 169u8, 169u8)),
        25 => ("darkgreen"@, (0u8, 100u8, 0u8)),
        26 => ("darkgrey"@, (169u8, 169u8, 169u8)),
        27 => ("darkkhaki"@, (189u8, 183u8, 107u8)),
        28 => ("darkmagenta"@, (139u8, 0u8, 139u8)),
        29 => ("darkolivegreen"@, (85u8, 107u8, 47u8)),
        30 => ("darkorange"@, (255u8, 140u8, 0u8)),
        31 => ("darkorchid"@, (153u8, 50u8, 204u8)),
        32 => ("darkred"@, (139u8, 0u8, 0u8)),
        33 => ("darksalmon"@, (233u8, 150u8, 122u8)),
        34 => ("darkseagreen"@, (143u8, 188u8, 143u8)),
        35 => ("darkslateblue"@, (72u8, 61u8, 139u8)),
        36 => ("darkslategray"@, (47u8, 79u8, 79u8)),
        37 => ("darkslategrey"@, (47u8, 79u8, 79u8)),
        38 => ("darkturquoise"@, (0u8, 206u8, 209u8)),
        39 => ("darkviolet"@, (148u8, 0u8, 211u8)),
        40 => ("deeppink"@, (255u8, 20u8, 147u8)),
        41 => ("deepskyblue"@, (0u8, 191u8, 255u8)),
        42 => ("dimgray"@, (105u8, 105u8, 105u8)),
        43 => ("dimgrey"@, (105u8, 105u8, 105u8)),
        44 => ("dodgerblue"@, (30u8, 144u8, 255u8)),
        45 => ("firebrick"@, (178u8, 34u8, 34u8)),
        46 => ("floralwhite"@, (255u8, 250u8, 240u8)),
        47 => ("forestgreen"@, (34u8, 139u8, 34u8)),
        48 => ("fuchsia"@, (255u8, 0u8, 255u8)),
        49 => ("gainsboro"@, (220u8, 220u8, 220u8)),
        50 => ("ghostwhite"@, (248u8, 248u8, 255u8)),
        51 => ("gold"@, (255u8, 215u8, 0u8)),
        52 => ("goldenrod"@, (218u8, 165u8, 32u8)),
        53 => ("gray"@, (128u8, 128u8, 128u8)),
        54 => ("green"@, (0u8, 128u8, 0u8)),
        55 => ("greenyellow"@, (173u8, 255u8, 47u8)),
        56 => ("grey"@, (128u8, 128u8, 128u8)),
        57 => ("honeydew"@, (240u8, 255u8, 240u8)),
        58 => ("hotpink"@, (255u8, 105u8, 180u8)),
        59 => ("indianred"@, (205u8, 92u8, 92u8)),
        60 => ("indigo"@, (75u8, 0u8, 130u8)),
        61 => ("ivory"@, (255u8, 255u8, 240u8)),
        62 => ("khaki"@, (240u8, 230u8, 140u8)),
        63 => ("lavender"@, (230u8, 230u8, 250u8)),
        64 => ("lavenderblush"@, (255u8, 240u8, 245u8)),
        65 => ("lawngreen"@, (124u8, 252u8, 0u8)),
        66 => ("lemonchiffon"@, (255u8, 250u8, 205u8)),
        67 => ("lightblue"@, (173u8, 216u8, 230u8)),
        68 => ("lightcoral"@, (240u8, 128u8, 128u8)),
        69 => ("lightcyan"@, (224u8, 255u8, 255u8)),
        70 => ("lightgoldenrodyellow"@, (250u8, 250u8, 210u8)),
        71 => ("lightgray"@, (211u8, 211u8, 211u8)),
        72 => ("lightgreen"@, (144u8, 238u8, 144u8)),
        73 => ("lightgrey"@, (211u8, 211u8, 211u8)),
        74 => ("lightpink"@, (255u8, 182u8, 193u8)),
        75 => ("lightsalmon"@, (255u8, 160u8, 122u8)),
        76 => ("lightseagreen"@, (32u8, 178u8, 170u8)),
        77 => ("lightskyblue"@, (135u8, 206u8, 250u8)),
        78 => ("lightslategray"@, (119u8, 136u8, 153u8)),
        79 => ("lightslategrey"@, (119u8, 136u8, 153u8)),
        80 => ("lightsteelblue"@, (176u8, 196u8, 222u8)),
        81 => ("lightyellow"@, (255u8, 255u8, 224u8)),
        82 => ("lime"@, (0u8, 255u8, 0u8)),
        83 => ("limegreen"@, (50u8, 205u8, 50u8)),
        84 => ("linen"@, (250u8, 240u8, 230u8)),
        85 => ("magenta"@, (255u8, 0u8, 255u8)),
        86 => ("maroon"@, (128u8, 0u8, 0u8)),
        87 => ("mediumaquamarine"@, (102u8, 205u8, 170u8)),
        88 => ("mediumblue"@, (0u8, 0u8, 205u8)),
        89 => ("mediumorchid"@, (186u8, 85u8, 211u8)),
        90 => ("mediumpurple"@, (147u8, 112u8, 219u8)),
        91 => ("mediumseagreen"@, (60u8, 179u8, 113u8)),
        92 => ("mediumslateblue"@, (123u8, 104u8, 238u8)),
        93 => ("mediumspringgreen"@, (0u8, 250u8, 154u8)),
        94 => ("mediumturquoise"@, (72u8, 209u8, 204u8)),
        95 => ("mediumvioletred"@, (199u8, 21u8, 133u8)),
        96 => ("midnightblue"@, (25u8, 25u8, 112u8)),
        97 => ("mintcream"@, (245u8, 255u8, 250u8)),
        98 => ("mistyrose"@, (255u8, 228u8, 225u8)),
        99 => ("moccasin"@, (255u8, 228u8, 181u8)),
        100 => ("navajowhite"@, (255u8, 222u8, 173u8)),
        101 => ("navy"@, (0u8, 0u8, 128u8)),
        102 => ("oldlace"@, (253u8, 245u8, 230u8)),
        103 => ("olive"@, (128u8, 128u8, 0u8)),
        104 => ("olivedrab"@, (107u8, 142u8, 35u8)),
        105 => ("orange"@, (255u8, 165u8, 0u8)),
        106 => ("orangered"@, (255u8, 69u8, 0u8)),
        107 => ("orchid"@, (218u8, 112u8, 214u8)),
        108 => ("palegoldenrod"@, (238u8, 232u8, 170u8)),
        109 => ("palegreen"@, (152u8, 251u8, 152u8)),
        110 => ("paleturquoise"@, (175u8, 238u8, 238u8)),
        111 => ("palevioletred"@, (219u8, 112u8, 147u8)),
        112 => ("papayawhip"@, (255u8, 239u8, 213u8)),
        113 => ("peachpuff"@, (255u8, 218u8, 185u8)),
        114 => ("peru"@, (205u8, 133u8, 63u8)),
        115 => ("pink"@, (255u8, 192u8, 203u8)),
        116 => ("plum"@, (221u8, 160u8, 221u8)),
        117 => ("powderblue"@, (176u8, 224u8, 230u8)),
        118 => ("purple"@, (128u8, 0u8, 128u8)),
        119 => ("rebeccapurple"@, (102u8, 51u8, 153u8)),
        120 => ("red"@, (255u8, 0u8, 0u8)),
        121 => ("rosybrown"@, (188u8, 143u8, 143u8)),
        122 => ("royalblue"@, (65u8, 105u8, 225u8)),
        123 => ("saddlebrown"@, (139u8, 69u8, 19u8)),
        124 => ("salmon"@, (250u8, 128u8, 114u8)),
        125 => ("sandybrown"@, (244u8, 164u8, 96u8)),
        126 => ("seagreen"@, (46u8, 139u8, 87u8)),
        127 => ("seashell"@, (255u8, 245u8, 238u8)),
        128 => ("sienna"@, (160u8, 82u8, 45u8)),
        129 => ("silver"@, (192u8, 192u8, 192u8)),
        130 => ("skyblue"@, (135u8, 206u8, 235u8)),
        131 => ("slateblue"@, (106u8, 90u8, 205u8)),
        132 => ("slategray"@, (112u8, 128u8, 144u8)),
        133 => ("slategrey"@, (112u8, 128u8, 144u8)),
        134 => ("snow"@, (255u8, 250u8, 250u8)),
        135 => ("springgreen"@, (0u8, 255u8, 127u8)),
        136 => ("steelblue"@, (70u8, 130u8, 180u8)),
        137 => ("tan"@, (210u8, 180u8, 140u8)),
        138 => ("teal"@, (0u8, 128u8, 128u8)),
        139 => ("thistle"@, (216u8, 191u8, 216u8)),
        140 => ("tomato"@, (255u8, 99u8, 71u8)),
        141 => ("turquoise"@, (64u8, 224u8, 208u8)),
        142 => ("violet"@, (238u8, 130u8, 238u8)),
        143 => ("wheat"@, (245u8, 222u8, 179u8)),
        144 => ("white"@, (255u8, 255u8, 255u8)),
        145 => ("whitesmoke"@, (245u8, 245u8, 245u8)),
        146 => ("yellow"@, (255u8, 255u8, 0u8)),
        _ => ("yellowgreen"@, (154u8, 205u8, 50u8)),
    }
}

/// The color of the first table entry at index `i` or later whose name is
/// `name`, if there is one.
pub open spec fn css_lookup_from(name: Seq<char>, i: nat) -> Option<Rgb>
    decreases CSS_COLOR_COUNT - i,
{
    if i >= CSS_COLOR_COUNT {
        None
    } else if css_entry(i as usize).0 == name {
        Some(css_entry(i as usize).1)
    } else {
        css_lookup_from(name, i + 1)
    }
}

/// The color of the CSS color named exactly `name`, if there is one.
pub open spec fn css_lookup(name: Seq<char>) -> Option<Rgb> {
    css_lookup_from(name, 0)
}

/// The lowercase form of a string under Unicode's lowercase mapping, as
/// `str::to_lowercase` computes it.
pub uninterp spec fn spec_to_lowercase(s: Seq<char>) -> Seq<char>;

/// Every character of `s` is ASCII.
pub open spec fn all_ascii(s: Seq<char>) -> bool {
    forall|i: int| 0 <= i < s.len() ==> (#[trigger] s[i] as int) < 128
}

/// The ASCII lowercase of a character: `A`-`Z` become `a`-`z`, every other
/// character stays.
pub open spec fn ascii_lower_char(c: char) -> char {
    if 'A' <= c && c <= 'Z' {
        ((c as int) + 32) as char
    } else {
        c
    }
}

/// Each character of `s` in ASCII lowercase.
pub open spec fn ascii_lowercase(s: Seq<char>) -> Seq<char> {
    s.map_values(|c: char| ascii_lower_char(c))
}

/// Calls `str::to_lowercase`. The view of the returned string is
/// `spec_to_lowercase` of the view of the input; for all-ASCII text it is the
/// text with `A`-`Z` turned into `a`-`z` and every other character kept. What
/// it does to other characters is left unsaid.
#[verifier::external_body]
pub(crate) fn to_lowercase(s: &str) -> (r: String)
    ensures
        r@ == spec_to_lowercase(s@),
        all_ascii(s@) ==> r@ == ascii_lowercase(s@),
{
    s.to_lowercase()
}

/// Test whether two strings hold the same characters; `a_len` is the number of
/// characters of `a`.
pub(crate) fn same_chars(a: &str, a_len: usize, b: &str) -> (res: bool)
    requires
        a_len == a@.len(),
    ensures
        res == (a@ == b@),
{
    let n = b.unicode_len();
    if n != a_len {
        return false;
    }
    let mut i: usize = 0;
    while i < n
        invariant
            i <= n,
            n == a@.len(),
            n == b@.len(),
            forall|j: int| 0 <= j < i ==> a@[j] == b@[j],
        decreases n - i,
    {
        if a.get_char(i) != b.get_char(i) {
            return false;
        }
        i += 1;
    }
    assert(a@ =~= b@);
    true
}

/// The color of the CSS color named exactly `name`, if there is one.
pub(crate) fn css_lookup_exec(name: &str) -> (res: Option<(u8, u8, u8)>)
    ensures
        res == css_lookup(name@),
{
    let len = name.unicode_len();
    let mut i: usize = 0;
    while i < CSS_COLOR_COUNT
        invariant
            i <= CSS_COLOR_COUNT,
            len == name@.len(),
            css_lookup(name@) == css_lookup_from(name@, i as nat),
        decreases CSS_COLOR_COUNT - i,
    {
        let e = css_entry_exec(i);
        if same_chars(name, len, e.0) {
            return Some((e.1, e.2, e.3));
        }
        i += 1;
    }
    None
}

/// Entry `i` of the CSS color table.
pub(crate) fn css_entry_exec(i: usize) -> (e: (&'static str, u8, u8, u8))
    requires
        i < CSS_COLOR_COUNT,
    ensures
        (e.0@, (e.1, e.2, e.3)) == css_entry(i as usize),
{
    match i {
        0 => ("aliceblue", 240, 248, 255),
        1 => ("antiquewhite", 250, 235, 215),
        2 => ("aqua", 0, 255, 255),
        3 => ("aquamarine", 127, 255, 212),
        4 => ("azure", 240, 255, 255),
        5 => ("beige", 245, 245, 220),
        6 => ("bisque", 255, 228, 196),
        7 => ("black", 0, 0, 0),
        8 => ("blanchedalmond", 255, 235, 205),
        9 => ("blue", 0, 0, 255),
        10 => ("blueviolet", 138, 43, 226),
        11 => ("brown", 165, 42, 42),
        12 => ("burlywood", 222, 184, 135),
        13 => ("cadetblue", 95, 158, 160),
        14 => ("chartreuse", 127, 255, 0),
        15 => ("chocolate", 210, 105, 30),
        16 => ("coral", 255, 127, 80),
        17 => ("cornflowerblue", 100, 149, 237),
        18 => ("cornsilk", 255, 248, 220),
        19 => ("crimson", 220, 20, 60),
        20 => ("cyan", 0, 255, 255),
        21 => ("darkblue", 0, 0, 139),
        22 => ("darkcyan", 0, 139, 139),
        23 => ("darkgoldenrod", 184, 134, 11),
        24 => ("darkgray", 169, 169, 169),
        25 => ("darkgreen", 0, 100, 0),
        26 => ("darkgrey", 169, 169, 169),
        27 => ("darkkhaki", 189, 183, 107),
        28 => ("darkmagenta", 139, 0, 139),
        29 => ("darkolivegreen", 85, 107, 47),
        30 => ("darkorange", 255, 140, 0),
        31 => ("darkorchid", 153, 50, 204),
        32 => ("darkred", 139, 0, 0),
        33 => ("darksalmon", 233, 150, 122),
        34 => ("darkseagreen", 143, 188, 143),
        35 => ("darkslateblue", 72, 61, 139),
        36 => ("darkslategray", 47, 79, 79),
        37 => ("darkslategrey", 47, 79, 79),
        38 => ("darkturquoise", 0, 206, 209),
        39 => ("darkviolet", 148, 0, 211),
        40 => ("deeppink", 255, 20, 147),
        41 => ("deepskyblue", 0, 191, 255),
        42 => ("dimgray", 105, 105, 105),
        43 => ("dimgrey", 105, 105, 105),
        44 => ("dodgerblue", 30, 144, 255),
        45 => ("firebrick", 178, 34, 34),
        46 => ("floralwhite", 255, 250, 240),
        47 => ("forestgreen", 34, 139, 34),
        48 => ("fuchsia", 255, 0, 255),
        49 => ("gainsboro", 220, 220, 220),
        50 => ("ghostwhite", 248, 248, 255),
        51 => ("gold", 255, 215, 0),
        52 => ("goldenrod", 218, 165, 32),
        53 => ("gray", 128, 128, 128),
        54 => ("green", 0, 128, 0),
        55 => ("greenyellow", 173, 255, 47),
        56 => ("grey", 128, 128, 128),
        57 => ("honeydew", 240, 255, 240),
        58 => ("hotpink", 255, 105, 180),
        59 => ("indianred", 205, 92, 92),
        60 => ("indigo", 75, 0, 130),
        61 => ("ivory", 255, 255, 240),
        62 => ("khaki", 240, 230, 140),
        63 => ("lavender", 230, 230, 250),
        64 => ("lavenderblush", 255, 240, 245),
        65 => ("lawngreen", 124, 252, 0),
        66 => ("lemonchiffon", 255, 250, 205),
        67 => ("lightblue", 173, 216, 230),
        68 => ("lightcoral", 240, 128, 128),
        69 => ("lightcyan", 224, 255, 255),
        70 => ("lightgoldenrodyellow", 250, 250, 210),
        71 => ("lightgray", 211, 211, 211),
        72 => ("lightgreen", 144, 238, 144),
        73 => ("lightgrey", 211, 211, 211),
        74 => ("lightpink", 255, 182, 193),
        75 => ("lightsalmon", 255, 160, 122),
        76 => ("lightseagreen", 32, 178, 170),
        77 => ("lightskyblue", 135, 206, 250),
        78 => ("lightslategray", 119, 136, 153),
        79 => ("lightslategrey", 119, 136, 153),
        80 => ("lightsteelblue", 176, 196, 222),
        81 => ("lightyellow", 255, 255, 224),
        82 => ("lime", 0, 255, 0),
        83 => ("limegreen", 50, 205, 50),
        84 => ("linen", 250, 240, 230),
        85 => ("magenta", 255, 0, 255),
        86 => ("maroon", 128, 0, 0),
        87 => ("mediumaquamarine", 102, 205, 170),
        88 => ("mediumblue", 0, 0, 205),
        89 => ("mediumorchid", 186, 85, 211),
        90 => ("mediumpurple", 147, 112, 219),
        91 => ("mediumseagreen", 60, 179, 113),
        92 => ("mediumslateblue", 123, 104, 238),
        93 => ("mediumspringgreen", 0, 250, 154),
        94 => ("mediumturquoise", 72, 209, 204),
        95 => ("mediumvioletred", 199, 21, 133),
        96 => ("midnightblue", 25, 25, 112),
        97 => ("mintcream", 245, 255, 250),
        98 => ("mistyrose", 255, 228, 225),
        99 => ("moccasin", 255, 228, 181),
        100 => ("navajowhite", 255, 222, 173),
        101 => ("navy", 0, 0, 128),
        102 => ("oldlace", 253, 245, 230),
        103 => ("olive", 128, 128, 0),
        104 => ("olivedrab", 107, 142, 35),
        105 => ("orange", 255, 165, 0),
        106 => ("orangered", 255, 69, 0),
        107 => ("orchid", 218, 112, 214),
        108 => ("palegoldenrod", 238, 232, 170),
        109 => ("palegreen", 152, 251, 152),
        110 => ("paleturquoise", 175, 238, 238),
        111 => ("palevioletred", 219, 112, 147),
        112 => ("papayawhip", 255, 239, 213),
        113 => ("peachpuff", 255, 218, 185),
        114 => ("peru", 205, 133, 63),
        115 => ("pink", 255, 192, 203),
        116 => ("plum", 221, 160, 221),
        117 => ("powderblue", 176, 224, 230),
        118 => ("purple", 128, 0, 128),
        119 => ("rebeccapurple", 102, 51, 153),
        120 => ("red", 255, 0, 0),
        121 => ("rosybrown", 188, 143, 143),
        122 => ("royalblue", 65, 105, 225),
        123 => ("saddlebrown", 139, 69, 19),
        124 => ("salmon", 250, 128, 114),
        125 => ("sandybrown", 244, 164, 96),
        126 => ("seagreen", 46, 139, 87),
        127 => ("seashell", 255, 245, 238),
        128 => ("sienna", 160, 82, 45),
        129 => ("silver", 192, 192, 192),
        130 => ("skyblue", 135, 206, 235),
        131 => ("slateblue", 106, 90, 205),
        132 => ("slategray", 112, 128, 144),
        133 => ("slategrey", 112, 128, 144),
        134 => ("snow", 255, 250, 250),
        135 => ("springgreen", 0, 255, 127),
        136 => ("steelblue", 70, 130, 180),
        137 => ("tan", 210, 180, 140),
        138 => ("teal", 0, 128, 128),
        139 => ("thistle", 216, 191, 216),
        140 => ("tomato", 255, 99, 71),
        141 => ("turquoise", 64, 224, 208),
        142 => ("violet", 238, 130, 238),
        143 => ("wheat", 245, 222, 179),
        144 => ("white", 255, 255, 255),
        145 => ("whitesmoke", 245, 245, 245),
        146 => ("yellow", 255, 255, 0),
        _ => ("yellowgreen", 154, 205, 50),
    }
}

} // verus!
