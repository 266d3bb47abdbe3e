//! The CSS named-color table is in strictly increasing dictionary order, so
//! no name occurs twice and looking a name up finds its own entry.

use vstd::prelude::*;

use crate::css::{css_entry, css_lookup, CSS_COLOR_COUNT};
use crate::laws::lemma_lookup_finds_table_names;

verus! {

/// `a` comes strictly before `b` in dictionary order of character codes: a
/// proper prefix comes first, else the first differing character decides.
pub open spec fn lex_less(a: Seq<char>, b: Seq<char>) -> bool
    decreases a.len(),
{
    if b.len() == 0 {
        false
    } else if a.len() == 0 {
        true
    } else if a[0] != b[0] {
        (a[0] as u32) < (b[0] as u32)
    } else {
        lex_less(a.drop_first(), b.drop_first())
    }
}

/// No sequence comes before itself.
pub proof fn lemma_lex_irreflexive(a: Seq<char>)
    ensures
        !lex_less(a, a),
    decreases a.len(),
{
    if a.len() > 0 {
        lemma_lex_irreflexive(a.drop_first());
    }
}

/// Dictionary order is transitive.
pub proof fn lemma_lex_transitive(a: Seq<char>, b: Seq<char>, c: Seq<char>)
    requires
        lex_less(a, b),
        lex_less(b, c),
    ensures
        lex_less(a, c),
    decreases a.len(),
{
    if a.len() > 0 && b.len() > 0 && c.len() > 0 && a[0] == b[0] && b[0] == c[0] {
        lemma_lex_transitive(a.drop_first(), b.drop_first(), c.drop_first());
    }
}

/// Entries 0 to 36 of the table each come before the next.
proof fn lemma_table_ascends_0_36(i: usize)
    requires
        0 <= i <= 36,
    ensures
        lex_less(css_entry(i).0, css_entry((i + 1) as usize).0),
{
    reveal_with_fuel(lex_less, 14);
    if i == 0 {
        reveal_strlit("aliceblue");
        reveal_strlit("antiquewhite");
    } else if i == 1 {
        reveal_strlit("antiquewhite");
        reveal_strlit("aqua");
    } else if i == 2 {
        reveal_strlit("aqua");
        reveal_strlit("aquamarine");
    } else if i == 3 {
        reveal_strlit("aquamarine");
        reveal_strlit("azure");
    } else if i == 4 {
        reveal_strlit("azure");
        reveal_strlit("beige");
    } else if i == 5 {
        reveal_strlit("beige");
        reveal_strlit("bisque");
    } else if i == 6 {
        reveal_strlit("bisque");
        reveal_strlit("black");
    } else if i == 7 {
        reveal_strlit("black");
        reveal_strlit("blanchedalmond");
    } else if i == 8 {
        reveal_strlit("blanchedalmond");
        reveal_strlit("blue");
    } else if i == 9 {
        reveal_strlit("blue");
        reveal_strlit("blueviolet");
    } else if i == 10 {
        reveal_strlit("blueviolet");
        reveal_strlit("brown");
    } else if i == 11 {
        reveal_strlit("brown");
        reveal_strlit("burlywood");
    } else if i == 12 {
        reveal_strlit("burlywood");
        reveal_strlit("cadetblue");
    } else if i == 13 {
        reveal_strlit("cadetblue");
        reveal_strlit("chartreuse");
    } else if i == 14 {
        reveal_strlit("chartreuse");
        reveal_strlit("chocolate");
    } else if i == 15 {
        reveal_strlit("chocolate");
        reveal_strlit("coral");
    } else if i == 16 {
        reveal_strlit("coral");
        reveal_strlit("cornflowerblue");
    } else if i == 17 {
        reveal_strlit("cornflowerblue");
        reveal_strlit("cornsilk");
    } else if i == 18 {
        reveal_strlit("cornsilk");
        reveal_strlit("crimson");
    } else if i == 19 {
        reveal_strlit("crimson");
        reveal_strlit("cyan");
    } else if i == 20 {
        reveal_strlit("cyan");
        reveal_strlit("darkblue");
    } else if i == 21 {
        reveal_strlit("darkblue");
        reveal_strlit("darkcyan");
    } else if i == 22 {
        reveal_strlit("darkcyan");
        reveal_strlit("darkgoldenrod");
    } else if i == 23 {
        reveal_strlit("darkgoldenrod");
        reveal_strlit("darkgray");
    } else if i == 24 {
        reveal_strlit("darkgray");
        reveal_strlit("darkgreen");
    } else if i == 25 {
        reveal_strlit("darkgreen");
        reveal_strlit("darkgrey");
    } else if i == 26 {
        reveal_strlit("darkgrey");
        reveal_strlit("darkkhaki");
    } else if i == 27 {
        reveal_strlit("darkkhaki");
        reveal_strlit("darkmagenta");
    } else if i == 28 {
        reveal_strlit("darkmagenta");
        reveal_strlit("darkolivegreen");
    } else if i == 29 {
        reveal_strlit("darkolivegreen");
        reveal_strlit("darkorange");
    } else if i == 30 {
        reveal_strlit("darkorange");
        reveal_strlit("darkorchid");
    } else if i == 31 {
        reveal_strlit("darkorchid");
        reveal_strlit("darkred");
    } else if i == 32 {
        reveal_strlit("darkred");
        reveal_strlit("darksalmon");
    } else if i == 33 {
        reveal_strlit("darksalmon");
        reveal_strlit("darkseagreen");
    } else if i == 34 {
        reveal_strlit("darkseagreen");
        reveal_strlit("darkslateblue");
    } else if i == 35 {
        reveal_strlit("darkslateblue");
        reveal_strlit("darkslategray");
    } else if i == 36 {
        reveal_strlit("darkslategray");
        reveal_strlit("darkslategrey");
    }
}

/// Entries 37 to 73 of the table each come before the next.
proof fn lemma_table_ascends_37_73(i: usize)
    requires
        37 <= i <= 73,
    ensures
        lex_less(css_entry(i).0, css_entry((i + 1) as usize).0),
{
    reveal_with_fuel(lex_less, 14);
    if i == 37 {
        reveal_strlit("darkslategrey");
        reveal_strlit("darkturquoise");
    } else if i == 38 {
        reveal_strlit("darkturquoise");
        reveal_strlit("darkviolet");
    } else if i == 39 {
        reveal_strlit("darkviolet");
        reveal_strlit("deeppink");
    } else if i == 40 {
        reveal_strlit("deeppink");
        reveal_strlit("deepskyblue");
    } else if i == 41 {
        reveal_strlit("deepskyblue");
        reveal_strlit("dimgray");
    } else if i == 42 {
        reveal_strlit("dimgray");
        reveal_strlit("dimgrey");
    } else if i == 43 {
        reveal_strlit("dimgrey");
        reveal_strlit("dodgerblue");
    } else if i == 44 {
        reveal_strlit("dodgerblue");
        reveal_strlit("firebrick");
    } else if i == 45 {
        reveal_strlit("firebrick");
        reveal_strlit("floralwhite");
    } else if i == 46 {
        reveal_strlit("floralwhite");
        reveal_strlit("forestgreen");
    } else if i == 47 {
        reveal_strlit("forestgreen");
        reveal_strlit("fuchsia");
    } else if i == 48 {
        reveal_strlit("fuchsia");
        reveal_strlit("gainsboro");
    } else if i == 49 {
        reveal_strlit("gainsboro");
        reveal_strlit("ghostwhite");
    } else if i == 50 {
        reveal_strlit("ghostwhite");
        reveal_strlit("gold");
    } else if i == 51 {
        reveal_strlit("gold");
        reveal_strlit("goldenrod");
    } else if i == 52 {
        reveal_strlit("goldenrod");
        reveal_strlit("gray");
    } else if i == 53 {
        reveal_strlit("gray");
        reveal_strlit("green");
    } else if i == 54 {
        reveal_strlit("green");
        reveal_strlit("greenyellow");
    } else if i == 55 {
        reveal_strlit("greenyellow");
        reveal_strlit("grey");
    } else if i == 56 {
        reveal_strlit("grey");
        reveal_strlit("honeydew");
    } else if i == 57 {
        reveal_strlit("honeydew");
        reveal_strlit("hotpink");
    } else if i == 58 {
        reveal_strlit("hotpink");
        reveal_strlit("indianred");
    } else if i == 59 {
        reveal_strlit("indianred");
        reveal_strlit("indigo");
    } else if i == 60 {
        reveal_strlit("indigo");
        reveal_strlit("ivory");
    } else if i == 61 {
        reveal_strlit("ivory");
        reveal_strlit("khaki");
    } else if i == 62 {
        reveal_strlit("khaki");
        reveal_strlit("lavender");
    } else if i == 63 {
        reveal_strlit("lavender");
        reveal_strlit("lavenderblush");
    } else if i == 64 {
        reveal_strlit("lavenderblush");
        reveal_strlit("lawngreen");
    } else if i == 65 {
        reveal_strlit("lawngreen");
        reveal_strlit("lemonchiffon");
    } else if i == 66 {
        reveal_strlit("lemonchiffon");
        reveal_strlit("lightblue");
    } else if i == 67 {
        reveal_strlit("lightblue");
        reveal_strlit("lightcoral");
    } else if i == 68 {
        reveal_strlit("lightcoral");
        reveal_strlit("lightcyan");
    } else if i == 69 {
        reveal_strlit("lightcyan");
        reveal_strlit("lightgoldenrodyellow");
    } else if i == 70 {
        reveal_strlit("lightgoldenrodyellow");
        reveal_strlit("lightgray");
    } else if i == 71 {
        reveal_strlit("lightgray");
        reveal_strlit("lightgreen");
    } else if i == 72 {
        reveal_strlit("lightgreen");
        reveal_strlit("lightgrey");
    } else if i == 73 {
        reveal_strlit("lightgrey");
        reveal_strlit("lightpink");
    }
}

/// Entries 74 to 110 of the table each come before the next.
proof fn lemma_table_ascends_74_110(i: usize)
    requires
        74 <= i <= 110,
    ensures
        lex_less(css_entry(i).0, css_entry((i + 1) as usize).0),
{
    reveal_with_fuel(lex_less, 14);
    if i == 74 {
        reveal_strlit("lightpink");
        reveal_strlit("lightsalmon");
    } else if i == 75 {
        reveal_strlit("lightsalmon");
        reveal_strlit("lightseagreen");
    } else if i == 76 {
        reveal_strlit("lightseagreen");
        reveal_strlit("lightskyblue");
    } else if i == 77 {
        reveal_strlit("lightskyblue");
        reveal_strlit("lightslategray");
    } else if i == 78 {
        reveal_strlit("lightslategray");
        reveal_strlit("lightslategrey");
    } else if i == 79 {
        reveal_strlit("lightslategrey");
        reveal_strlit("lightsteelblue");
    } else if i == 80 {
        reveal_strlit("lightsteelblue");
        reveal_strlit("lightyellow");
    } else if i == 81 {
        reveal_strlit("lightyellow");
        reveal_strlit("lime");
    } else if i == 82 {
        reveal_strlit("lime");
        reveal_strlit("limegreen");
    } else if i == 83 {
        reveal_strlit("limegreen");
        reveal_strlit("linen");
    } else if i == 84 {
        reveal_strlit("linen");
        reveal_strlit("magenta");
    } else if i == 85 {
        reveal_strlit("magenta");
        reveal_strlit("maroon");
    } else if i == 86 {
        reveal_strlit("maroon");
        reveal_strlit("mediumaquamarine");
    } else if i == 87 {
        reveal_strlit("mediumaquamarine");
        reveal_strlit("mediumblue");
    } else if i == 88 {
        reveal_strlit("mediumblue");
        reveal_strlit("mediumorchid");
    } else if i == 89 {
        reveal_strlit("mediumorchid");
        reveal_strlit("mediumpurple");
    } else if i == 90 {
        reveal_strlit("mediumpurple");
        reveal_strlit("mediumseagreen");
    } else if i == 91 {
        reveal_strlit("mediumseagreen");
        reveal_strlit("mediumslateblue");
    } else if i == 92 {
        reveal_strlit("mediumslateblue");
        reveal_strlit("mediumspringgreen");
    } else if i == 93 {
        reveal_strlit("mediumspringgreen");
        reveal_strlit("mediumturquoise");
    } else if i == 94 {
        reveal_strlit("mediumturquoise");
        reveal_strlit("mediumvioletred");
    } else if i == 95 {
        reveal_strlit("mediumvioletred");
        reveal_strlit("midnightblue");
    } else if i == 96 {
        reveal_strlit("midnightblue");
        reveal_strlit("mintcream");
    } else if i == 97 {
        reveal_strlit("mintcream");
        reveal_strlit("mistyrose");
    } else if i == 98 {
        reveal_strlit("mistyrose");
        reveal_strlit("moccasin");
    } else if i == 99 {
        reveal_strlit("moccasin");
        reveal_strlit("navajowhite");
    } else if i == 100 {
        reveal_strlit("navajowhite");
        reveal_strlit("navy");
    } else if i == 101 {
        reveal_strlit("navy");
        reveal_strlit("oldlace");
    } else if i == 102 {
        reveal_strlit("oldlace");
        reveal_strlit("olive");
    } else if i == 103 {
        reveal_strlit("olive");
        reveal_strlit("olivedrab");
    } else if i == 104 {
        reveal_strlit("olivedrab");
        reveal_strlit("orange");
    } else if i == 105 {
        reveal_strlit("orange");
        reveal_strlit("orangered");
    } else if i == 106 {
        reveal_strlit("orangered");
        reveal_strlit("orchid");
    } else if i == 107 {
        reveal_strlit("orchid");
        reveal_strlit("palegoldenrod");
    } else if i == 108 {
        reveal_strlit("palegoldenrod");
        reveal_strlit("palegreen");
    } else if i == 109 {
        reveal_strlit("palegreen");
        reveal_strlit("paleturquoise");
    } else if i == 110 {
        reveal_strlit("paleturquoise");
        reveal_strlit("palevioletred");
    }
}

/// Entries 111 to 146 of the table each come before the next.
proof fn lemma_table_ascends_111_146(i: usize)
    requires
        111 <= i <= 146,
    ensures
        lex_less(css_entry(i).0, css_entry((i + 1) as usize).0),
{
    reveal_with_fuel(lex_less, 14);
    if i == 111 {
        reveal_strlit("palevioletred");
        reveal_strlit("papayawhip");
    } else if i == 112 {
        reveal_strlit("papayawhip");
        reveal_strlit("peachpuff");
    } else if i == 113 {
        reveal_strlit("peachpuff");
        reveal_strlit("peru");
    } else if i == 114 {
        reveal_strlit("peru");
        reveal_strlit("pink");
    } else if i == 115 {
        reveal_strlit("pink");
        reveal_strlit("plum");
    } else if i == 116 {
        reveal_strlit("plum");
        reveal_strlit("powderblue");
    } else if i == 117 {
        reveal_strlit("powderblue");
        reveal_strlit("purple");
    } else if i == 118 {
        reveal_strlit("purple");
        reveal_strlit("rebeccapurple");
    } else if i == 119 {
        reveal_strlit("rebeccapurple");
        reveal_strlit("red");
    } else if i == 120 {
        reveal_strlit("red");
        reveal_strlit("rosybrown");
    } else if i == 121 {
        reveal_strlit("rosybrown");
        reveal_strlit("royalblue");
    } else if i == 122 {
        reveal_strlit("royalblue");
        reveal_strlit("saddlebrown");
    } else if i == 123 {
        reveal_strlit("saddlebrown");
        reveal_strlit("salmon");
    } else if i == 124 {
        reveal_strlit("salmon");
        reveal_strlit("sandybrown");
    } else if i == 125 {
        reveal_strlit("sandybrown");
        reveal_strlit("seagreen");
    } else if i == 126 {
        reveal_strlit("seagreen");
        reveal_strlit("seashell");
    } else if i == 127 {
        reveal_strlit("seashell");
        reveal_strlit("sienna");
    } else if i == 128 {
        reveal_strlit("sienna");
        reveal_strlit("silver");
    } else if i == 129 {
        reveal_strlit("silver");
        reveal_strlit("skyblue");
    } else if i == 130 {
        reveal_strlit("skyblue");
        reveal_strlit("slateblue");
    } else if i == 131 {
        reveal_strlit("slateblue");
        reveal_strlit("slategray");
    } else if i == 132 {
        reveal_strlit("slategray");
        reveal_strlit("slategrey");
    } else if i == 133 {
        reveal_strlit("slategrey");
        reveal_strlit("snow");
    } else if i == 134 {
        reveal_strlit("snow");
        reveal_strlit("springgreen");
    } else if i == 135 {
        reveal_strlit("springgreen");
        reveal_strlit("steelblue");
    } else if i == 136 {
        reveal_strlit("steelblue");
        reveal_strlit("tan");
    } else if i == 137 {
        reveal_strlit("tan");
        reveal_strlit("teal");
    } else if i == 138 {
        reveal_strlit("teal");
        reveal_strlit("thistle");
    } else if i == 139 {
        reveal_strlit("thistle");
        reveal_strlit("tomato");
    } else if i == 140 {
        reveal_strlit("tomato");
        reveal_strlit("turquoise");
    } else if i == 141 {
        reveal_strlit("turquoise");
        reveal_strlit("violet");
    } else if i == 142 {
        reveal_strlit("violet");
        reveal_strlit("wheat");
    } else if i == 143 {
        reveal_strlit("wheat");
        reveal_strlit("white");
    } else if i == 144 {
        reveal_strlit("white");
        reveal_strlit("whitesmoke");
    } else if i == 145 {
        reveal_strlit("whitesmoke");
        reveal_strlit("yellow");
    } else if i == 146 {
        reveal_strlit("yellow");
        reveal_strlit("yellowgreen");
    }
}

/// Each entry of the table comes before the next.
proof fn lemma_table_ascends(i: usize)
    requires
        i + 1 < CSS_COLOR_COUNT,
    ensures
        lex_less(css_entry(i).0, css_entry((i + 1) as usize).0),
{
    if i <= 36 {
        lemma_table_ascends_0_36(i);
    } else if i <= 73 {
        lemma_table_ascends_37_73(i);
    } else if i <= 110 {
        lemma_table_ascends_74_110(i);
    } else if i <= 146 {
        lemma_table_ascends_111_146(i);
    }
}

/// The names of the table are in strictly increasing dictionary order.
pub proof fn lemma_table_sorted(i: usize, j: usize)
    requires
        i < j < CSS_COLOR_COUNT,
    ensures
        lex_less(css_entry(i).0, css_entry(j).0),
    decreases j - i,
{
    lemma_table_ascends((j - 1) as usize);
    if i + 1 < j {
        lemma_table_sorted(i, (j - 1) as usize);
        lemma_lex_transitive(css_entry(i).0, css_entry((j - 1) as usize).0, css_entry(j).0);
    }
}

/// Looking up the name of any entry of the table finds that entry's color.
pub proof fn lemma_lookup_own_entry(k: usize)
    requires
        k < CSS_COLOR_COUNT,
    ensures
        css_lookup(css_entry(k).0) == Some(css_entry(k).1),
{
    let name = css_entry(k).0;
    lemma_lookup_finds_table_names(name);
    assert(css_entry(k as nat as usize).0 == name);
    let c = css_lookup(name).unwrap();
    let j = choose|j: nat| j < CSS_COLOR_COUNT && (#[trigger] css_entry(j as usize)) == (name, c);
    let jj = j as usize;
    if jj < k {
        lemma_table_sorted(jj, k);
        lemma_lex_irreflexive(name);
    } else if k < jj {
        lemma_table_sorted(k, jj);
        lemma_lex_irreflexive(name);
    }
}

/// The CSS named colors from `aliceblue` to `cornsilk` and their
/// RGB values.
#[verifier::rlimit(50)]
proof fn lemma_css_colors_aliceblue_to_cornsilk()
    ensures
        css_lookup("aliceblue"@) == Some((240u8, 248u8, 255u8)),
        css_lookup("antiquewhite"@) == Some((250u8, 235u8, 215u8)),
        css_lookup("aqua"@) == Some((0u8, 255u8, 255u8)),
        css_lookup("aquamarine"@) == Some((127u8, 255u8, 212u8)),
        css_lookup("azure"@) == Some((240u8, 255u8, 255u8)),
        css_lookup("beige"@) == Some((245u8, 245u8, 220u8)),
        css_lookup("bisque"@) == Some((255u8, 228u8, 196u8)),
        css_lookup("black"@) == Some((0u8, 0u8, 0u8)),
        css_lookup("blanchedalmond"@) == Some((255u8, 235u8, 205u8)),
        css_lookup("blue"@) == Some((0u8, 0u8, 255u8)),
        css_lookup("blueviolet"@) == Some((138u8, 43u8, 226u8)),
        css_lookup("brown"@) == Some((165u8, 42u8, 42u8)),
        css_lookup("burlywood"@) == Some((222u8, 184u8, 135u8)),
        css_lookup("cadetblue"@) == Some((95u8, 158u8, 160u8)),
        css_lookup("chartreuse"@) == Some((127u8, 255u8, 0u8)),
        css_lookup("chocolate"@) == Some((210u8, 105u8, 30u8)),
        css_lookup("coral"@) == Some((255u8, 127u8, 80u8)),
        css_lookup("cornflowerblue"@) == Some((100u8, 149u8, 237u8)),
        css_lookup("cornsilk"@) == Some((255u8, 248u8, 220u8)),
{
    lemma_lookup_own_entry(0);
    lemma_lookup_own_entry(1);
    lemma_lookup_own_entry(2);
    lemma_lookup_own_entry(3);
    lemma_lookup_own_entry(4);
    lemma_lookup_own_entry(5);
    lemma_lookup_own_entry(6);
    lemma_lookup_own_entry(7);
    lemma_lookup_own_entry(8);
    lemma_lookup_own_entry(9);
    lemma_lookup_own_entry(10);
    lemma_lookup_own_entry(11);
    lemma_lookup_own_entry(12);
    lemma_lookup_own_entry(13);
    lemma_lookup_own_entry(14);
    lemma_lookup_own_entry(15);
    lemma_lookup_own_entry(16);
    lemma_lookup_own_entry(17);
    lemma_lookup_own_entry(18);
}

/// The CSS named colors from `crimson` to `darkslategrey` and their
/// RGB values.
#[verifier::rlimit(50)]
proof fn lemma_css_colors_crimson_to_darkslategrey()
    ensures
        css_lookup("crimson"@) == Some((220u8, 20u8, 60u8)),
        css_lookup("cyan"@) == Some((0u8, 255u8, 255u8)),
        css_lookup("darkblue"@) == Some((0u8, 0u8, 139u8)),
        css_lookup("darkcyan"@) == Some((0u8, 139u8, 139u8)),
        css_lookup("darkgoldenrod"@) == Some((184u8, 134u8, 11u8)),
        css_lookup("darkgray"@) == Some((169u8, 169u8, 169u8)),
        css_lookup("darkgreen"@) == Some((0u8, 100u8, 0u8)),
        css_lookup("darkgrey"@) == Some((169u8, 169u8, 169u8)),
        css_lookup("darkkhaki"@) == Some((189u8, 183u8, 107u8)),
        css_lookup("darkmagenta"@) == Some((139u8, 0u8, 139u8)),
        css_lookup("darkolivegreen"@) == Some((85u8, 107u8, 47u8)),
        css_lookup("darkorange"@) == Some((255u8, 140u8, 0u8)),
        css_lookup("darkorchid"@) == Some((153u8, 50u8, 204u8)),
        css_lookup("darkred"@) == Some((139u8, 0u8, 0u8)),
        css_lookup("darksalmon"@) == Some((233u8, 150u8, 122u8)),
        css_lookup("darkseagreen"@) == Some((143u8, 188u8, 143u8)),
        css_lookup("darkslateblue"@) == Some((72u8, 61u8, 139u8)),
        css_lookup("darkslategray"@) == Some((47u8, 79u8, 79u8)),
        css_lookup("darkslategrey"@) == Some((47u8, 79u8, 79u8)),
{
    lemma_lookup_own_entry(19);
    lemma_lookup_own_entry(20);
    lemma_lookup_own_entry(21);
    lemma_lookup_own_entry(22);
    lemma_lookup_own_entry(23);
    lemma_lookup_own_entry(24);
    lemma_lookup_own_entry(25);
    lemma_lookup_own_entry(26);
    lemma_lookup_own_entry(27);
    lemma_lookup_own_entry(28);
    lemma_lookup_own_entry(29);
    lemma_lookup_own_entry(30);
    lemma_lookup_own_entry(31);
    lemma_lookup_own_entry(32);
    lemma_lookup_own_entry(33);
    lemma_lookup_own_entry(34);
    lemma_lookup_own_entry(35);
    lemma_lookup_own_entry(36);
    lemma_lookup_own_entry(37);
}

/// The CSS named colors from `darkturquoise` to `grey` and their
/// RGB values.
#[verifier::rlimit(50)]
proof fn lemma_css_colors_darkturquoise_to_grey()
    ensures
        css_lookup("darkturquoise"@) == Some((0u8, 206u8, 209u8)),
        css_lookup("darkviolet"@) == Some((148u8, 0u8, 211u8)),
        css_lookup("deeppink"@) == Some((255u8, 20u8, 147u8)),
        css_lookup("deepskyblue"@) == Some((0u8, 191u8, 255u8)),
        css_lookup("dimgray"@) == Some((105u8, 105u8, 105u8)),
        css_lookup("dimgrey"@) == Some((105u8, 105u8, 105u8)),
        css_lookup("dodgerblue"@) == Some((30u8, 144u8, 255u8)),
        css_lookup("firebrick"@) == Some((178u8, 34u8, 34u8)),
        css_lookup("floralwhite"@) == Some((255u8, 250u8, 240u8)),
        css_lookup("forestgreen"@) == Some((34u8, 139u8, 34u8)),
        css_lookup("fuchsia"@) == Some((255u8, 0u8, 255u8)),
        css_lookup("gainsboro"@) == Some((220u8, 220u8, 220u8)),
        css_lookup("ghostwhite"@) == Some((248u8, 248u8, 255u8)),
        css_lookup("gold"@) == Some((255u8, 215u8, 0u8)),
        css_lookup("goldenrod"@) == Some((218u8, 165u8, 32u8)),
        css_lookup("gray"@) == Some((128u8, 128u8, 128u8)),
        css_lookup("green"@) == Some((0u8, 128u8, 0u8)),
        css_lookup("greenyellow"@) == Some((173u8, 255u8, 47u8)),
        css_lookup("grey"@) == Some((128u8, 128u8, 128u8)),
{
    lemma_lookup_own_entry(38);
    lemma_lookup_own_entry(39);
    lemma_lookup_own_entry(40);
    lemma_lookup_own_entry(41);
    lemma_lookup_own_entry(42);
    lemma_lookup_own_entry(43);
    lemma_lookup_own_entry(44);
    lemma_lookup_own_entry(45);
    lemma_lookup_own_entry(46);
    lemma_lookup_own_entry(47);
    lemma_lookup_own_entry(48);
    lemma_lookup_own_entry(49);
    lemma_lookup_own_entry(50);
    lemma_lookup_own_entry(51);
    lemma_lookup_own_entry(52);
    lemma_lookup_own_entry(53);
    lemma_lookup_own_entry(54);
    lemma_lookup_own_entry(55);
    lemma_lookup_own_entry(56);
}

/// The CSS named colors from `honeydew` to `lightsalmon` and their
/// RGB values.
#[verifier::rlimit(50)]
proof fn lemma_css_colors_honeydew_to_lightsalmon()
    ensures
        css_lookup("honeydew"@) == Some((240u8, 255u8, 240u8)),
        css_lookup("hotpink"@) == Some((255u8, 105u8, 180u8)),
        css_lookup("indianred"@) == Some((205u8, 92u8, 92u8)),
        css_lookup("indigo"@) == Some((75u8, 0u8, 130u8)),
        css_lookup("ivory"@) == Some((255u8, 255u8, 240u8)),
        css_lookup("khaki"@) == Some((240u8, 230u8, 140u8)),
        css_lookup("lavender"@) == Some((230u8, 230u8, 250u8)),
        css_lookup("lavenderblush"@) == Some((255u8, 240u8, 245u8)),
        css_lookup("lawngreen"@) == Some((124u8, 252u8, 0u8)),
        css_lookup("lemonchiffon"@) == Some((255u8, 250u8, 205u8)),
        css_lookup("lightblue"@) == Some((173u8, 216u8, 230u8)),
        css_lookup("lightcoral"@) == Some((240u8, 128u8, 128u8)),
        css_lookup("lightcyan"@) == Some((224u8, 255u8, 255u8)),
        css_lookup("lightgoldenrodyellow"@) == Some((250u8, 250u8, 210u8)),
        css_lookup("lightgray"@) == Some((211u8, 211u8, 211u8)),
        css_lookup("lightgreen"@) == Some((144u8, 238u8, 144u8)),
        css_lookup("lightgrey"@) == Some((211u8, 211u8, 211u8)),
        css_lookup("lightpink"@) == Some((255u8, 182u8, 193u8)),
        css_lookup("lightsalmon"@) == Some((255u8, 160u8, 122u8)),
{
    lemma_lookup_own_entry(57);
    lemma_lookup_own_entry(58);
    lemma_lookup_own_entry(59);
    lemma_lookup_own_entry(60);
    lemma_lookup_own_entry(61);
    lemma_lookup_own_entry(62);
    lemma_lookup_own_entry(63);
    lemma_lookup_own_entry(64);
    lemma_lookup_own_entry(65);
    lemma_lookup_own_entry(66);
    lemma_lookup_own_entry(67);
    lemma_lookup_own_entry(68);
    lemma_lookup_own_entry(69);
    lemma_lookup_own_entry(70);
    lemma_lookup_own_entry(71);
    lemma_lookup_own_entry(72);
    lemma_lookup_own_entry(73);
    lemma_lookup_own_entry(74);
    lemma_lookup_own_entry(75);
}

/// The CSS named colors from `lightseagreen` to `mediumturquoise` and their
/// RGB values.
#[verifier::rlimit(50)]
proof fn lemma_css_colors_lightseagreen_to_mediumturquoise()
    ensures
        css_lookup("lightseagreen"@) == Some((32u8, 178u8, 170u8)),
        css_lookup("lightskyblue"@) == Some((135u8, 206u8, 250u8)),
        css_lookup("lightslategray"@) == Some((119u8, 136u8, 153u8)),
        css_lookup("lightslategrey"@) == Some((119u8, 136u8, 153u8)),
        css_lookup("lightsteelblue"@) == Some((176u8, 196u8, 222u8)),
        css_lookup("lightyellow"@) == Some((255u8, 255u8, 224u8)),
        css_lookup("lime"@) == Some((0u8, 255u8, 0u8)),
        css_lookup("limegreen"@) == Some((50u8, 205u8, 50u8)),
        css_lookup("linen"@) == Some((250u8, 240u8, 230u8)),
        css_lookup("magenta"@) == Some((255u8, 0u8, 255u8)),
        css_lookup("maroon"@) == Some((128u8, 0u8, 0u8)),
        css_lookup("mediumaquamarine"@) == Some((102u8, 205u8, 170u8)),
        css_lookup("mediumblue"@) == Some((0u8, 0u8, 205u8)),
        css_lookup("mediumorchid"@) == Some((186u8, 85u8, 211u8)),
        css_lookup("mediumpurple"@) == Some((147u8, 112u8, 219u8)),
        css_lookup("mediumseagreen"@) == Some((60u8, 179u8, 113u8)),
        css_lookup("mediumslateblue"@) == Some((123u8, 104u8, 238u8)),
        css_lookup("mediumspringgreen"@) == Some((0u8, 250u8, 154u8)),
        css_lookup("mediumturquoise"@) == Some((72u8, 209u8, 204u8)),
{
    lemma_lookup_own_entry(76);
    lemma_lookup_own_entry(77);
    lemma_lookup_own_entry(78);
    lemma_lookup_own_entry(79);
    lemma_lookup_own_entry(80);
    lemma_lookup_own_entry(81);
    lemma_lookup_own_entry(82);
    lemma_lookup_own_entry(83);
    lemma_lookup_own_entry(84);
    lemma_lookup_own_entry(85);
    lemma_lookup_own_entry(86);
    lemma_lookup_own_entry(87);
    lemma_lookup_own_entry(88);
    lemma_lookup_own_entry(89);
    lemma_lookup_own_entry(90);
    lemma_lookup_own_entry(91);
    lemma_lookup_own_entry(92);
    lemma_lookup_own_entry(93);
    lemma_lookup_own_entry(94);
}

/// The CSS named colors from `mediumvioletred` to `peachpuff` and their
/// RGB values.
#[verifier::rlimit(50)]
proof fn lemma_css_colors_mediumvioletred_to_peachpuff()
    ensures
        css_lookup("mediumvioletred"@) == Some((199u8, 21u8, 133u8)),
        css_lookup("midnightblue"@) == Some((25u8, 25u8, 112u8)),
        css_lookup("mintcream"@) == Some((245u8, 255u8, 250u8)),
        css_lookup("mistyrose"@) == Some((255u8, 228u8, 225u8)),
        css_lookup("moccasin"@) == Some((255u8, 228u8, 181u8)),
        css_lookup("navajowhite"@) == Some((255u8, 222u8, 173u8)),
        css_lookup("navy"@) == Some((0u8, 0u8, 128u8)),
        css_lookup("oldlace"@) == Some((253u8, 245u8, 230u8)),
        css_lookup("olive"@) == Some((128u8, 128u8, 0u8)),
        css_lookup("olivedrab"@) == Some((107u8, 142u8, 35u8)),
        css_lookup("orange"@) == Some((255u8, 165u8, 0u8)),
        css_lookup("orangered"@) == Some((255u8, 69u8, 0u8)),
        css_lookup("orchid"@) == Some((218u8, 112u8, 214u8)),
        css_lookup("palegoldenrod"@) == Some((238u8, 232u8, 170u8)),
        css_lookup("palegreen"@) == Some((152u8, 251u8, 152u8)),
        css_lookup("paleturquoise"@) == Some((175u8, 238u8, 238u8)),
        css_lookup("palevioletred"@) == Some((219u8, 112u8, 147u8)),
        css_lookup("papayawhip"@) == Some((255u8, 239u8, 213u8)),
        css_lookup("peachpuff"@) == Some((255u8, 218u8, 185u8)),
{
    lemma_lookup_own_entry(95);
    lemma_lookup_own_entry(96);
    lemma_lookup_own_entry(97);
    lemma_lookup_own_entry(98);
    lemma_lookup_own_entry(99);
    lemma_lookup_own_entry(100);
    lemma_lookup_own_entry(101);
    lemma_lookup_own_entry(102);
    lemma_lookup_own_entry(103);
    lemma_lookup_own_entry(104);
    lemma_lookup_own_entry(105);
    lemma_lookup_own_entry(106);
    lemma_lookup_own_entry(107);
    lemma_lookup_own_entry(108);
    lemma_lookup_own_entry(109);
    lemma_lookup_own_entry(110);
    lemma_lookup_own_entry(111);
    lemma_lookup_own_entry(112);
    lemma_lookup_own_entry(113);
}

/// The CSS named colors from `peru` to `slategray` and their
/// RGB values.
#[verifier::rlimit(50)]
proof fn lemma_css_colors_peru_to_slategray()
    ensures
        css_lookup("peru"@) == Some((205u8, 133u8, 63u8)),
        css_lookup("pink"@) == Some((255u8, 192u8, 203u8)),
        css_lookup("plum"@) == Some((221u8, 160u8, 221u8)),
        css_lookup("powderblue"@) == Some((176u8, 224u8, 230u8)),
        css_lookup("purple"@) == Some((128u8, 0u8, 128u8)),
        css_lookup("rebeccapurple"@) == Some((102u8, 51u8, 153u8)),
        css_lookup("red"@) == Some((255u8, 0u8, 0u8)),
        css_lookup("rosybrown"@) == Some((188u8, 143u8, 143u8)),
        css_lookup("royalblue"@) == Some((65u8, 105u8, 225u8)),
        css_lookup("saddlebrown"@) == Some((139u8, 69u8, 19u8)),
        css_lookup("salmon"@) == Some((250u8, 128u8, 114u8)),
        css_lookup("sandybrown"@) == Some((244u8, 164u8, 96u8)),
        css_lookup("seagreen"@) == Some((46u8, 139u8, 87u8)),
        css_lookup("seashell"@) == Some((255u8, 245u8, 238u8)),
        css_lookup("sienna"@) == Some((160u8, 82u8, 45u8)),
        css_lookup("silver"@) == Some((192u8, 192u8, 192u8)),
        css_lookup("skyblue"@) == Some((135u8, 206u8, 235u8)),
        css_lookup("slateblue"@) == Some((106u8, 90u8, 205u8)),
        css_lookup("slategray"@) == Some((112u8, 128u8, 144u8)),
{
    lemma_lookup_own_entry(114);
    lemma_lookup_own_entry(115);
    lemma_lookup_own_entry(116);
    lemma_lookup_own_entry(117);
    lemma_lookup_own_entry(118);
    lemma_lookup_own_entry(119);
    lemma_lookup_own_entry(120);
    lemma_lookup_own_entry(121);
    lemma_lookup_own_entry(122);
    lemma_lookup_own_entry(123);
    lemma_lookup_own_entry(124);
    lemma_lookup_own_entry(125);
    lemma_lookup_own_entry(126);
    lemma_lookup_own_entry(127);
    lemma_lookup_own_entry(128);
    lemma_lookup_own_entry(129);
    lemma_lookup_own_entry(130);
    lemma_lookup_own_entry(131);
    lemma_lookup_own_entry(132);
}

/// The CSS named colors from `slategrey` to `yellowgreen` and their
/// RGB values.
#[verifier::rlimit(50)]
proof fn lemma_css_colors_slategrey_to_yellowgreen()
    ensures
        css_lookup("slategrey"@) == Some((112u8, 128u8, 144u8)),
        css_lookup("snow"@) == Some((255u8, 250u8, 250u8)),
        css_lookup("springgreen"@) == Some((0u8, 255u8, 127u8)),
        css_lookup("steelblue"@) == Some((70u8, 130u8, 180u8)),
        css_lookup("tan"@) == Some((210u8, 180u8, 140u8)),
        css_lookup("teal"@) == Some((0u8, 128u8, 128u8)),
        css_lookup("thistle"@) == Some((216u8, 191u8, 216u8)),
        css_lookup("tomato"@) == Some((255u8, 99u8, 71u8)),
        css_lookup("turquoise"@) == Some((64u8, 224u8, 208u8)),
        css_lookup("violet"@) == Some((238u8, 130u8, 238u8)),
        css_lookup("wheat"@) == Some((245u8, 222u8, 179u8)),
        css_lookup("white"@) == Some((255u8, 255u8, 255u8)),
        css_lookup("whitesmoke"@) == Some((245u8, 245u8, 245u8)),
        css_lookup("yellow"@) == Some((255u8, 255u8, 0u8)),
        css_lookup("yellowgreen"@) == Some((154u8, 205u8, 50u8)),
{
    lemma_lookup_own_entry(133);
    lemma_lookup_own_entry(134);
    lemma_lookup_own_entry(135);
    lemma_lookup_own_entry(136);
    lemma_lookup_own_entry(137);
    lemma_lookup_own_entry(138);
    lemma_lookup_own_entry(139);
    lemma_lookup_own_entry(140);
    lemma_lookup_own_entry(141);
    lemma_lookup_own_entry(142);
    lemma_lookup_own_entry(143);
    lemma_lookup_own_entry(144);
    lemma_lookup_own_entry(145);
    lemma_lookup_own_entry(146);
    lemma_lookup_own_entry(147);
}

/// `Color::named` knows exactly the CSS named colors, each with its RGB value:
/// every one of the names below finds the color given beside it, and any
/// other name finds none (`lemma_lookup_finds_table_names`).
pub proof fn lemma_css_named_colors()
    ensures
        css_lookup("aliceblue"@) == Some((240u8, 248u8, 255u8)),
        css_lookup("antiquewhite"@) == Some((250u8, 235u8, 215u8)),
        css_lookup("aqua"@) == Some((0u8, 255u8, 255u8)),
        css_lookup("aquamarine"@) == Some((127u8, 255u8, 212u8)),
        css_lookup("azure"@) == Some((240u8, 255u8, 255u8)),
        css_lookup("beige"@) == Some((245u8, 245u8, 220u8)),
        css_lookup("bisque"@) == Some((255u8, 228u8, 196u8)),
        css_lookup("black"@) == Some((0u8, 0u8, 0u8)),
        css_lookup("blanchedalmond"@) == Some((255u8, 235u8, 205u8)),
        css_lookup("blue"@) == Some((0u8, 0u8, 255u8)),
        css_lookup("blueviolet"@) == Some((138u8, 43u8, 226u8)),
        css_lookup("brown"@) == Some((165u8, 42u8, 42u8)),
        css_lookup("burlywood"@) == Some((222u8, 184u8, 135u8)),
        css_lookup("cadetblue"@) == Some((95u8, 158u8, 160u8)),
        css_lookup("chartreuse"@) == Some((127u8, 255u8, 0u8)),
        css_lookup("chocolate"@) == Some((210u8, 105u8, 30u8)),
        css_lookup("coral"@) == Some((255u8, 127u8, 80u8)),
        css_lookup("cornflowerblue"@) == Some((100u8, 149u8, 237u8)),
        css_lookup("cornsilk"@) == Some((255u8, 248u8, 220u8)),
        css_lookup("crimson"@) == Some((220u8, 20u8, 60u8)),
        css_lookup("cyan"@) == Some((0u8, 255u8, 255u8)),
        css_lookup("darkblue"@) == Some((0u8, 0u8, 139u8)),
        css_lookup("darkcyan"@) == Some((0u8, 139u8, 139u8)),
        css_lookup("darkgoldenrod"@) == Some((184u8, 134u8, 11u8)),
        css_lookup("darkgray"@) == Some((169u8, 169u8, 169u8)),
        css_lookup("darkgreen"@) == Some((0u8, 100u8, 0u8)),
        css_lookup("darkgrey"@) == Some((169u8, 169u8, 169u8)),
        css_lookup("darkkhaki"@) == Some((189u8, 183u8, 107u8)),
        css_lookup("darkmagenta"@) == Some((139u8, 0u8, 139u8)),
        css_lookup("darkolivegreen"@) == Some((85u8, 107u8, 47u8)),
        css_lookup("darkorange"@) == Some((255u8, 140u8, 0u8)),
        css_lookup("darkorchid"@) == Some((153u8, 50u8, 204u8)),
        css_lookup("darkred"@) == Some((139u8, 0u8, 0u8)),
        css_lookup("darksalmon"@) == Some((233u8, 150u8, 122u8)),
        css_lookup("darkseagreen"@) == Some((143u8, 188u8, 143u8)),
        css_lookup("darkslateblue"@) == Some((72u8, 61u8, 139u8)),
        css_lookup("darkslategray"@) == Some((47u8, 79u8, 79u8)),
        css_lookup("darkslategrey"@) == Some((47u8, 79u8, 79u8)),
        css_lookup("darkturquoise"@) == Some((0u8, 206u8, 209u8)),
        css_lookup("darkviolet"@) == Some((148u8, 0u8, 211u8)),
        css_lookup("deeppink"@) == Some((255u8, 20u8, 147u8)),
        css_lookup("deepskyblue"@) == Some((0u8, 191u8, 255u8)),
        css_lookup("dimgray"@) == Some((105u8, 105u8, 105u8)),
        css_lookup("dimgrey"@) == Some((105u8, 105u8, 105u8)),
        css_lookup("dodgerblue"@) == Some((30u8, 144u8, 255u8)),
        css_lookup("firebrick"@) == Some((178u8, 34u8, 34u8)),
        css_lookup("floralwhite"@) == Some((255u8, 250u8, 240u8)),
        css_lookup("forestgreen"@) == Some((34u8, 139u8, 34u8)),
        css_lookup("fuchsia"@) == Some((255u8, 0u8, 255u8)),
        css_lookup("gainsboro"@) == Some((220u8, 220u8, 220u8)),
        css_lookup("ghostwhite"@) == Some((248u8, 248u8, 255u8)),
        css_lookup("gold"@) == Some((255u8, 215u8, 0u8)),
        css_lookup("goldenrod"@) == Some((218u8, 165u8, 32u8)),
        css_lookup("gray"@) == Some((128u8, 128u8, 128u8)),
        css_lookup("green"@) == Some((0u8, 128u8, 0u8)),
        css_lookup("greenyellow"@) == Some((173u8, 255u8, 47u8)),
        css_lookup("grey"@) == Some((128u8, 128u8, 128u8)),
        css_lookup("honeydew"@) == Some((240u8, 255u8, 240u8)),
        css_lookup("hotpink"@) == Some((255u8, 105u8, 180u8)),
        css_lookup("indianred"@) == Some((205u8, 92u8, 92u8)),
        css_lookup("indigo"@) == Some((75u8, 0u8, 130u8)),
        css_lookup("ivory"@) == Some((255u8, 255u8, 240u8)),
        css_lookup("khaki"@) == Some((240u8, 230u8, 140u8)),
        css_lookup("lavender"@) == Some((230u8, 230u8, 250u8)),
        css_lookup("lavenderblush"@) == Some((255u8, 240u8, 245u8)),
        css_lookup("lawngreen"@) == Some((124u8, 252u8, 0u8)),
        css_lookup("lemonchiffon"@) == Some((255u8, 250u8, 205u8)),
        css_lookup("lightblue"@) == Some((173u8, 216u8, 230u8)),
        css_lookup("lightcoral"@) == Some((240u8, 128u8, 128u8)),
        css_lookup("lightcyan"@) == Some((224u8, 255u8, 255u8)),
        css_lookup("lightgoldenrodyellow"@) == Some((250u8, 250u8, 210u8)),
        css_lookup("lightgray"@) == Some((211u8, 211u8, 211u8)),
        css_lookup("lightgreen"@) == Some((144u8, 238u8, 144u8)),
        css_lookup("lightgrey"@) == Some((211u8, 211u8, 211u8)),
        css_lookup("lightpink"@) == Some((255u8, 182u8, 193u8)),
        css_lookup("lightsalmon"@) == Some((255u8, 160u8, 122u8)),
        css_lookup("lightseagreen"@) == Some((32u8, 178u8, 170u8)),
        css_lookup("lightskyblue"@) == Some((135u8, 206u8, 250u8)),
        css_lookup("lightslategray"@) == Some((119u8, 136u8, 153u8)),
        css_lookup("lightslategrey"@) == Some((119u8, 136u8, 153u8)),
        css_lookup("lightsteelblue"@) == Some((176u8, 196u8, 222u8)),
        css_lookup("lightyellow"@) == Some((255u8, 255u8, 224u8)),
        css_lookup("lime"@) == Some((0u8, 255u8, 0u8)),
        css_lookup("limegreen"@) == Some((50u8, 205u8, 50u8)),
        css_lookup("linen"@) == Some((250u8, 240u8, 230u8)),
        css_lookup("magenta"@) == Some((255u8, 0u8, 255u8)),
        css_lookup("maroon"@) == Some((128u8, 0u8, 0u8)),
        css_lookup("mediumaquamarine"@) == Some((102u8, 205u8, 170u8)),
        css_lookup("mediumblue"@) == Some((0u8, 0u8, 205u8)),
        css_lookup("mediumorchid"@) == Some((186u8, 85u8, 211u8)),
        css_lookup("mediumpurple"@) == Some((147u8, 112u8, 219u8)),
        css_lookup("mediumseagreen"@) == Some((60u8, 179u8, 113u8)),
        css_lookup("mediumslateblue"@) == Some((123u8, 104u8, 238u8)),
        css_lookup("mediumspringgreen"@) == Some((0u8, 250u8, 154u8)),
        css_lookup("mediumturquoise"@) == Some((72u8, 209u8, 204u8)),
        css_lookup("mediumvioletred"@) == Some((199u8, 21u8, 133u8)),
        css_lookup("midnightblue"@) == Some((25u8, 25u8, 112u8)),
        css_lookup("mintcream"@) == Some((245u8, 255u8, 250u8)),
        css_lookup("mistyrose"@) == Some((255u8, 228u8, 225u8)),
        css_lookup("moccasin"@) == Some((255u8, 228u8, 181u8)),
        css_lookup("navajowhite"@) == Some((255u8, 222u8, 173u8)),
        css_lookup("navy"@) == Some((0u8, 0u8, 128u8)),
        css_lookup("oldlace"@) == Some((253u8, 245u8, 230u8)),
        css_lookup("olive"@) == Some((128u8, 128u8, 0u8)),
        css_lookup("olivedrab"@) == Some((107u8, 142u8, 35u8)),
        css_lookup("orange"@) == Some((255u8, 165u8, 0u8)),
        css_lookup("orangered"@) == Some((255u8, 69u8, 0u8)),
        css_lookup("orchid"@) == Some((218u8, 112u8, 214u8)),
        css_lookup("palegoldenrod"@) == Some((238u8, 232u8, 170u8)),
        css_lookup("palegreen"@) == Some((152u8, 251u8, 152u8)),
        css_lookup("paleturquoise"@) == Some((175u8, 238u8, 238u8)),
        css_lookup("palevioletred"@) == Some((219u8, 112u8, 147u8)),
        css_lookup("papayawhip"@) == Some((255u8, 239u8, 213u8)),
        css_lookup("peachpuff"@) == Some((255u8, 218u8, 185u8)),
        css_lookup("peru"@) == Some((205u8, 133u8, 63u8)),
        css_lookup("pink"@) == Some((255u8, 192u8, 203u8)),
        css_lookup("plum"@) == Some((221u8, 160u8, 221u8)),
        css_lookup("powderblue"@) == Some((176u8, 224u8, 230u8)),
        css_lookup("purple"@) == Some((128u8, 0u8, 128u8)),
        css_lookup("rebeccapurple"@) == Some((102u8, 51u8, 153u8)),
        css_lookup("red"@) == Some((255u8, 0u8, 0u8)),
        css_lookup("rosybrown"@) == Some((188u8, 143u8, 143u8)),
        css_lookup("royalblue"@) == Some((65u8, 105u8, 225u8)),
        css_lookup("saddlebrown"@) == Some((139u8, 69u8, 19u8)),
        css_lookup("salmon"@) == Some((250u8, 128u8, 114u8)),
        css_lookup("sandybrown"@) == Some((244u8, 164u8, 96u8)),
        css_lookup("seagreen"@) == Some((46u8, 139u8, 87u8)),
        css_lookup("seashell"@) == Some((255u8, 245u8, 238u8)),
        css_lookup("sienna"@) == Some((160u8, 82u8, 45u8)),
        css_lookup("silver"@) == Some((192u8, 192u8, 192u8)),
        css_lookup("skyblue"@) == Some((135u8, 206u8, 235u8)),
        css_lookup("slateblue"@) == Some((106u8, 90u8, 205u8)),
        css_lookup("slategray"@) == Some((112u8, 128u8, 144u8)),
        css_lookup("slategrey"@) == Some((112u8, 128u8, 144u8)),
        css_lookup("snow"@) == Some((255u8, 250u8, 250u8)),
        css_lookup("springgreen"@) == Some((0u8, 255u8, 127u8)),
        css_lookup("steelblue"@) == Some((70u8, 130u8, 180u8)),
        css_lookup("tan"@) == Some((210u8, 180u8, 140u8)),
        css_lookup("teal"@) == Some((0u8, 128u8, 128u8)),
        css_lookup("thistle"@) == Some((216u8, 191u8, 216u8)),
        css_lookup("tomato"@) == Some((255u8, 99u8, 71u8)),
        css_lookup("turquoise"@) == Some((64u8, 224u8, 208u8)),
        css_lookup("violet"@) == Some((238u8, 130u8, 238u8)),
        css_lookup("wheat"@) == Some((245u8, 222u8, 179u8)),
        css_lookup("white"@) == Some((255u8, 255u8, 255u8)),
        css_lookup("whitesmoke"@) == Some((245u8, 245u8, 245u8)),
        css_lookup("yellow"@) == Some((255u8, 255u8, 0u8)),
        css_lookup("yellowgreen"@) == Some((154u8, 205u8, 50u8)),
{
    lemma_css_colors_aliceblue_to_cornsilk();
    lemma_css_colors_crimson_to_darkslategrey();
    lemma_css_colors_darkturquoise_to_grey();
    lemma_css_colors_honeydew_to_lightsalmon();
    lemma_css_colors_lightseagreen_to_mediumturquoise();
    lemma_css_colors_mediumvioletred_to_peachpuff();
    lemma_css_colors_peru_to_slategray();
    lemma_css_colors_slategrey_to_yellowgreen();
}

} // verus!
