//! The property-name table: a static bidirectional mapping between the
//! identifier spelling of a CSS property (words joined by underscores, e.g.
//! `background_color`) and its canonical spelling (e.g. `background-color`),
//! together with the lookup used when a property key is resolved.

use vstd::prelude::*;

verus! {

// ---------------------------------------------------------------------------
// Lexicographic order on character sequences, used to state that the table
// is sorted by identifier, which is how its keys are known to be distinct.
// ---------------------------------------------------------------------------

/// Strict lexicographic order by character code.
pub open spec fn lex_lt(a: Seq<char>, b: Seq<char>) -> bool
    decreases a.len(),
{
    if b.len() == 0 {
        false
    } else if a.len() == 0 {
        true
    } else if a[0] != b[0] {
        a[0] < b[0]
    } else {
        lex_lt(a.skip(1), b.skip(1))
    }
}

/// Two sequences that agree up to `d` and then differ in `a`'s favour are
/// lexicographically ordered.
proof fn lemma_lex_from_diff(a: Seq<char>, b: Seq<char>, d: int)
    requires
        0 <= d <= a.len(),
        d <= b.len(),
        a.subrange(0, d) == b.subrange(0, d),
        (d == a.len() && d < b.len()) || (d < a.len() && d < b.len() && a[d] < b[d]),
    ensures
        lex_lt(a, b),
    decreases d,
{
    if d == 0 {
        if a.len() == 0 {
        } else {
            assert(a[0] < b[0]);
        }
    } else {
        assert(a.subrange(0, d)[0] == a[0]);
        assert(b.subrange(0, d)[0] == b[0]);
        assert(a[0] == b[0]);
        assert(a.skip(1).subrange(0, d - 1) =~= a.subrange(0, d).skip(1));
        assert(b.skip(1).subrange(0, d - 1) =~= b.subrange(0, d).skip(1));
        if d < a.len() {
            assert(a.skip(1)[d - 1] == a[d]);
            assert(b.skip(1)[d - 1] == b[d]);
        }
        lemma_lex_from_diff(a.skip(1), b.skip(1), d - 1);
    }
}

proof fn lemma_lex_irrefl(a: Seq<char>)
    ensures
        !lex_lt(a, a),
    decreases a.len(),
{
    if a.len() > 0 {
        lemma_lex_irrefl(a.skip(1));
    }
}

proof fn lemma_lex_trans(a: Seq<char>, b: Seq<char>, c: Seq<char>)
    requires
        lex_lt(a, b),
        lex_lt(b, c),
    ensures
        lex_lt(a, c),
    decreases a.len(),
{
    if a.len() == 0 {
    } else if b.len() == 0 {
    } else if c.len() == 0 {
    } else {
        if a[0] == b[0] && b[0] == c[0] {
            lemma_lex_trans(a.skip(1), b.skip(1), c.skip(1));
        }
    }
}

// ---------------------------------------------------------------------------
// Lookup over a sequence of (identifier, canonical) pairs.
// ---------------------------------------------------------------------------

/// The canonical name paired with the first entry whose identifier column
/// equals `key`, if any.
pub open spec fn spec_lookup_ident(t: Seq<(Seq<char>, Seq<char>)>, key: Seq<char>) -> Option<
    Seq<char>,
>
    decreases t.len(),
{
    if t.len() == 0 {
        None
    } else if t[0].0 == key {
        Some(t[0].1)
    } else {
        spec_lookup_ident(t.skip(1), key)
    }
}

/// Does `key` occur in the canonical-name column?
pub open spec fn spec_is_canonical(t: Seq<(Seq<char>, Seq<char>)>, key: Seq<char>) -> bool {
    exists|i: int| 0 <= i < t.len() && t[i].1 == key
}

/// Resolution of a property key against the table: the identifier column is
/// consulted first; failing that, a key that already is a canonical name is
/// kept; any other key resolves to nothing.
pub open spec fn spec_resolve(t: Seq<(Seq<char>, Seq<char>)>, key: Seq<char>) -> Option<Seq<char>> {
    match spec_lookup_ident(t, key) {
        Some(c) => Some(c),
        None => if spec_is_canonical(t, key) {
            Some(key)
        } else {
            None
        },
    }
}

/// Well-formedness of a property table: identifiers are pairwise distinct,
/// and an identifier that also occurs in the canonical column belongs to an
/// entry mapping it to itself.
pub open spec fn table_wf(t: Seq<(Seq<char>, Seq<char>)>) -> bool {
    &&& forall|i: int, j: int| 0 <= i < j < t.len() ==> t[i].0 != t[j].0
    &&& forall|i: int, j: int|
        0 <= i < t.len() && 0 <= j < t.len() && t[i].0 == t[j].1 ==> t[i].1 == t[j].1
}

proof fn lemma_lookup_first(t: Seq<(Seq<char>, Seq<char>)>, key: Seq<char>)
    ensures
        spec_lookup_ident(t, key) is None ==> forall|i: int|
            0 <= i < t.len() ==> t[i].0 != key,
        spec_lookup_ident(t, key) matches Some(c) ==> exists|i: int|
            0 <= i < t.len() && t[i].0 == key && c == t[i].1,
    decreases t.len(),
{
    if t.len() == 0 {
    } else if t[0].0 == key {
    } else {
        lemma_lookup_first(t.skip(1), key);
        if spec_lookup_ident(t, key) is None {
            assert forall|i: int| 0 <= i < t.len() implies t[i].0 != key by {
                if i > 0 {
                    assert(t.skip(1)[i - 1] == t[i]);
                }
            }
        } else {
            let c = spec_lookup_ident(t.skip(1), key)->Some_0;
            let i = choose|i: int|
                0 <= i < t.skip(1).len() && t.skip(1)[i].0 == key && c == t.skip(1)[i].1;
            assert(t.skip(1)[i] == t[i + 1]);
        }
    }
}

/// Both directions of the round trip, for any well-formed table: resolving
/// an entry's identifier yields its canonical name, and resolving an entry's
/// canonical name leaves it unchanged.
pub proof fn lemma_resolve_round_trip(t: Seq<(Seq<char>, Seq<char>)>, j: int)
    requires
        table_wf(t),
        0 <= j < t.len(),
    ensures
        spec_resolve(t, t[j].0) == Some(t[j].1),
        spec_resolve(t, t[j].1) == Some(t[j].1),
{
    lemma_lookup_first(t, t[j].0);
    if spec_lookup_ident(t, t[j].0) is None {
        assert(t[j].0 != t[j].0);
    } else {
        let c = spec_lookup_ident(t, t[j].0)->Some_0;
        let i = choose|i: int| 0 <= i < t.len() && t[i].0 == t[j].0 && c == t[i].1;
        if i < j {
            assert(t[i].0 != t[j].0);
        } else if j < i {
            assert(t[j].0 != t[i].0);
        }
        assert(i == j);
    }
    lemma_lookup_first(t, t[j].1);
    if spec_lookup_ident(t, t[j].1) is None {
        assert(spec_is_canonical(t, t[j].1));
    } else {
        let c = spec_lookup_ident(t, t[j].1)->Some_0;
        let i = choose|i: int| 0 <= i < t.len() && t[i].0 == t[j].1 && c == t[i].1;
        assert(t[i].1 == t[j].1);
    }
}

// ---------------------------------------------------------------------------
// The table itself.
// ---------------------------------------------------------------------------

/// The entries of the property-name table, sorted by identifier.
pub open spec fn spec_table() -> Seq<(Seq<char>, Seq<char>)> {
    seq![
        ("align_content"@, "align-content"@),
        ("align_items"@, "align-items"@),
        ("align_self"@, "align-self"@),
        ("animation"@, "animation"@),
        ("animation_delay"@, "animation-delay"@),
        ("animation_duration"@, "animation-duration"@),
        ("background"@, "background"@),
        ("background_color"@, "background-color"@),
        ("border"@, "border"@),
        ("border_bottom"@, "border-bottom"@),
        ("border_color"@, "border-color"@),
        ("border_left"@, "border-left"@),
        ("border_radius"@, "border-radius"@),
        ("border_right"@, "border-right"@),
        ("border_style"@, "border-style"@),
        ("border_top"@, "border-top"@),
        ("border_width"@, "border-width"@),
        ("bottom"@, "bottom"@),
        ("box_shadow"@, "box-shadow"@),
        ("box_sizing"@, "box-sizing"@),
        ("color"@, "color"@),
        ("cursor"@, "cursor"@),
        ("display"@, "display"@),
        ("flex"@, "flex"@),
        ("flex_direction"@, "flex-direction"@),
        ("flex_grow"@, "flex-grow"@),
        ("flex_shrink"@, "flex-shrink"@),
        ("flex_wrap"@, "flex-wrap"@),
        ("font"@, "font"@),
        ("font_family"@, "font-family"@),
        ("font_size"@, "font-size"@),
        ("font_style"@, "font-style"@),
        ("font_weight"@, "font-weight"@),
        ("gap"@, "gap"@),
        ("gradient_units"@, "gradientUnits"@),
        ("height"@, "height"@),
        ("justify_content"@, "justify-content"@),
        ("left"@, "left"@),
        ("letter_spacing"@, "letter-spacing"@),
        ("line_height"@, "line-height"@),
        ("margin"@, "margin"@),
        ("margin_bottom"@, "margin-bottom"@),
        ("margin_left"@, "margin-left"@),
        ("margin_right"@, "margin-right"@),
        ("margin_top"@, "margin-top"@),
        ("max_height"@, "max-height"@),
        ("max_width"@, "max-width"@),
        ("min_height"@, "min-height"@),
        ("min_width"@, "min-width"@),
        ("opacity"@, "opacity"@),
        ("outline"@, "outline"@),
        ("overflow"@, "overflow"@),
        ("overflow_x"@, "overflow-x"@),
        ("overflow_y"@, "overflow-y"@),
        ("padding"@, "padding"@),
        ("padding_bottom"@, "padding-bottom"@),
        ("padding_left"@, "padding-left"@),
        ("padding_right"@, "padding-right"@),
        ("padding_top"@, "padding-top"@),
        ("position"@, "position"@),
        ("right"@, "right"@),
        ("stroke_dasharray"@, "stroke-dasharray"@),
        ("text_align"@, "text-align"@),
        ("text_decoration"@, "text-decoration"@),
        ("text_transform"@, "text-transform"@),
        ("top"@, "top"@),
        ("transform"@, "transform"@),
        ("transition"@, "transition"@),
        ("vertical_align"@, "vertical-align"@),
        ("visibility"@, "visibility"@),
        ("white_space"@, "white-space"@),
        ("width"@, "width"@),
        ("word_break"@, "word-break"@),
        ("z_index"@, "z-index"@),
    ]
}

proof fn lemma_table_sorted_0()
    ensures
        forall|i: int|
            0 <= i < 15 ==> lex_lt(#[trigger] spec_table()[i].0, spec_table()[i + 1].0),
{
    reveal_strlit("align_content");
    reveal_strlit("align_items");
    reveal_strlit("align_self");
    reveal_strlit("animation");
    reveal_strlit("animation_delay");
    reveal_strlit("animation_duration");
    reveal_strlit("background");
    reveal_strlit("background_color");
    reveal_strlit("border");
    reveal_strlit("border_bottom");
    reveal_strlit("border_color");
    reveal_strlit("border_left");
    reveal_strlit("border_radius");
    reveal_strlit("border_right");
    reveal_strlit("border_style");
    reveal_strlit("border_top");
    assert("align_content"@.subrange(0, 6) =~= "align_items"@.subrange(0, 6));
    assert("align_content"@[6] == 'c' && "align_items"@[6] == 'i');
    lemma_lex_from_diff("align_content"@, "align_items"@, 6);
    assert("align_items"@.subrange(0, 6) =~= "align_self"@.subrange(0, 6));
    assert("align_items"@[6] == 'i' && "align_self"@[6] == 's');
    lemma_lex_from_diff("align_items"@, "align_self"@, 6);
    assert("align_self"@.subrange(0, 1) =~= "animation"@.subrange(0, 1));
    assert("align_self"@[1] == 'l' && "animation"@[1] == 'n');
    lemma_lex_from_diff("align_self"@, "animation"@, 1);
    assert("animation"@.subrange(0, 9) =~= "animation_delay"@.subrange(0, 9));
    lemma_lex_from_diff("animation"@, "animation_delay"@, 9);
    assert("animation_delay"@.subrange(0, 11) =~= "animation_duration"@.subrange(0, 11));
    assert("animation_delay"@[11] == 'e' && "animation_duration"@[11] == 'u');
    lemma_lex_from_diff("animation_delay"@, "animation_duration"@, 11);
    assert("animation_duration"@.subrange(0, 0) =~= "background"@.subrange(0, 0));
    assert("animation_duration"@[0] == 'a' && "background"@[0] == 'b');
    lemma_lex_from_diff("animation_duration"@, "background"@, 0);
    assert("background"@.subrange(0, 10) =~= "background_color"@.subrange(0, 10));
    lemma_lex_from_diff("background"@, "background_color"@, 10);
    assert("background_color"@.subrange(0, 1) =~= "border"@.subrange(0, 1));
    assert("background_color"@[1] == 'a' && "border"@[1] == 'o');
    lemma_lex_from_diff("background_color"@, "border"@, 1);
    assert("border"@.subrange(0, 6) =~= "border_bottom"@.subrange(0, 6));
    lemma_lex_from_diff("border"@, "border_bottom"@, 6);
    assert("border_bottom"@.subrange(0, 7) =~= "border_color"@.subrange(0, 7));
    assert("border_bottom"@[7] == 'b' && "border_color"@[7] == 'c');
    lemma_lex_from_diff("border_bottom"@, "border_color"@, 7);
    assert("border_color"@.subrange(0, 7) =~= "border_left"@.subrange(0, 7));
    assert("border_color"@[7] == 'c' && "border_left"@[7] == 'l');
    lemma_lex_from_diff("border_color"@, "border_left"@, 7);
    assert("border_left"@.subrange(0, 7) =~= "border_radius"@.subrange(0, 7));
    assert("border_left"@[7] == 'l' && "border_radius"@[7] == 'r');
    lemma_lex_from_diff("border_left"@, "border_radius"@, 7);
    assert("border_radius"@.subrange(0, 8) =~= "border_right"@.subrange(0, 8));
    assert("border_radius"@[8] == 'a' && "border_right"@[8] == 'i');
    lemma_lex_from_diff("border_radius"@, "border_right"@, 8);
    assert("border_right"@.subrange(0, 7) =~= "border_style"@.subrange(0, 7));
    assert("border_right"@[7] == 'r' && "border_style"@[7] == 's');
    lemma_lex_from_diff("border_right"@, "border_style"@, 7);
    assert("border_style"@.subrange(0, 7) =~= "border_top"@.subrange(0, 7));
    assert("border_style"@[7] == 's' && "border_top"@[7] == 't');
    lemma_lex_from_diff("border_style"@, "border_top"@, 7);
}

proof fn lemma_table_sorted_1()
    ensures
        forall|i: int|
            15 <= i < 30 ==> lex_lt(#[trigger] spec_table()[i].0, spec_table()[i + 1].0),
{
    reveal_strlit("border_top");
    reveal_strlit("border_width");
    reveal_strlit("bottom");
    reveal_strlit("box_shadow");
    reveal_strlit("box_sizing");
    reveal_strlit("color");
    reveal_strlit("cursor");
    reveal_strlit("display");
    reveal_strlit("flex");
    reveal_strlit("flex_direction");
    reveal_strlit("flex_grow");
    reveal_strlit("flex_shrink");
    reveal_strlit("flex_wrap");
    reveal_strlit("font");
    reveal_strlit("font_family");
    reveal_strlit("font_size");
    assert("border_top"@.subrange(0, 7) =~= "border_width"@.subrange(0, 7));
    assert("border_top"@[7] == 't' && "border_width"@[7] == 'w');
    lemma_lex_from_diff("border_top"@, "border_width"@, 7);
    assert("border_width"@.subrange(0, 2) =~= "bottom"@.subrange(0, 2));
    assert("border_width"@[2] == 'r' && "bottom"@[2] == 't');
    lemma_lex_from_diff("border_width"@, "bottom"@, 2);
    assert("bottom"@.subrange(0, 2) =~= "box_shadow"@.subrange(0, 2));
    assert("bottom"@[2] == 't' && "box_shadow"@[2] == 'x');
    lemma_lex_from_diff("bottom"@, "box_shadow"@, 2);
    assert("box_shadow"@.subrange(0, 5) =~= "box_sizing"@.subrange(0, 5));
    assert("box_shadow"@[5] == 'h' && "box_sizing"@[5] == 'i');
    lemma_lex_from_diff("box_shadow"@, "box_sizing"@, 5);
    assert("box_sizing"@.subrange(0, 0) =~= "color"@.subrange(0, 0));
    assert("box_sizing"@[0] == 'b' && "color"@[0] == 'c');
    lemma_lex_from_diff("box_sizing"@, "color"@, 0);
    assert("color"@.subrange(0, 1) =~= "cursor"@.subrange(0, 1));
    assert("color"@[1] == 'o' && "cursor"@[1] == 'u');
    lemma_lex_from_diff("color"@, "cursor"@, 1);
    assert("cursor"@.subrange(0, 0) =~= "display"@.subrange(0, 0));
    assert("cursor"@[0] == 'c' && "display"@[0] == 'd');
    lemma_lex_from_diff("cursor"@, "display"@, 0);
    assert("display"@.subrange(0, 0) =~= "flex"@.subrange(0, 0));
    assert("display"@[0] == 'd' && "flex"@[0] == 'f');
    lemma_lex_from_diff("display"@, "flex"@, 0);
    assert("flex"@.subrange(0, 4) =~= "flex_direction"@.subrange(0, 4));
    lemma_lex_from_diff("flex"@, "flex_direction"@, 4);
    assert("flex_direction"@.subrange(0, 5) =~= "flex_grow"@.subrange(0, 5));
    assert("flex_direction"@[5] == 'd' && "flex_grow"@[5] == 'g');
    lemma_lex_from_diff("flex_direction"@, "flex_grow"@, 5);
    assert("flex_grow"@.subrange(0, 5) =~= "flex_shrink"@.subrange(0, 5));
    assert("flex_grow"@[5] == 'g' && "flex_shrink"@[5] == 's');
    lemma_lex_from_diff("flex_grow"@, "flex_shrink"@, 5);
    assert("flex_shrink"@.subrange(0, 5) =~= "flex_wrap"@.subrange(0, 5));
    assert("flex_shrink"@[5] == 's' && "flex_wrap"@[5] == 'w');
    lemma_lex_from_diff("flex_shrink"@, "flex_wrap"@, 5);
    assert("flex_wrap"@.subrange(0, 1) =~= "font"@.subrange(0, 1));
    assert("flex_wrap"@[1] == 'l' && "font"@[1] == 'o');
    lemma_lex_from_diff("flex_wrap"@, "font"@, 1);
    assert("font"@.subrange(0, 4) =~= "font_family"@.subrange(0, 4));
    lemma_lex_from_diff("font"@, "font_family"@, 4);
    assert("font_family"@.subrange(0, 5) =~= "font_size"@.subrange(0, 5));
    assert("font_family"@[5] == 'f' && "font_size"@[5] == 's');
    lemma_lex_from_diff("font_family"@, "font_size"@, 5);
}

proof fn lemma_table_sorted_2()
    ensures
        forall|i: int|
            30 <= i < 45 ==> lex_lt(#[trigger] spec_table()[i].0, spec_table()[i + 1].0),
{
    reveal_strlit("font_size");
    reveal_strlit("font_style");
    reveal_strlit("font_weight");
    reveal_strlit("gap");
    reveal_strlit("gradient_units");
    reveal_strlit("height");
    reveal_strlit("justify_content");
    reveal_strlit("left");
    reveal_strlit("letter_spacing");
    reveal_strlit("line_height");
    reveal_strlit("margin");
    reveal_strlit("margin_bottom");
    reveal_strlit("margin_left");
    reveal_strlit("margin_right");
    reveal_strlit("margin_top");
    reveal_strlit("max_height");
    assert("font_size"@.subrange(0, 6) =~= "font_style"@.subrange(0, 6));
    assert("font_size"@[6] == 'i' && "font_style"@[6] == 't');
    lemma_lex_from_diff("font_size"@, "font_style"@, 6);
    assert("font_style"@.subrange(0, 5) =~= "font_weight"@.subrange(0, 5));
    assert("font_style"@[5] == 's' && "font_weight"@[5] == 'w');
    lemma_lex_from_diff("font_style"@, "font_weight"@, 5);
    assert("font_weight"@.subrange(0, 0) =~= "gap"@.subrange(0, 0));
    assert("font_weight"@[0] == 'f' && "gap"@[0] == 'g');
    lemma_lex_from_diff("font_weight"@, "gap"@, 0);
    assert("gap"@.subrange(0, 1) =~= "gradient_units"@.subrange(0, 1));
    assert("gap"@[1] == 'a' && "gradient_units"@[1] == 'r');
    lemma_lex_from_diff("gap"@, "gradient_units"@, 1);
    assert("gradient_units"@.subrange(0, 0) =~= "height"@.subrange(0, 0));
    assert("gradient_units"@[0] == 'g' && "height"@[0] == 'h');
    lemma_lex_from_diff("gradient_units"@, "height"@, 0);
    assert("height"@.subrange(0, 0) =~= "justify_content"@.subrange(0, 0));
    assert("height"@[0] == 'h' && "justify_content"@[0] == 'j');
    lemma_lex_from_diff("height"@, "justify_content"@, 0);
    assert("justify_content"@.subrange(0, 0) =~= "left"@.subrange(0, 0));
    assert("justify_content"@[0] == 'j' && "left"@[0] == 'l');
    lemma_lex_from_diff("justify_content"@, "left"@, 0);
    assert("left"@.subrange(0, 2) =~= "letter_spacing"@.subrange(0, 2));
    assert("left"@[2] == 'f' && "letter_spacing"@[2] == 't');
    lemma_lex_from_diff("left"@, "letter_spacing"@, 2);
    assert("letter_spacing"@.subrange(0, 1) =~= "line_height"@.subrange(0, 1));
    assert("letter_spacing"@[1] == 'e' && "line_height"@[1] == 'i');
    lemma_lex_from_diff("letter_spacing"@, "line_height"@, 1);
    assert("line_height"@.subrange(0, 0) =~= "margin"@.subrange(0, 0));
    assert("line_height"@[0] == 'l' && "margin"@[0] == 'm');
    lemma_lex_from_diff("line_height"@, "margin"@, 0);
    assert("margin"@.subrange(0, 6) =~= "margin_bottom"@.subrange(0, 6));
    lemma_lex_from_diff("margin"@, "margin_bottom"@, 6);
    assert("margin_bottom"@.subrange(0, 7) =~= "margin_left"@.subrange(0, 7));
    assert("margin_bottom"@[7] == 'b' && "margin_left"@[7] == 'l');
    lemma_lex_from_diff("margin_bottom"@, "margin_left"@, 7);
    assert("margin_left"@.subrange(0, 7) =~= "margin_right"@.subrange(0, 7));
    assert("margin_left"@[7] == 'l' && "margin_right"@[7] == 'r');
    lemma_lex_from_diff("margin_left"@, "margin_right"@, 7);
    assert("margin_right"@.subrange(0, 7) =~= "margin_top"@.subrange(0, 7));
    assert("margin_right"@[7] == 'r' && "margin_top"@[7] == 't');
    lemma_lex_from_diff("margin_right"@, "margin_top"@, 7);
    assert("margin_top"@.subrange(0, 2) =~= "max_height"@.subrange(0, 2));
    assert("margin_top"@[2] == 'r' && "max_height"@[2] == 'x');
    lemma_lex_from_diff("margin_top"@, "max_height"@, 2);
}

proof fn lemma_table_sorted_3()
    ensures
        forall|i: int|
            45 <= i < 60 ==> lex_lt(#[trigger] spec_table()[i].0, spec_table()[i + 1].0),
{
    reveal_strlit("max_height");
    reveal_strlit("max_width");
    reveal_strlit("min_height");
    reveal_strlit("min_width");
    reveal_strlit("opacity");
    reveal_strlit("outline");
    reveal_strlit("overflow");
    reveal_strlit("overflow_x");
    reveal_strlit("overflow_y");
    reveal_strlit("padding");
    reveal_strlit("padding_bottom");
    reveal_strlit("padding_left");
    reveal_strlit("padding_right");
    reveal_strlit("padding_top");
    reveal_strlit("position");
    reveal_strlit("right");
    assert("max_height"@.subrange(0, 4) =~= "max_width"@.subrange(0, 4));
    assert("max_height"@[4] == 'h' && "max_width"@[4] == 'w');
    lemma_lex_from_diff("max_height"@, "max_width"@, 4);
    assert("max_width"@.subrange(0, 1) =~= "min_height"@.subrange(0, 1));
    assert("max_width"@[1] == 'a' && "min_height"@[1] == 'i');
    lemma_lex_from_diff("max_width"@, "min_height"@, 1);
    assert("min_height"@.subrange(0, 4) =~= "min_width"@.subrange(0, 4));
    assert("min_height"@[4] == 'h' && "min_width"@[4] == 'w');
    lemma_lex_from_diff("min_height"@, "min_width"@, 4);
    assert("min_width"@.subrange(0, 0) =~= "opacity"@.subrange(0, 0));
    assert("min_width"@[0] == 'm' && "opacity"@[0] == 'o');
    lemma_lex_from_diff("min_width"@, "opacity"@, 0);
    assert("opacity"@.subrange(0, 1) =~= "outline"@.subrange(0, 1));
    assert("opacity"@[1] == 'p' && "outline"@[1] == 'u');
    lemma_lex_from_diff("opacity"@, "outline"@, 1);
    assert("outline"@.subrange(0, 1) =~= "overflow"@.subrange(0, 1));
    assert("outline"@[1] == 'u' && "overflow"@[1] == 'v');
    lemma_lex_from_diff("outline"@, "overflow"@, 1);
    assert("overflow"@.subrange(0, 8) =~= "overflow_x"@.subrange(0, 8));
    lemma_lex_from_diff("overflow"@, "overflow_x"@, 8);
    assert("overflow_x"@.subrange(0, 9) =~= "overflow_y"@.subrange(0, 9));
    assert("overflow_x"@[9] == 'x' && "overflow_y"@[9] == 'y');
    lemma_lex_from_diff("overflow_x"@, "overflow_y"@, 9);
    assert("overflow_y"@.subrange(0, 0) =~= "padding"@.subrange(0, 0));
    assert("overflow_y"@[0] == 'o' && "padding"@[0] == 'p');
    lemma_lex_from_diff("overflow_y"@, "padding"@, 0);
    assert("padding"@.subrange(0, 7) =~= "padding_bottom"@.subrange(0, 7));
    lemma_lex_from_diff("padding"@, "padding_bottom"@, 7);
    assert("padding_bottom"@.subrange(0, 8) =~= "padding_left"@.subrange(0, 8));
    assert("padding_bottom"@[8] == 'b' && "padding_left"@[8] == 'l');
    lemma_lex_from_diff("padding_bottom"@, "padding_left"@, 8);
    assert("padding_left"@.subrange(0, 8) =~= "padding_right"@.subrange(0, 8));
    assert("padding_left"@[8] == 'l' && "padding_right"@[8] == 'r');
    lemma_lex_from_diff("padding_left"@, "padding_right"@, 8);
    assert("padding_right"@.subrange(0, 8) =~= "padding_top"@.subrange(0, 8));
    assert("padding_right"@[8] == 'r' && "padding_top"@[8] == 't');
    lemma_lex_from_diff("padding_right"@, "padding_top"@, 8);
    assert("padding_top"@.subrange(0, 1) =~= "position"@.subrange(0, 1));
    assert("padding_top"@[1] == 'a' && "position"@[1] == 'o');
    lemma_lex_from_diff("padding_top"@, "position"@, 1);
    assert("position"@.subrange(0, 0) =~= "right"@.subrange(0, 0));
    assert("position"@[0] == 'p' && "right"@[0] == 'r');
    lemma_lex_from_diff("position"@, "right"@, 0);
}

proof fn lemma_table_sorted_4()
    ensures
        forall|i: int|
            60 <= i < 73 ==> lex_lt(#[trigger] spec_table()[i].0, spec_table()[i + 1].0),
{
    reveal_strlit("right");
    reveal_strlit("stroke_dasharray");
    reveal_strlit("text_align");
    reveal_strlit("text_decoration");
    reveal_strlit("text_transform");
    reveal_strlit("top");
    reveal_strlit("transform");
    reveal_strlit("transition");
    reveal_strlit("vertical_align");
    reveal_strlit("visibility");
    reveal_strlit("white_space");
    reveal_strlit("width");
    reveal_strlit("word_break");
    reveal_strlit("z_index");
    assert("right"@.subrange(0, 0) =~= "stroke_dasharray"@.subrange(0, 0));
    assert("right"@[0] == 'r' && "stroke_dasharray"@[0] == 's');
    lemma_lex_from_diff("right"@, "stroke_dasharray"@, 0);
    assert("stroke_dasharray"@.subrange(0, 0) =~= "text_align"@.subrange(0, 0));
    assert("stroke_dasharray"@[0] == 's' && "text_align"@[0] == 't');
    lemma_lex_from_diff("stroke_dasharray"@, "text_align"@, 0);
    assert("text_align"@.subrange(0, 5) =~= "text_decoration"@.subrange(0, 5));
    assert("text_align"@[5] == 'a' && "text_decoration"@[5] == 'd');
    lemma_lex_from_diff("text_align"@, "text_decoration"@, 5);
    assert("text_decoration"@.subrange(0, 5) =~= "text_transform"@.subrange(0, 5));
    assert("text_decoration"@[5] == 'd' && "text_transform"@[5] == 't');
    lemma_lex_from_diff("text_decoration"@, "text_transform"@, 5);
    assert("text_transform"@.subrange(0, 1) =~= "top"@.subrange(0, 1));
    assert("text_transform"@[1] == 'e' && "top"@[1] == 'o');
    lemma_lex_from_diff("text_transform"@, "top"@, 1);
    assert("top"@.subrange(0, 1) =~= "transform"@.subrange(0, 1));
    assert("top"@[1] == 'o' && "transform"@[1] == 'r');
    lemma_lex_from_diff("top"@, "transform"@, 1);
    assert("transform"@.subrange(0, 5) =~= "transition"@.subrange(0, 5));
    assert("transform"@[5] == 'f' && "transition"@[5] == 'i');
    lemma_lex_from_diff("transform"@, "transition"@, 5);
    assert("transition"@.subrange(0, 0) =~= "vertical_align"@.subrange(0, 0));
    assert("transition"@[0] == 't' && "vertical_align"@[0] == 'v');
    lemma_lex_from_diff("transition"@, "vertical_align"@, 0);
    assert("vertical_align"@.subrange(0, 1) =~= "visibility"@.subrange(0, 1));
    assert("vertical_align"@[1] == 'e' && "visibility"@[1] == 'i');
    lemma_lex_from_diff("vertical_align"@, "visibility"@, 1);
    assert("visibility"@.subrange(0, 0) =~= "white_space"@.subrange(0, 0));
    assert("visibility"@[0] == 'v' && "white_space"@[0] == 'w');
    lemma_lex_from_diff("visibility"@, "white_space"@, 0);
    assert("white_space"@.subrange(0, 1) =~= "width"@.subrange(0, 1));
    assert("white_space"@[1] == 'h' && "width"@[1] == 'i');
    lemma_lex_from_diff("white_space"@, "width"@, 1);
    assert("width"@.subrange(0, 1) =~= "word_break"@.subrange(0, 1));
    assert("width"@[1] == 'i' && "word_break"@[1] == 'o');
    lemma_lex_from_diff("width"@, "word_break"@, 1);
    assert("word_break"@.subrange(0, 0) =~= "z_index"@.subrange(0, 0));
    assert("word_break"@[0] == 'w' && "z_index"@[0] == 'z');
    lemma_lex_from_diff("word_break"@, "z_index"@, 0);
}

proof fn lemma_table_sorted()
    ensures
        forall|i: int|
            0 <= i < spec_table().len() - 1 ==> lex_lt(
                #[trigger] spec_table()[i].0,
                spec_table()[i + 1].0,
            ),
{
    lemma_table_sorted_0();
    lemma_table_sorted_1();
    lemma_table_sorted_2();
    lemma_table_sorted_3();
    lemma_table_sorted_4();
}

proof fn lemma_table_idents_marked()
    ensures
        forall|i: int|
            0 <= i < spec_table().len() ==> (#[trigger] spec_table()[i].0 == spec_table()[i].1
                || exists|k: int| 0 <= k < spec_table()[i].0.len() && spec_table()[i].0[k] == '_'),
{
    let t = spec_table();
    reveal_strlit("align_content");
    reveal_strlit("align_items");
    reveal_strlit("align_self");
    reveal_strlit("animation_delay");
    reveal_strlit("animation_duration");
    reveal_strlit("background_color");
    reveal_strlit("border_bottom");
    reveal_strlit("border_color");
    reveal_strlit("border_left");
    reveal_strlit("border_radius");
    reveal_strlit("border_right");
    reveal_strlit("border_style");
    reveal_strlit("border_top");
    reveal_strlit("border_width");
    reveal_strlit("box_shadow");
    reveal_strlit("box_sizing");
    reveal_strlit("flex_direction");
    reveal_strlit("flex_grow");
    reveal_strlit("flex_shrink");
    reveal_strlit("flex_wrap");
    reveal_strlit("font_family");
    reveal_strlit("font_size");
    reveal_strlit("font_style");
    reveal_strlit("font_weight");
    reveal_strlit("gradient_units");
    reveal_strlit("justify_content");
    reveal_strlit("letter_spacing");
    reveal_strlit("line_height");
    reveal_strlit("margin_bottom");
    reveal_strlit("margin_left");
    reveal_strlit("margin_right");
    reveal_strlit("margin_top");
    reveal_strlit("max_height");
    reveal_strlit("max_width");
    reveal_strlit("min_height");
    reveal_strlit("min_width");
    reveal_strlit("overflow_x");
    reveal_strlit("overflow_y");
    reveal_strlit("padding_bottom");
    reveal_strlit("padding_left");
    reveal_strlit("padding_right");
    reveal_strlit("padding_top");
    reveal_strlit("stroke_dasharray");
    reveal_strlit("text_align");
    reveal_strlit("text_decoration");
    reveal_strlit("text_transform");
    reveal_strlit("vertical_align");
    reveal_strlit("white_space");
    reveal_strlit("word_break");
    reveal_strlit("z_index");
    assert(t[0].0 == "align_content"@);
    assert(t[0].0[5] == '_');
    assert(t[1].0 == "align_items"@);
    assert(t[1].0[5] == '_');
    assert(t[2].0 == "align_self"@);
    assert(t[2].0[5] == '_');
    assert(t[4].0 == "animation_delay"@);
    assert(t[4].0[9] == '_');
    assert(t[5].0 == "animation_duration"@);
    assert(t[5].0[9] == '_');
    assert(t[7].0 == "background_color"@);
    assert(t[7].0[10] == '_');
    assert(t[9].0 == "border_bottom"@);
    assert(t[9].0[6] == '_');
    assert(t[10].0 == "border_color"@);
    assert(t[10].0[6] == '_');
    assert(t[11].0 == "border_left"@);
    assert(t[11].0[6] == '_');
    assert(t[12].0 == "border_radius"@);
    assert(t[12].0[6] == '_');
    assert(t[13].0 == "border_right"@);
    assert(t[13].0[6] == '_');
    assert(t[14].0 == "border_style"@);
    assert(t[14].0[6] == '_');
    assert(t[15].0 == "border_top"@);
    assert(t[15].0[6] == '_');
    assert(t[16].0 == "border_width"@);
    assert(t[16].0[6] == '_');
    assert(t[18].0 == "box_shadow"@);
    assert(t[18].0[3] == '_');
    assert(t[19].0 == "box_sizing"@);
    assert(t[19].0[3] == '_');
    assert(t[24].0 == "flex_direction"@);
    assert(t[24].0[4] == '_');
    assert(t[25].0 == "flex_grow"@);
    assert(t[25].0[4] == '_');
    assert(t[26].0 == "flex_shrink"@);
    assert(t[26].0[4] == '_');
    assert(t[27].0 == "flex_wrap"@);
    assert(t[27].0[4] == '_');
    assert(t[29].0 == "font_family"@);
    assert(t[29].0[4] == '_');
    assert(t[30].0 == "font_size"@);
    assert(t[30].0[4] == '_');
    assert(t[31].0 == "font_style"@);
    assert(t[31].0[4] == '_');
    assert(t[32].0 == "font_weight"@);
    assert(t[32].0[4] == '_');
    assert(t[34].0 == "gradient_units"@);
    assert(t[34].0[8] == '_');
    assert(t[36].0 == "justify_content"@);
    assert(t[36].0[7] == '_');
    assert(t[38].0 == "letter_spacing"@);
    assert(t[38].0[6] == '_');
    assert(t[39].0 == "line_height"@);
    assert(t[39].0[4] == '_');
    assert(t[41].0 == "margin_bottom"@);
    assert(t[41].0[6] == '_');
    assert(t[42].0 == "margin_left"@);
    assert(t[42].0[6] == '_');
    assert(t[43].0 == "margin_right"@);
    assert(t[43].0[6] == '_');
    assert(t[44].0 == "margin_top"@);
    assert(t[44].0[6] == '_');
    assert(t[45].0 == "max_height"@);
    assert(t[45].0[3] == '_');
    assert(t[46].0 == "max_width"@);
    assert(t[46].0[3] == '_');
    assert(t[47].0 == "min_height"@);
    assert(t[47].0[3] == '_');
    assert(t[48].0 == "min_width"@);
    assert(t[48].0[3] == '_');
    assert(t[52].0 == "overflow_x"@);
    assert(t[52].0[8] == '_');
    assert(t[53].0 == "overflow_y"@);
    assert(t[53].0[8] == '_');
    assert(t[55].0 == "padding_bottom"@);
    assert(t[55].0[7] == '_');
    assert(t[56].0 == "padding_left"@);
    assert(t[56].0[7] == '_');
    assert(t[57].0 == "padding_right"@);
    assert(t[57].0[7] == '_');
    assert(t[58].0 == "padding_top"@);
    assert(t[58].0[7] == '_');
    assert(t[61].0 == "stroke_dasharray"@);
    assert(t[61].0[6] == '_');
    assert(t[62].0 == "text_align"@);
    assert(t[62].0[4] == '_');
    assert(t[63].0 == "text_decoration"@);
    assert(t[63].0[4] == '_');
    assert(t[64].0 == "text_transform"@);
    assert(t[64].0[4] == '_');
    assert(t[68].0 == "vertical_align"@);
    assert(t[68].0[8] == '_');
    assert(t[70].0 == "white_space"@);
    assert(t[70].0[5] == '_');
    assert(t[72].0 == "word_break"@);
    assert(t[72].0[4] == '_');
    assert(t[73].0 == "z_index"@);
    assert(t[73].0[1] == '_');
}

proof fn lemma_table_canonicals_plain_0()
    ensures
        forall|j: int, k: int|
            0 <= j < 15 && 0 <= k < spec_table()[j].1.len()
                ==> #[trigger] spec_table()[j].1[k] != '_',
{
    let t = spec_table();
    reveal_strlit("align-content");
    reveal_strlit("align-items");
    reveal_strlit("align-self");
    reveal_strlit("animation");
    reveal_strlit("animation-delay");
    reveal_strlit("animation-duration");
    reveal_strlit("background");
    reveal_strlit("background-color");
    reveal_strlit("border");
    reveal_strlit("border-bottom");
    reveal_strlit("border-color");
    reveal_strlit("border-left");
    reveal_strlit("border-radius");
    reveal_strlit("border-right");
    reveal_strlit("border-style");
    assert(t[0].1 == "align-content"@);
    assert(t[1].1 == "align-items"@);
    assert(t[2].1 == "align-self"@);
    assert(t[3].1 == "animation"@);
    assert(t[4].1 == "animation-delay"@);
    assert(t[5].1 == "animation-duration"@);
    assert(t[6].1 == "background"@);
    assert(t[7].1 == "background-color"@);
    assert(t[8].1 == "border"@);
    assert(t[9].1 == "border-bottom"@);
    assert(t[10].1 == "border-color"@);
    assert(t[11].1 == "border-left"@);
    assert(t[12].1 == "border-radius"@);
    assert(t[13].1 == "border-right"@);
    assert(t[14].1 == "border-style"@);
    assert(forall|k: int| 0 <= k < 13 ==> "align-content"@[k] != '_');
    assert(forall|k: int| 0 <= k < 11 ==> "align-items"@[k] != '_');
    assert(forall|k: int| 0 <= k < 10 ==> "align-self"@[k] != '_');
    assert(forall|k: int| 0 <= k < 9 ==> "animation"@[k] != '_');
    assert(forall|k: int| 0 <= k < 15 ==> "animation-delay"@[k] != '_');
    assert(forall|k: int| 0 <= k < 18 ==> "animation-duration"@[k] != '_');
    assert(forall|k: int| 0 <= k < 10 ==> "background"@[k] != '_');
    assert(forall|k: int| 0 <= k < 16 ==> "background-color"@[k] != '_');
    assert(forall|k: int| 0 <= k < 6 ==> "border"@[k] != '_');
    assert(forall|k: int| 0 <= k < 13 ==> "border-bottom"@[k] != '_');
    assert(forall|k: int| 0 <= k < 12 ==> "border-color"@[k] != '_');
    assert(forall|k: int| 0 <= k < 11 ==> "border-left"@[k] != '_');
    assert(forall|k: int| 0 <= k < 13 ==> "border-radius"@[k] != '_');
    assert(forall|k: int| 0 <= k < 12 ==> "border-right"@[k] != '_');
    assert(forall|k: int| 0 <= k < 12 ==> "border-style"@[k] != '_');
}

proof fn lemma_table_canonicals_plain_1()
    ensures
        forall|j: int, k: int|
            15 <= j < 30 && 0 <= k < spec_table()[j].1.len()
                ==> #[trigger] spec_table()[j].1[k] != '_',
{
    let t = spec_table();
    reveal_strlit("border-top");
    reveal_strlit("border-width");
    reveal_strlit("bottom");
    reveal_strlit("box-shadow");
    reveal_strlit("box-sizing");
    reveal_strlit("color");
    reveal_strlit("cursor");
    reveal_strlit("display");
    reveal_strlit("flex");
    reveal_strlit("flex-direction");
    reveal_strlit("flex-grow");
    reveal_strlit("flex-shrink");
    reveal_strlit("flex-wrap");
    reveal_strlit("font");
    reveal_strlit("font-family");
    assert(t[15].1 == "border-top"@);
    assert(t[16].1 == "border-width"@);
    assert(t[17].1 == "bottom"@);
    assert(t[18].1 == "box-shadow"@);
    assert(t[19].1 == "box-sizing"@);
    assert(t[20].1 == "color"@);
    assert(t[21].1 == "cursor"@);
    assert(t[22].1 == "display"@);
    assert(t[23].1 == "flex"@);
    assert(t[24].1 == "flex-direction"@);
    assert(t[25].1 == "flex-grow"@);
    assert(t[26].1 == "flex-shrink"@);
    assert(t[27].1 == "flex-wrap"@);
    assert(t[28].1 == "font"@);
    assert(t[29].1 == "font-family"@);
    assert(forall|k: int| 0 <= k < 10 ==> "border-top"@[k] != '_');
    assert(forall|k: int| 0 <= k < 12 ==> "border-width"@[k] != '_');
    assert(forall|k: int| 0 <= k < 6 ==> "bottom"@[k] != '_');
    assert(forall|k: int| 0 <= k < 10 ==> "box-shadow"@[k] != '_');
    assert(forall|k: int| 0 <= k < 10 ==> "box-sizing"@[k] != '_');
    assert(forall|k: int| 0 <= k < 5 ==> "color"@[k] != '_');
    assert(forall|k: int| 0 <= k < 6 ==> "cursor"@[k] != '_');
    assert(forall|k: int| 0 <= k < 7 ==> "display"@[k] != '_');
    assert(forall|k: int| 0 <= k < 4 ==> "flex"@[k] != '_');
    assert(forall|k: int| 0 <= k < 14 ==> "flex-direction"@[k] != '_');
    assert(forall|k: int| 0 <= k < 9 ==> "flex-grow"@[k] != '_');
    assert(forall|k: int| 0 <= k < 11 ==> "flex-shrink"@[k] != '_');
    assert(forall|k: int| 0 <= k < 9 ==> "flex-wrap"@[k] != '_');
    assert(forall|k: int| 0 <= k < 4 ==> "font"@[k] != '_');
    assert(forall|k: int| 0 <= k < 11 ==> "font-family"@[k] != '_');
}

proof fn lemma_table_canonicals_plain_2()
    ensures
        forall|j: int, k: int|
            30 <= j < 45 && 0 <= k < spec_table()[j].1.len()
                ==> #[trigger] spec_table()[j].1[k] != '_',
{
    let t = spec_table();
    reveal_strlit("font-size");
    reveal_strlit("font-style");
    reveal_strlit("font-weight");
    reveal_strlit("gap");
    reveal_strlit("gradientUnits");
    reveal_strlit("height");
    reveal_strlit("justify-content");
    reveal_strlit("left");
    reveal_strlit("letter-spacing");
    reveal_strlit("line-height");
    reveal_strlit("margin");
    reveal_strlit("margin-bottom");
    reveal_strlit("margin-left");
    reveal_strlit("margin-right");
    reveal_strlit("margin-top");
    assert(t[30].1 == "font-size"@);
    assert(t[31].1 == "font-style"@);
    assert(t[32].1 == "font-weight"@);
    assert(t[33].1 == "gap"@);
    assert(t[34].1 == "gradientUnits"@);
    assert(t[35].1 == "height"@);
    assert(t[36].1 == "justify-content"@);
    assert(t[37].1 == "left"@);
    assert(t[38].1 == "letter-spacing"@);
    assert(t[39].1 == "line-height"@);
    assert(t[40].1 == "margin"@);
    assert(t[41].1 == "margin-bottom"@);
    assert(t[42].1 == "margin-left"@);
    assert(t[43].1 == "margin-right"@);
    assert(t[44].1 == "margin-top"@);
    assert(forall|k: int| 0 <= k < 9 ==> "font-size"@[k] != '_');
    assert(forall|k: int| 0 <= k < 10 ==> "font-style"@[k] != '_');
    assert(forall|k: int| 0 <= k < 11 ==> "font-weight"@[k] != '_');
    assert(forall|k: int| 0 <= k < 3 ==> "gap"@[k] != '_');
    assert(forall|k: int| 0 <= k < 13 ==> "gradientUnits"@[k] != '_');
    assert(forall|k: int| 0 <= k < 6 ==> "height"@[k] != '_');
    assert(forall|k: int| 0 <= k < 15 ==> "justify-content"@[k] != '_');
    assert(forall|k: int| 0 <= k < 4 ==> "left"@[k] != '_');
    assert(forall|k: int| 0 <= k < 14 ==> "letter-spacing"@[k] != '_');
    assert(forall|k: int| 0 <= k < 11 ==> "line-height"@[k] != '_');
    assert(forall|k: int| 0 <= k < 6 ==> "margin"@[k] != '_');
    assert(forall|k: int| 0 <= k < 13 ==> "margin-bottom"@[k] != '_');
    assert(forall|k: int| 0 <= k < 11 ==> "margin-left"@[k] != '_');
    assert(forall|k: int| 0 <= k < 12 ==> "margin-right"@[k] != '_');
    assert(forall|k: int| 0 <= k < 10 ==> "margin-top"@[k] != '_');
}

proof fn lemma_table_canonicals_plain_3()
    ensures
        forall|j: int, k: int|
            45 <= j < 60 && 0 <= k < spec_table()[j].1.len()
                ==> #[trigger] spec_table()[j].1[k] != '_',
{
    let t = spec_table();
    reveal_strlit("max-height");
    reveal_strlit("max-width");
    reveal_strlit("min-height");
    reveal_strlit("min-width");
    reveal_strlit("opacity");
    reveal_strlit("outline");
    reveal_strlit("overflow");
    reveal_strlit("overflow-x");
    reveal_strlit("overflow-y");
    reveal_strlit("padding");
    reveal_strlit("padding-bottom");
    reveal_strlit("padding-left");
    reveal_strlit("padding-right");
    reveal_strlit("padding-top");
    reveal_strlit("position");
    assert(t[45].1 == "max-height"@);
    assert(t[46].1 == "max-width"@);
    assert(t[47].1 == "min-height"@);
    assert(t[48].1 == "min-width"@);
    assert(t[49].1 == "opacity"@);
    assert(t[50].1 == "outline"@);
    assert(t[51].1 == "overflow"@);
    assert(t[52].1 == "overflow-x"@);
    assert(t[53].1 == "overflow-y"@);
    assert(t[54].1 == "padding"@);
    assert(t[55].1 == "padding-bottom"@);
    assert(t[56].1 == "padding-left"@);
    assert(t[57].1 == "padding-right"@);
    assert(t[58].1 == "padding-top"@);
    assert(t[59].1 == "position"@);
    assert(forall|k: int| 0 <= k < 10 ==> "max-height"@[k] != '_');
    assert(forall|k: int| 0 <= k < 9 ==> "max-width"@[k] != '_');
    assert(forall|k: int| 0 <= k < 10 ==> "min-height"@[k] != '_');
    assert(forall|k: int| 0 <= k < 9 ==> "min-width"@[k] != '_');
    assert(forall|k: int| 0 <= k < 7 ==> "opacity"@[k] != '_');
    assert(forall|k: int| 0 <= k < 7 ==> "outline"@[k] != '_');
    assert(forall|k: int| 0 <= k < 8 ==> "overflow"@[k] != '_');
    assert(forall|k: int| 0 <= k < 10 ==> "overflow-x"@[k] != '_');
    assert(forall|k: int| 0 <= k < 10 ==> "overflow-y"@[k] != '_');
    assert(forall|k: int| 0 <= k < 7 ==> "padding"@[k] != '_');
    assert(forall|k: int| 0 <= k < 14 ==> "padding-bottom"@[k] != '_');
    assert(forall|k: int| 0 <= k < 12 ==> "padding-left"@[k] != '_');
    assert(forall|k: int| 0 <= k < 13 ==> "padding-right"@[k] != '_');
    assert(forall|k: int| 0 <= k < 11 ==> "padding-top"@[k] != '_');
    assert(forall|k: int| 0 <= k < 8 ==> "position"@[k] != '_');
}

proof fn lemma_table_canonicals_plain_4()
    ensures
        forall|j: int, k: int|
            60 <= j < 74 && 0 <= k < spec_table()[j].1.len()
                ==> #[trigger] spec_table()[j].1[k] != '_',
{
    let t = spec_table();
    reveal_strlit("right");
    reveal_strlit("stroke-dasharray");
    reveal_strlit("text-align");
    reveal_strlit("text-decoration");
    reveal_strlit("text-transform");
    reveal_strlit("top");
    reveal_strlit("transform");
    reveal_strlit("transition");
    reveal_strlit("vertical-align");
    reveal_strlit("visibility");
    reveal_strlit("white-space");
    reveal_strlit("width");
    reveal_strlit("word-break");
    reveal_strlit("z-index");
    assert(t[60].1 == "right"@);
    assert(t[61].1 == "stroke-dasharray"@);
    assert(t[62].1 == "text-align"@);
    assert(t[63].1 == "text-decoration"@);
    assert(t[64].1 == "text-transform"@);
    assert(t[65].1 == "top"@);
    assert(t[66].1 == "transform"@);
    assert(t[67].1 == "transition"@);
    assert(t[68].1 == "vertical-align"@);
    assert(t[69].1 == "visibility"@);
    assert(t[70].1 == "white-space"@);
    assert(t[71].1 == "width"@);
    assert(t[72].1 == "word-break"@);
    assert(t[73].1 == "z-index"@);
    assert(forall|k: int| 0 <= k < 5 ==> "right"@[k] != '_');
    assert(forall|k: int| 0 <= k < 16 ==> "stroke-dasharray"@[k] != '_');
    assert(forall|k: int| 0 <= k < 10 ==> "text-align"@[k] != '_');
    assert(forall|k: int| 0 <= k < 15 ==> "text-decoration"@[k] != '_');
    assert(forall|k: int| 0 <= k < 14 ==> "text-transform"@[k] != '_');
    assert(forall|k: int| 0 <= k < 3 ==> "top"@[k] != '_');
    assert(forall|k: int| 0 <= k < 9 ==> "transform"@[k] != '_');
    assert(forall|k: int| 0 <= k < 10 ==> "transition"@[k] != '_');
    assert(forall|k: int| 0 <= k < 14 ==> "vertical-align"@[k] != '_');
    assert(forall|k: int| 0 <= k < 10 ==> "visibility"@[k] != '_');
    assert(forall|k: int| 0 <= k < 11 ==> "white-space"@[k] != '_');
    assert(forall|k: int| 0 <= k < 5 ==> "width"@[k] != '_');
    assert(forall|k: int| 0 <= k < 10 ==> "word-break"@[k] != '_');
    assert(forall|k: int| 0 <= k < 7 ==> "z-index"@[k] != '_');
}

proof fn lemma_table_canonicals_plain()
    ensures
        forall|j: int, k: int|
            0 <= j < spec_table().len() && 0 <= k < spec_table()[j].1.len()
                ==> #[trigger] spec_table()[j].1[k] != '_',
{
    lemma_table_canonicals_plain_0();
    lemma_table_canonicals_plain_1();
    lemma_table_canonicals_plain_2();
    lemma_table_canonicals_plain_3();
    lemma_table_canonicals_plain_4();
}

proof fn lemma_sorted_chain(t: Seq<(Seq<char>, Seq<char>)>, i: int, j: int)
    requires
        forall|k: int| 0 <= k < t.len() - 1 ==> lex_lt(#[trigger] t[k].0, t[k + 1].0),
        0 <= i < j < t.len(),
    ensures
        lex_lt(t[i].0, t[j].0),
    decreases j - i,
{
    if j == i + 1 {
    } else {
        lemma_sorted_chain(t, i, j - 1);
        lemma_lex_trans(t[i].0, t[j - 1].0, t[j].0);
    }
}

/// The concrete table is well formed.
pub proof fn lemma_table_wf()
    ensures
        table_wf(spec_table()),
{
    let t = spec_table();
    lemma_table_sorted();
    assert forall|i: int, j: int| 0 <= i < j < t.len() implies t[i].0 != t[j].0 by {
        lemma_sorted_chain(t, i, j);
        lemma_lex_irrefl(t[i].0);
        if t[i].0 == t[j].0 {
            assert(lex_lt(t[i].0, t[i].0));
        }
    }
    lemma_table_idents_marked();
    lemma_table_canonicals_plain();
    assert forall|i: int, j: int|
        0 <= i < t.len() && 0 <= j < t.len() && t[i].0 == t[j].1 implies t[i].1 == t[j].1 by {
        if t[i].0 != t[i].1 {
            let k = choose|k: int| 0 <= k < t[i].0.len() && t[i].0[k] == '_';
            assert(t[j].1[k] == '_');
        }
    }
}

/// The round trip over the concrete table: for every entry, its identifier
/// resolves to its canonical name and its canonical name resolves to itself.
pub proof fn lemma_table_round_trip(j: int)
    requires
        0 <= j < spec_table().len(),
    ensures
        spec_resolve(spec_table(), spec_table()[j].0) == Some(spec_table()[j].1),
        spec_resolve(spec_table(), spec_table()[j].1) == Some(spec_table()[j].1),
{
    lemma_table_wf();
    lemma_resolve_round_trip(spec_table(), j);
}

// ---------------------------------------------------------------------------
// The executable table.
// ---------------------------------------------------------------------------

/// The property-name table, built once and read-only thereafter.
pub struct PropertyTable {
    entries: Vec<(&'static str, &'static str)>,
}

impl View for PropertyTable {
    type V = Seq<(Seq<char>, Seq<char>)>;

    closed spec fn view(&self) -> Seq<(Seq<char>, Seq<char>)> {
        self.entries@.map_values(|p: (&'static str, &'static str)| (p.0@, p.1@))
    }
}

impl PropertyTable {
    /// Build the table.
    pub fn new() -> (t: Self)
        ensures
            t@ == spec_table(),
    {
        let mut entries: Vec<(&'static str, &'static str)> = Vec::new();
        entries.push(("align_content", "align-content"));
        entries.push(("align_items", "align-items"));
        entries.push(("align_self", "align-self"));
        entries.push(("animation", "animation"));
        entries.push(("animation_delay", "animation-delay"));
        entries.push(("animation_duration", "animation-duration"));
        entries.push(("background", "background"));
        entries.push(("background_color", "background-color"));
        entries.push(("border", "border"));
        entries.push(("border_bottom", "border-bottom"));
        entries.push(("border_color", "border-color"));
        entries.push(("border_left", "border-left"));
        entries.push(("border_radius", "border-radius"));
        entries.push(("border_right", "border-right"));
        entries.push(("border_style", "border-style"));
        entries.push(("border_top", "border-top"));
        entries.push(("border_width", "border-width"));
        entries.push(("bottom", "bottom"));
        entries.push(("box_shadow", "box-shadow"));
        entries.push(("box_sizing", "box-sizing"));
        entries.push(("color", "color"));
        entries.push(("cursor", "cursor"));
        entries.push(("display", "display"));
        entries.push(("flex", "flex"));
        entries.push(("flex_direction", "flex-direction"));
        entries.push(("flex_grow", "flex-grow"));
        entries.push(("flex_shrink", "flex-shrink"));
        entries.push(("flex_wrap", "flex-wrap"));
        entries.push(("font", "font"));
        entries.push(("font_family", "font-family"));
        entries.push(("font_size", "font-size"));
        entries.push(("font_style", "font-style"));
        entries.push(("font_weight", "font-weight"));
        entries.push(("gap", "gap"));
        entries.push(("gradient_units", "gradientUnits"));
        entries.push(("height", "height"));
        entries.push(("justify_content", "justify-content"));
        entries.push(("left", "left"));
        entries.push(("letter_spacing", "letter-spacing"));
        entries.push(("line_height", "line-height"));
        entries.push(("margin", "margin"));
        entries.push(("margin_bottom", "margin-bottom"));
        entries.push(("margin_left", "margin-left"));
        entries.push(("margin_right", "margin-right"));
        entries.push(("margin_top", "margin-top"));
        entries.push(("max_height", "max-height"));
        entries.push(("max_width", "max-width"));
        entries.push(("min_height", "min-height"));
        entries.push(("min_width", "min-width"));
        entries.push(("opacity", "opacity"));
        entries.push(("outline", "outline"));
        entries.push(("overflow", "overflow"));
        entries.push(("overflow_x", "overflow-x"));
        entries.push(("overflow_y", "overflow-y"));
        entries.push(("padding", "padding"));
        entries.push(("padding_bottom", "padding-bottom"));
        entries.push(("padding_left", "padding-left"));
        entries.push(("padding_right", "padding-right"));
        entries.push(("padding_top", "padding-top"));
        entries.push(("position", "position"));
        entries.push(("right", "right"));
        entries.push(("stroke_dasharray", "stroke-dasharray"));
        entries.push(("text_align", "text-align"));
        entries.push(("text_decoration", "text-decoration"));
        entries.push(("text_transform", "text-transform"));
        entries.push(("top", "top"));
        entries.push(("transform", "transform"));
        entries.push(("transition", "transition"));
        entries.push(("vertical_align", "vertical-align"));
        entries.push(("visibility", "visibility"));
        entries.push(("white_space", "white-space"));
        entries.push(("width", "width"));
        entries.push(("word_break", "word-break"));
        entries.push(("z_index", "z-index"));
        let t = PropertyTable { entries };
        proof {
            assert(t@ =~= spec_table());
        }
        t
    }

    /// The canonical name for an identifier spelling, if the identifier
    /// column holds `ident`.
    pub fn from_ident(&self, ident: &str) -> (r: Option<&'static str>)
        ensures
            r is Some <==> spec_lookup_ident(self@, ident@) is Some,
            r matches Some(s) ==> spec_lookup_ident(self@, ident@) == Some(s@),
    {
        let n = self.entries.len();
        proof {
            assert(self@.skip(0) =~= self@);
        }
        let mut i: usize = 0;
        while i < n
            invariant
                i <= n,
                n == self.entries.len(),
                self@.len() == n,
                spec_lookup_ident(self@, ident@) == spec_lookup_ident(self@.skip(i as int), ident@),
            decreases n - i,
        {
            proof {
                assert(self@.skip(i as int)[0] == self@[i as int]);
                assert(self@[i as int].0 == self.entries@[i as int].0@);
            }
            if crate::text::str_eq(self.entries[i].0, ident) {
                return Some(self.entries[i].1);
            }
            proof {
                assert(self@.skip(i as int).skip(1) =~= self@.skip(i + 1));
            }
            i = i + 1;
        }
        proof {
            assert(self@.skip(n as int) =~= Seq::<(Seq<char>, Seq<char>)>::empty());
        }
        None
    }

    /// Whether `style_name` already is one of the canonical names of the
    /// table; the name is returned unchanged when it is.
    pub fn match_name(&self, style_name: &str) -> (r: Option<&'static str>)
        ensures
            r is Some <==> spec_is_canonical(self@, style_name@),
            r matches Some(s) ==> s@ == style_name@,
    {
        let n = self.entries.len();
        let mut i: usize = 0;
        while i < n
            invariant
                i <= n,
                n == self.entries.len(),
                self@.len() == n,
                forall|k: int| 0 <= k < i ==> (#[trigger] self@[k]).1 != style_name@,
            decreases n - i,
        {
            proof {
                assert(self@[i as int].1 == self.entries@[i as int].1@);
            }
            if crate::text::str_eq(self.entries[i].1, style_name) {
                return Some(self.entries[i].1);
            }
            i = i + 1;
        }
        None
    }

    /// Resolve a property key: the identifier column first, then the
    /// canonical column, then nothing.
    pub fn resolve(&self, key: &str) -> (r: Option<&'static str>)
        ensures
            r is Some <==> spec_resolve(self@, key@) is Some,
            r matches Some(s) ==> spec_resolve(self@, key@) == Some(s@),
    {
        match self.from_ident(key) {
            Some(c) => Some(c),
            None => self.match_name(key),
        }
    }

    /// How many entries the table has.
    pub fn len(&self) -> (n: usize)
        ensures
            n == self@.len(),
    {
        self.entries.len()
    }

    /// The entry at position `i`: `(identifier, canonical name)`.
    pub fn entry(&self, i: usize) -> (e: (&'static str, &'static str))
        requires
            i < self@.len(),
        ensures
            e.0@ == self@[i as int].0,
            e.1@ == self@[i as int].1,
    {
        let e = self.entries[i];
        proof {
            assert(self@[i as int] == (self.entries@[i as int].0@, self.entries@[i as int].1@));
        }
        e
    }
}

} // verus!
