//! Properties of the rendering, stated and proved once and for all.
//!
//! Each proof function here holds for every text and every color or style
//! the library accepts; the scenario tests exercise the same facts on
//! concrete values.

use vstd::prelude::*;

verus! {

use crate::digits::{dec_str, lemma_dec_str_digits};
use crate::{
    Formatting, bg_param, fg_param, is_base_color, named_offset, params, rendered, style_code,
    style_param, styles_param, Styles,
};

/// Whether a parameter text is free of the `';'` separator.
pub open spec fn no_semicolon(s: Seq<char>) -> bool {
    forall|i: int| 0 <= i < s.len() ==> s[i] != ';'
}

/// A decimal code never contains the separator.
proof fn lemma_dec_str_no_semicolon(n: nat)
    ensures
        no_semicolon(dec_str(n)),
{
    lemma_dec_str_digits(n);
}

/// With only a base foreground color set, the output is
/// `ESC [ <30+offset> m <text> ESC [ 0 m`, and the parameter text carries
/// no leading, trailing or inner `';'`.
pub proof fn lemma_base_foreground_only(f: Formatting, text: Seq<char>)
    requires
        is_base_color(f.fg),
        f.bg is Default,
        f.styles is None,
    ensures
        rendered(f, text) == seq!['\x1B', '['] + dec_str(30 + named_offset(f.fg)) + seq!['m']
            + text + seq!['\x1B', '[', '0', 'm'],
        no_semicolon(params(f)),
{
    assert(params(f) =~= dec_str(30 + named_offset(f.fg)));
    lemma_dec_str_no_semicolon(30 + named_offset(f.fg));
}

/// With only a base background color set, the output is
/// `ESC [ <40+offset> m <text> ESC [ 0 m`, with no `';'` in the parameters.
pub proof fn lemma_base_background_only(f: Formatting, text: Seq<char>)
    requires
        f.fg is Default,
        is_base_color(f.bg),
        f.styles is None,
    ensures
        rendered(f, text) == seq!['\x1B', '['] + dec_str(40 + named_offset(f.bg)) + seq!['m']
            + text + seq!['\x1B', '[', '0', 'm'],
        no_semicolon(params(f)),
{
    assert(params(f) =~= dec_str(40 + named_offset(f.bg)));
    lemma_dec_str_no_semicolon(40 + named_offset(f.bg));
}

/// With only a single style set, the output is
/// `ESC [ <code> m <text> ESC [ 0 m`, with no `';'` in the parameters.
pub proof fn lemma_single_style_only(f: Formatting, text: Seq<char>, s: Styles)
    requires
        f.fg is Default,
        f.bg is Default,
        f.styles matches Some(l) && l@ == seq![s],
    ensures
        rendered(f, text) == seq!['\x1B', '['] + dec_str(style_code(s)) + seq!['m'] + text
            + seq!['\x1B', '[', '0', 'm'],
        no_semicolon(params(f)),
{
    assert(styles_param(f.styles.unwrap()@) == dec_str(style_code(s)));
    assert(params(f) =~= dec_str(style_code(s)));
    lemma_dec_str_no_semicolon(style_code(s));
}

/// Two styles are rendered in the order given, not sorted: the parameter
/// text is the first code, a `';'`, then the second code.
pub proof fn lemma_two_styles_in_order(f: Formatting, s1: Styles, s2: Styles)
    requires
        f.fg is Default,
        f.bg is Default,
        f.styles matches Some(l) && l@ == seq![s1, s2],
    ensures
        params(f) == dec_str(style_code(s1)) + seq![';'] + dec_str(style_code(s2)),
{
    let l = f.styles.unwrap()@;
    assert(l.drop_last() =~= seq![s1]);
    assert(l.last() == s2);
    assert(styles_param(seq![s1]) == dec_str(style_code(s1)));
    assert(styles_param(l) == dec_str(style_code(s1)) + seq![';'] + dec_str(style_code(s2)));
    assert(params(f) =~= styles_param(l));
}

/// With foreground and background both set and no style list, the
/// parameters are the foreground code, a `';'`, then the background code —
/// foreground first.
pub proof fn lemma_foreground_before_background(f: Formatting)
    requires
        !(f.fg is Default),
        !(f.bg is Default),
        f.styles is None,
    ensures
        params(f) == fg_param(f).unwrap() + seq![';'] + bg_param(f).unwrap(),
{
    assert(params(f) =~= fg_param(f).unwrap() + seq![';'] + bg_param(f).unwrap());
}

/// With a foreground color and a style list set and no background, the
/// parameters are the foreground code, a `';'`, then the style codes.
pub proof fn lemma_foreground_before_styles(f: Formatting)
    requires
        !(f.fg is Default),
        f.bg is Default,
        f.styles is Some,
    ensures
        params(f) == fg_param(f).unwrap() + seq![';'] + style_param(f).unwrap(),
{
    assert(params(f) =~= fg_param(f).unwrap() + seq![';'] + style_param(f).unwrap());
}

/// With a background color and a style list set and no foreground, the
/// parameters are the background code, a `';'`, then the style codes.
pub proof fn lemma_background_before_styles(f: Formatting)
    requires
        f.fg is Default,
        !(f.bg is Default),
        f.styles is Some,
    ensures
        params(f) == bg_param(f).unwrap() + seq![';'] + style_param(f).unwrap(),
{
    assert(params(f) =~= bg_param(f).unwrap() + seq![';'] + style_param(f).unwrap());
}

/// With all three set, the parameters come in the fixed order foreground,
/// background, styles, separated by single `';'`s.
pub proof fn lemma_full_order(f: Formatting)
    requires
        !(f.fg is Default),
        !(f.bg is Default),
        f.styles is Some,
    ensures
        params(f) == fg_param(f).unwrap() + seq![';'] + bg_param(f).unwrap() + seq![';']
            + style_param(f).unwrap(),
{
    assert(params(f) =~= fg_param(f).unwrap() + seq![';'] + bg_param(f).unwrap() + seq![';']
        + style_param(f).unwrap());
}

/// An unconfigured `Formatting` has an empty parameter list, and renders
/// `ESC [ m <text> ESC [ 0 m` — the brackets are kept, not omitted.
pub proof fn lemma_unconfigured(f: Formatting, text: Seq<char>)
    requires
        f.fg is Default,
        f.bg is Default,
        f.styles is None,
    ensures
        params(f) == Seq::<char>::empty(),
        rendered(f, text) == seq!['\x1B', '[', 'm'] + text + seq!['\x1B', '[', '0', 'm'],
{
    assert(params(f) =~= Seq::<char>::empty());
    assert(rendered(f, text) =~= seq!['\x1B', '[', 'm'] + text + seq!['\x1B', '[', '0', 'm']);
}

/// Rendering is pure: `Formatting::apply_to` promises that its result is
/// exactly `rendered` of the description and the text, so any two calls
/// with equal descriptions and equal texts return equal strings.
pub proof fn lemma_apply_to_pure(f: Formatting, text: Seq<char>, r1: Seq<char>, r2: Seq<char>)
    requires
        r1 == rendered(f, text),
        r2 == rendered(f, text),
    ensures
        r1 == r2,
{
}

} // verus!
