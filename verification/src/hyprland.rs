//! Window-manager theme detection: normalizing the border colours a
//! compositor reports into `#rrggbb` form and assembling the theme
//! handed to the interface.
//!
//! The probes themselves (environment, compositor queries, the generated
//! palette file) are host glue; this module turns their raw answers into
//! the theme.

use vstd::prelude::*;
use crate::text::all_dec_digits;
use crate::text::dec_val;
use crate::text::find_char_from;
use crate::text::hex_byte;
use crate::text::lemma_find_upto;
use crate::text::parse_u8;
use crate::text::push_hex_byte;
use crate::text::starts_with_text;
use crate::text::trim_end_char_spec;
use crate::text::trim_end_char_text;
use crate::text::trim_spec;
use crate::text::trim_start_char_spec;
use crate::text::trim_start_char_text;
use crate::text::trim_text;
use crate::text::upto_char;

verus! {

/// A hexadecimal colour normalized to `#rrggbb`: an eight-digit value
/// drops its leading alpha byte, a six-digit value is kept; anything
/// else is rejected.
pub open spec fn normalized_hex(h: Seq<char>) -> Option<Seq<char>> {
    let t = trim_spec(h);
    if t.len() == 8 {
        Some("#"@ + t.skip(2))
    } else if t.len() == 6 {
        Some("#"@ + t)
    } else {
        None
    }
}

/// Normalize a bare hexadecimal colour value.
pub fn normalize_hex(hex: &str) -> (r: Option<String>)
    ensures
        match (r, normalized_hex(hex@)) {
            (Some(s), Some(v)) => s@ == v,
            (None, None) => true,
            _ => false,
        },
{
    let t = trim_text(hex);
    let len = t.unicode_len();
    if len == 8 {
        let mut out = "#".to_owned();
        out.append(t.substring_char(2, len));
        Some(out)
    } else if len == 6 {
        let mut out = "#".to_owned();
        out.append(t);
        Some(out)
    } else {
        None
    }
}

/// A parsed decimal colour component: present when the trimmed part is a
/// pure digit string no greater than 255.
pub open spec fn component_val(part: Seq<char>) -> Option<u8> {
    let t = trim_spec(part);
    if t.len() > 0 && all_dec_digits(t) && dec_val(t) <= 255 {
        Some(dec_val(t) as u8)
    } else {
        None
    }
}

/// The comma-separated components of an `rgba(...)` colour, after the
/// wrapping is stripped: the position of each of the first two commas
/// and the three leading components.
pub open spec fn rgba_hex(s: Seq<char>) -> Option<Seq<char>> {
    let inner = trim_end_char_spec(trim_start_seq(s, "rgba("@), ')');
    let c1 = upto_char(inner, ',') as int;
    if c1 >= inner.len() {
        None
    } else {
        let rest1 = inner.skip(c1 + 1);
        let c2 = upto_char(rest1, ',') as int;
        if c2 >= rest1.len() {
            None
        } else {
            let rest2 = rest1.skip(c2 + 1);
            let c3 = upto_char(rest2, ',') as int;
            match (component_val(inner.take(c1)), component_val(rest1.take(c2)), component_val(
                rest2.take(c3),
            )) {
                (Some(a), Some(b), Some(c)) => Some(
                    "#"@ + hex_byte(a as int) + hex_byte(b as int) + hex_byte(c as int),
                ),
                _ => None,
            }
        }
    }
}

/// `s` with every leading occurrence of the pattern removed.
pub open spec fn trim_start_seq(s: Seq<char>, p: Seq<char>) -> Seq<char>
    decreases s.len(),
{
    if p.len() > 0 && s.len() >= p.len() && s.take(p.len() as int) == p {
        trim_start_seq(s.skip(p.len() as int), p)
    } else {
        s
    }
}

/// Strip every leading occurrence of `pattern`.
fn trim_start_pattern<'a>(s: &'a str, pattern: &str) -> (r: &'a str)
    requires
        pattern@.len() > 0,
    ensures
        r@ == trim_start_seq(s@, pattern@),
{
    let mut cur = s;
    let pl = pattern.unicode_len();
    while starts_with_text(cur, pattern)
        invariant
            pl == pattern@.len(),
            pl > 0,
            trim_start_seq(s@, pattern@) == trim_start_seq(cur@, pattern@),
        decreases cur@.len(),
    {
        let cl = cur.unicode_len();
        let ghost pre = cur@;
        cur = cur.substring_char(pl, cl);
        proof {
            assert(pre.skip(pl as int) =~= cur@);
        }
    }
    proof {
        assert(trim_start_seq(cur@, pattern@) == cur@);
    }
    cur
}

/// Normalize an `rgba(r, g, b[, a])` colour into `#rrggbb`, dropping any
/// alpha component.
pub fn rgba_to_hex(rgba: &str) -> (r: Option<String>)
    ensures
        match (r, rgba_hex(rgba@)) {
            (Some(s), Some(v)) => s@ == v,
            (None, None) => true,
            _ => false,
        },
{
    proof {
        reveal_strlit("rgba(");
    }
    let stripped = trim_start_pattern(rgba, "rgba(");
    let inner = trim_end_char_text(stripped, ')');
    let inner_len = inner.unicode_len();
    let c1 = match find_char_from(inner, ',', 0) {
        Some(i) => i,
        None => {
            proof {
                lemma_find_upto(inner@.skip(0), ',');
                assert(inner@.skip(0) =~= inner@);
            }
            return None;
        },
    };
    proof {
        lemma_find_upto(inner@.skip(0), ',');
        assert(inner@.skip(0) =~= inner@);
    }
    let c2 = match find_char_from(inner, ',', c1 + 1) {
        Some(i) => i,
        None => {
            proof {
                lemma_find_upto(inner@.skip(c1 + 1), ',');
            }
            return None;
        },
    };
    proof {
        lemma_find_upto(inner@.skip(c1 + 1), ',');
    }
    let third_end = match find_char_from(inner, ',', c2 + 1) {
        Some(i) => i,
        None => inner_len,
    };
    proof {
        lemma_find_upto(inner@.skip(c2 + 1), ',');
        assert(inner@.skip(c1 + 1).skip(c2 - c1) =~= inner@.skip(c2 + 1));
        assert(inner@.subrange(0, c1 as int) =~= inner@.take(c1 as int));
        assert(inner@.subrange(c1 + 1, c2 as int) =~= inner@.skip(c1 + 1).take(c2 - c1 - 1));
        assert(inner@.subrange(c2 + 1, third_end as int) =~= inner@.skip(c2 + 1).take(
            third_end - c2 - 1,
        ));
    }
    let red_part = trim_text(inner.substring_char(0, c1));
    let green_part = trim_text(inner.substring_char(c1 + 1, c2));
    let blue_part = trim_text(inner.substring_char(c2 + 1, third_end));
    let red = match parse_u8(red_part) {
        Some(v) => v,
        None => {
            return None;
        },
    };
    let green = match parse_u8(green_part) {
        Some(v) => v,
        None => {
            return None;
        },
    };
    let blue = match parse_u8(blue_part) {
        Some(v) => v,
        None => {
            return None;
        },
    };
    let mut out = "#".to_owned();
    push_hex_byte(&mut out, red);
    push_hex_byte(&mut out, green);
    push_hex_byte(&mut out, blue);
    proof {
        assert(out@ =~= "#"@ + hex_byte(red as int) + hex_byte(green as int) + hex_byte(blue as int));
    }
    Some(out)
}

/// A raw colour normalized to `#rrggbb`: a `0x`-prefixed or
/// `#`-prefixed hexadecimal value, or an `rgba(...)` value; anything
/// else is rejected.
pub open spec fn normalized_color(raw: Seq<char>) -> Option<Seq<char>> {
    let t = trim_spec(raw);
    if t.len() >= 2 && t.take(2) == "0x"@ {
        normalized_hex(t.skip(2))
    } else if t.len() >= "rgba("@.len() && t.take("rgba("@.len() as int) == "rgba("@ && t.last()
        == ')' {
        rgba_hex(t)
    } else if t.len() >= 1 && t[0] == '#' {
        normalized_hex(trim_start_char_spec(t, '#'))
    } else {
        None
    }
}

/// Normalize a raw colour value as a compositor reports it.
pub fn normalize_color(raw: &str) -> (r: Option<String>)
    ensures
        match (r, normalized_color(raw@)) {
            (Some(s), Some(v)) => s@ == v,
            (None, None) => true,
            _ => false,
        },
{
    let trimmed = trim_text(raw);
    let len = trimmed.unicode_len();
    if starts_with_text(trimmed, "0x") {
        proof {
            reveal_strlit("0x");
        }
        return normalize_hex(trimmed.substring_char(2, len));
    }
    proof {
        reveal_strlit("0x");
    }
    if starts_with_text(trimmed, "rgba(") && len > 0 && trimmed.get_char(len - 1) == ')' {
        return rgba_to_hex(trimmed);
    }
    if len >= 1 && trimmed.get_char(0) == '#' {
        return normalize_hex(trim_start_char_text(trimmed, '#'));
    }
    None
}

/// The palette generated from the user's wallpaper, already decoded to
/// plain colour strings.
#[derive(Debug)]
pub struct MaterialColors {
    pub primary: String,
    pub primary_container: String,
    pub secondary: String,
    pub secondary_container: String,
    pub tertiary: String,
    pub background: String,
    pub surface: String,
    pub surface_variant: String,
    pub outline: String,
}

/// The theme derived from the compositor's configuration.
#[derive(Debug)]
pub struct HyprlandTheme {
    pub is_hyprland: bool,
    pub accent_color: Option<String>,
    pub inactive_color: Option<String>,
    pub prefers_tiling: bool,
    pub primary: Option<String>,
    pub primary_container: Option<String>,
    pub secondary: Option<String>,
    pub secondary_container: Option<String>,
    pub tertiary: Option<String>,
    pub background: Option<String>,
    pub surface: Option<String>,
    pub surface_variant: Option<String>,
    pub outline: Option<String>,
}

/// The first of two raw colours that normalizes, normalized.
pub open spec fn first_normalized(a: Option<String>, b: Option<String>) -> Option<Seq<char>> {
    let second = (match b {
        Some(s) => normalized_color(s@),
        None => None,
    });
    match a {
        Some(s) => match normalized_color(s@) {
            Some(v) => Some(v),
            None => second,
        },
        None => second,
    }
}

/// Normalize the first usable of a preferred and a fallback raw colour.
fn select_color(preferred: Option<String>, fallback: Option<String>) -> (r: Option<String>)
    ensures
        match (r, first_normalized(preferred, fallback)) {
            (Some(s), Some(v)) => s@ == v,
            (None, None) => true,
            _ => false,
        },
{
    if let Some(raw) = &preferred {
        if let Some(c) = normalize_color(raw.as_str()) {
            return Some(c);
        }
    }
    match &fallback {
        Some(raw) => normalize_color(raw.as_str()),
        None => None,
    }
}

/// Assemble the compositor theme from the probes' raw answers: nothing
/// when the compositor is not running; otherwise a tiling-preferring
/// theme with the normalized border colours and, when the generated
/// palette was readable, its colours.
pub fn detect_theme(
    hyprland_active: bool,
    accent_raw: Option<String>,
    accent_fallback_raw: Option<String>,
    inactive_raw: Option<String>,
    inactive_fallback_raw: Option<String>,
    colors: Option<MaterialColors>,
) -> (r: Option<HyprlandTheme>)
    ensures
        hyprland_active == (r is Some),
        r is Some ==> {
            let t = r->0;
            &&& t.is_hyprland
            &&& t.prefers_tiling
            &&& (match (t.accent_color, first_normalized(accent_raw, accent_fallback_raw)) {
                (Some(s), Some(v)) => s@ == v,
                (None, None) => true,
                _ => false,
            })
            &&& (match (t.inactive_color, first_normalized(inactive_raw, inactive_fallback_raw)) {
                (Some(s), Some(v)) => s@ == v,
                (None, None) => true,
                _ => false,
            })
            &&& (colors is Some ==> {
                let c = colors->0;
                &&& t.primary == Some(c.primary)
                &&& t.primary_container == Some(c.primary_container)
                &&& t.secondary == Some(c.secondary)
                &&& t.secondary_container == Some(c.secondary_container)
                &&& t.tertiary == Some(c.tertiary)
                &&& t.background == Some(c.background)
                &&& t.surface == Some(c.surface)
                &&& t.surface_variant == Some(c.surface_variant)
                &&& t.outline == Some(c.outline)
            })
            &&& (colors is None ==> t.primary is None && t.primary_container is None
                && t.secondary is None && t.secondary_container is None && t.tertiary is None
                && t.background is None && t.surface is None && t.surface_variant is None
                && t.outline is None)
        },
{
    if !hyprland_active {
        return None;
    }
    let accent = select_color(accent_raw, accent_fallback_raw);
    let inactive = select_color(inactive_raw, inactive_fallback_raw);
    match colors {
        Some(c) => Some(
            HyprlandTheme {
                is_hyprland: true,
                accent_color: accent,
                inactive_color: inactive,
                prefers_tiling: true,
                primary: Some(c.primary),
                primary_container: Some(c.primary_container),
                secondary: Some(c.secondary),
                secondary_container: Some(c.secondary_container),
                tertiary: Some(c.tertiary),
                background: Some(c.background),
                surface: Some(c.surface),
                surface_variant: Some(c.surface_variant),
                outline: Some(c.outline),
            },
        ),
        None => Some(
            HyprlandTheme {
                is_hyprland: true,
                accent_color: accent,
                inactive_color: inactive,
                prefers_tiling: true,
                primary: None,
                primary_container: None,
                secondary: None,
                secondary_container: None,
                tertiary: None,
                background: None,
                surface: None,
                surface_variant: None,
                outline: None,
            },
        ),
    }
}

} // verus!
