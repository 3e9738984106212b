//! Theme overrides read from a CSS theme file: scanning custom-property
//! declarations out of a stylesheet and mapping the well-known palette
//! names onto this player's own variables.
//!
//! Variable sets are association lists of (name, value) pairs; when a
//! name is declared twice, the later declaration wins, as it would in a
//! stylesheet.

use vstd::prelude::*;
use crate::text::find_char_from;
use crate::text::lemma_find_upto;
use crate::text::text_eq;
use crate::text::trim_spec;
use crate::text::trim_text;
use crate::text::upto_char;

verus! {

/// The views of an association list's entries.
pub open spec fn pair_views(s: Seq<(String, String)>) -> Seq<(Seq<char>, Seq<char>)> {
    s.map_values(|p: (String, String)| (p.0@, p.1@))
}

/// The value bound to `key`, later bindings winning.
pub open spec fn lookup(pairs: Seq<(Seq<char>, Seq<char>)>, key: Seq<char>) -> Option<Seq<char>>
    decreases pairs.len(),
{
    if pairs.len() == 0 {
        None
    } else if pairs.last().0 == key {
        Some(pairs.last().1)
    } else {
        lookup(pairs.drop_last(), key)
    }
}

/// The value bound to `key` in an owned variable set.
pub fn lookup_var(pairs: &Vec<(String, String)>, key: &str) -> (r: Option<String>)
    ensures
        match (r, lookup(pair_views(pairs@), key@)) {
            (Some(s), Some(v)) => s@ == v,
            (None, None) => true,
            _ => false,
        },
{
    let mut i = pairs.len();
    proof {
        assert(pair_views(pairs@).take(i as int) =~= pair_views(pairs@));
    }
    while i > 0
        invariant
            i <= pairs@.len(),
            lookup(pair_views(pairs@), key@) == lookup(pair_views(pairs@).take(i as int), key@),
        decreases i,
    {
        i = i - 1;
        let hit = text_eq(pairs[i].0.as_str(), key);
        proof {
            let pv = pair_views(pairs@);
            assert(pv.take(i + 1).last() == pv[i as int]);
            assert(pv.take(i + 1).drop_last() =~= pv.take(i as int));
        }
        if hit {
            return Some(pairs[i].1.clone());
        }
    }
    proof {
        assert(pair_views(pairs@).take(0).len() == 0);
    }
    None
}

/// A CSS custom-property name character.
pub open spec fn is_name_char(c: char) -> bool {
    ('a' <= c <= 'z') || ('A' <= c <= 'Z') || ('0' <= c <= '9') || c == '_' || c == '-'
}

/// Length of the leading run of name characters.
pub open spec fn name_run(s: Seq<char>) -> nat
    decreases s.len(),
{
    if s.len() == 0 {
        0
    } else if is_name_char(s[0]) {
        1 + name_run(s.drop_first())
    } else {
        0
    }
}

/// Length of the leading run of ASCII whitespace.
pub open spec fn space_run(s: Seq<char>) -> nat
    decreases s.len(),
{
    if s.len() == 0 {
        0
    } else if crate::text::is_space(s[0]) {
        1 + space_run(s.drop_first())
    } else {
        0
    }
}

/// A custom-property declaration at the very start of `u`: two dashes, a
/// non-empty name, optional whitespace, a colon, at least one character
/// up to a semicolon.  Yields the name, the trimmed value, and how many
/// characters the declaration spans.
pub open spec fn css_decl_at(u: Seq<char>) -> Option<(Seq<char>, Seq<char>, int)> {
    if u.len() < 2 || u[0] != '-' || u[1] != '-' {
        None
    } else {
        let nrun = name_run(u.skip(2)) as int;
        if nrun == 0 {
            None
        } else {
            let colon_at = 2 + nrun + space_run(u.skip(2 + nrun));
            if colon_at >= u.len() || u[colon_at] != ':' {
                None
            } else {
                let vrel = upto_char(u.skip(colon_at + 1), ';') as int;
                if colon_at + 1 + vrel >= u.len() || vrel == 0 {
                    None
                } else {
                    Some(
                        (
                            u.subrange(2, 2 + nrun),
                            trim_spec(u.subrange(colon_at + 1, colon_at + 1 + vrel)),
                            colon_at + 2 + vrel,
                        ),
                    )
                }
            }
        }
    }
}

/// The prefix-run lengths never pass the end of the text.
proof fn lemma_runs_bounded(s: Seq<char>)
    ensures
        name_run(s) <= s.len(),
        space_run(s) <= s.len(),
        upto_char(s, ';') <= s.len(),
        upto_char(s, ',') <= s.len(),
    decreases s.len(),
{
    if s.len() > 0 {
        lemma_runs_bounded(s.drop_first());
    }
}

/// All custom-property declarations of a stylesheet, in order: the scan
/// starts a declaration at each leftmost match and resumes after it.
pub open spec fn css_vars(u: Seq<char>) -> Seq<(Seq<char>, Seq<char>)>
    decreases u.len(),
{
    if u.len() == 0 {
        Seq::empty()
    } else {
        match css_decl_at(u) {
            Some((n, v, consumed)) => {
                if 0 < consumed <= u.len() {
                    seq![(n, v)] + css_vars(u.skip(consumed))
                } else {
                    Seq::empty()
                }
            },
            None => css_vars(u.drop_first()),
        }
    }
}

/// Length of the leading run of name characters, from `from`.
fn scan_name_run(s: &str, from: usize) -> (n: usize)
    requires
        from <= s@.len(),
    ensures
        n == name_run(s@.skip(from as int)),
        from + n <= s@.len(),
{
    let len = s.unicode_len();
    let mut i: usize = from;
    while i < len
        invariant
            from <= i <= len,
            len == s@.len(),
            name_run(s@.skip(from as int)) == i - from + name_run(s@.skip(i as int)),
        decreases len - i,
    {
        let c = s.get_char(i);
        let ok = ('a' <= c && c <= 'z') || ('A' <= c && c <= 'Z') || ('0' <= c && c <= '9') || c
            == '_' || c == '-';
        let ghost pre = s@.skip(i as int);
        if !ok {
            proof {
                assert(name_run(pre) == 0);
            }
            return i - from;
        }
        i = i + 1;
        proof {
            assert(pre.drop_first() =~= s@.skip(i as int));
        }
    }
    proof {
        assert(s@.skip(i as int).len() == 0);
    }
    i - from
}

/// Length of the leading run of ASCII whitespace, from `from`.
fn scan_space_run(s: &str, from: usize) -> (n: usize)
    requires
        from <= s@.len(),
    ensures
        n == space_run(s@.skip(from as int)),
        from + n <= s@.len(),
{
    let len = s.unicode_len();
    let mut i: usize = from;
    while i < len
        invariant
            from <= i <= len,
            len == s@.len(),
            space_run(s@.skip(from as int)) == i - from + space_run(s@.skip(i as int)),
        decreases len - i,
    {
        let c = s.get_char(i);
        let ghost pre = s@.skip(i as int);
        if !crate::text::is_space_char(c) {
            proof {
                assert(space_run(pre) == 0);
            }
            return i - from;
        }
        i = i + 1;
        proof {
            assert(pre.drop_first() =~= s@.skip(i as int));
        }
    }
    proof {
        assert(s@.skip(i as int).len() == 0);
    }
    i - from
}

/// Scan all custom-property declarations (`--name: value;`) out of a
/// stylesheet, in order of appearance.
pub fn extract_css_variables(contents: &str) -> (r: Vec<(String, String)>)
    ensures
        pair_views(r@) == css_vars(contents@),
{
    let len = contents.unicode_len();
    let mut out: Vec<(String, String)> = Vec::new();
    let mut pos: usize = 0;
    let ghost mut acc: Seq<(Seq<char>, Seq<char>)> = Seq::empty();
    proof {
        assert(contents@.skip(0) =~= contents@);
        assert(pair_views(out@) =~= acc);
        assert(acc + css_vars(contents@) =~= css_vars(contents@));
    }
    while pos < len
        invariant
            pos <= len,
            len == contents@.len(),
            pair_views(out@) == acc,
            css_vars(contents@) == acc + css_vars(contents@.skip(pos as int)),
        decreases len - pos,
    {
        let ghost u = contents@.skip(pos as int);
        let mut matched = false;
        if pos + 1 < len && contents.get_char(pos) == '-' && contents.get_char(pos + 1) == '-' {
            let nrun = scan_name_run(contents, pos + 2);
            if nrun > 0 {
                let after_name = pos + 2 + nrun;
                let ws = scan_space_run(contents, after_name);
                let colon_at = after_name + ws;
                proof {
                    assert(u.skip(2) =~= contents@.skip(pos + 2));
                    assert(u.skip(2 + nrun) =~= contents@.skip(after_name as int));
                }
                if colon_at < len && contents.get_char(colon_at) == ':' {
                    let vstart = colon_at + 1;
                    match find_char_from(contents, ';', vstart) {
                        Some(semi) => {
                            proof {
                                lemma_find_upto(contents@.skip(vstart as int), ';');
                                assert(u.skip(colon_at - pos + 1) =~= contents@.skip(
                                    vstart as int,
                                ));
                            }
                            if semi > vstart {
                                let name = contents.substring_char(pos + 2, after_name).to_owned();
                                let value = trim_text(
                                    contents.substring_char(vstart, semi),
                                ).to_owned();
                                proof {
                                    assert(name@ =~= u.subrange(2, 2 + nrun));
                                    assert(contents@.subrange(vstart as int, semi as int)
                                        =~= u.subrange(
                                        colon_at - pos + 1,
                                        colon_at - pos + 1 + (semi - vstart),
                                    ));
                                    assert(css_decl_at(u) == Some(
                                        (name@, value@, semi + 1 - pos as int),
                                    ));
                                    assert(css_vars(u) == seq![(name@, value@)] + css_vars(
                                        u.skip(semi + 1 - pos),
                                    ));
                                    assert(u.skip(semi + 1 - pos) =~= contents@.skip(semi + 1));
                                    assert(pair_views(out@.push((name, value))) =~= acc.push(
                                        (name@, value@),
                                    ));
                                    assert(acc.push((name@, value@)) =~= acc + seq![
                                        (name@, value@),
                                    ]);
                                    assert((acc + seq![(name@, value@)]) + css_vars(
                                        contents@.skip(semi + 1),
                                    ) =~= acc + (seq![(name@, value@)] + css_vars(
                                        contents@.skip(semi + 1),
                                    )));
                                    acc = acc + seq![(name@, value@)];
                                }
                                out.push((name, value));
                                pos = semi + 1;
                                matched = true;
                            } else {
                                proof {
                                    assert(css_decl_at(u) is None);
                                }
                            }
                        },
                        None => {
                            proof {
                                lemma_find_upto(contents@.skip(vstart as int), ';');
                                lemma_runs_bounded(contents@.skip(vstart as int));
                                assert(u.skip(colon_at - pos + 1) =~= contents@.skip(
                                    vstart as int,
                                ));
                                assert(css_decl_at(u) is None);
                            }
                        },
                    }
                } else {
                    proof {
                        assert(css_decl_at(u) is None);
                    }
                }
            } else {
                proof {
                    assert(css_decl_at(u) is None);
                }
            }
        } else {
            proof {
                if pos + 1 < len {
                    assert(u.len() >= 2 && (u[0] != '-' || u[1] != '-'));
                } else {
                    assert(u.len() < 2);
                }
                assert(css_decl_at(u) is None);
            }
        }
        if !matched {
            proof {
                assert(css_vars(u) == css_vars(u.drop_first()));
                assert(u.drop_first() =~= contents@.skip(pos + 1));
            }
            pos = pos + 1;
        }
    }
    proof {
        assert(contents@.skip(pos as int).len() == 0);
        assert(acc + css_vars(contents@.skip(pos as int)) =~= acc);
    }
    out
}

/// The entry a source-to-target copy contributes: the target name bound
/// to the source's value, or nothing when the source is absent.
pub open spec fn copy_entry(
    css: Seq<(Seq<char>, Seq<char>)>,
    source_key: Seq<char>,
    target_key: Seq<char>,
) -> Seq<(Seq<char>, Seq<char>)> {
    match lookup(css, source_key) {
        Some(v) => seq![(target_key, v)],
        None => Seq::empty(),
    }
}

/// Copy the value bound to `source_key`, if any, onto `target_key`.
pub fn copy_if_present(
    source: &Vec<(String, String)>,
    target: &mut Vec<(String, String)>,
    source_key: &str,
    target_key: &str,
)
    ensures
        pair_views(final(target)@) == pair_views(old(target)@) + copy_entry(
            pair_views(source@),
            source_key@,
            target_key@,
        ),
{
    match lookup_var(source, source_key) {
        Some(v) => {
            let entry = (target_key.to_owned(), v);
            let ghost entry_view = (entry.0@, entry.1@);
            target.push(entry);
            proof {
                assert(pair_views(target@) =~= pair_views(old(target)@).push(entry_view));
                assert(pair_views(old(target)@).push(entry_view) =~= pair_views(old(target)@)
                    + copy_entry(pair_views(source@), source_key@, target_key@));
            }
        },
        None => {
            proof {
                assert(pair_views(target@) =~= pair_views(target@) + copy_entry(
                    pair_views(source@),
                    source_key@,
                    target_key@,
                ));
            }
        },
    }
}

/// The player variables derived from a stylesheet's palette: each known
/// palette name that is present contributes one binding, in this fixed
/// order.
pub open spec fn mapped_theme(css: Seq<(Seq<char>, Seq<char>)>) -> Seq<(Seq<char>, Seq<char>)> {
    copy_entry(css, "bg-4"@, "--miu-background-start"@) + copy_entry(
        css,
        "bg-3"@,
        "--miu-background-end"@,
    ) + copy_entry(css, "bg-3"@, "--miu-surface"@) + copy_entry(css, "bg-2"@, "--miu-surface-border"@)
        + copy_entry(css, "bg-1"@, "--miu-surface-shadow"@) + copy_entry(
        css,
        "text-2"@,
        "--miu-text-primary"@,
    ) + copy_entry(css, "text-3"@, "--miu-text-muted"@) + copy_entry(
        css,
        "text-4"@,
        "--miu-text-secondary"@,
    ) + copy_entry(css, "text-5"@, "--miu-text-dim"@) + copy_entry(css, "text-5"@, "--miu-placeholder"@)
        + copy_entry(css, "accent-2"@, "--miu-accent"@) + copy_entry(css, "accent-1"@, "--miu-success"@)
        + copy_entry(css, "accent-new"@, "--miu-error"@) + copy_entry(
        css,
        "accent-4"@,
        "--miu-accent-soft-hover"@,
    ) + copy_entry(css, "accent-5"@, "--miu-accent-soft-active"@) + copy_entry(
        css,
        "hover"@,
        "--miu-accent-soft"@,
    ) + copy_entry(css, "bg-2"@, "--miu-scroll-track"@) + copy_entry(
        css,
        "accent-4"@,
        "--miu-scroll-thumb"@,
    ) + copy_entry(css, "accent-5"@, "--miu-scroll-thumb-hover"@) + copy_entry(
        css,
        "accent-2"@,
        "--miu-slider-thumb"@,
    ) + copy_entry(css, "bg-2"@, "--miu-slider-track"@) + copy_entry(
        css,
        "text-0"@,
        "--miu-button-foreground"@,
    ) + copy_entry(css, "bg-1"@, "--miu-overlay"@)
}

/// Map the palette names of a scanned stylesheet onto this player's own
/// variables.
pub fn map_css_to_miu(css_variables: &Vec<(String, String)>) -> (r: Vec<(String, String)>)
    ensures
        pair_views(r@) == mapped_theme(pair_views(css_variables@)),
{
    let mut miu_vars: Vec<(String, String)> = Vec::new();
    copy_if_present(css_variables, &mut miu_vars, "bg-4", "--miu-background-start");
    copy_if_present(css_variables, &mut miu_vars, "bg-3", "--miu-background-end");
    copy_if_present(css_variables, &mut miu_vars, "bg-3", "--miu-surface");
    copy_if_present(css_variables, &mut miu_vars, "bg-2", "--miu-surface-border");
    copy_if_present(css_variables, &mut miu_vars, "bg-1", "--miu-surface-shadow");
    copy_if_present(css_variables, &mut miu_vars, "text-2", "--miu-text-primary");
    copy_if_present(css_variables, &mut miu_vars, "text-3", "--miu-text-muted");
    copy_if_present(css_variables, &mut miu_vars, "text-4", "--miu-text-secondary");
    copy_if_present(css_variables, &mut miu_vars, "text-5", "--miu-text-dim");
    copy_if_present(css_variables, &mut miu_vars, "text-5", "--miu-placeholder");
    copy_if_present(css_variables, &mut miu_vars, "accent-2", "--miu-accent");
    copy_if_present(css_variables, &mut miu_vars, "accent-1", "--miu-success");
    copy_if_present(css_variables, &mut miu_vars, "accent-new", "--miu-error");
    copy_if_present(css_variables, &mut miu_vars, "accent-4", "--miu-accent-soft-hover");
    copy_if_present(css_variables, &mut miu_vars, "accent-5", "--miu-accent-soft-active");
    copy_if_present(css_variables, &mut miu_vars, "hover", "--miu-accent-soft");
    copy_if_present(css_variables, &mut miu_vars, "bg-2", "--miu-scroll-track");
    copy_if_present(css_variables, &mut miu_vars, "accent-4", "--miu-scroll-thumb");
    copy_if_present(css_variables, &mut miu_vars, "accent-5", "--miu-scroll-thumb-hover");
    copy_if_present(css_variables, &mut miu_vars, "accent-2", "--miu-slider-thumb");
    copy_if_present(css_variables, &mut miu_vars, "bg-2", "--miu-slider-track");
    copy_if_present(css_variables, &mut miu_vars, "text-0", "--miu-button-foreground");
    copy_if_present(css_variables, &mut miu_vars, "bg-1", "--miu-overlay");
    proof {
        assert(pair_views(miu_vars@) =~= mapped_theme(pair_views(css_variables@)));
    }
    miu_vars
}

/// Theme overrides parsed out of one stylesheet.
#[derive(Debug)]
pub struct ThemeOverrides {
    /// Where the stylesheet came from.
    pub source: String,
    /// The derived player variables.
    pub variables: Vec<(String, String)>,
}

/// Parse a stylesheet into theme overrides: scan its custom properties
/// and map the known palette names; a stylesheet with no custom
/// properties, or none of the known names, yields nothing.
pub fn parse_css_theme(contents: &str, source: String) -> (r: Option<ThemeOverrides>)
    ensures
        ({
            let cv = css_vars(contents@);
            let mv = mapped_theme(cv);
            match r {
                Some(t) => cv.len() > 0 && mv.len() > 0 && t.source == source && pair_views(
                    t.variables@,
                ) == mv,
                None => cv.len() == 0 || mv.len() == 0,
            }
        }),
{
    let css_variables = extract_css_variables(contents);
    if css_variables.len() == 0 {
        proof {
            assert(pair_views(css_variables@).len() == css_variables@.len());
        }
        return None;
    }
    let variables = map_css_to_miu(&css_variables);
    if variables.len() == 0 {
        proof {
            assert(pair_views(variables@).len() == variables@.len());
        }
        return None;
    }
    proof {
        assert(pair_views(css_variables@).len() == css_variables@.len());
        assert(pair_views(variables@).len() == variables@.len());
    }
    Some(ThemeOverrides { source, variables })
}

} // verus!
