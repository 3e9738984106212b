//! Small verified text utilities shared by the protocol and theme logic:
//! ASCII whitespace trimming, character search, case-insensitive
//! comparison, and decimal / hexadecimal conversions.
//!
//! Whitespace here means the ASCII whitespace characters; the wire formats
//! and configuration values this library reads use no other kind.

use vstd::prelude::*;

verus! {

/// ASCII whitespace.
pub open spec fn is_space(c: char) -> bool {
    c == ' ' || c == '\t' || c == '\n' || c == '\r' || c == '\u{b}' || c == '\u{c}'
}

/// `s` with leading ASCII whitespace removed.
pub open spec fn trim_start_spec(s: Seq<char>) -> Seq<char>
    decreases s.len(),
{
    if s.len() == 0 {
        s
    } else if is_space(s[0]) {
        trim_start_spec(s.drop_first())
    } else {
        s
    }
}

/// `s` with trailing ASCII whitespace removed.
pub open spec fn trim_end_spec(s: Seq<char>) -> Seq<char>
    decreases s.len(),
{
    if s.len() == 0 {
        s
    } else if is_space(s.last()) {
        trim_end_spec(s.drop_last())
    } else {
        s
    }
}

/// `s` with leading and trailing ASCII whitespace removed.
pub open spec fn trim_spec(s: Seq<char>) -> Seq<char> {
    trim_end_spec(trim_start_spec(s))
}

/// `s` with every trailing occurrence of `c` removed.
pub open spec fn trim_end_char_spec(s: Seq<char>, c: char) -> Seq<char>
    decreases s.len(),
{
    if s.len() == 0 {
        s
    } else if s.last() == c {
        trim_end_char_spec(s.drop_last(), c)
    } else {
        s
    }
}

/// `s` with every leading occurrence of `c` removed.
pub open spec fn trim_start_char_spec(s: Seq<char>, c: char) -> Seq<char>
    decreases s.len(),
{
    if s.len() == 0 {
        s
    } else if s[0] == c {
        trim_start_char_spec(s.drop_first(), c)
    } else {
        s
    }
}

/// Index of the first occurrence of `c` in `s`, if any.
pub open spec fn find_char_spec(s: Seq<char>, c: char) -> Option<int>
    decreases s.len(),
{
    if s.len() == 0 {
        None
    } else if s[0] == c {
        Some(0int)
    } else {
        match find_char_spec(s.drop_first(), c) {
            Some(i) => Some(i + 1),
            None => None,
        }
    }
}

/// The two characters are equal up to ASCII case.
pub open spec fn chars_eq_nocase(a: char, b: char) -> bool {
    a == b || ('A' <= a <= 'Z' && b as int == a as int + 32) || ('A' <= b <= 'Z' && a as int == b
        as int + 32)
}

/// The two texts are equal up to ASCII case.
pub open spec fn eq_nocase(a: Seq<char>, b: Seq<char>) -> bool {
    a.len() == b.len() && (forall|i: int| 0 <= i < a.len() ==> chars_eq_nocase(a[i], b[i]))
}

/// Decimal digit.
pub open spec fn is_dec_digit(c: char) -> bool {
    '0' <= c <= '9'
}

/// Numeric value of a decimal digit character.
pub open spec fn digit_val(c: char) -> int {
    c as int - '0' as int
}

/// All characters are decimal digits.
pub open spec fn all_dec_digits(s: Seq<char>) -> bool {
    forall|i: int| 0 <= i < s.len() ==> is_dec_digit(#[trigger] s[i])
}

/// Numeric value of a string of decimal digits, most significant first.
pub open spec fn dec_val(s: Seq<char>) -> int
    decreases s.len(),
{
    if s.len() == 0 {
        0
    } else {
        dec_val(s.drop_last()) * 10 + digit_val(s.last())
    }
}

/// Character for a decimal digit value.
pub open spec fn dec_digit_char(d: int) -> char {
    if d == 0 {
        '0'
    } else if d == 1 {
        '1'
    } else if d == 2 {
        '2'
    } else if d == 3 {
        '3'
    } else if d == 4 {
        '4'
    } else if d == 5 {
        '5'
    } else if d == 6 {
        '6'
    } else if d == 7 {
        '7'
    } else if d == 8 {
        '8'
    } else {
        '9'
    }
}

/// Shortest decimal rendering of a non-negative number.
pub open spec fn dec_of(n: int) -> Seq<char>
    decreases n,
{
    if n < 10 {
        seq![dec_digit_char(n)]
    } else {
        dec_of(n / 10).push(dec_digit_char(n % 10))
    }
}

/// Character for a hexadecimal digit value, lower case.
pub open spec fn hex_digit_char(d: int) -> char {
    if d < 10 {
        dec_digit_char(d)
    } else if d == 10 {
        'a'
    } else if d == 11 {
        'b'
    } else if d == 12 {
        'c'
    } else if d == 13 {
        'd'
    } else if d == 14 {
        'e'
    } else {
        'f'
    }
}

/// Two lower-case hexadecimal digits of a byte value.
pub open spec fn hex_byte(v: int) -> Seq<char> {
    seq![hex_digit_char(v / 16), hex_digit_char(v % 16)]
}

/// A digit string of decimal digits is worth at least its prefix.
proof fn lemma_dec_val_bounds(s: Seq<char>)
    requires
        all_dec_digits(s),
    ensures
        dec_val(s) >= 0,
    decreases s.len(),
{
    if s.len() > 0 {
        assert(all_dec_digits(s.drop_last())) by {
            assert(forall|i: int|
                0 <= i < s.len() - 1 ==> is_dec_digit(#[trigger] s.drop_last()[i]) == is_dec_digit(
                    s[i],
                ));
        }
        lemma_dec_val_bounds(s.drop_last());
    }
}

/// Extending a digit string never decreases its value.
proof fn lemma_dec_val_prefix_le(s: Seq<char>, i: int)
    requires
        all_dec_digits(s),
        0 <= i <= s.len(),
    ensures
        dec_val(s.take(i)) <= dec_val(s),
    decreases s.len() - i,
{
    if i < s.len() {
        lemma_dec_val_prefix_le(s, i + 1);
        let t = s.take(i + 1);
        assert(t.drop_last() =~= s.take(i));
        assert(all_dec_digits(s.take(i))) by {
            assert(forall|j: int|
                0 <= j < i ==> is_dec_digit(#[trigger] s.take(i)[j]) == is_dec_digit(s[j]));
        }
        lemma_dec_val_bounds(s.take(i));
        assert(dec_val(t) == dec_val(s.take(i)) * 10 + digit_val(s[i]));
        assert(dec_val(s.take(i)) * 10 >= dec_val(s.take(i))) by (nonlinear_arith)
            requires
                dec_val(s.take(i)) >= 0,
        ;
    } else {
        assert(s.take(i) =~= s);
    }
}

/// Whether the texts are equal.
pub fn text_eq(a: &str, b: &str) -> (r: bool)
    ensures
        r == (a@ == b@),
{
    let la = a.unicode_len();
    let lb = b.unicode_len();
    if la != lb {
        return false;
    }
    let mut i: usize = 0;
    while i < la
        invariant
            i <= la,
            la == a@.len(),
            la == b@.len(),
            forall|j: int| 0 <= j < i ==> a@[j] == b@[j],
        decreases la - i,
    {
        if a.get_char(i) != b.get_char(i) {
            return false;
        }
        i = i + 1;
    }
    proof {
        assert(a@ =~= b@);
    }
    true
}

/// Whether the texts are equal up to ASCII case.
pub fn text_eq_nocase(a: &str, b: &str) -> (r: bool)
    ensures
        r == eq_nocase(a@, b@),
{
    let la = a.unicode_len();
    let lb = b.unicode_len();
    if la != lb {
        return false;
    }
    let mut i: usize = 0;
    while i < la
        invariant
            i <= la,
            la == a@.len(),
            la == b@.len(),
            forall|j: int| 0 <= j < i ==> chars_eq_nocase(a@[j], b@[j]),
        decreases la - i,
    {
        let ca = a.get_char(i);
        let cb = b.get_char(i);
        let va = ca as u32;
        let vb = cb as u32;
        let fold_a = if 65 <= va && va <= 90 {
            va + 32
        } else {
            va
        };
        let fold_b = if 65 <= vb && vb <= 90 {
            vb + 32
        } else {
            vb
        };
        if fold_a != fold_b {
            return false;
        }
        i = i + 1;
    }
    true
}

/// Whether `s` begins with `prefix`.
pub fn starts_with_text(s: &str, prefix: &str) -> (r: bool)
    ensures
        r == (s@.len() >= prefix@.len() && s@.take(prefix@.len() as int) == prefix@),
{
    let ls = s.unicode_len();
    let lp = prefix.unicode_len();
    if ls < lp {
        return false;
    }
    let mut i: usize = 0;
    while i < lp
        invariant
            i <= lp,
            lp <= ls,
            ls == s@.len(),
            lp == prefix@.len(),
            forall|j: int| 0 <= j < i ==> s@[j] == prefix@[j],
        decreases lp - i,
    {
        if s.get_char(i) != prefix.get_char(i) {
            proof {
                assert(s@.take(prefix@.len() as int)[i as int] != prefix@[i as int]);
            }
            return false;
        }
        i = i + 1;
    }
    proof {
        assert(s@.take(prefix@.len() as int) =~= prefix@);
    }
    true
}

/// Length of the prefix of `s` before the first occurrence of `c`;
/// the whole length when `c` is absent.
pub open spec fn upto_char(s: Seq<char>, c: char) -> nat
    decreases s.len(),
{
    if s.len() == 0 {
        0
    } else if s[0] == c {
        0
    } else {
        1 + upto_char(s.drop_first(), c)
    }
}

/// The prefix length agrees with the search result.
pub proof fn lemma_find_upto(s: Seq<char>, c: char)
    ensures
        match find_char_spec(s, c) {
            Some(i) => upto_char(s, c) == i,
            None => upto_char(s, c) == s.len(),
        },
    decreases s.len(),
{
    if s.len() > 0 && s[0] != c {
        lemma_find_upto(s.drop_first(), c);
    }
}

/// A search that finds nothing means the character is absent.
pub proof fn lemma_find_char_contains(s: Seq<char>, c: char)
    ensures
        (find_char_spec(s, c) is Some) <==> s.contains(c),
    decreases s.len(),
{
    if s.len() > 0 {
        lemma_find_char_contains(s.drop_first(), c);
        if s[0] != c {
            assert(s.contains(c) <==> s.drop_first().contains(c)) by {
                if s.contains(c) {
                    let i = choose|i: int| 0 <= i < s.len() && s[i] == c;
                    assert(s.drop_first()[i - 1] == c);
                }
                if s.drop_first().contains(c) {
                    let i = choose|i: int| 0 <= i < s.drop_first().len() && s.drop_first()[i] == c;
                    assert(s[i + 1] == c);
                }
            }
        }
    }
}

/// Whether `s` ends with `suffix`.
pub fn ends_with_text(s: &str, suffix: &str) -> (r: bool)
    ensures
        r == (s@.len() >= suffix@.len() && s@.skip(s@.len() - suffix@.len()) == suffix@),
{
    let ls = s.unicode_len();
    let lp = suffix.unicode_len();
    if ls < lp {
        return false;
    }
    let base = ls - lp;
    let mut i: usize = 0;
    while i < lp
        invariant
            i <= lp,
            base == ls - lp,
            lp <= ls,
            ls == s@.len(),
            lp == suffix@.len(),
            forall|j: int| 0 <= j < i ==> s@[base + j] == suffix@[j],
        decreases lp - i,
    {
        if s.get_char(base + i) != suffix.get_char(i) {
            proof {
                assert(s@.skip(base as int)[i as int] != suffix@[i as int]);
            }
            return false;
        }
        i = i + 1;
    }
    proof {
        assert(s@.skip(base as int) =~= suffix@);
    }
    true
}

/// First occurrence of `c` in `s` at or after `from`.
pub fn find_char_from(s: &str, c: char, from: usize) -> (r: Option<usize>)
    requires
        from <= s@.len(),
    ensures
        match r {
            Some(i) => from <= i < s@.len() && s@[i as int] == c && find_char_spec(
                s@.skip(from as int),
                c,
            ) == Some(i - from),
            None => find_char_spec(s@.skip(from as int), c) is None,
        },
{
    let len = s.unicode_len();
    let mut i: usize = from;
    while i < len
        invariant
            from <= i <= len,
            len == s@.len(),
            find_char_spec(s@.skip(from as int), c) == (match find_char_spec(
                s@.skip(i as int),
                c,
            ) {
                Some(k) => Some(k + i - from),
                None => None::<int>,
            }),
        decreases len - i,
    {
        let ghost pre = s@.skip(i as int);
        if s.get_char(i) == c {
            return Some(i);
        }
        i = i + 1;
        proof {
            assert(pre.drop_first() =~= s@.skip(i as int));
        }
    }
    proof {
        assert(s@.skip(i as int).len() == 0);
    }
    None
}

/// `s` without leading and trailing ASCII whitespace.
pub fn trim_text<'a>(s: &'a str) -> (r: &'a str)
    ensures
        r@ == trim_spec(s@),
{
    let len = s.unicode_len();
    let mut start: usize = 0;
    proof {
        assert(s@.skip(0) =~= s@);
    }
    while start < len && is_space_char(s.get_char(start))
        invariant
            start <= len,
            len == s@.len(),
            trim_start_spec(s@) == trim_start_spec(s@.skip(start as int)),
        decreases len - start,
    {
        let ghost pre = s@.skip(start as int);
        start = start + 1;
        proof {
            assert(pre.drop_first() =~= s@.skip(start as int));
        }
    }
    proof {
        if start < len {
            assert(trim_start_spec(s@) =~= s@.skip(start as int));
        } else {
            assert(s@.skip(start as int).len() == 0);
            assert(trim_start_spec(s@) =~= s@.skip(start as int));
        }
    }
    let mut end: usize = len;
    proof {
        assert(s@.subrange(start as int, len as int) =~= s@.skip(start as int));
    }
    while end > start && is_space_char(s.get_char(end - 1))
        invariant
            start <= end <= len,
            len == s@.len(),
            trim_start_spec(s@) == s@.skip(start as int),
            trim_end_spec(s@.subrange(start as int, end as int)) == trim_end_spec(
                trim_start_spec(s@),
            ),
        decreases end,
    {
        let ghost pre = s@.subrange(start as int, end as int);
        end = end - 1;
        proof {
            assert(pre.drop_last() =~= s@.subrange(start as int, end as int));
        }
    }
    proof {
        let t = s@.subrange(start as int, end as int);
        if end > start {
            assert(!is_space(t.last()));
            assert(trim_end_spec(t) =~= t);
        } else {
            assert(t.len() == 0);
            assert(trim_end_spec(t) =~= t);
        }
        assert(s@.skip(start as int).subrange(0, end - start) =~= t);
    }
    let whole = s.substring_char(start, len);
    let r = whole.substring_char(0, end - start);
    r
}

/// Whether the character is ASCII whitespace.
pub fn is_space_char(c: char) -> (r: bool)
    ensures
        r == is_space(c),
{
    c == ' ' || c == '\t' || c == '\n' || c == '\r' || c == '\u{b}' || c == '\u{c}'
}

/// `s` without leading ASCII whitespace.
pub fn trim_start_text<'a>(s: &'a str) -> (r: &'a str)
    ensures
        r@ == trim_start_spec(s@),
{
    let len = s.unicode_len();
    let mut start: usize = 0;
    proof {
        assert(s@.skip(0) =~= s@);
    }
    while start < len && is_space_char(s.get_char(start))
        invariant
            start <= len,
            len == s@.len(),
            trim_start_spec(s@) == trim_start_spec(s@.skip(start as int)),
        decreases len - start,
    {
        let ghost pre = s@.skip(start as int);
        start = start + 1;
        proof {
            assert(pre.drop_first() =~= s@.skip(start as int));
        }
    }
    proof {
        let t = s@.skip(start as int);
        assert(trim_start_spec(t) =~= t);
    }
    s.substring_char(start, len)
}

/// `s` without trailing occurrences of `c`.
pub fn trim_end_char_text<'a>(s: &'a str, c: char) -> (r: &'a str)
    ensures
        r@ == trim_end_char_spec(s@, c),
{
    let len = s.unicode_len();
    let mut end: usize = len;
    proof {
        assert(s@.take(len as int) =~= s@);
    }
    while end > 0 && s.get_char(end - 1) == c
        invariant
            end <= len,
            len == s@.len(),
            trim_end_char_spec(s@.take(end as int), c) == trim_end_char_spec(s@, c),
        decreases end,
    {
        let ghost pre = s@.take(end as int);
        end = end - 1;
        proof {
            assert(pre.drop_last() =~= s@.take(end as int));
        }
    }
    proof {
        let t = s@.take(end as int);
        assert(trim_end_char_spec(t, c) =~= t);
    }
    s.substring_char(0, end)
}

/// `s` without leading occurrences of `c`.
pub fn trim_start_char_text<'a>(s: &'a str, c: char) -> (r: &'a str)
    ensures
        r@ == trim_start_char_spec(s@, c),
{
    let len = s.unicode_len();
    let mut start: usize = 0;
    proof {
        assert(s@.skip(0) =~= s@);
    }
    while start < len && s.get_char(start) == c
        invariant
            start <= len,
            len == s@.len(),
            trim_start_char_spec(s@.skip(start as int), c) == trim_start_char_spec(s@, c),
        decreases len - start,
    {
        let ghost pre = s@.skip(start as int);
        start = start + 1;
        proof {
            assert(pre.drop_first() =~= s@.skip(start as int));
        }
    }
    proof {
        let t = s@.skip(start as int);
        assert(trim_start_char_spec(t, c) =~= t);
    }
    s.substring_char(start, len)
}

/// Parse an unsigned decimal number; `None` when the text is empty, holds
/// a non-digit, or the value does not fit.
pub fn parse_u64(s: &str) -> (r: Option<u64>)
    ensures
        match r {
            Some(v) => s@.len() > 0 && all_dec_digits(s@) && dec_val(s@) == v,
            None => s@.len() == 0 || !all_dec_digits(s@) || dec_val(s@) > u64::MAX,
        },
{
    let len = s.unicode_len();
    if len == 0 {
        return None;
    }
    let mut value: u64 = 0;
    let mut i: usize = 0;
    while i < len
        invariant
            i <= len,
            len == s@.len(),
            all_dec_digits(s@.take(i as int)),
            value == dec_val(s@.take(i as int)),
        decreases len - i,
    {
        let c = s.get_char(i);
        if c < '0' || c > '9' {
            return None;
        }
        let d = c as u32 - '0' as u32;
        let next = value.checked_mul(10);
        let ghost before = s@.take(i as int);
        proof {
            assert(s@.take(i + 1).drop_last() =~= before);
        }
        match next {
            None => {
                proof {
                    assert(dec_val(s@.take(i + 1)) > u64::MAX);
                    if all_dec_digits(s@) {
                        lemma_dec_val_prefix_le(s@, i + 1);
                    }
                }
                return None;
            },
            Some(m) => {
                match m.checked_add(d as u64) {
                    None => {
                        proof {
                            assert(dec_val(s@.take(i + 1)) > u64::MAX);
                            if all_dec_digits(s@) {
                                lemma_dec_val_prefix_le(s@, i + 1);
                            }
                        }
                        return None;
                    },
                    Some(v) => {
                        value = v;
                    },
                }
            },
        }
        i = i + 1;
    }
    proof {
        assert(s@.take(len as int) =~= s@);
    }
    Some(value)
}

/// Parse an unsigned decimal byte value; `None` when the text is empty,
/// holds a non-digit, or the value exceeds 255.
pub fn parse_u8(s: &str) -> (r: Option<u8>)
    ensures
        match r {
            Some(v) => s@.len() > 0 && all_dec_digits(s@) && dec_val(s@) == v,
            None => s@.len() == 0 || !all_dec_digits(s@) || dec_val(s@) > 255,
        },
{
    match parse_u64(s) {
        Some(v) => {
            if v <= 255 {
                Some(v as u8)
            } else {
                None
            }
        },
        None => None,
    }
}

/// The one-character string for a decimal digit.
fn digit_text(d: u64) -> (r: &'static str)
    requires
        d < 10,
    ensures
        r@ =~= seq![dec_digit_char(d as int)],
{
    if d == 0 {
        let r = "0";
        proof {
            reveal_strlit("0");
        }
        r
    } else if d == 1 {
        let r = "1";
        proof {
            reveal_strlit("1");
        }
        r
    } else if d == 2 {
        let r = "2";
        proof {
            reveal_strlit("2");
        }
        r
    } else if d == 3 {
        let r = "3";
        proof {
            reveal_strlit("3");
        }
        r
    } else if d == 4 {
        let r = "4";
        proof {
            reveal_strlit("4");
        }
        r
    } else if d == 5 {
        let r = "5";
        proof {
            reveal_strlit("5");
        }
        r
    } else if d == 6 {
        let r = "6";
        proof {
            reveal_strlit("6");
        }
        r
    } else if d == 7 {
        let r = "7";
        proof {
            reveal_strlit("7");
        }
        r
    } else if d == 8 {
        let r = "8";
        proof {
            reveal_strlit("8");
        }
        r
    } else {
        let r = "9";
        proof {
            reveal_strlit("9");
        }
        r
    }
}

/// The one-character string for a hexadecimal digit, lower case.
fn hex_digit_text(d: u8) -> (r: &'static str)
    requires
        d < 16,
    ensures
        r@ =~= seq![hex_digit_char(d as int)],
{
    if d < 10 {
        digit_text(d as u64)
    } else if d == 10 {
        let r = "a";
        proof {
            reveal_strlit("a");
        }
        r
    } else if d == 11 {
        let r = "b";
        proof {
            reveal_strlit("b");
        }
        r
    } else if d == 12 {
        let r = "c";
        proof {
            reveal_strlit("c");
        }
        r
    } else if d == 13 {
        let r = "d";
        proof {
            reveal_strlit("d");
        }
        r
    } else if d == 14 {
        let r = "e";
        proof {
            reveal_strlit("e");
        }
        r
    } else {
        let r = "f";
        proof {
            reveal_strlit("f");
        }
        r
    }
}

/// Append the decimal rendering of `n`.
pub fn push_decimal(out: &mut String, n: u64)
    ensures
        final(out)@ == old(out)@ + dec_of(n as int),
    decreases n,
{
    if n >= 10 {
        push_decimal(out, n / 10);
        out.append(digit_text(n % 10));
        proof {
            assert(out@ =~= old(out)@ + dec_of(n as int));
        }
    } else {
        out.append(digit_text(n));
        proof {
            assert(out@ =~= old(out)@ + dec_of(n as int));
        }
    }
}

/// Append the two-digit lower-case hexadecimal rendering of a byte.
pub fn push_hex_byte(out: &mut String, v: u8)
    ensures
        final(out)@ == old(out)@ + hex_byte(v as int),
{
    out.append(hex_digit_text(v / 16));
    out.append(hex_digit_text(v % 16));
    proof {
        assert(out@ =~= old(out)@ + hex_byte(v as int));
    }
}

} // verus!
