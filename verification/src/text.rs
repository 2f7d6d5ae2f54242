//! Fixed-width text primitives: the whitespace-aware overlay merge and the
//! left / right / center alignment helpers that every widget line is built
//! from.

use vstd::prelude::*;

verus! {

/// Column width of the info lines and of the title block.
pub const INFO_WIDTH: usize = 35;

/// Column width of the main timer text (the fraction is appended unpadded).
pub const TIMER_WIDTH: usize = 32;

/// Column width of the delta and time columns of the splits table.
pub const COLUMN_WIDTH: usize = 9;

/// A character counts as blank exactly when it has the Unicode
/// `White_Space` property.
pub open spec fn is_blank(c: char) -> bool {
    let u = c as u32;
    ||| u == 0x09
    ||| u == 0x0A
    ||| u == 0x0B
    ||| u == 0x0C
    ||| u == 0x0D
    ||| u == 0x20
    ||| u == 0x85
    ||| u == 0xA0
    ||| u == 0x1680
    ||| (0x2000 <= u && u <= 0x200A)
    ||| u == 0x2028
    ||| u == 0x2029
    ||| u == 0x202F
    ||| u == 0x205F
    ||| u == 0x3000
}

/// Runtime test for [`is_blank`].
pub fn blank(c: char) -> (r: bool)
    ensures
        r == is_blank(c),
{
    let u = c as u32;
    u == 0x09 || u == 0x0A || u == 0x0B || u == 0x0C || u == 0x0D || u == 0x20 || u == 0x85
        || u == 0xA0 || u == 0x1680 || (0x2000 <= u && u <= 0x200A) || u == 0x2028 || u == 0x2029
        || u == 0x202F || u == 0x205F || u == 0x3000
}

/// Character-wise overlay: at each position the overlay character wins
/// unless it is blank, in which case the base character shows through.
pub open spec fn merged(base: Seq<char>, overlay: Seq<char>) -> Seq<char> {
    Seq::new(base.len(), |i: int| if is_blank(overlay[i]) { base[i] } else { overlay[i] })
}

/// A run of `n` spaces.
pub open spec fn spaces(n: nat) -> Seq<char> {
    Seq::new(n, |i: int| ' ')
}

/// `s` right-aligned in a field of `width` characters; a string already at
/// or over the width is kept as it is.
pub open spec fn aligned_right(s: Seq<char>, width: nat) -> Seq<char> {
    if s.len() >= width {
        s
    } else {
        spaces((width - s.len()) as nat) + s
    }
}

/// `s` left-aligned in a field of `width` characters.
pub open spec fn aligned_left(s: Seq<char>, width: nat) -> Seq<char> {
    if s.len() >= width {
        s
    } else {
        s + spaces((width - s.len()) as nat)
    }
}

/// `s` centered in a field of `width` characters; when the padding is odd
/// the extra space goes to the right.
pub open spec fn aligned_center(s: Seq<char>, width: nat) -> Seq<char> {
    if s.len() >= width {
        s
    } else {
        let pad = (width - s.len()) as nat;
        let left = pad / 2;
        spaces(left) + s + spaces((pad - left) as nat)
    }
}

/// Relies on `str::chars`: yields exactly the characters of the string, in
/// order (the view of a `str` is that character sequence).
#[verifier::external_body]
fn to_chars(s: &str) -> (r: Vec<char>)
    ensures
        r@ == s@,
{
    s.chars().collect()
}

/// Relies on `String: FromIterator<char>`: collects exactly the given
/// characters, in order, into a string.
#[verifier::external_body]
pub(crate) fn chars_string(v: &Vec<char>) -> (r: String)
    ensures
        r@ == v@,
{
    v.iter().collect()
}

/// Appends `n` spaces.
fn push_spaces(v: &mut Vec<char>, n: usize)
    ensures
        final(v)@ == old(v)@ + spaces(n as nat),
{
    let mut i: usize = 0;
    while i < n
        invariant
            i <= n,
            v@ == old(v)@ + spaces(i as nat),
        decreases n - i,
    {
        v.push(' ');
        assert(old(v)@ + spaces(i as nat) + seq![' '] =~= old(v)@ + spaces((i + 1) as nat));
        i = i + 1;
    }
    assert(v@ =~= old(v)@ + spaces(n as nat));
}

/// Appends every character of `s`.
fn push_all(v: &mut Vec<char>, s: &Vec<char>)
    ensures
        final(v)@ == old(v)@ + s@,
{
    let mut i: usize = 0;
    while i < s.len()
        invariant
            i <= s.len(),
            v@ == old(v)@ + s@.take(i as int),
        decreases s.len() - i,
    {
        v.push(s[i]);
        assert(old(v)@ + s@.take(i as int) + seq![s@[i as int]] =~= old(v)@ + s@.take(
            i as int + 1,
        ));
        i = i + 1;
    }
    assert(v@ =~= old(v)@ + s@);
}

/// Right-justifies `s` in a field of `width` characters.
pub fn align_right(s: &str, width: usize) -> (r: String)
    ensures
        r@ == aligned_right(s@, width as nat),
{
    let cs = to_chars(s);
    if cs.len() >= width {
        return String::from_str(s);
    }
    let mut out: Vec<char> = Vec::new();
    push_spaces(&mut out, width - cs.len());
    push_all(&mut out, &cs);
    chars_string(&out)
}

/// Left-justifies `s` in a field of `width` characters.
pub fn align_left(s: &str, width: usize) -> (r: String)
    ensures
        r@ == aligned_left(s@, width as nat),
{
    let cs = to_chars(s);
    if cs.len() >= width {
        return String::from_str(s);
    }
    let mut out: Vec<char> = Vec::new();
    push_all(&mut out, &cs);
    push_spaces(&mut out, width - cs.len());
    chars_string(&out)
}

/// Centers `s` in a field of `width` characters.
pub fn align_center(s: &str, width: usize) -> (r: String)
    ensures
        r@ == aligned_center(s@, width as nat),
{
    let cs = to_chars(s);
    if cs.len() >= width {
        return String::from_str(s);
    }
    let pad = width - cs.len();
    let left = pad / 2;
    let mut out: Vec<char> = Vec::new();
    push_spaces(&mut out, left);
    push_all(&mut out, &cs);
    push_spaces(&mut out, pad - left);
    chars_string(&out)
}

/// Merges two fixed-width lines of equal length: per position, the overlay
/// character wins unless it is blank. Mismatched widths are a programming
/// error and are excluded up front.
pub fn merge(base: &str, overlay: &str) -> (r: String)
    requires
        base@.len() == overlay@.len(),
    ensures
        r@ == merged(base@, overlay@),
{
    let b = to_chars(base);
    let o = to_chars(overlay);
    let mut out: Vec<char> = Vec::new();
    let mut i: usize = 0;
    while i < b.len()
        invariant
            i <= b.len(),
            b@ == base@,
            o@ == overlay@,
            b@.len() == o@.len(),
            out@ == merged(b@, o@).take(i as int),
        decreases b.len() - i,
    {
        let c = if blank(o[i]) {
            b[i]
        } else {
            o[i]
        };
        out.push(c);
        assert(merged(b@, o@).take(i as int) + seq![merged(b@, o@)[i as int]] =~= merged(
            b@,
            o@,
        ).take(i as int + 1));
        i = i + 1;
    }
    assert(out@ =~= merged(base@, overlay@));
    chars_string(&out)
}

/// One info line: the label left-justified and the value right-justified,
/// each in a 35-column field, overlaid so that the value wins where it has
/// visible characters.
pub fn format_info_text(text: &str, value: &str) -> (r: String)
    requires
        text@.len() <= INFO_WIDTH,
        value@.len() <= INFO_WIDTH,
    ensures
        r@ == merged(
            aligned_left(text@, INFO_WIDTH as nat),
            aligned_right(value@, INFO_WIDTH as nat),
        ),
{
    let label = align_left(text, INFO_WIDTH);
    let val = align_right(value, INFO_WIDTH);
    merge(label.as_str(), val.as_str())
}

/// `s` cut to at most `width` characters.
pub open spec fn clamped(s: Seq<char>, width: nat) -> Seq<char> {
    if s.len() <= width {
        s
    } else {
        s.take(width as int)
    }
}

/// Cuts `s` to at most `width` characters.
pub fn clamp_width(s: &str, width: usize) -> (r: String)
    ensures
        r@ == clamped(s@, width as nat),
{
    let cs = to_chars(s);
    if cs.len() <= width {
        return String::from_str(s);
    }
    let mut out: Vec<char> = Vec::new();
    let mut i: usize = 0;
    while i < width
        invariant
            i <= width < cs@.len(),
            cs@ == s@,
            out@ == s@.take(i as int),
        decreases width - i,
    {
        out.push(cs[i]);
        assert(s@.take(i as int) + seq![s@[i as int]] =~= s@.take(i as int + 1));
        i = i + 1;
    }
    chars_string(&out)
}

/// The character of one decimal digit.
pub open spec fn digit_char(d: int) -> char {
    if d == 0 {
        '0'
    } else if d == 1 {
        '1'
    } else if d == 2 {
        '2'
    } else if d == 3 {
        '3'
    } else if d == 4 {
        '4'
    } else if d == 5 {
        '5'
    } else if d == 6 {
        '6'
    } else if d == 7 {
        '7'
    } else if d == 8 {
        '8'
    } else {
        '9'
    }
}

/// The decimal representation of `n`, without leading zeros (except for the
/// number zero itself).
pub open spec fn decimal(n: nat) -> Seq<char>
    decreases n,
{
    if n < 10 {
        seq![digit_char(n as int)]
    } else {
        decimal(n / 10) + seq![digit_char((n % 10) as int)]
    }
}

/// Powers of ten.
pub open spec fn pow10(k: nat) -> nat
    decreases k,
{
    if k == 0 {
        1
    } else {
        10 * pow10((k - 1) as nat)
    }
}

/// A number under `pow10(k)` has at most `k` decimal digits.
pub proof fn lemma_decimal_len(n: nat, k: nat)
    requires
        k >= 1,
        n < pow10(k),
    ensures
        decimal(n).len() <= k,
    decreases n,
{
    if n >= 10 {
        assert(pow10(1) == 10) by {
            reveal_with_fuel(pow10, 2);
        }
        if k == 1 {
            assert(false);
        }
        assert(pow10(k) == 10 * pow10((k - 1) as nat));
        assert(n / 10 < pow10((k - 1) as nat)) by (nonlinear_arith)
            requires
                n < 10 * pow10((k - 1) as nat),
        ;
        lemma_decimal_len(n / 10, (k - 1) as nat);
    }
}

fn digit_of(d: u32) -> (c: char)
    requires
        d < 10,
    ensures
        c == digit_char(d as int),
{
    match d {
        0 => '0',
        1 => '1',
        2 => '2',
        3 => '3',
        4 => '4',
        5 => '5',
        6 => '6',
        7 => '7',
        8 => '8',
        _ => '9',
    }
}

fn push_decimal(n: u32, out: &mut Vec<char>)
    ensures
        final(out)@ == old(out)@ + decimal(n as nat),
    decreases n,
{
    if n < 10 {
        out.push(digit_of(n));
        assert(out@ =~= old(out)@ + decimal(n as nat));
    } else {
        push_decimal(n / 10, out);
        out.push(digit_of(n % 10));
        assert(out@ =~= old(out)@ + decimal(n as nat));
    }
}

/// The decimal text of a 32-bit count; it is at most ten characters long.
pub fn u32_decimal(n: u32) -> (r: String)
    ensures
        r@ == decimal(n as nat),
        r@.len() <= 10,
{
    let mut v: Vec<char> = Vec::new();
    push_decimal(n, &mut v);
    proof {
        assert(pow10(10) == 10000000000) by {
            reveal_with_fuel(pow10, 11);
        }
        lemma_decimal_len(n as nat, 10);
    }
    chars_string(&v)
}

/// Overlaying a line of nothing but blanks changes nothing: the base shows
/// through at every position.
pub proof fn lemma_merge_blank_overlay(base: Seq<char>, overlay: Seq<char>)
    requires
        base.len() == overlay.len(),
        forall|i: int| 0 <= i < overlay.len() ==> is_blank(overlay[i]),
    ensures
        merged(base, overlay) == base,
{
    assert(merged(base, overlay) =~= base);
}

/// An overlay with no blank anywhere replaces the base entirely.
pub proof fn lemma_merge_opaque_overlay(base: Seq<char>, overlay: Seq<char>)
    requires
        base.len() == overlay.len(),
        forall|i: int| 0 <= i < overlay.len() ==> !is_blank(overlay[i]),
    ensures
        merged(base, overlay) == overlay,
{
    assert(merged(base, overlay) =~= overlay);
}

} // verus!
