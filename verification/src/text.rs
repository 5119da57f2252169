//! Text helpers: decimal rendering, path joining and Unicode blank checks.

use vstd::prelude::*;

verus! {

/// The character that writes the decimal digit `d` (0 through 9).
pub open spec fn decimal_digit(d: int) -> char {
    if d == 0 {
        '0'
    } else if d == 1 {
        '1'
    } else if d == 2 {
        '2'
    } else if d == 3 {
        '3'
    } else if d == 4 {
        '4'
    } else if d == 5 {
        '5'
    } else if d == 6 {
        '6'
    } else if d == 7 {
        '7'
    } else if d == 8 {
        '8'
    } else {
        '9'
    }
}

/// The decimal writing of `n`, most significant digit first, without leading zeros.
pub open spec fn decimal(n: nat) -> Seq<char>
    decreases n,
{
    if n < 10 {
        seq![decimal_digit(n as int)]
    } else {
        decimal(n / 10).push(decimal_digit((n % 10) as int))
    }
}

/// The value of a decimal digit character (zero for any other character).
pub open spec fn digit_value(c: char) -> nat {
    if c == '1' {
        1
    } else if c == '2' {
        2
    } else if c == '3' {
        3
    } else if c == '4' {
        4
    } else if c == '5' {
        5
    } else if c == '6' {
        6
    } else if c == '7' {
        7
    } else if c == '8' {
        8
    } else if c == '9' {
        9
    } else {
        0
    }
}

/// Whether `c` is one of the characters `0` through `9`.
pub open spec fn is_decimal_digit(c: char) -> bool {
    '0' <= c <= '9'
}

/// The number that a sequence of decimal digits writes.
pub open spec fn digits_value(s: Seq<char>) -> nat
    decreases s.len(),
{
    if s.len() == 0 {
        0
    } else {
        digits_value(s.drop_last()) * 10 + digit_value(s.last())
    }
}

/// `decimal(n)` is a non-empty string of decimal digits that reads back as `n` and
/// has no leading zero unless it is `0` itself.
pub proof fn lemma_decimal_reads_back(n: nat)
    ensures
        decimal(n).len() >= 1,
        forall|i: int| 0 <= i < decimal(n).len() ==> is_decimal_digit(#[trigger] decimal(n)[i]),
        digits_value(decimal(n)) == n,
        n > 0 ==> decimal(n)[0] != '0',
    decreases n,
{
    if n < 10 {
        assert(decimal(n) =~= seq![decimal_digit(n as int)]);
        assert(decimal(n).drop_last() =~= Seq::<char>::empty());
        assert(digits_value(Seq::<char>::empty()) == 0);
        assert(digit_value(decimal_digit(n as int)) == n);
    } else {
        lemma_decimal_reads_back(n / 10);
        let d = (n % 10) as int;
        assert(decimal(n).drop_last() =~= decimal(n / 10));
        assert(digit_value(decimal_digit(d)) == d);
        assert(decimal(n).last() == decimal_digit(d));
        assert(n == (n / 10) * 10 + n % 10);
    }
}

fn digit_str(d: u16) -> (s: &'static str)
    requires
        d < 10,
    ensures
        s@ == seq![decimal_digit(d as int)],
{
    if d == 0 {
        proof { reveal_strlit("0"); }
        "0"
    } else if d == 1 {
        proof { reveal_strlit("1"); }
        "1"
    } else if d == 2 {
        proof { reveal_strlit("2"); }
        "2"
    } else if d == 3 {
        proof { reveal_strlit("3"); }
        "3"
    } else if d == 4 {
        proof { reveal_strlit("4"); }
        "4"
    } else if d == 5 {
        proof { reveal_strlit("5"); }
        "5"
    } else if d == 6 {
        proof { reveal_strlit("6"); }
        "6"
    } else if d == 7 {
        proof { reveal_strlit("7"); }
        "7"
    } else if d == 8 {
        proof { reveal_strlit("8"); }
        "8"
    } else {
        proof { reveal_strlit("9"); }
        "9"
    }
}

/// Writes `n` in decimal.
pub fn u16_to_decimal(n: u16) -> (s: String)
    ensures
        s@ == decimal(n as nat),
    decreases n,
{
    if n < 10 {
        String::from_str(digit_str(n))
    } else {
        let mut s = u16_to_decimal(n / 10);
        s.append(digit_str(n % 10));
        s
    }
}

/// The path `base` extended by `component`, as a Unix path join does: an absolute
/// component replaces the base, an empty base or one that already ends in a separator
/// takes the component as it is, and otherwise one `/` goes between them.
pub open spec fn path_join(base: Seq<char>, component: Seq<char>) -> Seq<char> {
    if component.len() > 0 && component[0] == '/' {
        component
    } else if base.len() == 0 || base.last() == '/' {
        base + component
    } else {
        base + seq!['/'] + component
    }
}

/// Joins `component` onto the path `base` (see `path_join`).
pub fn join_path(base: &str, component: &str) -> (res: String)
    ensures
        res@ == path_join(base@, component@),
{
    proof { reveal_strlit("/"); }
    let comp_len = component.unicode_len();
    if comp_len > 0 && component.get_char(0) == '/' {
        return String::from_str(component);
    }
    let base_len = base.unicode_len();
    let mut res = String::from_str(base);
    if !(base_len == 0 || base.get_char(base_len - 1) == '/') {
        res.append("/");
    }
    res.append(component);
    res
}

/// Whether `c` has the Unicode `White_Space` property, which is what Rust's
/// `char::is_whitespace` and `str::trim` go by.
pub open spec fn is_white_space(c: char) -> bool {
    let u = c as u32;
    ||| 0x09 <= u <= 0x0D
    ||| u == 0x20
    ||| u == 0x85
    ||| u == 0xA0
    ||| u == 0x1680
    ||| 0x2000 <= u <= 0x200A
    ||| u == 0x2028
    ||| u == 0x2029
    ||| u == 0x202F
    ||| u == 0x205F
    ||| u == 0x3000
}

/// Whether every character of `s` is white space, that is whether `s.trim()` is empty.
pub open spec fn is_blank(s: Seq<char>) -> bool {
    forall|i: int| 0 <= i < s.len() ==> is_white_space(#[trigger] s[i])
}

/// The code points of the Unicode `White_Space` property (Unicode's
/// `PropList.txt`), one by one.
pub open spec fn white_space_code_points() -> Set<u32> {
    set![
        0x0009u32, 0x000A, 0x000B, 0x000C, 0x000D, 0x0020, 0x0085, 0x00A0, 0x1680, 0x2000,
        0x2001, 0x2002, 0x2003, 0x2004, 0x2005, 0x2006, 0x2007, 0x2008, 0x2009, 0x200A,
        0x2028, 0x2029, 0x202F, 0x205F, 0x3000,
    ]
}

/// A character is white space exactly when its code point is one of the listed
/// `White_Space` code points; every other character, any letter or digit of any
/// script among them, is not.
pub proof fn lemma_white_space_is_the_listed_code_points(c: char)
    ensures
        is_white_space(c) <==> white_space_code_points().contains(c as u32),
{
}

/// A text is blank exactly when none of its characters is outside the listed
/// `White_Space` code points: one letter makes it not blank.
pub proof fn lemma_blank_means_only_white_space(s: Seq<char>)
    ensures
        is_blank(s) <==> forall|i: int| 0 <= i < s.len() ==> white_space_code_points().contains(
            #[trigger] s[i] as u32,
        ),
        forall|i: int| 0 <= i < s.len() && !white_space_code_points().contains(#[trigger] s[i] as u32)
            ==> !is_blank(s),
{
    assert forall|i: int| 0 <= i < s.len() implies (is_white_space(s[i])
        <==> white_space_code_points().contains(s[i] as u32)) by {
        lemma_white_space_is_the_listed_code_points(s[i]);
    }
}

/// Decides `is_white_space` for one character.
pub fn char_is_white_space(c: char) -> (res: bool)
    ensures
        res == is_white_space(c),
{
    let u = c as u32;
    (0x09 <= u && u <= 0x0D) || u == 0x20 || u == 0x85 || u == 0xA0 || u == 0x1680
        || (0x2000 <= u && u <= 0x200A) || u == 0x2028 || u == 0x2029 || u == 0x202F
        || u == 0x205F || u == 0x3000
}

/// Whether `s` trims to the empty string.
pub fn trims_to_empty(s: &str) -> (res: bool)
    ensures
        res == is_blank(s@),
{
    broadcast use vstd::string::group_string_axioms;
    for c in it: s.chars()
        invariant
            it.seq() == s@,
            forall|j: int| 0 <= j < it.index() ==> is_white_space(#[trigger] s@[j]),
    {
        if !char_is_white_space(c) {
            return false;
        }
    }
    true
}

} // verus!
