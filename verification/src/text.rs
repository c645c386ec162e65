//! Character-level helpers shared by the address codec: ASCII lower-casing
//! and decimal rendering of port numbers.

use vstd::prelude::*;

verus! {

/// ASCII lower-casing of one character: `A`..=`Z` map to `a`..=`z`,
/// everything else is unchanged.
pub open spec fn lower_char(c: char) -> char {
    if 65 <= c as u32 && c as u32 <= 90 {
        ((c as u32 + 32) as u8) as char
    } else {
        c
    }
}

/// ASCII lower-casing of a character sequence.
pub open spec fn lower_seq(s: Seq<char>) -> Seq<char> {
    s.map_values(|c: char| lower_char(c))
}

/// The lower-case counterpart of an ASCII capital letter, as a string slice.
fn lower_lit(c: char) -> (r: &'static str)
    requires
        65 <= c as u32 && c as u32 <= 90,
    ensures
        r@ =~= seq![lower_char(c)],
{
    proof {
        reveal_strlit("a");
        reveal_strlit("b");
        reveal_strlit("c");
        reveal_strlit("d");
        reveal_strlit("e");
        reveal_strlit("f");
        reveal_strlit("g");
        reveal_strlit("h");
        reveal_strlit("i");
        reveal_strlit("j");
        reveal_strlit("k");
        reveal_strlit("l");
        reveal_strlit("m");
        reveal_strlit("n");
        reveal_strlit("o");
        reveal_strlit("p");
        reveal_strlit("q");
        reveal_strlit("r");
        reveal_strlit("s");
        reveal_strlit("t");
        reveal_strlit("u");
        reveal_strlit("v");
        reveal_strlit("w");
        reveal_strlit("x");
        reveal_strlit("y");
        reveal_strlit("z");
    }
    if c == 'A' {
        "a"
    } else if c == 'B' {
        "b"
    } else if c == 'C' {
        "c"
    } else if c == 'D' {
        "d"
    } else if c == 'E' {
        "e"
    } else if c == 'F' {
        "f"
    } else if c == 'G' {
        "g"
    } else if c == 'H' {
        "h"
    } else if c == 'I' {
        "i"
    } else if c == 'J' {
        "j"
    } else if c == 'K' {
        "k"
    } else if c == 'L' {
        "l"
    } else if c == 'M' {
        "m"
    } else if c == 'N' {
        "n"
    } else if c == 'O' {
        "o"
    } else if c == 'P' {
        "p"
    } else if c == 'Q' {
        "q"
    } else if c == 'R' {
        "r"
    } else if c == 'S' {
        "s"
    } else if c == 'T' {
        "t"
    } else if c == 'U' {
        "u"
    } else if c == 'V' {
        "v"
    } else if c == 'W' {
        "w"
    } else if c == 'X' {
        "x"
    } else if c == 'Y' {
        "y"
    } else {
        "z"
    }
}

/// Lower-cases the ASCII letters of a string; other characters are copied
/// through unchanged.
pub fn ascii_lowercase(s: &str) -> (r: String)
    ensures
        r@ == lower_seq(s@),
{
    let n = s.unicode_len();
    let mut out = String::new();
    let mut i: usize = 0;
    while i < n
        invariant
            i <= n,
            n == s@.len(),
            out@ =~= lower_seq(s@.take(i as int)),
        decreases n - i,
    {
        let c = s.get_char(i);
        let u = c as u32;
        if 65 <= u && u <= 90 {
            out.append(lower_lit(c));
        } else {
            out.append(s.substring_char(i, i + 1));
        }
        proof {
            assert(s@.take(i + 1 as int).map_values(|ch: char| lower_char(ch))
                =~= s@.take(i as int).map_values(|ch: char| lower_char(ch))
                    + seq![lower_char(s@[i as int])]);
        }
        i = i + 1;
    }
    proof {
        assert(s@.take(n as int) =~= s@);
    }
    out
}

/// The decimal digit character for `d` (`0`..=`9` for 0..=9).
pub open spec fn digit_char(d: nat) -> char {
    ((48 + d % 10) as u8) as char
}

/// Decimal representation of `n`: most significant digit first, no sign,
/// no leading zeros (a single `0` for zero).
pub open spec fn dec_digits(n: nat) -> Seq<char>
    decreases n,
{
    if n < 10 {
        seq![digit_char(n)]
    } else {
        dec_digits(n / 10) + seq![digit_char(n % 10)]
    }
}

/// The decimal digit `d` as a string slice.
fn digit_lit(d: u16) -> (r: &'static str)
    requires
        d < 10,
    ensures
        r@ =~= seq![digit_char(d as nat)],
{
    proof {
        reveal_strlit("0");
        reveal_strlit("1");
        reveal_strlit("2");
        reveal_strlit("3");
        reveal_strlit("4");
        reveal_strlit("5");
        reveal_strlit("6");
        reveal_strlit("7");
        reveal_strlit("8");
        reveal_strlit("9");
    }
    if d == 0 {
        "0"
    } else if d == 1 {
        "1"
    } else if d == 2 {
        "2"
    } else if d == 3 {
        "3"
    } else if d == 4 {
        "4"
    } else if d == 5 {
        "5"
    } else if d == 6 {
        "6"
    } else if d == 7 {
        "7"
    } else if d == 8 {
        "8"
    } else {
        "9"
    }
}

/// Appends the decimal rendering of `n` to `out`.
pub fn append_dec(out: &mut String, n: u16)
    ensures
        final(out)@ == old(out)@ + dec_digits(n as nat),
    decreases n,
{
    if n >= 10 {
        append_dec(out, n / 10);
    }
    out.append(digit_lit(n % 10));
    proof {
        if n >= 10 {
            assert(old(out)@ + dec_digits((n / 10) as nat)
                + seq![digit_char((n % 10) as nat)]
                =~= old(out)@ + dec_digits(n as nat));
        } else {
            assert(old(out)@ + dec_digits(n as nat)
                =~= old(out)@ + seq![digit_char(n as nat)]);
        }
    }
}

/// Whether the three characters of `s` at `i` spell the scheme separator
/// `://`.
pub open spec fn sep_at(s: Seq<char>, i: int) -> bool {
    &&& 0 <= i
    &&& i + 3 <= s.len()
    &&& s[i] == ':'
    &&& s[i + 1] == '/'
    &&& s[i + 2] == '/'
}

/// The position of the first scheme separator of `s` at or after `i`.
pub open spec fn find_sep_from(s: Seq<char>, i: int) -> Option<int>
    decreases s.len() - i,
{
    if i < 0 || i + 3 > s.len() {
        None
    } else if sep_at(s, i) {
        Some(i)
    } else {
        find_sep_from(s, i + 1)
    }
}

/// The position of the first scheme separator of `s`, if any.
pub open spec fn find_sep(s: Seq<char>) -> Option<int> {
    find_sep_from(s, 0)
}

/// The first separator at or after `i` stands at `k` when `k` carries one
/// and no position in between does.
pub proof fn lemma_find_sep_from_some(s: Seq<char>, i: int, k: int)
    requires
        0 <= i <= k,
        sep_at(s, k),
        forall|j: int| i <= j < k ==> !sep_at(s, j),
    ensures
        find_sep_from(s, i) == Some(k),
    decreases k - i,
{
    if i < k {
        lemma_find_sep_from_some(s, i + 1, k);
    }
}

/// No position at or after `i` carries a separator, so none is found.
pub proof fn lemma_find_sep_from_none(s: Seq<char>, i: int)
    requires
        0 <= i,
        forall|j: int| i <= j ==> !sep_at(s, j),
    ensures
        find_sep_from(s, i) is None,
    decreases s.len() - i,
{
    if i + 3 <= s.len() {
        lemma_find_sep_from_none(s, i + 1);
    }
}

/// A found separator position carries one, and no earlier position at or
/// after `i` does; when none is found, no position carries one.
pub proof fn lemma_find_sep_from_inv(s: Seq<char>, i: int)
    requires
        0 <= i,
    ensures
        match find_sep_from(s, i) {
            Some(k) => i <= k && sep_at(s, k) && forall|j: int| i <= j < k ==> !sep_at(s, j),
            None => forall|j: int| i <= j ==> !sep_at(s, j),
        },
    decreases s.len() - i,
{
    if i + 3 <= s.len() && !sep_at(s, i) {
        lemma_find_sep_from_inv(s, i + 1);
    }
}

/// Three-way lexicographic comparison of two character sequences by Unicode
/// scalar value, shorter prefixes first.
pub open spec fn lex_cmp(x: Seq<char>, y: Seq<char>) -> core::cmp::Ordering
    decreases x.len(),
{
    if x.len() == 0 && y.len() == 0 {
        core::cmp::Ordering::Equal
    } else if x.len() == 0 {
        core::cmp::Ordering::Less
    } else if y.len() == 0 {
        core::cmp::Ordering::Greater
    } else if (x[0] as u32) < (y[0] as u32) {
        core::cmp::Ordering::Less
    } else if (x[0] as u32) > (y[0] as u32) {
        core::cmp::Ordering::Greater
    } else {
        lex_cmp(x.drop_first(), y.drop_first())
    }
}

/// A sequence compares equal to itself.
pub proof fn lemma_lex_cmp_refl(s: Seq<char>)
    ensures
        lex_cmp(s, s) == core::cmp::Ordering::Equal,
    decreases s.len(),
{
    if s.len() > 0 {
        lemma_lex_cmp_refl(s.drop_first());
    }
}

/// Compares two strings lexicographically by Unicode scalar value.
pub fn str_lex_cmp(x: &str, y: &str) -> (r: core::cmp::Ordering)
    ensures
        r == lex_cmp(x@, y@),
{
    let nx = x.unicode_len();
    let ny = y.unicode_len();
    let mut i: usize = 0;
    proof {
        assert(x@.skip(0) =~= x@);
        assert(y@.skip(0) =~= y@);
    }
    while i < nx && i < ny
        invariant
            nx == x@.len(),
            ny == y@.len(),
            i <= nx,
            i <= ny,
            lex_cmp(x@, y@) == lex_cmp(x@.skip(i as int), y@.skip(i as int)),
        decreases nx - i,
    {
        let cx = x.get_char(i) as u32;
        let cy = y.get_char(i) as u32;
        if cx < cy {
            return core::cmp::Ordering::Less;
        }
        if cx > cy {
            return core::cmp::Ordering::Greater;
        }
        proof {
            assert(x@.skip(i as int).drop_first() =~= x@.skip(i + 1 as int));
            assert(y@.skip(i as int).drop_first() =~= y@.skip(i + 1 as int));
        }
        i = i + 1;
    }
    if nx < ny {
        core::cmp::Ordering::Less
    } else if nx > ny {
        core::cmp::Ordering::Greater
    } else {
        core::cmp::Ordering::Equal
    }
}

/// Finds the first occurrence of the `://` separator in `s`.
pub fn find_sep_x(s: &str) -> (r: Option<usize>)
    ensures
        match r {
            Some(k) => find_sep(s@) == Some(k as int),
            None => find_sep(s@) is None,
        },
{
    let n = s.unicode_len();
    if n < 3 {
        proof {
            lemma_find_sep_from_none(s@, 0);
        }
        return None;
    }
    let mut i: usize = 0;
    while i <= n - 3
        invariant
            n == s@.len(),
            n >= 3,
            i <= n,
            forall|j: int| 0 <= j < i ==> !sep_at(s@, j),
        decreases n - i,
    {
        if s.get_char(i) == ':' && s.get_char(i + 1) == '/' && s.get_char(i + 2) == '/' {
            proof {
                lemma_find_sep_from_some(s@, 0, i as int);
            }
            return Some(i);
        }
        i = i + 1;
    }
    proof {
        lemma_find_sep_from_none(s@, 0);
    }
    None
}

} // verus!
