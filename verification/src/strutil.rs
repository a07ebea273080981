//! Character-level helpers: searching, trimming, quote stripping, and the
//! decimal conversions that the response model and the settings parser need.

use vstd::prelude::*;

verus! {

/// A character that trimming removes: ASCII space, tab, carriage return or
/// line feed.
pub open spec fn is_space(c: char) -> bool {
    c == ' ' || c == '\t' || c == '\r' || c == '\n'
}

/// Index of the first occurrence of `c` in `s` at or after `from`, if any.
pub open spec fn first_pos_from(s: Seq<char>, c: char, from: int) -> Option<int>
    decreases s.len() - from,
{
    if from < 0 || from >= s.len() {
        None
    } else if s[from] == c {
        Some(from)
    } else {
        first_pos_from(s, c, from + 1)
    }
}

/// Index of the last occurrence of `c` in `s`, if any.
pub open spec fn last_pos(s: Seq<char>, c: char) -> Option<int>
    decreases s.len(),
{
    if s.len() == 0 {
        None
    } else if s[s.len() - 1] == c {
        Some(s.len() - 1)
    } else {
        last_pos(s.drop_last(), c)
    }
}

/// Finds the first occurrence of `c` in `s` at or after index `from`.
pub fn find_from(s: &str, c: char, from: usize) -> (r: Option<usize>)
    requires
        from <= s@.len(),
    ensures
        match r {
            Some(i) => from <= i < s@.len() && first_pos_from(s@, c, from as int) == Some(i as int),
            None => first_pos_from(s@, c, from as int) is None,
        },
{
    let len: usize = s.unicode_len();
    let mut i: usize = from;
    while i < len
        invariant
            from <= i <= len,
            len == s@.len(),
            first_pos_from(s@, c, from as int) == first_pos_from(s@, c, i as int),
        decreases len - i,
    {
        if s.get_char(i) == c {
            return Some(i);
        }
        i = i + 1;
    }
    None
}

/// Finds the last occurrence of `c` in `s`.
pub fn find_last(s: &str, c: char) -> (r: Option<usize>)
    ensures
        match r {
            Some(i) => i < s@.len() && last_pos(s@, c) == Some(i as int),
            None => last_pos(s@, c) is None,
        },
{
    let len: usize = s.unicode_len();
    let mut i: usize = len;
    proof {
        assert(s@.take(len as int) =~= s@);
    }
    while i > 0
        invariant
            i <= len,
            len == s@.len(),
            last_pos(s@, c) == last_pos(s@.take(i as int), c),
        decreases i,
    {
        let ch = s.get_char(i - 1);
        proof {
            assert(s@.take(i as int).len() == i);
            assert(s@.take(i as int)[i - 1] == s@[i - 1]);
        }
        if ch == c {
            return Some(i - 1);
        }
        proof {
            assert(s@.take(i as int).drop_last() =~= s@.take(i as int - 1));
        }
        i = i - 1;
    }
    None
}

/// Compares two string slices character by character.
pub fn str_eq(a: &str, b: &str) -> (r: bool)
    ensures
        r == (a@ == b@),
{
    let alen: usize = a.unicode_len();
    let blen: usize = b.unicode_len();
    if alen != blen {
        return false;
    }
    let mut i: usize = 0;
    while i < alen
        invariant
            i <= alen,
            alen == a@.len(),
            blen == b@.len(),
            alen == blen,
            forall|j: int| 0 <= j < i ==> a@[j] == b@[j],
        decreases alen - i,
    {
        if a.get_char(i) != b.get_char(i) {
            return false;
        }
        i = i + 1;
    }
    proof {
        assert(a@ =~= b@);
    }
    true
}

/// Index of the first character at or after `from` that is not blank; the
/// length of `s` when all of them are.
pub open spec fn first_non_space(s: Seq<char>, from: int) -> int
    decreases s.len() - from,
{
    if from < 0 || from >= s.len() {
        s.len() as int
    } else if !is_space(s[from]) {
        from
    } else {
        first_non_space(s, from + 1)
    }
}

/// One past the index of the last character that is not blank; 0 when all
/// of them are.
pub open spec fn non_space_end(s: Seq<char>) -> int
    decreases s.len(),
{
    if s.len() == 0 {
        0
    } else if !is_space(s[s.len() - 1]) {
        s.len() as int
    } else {
        non_space_end(s.drop_last())
    }
}

/// `s` with blank characters removed from both ends.
pub open spec fn trim_spec(s: Seq<char>) -> Seq<char> {
    let lo = first_non_space(s, 0);
    let hi = non_space_end(s);
    if lo < hi {
        s.subrange(lo, hi)
    } else {
        Seq::empty()
    }
}

fn is_space_char(c: char) -> (r: bool)
    ensures
        r == is_space(c),
{
    c == ' ' || c == '\t' || c == '\r' || c == '\n'
}

fn first_non_space_idx(s: &str) -> (r: usize)
    ensures
        r as int == first_non_space(s@, 0),
        r <= s@.len(),
{
    let len: usize = s.unicode_len();
    let mut i: usize = 0;
    while i < len
        invariant
            i <= len,
            len == s@.len(),
            first_non_space(s@, 0) == first_non_space(s@, i as int),
        decreases len - i,
    {
        if !is_space_char(s.get_char(i)) {
            return i;
        }
        i = i + 1;
    }
    i
}

fn non_space_end_idx(s: &str) -> (r: usize)
    ensures
        r as int == non_space_end(s@),
        r <= s@.len(),
{
    let len: usize = s.unicode_len();
    let mut i: usize = len;
    proof {
        assert(s@.take(len as int) =~= s@);
    }
    while i > 0
        invariant
            i <= len,
            len == s@.len(),
            non_space_end(s@) == non_space_end(s@.take(i as int)),
        decreases i,
    {
        proof {
            assert(s@.take(i as int).len() == i);
            assert(s@.take(i as int)[i - 1] == s@[i - 1]);
        }
        if !is_space_char(s.get_char(i - 1)) {
            return i;
        }
        proof {
            assert(s@.take(i as int).drop_last() =~= s@.take(i as int - 1));
        }
        i = i - 1;
    }
    i
}

/// Removes blank characters from both ends of `s`.
pub fn trim<'a>(s: &'a str) -> (r: &'a str)
    ensures
        r@ == trim_spec(s@),
{
    let lo: usize = first_non_space_idx(s);
    let hi: usize = non_space_end_idx(s);
    if lo < hi {
        s.substring_char(lo, hi)
    } else {
        proof {
            reveal_strlit("");
            assert(""@ =~= trim_spec(s@));
        }
        ""
    }
}

/// Index of the first character at or after `from` that is not a double
/// quote; the length of `s` when all of them are.
pub open spec fn first_non_quote(s: Seq<char>, from: int) -> int
    decreases s.len() - from,
{
    if from < 0 || from >= s.len() {
        s.len() as int
    } else if s[from] != '"' {
        from
    } else {
        first_non_quote(s, from + 1)
    }
}

/// One past the index of the last character that is not a double quote; 0
/// when all of them are.
pub open spec fn non_quote_end(s: Seq<char>) -> int
    decreases s.len(),
{
    if s.len() == 0 {
        0
    } else if s[s.len() - 1] != '"' {
        s.len() as int
    } else {
        non_quote_end(s.drop_last())
    }
}

/// `s` with double quotes removed from both ends.
pub open spec fn strip_quotes_spec(s: Seq<char>) -> Seq<char> {
    let lo = first_non_quote(s, 0);
    let hi = non_quote_end(s);
    if lo < hi {
        s.subrange(lo, hi)
    } else {
        Seq::empty()
    }
}

fn first_non_quote_idx(s: &str) -> (r: usize)
    ensures
        r as int == first_non_quote(s@, 0),
        r <= s@.len(),
{
    let len: usize = s.unicode_len();
    let mut i: usize = 0;
    while i < len
        invariant
            i <= len,
            len == s@.len(),
            first_non_quote(s@, 0) == first_non_quote(s@, i as int),
        decreases len - i,
    {
        if s.get_char(i) != '"' {
            return i;
        }
        i = i + 1;
    }
    i
}

fn non_quote_end_idx(s: &str) -> (r: usize)
    ensures
        r as int == non_quote_end(s@),
        r <= s@.len(),
{
    let len: usize = s.unicode_len();
    let mut i: usize = len;
    proof {
        assert(s@.take(len as int) =~= s@);
    }
    while i > 0
        invariant
            i <= len,
            len == s@.len(),
            non_quote_end(s@) == non_quote_end(s@.take(i as int)),
        decreases i,
    {
        proof {
            assert(s@.take(i as int).len() == i);
            assert(s@.take(i as int)[i - 1] == s@[i - 1]);
        }
        if s.get_char(i - 1) != '"' {
            return i;
        }
        proof {
            assert(s@.take(i as int).drop_last() =~= s@.take(i as int - 1));
        }
        i = i - 1;
    }
    i
}

/// Removes double quotes from both ends of `s`.
pub fn strip_quotes<'a>(s: &'a str) -> (r: &'a str)
    ensures
        r@ == strip_quotes_spec(s@),
{
    let lo: usize = first_non_quote_idx(s);
    let hi: usize = non_quote_end_idx(s);
    if lo < hi {
        s.substring_char(lo, hi)
    } else {
        proof {
            reveal_strlit("");
            assert(""@ =~= strip_quotes_spec(s@));
        }
        ""
    }
}

/// The character that prints a decimal digit.
pub open spec fn digit_char(d: nat) -> char {
    if d == 0 {
        '0'
    } else if d == 1 {
        '1'
    } else if d == 2 {
        '2'
    } else if d == 3 {
        '3'
    } else if d == 4 {
        '4'
    } else if d == 5 {
        '5'
    } else if d == 6 {
        '6'
    } else if d == 7 {
        '7'
    } else if d == 8 {
        '8'
    } else {
        '9'
    }
}

/// The decimal rendering of `n`, without sign or leading zeros.
pub open spec fn decimal_chars(n: nat) -> Seq<char>
    decreases n,
{
    if n < 10 {
        seq![digit_char(n)]
    } else {
        decimal_chars(n / 10).push(digit_char(n % 10))
    }
}

fn digit_str(d: usize) -> (r: &'static str)
    requires
        d < 10,
    ensures
        r@ =~= seq![digit_char(d as nat)],
{
    proof {
        reveal_strlit("0");
        reveal_strlit("1");
        reveal_strlit("2");
        reveal_strlit("3");
        reveal_strlit("4");
        reveal_strlit("5");
        reveal_strlit("6");
        reveal_strlit("7");
        reveal_strlit("8");
        reveal_strlit("9");
    }
    match d {
        0 => "0",
        1 => "1",
        2 => "2",
        3 => "3",
        4 => "4",
        5 => "5",
        6 => "6",
        7 => "7",
        8 => "8",
        _ => "9",
    }
}

fn push_decimal(out: &mut String, n: usize)
    ensures
        final(out)@ == old(out)@ + decimal_chars(n as nat),
    decreases n,
{
    if n >= 10 {
        proof {
            assert(n / 10 < n) by (nonlinear_arith)
                requires
                    n >= 10,
            ;
        }
        push_decimal(out, n / 10);
        let d: usize = n % 10;
        out.append(digit_str(d));
        proof {
            assert(decimal_chars((n / 10) as nat).push(digit_char((n % 10) as nat)) =~= decimal_chars(
                (n / 10) as nat,
            ) + seq![digit_char((n % 10) as nat)]);
            assert(final(out)@ =~= old(out)@ + decimal_chars(n as nat));
        }
    } else {
        out.append(digit_str(n));
    }
}

/// Renders `n` in decimal.
pub fn usize_to_string(n: usize) -> (r: String)
    ensures
        r@ == decimal_chars(n as nat),
{
    let mut out: String = String::new();
    push_decimal(&mut out, n);
    proof {
        assert(out@ =~= decimal_chars(n as nat));
    }
    out
}

/// Whether `c` is a decimal digit.
pub open spec fn is_digit(c: char) -> bool {
    c == '0' || c == '1' || c == '2' || c == '3' || c == '4' || c == '5' || c == '6' || c == '7'
        || c == '8' || c == '9'
}

/// Numeric value of a decimal digit; 0 for any other character.
pub open spec fn digit_val(c: char) -> nat {
    if c == '1' {
        1
    } else if c == '2' {
        2
    } else if c == '3' {
        3
    } else if c == '4' {
        4
    } else if c == '5' {
        5
    } else if c == '6' {
        6
    } else if c == '7' {
        7
    } else if c == '8' {
        8
    } else if c == '9' {
        9
    } else {
        0
    }
}

/// Whether every character of `s` is a decimal digit.
pub open spec fn all_digits(s: Seq<char>) -> bool {
    forall|i: int| 0 <= i < s.len() ==> is_digit(#[trigger] s[i])
}

/// Value of a digit string, most significant digit first.
pub open spec fn digits_val(s: Seq<char>) -> nat
    decreases s.len(),
{
    if s.len() == 0 {
        0
    } else {
        digits_val(s.drop_last()) * 10 + digit_val(s[s.len() - 1])
    }
}

/// What parsing an unsigned decimal accepts: an optional leading `+`, then
/// at least one digit, the value fitting in `usize`.
pub open spec fn usize_from_str_spec(s: Seq<char>) -> Option<nat> {
    let ds = if s.len() > 0 && s[0] == '+' {
        s.subrange(1, s.len() as int)
    } else {
        s
    };
    if ds.len() > 0 && all_digits(ds) && digits_val(ds) <= usize::MAX as nat {
        Some(digits_val(ds))
    } else {
        None
    }
}

proof fn lemma_digits_val_prefix_le(s: Seq<char>, i: int)
    requires
        0 <= i <= s.len(),
    ensures
        digits_val(s.take(i)) <= digits_val(s),
    decreases s.len() - i,
{
    if i < s.len() {
        assert(s.take(i + 1).drop_last() =~= s.take(i));
        assert(s.take(i + 1)[i] == s[i]);
        assert(digits_val(s.take(i)) * 10 >= digits_val(s.take(i))) by (nonlinear_arith);
        lemma_digits_val_prefix_le(s, i + 1);
    } else {
        assert(s.take(i) =~= s);
    }
}

fn is_digit_char(c: char) -> (r: bool)
    ensures
        r == is_digit(c),
{
    c == '0' || c == '1' || c == '2' || c == '3' || c == '4' || c == '5' || c == '6' || c == '7'
        || c == '8' || c == '9'
}

fn digit_value(c: char) -> (r: usize)
    requires
        is_digit(c),
    ensures
        r as nat == digit_val(c),
{
    match c {
        '0' => 0,
        '1' => 1,
        '2' => 2,
        '3' => 3,
        '4' => 4,
        '5' => 5,
        '6' => 6,
        '7' => 7,
        '8' => 8,
        _ => 9,
    }
}

/// Parses an unsigned decimal as `usize::from_str` does: optional leading
/// `+`, at least one digit, and no overflow.
pub fn parse_usize(s: &str) -> (r: Option<usize>)
    ensures
        match r {
            Some(v) => usize_from_str_spec(s@) == Some(v as nat),
            None => usize_from_str_spec(s@) is None,
        },
{
    let len: usize = s.unicode_len();
    let start: usize = if len > 0 && s.get_char(0) == '+' {
        1
    } else {
        0
    };
    let ghost ds: Seq<char> = if s@.len() > 0 && s@[0] == '+' {
        s@.subrange(1, s@.len() as int)
    } else {
        s@
    };
    if start >= len {
        return None;
    }
    let mut acc: usize = 0;
    let mut i: usize = start;
    proof {
        assert(ds.take(0) =~= Seq::<char>::empty());
    }
    while i < len
        invariant
            start <= i <= len,
            len == s@.len(),
            start <= 1,
            start == 1 ==> len > 0 && s@[0] == '+',
            start == 0 ==> !(s@.len() > 0 && s@[0] == '+'),
            ds == (if s@.len() > 0 && s@[0] == '+' {
                s@.subrange(1, s@.len() as int)
            } else {
                s@
            }),
            ds.len() == len - start,
            forall|j: int| 0 <= j < ds.len() ==> ds[j] == s@[j + start],
            all_digits(ds.take(i - start)),
            acc as nat == digits_val(ds.take(i - start)),
        decreases len - i,
    {
        let c = s.get_char(i);
        let ghost k: int = i - start;
        if !is_digit_char(c) {
            proof {
                assert(ds[k] == c);
                assert(!all_digits(ds));
            }
            return None;
        }
        let d: usize = digit_value(c);
        proof {
            assert(ds.take(k + 1).drop_last() =~= ds.take(k));
            assert(ds.take(k + 1)[k] == ds[k]);
            assert(digits_val(ds.take(k + 1)) == digits_val(ds.take(k)) * 10 + digit_val(c));
        }
        let next: usize = match acc.checked_mul(10) {
            Some(m) => match m.checked_add(d) {
                Some(v) => v,
                None => {
                    proof {
                        lemma_digits_val_prefix_le(ds, k + 1);
                    }
                    return None;
                },
            },
            None => {
                proof {
                    assert(digits_val(ds.take(k + 1)) >= digits_val(ds.take(k)) * 10);
                    lemma_digits_val_prefix_le(ds, k + 1);
                }
                return None;
            },
        };
        acc = next;
        proof {
            assert(all_digits(ds.take(k + 1)));
        }
        i = i + 1;
    }
    proof {
        assert(ds.take(len - start) =~= ds);
    }
    Some(acc)
}

/// What parsing a boolean accepts: exactly `true` or `false`.
pub open spec fn bool_from_str_spec(s: Seq<char>) -> Option<bool> {
    if s == "true"@ {
        Some(true)
    } else if s == "false"@ {
        Some(false)
    } else {
        None
    }
}

/// Parses a boolean as `bool::from_str` does.
pub fn parse_bool(s: &str) -> (r: Option<bool>)
    ensures
        match r {
            Some(b) => bool_from_str_spec(s@) == Some(b),
            None => bool_from_str_spec(s@) is None,
        },
{
    if str_eq(s, "true") {
        Some(true)
    } else if str_eq(s, "false") {
        Some(false)
    } else {
        None
    }
}

} // verus!
