//! Character-level text utilities: decimal rendering and parsing,
//! first-occurrence search, splitting, and string equality.

use vstd::prelude::*;

verus! {

/// The decimal digit character for a value below ten.
pub open spec fn digit_char(d: nat) -> char {
    if d == 0 {
        '0'
    } else if d == 1 {
        '1'
    } else if d == 2 {
        '2'
    } else if d == 3 {
        '3'
    } else if d == 4 {
        '4'
    } else if d == 5 {
        '5'
    } else if d == 6 {
        '6'
    } else if d == 7 {
        '7'
    } else if d == 8 {
        '8'
    } else {
        '9'
    }
}

/// The standard decimal rendering of a non-negative integer,
/// most significant digit first, with no leading zeros (except for zero itself).
pub open spec fn dec_digits(n: nat) -> Seq<char>
    decreases n,
{
    if n < 10 {
        seq![digit_char(n)]
    } else {
        dec_digits(n / 10) + seq![digit_char(n % 10)]
    }
}

/// The standard decimal rendering of an integer, with a leading minus sign
/// when the value is negative.
pub open spec fn int_dec(n: int) -> Seq<char> {
    if n < 0 {
        seq!['-'] + dec_digits((-n) as nat)
    } else {
        dec_digits(n as nat)
    }
}

fn digit_str(d: u64) -> (r: &'static str)
    requires
        d < 10,
    ensures
        r@ =~= seq![digit_char(d as nat)],
{
    proof {
        reveal_strlit("0");
        reveal_strlit("1");
        reveal_strlit("2");
        reveal_strlit("3");
        reveal_strlit("4");
        reveal_strlit("5");
        reveal_strlit("6");
        reveal_strlit("7");
        reveal_strlit("8");
        reveal_strlit("9");
    }
    match d {
        0 => "0",
        1 => "1",
        2 => "2",
        3 => "3",
        4 => "4",
        5 => "5",
        6 => "6",
        7 => "7",
        8 => "8",
        _ => "9",
    }
}

/// Renders an unsigned integer in decimal.
pub fn u64_to_dec(n: u64) -> (s: String)
    ensures
        s@ == dec_digits(n as nat),
    decreases n,
{
    if n < 10 {
        digit_str(n).to_owned()
    } else {
        proof {
            assert(n / 10 < n) by (nonlinear_arith)
                requires
                    n >= 10,
            ;
        }
        let mut s = u64_to_dec(n / 10);
        s.append(digit_str(n % 10));
        s
    }
}

/// Renders a signed integer in decimal.
pub fn i64_to_dec(n: i64) -> (s: String)
    ensures
        s@ == int_dec(n as int),
{
    if n < 0 {
        let m: u64 = ((-(n as i128)) as u64);
        let mut s = "-".to_owned();
        let digits = u64_to_dec(m);
        s.append(digits.as_str());
        proof {
            reveal_strlit("-");
            assert(s@ =~= int_dec(n as int));
        }
        s
    } else {
        u64_to_dec(n as u64)
    }
}

/// Whether a character is a decimal digit.
pub open spec fn is_digit(c: char) -> bool {
    48 <= c as u32 <= 57
}

/// The numeric value of a decimal digit character.
pub open spec fn digit_val(c: char) -> nat {
    (c as u32 - 48) as nat
}

/// Whether every character of a sequence is a decimal digit.
pub open spec fn all_digits(s: Seq<char>) -> bool {
    forall|i: int| 0 <= i < s.len() ==> is_digit(#[trigger] s[i])
}

/// The value of a sequence of decimal digit characters, most significant first.
pub open spec fn digits_val(s: Seq<char>) -> nat
    decreases s.len(),
{
    if s.len() == 0 {
        0
    } else {
        digits_val(s.drop_last()) * 10 + digit_val(s.last())
    }
}

/// Parses a non-empty, all-digit string as an unsigned integer, rejecting
/// anything else and any value that does not fit in sixteen bits.
pub fn parse_u16(s: &str) -> (r: Option<u16>)
    ensures
        match r {
            Some(v) => s@.len() > 0 && all_digits(s@) && digits_val(s@) == v as nat,
            None => s@.len() == 0 || !all_digits(s@) || digits_val(s@) > u16::MAX as nat,
        },
{
    let n = s.unicode_len();
    if n == 0 {
        return None;
    }
    let mut val: u32 = 0;
    let mut i: usize = 0;
    while i < n
        invariant
            0 <= i <= n,
            n == s@.len(),
            all_digits(s@.take(i as int)),
            val as nat == digits_val(s@.take(i as int)),
            val <= u16::MAX,
        decreases n - i,
    {
        let c = s.get_char(i);
        let code: u32 = c as u32;
        if code < 48 || code > 57 {
            proof {
                assert(!is_digit(s@[i as int]));
            }
            return None;
        }
        let d: u32 = code - 48;
        let next: u32 = val * 10 + d;
        proof {
            assert(s@.take(i + 1).drop_last() =~= s@.take(i as int));
            assert(s@.take(i + 1).last() == s@[i as int]);
        }
        if next > 65535 {
            proof {
                lemma_digits_val_grows(s@.take(i + 1), s@);
            }
            return None;
        }
        val = next;
        i = i + 1;
    }
    proof {
        assert(s@.take(n as int) =~= s@);
    }
    Some(val as u16)
}

/// A digit string of at most two characters stays below one hundred.
pub proof fn lemma_digits_small(s: Seq<char>)
    requires
        all_digits(s),
        s.len() <= 2,
    ensures
        digits_val(s) < 100,
{
    if s.len() == 1 {
        assert(is_digit(s[0]));
        assert(digits_val(s) == digits_val(s.drop_last()) * 10 + digit_val(s[0]));
        assert(digits_val(s.drop_last()) == 0);
    } else if s.len() == 2 {
        let p = s.drop_last();
        assert(is_digit(s[0]));
        assert(is_digit(s[1]));
        assert(p[0] == s[0]);
        assert(digits_val(p) == digits_val(p.drop_last()) * 10 + digit_val(p[0]));
        assert(digits_val(p.drop_last()) == 0);
        assert(digits_val(s) == digits_val(p) * 10 + digit_val(s[1]));
    }
}

/// The value of a longer digit string is at least the value of its prefix.
proof fn lemma_digits_val_grows(p: Seq<char>, s: Seq<char>)
    requires
        p.len() <= s.len(),
        p =~= s.take(p.len() as int),
    ensures
        digits_val(s) >= digits_val(p),
    decreases s.len() - p.len(),
{
    if p.len() < s.len() {
        let q = s.take(p.len() as int + 1);
        assert(q.drop_last() =~= p);
        assert(digits_val(q) == digits_val(p) * 10 + digit_val(q.last()));
        assert(digits_val(q) >= digits_val(p)) by (nonlinear_arith)
            requires
                digits_val(q) == digits_val(p) * 10 + digit_val(q.last()),
        ;
        lemma_digits_val_grows(q, s);
    } else {
        assert(p =~= s);
    }
}

/// The index of the first occurrence of a character, if any.
pub open spec fn first_occurrence(s: Seq<char>, c: char) -> Option<int>
    decreases s.len(),
{
    if s.len() == 0 {
        None
    } else if s[0] == c {
        Some(0)
    } else {
        match first_occurrence(s.skip(1), c) {
            Option::None => Option::None,
            Option::Some(i) => Option::Some(i + 1),
        }
    }
}

/// The first occurrence is an occurrence, and nothing before it is one.
pub proof fn lemma_first_occurrence(s: Seq<char>, c: char)
    ensures
        match first_occurrence(s, c) {
            Option::Some(i) => 0 <= i < s.len() && s[i] == c && forall|j: int|
                0 <= j < i ==> s[j] != c,
            Option::None => !contains_char(s, c),
        },
    decreases s.len(),
{
    if s.len() != 0 && s[0] != c {
        lemma_first_occurrence(s.skip(1), c);
        assert(forall|i: int| 1 <= i < s.len() ==> #[trigger] s[i] == s.skip(1)[i - 1]);
        match first_occurrence(s.skip(1), c) {
            Option::None => {
                assert(!contains_char(s, c));
            },
            Option::Some(i) => {
                assert(s.skip(1)[i] == c);
                assert(s[i + 1] == c);
                assert(forall|j: int| 1 <= j < i + 1 ==> s[j] != c);
            },
        }
    }
}

/// An index that holds the character, with none before it, is the first occurrence.
pub proof fn lemma_first_occurrence_is(s: Seq<char>, c: char, i: int)
    requires
        0 <= i < s.len(),
        s[i] == c,
        forall|j: int| 0 <= j < i ==> s[j] != c,
    ensures
        first_occurrence(s, c) == Some(i),
{
    lemma_first_occurrence(s, c);
    match first_occurrence(s, c) {
        Option::Some(k) => {
            if k < i {
                assert(s[k] != c);
            } else if i < k {
                assert(s[i] != c);
            }
        },
        Option::None => {
            assert(contains_char(s, c));
        },
    }
}

/// Finds the first occurrence of a character in a string.
pub fn find_char(s: &str, c: char) -> (r: Option<usize>)
    ensures
        match r {
            Some(i) => i < s@.len() && s@[i as int] == c && forall|j: int| 0 <= j < i ==> s@[j] != c,
            None => forall|j: int| 0 <= j < s@.len() ==> s@[j] != c,
        },
{
    let n = s.unicode_len();
    let mut i: usize = 0;
    while i < n
        invariant
            0 <= i <= n,
            n == s@.len(),
            forall|j: int| 0 <= j < i ==> s@[j] != c,
        decreases n - i,
    {
        if s.get_char(i) == c {
            return Some(i);
        }
        i = i + 1;
    }
    None
}

/// Splitting a sequence at every occurrence of a separator character.
/// The result always has at least one piece; no piece contains the separator.
pub open spec fn split_seq(s: Seq<char>, c: char) -> Seq<Seq<char>>
    decreases s.len(),
    via split_seq_dec
{
    match first_occurrence(s, c) {
        Option::None => seq![s],
        Option::Some(i) => seq![s.take(i)] + split_seq(s.skip(i + 1), c),
    }
}

#[via_fn]
proof fn split_seq_dec(s: Seq<char>, c: char) {
    lemma_first_occurrence(s, c);
}

/// Splitting at at most `n - 1` separators: the final piece keeps the rest,
/// separators included.
pub open spec fn splitn_seq(s: Seq<char>, c: char, n: nat) -> Seq<Seq<char>>
    decreases s.len(),
    via splitn_seq_dec
{
    if n <= 1 {
        seq![s]
    } else {
        match first_occurrence(s, c) {
            Option::None => seq![s],
            Option::Some(i) => seq![s.take(i)] + splitn_seq(s.skip(i + 1), c, (n - 1) as nat),
        }
    }
}

#[via_fn]
proof fn splitn_seq_dec(s: Seq<char>, c: char, n: nat) {
    lemma_first_occurrence(s, c);
}

/// Splits a string at every occurrence of a separator character.
pub fn split_char(s: &str, c: char) -> (r: Vec<String>)
    ensures
        r.deep_view() == split_seq(s@, c),
        r.len() >= 1,
    decreases s@.len(),
{
    let n = s.unicode_len();
    match find_char(s, c) {
        None => {
            proof {
                lemma_first_occurrence(s@, c);
            }
            let mut out: Vec<String> = Vec::new();
            out.push(s.to_owned());
            proof {
                assert(out.deep_view() =~= split_seq(s@, c));
            }
            out
        },
        Some(i) => {
            proof {
                lemma_first_occurrence_is(s@, c, i as int);
            }
            let head = s.substring_char(0, i);
            let tail = s.substring_char(i + 1, n);
            proof {
                assert(tail@ =~= s@.skip(i + 1));
                assert(head@ =~= s@.take(i as int));
            }
            let mut out = split_char(tail, c);
            out.insert(0, head.to_owned());
            proof {
                assert(out.deep_view() =~= split_seq(s@, c));
            }
            out
        },
    }
}

/// Splits a string at at most `n - 1` occurrences of a separator character;
/// the final piece keeps the remainder intact.
pub fn splitn_char(s: &str, c: char, n: usize) -> (r: Vec<String>)
    requires
        n >= 1,
    ensures
        r.deep_view() == splitn_seq(s@, c, n as nat),
        r.len() >= 1,
    decreases s@.len(),
{
    let len = s.unicode_len();
    if n == 1 {
        let mut out: Vec<String> = Vec::new();
        out.push(s.to_owned());
        proof {
            assert(out.deep_view() =~= splitn_seq(s@, c, n as nat));
        }
        return out;
    }
    match find_char(s, c) {
        None => {
            proof {
                lemma_first_occurrence(s@, c);
            }
            let mut out: Vec<String> = Vec::new();
            out.push(s.to_owned());
            proof {
                assert(out.deep_view() =~= splitn_seq(s@, c, n as nat));
            }
            out
        },
        Some(i) => {
            proof {
                lemma_first_occurrence_is(s@, c, i as int);
            }
            let head = s.substring_char(0, i);
            let tail = s.substring_char(i + 1, len);
            proof {
                assert(tail@ =~= s@.skip(i + 1));
                assert(head@ =~= s@.take(i as int));
            }
            let mut out = splitn_char(tail, c, n - 1);
            out.insert(0, head.to_owned());
            proof {
                assert(out.deep_view() =~= splitn_seq(s@, c, n as nat));
            }
            out
        },
    }
}

/// Compares two strings character by character.
pub fn str_eq(a: &str, b: &str) -> (r: bool)
    ensures
        r <==> a@ == b@,
{
    let na = a.unicode_len();
    let nb = b.unicode_len();
    if na != nb {
        proof {
            assert(a@ != b@) by {
                assert(a@.len() != b@.len());
            }
        }
        return false;
    }
    let mut i: usize = 0;
    while i < na
        invariant
            0 <= i <= na,
            na == a@.len(),
            na == b@.len(),
            forall|j: int| 0 <= j < i ==> a@[j] == b@[j],
        decreases na - i,
    {
        if a.get_char(i) != b.get_char(i) {
            return false;
        }
        i = i + 1;
    }
    proof {
        assert(a@ =~= b@);
    }
    true
}

/// Whether a sequence contains a given character.
pub open spec fn contains_char(s: Seq<char>, c: char) -> bool {
    exists|i: int| 0 <= i < s.len() && s[i] == c
}

/// The number of occurrences of a character in a sequence.
pub open spec fn count_char(s: Seq<char>, c: char) -> nat
    decreases s.len(),
{
    if s.len() == 0 {
        0
    } else {
        count_char(s.drop_last(), c) + (if s.last() == c {
            1nat
        } else {
            0nat
        })
    }
}

/// Occurrence counts add up across concatenation.
pub proof fn lemma_count_char_concat(a: Seq<char>, b: Seq<char>, c: char)
    ensures
        count_char(a + b, c) == count_char(a, c) + count_char(b, c),
    decreases b.len(),
{
    if b.len() == 0 {
        assert(a + b =~= a);
    } else {
        assert((a + b).drop_last() =~= a + b.drop_last());
        assert((a + b).last() == b.last());
        lemma_count_char_concat(a, b.drop_last(), c);
    }
}

/// A sequence free of a character has occurrence count zero.
pub proof fn lemma_count_char_absent(s: Seq<char>, c: char)
    requires
        !contains_char(s, c),
    ensures
        count_char(s, c) == 0,
    decreases s.len(),
{
    if s.len() > 0 {
        assert(!contains_char(s.drop_last(), c)) by {
            assert(forall|i: int|
                0 <= i < s.len() - 1 ==> s.drop_last()[i] == #[trigger] s[i]);
        }
        lemma_count_char_absent(s.drop_last(), c);
        assert(s.last() == s[s.len() - 1]);
    }
}

/// The character of a decimal digit is a digit character with that value.
pub proof fn lemma_digit_char_val(d: nat)
    requires
        d < 10,
    ensures
        is_digit(digit_char(d)),
        digit_val(digit_char(d)) == d,
{
}

/// A decimal rendering is never empty, holds digits only, and reads back to
/// the value it renders.
pub proof fn lemma_dec_digits_reads_back(n: nat)
    ensures
        dec_digits(n).len() >= 1,
        all_digits(dec_digits(n)),
        digits_val(dec_digits(n)) == n,
    decreases n,
{
    if n < 10 {
        lemma_digit_char_val(n);
        let s = dec_digits(n);
        assert(s.drop_last().len() == 0);
        assert(digits_val(s.drop_last()) == 0);
        assert(digits_val(s) == digit_val(s.last()));
    } else {
        lemma_dec_digits_reads_back(n / 10);
        lemma_digit_char_val(n % 10);
        let head = dec_digits(n / 10);
        let s = head + seq![digit_char(n % 10)];
        assert(s.drop_last() =~= head);
        assert(s.last() == digit_char(n % 10));
        assert(digits_val(s) == digits_val(head) * 10 + (n % 10));
        assert((n / 10) * 10 + n % 10 == n) by (nonlinear_arith)
            requires
                n >= 10,
        ;
        assert(all_digits(s)) by {
            assert(forall|i: int| 0 <= i < head.len() ==> #[trigger] s[i] == head[i]);
            assert(s[s.len() - 1] == digit_char(n % 10));
        }
    }
}

/// A sequence of digit characters holds no separator: neither a colon nor a
/// space is a digit.
pub proof fn lemma_digits_have_no_separator(s: Seq<char>, c: char)
    requires
        all_digits(s),
        !is_digit(c),
    ensures
        !contains_char(s, c),
        first_occurrence(s, c) is None,
{
    assert(forall|i: int| 0 <= i < s.len() ==> #[trigger] s[i] != c);
    lemma_first_occurrence(s, c);
    if first_occurrence(s, c) is Some {
        let i = first_occurrence(s, c)->0;
        assert(s[i] == c);
    }
}

/// Splitting `tok`, a separator, then `rest` at up to `n - 1` separators —
/// with `tok` free of the separator and at least two slots to fill — peels
/// off `tok` as the first piece.
pub proof fn lemma_splitn_step(tok: Seq<char>, sep: char, rest: Seq<char>, n: nat)
    requires
        !contains_char(tok, sep),
        n >= 2,
    ensures
        splitn_seq(tok + seq![sep] + rest, sep, n) == seq![tok] + splitn_seq(
            rest,
            sep,
            (n - 1) as nat,
        ),
{
    let s = tok + seq![sep] + rest;
    assert(s[tok.len() as int] == sep);
    assert(forall|j: int| 0 <= j < tok.len() ==> #[trigger] s[j] == tok[j]);
    lemma_first_occurrence_is(s, sep, tok.len() as int);
    assert(s.take(tok.len() as int) =~= tok);
    assert(s.skip(tok.len() as int + 1) =~= rest);
}

/// A concatenation of sequences free of a character is free of it too.
pub proof fn lemma_absent_concat(a: Seq<char>, b: Seq<char>, c: char)
    requires
        !contains_char(a, c),
        !contains_char(b, c),
    ensures
        !contains_char(a + b, c),
{
    assert forall|i: int| 0 <= i < (a + b).len() implies (a + b)[i] != c by {
        if i < a.len() {
            assert(a[i] != c);
        } else {
            assert(b[i - a.len()] != c);
        }
    }
}

/// Decimal digit strings never contain a question mark.
pub proof fn lemma_dec_digits_no_qmark(n: nat)
    ensures
        !contains_char(dec_digits(n), '?'),
        count_char(dec_digits(n), '?') == 0,
    decreases n,
{
    if n < 10 {
        assert(forall|i: int| 0 <= i < dec_digits(n).len() ==> dec_digits(n)[i] != '?');
    } else {
        lemma_dec_digits_no_qmark(n / 10);
        let tail = seq![digit_char(n % 10)];
        assert(forall|i: int| 0 <= i < tail.len() ==> tail[i] != '?');
        lemma_count_char_absent(tail, '?');
        lemma_count_char_concat(dec_digits(n / 10), tail, '?');
        assert(!contains_char(dec_digits(n), '?')) by {
            assert(forall|i: int|
                0 <= i < dec_digits(n / 10).len()
                    ==> #[trigger] dec_digits(n)[i] == dec_digits(n / 10)[i]);
            assert(dec_digits(n)[dec_digits(n).len() - 1] == digit_char(n % 10));
        }
    }
    lemma_count_char_absent(dec_digits(n), '?');
}

} // verus!
